//! The list of threads, the selection in it, and what an input does.

use crate::event::{sat_diff, Event, EventResult, KeyCode, KeyEvent, MouseEvent, MouseKind, Rect};
use crate::list_nav::{next_sel, next_selection, prev_sel, previous_selection};
use crate::panel_mouse::{hit, hit_item, is_scrollbar_column, on_scrollbar, ListLayout};
use crate::scroll_view::ScrollViewState;
use crate::text::{opt_view, same};
use vstd::prelude::*;

verus! {

/// Which threads are listed.
#[derive(Debug, Clone, Copy, PartialEq, Eq, Structural)]
pub enum ThreadBrowserScope {
    Project,
    Workspace,
    All,
}

impl ThreadBrowserScope {
    /// The scope that follows.
    pub open spec fn next(self) -> ThreadBrowserScope {
        match self {
            ThreadBrowserScope::Project => ThreadBrowserScope::Workspace,
            ThreadBrowserScope::Workspace => ThreadBrowserScope::All,
            ThreadBrowserScope::All => ThreadBrowserScope::Project,
        }
    }
}

/// The scopes follow one another in a circle of three.
pub proof fn scopes_cycle(s: ThreadBrowserScope)
    ensures
        s.next().next().next() == s,
        s.next() != s,
{
}

/// What the list shows of a thread. The time of the last change is given in seconds
/// since the epoch.
#[derive(Debug)]
pub struct ThreadSummary {
    pub id: String,
    pub title: Option<String>,
    pub updated_at: Option<i64>,
    pub cwd: String,
    pub message_count: u64,
}

/// What the list shows of a thread, abstractly.
pub struct ThreadV {
    pub id: Seq<char>,
    pub title: Option<Seq<char>>,
    pub updated_at: Option<i64>,
    pub cwd: Seq<char>,
    pub message_count: nat,
}

impl View for ThreadSummary {
    type V = ThreadV;

    open spec fn view(&self) -> ThreadV {
        ThreadV {
            id: self.id@,
            title: opt_view(self.title),
            updated_at: self.updated_at,
            cwd: self.cwd@,
            message_count: self.message_count as nat,
        }
    }
}

/// The threads fetched so far, and how many pages of them are asked for.
#[derive(Debug)]
pub struct ThreadList {
    pub scope: ThreadBrowserScope,
    pub threads: Vec<ThreadSummary>,
    pub has_more: bool,
    pub page_count: u32,
    pub page_size: u32,
}

/// The threads fetched so far, abstractly.
pub struct ListV {
    pub scope: ThreadBrowserScope,
    pub threads: Seq<ThreadV>,
    pub has_more: bool,
    pub page_count: int,
    pub page_size: int,
}

impl View for ThreadList {
    type V = ListV;

    open spec fn view(&self) -> ListV {
        ListV {
            scope: self.scope,
            threads: self.threads@.map_values(|t: ThreadSummary| t@),
            has_more: self.has_more,
            page_count: self.page_count as int,
            page_size: self.page_size as int,
        }
    }
}

impl ListV {
    /// Another scope: nothing is fetched of it yet.
    pub open spec fn rescoped(self) -> ListV {
        ListV {
            scope: self.scope.next(),
            threads: Seq::empty(),
            has_more: false,
            page_count: 1,
            ..self
        }
    }

    /// The number of pages that hold the threads fetched so far, counting at most
    /// `u32::MAX` threads.
    pub open spec fn loaded_pages(self) -> int {
        let loaded = if self.threads.len() > u32::MAX {
            u32::MAX as int
        } else {
            self.threads.len() as int
        };
        if loaded % self.page_size == 0 {
            loaded / self.page_size
        } else {
            loaded / self.page_size + 1
        }
    }

    /// One page more than is fetched is asked for, where there are more threads.
    pub open spec fn more_asked(self) -> ListV {
        let wanted = if self.loaded_pages() < u32::MAX {
            self.loaded_pages() + 1
        } else {
            u32::MAX as int
        };
        if self.has_more && self.threads.len() > 0 && wanted > self.page_count {
            ListV { page_count: wanted, ..self }
        } else {
            self
        }
    }
}

/// Asking again before the page has come changes nothing, and no page is taken back.
pub proof fn asking_again_changes_nothing(l: ListV)
    ensures
        l.more_asked().more_asked() == l.more_asked(),
        l.more_asked().page_count >= l.page_count,
{
}

impl ThreadList {
    /// Asks for one page more than is fetched.
    pub fn request_more_threads(&mut self)
        requires
            old(self).page_size > 0,
        ensures
            final(self)@ == old(self)@.more_asked(),
            final(self).page_size == old(self).page_size,
    {
        if !self.has_more || self.threads.len() == 0 {
            return ;
        }
        let loaded: u32 = if self.threads.len() > u32::MAX as usize {
            u32::MAX
        } else {
            self.threads.len() as u32
        };
        let pages: u32 = loaded / self.page_size;
        let rest: u32 = loaded % self.page_size;
        proof {
            let size = self.page_size as int;
            assert(pages < u32::MAX || rest == 0) by (nonlinear_arith)
                requires
                    pages == loaded as int / size,
                    rest == loaded as int % size,
                    size > 0,
                    loaded <= u32::MAX,
            ;
        }
        let loaded_pages: u32 = if rest == 0 {
            pages
        } else {
            pages + 1
        };
        assert(loaded_pages == self@.loaded_pages());
        let requested: u32 = loaded_pages.saturating_add(1);
        if requested > self.page_count {
            self.page_count = requested;
        }
    }

    fn rescope(&mut self)
        ensures
            final(self)@ == old(self)@.rescoped(),
            final(self).page_size == old(self).page_size,
    {
        self.scope = match self.scope {
            ThreadBrowserScope::Project => ThreadBrowserScope::Workspace,
            ThreadBrowserScope::Workspace => ThreadBrowserScope::All,
            ThreadBrowserScope::All => ThreadBrowserScope::Project,
        };
        self.page_count = 1;
        self.has_more = false;
        self.threads = Vec::new();
        assert(self@.threads =~= Seq::empty());
    }
}

/// What the panel keeps between two inputs.
#[derive(Debug)]
pub struct ThreadBrowserPanel {
    pub cursor: usize,
    pub selected_id: Option<String>,
    pub last_viewport: usize,
    pub confirm_delete: Option<String>,
    pub sv: ScrollViewState,
    pub preview_sv: ScrollViewState,
    pub preview_id: Option<String>,
}

/// What the panel keeps, abstractly.
pub struct BrowserV {
    pub cursor: int,
    pub selected_id: Option<Seq<char>>,
    pub last_viewport: int,
    pub confirm_delete: Option<Seq<char>>,
    pub sv: ScrollViewState,
    pub preview_sv: ScrollViewState,
    pub preview_id: Option<Seq<char>>,
}

impl View for ThreadBrowserPanel {
    type V = BrowserV;

    open spec fn view(&self) -> BrowserV {
        BrowserV {
            cursor: self.cursor as int,
            selected_id: opt_view(self.selected_id),
            last_viewport: self.last_viewport as int,
            confirm_delete: opt_view(self.confirm_delete),
            sv: self.sv,
            preview_sv: self.preview_sv,
            preview_id: opt_view(self.preview_id),
        }
    }
}

/// A view at its start.
pub open spec fn unscrolled() -> ScrollViewState {
    ScrollViewState { x: 0, y: 0, content_height: None, page_height: None }
}

impl BrowserV {
    /// The panel as it opens.
    pub open spec fn fresh() -> BrowserV {
        BrowserV {
            cursor: 0,
            selected_id: None,
            last_viewport: 0,
            confirm_delete: None,
            sv: unscrolled(),
            preview_sv: unscrolled(),
            preview_id: None,
        }
    }
}

impl Default for ThreadBrowserPanel {
    fn default() -> (b: ThreadBrowserPanel)
        ensures
            b@ == BrowserV::fresh(),
    {
        ThreadBrowserPanel {
            cursor: 0,
            selected_id: None,
            last_viewport: 0,
            confirm_delete: None,
            sv: ScrollViewState::default(),
            preview_sv: ScrollViewState::default(),
            preview_id: None,
        }
    }
}

/// The last position of a list, 0 for an empty one.
pub open spec fn last_of(count: int) -> int {
    if count > 0 {
        count - 1
    } else {
        0
    }
}

/// The number of rows of the list in a panel of a height: all but six, and one at
/// least.
pub open spec fn viewport(panel_height: u16) -> int {
    if panel_height > 7 {
        panel_height - 6
    } else {
        1
    }
}

/// The number of rows of a preview in a panel of a height.
pub open spec fn preview_viewport(panel_height: u16) -> int {
    if panel_height > 6 {
        panel_height - 5
    } else {
        1
    }
}

/// The number of rows of the list in a panel of a height.
pub fn viewport_rows(panel_height: u16) -> (r: usize)
    ensures
        r == viewport(panel_height),
{
    if panel_height > 7 {
        (panel_height - 6) as usize
    } else {
        1
    }
}

/// The number of rows of a preview in a panel of a height.
pub fn preview_viewport_rows(panel_height: u16) -> (r: usize)
    ensures
        r == preview_viewport(panel_height),
{
    if panel_height > 6 {
        (panel_height - 5) as usize
    } else {
        1
    }
}

// ── Keeping the selection on the screen ────────────────────────────────────

/// The sum, or the largest number that a position can be.
pub open spec fn sat_sum(a: int, b: int) -> int {
    if a + b > usize::MAX {
        usize::MAX as int
    } else {
        a + b
    }
}

/// The first row to show so that a selected row is among those shown: where it
/// is, if that does, else the nearest.
pub open spec fn shown_from(start: int, selected: int, count: int, viewport: int) -> int {
    let moved = if selected < start {
        selected
    } else if selected >= sat_sum(start, viewport) {
        sat_diff(sat_sum(selected, 1), viewport)
    } else {
        start
    };
    if moved < sat_diff(count, viewport) {
        moved
    } else {
        sat_diff(count, viewport)
    }
}

/// A row as an offset of a view, which holds 16 bits.
pub open spec fn capped(row: int) -> u16 {
    if row < u16::MAX {
        row as u16
    } else {
        u16::MAX
    }
}

/// The view moved so that a selected row is among those shown, as far as the row offset of a
/// view counts.
pub open spec fn revealed(
    s: ScrollViewState,
    selected: int,
    count: int,
    viewport: int,
) -> ScrollViewState {
    if count == 0 || viewport == 0 {
        s
    } else {
        ScrollViewState {
            x: 0,
            y: capped(shown_from(s.y as int, selected, count, viewport)),
            ..s
        }
    }
}

/// Moves the view so that a selected row is among those shown.
pub fn keep_selection_visible(
    state: &mut ScrollViewState,
    selected: usize,
    count: usize,
    viewport: usize,
)
    ensures
        *final(state) == revealed(*old(state), selected as int, count as int, viewport as int),
{
    if count == 0 || viewport == 0 {
        return ;
    }
    let max_start: usize = count.saturating_sub(viewport);
    let mut start: usize = state.y as usize;
    if selected < start {
        start = selected;
    } else if selected >= start.saturating_add(viewport) {
        start = selected.saturating_add(1).saturating_sub(viewport);
    }
    let to: usize = if start < max_start {
        start
    } else {
        max_start
    };
    assert(to == shown_from(old(state).y as int, selected as int, count as int, viewport as int));
    state.set_offset(
        0,
        if to < u16::MAX as usize {
            to as u16
        } else {
            u16::MAX
        },
    );
}

/// Once the view has been moved, the selected row is among those shown, and the view
/// does not reach beyond the list where the list fills it.
pub proof fn selection_is_shown(s: ScrollViewState, selected: int, count: int, viewport: int)
    requires
        0 <= selected < count,
        viewport > 0,
        count <= usize::MAX,
        count - viewport <= u16::MAX,
    ensures
        revealed(s, selected, count, viewport).y <= selected,
        selected < revealed(s, selected, count, viewport).y + viewport,
        count >= viewport ==> revealed(s, selected, count, viewport).y + viewport <= count,
{
}

// ── Following the list ─────────────────────────────────────────────────────

/// The first thread of an id at or behind a position, or the length.
pub open spec fn found_from(ts: Seq<ThreadV>, id: Seq<char>, i: int) -> int
    decreases ts.len() - i,
{
    if i < 0 || i >= ts.len() || ts[i].id == id {
        i
    } else {
        found_from(ts, id, i + 1)
    }
}

/// The position of the selection: where the selected thread stands now, or else the
/// cursor within the list.
pub open spec fn selected_index(b: BrowserV, ts: Seq<ThreadV>) -> int {
    let here = if b.cursor < last_of(ts.len() as int) {
        b.cursor
    } else {
        last_of(ts.len() as int)
    };
    match b.selected_id {
        Some(id) => if found_from(ts, id, 0) < ts.len() {
            found_from(ts, id, 0)
        } else {
            here
        },
        None => here,
    }
}

/// The id of the thread at a position.
pub open spec fn id_at(ts: Seq<ThreadV>, i: int) -> Option<Seq<char>> {
    if 0 <= i < ts.len() {
        Some(ts[i].id)
    } else {
        None
    }
}

/// The panel after the list or the height has changed.
pub open spec fn followed(b: BrowserV, ts: Seq<ThreadV>, rows: int) -> BrowserV {
    let i = selected_index(b, ts);
    BrowserV {
        cursor: i,
        selected_id: id_at(ts, i),
        last_viewport: rows,
        sv: if b.last_viewport != rows {
            revealed(b.sv, i, ts.len() as int, rows)
        } else {
            b.sv
        },
        ..b
    }
}

proof fn found_is_there(ts: Seq<ThreadV>, id: Seq<char>, i: int)
    requires
        0 <= i <= ts.len(),
    ensures
        i <= found_from(ts, id, i) <= ts.len(),
        found_from(ts, id, i) < ts.len() ==> ts[found_from(ts, id, i)].id == id,
        forall|j: int| i <= j < found_from(ts, id, i) ==> ts[j].id != id,
    decreases ts.len() - i,
{
    if i < ts.len() && ts[i].id != id {
        found_is_there(ts, id, i + 1);
    }
}

/// The selected thread stays selected wherever it moves in the list.
pub proof fn selection_follows_the_thread(b: BrowserV, ts: Seq<ThreadV>, rows: int, j: int)
    requires
        0 <= j < ts.len(),
        b.selected_id == Some(ts[j].id),
    ensures
        followed(b, ts, rows).selected_id == b.selected_id,
{
    found_is_there(ts, ts[j].id, 0);
}

/// The cursor is within the list, and the selected id is that of the thread there.
pub proof fn cursor_is_in_list(b: BrowserV, ts: Seq<ThreadV>, rows: int)
    requires
        b.cursor >= 0,
        ts.len() > 0,
    ensures
        0 <= followed(b, ts, rows).cursor < ts.len(),
        followed(b, ts, rows).selected_id == Some(ts[followed(b, ts, rows).cursor].id),
{
    match b.selected_id {
        Some(id) => {
            found_is_there(ts, id, 0);
        },
        None => {},
    }
}

// ── What an input does ─────────────────────────────────────────────────────

/// What the program around the panel has to do. A thread that is loaded closes the
/// panel.
#[derive(Debug)]
pub enum BrowserEffect {
    Nothing,
    Load(String),
    Delete(String),
}

/// What the program has to do, abstractly.
pub enum BrowserEffectV {
    Nothing,
    Load(Seq<char>),
    Delete(Seq<char>),
}

impl View for BrowserEffect {
    type V = BrowserEffectV;

    open spec fn view(&self) -> BrowserEffectV {
        match *self {
            BrowserEffect::Nothing => BrowserEffectV::Nothing,
            BrowserEffect::Load(id) => BrowserEffectV::Load(id@),
            BrowserEffect::Delete(id) => BrowserEffectV::Delete(id@),
        }
    }
}

/// The first row shown, as a click sees it.
pub open spec fn scroll_start(b: BrowserV, count: int, rows: int) -> int {
    let max = sat_diff(count, rows);
    if b.sv.y < max {
        b.sv.y as int
    } else {
        max
    }
}

/// Where the rows of the list stand in the panel.
pub open spec fn layout(b: BrowserV, count: int, rows: int) -> ListLayout {
    ListLayout {
        header_rows: 1,
        item_rows: 1,
        footer_rows: 1,
        visible_items: rows as u16,
        scroll_start: scroll_start(b, count, rows) as usize,
        item_count: count as usize,
    }
}

/// A left click is used up, any other mouse event is not.
pub open spec fn clicked(m: MouseEvent) -> EventResult {
    if m.kind == MouseKind::LeftDown {
        EventResult::Consumed
    } else {
        EventResult::Ignored
    }
}

/// What the mouse does.
pub open spec fn mouse_step(
    b: BrowserV,
    m: MouseEvent,
    ts: Seq<ThreadV>,
    area: Option<Rect>,
    rows: int,
) -> (EventResult, BrowserEffectV) {
    match area {
        Some(area) => if b.preview_id is None && b.confirm_delete is None && !on_scrollbar(m, area)
            && hit(m, area, layout(b, ts.len() as int, rows)) is Some {
            (
                EventResult::Consumed,
                BrowserEffectV::Load(ts[hit(m, area, layout(b, ts.len() as int, rows))->0].id),
            )
        } else {
            (clicked(m), BrowserEffectV::Nothing)
        },
        None => (clicked(m), BrowserEffectV::Nothing),
    }
}

/// What a key does while a thread is previewed.
pub open spec fn preview_key(b: BrowserV, code: KeyCode, rows: int) -> BrowserV {
    match code {
        KeyCode::Char(c) => if c == 'v' {
            BrowserV { preview_id: None, ..b }
        } else {
            b
        },
        KeyCode::Up => BrowserV { preview_sv: b.preview_sv.up_by(1), ..b },
        KeyCode::Down => BrowserV { preview_sv: b.preview_sv.down_by(1), ..b },
        KeyCode::PageUp => BrowserV { preview_sv: b.preview_sv.up_by(rows), ..b },
        KeyCode::PageDown => BrowserV { preview_sv: b.preview_sv.down_by(rows), ..b },
        _ => b,
    }
}

/// Another thread selected, and brought on the screen.
pub open spec fn selected(b: BrowserV, to: int, ts: Seq<ThreadV>, rows: int) -> BrowserV {
    let i = if to < last_of(ts.len() as int) {
        to
    } else {
        last_of(ts.len() as int)
    };
    BrowserV {
        cursor: i,
        selected_id: id_at(ts, i),
        sv: revealed(b.sv, to, ts.len() as int, rows),
        ..b
    }
}

/// Where a key that leads down the list leads to.
pub open spec fn down_to(b: BrowserV, code: KeyCode, count: int, rows: int) -> int {
    if code == KeyCode::Down {
        next_sel(b.cursor, count)
    } else if code == KeyCode::PageDown && sat_sum(b.cursor, rows) < last_of(count) {
        sat_sum(b.cursor, rows)
    } else {
        last_of(count)
    }
}

/// What a key does in the list.
pub open spec fn list_key(b: BrowserV, l: ListV, code: KeyCode, rows: int) -> (
    BrowserV,
    ListV,
    BrowserEffectV,
) {
    let ts = l.threads;
    let count = ts.len() as int;
    match code {
        KeyCode::Tab => (
            BrowserV { cursor: 0, selected_id: None, sv: unscrolled(), ..b },
            l.rescoped(),
            BrowserEffectV::Nothing,
        ),
        KeyCode::Up => (
            selected(b, prev_sel(b.cursor), ts, rows),
            l,
            BrowserEffectV::Nothing,
        ),
        KeyCode::PageUp => (
            selected(b, sat_diff(b.cursor, rows), ts, rows),
            l,
            BrowserEffectV::Nothing,
        ),
        KeyCode::Home => (selected(b, 0, ts, rows), l, BrowserEffectV::Nothing),
        KeyCode::Down | KeyCode::PageDown | KeyCode::End => {
            let to = down_to(b, code, count, rows);
            (
                selected(b, to, ts, rows),
                if sat_sum(to, rows) >= count {
                    l.more_asked()
                } else {
                    l
                },
                BrowserEffectV::Nothing,
            )
        },
        KeyCode::Enter => (
            b,
            l,
            match b.selected_id {
                Some(id) => BrowserEffectV::Load(id),
                None => BrowserEffectV::Nothing,
            },
        ),
        KeyCode::Delete => (
            if count > 0 {
                BrowserV { confirm_delete: b.selected_id, ..b }
            } else {
                b
            },
            l,
            BrowserEffectV::Nothing,
        ),
        KeyCode::Char(c) => if c == 'n' && l.has_more {
            (b, l.more_asked(), BrowserEffectV::Nothing)
        } else if c == 'v' && b.selected_id is Some {
            (
                BrowserV { preview_id: b.selected_id, preview_sv: unscrolled(), ..b },
                l,
                BrowserEffectV::Nothing,
            )
        } else if c == 'd' && count > 0 {
            (BrowserV { confirm_delete: b.selected_id, ..b }, l, BrowserEffectV::Nothing)
        } else {
            (b, l, BrowserEffectV::Nothing)
        },
        _ => (b, l, BrowserEffectV::Nothing),
    }
}

/// What a key does: it belongs to the preview or to the question whether to delete
/// where there is one.
pub open spec fn key_step(b: BrowserV, l: ListV, code: KeyCode, panel_height: u16) -> (
    BrowserV,
    ListV,
    BrowserEffectV,
) {
    if b.preview_id is Some {
        (preview_key(b, code, preview_viewport(panel_height)), l, BrowserEffectV::Nothing)
    } else if b.confirm_delete is Some {
        (
            BrowserV { confirm_delete: None, ..b },
            l,
            if code == KeyCode::Enter {
                BrowserEffectV::Delete(b.confirm_delete->0)
            } else {
                BrowserEffectV::Nothing
            },
        )
    } else {
        list_key(b, l, code, viewport(panel_height))
    }
}

/// What an input does.
pub open spec fn browser_step(
    b: BrowserV,
    l: ListV,
    event: Event,
    area: Option<Rect>,
    panel_height: u16,
) -> (BrowserV, ListV, EventResult, BrowserEffectV) {
    match event {
        Event::Mouse(m) => {
            let (r, e) = mouse_step(b, m, l.threads, area, viewport(panel_height));
            (b, l, r, e)
        },
        Event::Key(key) => if key.press {
            let (b2, l2, e) = key_step(b, l, key.code, panel_height);
            (b2, l2, EventResult::Consumed, e)
        } else {
            (b, l, EventResult::Ignored, BrowserEffectV::Nothing)
        },
        _ => (b, l, EventResult::Ignored, BrowserEffectV::Nothing),
    }
}

/// A copy of an optional text.
pub fn copy_text(t: &Option<String>) -> (r: Option<String>)
    ensures
        opt_view(r) == opt_view(*t),
{
    match t {
        Some(s) => Some(s.clone()),
        None => None,
    }
}

impl ThreadBrowserPanel {
    /// Follows a change of the list or of the height of the panel.
    pub fn follow(&mut self, list: &ThreadList, panel_height: u16)
        ensures
            final(self)@ == followed(old(self)@, list@.threads, viewport(panel_height)),
    {
        let rows: usize = viewport_rows(panel_height);
        let index: usize = self.index(list);
        self.cursor = index;
        self.selected_id = self.id_of(list, index);
        if self.last_viewport != rows {
            self.last_viewport = rows;
            let mut sv = self.sv;
            keep_selection_visible(&mut sv, index, list.threads.len(), rows);
            self.sv = sv;
        }
    }

    fn index(&self, list: &ThreadList) -> (i: usize)
        ensures
            i == selected_index(self@, list@.threads),
    {
        let ghost ts = list@.threads;
        let count: usize = list.threads.len();
        let last: usize = if count > 0 {
            count - 1
        } else {
            0
        };
        match &self.selected_id {
            Some(id) => {
                let mut i: usize = 0;
                while i < count
                    invariant
                        i <= count,
                        count == ts.len(),
                        ts == list@.threads,
                        self@.selected_id == Some(id@),
                        found_from(ts, id@, 0) == found_from(ts, id@, i as int),
                    decreases count - i,
                {
                    assert(ts[i as int] == list.threads@[i as int]@);
                    if same(list.threads[i].id.as_str(), id.as_str()) {
                        return i;
                    }
                    i = i + 1;
                }
            },
            None => {},
        }
        if self.cursor < last {
            self.cursor
        } else {
            last
        }
    }

    fn id_of(&self, list: &ThreadList, i: usize) -> (r: Option<String>)
        ensures
            opt_view(r) == id_at(list@.threads, i as int),
    {
        if i < list.threads.len() {
            assert(list@.threads[i as int] == list.threads@[i as int]@);
            Some(list.threads[i].id.clone())
        } else {
            None
        }
    }

    fn select(&mut self, to: usize, list: &ThreadList, rows: usize)
        ensures
            final(self)@ == selected(old(self)@, to as int, list@.threads, rows as int),
    {
        let count: usize = list.threads.len();
        let last: usize = if count > 0 {
            count - 1
        } else {
            0
        };
        let i: usize = if to < last {
            to
        } else {
            last
        };
        self.cursor = i;
        self.selected_id = self.id_of(list, i);
        let mut sv = self.sv;
        keep_selection_visible(&mut sv, to, count, rows);
        self.sv = sv;
    }

    fn click(&self, m: &MouseEvent, list: &ThreadList, area: Option<Rect>, rows: usize) -> (r: (
        EventResult,
        BrowserEffect,
    ))
        requires
            rows <= u16::MAX,
        ensures
            (r.0, r.1@) == mouse_step(self@, *m, list@.threads, area, rows as int),
    {
        let count: usize = list.threads.len();
        let max: usize = count.saturating_sub(rows);
        let start: usize = if (self.sv.y as usize) < max {
            self.sv.y as usize
        } else {
            max
        };
        let shape = ListLayout {
            header_rows: 1,
            item_rows: 1,
            footer_rows: 1,
            visible_items: rows as u16,
            scroll_start: start,
            item_count: count,
        };
        assert(shape == layout(self@, count as int, rows as int));
        if self.preview_id.is_none() && self.confirm_delete.is_none() {
            match area {
                Some(area) => {
                    if !is_scrollbar_column(m, area) {
                        match hit_item(m, area, shape) {
                            Some(i) => {
                                assert(list@.threads[i as int] == list.threads@[i as int]@);
                                return (
                                    EventResult::Consumed,
                                    BrowserEffect::Load(list.threads[i].id.clone()),
                                );
                            },
                            None => {},
                        }
                    }
                },
                None => {},
            }
        }
        if m.kind == MouseKind::LeftDown {
            (EventResult::Consumed, BrowserEffect::Nothing)
        } else {
            (EventResult::Ignored, BrowserEffect::Nothing)
        }
    }

    fn preview_key(&mut self, code: KeyCode, rows: usize)
        ensures
            final(self)@ == preview_key(old(self)@, code, rows as int),
    {
        let mut sv = self.preview_sv;
        match code {
            KeyCode::Char(c) => {
                if c == 'v' {
                    self.preview_id = None;
                }
            },
            KeyCode::Up => {
                sv.scroll_up_by(1);
            },
            KeyCode::Down => {
                sv.scroll_down_by(1);
            },
            KeyCode::PageUp => {
                sv.scroll_up_by(rows);
            },
            KeyCode::PageDown => {
                sv.scroll_down_by(rows);
            },
            _ => {},
        }
        self.preview_sv = sv;
    }

    fn list_key(&mut self, list: &mut ThreadList, code: KeyCode, rows: usize) -> (e: BrowserEffect)
        requires
            old(list).page_size > 0,
        ensures
            (final(self)@, final(list)@, e@) == list_key(
                old(self)@,
                old(list)@,
                code,
                rows as int,
            ),
            final(list).page_size == old(list).page_size,
    {
        let count: usize = list.threads.len();
        match code {
            KeyCode::Tab => {
                list.rescope();
                self.cursor = 0;
                self.selected_id = None;
                self.sv = ScrollViewState::default();
                BrowserEffect::Nothing
            },
            KeyCode::Up => {
                let to: usize = previous_selection(self.cursor);
                self.select(to, list, rows);
                BrowserEffect::Nothing
            },
            KeyCode::PageUp => {
                let to: usize = self.cursor.saturating_sub(rows);
                self.select(to, list, rows);
                BrowserEffect::Nothing
            },
            KeyCode::Home => {
                self.select(0, list, rows);
                BrowserEffect::Nothing
            },
            KeyCode::Down | KeyCode::PageDown | KeyCode::End => {
                let last: usize = if count > 0 {
                    count - 1
                } else {
                    0
                };
                let to: usize = if code == KeyCode::Down {
                    next_selection(self.cursor, count)
                } else if code == KeyCode::PageDown && self.cursor.saturating_add(rows) < last {
                    self.cursor.saturating_add(rows)
                } else {
                    last
                };
                self.select(to, list, rows);
                if to.saturating_add(rows) >= count {
                    list.request_more_threads();
                }
                BrowserEffect::Nothing
            },
            KeyCode::Enter => {
                match &self.selected_id {
                    Some(id) => BrowserEffect::Load(id.clone()),
                    None => BrowserEffect::Nothing,
                }
            },
            KeyCode::Delete => {
                if count > 0 {
                    self.confirm_delete = copy_text(&self.selected_id);
                }
                BrowserEffect::Nothing
            },
            KeyCode::Char(c) => {
                if c == 'n' && list.has_more {
                    list.request_more_threads();
                } else if c == 'v' && self.selected_id.is_some() {
                    self.preview_id = copy_text(&self.selected_id);
                    self.preview_sv = ScrollViewState::default();
                } else if c == 'd' && count > 0 {
                    self.confirm_delete = copy_text(&self.selected_id);
                }
                BrowserEffect::Nothing
            },
            _ => BrowserEffect::Nothing,
        }
    }

    /// Deals with an input.
    pub fn handle_event(
        &mut self,
        event: &Event,
        list: &mut ThreadList,
        area: Option<Rect>,
        panel_height: u16,
    ) -> (r: (EventResult, BrowserEffect))
        requires
            old(list).page_size > 0,
        ensures
            (final(self)@, final(list)@, r.0, r.1@) == browser_step(
                old(self)@,
                old(list)@,
                *event,
                area,
                panel_height,
            ),
            final(list).page_size == old(list).page_size,
    {
        match event {
            Event::Mouse(m) => self.click(m, list, area, viewport_rows(panel_height)),
            Event::Key(key) => {
                if !key.press {
                    return (EventResult::Ignored, BrowserEffect::Nothing);
                }
                if self.preview_id.is_some() {
                    self.preview_key(key.code, preview_viewport_rows(panel_height));
                    return (EventResult::Consumed, BrowserEffect::Nothing);
                }
                if self.confirm_delete.is_some() {
                    let mut asked: Option<String> = None;
                    std::mem::swap(&mut asked, &mut self.confirm_delete);
                    let e = match asked {
                        Some(id) => if key.code == KeyCode::Enter {
                            BrowserEffect::Delete(id)
                        } else {
                            BrowserEffect::Nothing
                        },
                        None => BrowserEffect::Nothing,
                    };
                    return (EventResult::Consumed, e);
                }
                let e = self.list_key(list, key.code, viewport_rows(panel_height));
                (EventResult::Consumed, e)
            },
            _ => (EventResult::Ignored, BrowserEffect::Nothing),
        }
    }
}

// ── Laws ───────────────────────────────────────────────────────────────────

/// A thread is deleted only on Enter, and only the one that was asked about.
pub proof fn deletion_is_confirmed(
    b: BrowserV,
    l: ListV,
    event: Event,
    area: Option<Rect>,
    panel_height: u16,
)
    ensures
        browser_step(b, l, event, area, panel_height).3 matches BrowserEffectV::Delete(id)
            ==> b.confirm_delete == Some(id) && event is Key && event->Key_0.code
            == KeyCode::Enter,
{
}

/// Whatever key is pressed, the question whether to delete is gone after it.
pub proof fn question_is_settled(b: BrowserV, l: ListV, key: KeyEvent, panel_height: u16)
    requires
        b.confirm_delete is Some,
        b.preview_id is None,
    ensures
        key_step(b, l, key.code, panel_height).0.confirm_delete is None,
{
}

/// A click on a row loads the thread that Enter loads with the cursor there.
pub proof fn click_is_enter_on_row(
    b: BrowserV,
    l: ListV,
    m: MouseEvent,
    area: Rect,
    panel_height: u16,
)
    requires
        b.preview_id is None,
        b.confirm_delete is None,
        l.threads.len() <= usize::MAX,
        !on_scrollbar(m, area),
        hit(m, area, layout(b, l.threads.len() as int, viewport(panel_height))) is Some,
    ensures
        ({
            let i = hit(m, area, layout(b, l.threads.len() as int, viewport(panel_height)))->0;
            let there = selected(b, i, l.threads, viewport(panel_height));
            mouse_step(b, m, l.threads, Some(area), viewport(panel_height)).1 == key_step(
                there,
                l,
                KeyCode::Enter,
                panel_height,
            ).2
        }),
{
    crate::panel_mouse::hit_is_shown(
        m,
        area,
        layout(b, l.threads.len() as int, viewport(panel_height)),
    );
}

proof fn selecting_shows(b: BrowserV, to: int, ts: Seq<ThreadV>, rows: int)
    requires
        0 <= to < ts.len(),
        ts.len() <= u16::MAX,
        rows > 0,
    ensures
        ({
            let after = selected(b, to, ts, rows);
            &&& after.cursor == to
            &&& after.selected_id == Some(ts[to].id)
            &&& after.sv.y <= to < after.sv.y + rows
        }),
{
    selection_is_shown(b.sv, to, ts.len() as int, rows);
}

/// The keys that move in the list leave the cursor in it, with the row on the screen.
pub proof fn moving_keeps_the_cursor_shown(b: BrowserV, l: ListV, code: KeyCode, panel_height: u16)
    requires
        b.preview_id is None,
        b.confirm_delete is None,
        0 <= b.cursor < l.threads.len(),
        l.threads.len() <= u16::MAX,
        code == KeyCode::Up || code == KeyCode::Down || code == KeyCode::PageUp || code
            == KeyCode::PageDown || code == KeyCode::Home || code == KeyCode::End,
    ensures
        ({
            let after = key_step(b, l, code, panel_height).0;
            &&& 0 <= after.cursor < l.threads.len()
            &&& after.selected_id == Some(l.threads[after.cursor].id)
            &&& after.sv.y <= after.cursor < after.sv.y + viewport(panel_height)
        }),
{
    let rows = viewport(panel_height);
    let count = l.threads.len() as int;
    let to = if code == KeyCode::Up {
        prev_sel(b.cursor)
    } else if code == KeyCode::PageUp {
        sat_diff(b.cursor, rows)
    } else if code == KeyCode::Home {
        0
    } else {
        down_to(b, code, count, rows)
    };
    selecting_shows(b, to, l.threads, rows);
    assert(key_step(b, l, code, panel_height).0 == selected(b, to, l.threads, rows));
}

/// Opening a preview and closing it leaves the list as it was.
pub proof fn preview_leads_back(b: BrowserV, l: ListV, panel_height: u16)
    requires
        b.preview_id is None,
        b.confirm_delete is None,
        b.selected_id is Some,
    ensures
        ({
            let v = KeyCode::Char('v');
            let (open, l1, _) = key_step(b, l, v, panel_height);
            let (closed, l2, _) = key_step(open, l1, v, panel_height);
            &&& open.preview_id == b.selected_id
            &&& l2 == l
            &&& closed == (BrowserV { preview_sv: unscrolled(), ..b })
        }),
{
}

} // verus!
