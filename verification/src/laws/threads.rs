//! The list of threads.

use crate::event::{Event, KeyCode, KeyEvent, Rect};
use crate::panels::thread_browser::state::{browser_step, followed, found_from, revealed,
    BrowserEffectV, BrowserV, ListV, ThreadV};
use vstd::prelude::*;

verus! {

/// Where there are more threads and some are fetched, asking for more asks for more than are
/// fetched: the pages asked for hold more threads than there are, and they are the fewest
/// that do, unless more were asked for already. Nothing else changes.
pub proof fn more_are_asked_for(l: ListV)
    requires
        l.page_size > 0,
        0 <= l.page_count <= u32::MAX,
        l.threads.len() < u32::MAX,
    ensures
        l.has_more && l.threads.len() > 0 ==> {
            let n = l.more_asked().page_count;
            &&& n * l.page_size > l.threads.len()
            &&& (n - 1) * l.page_size >= l.threads.len()
            &&& n >= l.page_count
            &&& n != l.page_count ==> (n - 2) * l.page_size < l.threads.len()
        },
        l.more_asked() == (ListV { page_count: l.more_asked().page_count, ..l }),
        !l.has_more || l.threads.len() == 0 ==> l.more_asked() == l,
{
    let n = l.threads.len() as int;
    let size = l.page_size;
    let pages = n / size;
    let rest = n % size;
    assert(n == pages * size + rest && 0 <= rest < size && 0 <= pages <= n) by (nonlinear_arith)
        requires
            size > 0,
            n >= 0,
            pages == n / size,
            rest == n % size,
    ;
    if l.has_more && n > 0 {
        let held = if rest == 0 {
            pages
        } else {
            pages + 1
        };
        assert(l.loaded_pages() == held);
        assert(rest != 0 && pages == n ==> false) by (nonlinear_arith)
            requires
                n == pages * size + rest,
                0 <= rest < size,
                n > 0,
                pages >= 0,
        ;
        assert(held <= n);
        let asked = l.more_asked().page_count;
        assert(asked >= held + 1);
        assert((asked - 1) * size >= n && asked * size > n) by (nonlinear_arith)
            requires
                asked >= held + 1,
                held == pages && rest == 0 || held == pages + 1,
                n == pages * size + rest,
                0 <= rest < size,
        ;
        if asked != l.page_count {
            assert((asked - 2) * size < n) by (nonlinear_arith)
                requires
                    asked == held + 1,
                    rest == 0 && held == pages || rest != 0 && held == pages + 1,
                    n == pages * size + rest,
                    0 <= rest < size,
                    n > 0,
            ;
        }
    }
}

/// A key that leads down to where the rows shown reach the end of what is fetched asks for more,
/// and so does the key that asks for more.
pub proof fn reaching_the_end_asks_for_more(
    b: BrowserV,
    l: ListV,
    key: KeyEvent,
    area: Option<Rect>,
    panel_height: u16,
)
    requires
        key.press,
        b.preview_id is None,
        b.confirm_delete is None,
        0 <= b.cursor < l.threads.len() <= usize::MAX,
    ensures
        key.code == KeyCode::Char('n') || key.code == KeyCode::End ==> browser_step(
            b,
            l,
            Event::Key(key),
            area,
            panel_height,
        ).1 == l.more_asked(),
        key.code == KeyCode::Down || key.code == KeyCode::PageDown ==> ({
            let (c, m, r, e) = browser_step(b, l, Event::Key(key), area, panel_height);
            let rows: int = if panel_height > 7 {
                panel_height - 6
            } else {
                1
            };
            &&& c.cursor + rows >= l.threads.len() ==> m == l.more_asked()
            &&& c.cursor + rows < l.threads.len() ==> m == l
        }),
        key.code == KeyCode::Up || key.code == KeyCode::PageUp || key.code == KeyCode::Home
            || key.code == KeyCode::Enter || key.code == KeyCode::Delete ==> browser_step(
            b,
            l,
            Event::Key(key),
            area,
            panel_height,
        ).1 == l,
{
}

/// The keys lead through the list by a thread or by the rows shown, to its start or its end, and
/// select the thread where they lead.
pub proof fn keys_lead_through_the_list(
    b: BrowserV,
    l: ListV,
    key: KeyEvent,
    area: Option<Rect>,
    panel_height: u16,
)
    requires
        key.press,
        b.preview_id is None,
        b.confirm_delete is None,
        0 <= b.cursor < l.threads.len() <= usize::MAX,
        key.code == KeyCode::Up || key.code == KeyCode::Down || key.code == KeyCode::PageUp
            || key.code == KeyCode::PageDown || key.code == KeyCode::Home || key.code
            == KeyCode::End,
    ensures
        ({
            let (c, m, r, e) = browser_step(b, l, Event::Key(key), area, panel_height);
            let rows: int = if panel_height > 7 {
                panel_height - 6
            } else {
                1
            };
            let step = if key.code == KeyCode::Up {
                -1
            } else if key.code == KeyCode::Down {
                1
            } else if key.code == KeyCode::PageUp {
                -rows
            } else if key.code == KeyCode::PageDown {
                rows
            } else if key.code == KeyCode::Home {
                -b.cursor
            } else {
                l.threads.len() - 1 - b.cursor
            };
            &&& r is Consumed && e is Nothing
            &&& 0 <= b.cursor + step < l.threads.len() ==> c.cursor == b.cursor + step
            &&& b.cursor + step < 0 ==> c.cursor == 0
            &&& b.cursor + step >= l.threads.len() ==> c.cursor == l.threads.len() - 1
            &&& c.selected_id == Some(l.threads[c.cursor].id)
            &&& c.preview_id is None && c.confirm_delete is None
        }),
{
}

/// Enter loads the selected thread, Delete asks whether to delete it, and the key for the
/// preview shows it; only a confirmed question deletes, and it deletes the thread asked about.
pub proof fn keys_act_on_the_selected_thread(
    b: BrowserV,
    l: ListV,
    key: KeyEvent,
    area: Option<Rect>,
    panel_height: u16,
    id: Seq<char>,
)
    requires
        key.press,
        b.preview_id is None,
        l.threads.len() > 0,
    ensures
        ({
            let (c, m, r, e) = browser_step(b, l, Event::Key(key), area, panel_height);
            &&& b.confirm_delete is None && b.selected_id == Some(id) && key.code == KeyCode::Enter
                ==> e == BrowserEffectV::Load(id) && c == b && m == l
            &&& b.confirm_delete is None && b.selected_id == Some(id) && (key.code
                == KeyCode::Delete || key.code == KeyCode::Char('d')) ==> e is Nothing
                && c.confirm_delete == Some(id) && m == l
            &&& b.confirm_delete is None && b.selected_id == Some(id) && key.code == KeyCode::Char(
                'v',
            ) ==> e is Nothing && c.preview_id == Some(id) && c.preview_sv.y == 0 && m == l
            &&& b.confirm_delete == Some(id) ==> c.confirm_delete is None && m == l && e == (
            if key.code == KeyCode::Enter {
                BrowserEffectV::Delete(id)
            } else {
                BrowserEffectV::Nothing
            })
        }),
{
}

/// Tab shows the threads of the next scope, from its first page and its first row.
pub proof fn tab_shows_another_scope(
    b: BrowserV,
    l: ListV,
    key: KeyEvent,
    area: Option<Rect>,
    panel_height: u16,
)
    requires
        key.press,
        key.code == KeyCode::Tab,
        b.preview_id is None,
        b.confirm_delete is None,
    ensures
        ({
            let (c, m, r, e) = browser_step(b, l, Event::Key(key), area, panel_height);
            &&& m.scope != l.scope
            &&& m.threads.len() == 0 && !m.has_more && m.page_count == 1
            &&& m.page_size == l.page_size
            &&& c.cursor == 0 && c.selected_id is None && c.sv.y == 0
            &&& e is Nothing
        }),
{
}

proof fn lemma_found(ts: Seq<ThreadV>, id: Seq<char>, i: int, at: int)
    requires
        0 <= i <= at < ts.len(),
        ts[at].id == id,
        forall|k: int| i <= k < at ==> (#[trigger] ts[k]).id != id,
    ensures
        found_from(ts, id, i) == at,
    decreases at - i,
{
    if i < at {
        lemma_found(ts, id, i + 1, at);
    }
}

proof fn lemma_not_found(ts: Seq<ThreadV>, id: Seq<char>, i: int)
    requires
        0 <= i <= ts.len(),
        forall|k: int| i <= k < ts.len() ==> (#[trigger] ts[k]).id != id,
    ensures
        found_from(ts, id, i) == ts.len(),
    decreases ts.len() - i,
{
    if i < ts.len() {
        lemma_not_found(ts, id, i + 1);
    }
}

/// After the list has changed, the thread that was selected is selected wherever it stands now;
/// where it is gone, the thread at the cursor is, or the last one.
pub proof fn the_selection_stays_with_its_thread(
    b: BrowserV,
    ts: Seq<ThreadV>,
    rows: int,
    id: Seq<char>,
    at: int,
)
    requires
        b.cursor >= 0,
    ensures
        b.selected_id == Some(id) && 0 <= at < ts.len() && ts[at].id == id && (forall|k: int|
            0 <= k < at ==> (#[trigger] ts[k]).id != id) ==> followed(b, ts, rows).cursor == at
            && followed(b, ts, rows).selected_id == Some(id),
        (b.selected_id is None || b.selected_id == Some(id) && forall|k: int|
            0 <= k < ts.len() ==> (#[trigger] ts[k]).id != id) && ts.len() > 0 ==> {
            let f = followed(b, ts, rows);
            &&& b.cursor < ts.len() ==> f.cursor == b.cursor
            &&& b.cursor >= ts.len() ==> f.cursor == ts.len() - 1
            &&& f.selected_id == Some(ts[f.cursor].id)
        },
        ts.len() == 0 ==> followed(b, ts, rows).cursor == 0 && followed(
            b,
            ts,
            rows,
        ).selected_id is None,
{
    if b.selected_id == Some(id) {
        if 0 <= at < ts.len() && ts[at].id == id && (forall|k: int|
            0 <= k < at ==> (#[trigger] ts[k]).id != id) {
            lemma_found(ts, id, 0, at);
        }
        if forall|k: int| 0 <= k < ts.len() ==> (#[trigger] ts[k]).id != id {
            lemma_not_found(ts, id, 0);
        }
    }
    if ts.len() == 0 && b.selected_id is Some {
        lemma_not_found(ts, b.selected_id->0, 0);
    }
}

/// After the height has changed, the selected thread is among the rows shown; as long as it stays,
/// the view does not move.
pub proof fn the_selection_stays_shown(b: BrowserV, ts: Seq<ThreadV>, rows: int)
    requires
        b.cursor >= 0,
        0 < ts.len() <= u16::MAX,
        rows > 0,
        b.last_viewport != rows,
    ensures
        ({
            let f = followed(b, ts, rows);
            &&& f.last_viewport == rows
            &&& f.sv.y <= f.cursor < f.sv.y + rows
            &&& f.preview_id == b.preview_id && f.confirm_delete == b.confirm_delete
            &&& followed(f, ts, rows).sv == f.sv
        }),
{
    crate::panels::thread_browser::state::cursor_is_in_list(b, ts, rows);
    let f = followed(b, ts, rows);
    crate::panels::thread_browser::state::selection_is_shown(
        b.sv,
        f.cursor,
        ts.len() as int,
        rows,
    );
}

/// In a preview the arrows lead by a row and the keys for pages by the rows shown, and the key for
/// the preview leads back; the list does not change.
pub proof fn keys_lead_through_the_preview(
    b: BrowserV,
    l: ListV,
    key: KeyEvent,
    area: Option<Rect>,
    panel_height: u16,
)
    requires
        key.press,
        b.preview_id is Some,
    ensures
        ({
            let (c, m, r, e) = browser_step(b, l, Event::Key(key), area, panel_height);
            let rows: int = if panel_height > 6 {
                panel_height - 5
            } else {
                1
            };
            &&& m == l && e is Nothing && r is Consumed
            &&& c.cursor == b.cursor && c.selected_id == b.selected_id && c.confirm_delete
                == b.confirm_delete
            &&& key.code == KeyCode::Char('v') ==> c.preview_id is None
            &&& key.code != KeyCode::Char('v') ==> c.preview_id == b.preview_id
            &&& key.code == KeyCode::Up && b.preview_sv.y > 0 ==> c.preview_sv.y == b.preview_sv.y
                - 1
            &&& key.code == KeyCode::Down && b.preview_sv.y < u16::MAX ==> c.preview_sv.y
                == b.preview_sv.y + 1
            &&& key.code == KeyCode::PageUp && b.preview_sv.y >= rows ==> c.preview_sv.y
                == b.preview_sv.y - rows
            &&& key.code == KeyCode::PageDown && b.preview_sv.y + rows <= u16::MAX
                ==> c.preview_sv.y == b.preview_sv.y + rows
        }),
{
}

/// The view moves no further than it has to: where the row it is led to is among those shown
/// already, it stays; a row above becomes the first one shown, and a row below the last one.
pub proof fn the_view_moves_no_further_than_needed(
    s: crate::scroll_view::ScrollViewState,
    selected: int,
    count: int,
    rows: int,
)
    requires
        0 <= selected < count <= u16::MAX,
        0 < rows <= count,
        s.y + rows <= count,
    ensures
        s.y <= selected < s.y + rows ==> revealed(s, selected, count, rows).y == s.y,
        selected < s.y && selected + rows <= count ==> revealed(s, selected, count, rows).y
            == selected,
        selected >= s.y + rows ==> revealed(s, selected, count, rows).y + rows == selected + 1,
        revealed(s, selected, count, rows).content_height == s.content_height,
        revealed(s, selected, count, rows).page_height == s.page_height,
{
}

} // verus!
