//! The small popup above the status bar in which the user changes the model.

use crate::doc::{bold, fg, lit, Color, Doc, Line, Piece, PieceV, Style};
use crate::event::{sat, sat_diff, Event, EventResult, MouseEvent, MouseKind, Rect};
use crate::list_nav::{classify_list_nav, nav_of, next_sel, next_selection, prev_sel,
    previous_selection, ListNavAction};
use crate::panels::config::{model_for, profile, providers_view, PeriConfig, PeriV, ProviderConfig,
    ProviderV};
use crate::text::{cat, cat4, count_chars, same, str_width, str_width_of, truncate_str,
    truncate_str_spec};
use crate::wrap::{is_blank, trim_spec};
use vstd::prelude::*;

verus! {

/// A line of the popup.
pub type LineV = Seq<PieceV>;

/// The number of models.
pub const ROW_COUNT: usize = 4;

/// The rows of the popup: the models and the borders.
pub const POPUP_HEIGHT: u16 = 6;

pub const POPUP_WIDTH_MIN: u16 = 36;

pub const POPUP_WIDTH_MAX: u16 = 80;

/// The alias of a model.
pub open spec fn key_of(i: int) -> Seq<char> {
    if i == 0 {
        "fable"@
    } else if i == 1 {
        "opus"@
    } else if i == 2 {
        "sonnet"@
    } else {
        "haiku"@
    }
}

/// The alias of a model.
pub fn profile_key(i: usize) -> (k: &'static str)
    ensures
        k@ == key_of(i as int),
{
    if i == 0 {
        "fable"
    } else if i == 1 {
        "opus"
    } else if i == 2 {
        "sonnet"
    } else {
        "haiku"
    }
}

/// A row of the popup.
#[derive(Debug)]
pub struct QuickSwitchRow {
    pub alias: String,
    pub model: String,
}

/// A row of the popup, abstractly.
pub struct RowV {
    pub alias: Seq<char>,
    pub model: Seq<char>,
}

impl View for QuickSwitchRow {
    type V = RowV;

    open spec fn view(&self) -> RowV {
        RowV { alias: self.alias@, model: self.model@ }
    }
}

/// The rows of a list.
pub open spec fn rows_view(v: Seq<QuickSwitchRow>) -> Seq<RowV> {
    v.map_values(|r: QuickSwitchRow| r@)
}

// ── The models ─────────────────────────────────────────────────────────────

/// The first provider of a name, from a place on.
pub open spec fn provider_from(ps: Seq<ProviderV>, id: Seq<char>, i: int) -> Option<ProviderV>
    decreases ps.len() - i,
{
    if i < 0 || i >= ps.len() {
        None
    } else if ps[i].id == id {
        Some(ps[i])
    } else {
        provider_from(ps, id, i + 1)
    }
}

/// The provider of a name; the first one where there is no name.
pub open spec fn provider_of(ps: Seq<ProviderV>, id: Seq<char>) -> Option<ProviderV> {
    if id.len() == 0 {
        if ps.len() > 0 {
            Some(ps[0])
        } else {
            None
        }
    } else {
        provider_from(ps, id, 0)
    }
}

/// A text, unless it is empty.
pub open spec fn not_empty(t: Option<Seq<char>>) -> Option<Seq<char>> {
    if t is Some && t->0.len() > 0 {
        t
    } else {
        None
    }
}

/// The model of an alias: the one set for it, else that of its provider, else its alias.
pub open spec fn model_of(c: PeriV, key: Seq<char>) -> Seq<char> {
    match profile(c.profiles, key) {
        Some(p) => match not_empty(p.model) {
            Some(m) => m,
            None => match provider_of(c.providers, p.provider) {
                Some(v) => match not_empty(model_for(v, key)) {
                    Some(m) => m,
                    None => key,
                },
                None => key,
            },
        },
        None => key,
    }
}

/// The first rows for the settings.
pub open spec fn rows_of(c: PeriV, to: int) -> Seq<RowV>
    decreases to,
{
    if to <= 0 {
        Seq::empty()
    } else {
        rows_of(c, to - 1).push(
            RowV { alias: key_of(to - 1), model: model_of(c, key_of(to - 1)) },
        )
    }
}

/// The first rows where there are no settings.
pub open spec fn bare_rows(to: int) -> Seq<RowV>
    decreases to,
{
    if to <= 0 {
        Seq::empty()
    } else {
        bare_rows(to - 1).push(RowV { alias: key_of(to - 1), model: key_of(to - 1) })
    }
}

/// The first row of an alias, from a place on, or the length.
pub open spec fn row_from(rows: Seq<RowV>, alias: Seq<char>, i: int) -> int
    decreases rows.len() - i,
{
    if i < 0 || i >= rows.len() || rows[i].alias == alias {
        i
    } else {
        row_from(rows, alias, i + 1)
    }
}

/// The rows with the model that the session has.
pub open spec fn with_session_model(rows: Seq<RowV>, alias: Seq<char>, model: Seq<char>) -> Seq<
    RowV,
> {
    let i = row_from(rows, alias, 0);
    if trim_spec(model).len() > 0 && i < rows.len() {
        rows.update(i, RowV { model, ..rows[i] })
    } else {
        rows
    }
}

/// The rows in a session: those for the settings, with the model that the session has.
pub open spec fn session_rows(c: Option<PeriV>, alias: Seq<char>, model: Seq<char>) -> Seq<RowV> {
    with_session_model(
        match c {
            Some(c) => rows_of(c, 4),
            None => bare_rows(4),
        },
        alias,
        model,
    )
}

/// The alias in use: that of the session, or that of the settings.
pub open spec fn alias_in_use(c: Option<PeriV>, session: Option<(Seq<char>, Seq<char>)>) -> Seq<char> {
    match (session, c) {
        (Some(s), _) => s.0,
        (None, Some(c)) => c.alias,
        (None, None) => "opus"@,
    }
}

/// The rows of the popup, in a session or without one; without settings, only a session has any.
pub open spec fn rows_in_use(c: Option<PeriV>, session: Option<(Seq<char>, Seq<char>)>) -> Seq<RowV> {
    match (session, c) {
        (Some(s), _) => session_rows(c, s.0, s.1),
        (None, Some(c)) => rows_of(c, 4),
        (None, None) => Seq::empty(),
    }
}

/// The settings, where there are any.
pub open spec fn settings_view(cfg: Option<&PeriConfig>) -> Option<PeriV> {
    match cfg {
        Some(c) => Some(c@),
        None => None,
    }
}

/// The alias and the model of a session, where there is one.
pub open spec fn session_view(session: Option<(&str, &str)>) -> Option<(Seq<char>, Seq<char>)> {
    match session {
        Some(s) => Some((s.0@, s.1@)),
        None => None,
    }
}

/// The alias in use: that of the session, or that of the settings.
pub fn active_alias(cfg: Option<&PeriConfig>, session: Option<(&str, &str)>) -> (r: String)
    ensures
        r@ == alias_in_use(settings_view(cfg), session_view(session)),
{
    match (session, cfg) {
        (Some(s), _) => s.0.to_owned(),
        (None, Some(c)) => c.config.active_alias.clone(),
        (None, None) => "opus".to_owned(),
    }
}

/// The rows of the popup, in a session or without one.
pub fn popup_rows(cfg: Option<&PeriConfig>, session: Option<(&str, &str)>) -> (rows: Vec<
    QuickSwitchRow,
>)
    ensures
        rows_view(rows@) == rows_in_use(settings_view(cfg), session_view(session)),
{
    match (session, cfg) {
        (Some(s), _) => session_quick_switch_rows(cfg, s.0, s.1),
        (None, Some(c)) => quick_switch_rows(c),
        (None, None) => {
            let rows: Vec<QuickSwitchRow> = Vec::new();
            assert(rows_view(rows@) =~= Seq::empty());
            rows
        },
    }
}

fn find_provider<'a>(ps: &'a Vec<ProviderConfig>, id: &str) -> (r: Option<&'a ProviderConfig>)
    ensures
        match r {
            Some(p) => provider_of(providers_view(ps@), id@) == Some(p@),
            None => provider_of(providers_view(ps@), id@) is None,
        },
{
    let ghost all = providers_view(ps@);
    if count_chars(id) == 0 {
        return if ps.len() > 0 {
            assert(all[0] == ps@[0]@);
            Some(&ps[0])
        } else {
            None
        };
    }
    let mut i: usize = 0;
    while i < ps.len()
        invariant
            i <= ps@.len(),
            all == providers_view(ps@),
            id@.len() > 0,
            provider_of(all, id@) == provider_from(all, id@, i as int),
        decreases ps.len() - i,
    {
        assert(all[i as int] == ps@[i as int]@);
        if same(ps[i].id.as_str(), id) {
            return Some(&ps[i]);
        }
        i = i + 1;
    }
    None
}

fn resolve_model(cfg: &PeriConfig, key: &str) -> (m: String)
    ensures
        m@ == model_of(cfg@, key@),
{
    match cfg.config.profiles.get(key) {
        Some(p) => {
            match &p.model {
                Some(m) => {
                    if count_chars(m.as_str()) > 0 {
                        return m.clone();
                    }
                },
                None => {},
            }
            match find_provider(&cfg.config.providers, p.provider.as_str()) {
                Some(v) => match v.get_model(key) {
                    Some(m) => {
                        if count_chars(m) > 0 {
                            m.to_owned()
                        } else {
                            key.to_owned()
                        }
                    },
                    None => key.to_owned(),
                },
                None => key.to_owned(),
            }
        },
        None => key.to_owned(),
    }
}

/// The rows for the settings.
pub fn quick_switch_rows(cfg: &PeriConfig) -> (rows: Vec<QuickSwitchRow>)
    ensures
        rows_view(rows@) == rows_of(cfg@, 4),
{
    let mut rows: Vec<QuickSwitchRow> = Vec::new();
    let mut i: usize = 0;
    assert(rows_view(rows@) =~= rows_of(cfg@, 0));
    while i < ROW_COUNT
        invariant
            i <= ROW_COUNT,
            rows_view(rows@) == rows_of(cfg@, i as int),
        decreases ROW_COUNT - i,
    {
        let key = profile_key(i);
        rows.push(QuickSwitchRow { alias: key.to_owned(), model: resolve_model(cfg, key) });
        i = i + 1;
        assert(rows_view(rows@) =~= rows_of(cfg@, i as int));
    }
    rows
}

fn unset_rows() -> (rows: Vec<QuickSwitchRow>)
    ensures
        rows_view(rows@) == bare_rows(4),
{
    let mut rows: Vec<QuickSwitchRow> = Vec::new();
    let mut i: usize = 0;
    assert(rows_view(rows@) =~= bare_rows(0));
    while i < ROW_COUNT
        invariant
            i <= ROW_COUNT,
            rows_view(rows@) == bare_rows(i as int),
        decreases ROW_COUNT - i,
    {
        let key = profile_key(i);
        rows.push(QuickSwitchRow { alias: key.to_owned(), model: key.to_owned() });
        i = i + 1;
        assert(rows_view(rows@) =~= bare_rows(i as int));
    }
    rows
}

fn find_row(rows: &Vec<QuickSwitchRow>, alias: &str) -> (i: usize)
    ensures
        i == row_from(rows_view(rows@), alias@, 0),
        i <= rows@.len(),
{
    let ghost all = rows_view(rows@);
    let mut i: usize = 0;
    while i < rows.len()
        invariant
            i <= rows@.len(),
            all == rows_view(rows@),
            row_from(all, alias@, 0) == row_from(all, alias@, i as int),
        decreases rows.len() - i,
    {
        assert(all[i as int] == rows@[i as int]@);
        if same(rows[i].alias.as_str(), alias) {
            return i;
        }
        i = i + 1;
    }
    i
}

/// The rows in a session.
pub fn session_quick_switch_rows(
    cfg: Option<&PeriConfig>,
    active_alias: &str,
    session_model: &str,
) -> (rows: Vec<QuickSwitchRow>)
    ensures
        rows_view(rows@) == session_rows(
            match cfg {
                Some(c) => Some(c@),
                None => None,
            },
            active_alias@,
            session_model@,
        ),
{
    let mut rows = match cfg {
        Some(c) => quick_switch_rows(c),
        None => unset_rows(),
    };
    let ghost before = rows_view(rows@);
    let i: usize = find_row(&rows, active_alias);
    if !is_blank(session_model) && i < rows.len() {
        let alias = rows[i].alias.clone();
        assert(before[i as int] == rows@[i as int]@);
        rows.set(i, QuickSwitchRow { alias, model: session_model.to_owned() });
        assert(rows_view(rows@) =~= before.update(
            i as int,
            RowV { model: session_model@, ..before[i as int] },
        ));
    }
    rows
}

// ── Where the popup is ─────────────────────────────────────────────────────

/// What a row is as wide as.
pub open spec fn row_text(r: RowV) -> Seq<char> {
    " ❯ "@ + r.alias + " "@ + r.model
}

/// The width of the widest of the first rows.
pub open spec fn widest(rows: Seq<RowV>, to: int) -> usize
    decreases to,
{
    if to <= 0 {
        0
    } else if str_width_of(row_text(rows[to - 1])) > widest(rows, to - 1) {
        str_width_of(row_text(rows[to - 1]))
    } else {
        widest(rows, to - 1)
    }
}

/// The width of the popup: that of the widest row and four columns, within bounds.
pub open spec fn width_of(rows: Seq<RowV>) -> int {
    let w = widest(rows, rows.len() as int) + 4;
    if w < POPUP_WIDTH_MIN {
        POPUP_WIDTH_MIN as int
    } else if w > POPUP_WIDTH_MAX {
        POPUP_WIDTH_MAX as int
    } else {
        w
    }
}

/// The width of the popup.
pub fn popup_width(rows: &Vec<QuickSwitchRow>) -> (w: u16)
    ensures
        w == width_of(rows_view(rows@)),
{
    let ghost all = rows_view(rows@);
    let mut most: usize = 0;
    let mut i: usize = 0;
    while i < rows.len()
        invariant
            i <= rows@.len(),
            all == rows_view(rows@),
            most == widest(all, i as int),
        decreases rows.len() - i,
    {
        assert(all[i as int] == rows@[i as int]@);
        let text = cat4(" ❯ ", rows[i].alias.as_str(), " ", rows[i].model.as_str());
        let w: usize = str_width(text.as_str());
        if w > most {
            most = w;
        }
        i = i + 1;
    }
    if most < 32 {
        POPUP_WIDTH_MIN
    } else if most > 76 {
        POPUP_WIDTH_MAX
    } else {
        (most + 4) as u16
    }
}

/// The smaller of two numbers.
pub open spec fn smaller(a: int, b: int) -> int {
    if a < b {
        a
    } else {
        b
    }
}

/// Where a popup of a size stands: two columns right of the anchor and above it, or below it
/// where there is no room above, but always on the screen.
pub open spec fn placed(ax: u16, ay: u16, w: u16, h: u16, term_w: u16, term_h: u16) -> (int, int) {
    (
        smaller(sat(ax as int, 2), sat_diff(term_w as int, w as int)),
        smaller(
            if ay > h {
                ay - h - 1
            } else {
                sat(ay as int, 2)
            },
            sat_diff(term_h as int, h as int),
        ),
    )
}

/// Where a popup of a size stands.
pub fn position_at_anchor(ax: u16, ay: u16, w: u16, h: u16, term_w: u16, term_h: u16) -> (r: (
    u16,
    u16,
))
    requires
        h < u16::MAX,
    ensures
        (r.0 as int, r.1 as int) == placed(ax, ay, w, h, term_w, term_h),
{
    let x: u16 = ax.saturating_add(2);
    let right: u16 = term_w.saturating_sub(w);
    let y: u16 = if ay >= h.saturating_add(1) {
        ay - h - 1
    } else {
        ay.saturating_add(2)
    };
    let bottom: u16 = term_h.saturating_sub(h);
    (
        if x < right {
            x
        } else {
            right
        },
        if y < bottom {
            y
        } else {
            bottom
        },
    )
}

/// A popup that fits on the screen is on it as a whole, and leaves the row of its anchor
/// free where there is room above.
pub proof fn the_popup_is_on_the_screen(
    ax: u16,
    ay: u16,
    w: u16,
    h: u16,
    term_w: u16,
    term_h: u16,
)
    requires
        w <= term_w,
        h <= term_h,
        h < u16::MAX,
    ensures
        ({
            let (x, y) = placed(ax, ay, w, h, term_w, term_h);
            &&& 0 <= x && x + w <= term_w
            &&& 0 <= y && y + h <= term_h
            &&& ay > h ==> y + h < ay
        }),
{
}

/// The row under the mouse, nothing on the borders above and below.
pub open spec fn row_at(row: u16, column: u16, area: Rect) -> Option<int> {
    if area.holds(row, column) && 1 <= row - area.y <= 4 && row - area.y < area.height - 1 {
        Some(row - area.y - 1)
    } else {
        None
    }
}

/// The row under the mouse, nothing on the borders above and below.
pub fn row_index_at(row: u16, col: u16, area: &Rect) -> (r: Option<usize>)
    ensures
        row_at(row, col, *area) == (match r {
            Some(i) => Some(i as int),
            None => None,
        }),
{
    if !area.contains(row, col) || row == area.y || row - area.y >= area.height - 1 {
        return None;
    }
    let line: usize = (row - area.y - 1) as usize;
    if line < ROW_COUNT {
        Some(line)
    } else {
        None
    }
}

/// Whether the mouse is over the popup, its borders included.
pub fn click_inside_popup(row: u16, col: u16, area: &Rect) -> (b: bool)
    ensures
        b == area.holds(row, col),
{
    area.contains(row, col)
}

// ── Events ─────────────────────────────────────────────────────────────────

/// The popup: the row that is selected.
#[derive(Debug, Clone, Copy, PartialEq, Eq, Structural)]
pub struct ModelQuickSwitchPopup {
    pub selected: usize,
}

/// What the program around the popup has to do: nothing, close the popup, or change to a
/// model and close the popup.
#[derive(Debug, Clone, Copy, PartialEq, Eq, Structural)]
pub enum SwitchEffect {
    Nothing,
    Close,
    Switch(usize),
}

/// Changing to a model: there has to be one.
pub open spec fn switching(i: int) -> SwitchEffect {
    if 0 <= i < ROW_COUNT {
        SwitchEffect::Switch(i as usize)
    } else {
        SwitchEffect::Close
    }
}

/// The row that is selected when the popup opens: that of the alias, else the second.
pub open spec fn first_row(alias: Seq<char>) -> int {
    if alias == "fable"@ {
        0
    } else if alias == "opus"@ {
        1
    } else if alias == "sonnet"@ {
        2
    } else if alias == "haiku"@ {
        3
    } else {
        1
    }
}

/// What an input does. The mouse selects a row by being over it, changes to its model by a
/// click, and closes the popup by a click beside it; a popup above this one goes first.
pub open spec fn switch_step(
    p: ModelQuickSwitchPopup,
    event: Event,
    area: Rect,
    occluded: bool,
) -> (ModelQuickSwitchPopup, EventResult, SwitchEffect) {
    match event {
        Event::Key(key) => if !key.press {
            (p, EventResult::Ignored, SwitchEffect::Nothing)
        } else {
            match nav_of(key.code) {
                Some(ListNavAction::MoveUp) => (
                    ModelQuickSwitchPopup { selected: prev_sel(p.selected as int) as usize },
                    EventResult::Consumed,
                    SwitchEffect::Nothing,
                ),
                Some(ListNavAction::MoveDown) => (
                    ModelQuickSwitchPopup {
                        selected: next_sel(p.selected as int, 4) as usize,
                    },
                    EventResult::Consumed,
                    SwitchEffect::Nothing,
                ),
                Some(ListNavAction::Confirm) => (
                    p,
                    EventResult::Consumed,
                    switching(p.selected as int),
                ),
                Some(ListNavAction::Cancel) => (p, EventResult::Consumed, SwitchEffect::Close),
                _ => (p, EventResult::Ignored, SwitchEffect::Nothing),
            }
        },
        Event::Mouse(m) => if occluded {
            (p, EventResult::Ignored, SwitchEffect::Nothing)
        } else {
            match (m.kind, row_at(m.row, m.column, area)) {
                (MouseKind::Moved, Some(i)) => (
                    ModelQuickSwitchPopup { selected: i as usize },
                    EventResult::Consumed,
                    SwitchEffect::Nothing,
                ),
                (MouseKind::LeftDown, Some(i)) => (p, EventResult::Consumed, switching(i)),
                (MouseKind::LeftDown, None) => (
                    p,
                    EventResult::Consumed,
                    if area.holds(m.row, m.column) {
                        SwitchEffect::Nothing
                    } else {
                        SwitchEffect::Close
                    },
                ),
                _ => (p, EventResult::Ignored, SwitchEffect::Nothing),
            }
        },
        _ => (p, EventResult::Ignored, SwitchEffect::Nothing),
    }
}

impl ModelQuickSwitchPopup {
    /// The popup when it opens.
    pub fn open(active_alias: &str) -> (p: ModelQuickSwitchPopup)
        ensures
            p.selected == first_row(active_alias@),
    {
        let mut i: usize = 0;
        while i < ROW_COUNT
            invariant
                i <= ROW_COUNT,
                forall|j: int| 0 <= j < i ==> active_alias@ != #[trigger] key_of(j),
            decreases ROW_COUNT - i,
        {
            if same(profile_key(i), active_alias) {
                proof {
                    keys_differ();
                }
                return ModelQuickSwitchPopup { selected: i };
            }
            i = i + 1;
        }
        assert(active_alias@ != key_of(0) && active_alias@ != key_of(1) && active_alias@ != key_of(2)
            && active_alias@ != key_of(3));
        ModelQuickSwitchPopup { selected: 1 }
    }

    /// Deals with an input.
    pub fn handle_event(&mut self, event: &Event, area: Rect, occluded: bool) -> (r: (
        EventResult,
        SwitchEffect,
    ))
        ensures
            (*final(self), r.0, r.1) == switch_step(*old(self), *event, area, occluded),
    {
        match event {
            Event::Key(key) => {
                if !key.press {
                    return (EventResult::Ignored, SwitchEffect::Nothing);
                }
                match classify_list_nav(key) {
                    Some(ListNavAction::MoveUp) => {
                        self.selected = previous_selection(self.selected);
                        (EventResult::Consumed, SwitchEffect::Nothing)
                    },
                    Some(ListNavAction::MoveDown) => {
                        self.selected = next_selection(self.selected, ROW_COUNT);
                        (EventResult::Consumed, SwitchEffect::Nothing)
                    },
                    Some(ListNavAction::Confirm) => (
                        EventResult::Consumed,
                        if self.selected < ROW_COUNT {
                            SwitchEffect::Switch(self.selected)
                        } else {
                            SwitchEffect::Close
                        },
                    ),
                    Some(ListNavAction::Cancel) => (EventResult::Consumed, SwitchEffect::Close),
                    _ => (EventResult::Ignored, SwitchEffect::Nothing),
                }
            },
            Event::Mouse(m) => {
                if occluded {
                    return (EventResult::Ignored, SwitchEffect::Nothing);
                }
                let over = row_index_at(m.row, m.column, &area);
                match m.kind {
                    MouseKind::Moved => match over {
                        Some(i) => {
                            self.selected = i;
                            (EventResult::Consumed, SwitchEffect::Nothing)
                        },
                        None => (EventResult::Ignored, SwitchEffect::Nothing),
                    },
                    MouseKind::LeftDown => match over {
                        Some(i) => (EventResult::Consumed, SwitchEffect::Switch(i)),
                        None => {
                            if click_inside_popup(m.row, m.column, &area) {
                                (EventResult::Consumed, SwitchEffect::Nothing)
                            } else {
                                (EventResult::Consumed, SwitchEffect::Close)
                            }
                        },
                    },
                    _ => (EventResult::Ignored, SwitchEffect::Nothing),
                }
            },
            _ => (EventResult::Ignored, SwitchEffect::Nothing),
        }
    }

    /// What the popup shows.
    pub fn lines(&self, rows: &Vec<QuickSwitchRow>, active_alias: &str) -> (d: Doc)
        ensures
            d@ == switch_lines(
                rows_view(rows@),
                active_alias@,
                self.selected as int,
                rows@.len() as int,
            ),
    {
        let ghost all = rows_view(rows@);
        let mut d = Doc::new();
        let mut i: usize = 0;
        assert(d@ =~= switch_lines(all, active_alias@, self.selected as int, 0));
        while i < rows.len()
            invariant
                i <= rows@.len(),
                all == rows_view(rows@),
                d@ == switch_lines(all, active_alias@, self.selected as int, i as int),
            decreases rows.len() - i,
        {
            assert(all[i as int] == rows@[i as int]@);
            let selected = i == self.selected;
            let active = same(rows[i].alias.as_str(), active_alias);
            let mark = if selected {
                " ❯ "
            } else if active {
                " ● "
            } else {
                " ○ "
            };
            let first = if selected {
                Style::bold(Color::Accent)
            } else if active {
                Style::bold(Color::Success)
            } else {
                Style::fg(Color::Primary)
            };
            let second = if selected {
                Style::bold(Color::Accent)
            } else {
                Style::fg(Color::Muted)
            };
            let alias = cat(mark, rows[i].alias.as_str());
            let model = truncate_str(rows[i].model.as_str(), 36);
            d.push(
                Line::of2(
                    Piece::text(alias, first),
                    Piece::text(cat(" ", model.as_str()), second),
                ),
            );
            i = i + 1;
            assert(d@ =~= switch_lines(all, active_alias@, self.selected as int, i as int));
        }
        d
    }
}

proof fn keys_differ()
    ensures
        "fable"@ != "opus"@,
        "fable"@ != "sonnet"@,
        "fable"@ != "haiku"@,
        "opus"@ != "sonnet"@,
        "opus"@ != "haiku"@,
        "sonnet"@ != "haiku"@,
{
    reveal_strlit("fable");
    reveal_strlit("opus");
    reveal_strlit("sonnet");
    reveal_strlit("haiku");
    assert("fable"@[0] == 'f');
    assert("haiku"@[0] == 'h');
    assert("opus"@.len() == 4 && "sonnet"@.len() == 6 && "fable"@.len() == 5 && "haiku"@.len() == 5);
}

/// What stands before a row.
pub open spec fn mark_of(selected: bool, active: bool) -> Seq<char> {
    if selected {
        " ❯ "@
    } else if active {
        " ● "@
    } else {
        " ○ "@
    }
}

/// The style of an alias.
pub open spec fn alias_style(selected: bool, active: bool) -> Style {
    if selected {
        bold(Color::Accent)
    } else if active {
        bold(Color::Success)
    } else {
        fg(Color::Primary)
    }
}

/// The style of a model.
pub open spec fn model_style(selected: bool) -> Style {
    if selected {
        bold(Color::Accent)
    } else {
        fg(Color::Muted)
    }
}

/// A row: the alias and its model, which is cut where it is long.
pub open spec fn switch_line(r: RowV, selected: bool, active: bool) -> LineV {
    seq![
        lit(mark_of(selected, active) + r.alias, alias_style(selected, active)),
        lit(" "@ + truncate_str_spec(r.model, 36), model_style(selected)),
    ]
}

/// The first rows.
pub open spec fn switch_lines(rows: Seq<RowV>, active: Seq<char>, selected: int, to: int) -> Seq<
    LineV,
>
    decreases to,
{
    if to <= 0 {
        Seq::empty()
    } else {
        switch_lines(rows, active, selected, to - 1).push(
            switch_line(rows[to - 1], to - 1 == selected, rows[to - 1].alias == active),
        )
    }
}

// ── Laws ───────────────────────────────────────────────────────────────────

proof fn all_rows_are_there(c: Option<PeriV>)
    ensures
        c is Some ==> rows_of(c->0, 4).len() == 4 && forall|i: int|
            0 <= i < 4 ==> #[trigger] rows_of(c->0, 4)[i] == (RowV {
                alias: key_of(i),
                model: model_of(c->0, key_of(i)),
            }),
        bare_rows(4).len() == 4,
        forall|i: int|
            0 <= i < 4 ==> #[trigger] bare_rows(4)[i] == (RowV {
                alias: key_of(i),
                model: key_of(i),
            }),
{
    reveal_with_fuel(bare_rows, 5);
    reveal_with_fuel(rows_of, 5);
}

/// In a session every model is listed under its alias, also without settings, and only the
/// row of the active alias shows what the session has.
pub proof fn other_rows_keep_their_models(
    c: Option<PeriV>,
    alias: Seq<char>,
    model: Seq<char>,
    i: int,
)
    requires
        0 <= i < 4,
    ensures
        session_rows(c, alias, model).len() == 4,
        session_rows(c, alias, model)[i].alias == key_of(i),
        key_of(i) != alias ==> session_rows(c, alias, model)[i].model == (match c {
            Some(c) => model_of(c, key_of(i)),
            None => key_of(i),
        }),
{
    all_rows_are_there(c);
    let rows = match c {
        Some(c) => rows_of(c, 4),
        None => bare_rows(4),
    };
    row_is_placed(rows, alias, 0);
}

proof fn row_is_placed(rows: Seq<RowV>, alias: Seq<char>, i: int)
    requires
        0 <= i <= rows.len(),
    ensures
        i <= row_from(rows, alias, i) <= rows.len(),
        row_from(rows, alias, i) < rows.len() ==> rows[row_from(rows, alias, i)].alias == alias,
    decreases rows.len() - i,
{
    if i < rows.len() && rows[i].alias != alias {
        row_is_placed(rows, alias, i + 1);
    }
}

/// The row of the active alias shows what the session has, where that is not blank.
pub proof fn the_session_model_is_shown(c: Option<PeriV>, model: Seq<char>, i: int)
    requires
        0 <= i < 4,
    ensures
        trim_spec(model).len() > 0 ==> session_rows(c, key_of(i), model)[i].model == model,
{
    all_rows_are_there(c);
    keys_differ();
    let rows = match c {
        Some(c) => rows_of(c, 4),
        None => bare_rows(4),
    };
    reveal_with_fuel(row_from, 5);
    assert(rows[0].alias == key_of(0) && rows[1].alias == key_of(1) && rows[2].alias == key_of(2)
        && rows[3].alias == key_of(3));
    assert(row_from(rows, key_of(i), 0) == i);
}

/// A click on a row does what Enter does once the mouse is over it.
pub proof fn click_is_enter_on_row(
    p: ModelQuickSwitchPopup,
    m: MouseEvent,
    area: Rect,
)
    requires
        m.kind == MouseKind::LeftDown,
        row_at(m.row, m.column, area) is Some,
    ensures
        ({
            let over = MouseEvent { kind: MouseKind::Moved, ..m };
            let (q, _, _) = switch_step(p, Event::Mouse(over), area, false);
            switch_step(p, Event::Mouse(m), area, false).2 == switching(q.selected as int)
        }),
{
}

/// The selected row is always one of the popup.
pub proof fn selection_is_a_row(
    p: ModelQuickSwitchPopup,
    event: Event,
    area: Rect,
    occluded: bool,
    alias: Seq<char>,
)
    ensures
        0 <= first_row(alias) < 4,
        p.selected < 4 ==> switch_step(p, event, area, occluded).0.selected < 4,
{
}

/// Within the bounds of its width, the popup has room for every row.
pub proof fn rows_fit(rows: Seq<RowV>, i: int)
    requires
        0 <= i < rows.len(),
    ensures
        widest(rows, rows.len() as int) + 4 <= POPUP_WIDTH_MAX ==> str_width_of(row_text(rows[i]))
            + 4 <= width_of(rows),
{
    widest_is_widest(rows, rows.len() as int, i);
}

proof fn widest_is_widest(rows: Seq<RowV>, to: int, i: int)
    requires
        0 <= i < to,
    ensures
        str_width_of(row_text(rows[i])) <= widest(rows, to),
    decreases to,
{
    if i < to - 1 {
        widest_is_widest(rows, to - 1, i);
    }
}

} // verus!
