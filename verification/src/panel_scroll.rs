//! The wheel over a panel: each turn moves the view under the mouse by the same number of
//! rows, gathered up and applied once per frame.

use crate::event::{rect, sat, sat_diff, Event, EventResult, MouseKind, Rect};
use crate::panel_registry::PanelKind;
use crate::scroll_view::ScrollViewState;
use vstd::prelude::*;

verus! {

/// The rows that one turn of the wheel moves.
pub const SCROLL_LINES: i32 = 3;

/// A view of a panel: where it is, and how far it is scrolled.
#[derive(Debug, Clone, Copy, PartialEq, Eq, Structural)]
pub struct PanelScrollSlot {
    pub area: Rect,
    pub state: ScrollViewState,
}

/// The views of a panel, as of its last frame, and the area that they stand in, with its
/// border and what parts them.
#[derive(Debug)]
pub struct PanelScrollOwner {
    pub kind: PanelKind,
    pub content: Rect,
    pub slots: Vec<PanelScrollSlot>,
}

/// The views of a panel, abstractly.
pub struct OwnerV {
    pub kind: PanelKind,
    pub content: Rect,
    pub slots: Seq<PanelScrollSlot>,
}

impl View for PanelScrollOwner {
    type V = OwnerV;

    open spec fn view(&self) -> OwnerV {
        OwnerV { kind: self.kind, content: self.content, slots: self.slots@ }
    }
}

/// The view that what was gathered up belongs to.
#[derive(Debug, Clone, Copy, PartialEq, Eq, Structural)]
pub struct PanelScrollTarget {
    pub kind: PanelKind,
    pub slot_index: usize,
}

/// The wheel over the panels: the views registered last, what was gathered up, when it was
/// last applied, and what it belongs to. Times are in milliseconds.
#[derive(Debug)]
pub struct PanelScroll {
    pub owner: Option<PanelScrollOwner>,
    pub pending_delta: i32,
    pub last_flush: u64,
    pub target: Option<PanelScrollTarget>,
}

/// The wheel over the panels, abstractly.
pub struct PanelScrollV {
    pub owner: Option<OwnerV>,
    pub pending: i32,
    pub last_flush: u64,
    pub target: Option<PanelScrollTarget>,
}

impl View for PanelScroll {
    type V = PanelScrollV;

    open spec fn view(&self) -> PanelScrollV {
        PanelScrollV {
            owner: match self.owner {
                Some(o) => Some(o@),
                None => None,
            },
            pending: self.pending_delta,
            last_flush: self.last_flush,
            target: self.target,
        }
    }
}

impl Default for PanelScroll {
    fn default() -> (s: PanelScroll)
        ensures
            s@ == (PanelScrollV { owner: None, pending: 0, last_flush: 0, target: None }),
    {
        PanelScroll { owner: None, pending_delta: 0, last_flush: 0, target: None }
    }
}

// ── Areas ──────────────────────────────────────────────────────────────────

/// The width of the left part of an area.
pub open spec fn left_width(width: u16, left_pct: u16) -> int {
    let pct: int = if left_pct > 100 {
        100
    } else {
        left_pct as int
    };
    width * pct / 100
}

/// The left and the right part of an area.
pub open spec fn halves(area: Rect, left_pct: u16) -> (Rect, Rect) {
    let w = left_width(area.width, left_pct);
    let x = if area.x + w > u16::MAX {
        u16::MAX as int
    } else {
        area.x + w
    };
    (
        rect(area.x, area.y, w as u16, area.height),
        rect(x as u16, area.y, (area.width - w) as u16, area.height),
    )
}

proof fn left_fits(width: u16, left_pct: u16)
    ensures
        0 <= left_width(width, left_pct) <= width,
{
    let pct: int = if left_pct > 100 {
        100
    } else {
        left_pct as int
    };
    assert(0 <= width * pct <= width * 100) by (nonlinear_arith)
        requires
            0 <= pct <= 100,
            0 <= width,
    ;
}

/// Parts an area into left and right; the left part gets the share given.
pub fn split_vertical(area: Rect, left_pct: u16) -> (r: (Rect, Rect))
    ensures
        r == halves(area, left_pct),
{
    let pct: u16 = if left_pct > 100 {
        100
    } else {
        left_pct
    };
    proof {
        left_fits(area.width, left_pct);
    }
    assert(area.width * pct <= 0xffff * 100) by (nonlinear_arith)
        requires
            pct <= 100,
            area.width <= 0xffff,
    ;
    let product: u32 = area.width as u32 * pct as u32;
    let w: u16 = (product / 100) as u16;
    (
        Rect::new(area.x, area.y, w, area.height),
        Rect::new(area.x.saturating_add(w), area.y, area.width - w, area.height),
    )
}

/// The two parts make up the area: their widths add up, and each cell of the area is in one
/// of them.
pub proof fn halves_make_the_whole(area: Rect, left_pct: u16, row: u16, column: u16)
    requires
        area.x + area.width <= u16::MAX,
    ensures
        halves(area, left_pct).0.width + halves(area, left_pct).1.width == area.width,
        area.holds(row, column) == (halves(area, left_pct).0.holds(row, column) != halves(
            area,
            left_pct,
        ).1.holds(row, column)),
{
    left_fits(area.width, left_pct);
}

/// Whether the mouse is over an area.
pub fn mouse_in_area(mouse_row: u16, mouse_col: u16, area: Rect) -> (b: bool)
    ensures
        b == area.holds(mouse_row, mouse_col),
{
    area.contains(mouse_row, mouse_col)
}

/// The first area from a place on that the mouse is over.
pub open spec fn hovered(areas: Seq<Rect>, row: u16, column: u16, i: int) -> Option<int>
    decreases areas.len() - i,
{
    if i < 0 || i >= areas.len() {
        None
    } else if areas[i].holds(row, column) {
        Some(i)
    } else {
        hovered(areas, row, column, i + 1)
    }
}

/// The areas of the views.
pub open spec fn areas_of(slots: Seq<PanelScrollSlot>) -> Seq<Rect> {
    slots.map_values(|s: PanelScrollSlot| s.area)
}

/// The first area that the mouse is over.
pub fn hovered_area(areas: &Vec<Rect>, mouse_row: u16, mouse_col: u16) -> (r: Option<usize>)
    ensures
        hovered(areas@, mouse_row, mouse_col, 0) == (match r {
            Some(i) => Some(i as int),
            None => None,
        }),
{
    let mut i: usize = 0;
    while i < areas.len()
        invariant
            i <= areas@.len(),
            hovered(areas@, mouse_row, mouse_col, 0) == hovered(
                areas@,
                mouse_row,
                mouse_col,
                i as int,
            ),
        decreases areas.len() - i,
    {
        if mouse_in_area(mouse_row, mouse_col, areas[i]) {
            return Some(i);
        }
        i = i + 1;
    }
    None
}

/// The first view that the mouse is over.
pub fn hovered_slot(slots: &Vec<PanelScrollSlot>, mouse_row: u16, mouse_col: u16) -> (r: Option<
    usize,
>)
    ensures
        hovered(areas_of(slots@), mouse_row, mouse_col, 0) == (match r {
            Some(i) => Some(i as int),
            None => None,
        }),
        r matches Some(i) ==> i < slots@.len(),
{
    let mut areas: Vec<Rect> = Vec::new();
    let mut i: usize = 0;
    while i < slots.len()
        invariant
            i <= slots@.len(),
            areas@ =~= areas_of(slots@).take(i as int),
        decreases slots.len() - i,
    {
        areas.push(slots[i].area);
        i = i + 1;
    }
    assert(areas@ =~= areas_of(slots@));
    let r = hovered_area(&areas, mouse_row, mouse_col);
    proof {
        hovered_is_an_area(areas@, mouse_row, mouse_col, 0);
    }
    r
}

proof fn hovered_is_an_area(areas: Seq<Rect>, row: u16, column: u16, i: int)
    requires
        0 <= i,
    ensures
        hovered(areas, row, column, i) matches Some(j) ==> i <= j < areas.len()
            && areas[j].holds(row, column),
    decreases areas.len() - i,
{
    if i < areas.len() {
        hovered_is_an_area(areas, row, column, i + 1);
    }
}

/// The smaller of two coordinates.
pub open spec fn lower(a: u16, b: u16) -> u16 {
    if a < b {
        a
    } else {
        b
    }
}

/// The greater of two coordinates.
pub open spec fn upper(a: int, b: int) -> int {
    if a > b {
        a
    } else {
        b
    }
}

/// The least area that holds two areas.
pub open spec fn joined(a: Rect, b: Rect) -> Rect {
    let x = lower(a.x, b.x);
    let y = lower(a.y, b.y);
    Rect {
        x,
        y,
        width: (upper(sat(a.x as int, a.width as int), sat(b.x as int, b.width as int)) - x) as u16,
        height: (upper(sat(a.y as int, a.height as int), sat(b.y as int, b.height as int))
            - y) as u16,
    }
}

/// The least area that holds all areas.
pub open spec fn around(areas: Seq<Rect>) -> Rect
    decreases areas.len(),
{
    if areas.len() == 0 {
        Rect { x: 0, y: 0, width: 0, height: 0 }
    } else if areas.len() == 1 {
        areas[0]
    } else {
        joined(around(areas.drop_last()), areas.last())
    }
}

/// What holds two areas holds each cell of both.
proof fn joined_holds_both(a: Rect, b: Rect, row: u16, column: u16)
    ensures
        a.holds(row, column) || b.holds(row, column) ==> joined(a, b).holds(row, column),
{
}

/// Each cell of a view is in the area that holds all views.
pub proof fn views_are_in_the_panel(areas: Seq<Rect>, i: int, row: u16, column: u16)
    requires
        0 <= i < areas.len(),
        areas[i].holds(row, column),
    ensures
        around(areas).holds(row, column),
    decreases areas.len(),
{
    if areas.len() > 1 {
        if i < areas.len() - 1 {
            views_are_in_the_panel(areas.drop_last(), i, row, column);
        }
        joined_holds_both(around(areas.drop_last()), areas.last(), row, column);
    }
}

fn join_areas(a: Rect, b: Rect) -> (r: Rect)
    ensures
        r == joined(a, b),
{
    let x: u16 = if a.x < b.x {
        a.x
    } else {
        b.x
    };
    let y: u16 = if a.y < b.y {
        a.y
    } else {
        b.y
    };
    let ar: u16 = a.x.saturating_add(a.width);
    let br: u16 = b.x.saturating_add(b.width);
    let ab: u16 = a.y.saturating_add(a.height);
    let bb: u16 = b.y.saturating_add(b.height);
    let right: u16 = if ar > br {
        ar
    } else {
        br
    };
    let bottom: u16 = if ab > bb {
        ab
    } else {
        bb
    };
    Rect { x, y, width: right - x, height: bottom - y }
}

fn area_around(slots: &Vec<PanelScrollSlot>) -> (r: Rect)
    ensures
        r == around(areas_of(slots@)),
{
    if slots.len() == 0 {
        return Rect { x: 0, y: 0, width: 0, height: 0 };
    }
    let ghost all = areas_of(slots@);
    let mut r = slots[0].area;
    let mut i: usize = 1;
    assert(all.take(1) =~= seq![r]);
    while i < slots.len()
        invariant
            1 <= i <= slots@.len(),
            all == areas_of(slots@),
            r == around(all.take(i as int)),
        decreases slots.len() - i,
    {
        assert(all.take(i + 1).drop_last() =~= all.take(i as int));
        assert(all.take(i + 1).last() == slots@[i as int].area);
        r = join_areas(r, slots[i].area);
        i = i + 1;
    }
    assert(all.take(i as int) =~= all);
    r
}

// ── Moving a view ──────────────────────────────────────────────────────────

/// The row that a view can be scrolled down to.
pub open spec fn lowest(view: ScrollViewState) -> int {
    match view.content_height {
        None => view.y as int,
        Some(h) => {
            let page: int = match view.page_height {
                Some(p) => p as int,
                None => 1,
            };
            (if h > 0 {
                h as int
            } else {
                1
            }) - page
        },
    }
}

/// How many rows a number of rows up or down comes to.
pub open spec fn rows_of(pending: int) -> int {
    if pending < 0 {
        -pending
    } else {
        pending
    }
}

/// A view after a number of rows: down where it is positive, up where it is negative, no
/// further than the content goes.
pub open spec fn moved(view: ScrollViewState, pending: int) -> ScrollViewState {
    if pending > 0 {
        let y = view.y + rows_of(pending);
        view.at(
            (if lowest(view) <= view.y {
                view.y as int
            } else if y <= lowest(view) {
                y
            } else {
                lowest(view)
            }) as u16,
        )
    } else {
        view.at(sat_diff(view.y as int, rows_of(pending)) as u16)
    }
}

/// Moves a view.
pub fn apply_pending_to_view(scroll: &mut ScrollViewState, pending: i32)
    ensures
        *final(scroll) == moved(*old(scroll), pending as int),
{
    let ghost before = *scroll;
    if pending == 0 {
        return;
    }
    if pending > 0 {
        let mut n: i64 = pending as i64;
        let ghost all = n as int;
        while n > 0 && !scroll.is_at_bottom()
            invariant
                0 <= n <= all,
                all == rows_of(pending as int),
                *scroll == before.at(scroll.y),
                scroll.y == before.y + (all - n),
                scroll.y == before.y || scroll.y <= lowest(before),
            decreases n,
        {
            assert(scroll.y < u16::MAX);
            scroll.scroll_down();
            n = n - 1;
        }
    } else {
        let mut n: i64 = -(pending as i64);
        let ghost all = n as int;
        while n > 0 && scroll.y > 0
            invariant
                0 <= n <= all,
                all == rows_of(pending as int),
                *scroll == before.at(scroll.y),
                scroll.y == before.y - (all - n),
            decreases n,
        {
            scroll.scroll_up();
            n = n - 1;
        }
    }
}

/// A view that is moved stays within its content: up no further than the top, down no
/// further than the last row, and not at all where the content is not known.
pub proof fn moving_stays_within(view: ScrollViewState, pending: int)
    ensures
        pending <= 0 ==> moved(view, pending).y <= view.y,
        pending >= 0 ==> moved(view, pending).y >= view.y,
        pending > 0 && view.at_bottom() ==> moved(view, pending) == view,
        pending > 0 && !view.at_bottom() ==> moved(view, pending).y <= lowest(view),
        moved(view, 0) == view,
{
}

// ── The wheel ──────────────────────────────────────────────────────────────

/// The time of a frame has passed since something was last applied.
pub open spec fn due(last_flush: u64, now: u64, frame_ms: u64) -> bool {
    sat_diff(now as int, last_flush as int) >= frame_ms
}

/// A sum of rows, within what can be held.
pub open spec fn gathered(pending: i32, delta: i32) -> i32 {
    (if pending + delta > i32::MAX {
        i32::MAX as int
    } else if pending + delta < i32::MIN {
        i32::MIN as int
    } else {
        pending + delta
    }) as i32
}

/// A panel after one of its views was moved.
pub open spec fn with_moved(o: OwnerV, i: int, pending: int) -> OwnerV {
    OwnerV {
        slots: o.slots.update(
            i,
            PanelScrollSlot { state: moved(o.slots[i].state, pending), ..o.slots[i] },
        ),
        ..o
    }
}

/// What a turn over a view does: what was gathered up for another view is dropped; the turn
/// is gathered up, and applied where the time of a frame has passed.
pub open spec fn turned(s: PanelScrollV, i: int, delta: i32, now: u64, frame_ms: u64) -> PanelScrollV
    recommends
        s.owner is Some,
{
    let o = s.owner->0;
    let t = PanelScrollTarget { kind: o.kind, slot_index: i as usize };
    let pending = gathered(
        if s.target == Some(t) {
            s.pending
        } else {
            0
        },
        delta,
    );
    if due(s.last_flush, now, frame_ms) {
        PanelScrollV {
            owner: Some(with_moved(o, i, pending as int)),
            pending: 0,
            last_flush: now,
            target: Some(t),
        }
    } else {
        PanelScrollV { pending, target: Some(t), ..s }
    }
}

/// The rows of an input, if it is a turn of the wheel.
pub open spec fn turn_of(kind: MouseKind) -> Option<i32> {
    match kind {
        MouseKind::ScrollDown => Some(3i32),
        MouseKind::ScrollUp => Some(-3i32),
        _ => None,
    }
}

/// What an input does. A popup goes first; only a view of the active panel is moved. A turn
/// over the panel but over none of its views is used up and moves nothing.
pub open spec fn wheel_step(
    s: PanelScrollV,
    event: Event,
    popup_open: bool,
    active: Option<PanelKind>,
    now: u64,
    frame_ms: u64,
) -> (PanelScrollV, EventResult) {
    match event {
        Event::Mouse(m) => match (turn_of(m.kind), s.owner) {
            (Some(delta), Some(o)) => if popup_open || active != Some(o.kind) {
                (s, EventResult::Ignored)
            } else {
                match hovered(areas_of(o.slots), m.row, m.column, 0) {
                    Some(i) => (turned(s, i, delta, now, frame_ms), EventResult::Consumed),
                    None => (
                        s,
                        if o.content.holds(m.row, m.column) {
                            EventResult::Consumed
                        } else {
                            EventResult::Ignored
                        },
                    ),
                }
            },
            _ => (s, EventResult::Ignored),
        },
        _ => (s, EventResult::Ignored),
    }
}

/// What a frame does with what was gathered up: it is applied where the view is still that
/// of the active panel, and kept where the view is in use.
pub open spec fn flushed(
    s: PanelScrollV,
    active: Option<PanelKind>,
    in_use: bool,
    now: u64,
    frame_ms: u64,
) -> PanelScrollV {
    if !due(s.last_flush, now, frame_ms) {
        s
    } else {
        match s.target {
            None => PanelScrollV { pending: 0, ..s },
            Some(t) => {
                let rest = PanelScrollV { pending: 0, last_flush: now, ..s };
                match s.owner {
                    Some(o) => if active == Some(o.kind) && o.kind == t.kind && t.slot_index
                        < o.slots.len() {
                        if in_use {
                            PanelScrollV { pending: s.pending, ..rest }
                        } else {
                            PanelScrollV {
                                owner: Some(
                                    with_moved(o, t.slot_index as int, s.pending as int),
                                ),
                                ..rest
                            }
                        }
                    } else {
                        rest
                    },
                    None => rest,
                }
            },
        }
    }
}

fn is_due(last_flush: u64, now: u64, frame_ms: u64) -> (b: bool)
    ensures
        b == due(last_flush, now, frame_ms),
{
    now.saturating_sub(last_flush) >= frame_ms
}

fn move_slot(owner: &mut PanelScrollOwner, i: usize, pending: i32)
    requires
        i < old(owner)@.slots.len(),
    ensures
        final(owner)@ == with_moved(old(owner)@, i as int, pending as int),
{
    let mut slot = owner.slots[i];
    apply_pending_to_view(&mut slot.state, pending);
    owner.slots.set(i, slot);
}

impl PanelScroll {
    /// Registers the views of a panel for the next frame. They stand in the least area that
    /// holds them all.
    pub fn register_panel_scrolls(&mut self, kind: PanelKind, slots: Vec<PanelScrollSlot>)
        ensures
            final(self)@ == (PanelScrollV {
                owner: Some(OwnerV { kind, content: around(areas_of(slots@)), slots: slots@ }),
                ..old(self)@
            }),
    {
        let content = area_around(&slots);
        self.owner = Some(PanelScrollOwner { kind, content, slots });
    }

    /// Registers the area that the views of the panel stand in, with its border.
    pub fn register_panel_content(&mut self, area: Rect)
        ensures
            final(self)@ == (PanelScrollV {
                owner: match old(self)@.owner {
                    Some(o) => Some(OwnerV { content: area, ..o }),
                    None => None,
                },
                ..old(self)@
            }),
    {
        match self.owner.take() {
            Some(mut o) => {
                o.content = area;
                self.owner = Some(o);
            },
            None => {},
        }
    }

    /// Registers the only view of a panel.
    pub fn register_panel_scroll(&mut self, kind: PanelKind, area: Rect, state: ScrollViewState)
        ensures
            final(self)@ == (PanelScrollV {
                owner: Some(
                    OwnerV {
                        kind,
                        content: around(seq![area]),
                        slots: seq![PanelScrollSlot { area, state }],
                    },
                ),
                ..old(self)@
            }),
    {
        let mut slots: Vec<PanelScrollSlot> = Vec::new();
        slots.push(PanelScrollSlot { area, state });
        assert(slots@ =~= seq![PanelScrollSlot { area, state }]);
        assert(areas_of(slots@) =~= seq![area]);
        self.register_panel_scrolls(kind, slots);
    }

    fn accumulate_and_flush(&mut self, slot_index: usize, delta: i32, now: u64, frame_ms: u64)
        requires
            old(self)@.owner is Some,
            slot_index < old(self)@.owner->0.slots.len(),
        ensures
            final(self)@ == turned(old(self)@, slot_index as int, delta, now, frame_ms),
    {
        match self.owner.take() {
            Some(mut owner) => {
                let target = PanelScrollTarget { kind: owner.kind, slot_index };
                let same = match self.target {
                    Some(t) => t == target,
                    None => false,
                };
                if !same {
                    self.pending_delta = 0;
                    self.target = Some(target);
                }
                let sum: i64 = self.pending_delta as i64 + delta as i64;
                self.pending_delta = if sum > 0x7fff_ffff {
                    0x7fff_ffff
                } else if sum < -0x8000_0000 {
                    -0x8000_0000
                } else {
                    sum as i32
                };
                if is_due(self.last_flush, now, frame_ms) {
                    let pending: i32 = self.pending_delta;
                    self.pending_delta = 0;
                    self.last_flush = now;
                    move_slot(&mut owner, slot_index, pending);
                }
                self.owner = Some(owner);
            },
            None => {},
        }
    }

    /// Deals with an input.
    pub fn handle_panel_scroll(
        &mut self,
        event: &Event,
        popup_open: bool,
        active: Option<PanelKind>,
        now: u64,
        frame_ms: u64,
    ) -> (r: EventResult)
        ensures
            (final(self)@, r) == wheel_step(old(self)@, *event, popup_open, active, now, frame_ms),
    {
        let m = match event {
            Event::Mouse(m) => m,
            _ => {
                return EventResult::Ignored;
            },
        };
        let delta: i32 = match m.kind {
            MouseKind::ScrollDown => SCROLL_LINES,
            MouseKind::ScrollUp => -SCROLL_LINES,
            _ => {
                return EventResult::Ignored;
            },
        };
        if popup_open {
            return EventResult::Ignored;
        }
        let index = match &self.owner {
            Some(o) => {
                let shown = match active {
                    Some(k) => k == o.kind,
                    None => false,
                };
                if !shown {
                    return EventResult::Ignored;
                }
                match hovered_slot(&o.slots, m.row, m.column) {
                    Some(i) => i,
                    None => {
                        return if mouse_in_area(m.row, m.column, o.content) {
                            EventResult::Consumed
                        } else {
                            EventResult::Ignored
                        };
                    },
                }
            },
            None => {
                return EventResult::Ignored;
            },
        };
        self.accumulate_and_flush(index, delta, now, frame_ms);
        EventResult::Consumed
    }

    /// Applies what was gathered up, once per frame.
    pub fn flush_panel_scroll_due(
        &mut self,
        active: Option<PanelKind>,
        in_use: bool,
        now: u64,
        frame_ms: u64,
    )
        ensures
            final(self)@ == flushed(old(self)@, active, in_use, now, frame_ms),
    {
        if !is_due(self.last_flush, now, frame_ms) {
            return;
        }
        let target = match self.target {
            Some(t) => t,
            None => {
                self.pending_delta = 0;
                return;
            },
        };
        let pending: i32 = self.pending_delta;
        self.pending_delta = 0;
        self.last_flush = now;
        match self.owner.take() {
            Some(mut owner) => {
                let shown = match active {
                    Some(k) => k == owner.kind,
                    None => false,
                };
                if shown && owner.kind == target.kind && target.slot_index < owner.slots.len() {
                    if in_use {
                        self.pending_delta = pending;
                    } else {
                        move_slot(&mut owner, target.slot_index, pending);
                    }
                }
                self.owner = Some(owner);
            },
            None => {},
        }
    }
}

// ── Laws ───────────────────────────────────────────────────────────────────

/// While a popup is open, or where the panel registered is not the active one, the wheel
/// does nothing here.
pub proof fn the_wheel_is_left_alone(
    s: PanelScrollV,
    event: Event,
    popup_open: bool,
    active: Option<PanelKind>,
    now: u64,
    frame_ms: u64,
)
    requires
        popup_open || s.owner is None || active != Some(s.owner->0.kind),
    ensures
        wheel_step(s, event, popup_open, active, now, frame_ms) == (s, EventResult::Ignored),
{
}

/// A turn over the panel but over none of its views, on the border or between two views, is
/// used up and changes nothing.
pub proof fn turns_on_the_border_are_used_up(
    s: PanelScrollV,
    m: crate::event::MouseEvent,
    now: u64,
    frame_ms: u64,
)
    requires
        m.kind == MouseKind::ScrollUp || m.kind == MouseKind::ScrollDown,
        s.owner is Some,
        s.owner->0.content.holds(m.row, m.column),
        forall|i: int|
            0 <= i < s.owner->0.slots.len() ==> !(#[trigger] s.owner->0.slots[i]).area.holds(
                m.row,
                m.column,
            ),
    ensures
        wheel_step(s, Event::Mouse(m), false, Some(s.owner->0.kind), now, frame_ms) == (
            s,
            EventResult::Consumed,
        ),
{
    let areas = areas_of(s.owner->0.slots);
    hovered_is_an_area(areas, m.row, m.column, 0);
    if hovered(areas, m.row, m.column, 0) is Some {
        let i = hovered(areas, m.row, m.column, 0)->0;
        assert(areas[i] == s.owner->0.slots[i].area);
    }
}

/// A turn moves no view but the one under the mouse.
pub proof fn only_the_view_under_the_mouse_moves(
    s: PanelScrollV,
    m: crate::event::MouseEvent,
    active: Option<PanelKind>,
    now: u64,
    frame_ms: u64,
    i: int,
)
    requires
        s.owner is Some,
        0 <= i < s.owner->0.slots.len(),
        !s.owner->0.slots[i].area.holds(m.row, m.column),
    ensures
        ({
            let t = wheel_step(s, Event::Mouse(m), false, active, now, frame_ms).0;
            &&& t.owner is Some
            &&& t.owner->0.slots.len() == s.owner->0.slots.len()
            &&& t.owner->0.slots[i] == s.owner->0.slots[i]
        }),
{
    let areas = areas_of(s.owner->0.slots);
    hovered_is_an_area(areas, m.row, m.column, 0);
    assert(areas[i] == s.owner->0.slots[i].area);
}

/// What was gathered up for a view is never applied to another: a turn over another view
/// drops it first.
pub proof fn turns_are_not_mixed(s: PanelScrollV, i: int, delta: i32, now: u64, frame_ms: u64)
    requires
        s.owner is Some,
        0 <= i < s.owner->0.slots.len(),
        s.owner->0.slots.len() <= usize::MAX,
        s.target != Some(PanelScrollTarget { kind: s.owner->0.kind, slot_index: i as usize }),
    ensures
        turned(s, i, delta, now, frame_ms) == turned(
            PanelScrollV { pending: 0, ..s },
            i,
            delta,
            now,
            frame_ms,
        ),
{
}

/// Nothing is lost while the view is in use.
pub proof fn nothing_is_lost_in_use(
    s: PanelScrollV,
    active: Option<PanelKind>,
    now: u64,
    frame_ms: u64,
)
    requires
        s.owner matches Some(o) && s.target matches Some(t) && active == Some(o.kind) && t.kind
            == o.kind && t.slot_index < o.slots.len(),
    ensures
        flushed(s, active, true, now, frame_ms).pending == s.pending,
        flushed(s, active, true, now, frame_ms).owner == s.owner,
{
}

} // verus!
