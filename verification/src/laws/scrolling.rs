//! Moving views by the wheel, and where a click hits.

use crate::event::{Event, MouseEvent, MouseKind, Rect};
use crate::list_nav::{next_cyc, next_sel, prev_cyc, prev_sel, window_start};
use crate::panel_mouse::{button_from, hit, in_button, ListLayout};
use crate::panel_scroll::{around, flushed, hovered, moved, wheel_step, OwnerV, PanelScrollTarget,
    PanelScrollV};
use crate::scroll_view::ScrollViewState;
use vstd::prelude::*;

verus! {

/// A view moves by as many rows as asked for, up to its first row and down to where its last row
/// is at the bottom; a view whose height is not known does not move down.
pub proof fn a_view_moves_by_the_rows(view: ScrollViewState, rows: int, h: u16, page: u16)
    requires
        0 < rows <= u16::MAX,
        view.content_height == Some(h),
        view.page_height == Some(page),
        h > 0,
        page <= h,
        view.y <= h - page,
    ensures
        view.y + rows <= h - page ==> moved(view, rows).y == view.y + rows,
        view.y + rows > h - page ==> moved(view, rows).y == h - page,
        view.y >= rows ==> moved(view, -rows).y == view.y - rows,
        view.y < rows ==> moved(view, -rows).y == 0,
        moved(view, 0) == view,
        moved(view, rows).content_height == view.content_height,
        moved(view, rows).x == view.x,
{
}

/// A view moves up by as many rows as there are and down by as many as can be counted.
pub proof fn rows_up_and_down(view: ScrollViewState, rows: int)
    requires
        0 <= rows,
    ensures
        view.y >= rows ==> view.up_by(rows).y == view.y - rows,
        view.y < rows ==> view.up_by(rows).y == 0,
        view.y + rows <= u16::MAX ==> view.down_by(rows).y == view.y + rows,
        view.y + rows > u16::MAX ==> view.down_by(rows).y == u16::MAX,
        view.y + rows <= u16::MAX ==> view.down_by(rows).up_by(rows) == view,
{
}

/// A view is at the bottom where no row of it is left below.
pub proof fn the_bottom_is_where_no_row_is_left(view: ScrollViewState, h: u16, page: u16)
    requires
        view.content_height == Some(h),
        view.page_height == Some(page),
        view.y + page <= u16::MAX,
        h > 0,
    ensures
        view.at_bottom() <==> view.y + page >= h,
{
}

proof fn lemma_hovered(areas: Seq<Rect>, row: u16, column: u16, i: int, at: int)
    requires
        0 <= i <= at <= areas.len(),
        at < areas.len() ==> areas[at].holds(row, column),
        forall|k: int| i <= k < at ==> !(#[trigger] areas[k]).holds(row, column),
    ensures
        hovered(areas, row, column, i) == (if at < areas.len() {
            Some(at)
        } else {
            None
        }),
    decreases at - i,
{
    if i < at {
        lemma_hovered(areas, row, column, i + 1, at);
    }
}

/// The wheel over a view of the active panel moves that view by three rows a turn, and no other,
/// once a frame has passed; before that the turns are gathered up.
pub proof fn the_wheel_moves_the_view_under_it(
    s: PanelScrollV,
    o: OwnerV,
    m: MouseEvent,
    at: int,
    now: u64,
    frame_ms: u64,
)
    requires
        s.owner == Some(o),
        m.kind == MouseKind::ScrollDown || m.kind == MouseKind::ScrollUp,
        0 <= at < o.slots.len() <= usize::MAX,
        o.slots[at].area.holds(m.row, m.column),
        forall|k: int| 0 <= k < at ==> !(#[trigger] o.slots[k]).area.holds(m.row, m.column),
        -1000 <= s.pending <= 1000,
    ensures
        ({
            let (t, r) = wheel_step(s, Event::Mouse(m), false, Some(o.kind), now, frame_ms);
            let turn: int = if m.kind == MouseKind::ScrollDown {
                3
            } else {
                -3
            };
            let mine = s.target == Some(
                PanelScrollTarget { kind: o.kind, slot_index: at as usize },
            );
            let rows = (if mine {
                s.pending as int
            } else {
                0
            }) + turn;
            &&& r is Consumed
            &&& t.target == Some(PanelScrollTarget { kind: o.kind, slot_index: at as usize })
            &&& now >= s.last_flush + frame_ms ==> {
                &&& t.pending == 0 && t.last_flush == now
                &&& t.owner is Some && t.owner->0.slots.len() == o.slots.len()
                &&& t.owner->0.slots[at].state == moved(o.slots[at].state, rows)
                &&& forall|k: int|
                    0 <= k < o.slots.len() && k != at ==> (#[trigger] t.owner->0.slots[k])
                        == o.slots[k]
            }
            &&& now < s.last_flush + frame_ms && frame_ms > 0 ==> t.pending == rows && t.owner == s.owner
                && t.last_flush == s.last_flush
        }),
{
    let areas = crate::panel_scroll::areas_of(o.slots);
    assert forall|k: int| 0 <= k < at implies !(#[trigger] areas[k]).holds(m.row, m.column) by {
        assert(areas[k] == o.slots[k].area);
    }
    assert(areas[at] == o.slots[at].area);
    lemma_hovered(areas, m.row, m.column, 0, at);
}

/// What was gathered up is applied to the view it was meant for once a frame has passed, all of it
/// and once.
pub proof fn gathered_turns_are_applied_once(
    s: PanelScrollV,
    o: OwnerV,
    t: PanelScrollTarget,
    now: u64,
    later: u64,
    frame_ms: u64,
)
    requires
        s.owner == Some(o),
        s.target == Some(t),
        t.kind == o.kind,
        t.slot_index < o.slots.len(),
        now >= s.last_flush + frame_ms,
    ensures
        ({
            let f = flushed(s, Some(o.kind), false, now, frame_ms);
            let g = flushed(f, Some(o.kind), false, later, frame_ms);
            &&& f.pending == 0
            &&& f.owner is Some
            &&& f.owner->0.slots[t.slot_index as int].state == moved(
                o.slots[t.slot_index as int].state,
                s.pending as int,
            )
            &&& f.owner->0.slots.len() == o.slots.len()
            &&& g.owner is Some && g.owner->0.slots[t.slot_index as int].state.y
                == f.owner->0.slots[t.slot_index as int].state.y
        }),
{
}

/// A click on a row of an item that is shown hits that item: the first of the items shown stands
/// below the header, and each takes its rows.
pub proof fn a_click_hits_the_item_under_it(m: MouseEvent, area: Rect, l: ListLayout, k: int, j: int)
    requires
        m.kind == MouseKind::LeftDown,
        area.holds(m.row, m.column),
        0 <= k < l.visible_items,
        0 <= j < l.item_rows,
        m.row == area.y + 1 + l.header_rows + k * l.item_rows + j,
        m.row - area.y < area.height - 1 - l.footer_rows,
        l.scroll_start + k < l.item_count,
    ensures
        hit(m, area, l) == Some(l.scroll_start + k),
{
    let rows = l.item_rows as int;
    let above = k * rows + j;
    vstd::arithmetic::div_mod::lemma_fundamental_div_mod_converse(above, rows, k, j);
    assert(k * rows >= 0) by (nonlinear_arith)
        requires
            k >= 0,
            rows > 0,
    ;
}

/// A click beside the items hits none.
pub proof fn a_click_beside_hits_nothing(m: MouseEvent, area: Rect, l: ListLayout)
    ensures
        m.kind != MouseKind::LeftDown ==> hit(m, area, l) is None,
        !area.holds(m.row, m.column) ==> hit(m, area, l) is None,
        m.row < area.y + 1 + l.header_rows ==> hit(m, area, l) is None,
        m.row - area.y >= area.height - 1 - l.footer_rows ==> hit(m, area, l) is None,
        hit(m, area, l) matches Some(i) ==> l.scroll_start <= i < l.item_count && i
            < l.scroll_start + l.visible_items,
{
    if hit(m, area, l) is Some {
        let rows = l.item_rows as int;
        let above = m.row - area.y - 1 - l.header_rows;
        assert(above / rows >= 0) by (nonlinear_arith)
            requires
                rows > 0,
                above >= 0,
        ;
    }
}

proof fn lemma_button(x: u16, lens: Seq<int>, column: u16, i: int)
    requires
        0 <= i <= lens.len(),
    ensures
        button_from(x, lens, column, i) matches Some(b) ==> i <= b < lens.len() && in_button(
            x,
            lens,
            b,
            column,
        ),
        button_from(x, lens, column, i) is None ==> forall|b: int|
            i <= b < lens.len() ==> !in_button(x, lens, b, column),
    decreases lens.len() - i,
{
    if i < lens.len() && !in_button(x, lens, i, column) {
        lemma_button(x, lens, column, i + 1);
    }
}

/// Two buttons stand side by side, each as wide as its label with a frame of two on each side and
/// two between them; a click on one is a click on it, and beside them on none.
pub proof fn a_button_is_clicked_where_it_stands(x: u16, first: int, second: int, column: u16)
    requires
        0 <= first < 1000,
        0 <= second < 1000,
        x < 30_000,
    ensures
        ({
            let b = button_from(x, seq![first, second], column, 0);
            &&& x <= column < x + first + 4 ==> b == Some(0int)
            &&& x + first + 6 <= column < x + first + second + 10 ==> b == Some(1int)
            &&& column < x || x + first + 4 <= column < x + first + 6 || x + first + second + 10
                <= column ==> b is None
        }),
{
    reveal_with_fuel(button_from, 4);
    reveal_with_fuel(crate::panel_mouse::btn_start, 3);
}

/// A list moves by one row and stops at its ends; a circle goes on from the last to the first and
/// from the first to the last.
pub proof fn lists_stop_and_circles_go_on(s: int, count: int)
    requires
        0 <= s < count,
    ensures
        s + 1 < count ==> next_sel(s, count) == s + 1 && next_cyc(s, count) == s + 1,
        s + 1 == count ==> next_sel(s, count) == s && next_cyc(s, count) == 0,
        s > 0 ==> prev_sel(s) == s - 1 && prev_cyc(s, count) == s - 1,
        s == 0 ==> prev_sel(s) == 0 && prev_cyc(s, count) == count - 1,
        prev_cyc(next_cyc(s, count), count) == s,
{
}

/// The window of a list begins at the first row as long as the selection is within it, and else
/// ends with the selection.
pub proof fn the_window_holds_the_selection(selected: int, visible: int)
    requires
        0 <= selected,
        0 < visible,
    ensures
        0 <= window_start(selected, visible) <= selected < window_start(selected, visible)
            + visible,
        selected < visible ==> window_start(selected, visible) == 0,
        selected >= visible ==> window_start(selected, visible) + visible == selected + 1,
{
}

/// The area around others holds all that they hold.
pub proof fn the_area_around_holds_all(areas: Seq<Rect>, row: u16, column: u16, i: int)
    requires
        0 <= i < areas.len(),
        areas[i].holds(row, column),
    ensures
        around(areas).holds(row, column),
    decreases areas.len(),
{
    if areas.len() > 1 && i < areas.len() - 1 {
        the_area_around_holds_all(areas.drop_last(), row, column, i);
    }
}

} // verus!
