//! Which item of a list a mouse event points at.

use crate::event::{sat, MouseEvent, MouseKind, Rect};
use vstd::prelude::*;

verus! {

/// The rows of a bordered list: `header_rows` under the top border, then items of
/// `item_rows` rows each, and `footer_rows` above the bottom border.
#[derive(Debug, Clone, Copy, PartialEq, Eq, Structural)]
pub struct ListLayout {
    pub header_rows: u16,
    pub item_rows: u16,
    pub footer_rows: u16,
    pub visible_items: u16,
    pub scroll_start: usize,
    pub item_count: usize,
}

/// The row and column of a left click.
pub open spec fn click(m: MouseEvent) -> Option<(u16, u16)> {
    if m.kind == MouseKind::LeftDown {
        Some((m.row, m.column))
    } else {
        None
    }
}

/// The row and column of a left click.
pub fn left_down(m: &MouseEvent) -> (r: Option<(u16, u16)>)
    ensures
        r == click(*m),
{
    if m.kind == MouseKind::LeftDown {
        Some((m.row, m.column))
    } else {
        None
    }
}

/// The event lies in the last column of the area, where the scrollbar is drawn.
pub open spec fn on_scrollbar(m: MouseEvent, area: Rect) -> bool {
    area.width > 0 && m.column == sat(area.x as int, area.width - 1)
}

pub fn is_scrollbar_column(m: &MouseEvent, area: Rect) -> (b: bool)
    ensures
        b == on_scrollbar(*m, area),
{
    area.width > 0 && m.column == area.x.saturating_add(area.width - 1)
}

/// The row below the top border that a position lies in, counted from 0.
pub open spec fn content_row(row: u16, area: Rect) -> int {
    row - area.y - 1
}

/// A row that holds part of an item, for a list of the given layout.
pub open spec fn item_row(row: u16, area: Rect, layout: ListLayout) -> bool {
    &&& layout.header_rows <= content_row(row, area)
    &&& content_row(row, area) < area.height - 2 - layout.footer_rows
}

/// The item that a row of the area shows, whatever the mouse does there.
pub open spec fn row_item(row: u16, area: Rect, layout: ListLayout) -> Option<int> {
    if area.y <= row < sat(area.y as int, area.height as int) && layout.item_rows > 0 && item_row(
        row,
        area,
        layout,
    ) {
        let slot = (content_row(row, area) - layout.header_rows) / (layout.item_rows as int);
        if slot < layout.visible_items && layout.scroll_start + slot < layout.item_count {
            Some(layout.scroll_start + slot)
        } else {
            None
        }
    } else {
        None
    }
}

/// The item that a row of the area shows.
pub fn hit_row(row: u16, area: Rect, layout: ListLayout) -> (r: Option<usize>)
    ensures
        match r {
            Some(i) => row_item(row, area, layout) == Some(i as int),
            None => row_item(row, area, layout) is None,
        },
{
    if row < area.y || row >= area.y.saturating_add(area.height) || layout.item_rows == 0 {
        return None;
    }
    let below: u16 = row - area.y;
    if below == 0 {
        return None;
    }
    let line: u16 = below - 1;
    if line < layout.header_rows || line as u32 + 2 + layout.footer_rows as u32
        >= area.height as u32 {
        return None;
    }
    let slot: usize = ((line - layout.header_rows) / layout.item_rows) as usize;
    if slot < layout.visible_items as usize && layout.scroll_start < layout.item_count && slot
        < layout.item_count - layout.scroll_start {
        Some(layout.scroll_start + slot)
    } else {
        None
    }
}

/// The item that a left click on the area points at.
pub open spec fn hit(m: MouseEvent, area: Rect, layout: ListLayout) -> Option<int> {
    if m.kind == MouseKind::LeftDown && area.holds(m.row, m.column) {
        row_item(m.row, area, layout)
    } else {
        None
    }
}

/// The item that a left click on the area points at.
pub fn hit_item(m: &MouseEvent, area: Rect, layout: ListLayout) -> (r: Option<usize>)
    ensures
        match r {
            Some(i) => hit(*m, area, layout) == Some(i as int),
            None => hit(*m, area, layout) is None,
        },
{
    if m.kind != MouseKind::LeftDown || !area.contains(m.row, m.column) {
        return None;
    }
    hit_row(m.row, area, layout)
}

/// A hit is an item of the list, and one of those on the screen.
pub proof fn hit_is_shown(m: MouseEvent, area: Rect, layout: ListLayout)
    requires
        hit(m, area, layout) is Some,
    ensures
        layout.scroll_start <= hit(m, area, layout)->0 < layout.item_count,
        hit(m, area, layout)->0 < layout.scroll_start + layout.visible_items,
{
    let d = content_row(m.row, area) - layout.header_rows;
    assert(d / (layout.item_rows as int) >= 0) by (nonlinear_arith)
        requires
            d >= 0,
            layout.item_rows > 0,
    ;
}

/// A left click on a line of what an area shows below its top border, beside the scrollbar.
pub open spec fn clicks(m: MouseEvent, area: Rect, line: int) -> bool {
    &&& m.kind == MouseKind::LeftDown
    &&& area.holds(m.row, m.column)
    &&& !on_scrollbar(m, area)
    &&& content_row(m.row, area) == line
    &&& 0 <= line < area.height - 2
}

/// A click on any line of an item on the screen hits that item.
pub proof fn a_line_of_an_item_hits_it(m: MouseEvent, area: Rect, layout: ListLayout, k: int, j: int)
    requires
        clicks(m, area, layout.header_rows + layout.item_rows * k + j),
        content_row(m.row, area) < area.height - 2 - layout.footer_rows,
        0 <= k < layout.visible_items,
        0 <= j < layout.item_rows,
        layout.scroll_start + k < layout.item_count,
    ensures
        hit(m, area, layout) == Some(layout.scroll_start + k),
        row_item(m.row, area, layout) == Some(layout.scroll_start + k),
{
    let n = layout.item_rows as int;
    assert(n * k >= 0 && (n * k + j) / n == k) by {
        vstd::arithmetic::mul::lemma_mul_is_commutative(n, k);
        vstd::arithmetic::mul::lemma_mul_nonnegative(n, k);
        vstd::arithmetic::div_mod::lemma_fundamental_div_mod_converse(n * k + j, n, k, j);
    }
}

// ── Buttons in a row ───────────────────────────────────────────────────────

/// The column that a button begins in, where the labels have some lengths.
pub open spec fn btn_start(x: u16, lens: Seq<int>, i: int) -> int
    decreases i,
{
    if i <= 0 {
        x as int
    } else {
        sat(btn_start(x, lens, i - 1), (lens[i - 1] + 4) % 65536 + 2)
    }
}

/// The column lies in a button.
pub open spec fn in_button(x: u16, lens: Seq<int>, i: int, column: u16) -> bool {
    btn_start(x, lens, i) <= column < btn_start(x, lens, i) + (lens[i] + 4) % 65536
}

/// The first button of a row, at or behind one, that a column lies in.
pub open spec fn button_from(x: u16, lens: Seq<int>, column: u16, i: int) -> Option<int>
    decreases lens.len() - i,
{
    if i < 0 || i >= lens.len() {
        None
    } else if in_button(x, lens, i, column) {
        Some(i)
    } else {
        button_from(x, lens, column, i + 1)
    }
}

/// The button of a row that a column lies in.
pub fn find_button(area_x: u16, lens: &Vec<usize>, column: u16) -> (r: Option<usize>)
    requires
        forall|i: int| 0 <= i < lens@.len() ==> lens@[i] < usize::MAX - 4,
    ensures
        ({
            let ls = lens@.map_values(|n: usize| n as int);
            match r {
                Some(i) => button_from(area_x, ls, column, 0) == Some(i as int),
                None => button_from(area_x, ls, column, 0) is None,
            }
        }),
{
    let ghost ls = lens@.map_values(|n: usize| n as int);
    let mut x: u16 = area_x;
    let mut i: usize = 0;
    while i < lens.len()
        invariant
            i <= lens@.len(),
            ls == lens@.map_values(|n: usize| n as int),
            forall|i: int| 0 <= i < lens@.len() ==> lens@[i] < usize::MAX - 4,
            x == btn_start(area_x, ls, i as int),
            button_from(area_x, ls, column, 0) == button_from(area_x, ls, column, i as int),
        decreases lens.len() - i,
    {
        assert(ls[i as int] == lens@[i as int]);
        let w: u16 = ((lens[i] + 4) % 65536) as u16;
        if column >= x && (column as u32) < x as u32 + w as u32 {
            return Some(i);
        }
        let next: u32 = x as u32 + w as u32 + 2;
        x = if next > 65535 {
            65535
        } else {
            next as u16
        };
        i = i + 1;
    }
    None
}

} // verus!
