//! Moving through lists: selection, cycling and the window around the selection.

use crate::event::{KeyCode, KeyEvent};
use vstd::prelude::*;

verus! {

/// What a key asks of a list.
#[derive(Debug, Clone, Copy, PartialEq, Eq, Structural)]
pub enum ListNavAction {
    MoveUp,
    MoveDown,
    CycleForward,
    CycleBackward,
    Confirm,
    Cancel,
}

/// What a key asks of a list, if anything.
pub open spec fn nav_of(code: KeyCode) -> Option<ListNavAction> {
    match code {
        KeyCode::Up => Some(ListNavAction::MoveUp),
        KeyCode::Down => Some(ListNavAction::MoveDown),
        KeyCode::Tab => Some(ListNavAction::CycleForward),
        KeyCode::BackTab => Some(ListNavAction::CycleBackward),
        KeyCode::Enter => Some(ListNavAction::Confirm),
        KeyCode::Esc => Some(ListNavAction::Cancel),
        _ => None,
    }
}

/// What a key asks of a list, if anything.
pub fn classify_list_nav(key: &KeyEvent) -> (r: Option<ListNavAction>)
    ensures
        r == nav_of(key.code),
{
    match key.code {
        KeyCode::Up => Some(ListNavAction::MoveUp),
        KeyCode::Down => Some(ListNavAction::MoveDown),
        KeyCode::Tab => Some(ListNavAction::CycleForward),
        KeyCode::BackTab => Some(ListNavAction::CycleBackward),
        KeyCode::Enter => Some(ListNavAction::Confirm),
        KeyCode::Esc => Some(ListNavAction::Cancel),
        _ => None,
    }
}

/// The selection one row up, stopping at the first row.
pub open spec fn prev_sel(s: int) -> int {
    if s > 0 {
        s - 1
    } else {
        0
    }
}

/// The selection one row down, stopping at the last of `count` rows.
pub open spec fn next_sel(s: int, count: int) -> int {
    if count == 0 {
        0
    } else if s + 1 < count {
        s + 1
    } else {
        count - 1
    }
}

/// The next of `count` places, the first behind the last.
pub open spec fn next_cyc(s: int, count: int) -> int {
    if s + 1 < count {
        s + 1
    } else {
        0
    }
}

/// The previous of `count` places, the last before the first.
pub open spec fn prev_cyc(s: int, count: int) -> int {
    if s > 0 {
        s - 1
    } else if count > 0 {
        count - 1
    } else {
        0
    }
}

/// The first row shown so that the selection is among the `visible` rows.
pub open spec fn window_start(selected: int, visible: int) -> int {
    if visible > 0 && selected >= visible {
        selected + 1 - visible
    } else {
        0
    }
}

pub fn previous_selection(s: usize) -> (r: usize)
    ensures
        r == prev_sel(s as int),
{
    if s > 0 {
        s - 1
    } else {
        0
    }
}

pub fn next_selection(s: usize, count: usize) -> (r: usize)
    ensures
        r == next_sel(s as int, count as int),
{
    if count == 0 {
        0
    } else if s < count - 1 {
        s + 1
    } else {
        count - 1
    }
}

pub fn cycle_next(s: usize, count: usize) -> (r: usize)
    ensures
        r == next_cyc(s as int, count as int),
{
    if count > 0 && s < count - 1 {
        s + 1
    } else {
        0
    }
}

pub fn cycle_previous(s: usize, count: usize) -> (r: usize)
    ensures
        r == prev_cyc(s as int, count as int),
{
    if s > 0 {
        s - 1
    } else if count > 0 {
        count - 1
    } else {
        0
    }
}

/// The first row to show of a list of which `visible` rows fit.
pub fn scroll_start_for_selected(selected: usize, visible: usize) -> (r: usize)
    ensures
        r == window_start(selected as int, visible as int),
{
    if visible > 0 && selected >= visible {
        selected - visible + 1
    } else {
        0
    }
}

/// The selected row is always among the rows shown, and the window never runs
/// past the end of a list that is longer than it.
pub proof fn selection_is_in_window(selected: int, count: int, visible: int)
    requires
        0 <= selected < count,
        visible > 0,
    ensures
        window_start(selected, visible) <= selected < window_start(selected, visible) + visible,
        count >= visible ==> window_start(selected, visible) + visible <= count,
{
}

/// Moving never leaves a list that is not empty.
pub proof fn moving_stays_in_list(s: int, count: int)
    requires
        0 <= s < count,
    ensures
        0 <= prev_sel(s) < count,
        0 <= next_sel(s, count) < count,
        0 <= next_cyc(s, count) < count,
        0 <= prev_cyc(s, count) < count,
{
}

/// Cycling forward and back are inverse to each other.
pub proof fn cycling_is_inverse(s: int, count: int)
    requires
        0 <= s < count,
    ensures
        prev_cyc(next_cyc(s, count), count) == s,
        next_cyc(prev_cyc(s, count), count) == s,
{
}

} // verus!
