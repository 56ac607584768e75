//! The wheel over the panels.

use peri_kit::event::{Event, EventResult, KeyCode, KeyEvent, MouseEvent, MouseKind, Rect};
use peri_kit::panel_registry::PanelKind;
use peri_kit::panel_scroll::{
    apply_pending_to_view, hovered_area, mouse_in_area, split_vertical, PanelScroll,
    PanelScrollSlot, PanelScrollTarget,
};
use peri_kit::scroll_view::ScrollViewState;

fn rect(x: u16, y: u16, w: u16, h: u16) -> Rect {
    Rect::new(x, y, w, h)
}

#[test]
fn test_split_vertical_percent() {
    let area = rect(10, 20, 100, 30);
    let (l, r) = split_vertical(area, 45);
    assert_eq!(l, rect(10, 20, 45, 30));
    assert_eq!(r, rect(55, 20, 55, 30));
    assert_eq!(l.width + r.width, area.width);
}

#[test]
fn test_split_vertical_clamps_pct() {
    let area = rect(0, 0, 80, 10);
    let (l, r) = split_vertical(area, 120);
    assert_eq!(l.width, 80);
    assert_eq!(r.width, 0);
}

#[test]
fn a_very_wide_area_is_split_by_its_share() {
    let (l, r) = split_vertical(rect(0, 0, 1000, 1), 100);
    assert_eq!((l.width, r.width), (1000, 0));
    let (l, r) = split_vertical(rect(0, 0, 60000, 1), 25);
    assert_eq!((l.width, r.width), (15000, 45000));
}

#[test]
fn a_turn_on_the_border_is_used_up() {
    let mut s = PanelScroll::default();
    s.register_panel_scrolls(
        PanelKind::Model,
        vec![
            PanelScrollSlot { area: rect(1, 1, 39, 18), state: view(0) },
            PanelScrollSlot { area: rect(41, 1, 38, 18), state: view(9) },
        ],
    );
    let active = Some(PanelKind::Model);
    let turn = |s: &mut PanelScroll, row, column| {
        s.handle_panel_scroll(&wheel(MouseKind::ScrollDown, row, column), false, active, 1000, 50)
    };
    assert_eq!(turn(&mut s, 5, 40), EventResult::Consumed);
    assert_eq!(turn(&mut s, 0, 5), EventResult::Ignored);
    s.register_panel_content(rect(0, 0, 80, 20));
    assert_eq!(turn(&mut s, 0, 5), EventResult::Consumed);
    assert_eq!(turn(&mut s, 20, 5), EventResult::Ignored);
    assert_eq!(rows(&s), vec![0, 9]);
    assert_eq!((s.pending_delta, s.target), (0, None));
}

#[test]
fn a_great_many_rows_end_at_the_bounds() {
    let mut scroll = ScrollViewState::with_offset(0, 9);
    apply_pending_to_view(&mut scroll, -65536);
    assert_eq!(scroll.y, 0);
    let mut scroll = view(0);
    apply_pending_to_view(&mut scroll, 65536);
    assert_eq!(scroll.y, 90);
}

#[test]
fn test_apply_pending_up_clamps_at_top() {
    let mut scroll = ScrollViewState::with_offset(0, 3);
    apply_pending_to_view(&mut scroll, -99);
    assert_eq!(scroll.y, 0);
    apply_pending_to_view(&mut scroll, -1);
    assert_eq!(scroll.y, 0);
}

#[test]
fn test_apply_pending_zero_noop() {
    let mut scroll = ScrollViewState::with_offset(0, 4);
    apply_pending_to_view(&mut scroll, 0);
    assert_eq!(scroll.y, 4);
}

#[test]
fn test_apply_pending_down_before_first_render_noop() {
    let mut scroll = ScrollViewState::default();
    apply_pending_to_view(&mut scroll, 3);
    assert_eq!(scroll.y, 0);
}

#[test]
fn test_apply_pending_up_from_bottom_sentinel() {
    let mut scroll = ScrollViewState::default();
    scroll.scroll_to_bottom();
    apply_pending_to_view(&mut scroll, -3);
    assert_eq!(scroll.y, u16::MAX - 3);
}

#[test]
fn scrolling_down_ends_at_the_last_row() {
    let mut scroll = ScrollViewState {
        x: 0,
        y: 0,
        content_height: Some(20),
        page_height: Some(8),
    };
    apply_pending_to_view(&mut scroll, 5);
    assert_eq!(scroll.y, 5);
    apply_pending_to_view(&mut scroll, 100);
    assert_eq!(scroll.y, 12);
    assert!(scroll.is_at_bottom());
}

#[test]
fn test_mouse_hit_area() {
    let area = rect(10, 20, 60, 14);
    assert!(mouse_in_area(20, 10, area));
    assert!(mouse_in_area(33, 69, area));
    assert!(!mouse_in_area(19, 10, area));
    assert!(!mouse_in_area(20, 9, area));
    assert!(!mouse_in_area(34, 70, area));
}

#[test]
fn test_hovered_slot_follows_mouse_position() {
    let areas = vec![rect(0, 10, 40, 20), rect(40, 10, 60, 20)];
    assert_eq!(hovered_area(&areas, 15, 20), Some(0));
    assert_eq!(hovered_area(&areas, 15, 70), Some(1));
    assert_eq!(hovered_area(&areas, 9, 20), None);
    assert_eq!(hovered_area(&areas, 30, 70), None);
}

#[test]
fn test_scroll_target_distinguishes_hovered_slot_and_panel() {
    let left = PanelScrollTarget { kind: PanelKind::Model, slot_index: 0 };
    let right = PanelScrollTarget { kind: PanelKind::Model, slot_index: 1 };
    let subagent = PanelScrollTarget { kind: PanelKind::SubAgentDetail, slot_index: 0 };
    assert_ne!(left, right);
    assert_ne!(left, subagent);
}

fn view(y: u16) -> ScrollViewState {
    ScrollViewState { x: 0, y, content_height: Some(100), page_height: Some(10) }
}

fn two_views() -> PanelScroll {
    let mut s = PanelScroll::default();
    s.register_panel_scrolls(
        PanelKind::Model,
        vec![
            PanelScrollSlot { area: rect(0, 0, 40, 20), state: view(0) },
            PanelScrollSlot { area: rect(40, 0, 40, 20), state: view(9) },
        ],
    );
    s
}

fn wheel(kind: MouseKind, row: u16, column: u16) -> Event {
    Event::Mouse(MouseEvent { kind, row, column })
}

fn rows(s: &PanelScroll) -> Vec<u16> {
    s.owner.as_ref().unwrap().slots.iter().map(|x| x.state.y).collect()
}

#[test]
fn a_turn_moves_three_rows_of_the_view_under_the_mouse() {
    let mut s = two_views();
    let active = Some(PanelKind::Model);
    let r = s.handle_panel_scroll(&wheel(MouseKind::ScrollDown, 3, 5), false, active, 1000, 50);
    assert_eq!(r, EventResult::Consumed);
    assert_eq!(rows(&s), vec![3, 9]);
    let r = s.handle_panel_scroll(&wheel(MouseKind::ScrollUp, 3, 45), false, active, 2000, 50);
    assert_eq!(r, EventResult::Consumed);
    assert_eq!(rows(&s), vec![3, 6]);
}

#[test]
fn turns_within_a_frame_are_gathered_up() {
    let mut s = two_views();
    let active = Some(PanelKind::Model);
    let down = wheel(MouseKind::ScrollDown, 3, 5);
    s.handle_panel_scroll(&down, false, active, 1000, 50);
    s.handle_panel_scroll(&down, false, active, 1010, 50);
    s.handle_panel_scroll(&down, false, active, 1020, 50);
    assert_eq!(rows(&s), vec![3, 9]);
    assert_eq!(s.pending_delta, 6);
    s.flush_panel_scroll_due(active, false, 1030, 50);
    assert_eq!(rows(&s), vec![3, 9]);
    s.flush_panel_scroll_due(active, true, 1060, 50);
    assert_eq!(s.pending_delta, 6);
    s.flush_panel_scroll_due(active, false, 1120, 50);
    assert_eq!(rows(&s), vec![9, 9]);
    assert_eq!(s.pending_delta, 0);
}

#[test]
fn a_turn_over_another_view_drops_what_was_gathered_up() {
    let mut s = two_views();
    let active = Some(PanelKind::Model);
    s.handle_panel_scroll(&wheel(MouseKind::ScrollDown, 3, 5), false, active, 1000, 50);
    s.handle_panel_scroll(&wheel(MouseKind::ScrollDown, 3, 5), false, active, 1010, 50);
    s.handle_panel_scroll(&wheel(MouseKind::ScrollUp, 3, 45), false, active, 1020, 50);
    assert_eq!(s.pending_delta, -3);
    s.flush_panel_scroll_due(active, false, 1100, 50);
    assert_eq!(rows(&s), vec![3, 6]);
}

#[test]
fn the_wheel_is_ignored_elsewhere() {
    let mut s = two_views();
    let down = wheel(MouseKind::ScrollDown, 3, 5);
    let active = Some(PanelKind::Model);
    assert_eq!(s.handle_panel_scroll(&down, true, active, 1000, 50), EventResult::Ignored);
    assert_eq!(s.handle_panel_scroll(&down, false, None, 1000, 50), EventResult::Ignored);
    assert_eq!(
        s.handle_panel_scroll(&down, false, Some(PanelKind::Cron), 1000, 50),
        EventResult::Ignored
    );
    assert_eq!(
        s.handle_panel_scroll(&wheel(MouseKind::ScrollDown, 30, 5), false, active, 1000, 50),
        EventResult::Ignored
    );
    assert_eq!(
        s.handle_panel_scroll(&wheel(MouseKind::Moved, 3, 5), false, active, 1000, 50),
        EventResult::Ignored
    );
    assert_eq!(
        s.handle_panel_scroll(
            &Event::Key(KeyEvent::plain(KeyCode::Down)),
            false,
            active,
            1000,
            50
        ),
        EventResult::Ignored
    );
    assert_eq!(rows(&s), vec![0, 9]);
}

#[test]
fn what_was_gathered_up_is_dropped_once_the_panel_is_gone() {
    let mut s = two_views();
    let active = Some(PanelKind::Model);
    let down = wheel(MouseKind::ScrollDown, 3, 5);
    s.handle_panel_scroll(&down, false, active, 1000, 50);
    s.handle_panel_scroll(&down, false, active, 1010, 50);
    s.flush_panel_scroll_due(Some(PanelKind::Cron), false, 1100, 50);
    assert_eq!(rows(&s), vec![3, 9]);
    assert_eq!(s.pending_delta, 0);
    s.register_panel_scroll(PanelKind::Cron, rect(0, 0, 10, 10), view(2));
    s.flush_panel_scroll_due(Some(PanelKind::Cron), false, 1200, 50);
    assert_eq!(rows(&s), vec![2]);
}
