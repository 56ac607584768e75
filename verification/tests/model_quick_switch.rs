//! The popup in which the model is changed.

use peri_kit::doc::Words;
use peri_kit::event::{Event, EventResult, KeyCode, KeyEvent, MouseEvent, MouseKind, Rect};
use peri_kit::panels::config::{PeriConfig, ProviderConfig, ProviderModels};
use peri_kit::popups::model_quick_switch::{
    active_alias, click_inside_popup, popup_rows, popup_width, position_at_anchor, profile_key,
    quick_switch_rows, row_index_at, session_quick_switch_rows, ModelQuickSwitchPopup,
    SwitchEffect, POPUP_HEIGHT, POPUP_WIDTH_MAX, POPUP_WIDTH_MIN, ROW_COUNT,
};
use peri_kit::text::truncate_str;
use unicode_width::UnicodeWidthStr;

fn make_cfg() -> PeriConfig {
    let mut cfg = PeriConfig::default();
    cfg.config.providers.push(ProviderConfig {
        id: "anthropic".to_string(),
        name: Some("Anthropic".to_string()),
        models: ProviderModels {
            opus: "sample-opus".to_string(),
            sonnet: "sample-sonnet".to_string(),
            haiku: "sample-haiku".to_string(),
            fable: String::new(),
        },
    });
    for p in cfg.config.profiles.list.iter_mut() {
        if p.alias == "opus" {
            p.model = Some("custom-opus".to_string());
        }
        if p.alias == "haiku" {
            p.effort = "high".to_string();
        }
    }
    cfg
}

#[test]
fn test_quick_switch_rows_default_profile() {
    let rows = quick_switch_rows(&make_cfg());
    assert_eq!(rows.len(), 4);
    assert_eq!(rows[0].alias, "fable");
    assert_eq!(rows[0].model, "sample-opus");
}

#[test]
fn test_quick_switch_rows_profile_model_wins() {
    let rows = quick_switch_rows(&make_cfg());
    assert_eq!(rows[1].alias, "opus");
    assert_eq!(rows[1].model, "custom-opus");
}

#[test]
fn test_session_quick_switch_rows_preserves_inactive_models() {
    let cfg = make_cfg();
    let rows = session_quick_switch_rows(Some(&cfg), "opus", "session-opus");
    assert_eq!(rows[0].model, "sample-opus");
    assert_eq!(rows[1].model, "session-opus");
    assert_eq!(rows[2].model, "sample-sonnet");
    assert_eq!(rows[3].model, "sample-haiku");
}

#[test]
fn test_session_quick_switch_rows_without_config_keeps_four_aliases() {
    let rows = session_quick_switch_rows(None, "sonnet", "session-sonnet");
    assert_eq!(rows.len(), ROW_COUNT);
    assert_eq!(rows[0].model, "fable");
    assert_eq!(rows[2].model, "session-sonnet");
    assert_eq!(rows[3].model, "haiku");
}

#[test]
fn test_session_quick_switch_rows_empty_session_model_keeps_configured_model() {
    let cfg = make_cfg();
    let rows = session_quick_switch_rows(Some(&cfg), "opus", " ");
    assert_eq!(rows[1].model, "custom-opus");
}

#[test]
fn test_quick_switch_rows_no_provider_fallback_to_alias() {
    let cfg = PeriConfig::default();
    let rows = quick_switch_rows(&cfg);
    assert_eq!(rows.len(), 4);
    for row in &rows {
        assert_eq!(row.model, row.alias);
    }
}

#[test]
fn a_provider_is_found_by_its_name() {
    let mut cfg = make_cfg();
    cfg.config.providers.push(ProviderConfig {
        id: "other".to_string(),
        name: None,
        models: ProviderModels {
            opus: String::new(),
            sonnet: "other-sonnet".to_string(),
            haiku: String::new(),
            fable: "other-fable".to_string(),
        },
    });
    for p in cfg.config.profiles.list.iter_mut() {
        p.provider = if p.alias == "haiku" { "gone".to_string() } else { "other".to_string() };
    }
    let models: Vec<String> = quick_switch_rows(&cfg).into_iter().map(|r| r.model).collect();
    assert_eq!(models, vec!["other-fable", "custom-opus", "other-sonnet", "haiku"]);
}

#[test]
fn test_row_layout_contract() {
    let keys: Vec<&str> = (0..ROW_COUNT).map(profile_key).collect();
    assert_eq!(keys, vec!["fable", "opus", "sonnet", "haiku"]);
    assert_eq!(ROW_COUNT, 4);
}

#[test]
fn model_quick_switch_test_test_truncate_str_short() {
    assert_eq!(truncate_str("hello", 10), "hello");
}

#[test]
fn model_quick_switch_test_test_truncate_str_long() {
    assert_eq!(truncate_str("hello world", 5), "hell…");
}

#[test]
fn model_quick_switch_test_test_truncate_str_cjk() {
    assert_eq!(truncate_str("你好世界朋友", 4), "你…");
    assert_eq!(truncate_str("你好世界", 5), "你好…");
}

#[test]
fn test_popup_width_fits_content() {
    let rows = quick_switch_rows(&make_cfg());
    let w = popup_width(&rows);
    assert!((POPUP_WIDTH_MIN..=POPUP_WIDTH_MAX).contains(&w));
    let max_content = rows
        .iter()
        .map(|r| format!(" {} {} {}", "❯", r.alias, r.model).as_str().width())
        .max()
        .unwrap();
    assert!(w as usize >= max_content + 4);
}

#[test]
fn the_width_follows_a_long_model() {
    let mut cfg = PeriConfig::default();
    cfg.config.profiles.list[0].model = Some("m".repeat(40));
    assert_eq!(popup_width(&quick_switch_rows(&cfg)), 53);
    cfg.config.profiles.list[0].model = Some("m".repeat(400));
    assert_eq!(popup_width(&quick_switch_rows(&cfg)), 80);
    assert_eq!(popup_width(&vec![]), 36);
}

#[test]
fn test_position_at_anchor_above() {
    let (x, y) = position_at_anchor(40, 30, 60, POPUP_HEIGHT, 120, 40);
    assert_eq!(x, 42);
    assert_eq!(y, 23);
}

#[test]
fn test_position_at_anchor_flip_below_when_no_room() {
    let (x, y) = position_at_anchor(10, 5, 60, POPUP_HEIGHT, 120, 40);
    assert_eq!(y, 7);
    assert_eq!(x, 12);
}

#[test]
fn test_position_at_anchor_clamp_right_edge() {
    let (x, _) = position_at_anchor(110, 30, 60, POPUP_HEIGHT, 120, 40);
    assert_eq!(x, 60);
}

#[test]
fn test_position_at_anchor_stays_in_screen_at_bottom() {
    let (_, y) = position_at_anchor(10, 39, 60, POPUP_HEIGHT, 120, 40);
    assert_eq!(y, 32);
    let (x, _) = position_at_anchor(119, 30, 60, POPUP_HEIGHT, 120, 40);
    assert_eq!(x, 60);
}

fn area() -> Rect {
    Rect::new(42, 20, 60, POPUP_HEIGHT)
}

#[test]
fn test_row_index_at_hits() {
    let a = area();
    assert_eq!(row_index_at(a.y + 1, a.x + 5, &a), Some(0));
    assert_eq!(row_index_at(a.y + 2, a.x + 5, &a), Some(1));
    assert_eq!(row_index_at(a.y + 3, a.x + 5, &a), Some(2));
    assert_eq!(row_index_at(a.y + 4, a.x + 5, &a), Some(3));
}

#[test]
fn test_row_index_at_misses() {
    let a = area();
    assert_eq!(row_index_at(a.y, a.x + 5, &a), None);
    assert_eq!(row_index_at(a.y + 5, a.x + 5, &a), None);
    assert_eq!(row_index_at(a.y + 3, a.x - 1, &a), None);
    assert_eq!(row_index_at(a.y + 3, a.x + a.width, &a), None);
}

#[test]
fn test_click_inside_popup() {
    let a = area();
    assert!(click_inside_popup(a.y + 1, a.x + 5, &a));
    assert!(click_inside_popup(a.y + ROW_COUNT as u16, a.x + 5, &a));
    assert!(click_inside_popup(a.y, a.x + 5, &a));
    assert!(click_inside_popup(a.y + a.height - 1, a.x + 5, &a));
    assert!(click_inside_popup(a.y + 3, a.x, &a));
    assert!(click_inside_popup(a.y + 3, a.x + a.width - 1, &a));
    assert!(!click_inside_popup(a.y - 1, a.x + 5, &a));
    assert!(!click_inside_popup(a.y + a.height, a.x + 5, &a));
    assert!(!click_inside_popup(a.y + 3, a.x - 1, &a));
    assert!(!click_inside_popup(a.y + 3, a.x + a.width, &a));
}

fn mouse(kind: MouseKind, row: u16, column: u16) -> Event {
    Event::Mouse(MouseEvent { kind, row, column })
}

#[test]
fn the_active_model_is_selected_first() {
    assert_eq!(ModelQuickSwitchPopup::open("haiku").selected, 3);
    assert_eq!(ModelQuickSwitchPopup::open("fable").selected, 0);
    assert_eq!(ModelQuickSwitchPopup::open("else").selected, 1);
}

#[test]
fn keys_and_mouse_change_the_model() {
    let a = area();
    let mut p = ModelQuickSwitchPopup::open("opus");
    p.handle_event(&Event::Key(KeyEvent::plain(KeyCode::Down)), a, false);
    assert_eq!(
        p.handle_event(&Event::Key(KeyEvent::plain(KeyCode::Enter)), a, false),
        (EventResult::Consumed, SwitchEffect::Switch(2))
    );
    p.handle_event(&mouse(MouseKind::Moved, a.y + 4, a.x + 1), a, false);
    assert_eq!(p.selected, 3);
    assert_eq!(
        p.handle_event(&mouse(MouseKind::LeftDown, a.y + 1, a.x + 1), a, false),
        (EventResult::Consumed, SwitchEffect::Switch(0))
    );
    assert_eq!(
        p.handle_event(&mouse(MouseKind::LeftDown, a.y, a.x + 1), a, false),
        (EventResult::Consumed, SwitchEffect::Nothing)
    );
    assert_eq!(
        p.handle_event(&mouse(MouseKind::LeftDown, 0, 0), a, false),
        (EventResult::Consumed, SwitchEffect::Close)
    );
    assert_eq!(
        p.handle_event(&mouse(MouseKind::LeftDown, a.y + 1, a.x + 1), a, true),
        (EventResult::Ignored, SwitchEffect::Nothing)
    );
    assert_eq!(
        p.handle_event(&Event::Key(KeyEvent::plain(KeyCode::Esc)), a, false),
        (EventResult::Consumed, SwitchEffect::Close)
    );
    assert_eq!(
        p.handle_event(&Event::Key(KeyEvent::plain(KeyCode::Tab)), a, false),
        (EventResult::Ignored, SwitchEffect::Nothing)
    );
}

#[test]
fn the_rows_show_alias_and_model() {
    let rows = quick_switch_rows(&make_cfg());
    let d = ModelQuickSwitchPopup { selected: 0 }.lines(&rows, "opus");
    let text: Vec<String> = d
        .lines
        .iter()
        .map(|l| {
            l.pieces
                .iter()
                .map(|p| match &p.words {
                    Words::Literal(s) => s.as_str(),
                    Words::Message { .. } => unreachable!(),
                })
                .collect::<String>()
        })
        .collect();
    assert_eq!(
        text,
        vec![
            " ❯ fable sample-opus",
            " ● opus custom-opus",
            " ○ sonnet sample-sonnet",
            " ○ haiku sample-haiku"
        ]
    );
}

#[test]
fn nothing_is_left_where_there_is_no_room() {
    assert_eq!(truncate_str("hello", 0), "");
    assert_eq!(truncate_str("hello", 1), "…");
    assert_eq!(truncate_str("你好", 1), "…");
    assert_eq!(truncate_str("", 0), "");
}

#[test]
fn the_lower_border_is_no_row_however_low_the_popup() {
    let a = Rect::new(10, 20, 30, 4);
    assert_eq!(row_index_at(a.y + 2, a.x + 5, &a), Some(1));
    assert_eq!(row_index_at(a.y + 3, a.x + 5, &a), None);
}

#[test]
fn a_session_decides_the_alias_and_the_rows() {
    let mut cfg = PeriConfig::default();
    cfg.config.active_alias = "haiku".into();
    let session = Some(("opus", "big"));
    assert_eq!(active_alias(Some(&cfg), session), "opus");
    assert_eq!(active_alias(Some(&cfg), None), "haiku");
    assert_eq!(active_alias(None, None), "opus");
    assert_eq!(popup_rows(None, None).len(), 0);
    assert_eq!(popup_rows(Some(&cfg), None).len(), ROW_COUNT);
    let rows = popup_rows(None, session);
    assert_eq!(rows.len(), ROW_COUNT);
    assert!(rows.iter().any(|r| r.alias == "opus" && r.model == "big"));
}
