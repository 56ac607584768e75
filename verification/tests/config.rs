//! The settings, and the modes of permission.

use peri_kit::event::{Event, EventResult, KeyCode, KeyEvent, MouseEvent, MouseKind, Rect};
use peri_kit::notification::save_notification;
use peri_kit::panels::config::{
    row_key, ConfigEffect, ConfigPanel, Settings, ROW_COUNT, ROW_SCROLL_FPS,
    apply_cycle_row, apply_cycle_row_tui, apply_toggle_row, option, PeriConfig, ProviderConfig,
    ProviderModels, TuiConfig,
    ROW_1M_CONTEXT, ROW_PERMISSION_MODE,
    ROW_ACTIVE_ALIAS, ROW_CACHE_WARN, ROW_LANGUAGE, ROW_SHOW_DIFF, ROW_STREAMING,
};
use peri_kit::permission_mode::{cycle, parse_permission_mode, permission_mode_label, update_failed};
use peri_kit::doc::{ArgValue, Words};

#[test]
fn test_apply_toggle_row_show_diff_flips() {
    let mut cfg = TuiConfig::default();
    assert!(!cfg.diff_enabled);
    cfg.diff_enabled = !cfg.diff_enabled;
    assert!(cfg.diff_enabled);
    cfg.diff_enabled = !cfg.diff_enabled;
    assert!(!cfg.diff_enabled);
}

#[test]
fn test_apply_toggle_row_cache_warn_flips() {
    let mut cfg = PeriConfig::default();
    assert_eq!(cfg.config.show_cache_warning, None);
    let new = apply_toggle_row(&mut cfg, ROW_CACHE_WARN);
    assert_eq!(new, Some(true));
    assert_eq!(cfg.config.show_cache_warning, Some(true));
}

#[test]
fn test_apply_toggle_row_1m_context_handles_none_initial() {
    let mut cfg = PeriConfig::default();
    cfg.config.active_alias = "opus".into();
    let alias = cfg.config.active_alias.clone();
    assert_eq!(cfg.config.profiles.get(&alias).map(|p| p.context_1m), Some(false));
    let new = apply_toggle_row(&mut cfg, ROW_1M_CONTEXT);
    assert_eq!(new, Some(true));
    assert_eq!(cfg.config.profiles.get(&alias).map(|p| p.context_1m), Some(true));
    let new = apply_toggle_row(&mut cfg, ROW_1M_CONTEXT);
    assert_eq!(new, Some(false));
    assert_eq!(cfg.config.profiles.get(&alias).map(|p| p.context_1m), Some(false));
}

#[test]
fn test_apply_toggle_row_invalid_returns_none() {
    let mut cfg = PeriConfig::default();
    assert_eq!(apply_toggle_row(&mut cfg, ROW_STREAMING), None);
    assert_eq!(apply_toggle_row(&mut cfg, 99), None);
}

#[test]
fn test_apply_cycle_row_streaming_forward_wraps() {
    let mut cfg = TuiConfig { streaming_mode: Some("none".into()), ..Default::default() };
    let next = apply_cycle_row_tui(&mut cfg, ROW_STREAMING, true);
    assert_eq!(next, Some(0));
    assert_eq!(cfg.streaming_mode.as_deref(), Some("streaming"));
}

#[test]
fn test_apply_cycle_row_alias_backward() {
    let mut cfg = PeriConfig::default();
    cfg.config.active_alias = "fable".into();
    let prev = apply_cycle_row(&mut cfg, ROW_ACTIVE_ALIAS, false);
    assert_eq!(prev, Some(3));
    assert_eq!(cfg.config.active_alias, "haiku");
}

#[test]
fn test_apply_cycle_row_language_forward_from_unknown_resets() {
    let mut cfg = PeriConfig::default();
    cfg.config.language = Some("fr".into());
    let next = apply_cycle_row(&mut cfg, ROW_LANGUAGE, true);
    assert_eq!(next, Some(1));
    assert_eq!(cfg.config.language.as_deref(), Some("zh-CN"));
}

#[test]
fn test_apply_cycle_row_invalid_returns_none() {
    let mut cfg = PeriConfig::default();
    assert_eq!(apply_cycle_row(&mut cfg, ROW_SHOW_DIFF, true), None);
    assert_eq!(apply_cycle_row(&mut cfg, 99, true), None);
}

#[test]
fn test_parse_permission_mode_invalid() {
    assert!(parse_permission_mode("invalid").is_none());
    assert!(parse_permission_mode("").is_none());
}

#[test]
fn the_modes_go_round() {
    let mut seen = vec!["default"];
    loop {
        let next = cycle(seen[seen.len() - 1]);
        if next == seen[0] {
            break;
        }
        assert!(!seen.contains(&next));
        seen.push(next);
    }
    for m in &seen {
        assert_eq!(permission_mode_label(parse_permission_mode(m).unwrap()), *m);
    }
}

#[test]
fn a_mode_that_cannot_be_set_is_reported() {
    let n = update_failed("no");
    match n.message {
        Words::Message { args, .. } => {
            assert!(args.iter().any(|a| matches!(&a.value, ArgValue::Text(t) if t == "no")));
        }
        Words::Literal(_) => panic!("a message"),
    }
}

#[test]
fn test_parse_permission_mode_roundtrip() {
    for i in 0..4 {
        let opt = option(ROW_PERMISSION_MODE, i);
        let mode = parse_permission_mode(opt);
        assert!(mode.is_some());
        let label = permission_mode_label(mode.unwrap());
        assert_eq!(label, opt);
    }
}

fn settings() -> Settings {
    Settings {
        peri: Some(PeriConfig::default()),
        tui: Some(TuiConfig::default()),
        reported_mode: String::new(),
        known_mode: None,
    }
}

#[test]
fn a_row_is_switched_and_saved() {
    let mut s = settings();
    assert!(!s.read_toggle(ROW_SHOW_DIFF));
    assert!(matches!(s.activate_row(ROW_SHOW_DIFF, true), ConfigEffect::Save));
    assert!(s.read_toggle(ROW_SHOW_DIFF));
    assert!(matches!(s.activate_row(ROW_SHOW_DIFF, false), ConfigEffect::Save));
    assert!(!s.read_toggle(ROW_SHOW_DIFF));
    let first = s.read_cycle_idx(ROW_STREAMING);
    s.activate_row(ROW_STREAMING, true);
    assert_eq!(s.read_cycle_idx(ROW_STREAMING), first + 1);
    s.activate_row(ROW_STREAMING, false);
    assert_eq!(s.read_cycle_idx(ROW_STREAMING), first);
    assert!(matches!(s.activate_row(ROW_LANGUAGE, true), ConfigEffect::Language("zh-CN")));
    assert!(matches!(s.activate_row(ROW_PERMISSION_MODE, true),
        ConfigEffect::RequestMode("accept-edit")));
    assert_eq!(option(ROW_SCROLL_FPS, s.read_cycle_idx(ROW_SCROLL_FPS)), "20");
    s.activate_row(ROW_SCROLL_FPS, true);
    assert_ne!(option(ROW_SCROLL_FPS, s.read_cycle_idx(ROW_SCROLL_FPS)), "20");
    let mut none = Settings { peri: None, ..settings() };
    assert!(matches!(none.activate_row(ROW_SHOW_DIFF, true), ConfigEffect::Nothing));
}

#[test]
fn a_click_on_a_setting_is_enter_on_it() {
    assert_eq!(row_key(0), "config-field-diff");
    assert_eq!(row_key(7), "config-field-scroll-fps");
    let area = Some(Rect::new(0, 0, 80, 20));
    let mut p = ConfigPanel::default();
    let mut s = settings();
    let m = MouseEvent { kind: MouseKind::LeftDown, row: 4, column: 3 };
    let (r, e) = p.handle_event(&Event::Mouse(m), &mut s, area);
    assert_eq!(r, EventResult::Consumed);
    assert!(matches!(e, ConfigEffect::Save));
    assert_eq!(p.cursor, 1);
    assert!(s.read_toggle(ROW_CACHE_WARN));
    p.handle_event(&Event::Key(KeyEvent::plain(KeyCode::Enter)), &mut s, area);
    assert!(!s.read_toggle(ROW_CACHE_WARN));
    for _ in 0..20 {
        p.handle_event(&Event::Key(KeyEvent::plain(KeyCode::Down)), &mut s, area);
    }
    assert_eq!(p.cursor, ROW_COUNT - 1);
    let (_, e) = p.handle_event(&Event::Key(KeyEvent::plain(KeyCode::Esc)), &mut s, area);
    assert!(matches!(e, ConfigEffect::Close));
    let labels: Vec<String> = (0..ROW_COUNT).map(|i| row_key(i).to_string()).collect();
    assert_eq!(p.lines(&s, &labels).lines.len(), 2 + ROW_COUNT + 2);
}

#[test]
fn saving_is_reported() {
    assert_eq!(save_notification(None).seconds, 1);
    assert!(matches!(save_notification(None).message,
        Words::Message { key, args } if key == "config-saved" && args.is_empty()));
    let n = save_notification(Some("full"));
    assert_eq!(n.seconds, 2);
    assert!(matches!(n.message, Words::Message { key, args }
        if key == "config-save-failed" && matches!(&args[0].value, ArgValue::Text(t) if t == "full")));
}

#[test]
fn a_setting_comes_round_and_nothing_else_changes() {
    let provider = || ProviderConfig {
        id: "p".into(),
        name: Some("Provider".into()),
        models: ProviderModels {
            opus: "o".into(),
            sonnet: "s".into(),
            haiku: "h".into(),
            fable: "f".into(),
        },
    };
    let mut cfg = PeriConfig::default();
    cfg.config.providers = vec![provider()];
    cfg.config.active_alias = "sonnet".into();
    cfg.config.language = Some("en".into());
    for forward in [true, false] {
        let alias: Vec<_> =
            (0..4).map(|_| apply_cycle_row(&mut cfg, ROW_ACTIVE_ALIAS, forward)).collect();
        assert_eq!(alias.last(), Some(&Some(2)));
        assert_eq!(cfg.config.active_alias, "sonnet");
        let language: Vec<_> =
            (0..2).map(|_| apply_cycle_row(&mut cfg, ROW_LANGUAGE, forward)).collect();
        assert_eq!(language, vec![Some(1), Some(0)]);
        assert_eq!(cfg.config.language.as_deref(), Some("en"));
    }
    assert_eq!(cfg.config.providers[0].name.as_deref(), Some("Provider"));
    assert_eq!(cfg.config.providers[0].models.fable, "f");
}
