//! The panels of the themes and of the stored threads.

use std::collections::HashMap;

use peri_kit::doc::{Doc, Words};
use peri_kit::event::{Event, EventResult, KeyCode, KeyEvent, MouseEvent, MouseKind, Rect};
use peri_kit::panels::theme::catalog::{
    classify_theme_catalog, refresh_theme_catalog_after_download, ThemeMode, ThemeSettings,
};
use peri_kit::panels::theme::download::{
    file_url, theme_files, DownloadRun, FileDownloadStatus,
};
use peri_kit::panels::theme::panel::{ThemeEffect, ThemePanel, ThemeTab};
use peri_kit::panels::thread_browser::history_preview::{text, HistoryEntry};
use peri_kit::panels::thread_browser::state::{
    keep_selection_visible, BrowserEffect, ThreadBrowserPanel, ThreadBrowserScope, ThreadList,
    ThreadSummary,
};
use peri_kit::panels::thread_browser::view::{preview_document, Preview};
use peri_kit::popup_overlay::{PopupKind, Popups};
use peri_kit::popups::download_progress::{handle_download_progress_event, DownloadProgressPopup};
use peri_kit::scroll_view::ScrollViewState;
use peri_kit::text::{path_tail, truncate_text};

#[test]
fn downloaded_catalog_replaces_snapshot_and_reclassifies() {
    let mut catalog = vec!["stale-dark".to_string()];
    refresh_theme_catalog_after_download(&mut catalog, 1, || {
        vec!["downloaded-dark".to_string(), "downloaded-light".to_string()]
    });
    assert_eq!(catalog, vec!["downloaded-dark", "downloaded-light"]);
    let modes = HashMap::from([
        ("downloaded-dark", ThemeMode::Dark),
        ("downloaded-light", ThemeMode::Light),
    ]);
    let (dark, light) = classify_theme_catalog(&catalog, |name| modes.get(name).copied());
    assert_eq!(dark, vec!["downloaded-dark"]);
    assert_eq!(light, vec!["downloaded-light"]);
}

#[test]
fn failed_download_does_not_rescan_or_replace_catalog() {
    let mut catalog = vec!["existing-theme".to_string()];
    let mut scan_called = false;
    refresh_theme_catalog_after_download(&mut catalog, 0, || {
        scan_called = true;
        vec!["unexpected-theme".to_string()]
    });
    assert!(!scan_called);
    assert_eq!(catalog, vec!["existing-theme"]);
}

fn press_escape(run: &DownloadRun) -> EventResult {
    handle_download_progress_event(&Event::Key(KeyEvent::plain(KeyCode::Esc)), &run.progress).0
}

fn duplicate_during_listing(dismiss: bool) {
    let mut active = false;
    let mut popups = Popups::default();
    let mut run = DownloadRun::try_claim(&mut active).unwrap();
    popups.open_popup(PopupKind::Download);
    assert!(run.progress.items.is_empty() && !run.progress.finished);
    assert_eq!(popups.kind, Some(PopupKind::Download));
    assert_eq!(press_escape(&run), EventResult::Ignored);
    if dismiss {
        assert_eq!(popups.close_popup().0, Some(PopupKind::Download));
    }
    assert!(DownloadRun::try_claim(&mut active).is_none());
    run.list(theme_files("[]").unwrap());
    run.finish(Ok(()));
    assert!(run.release(&mut active).is_none());
    assert!(run.progress.finished);
    assert!(!active);
}

#[test]
fn test_theme_download_rejects_duplicate_while_listing() {
    duplicate_during_listing(false);
}

#[test]
fn test_theme_download_dismiss_does_not_release_active_owner() {
    duplicate_during_listing(true);
}

fn setup_error_reaches_finished(error: &str) {
    let mut active = false;
    let mut run = DownloadRun::try_claim(&mut active).unwrap();
    run.finish(Err(error.into()));
    assert!(run.progress.finished);
    assert_eq!(run.progress.fail_count, 1);
    assert_eq!(press_escape(&run), EventResult::Consumed);
    assert!(run.release(&mut active).is_none());
    assert_eq!(run.progress.fail_count, 1);
    assert!(!active);
}

#[test]
fn test_theme_download_missing_home_reaches_finished() {
    setup_error_reaches_finished("HOME not set");
}

#[test]
fn test_theme_download_directory_error_reaches_finished() {
    setup_error_reaches_finished("failed to create theme directory");
}

fn complete_empty_retry(active: &mut bool) -> bool {
    let Some(mut run) = DownloadRun::try_claim(active) else {
        return false;
    };
    run.list(theme_files("[]").unwrap());
    run.finish(Ok(()));
    let settled = run.release(active).is_none();
    settled
        && run.progress.finished
        && run.progress.success_count == 0
        && run.progress.fail_count == 0
}

#[test]
fn test_theme_download_empty_listing_finishes_and_releases_owner() {
    let mut active = false;
    for _ in 0..2 {
        let mut run = DownloadRun::try_claim(&mut active).unwrap();
        run.list(theme_files("[]").unwrap());
        run.finish(Ok(()));
        assert!(run.progress.finished && run.progress.items.is_empty());
        assert_eq!((run.progress.success_count, run.progress.fail_count), (0, 0));
        assert_eq!(press_escape(&run), EventResult::Consumed);
        run.release(&mut active);
    }
}

#[test]
fn test_theme_download_success_writes_original_body_and_refreshes_catalog() {
    let mut active = false;
    let mut catalog = vec!["stale-theme".to_string()];
    let mut run = DownloadRun::try_claim(&mut active).unwrap();
    run.list(theme_files(r#"[{"name":"downloaded-theme.json"},{"name":"README.md"}]"#).unwrap());
    assert_eq!(run.progress.items.len(), 1);
    let name = run.downloading(0).unwrap();
    assert_eq!(
        file_url("http://h/contents/raw/", &name),
        "http://h/contents/raw/downloaded-theme.json"
    );
    run.record(0, Ok(()));
    refresh_theme_catalog_after_download(&mut catalog, run.progress.success_count, || {
        vec!["downloaded-theme".to_string()]
    });
    run.finish(Ok(()));
    assert_eq!(catalog, vec!["downloaded-theme"]);
    assert!(run.progress.finished);
    assert_eq!((run.progress.success_count, run.progress.fail_count), (1, 0));
    assert!(matches!(run.progress.items[0].status, FileDownloadStatus::Done));
    assert_eq!(press_escape(&run), EventResult::Consumed);
    run.release(&mut active);
    assert!(complete_empty_retry(&mut active));
}

#[test]
fn test_theme_download_transport_failure_finishes_and_releases_owner() {
    let mut active = false;
    let mut run = DownloadRun::try_claim(&mut active).unwrap();
    run.finish(Err("GitHub API request failed".into()));
    assert!(run.progress.finished && run.progress.items.is_empty());
    assert_eq!((run.progress.success_count, run.progress.fail_count), (0, 1));
    assert_eq!(press_escape(&run), EventResult::Consumed);
    assert!(run.release(&mut active).is_none());
    assert!(complete_empty_retry(&mut active));
}

fn abort_before_any_file_is_listed() {
    let mut active = false;
    let mut run = DownloadRun::try_claim(&mut active).unwrap();
    assert!(run.release(&mut active).is_some());
    assert!(run.progress.finished);
    assert_eq!(run.progress.fail_count, 1);
    assert!(complete_empty_retry(&mut active));
}

#[test]
fn test_theme_download_abort_before_first_poll_releases_owner() {
    abort_before_any_file_is_listed();
}

#[test]
fn test_theme_download_abort_in_flight_releases_owner() {
    abort_before_any_file_is_listed();
}

#[test]
fn a_download_that_breaks_off_settles_every_file() {
    let mut active = false;
    let mut run = DownloadRun::try_claim(&mut active).unwrap();
    run.list(vec!["a.json".into(), "b.json".into(), "c.json".into()]);
    assert_eq!(run.downloading(0), Some("a.json".to_string()));
    run.record(0, Ok(()));
    assert_eq!(run.downloading(1), Some("b.json".to_string()));
    run.record(1, Err("404".into()));
    run.downloading(2);
    assert_eq!((run.progress.success_count, run.progress.fail_count), (1, 1));
    assert!(run.release(&mut active).is_some());
    assert!(!active);
    assert!(run.progress.finished);
    assert_eq!((run.progress.success_count, run.progress.fail_count), (1, 2));
    assert!(matches!(run.progress.items[0].status, FileDownloadStatus::Done));
    assert!(matches!(&run.progress.items[1].status, FileDownloadStatus::Failed(e) if e == "404"));
    assert!(matches!(run.progress.items[2].status, FileDownloadStatus::Failed(_)));
}

#[test]
fn the_listing_gives_the_theme_files() {
    let body = "[{\"name\": \"a.json\", \"type\": \"file\"}, {\"name\": \"README.md\", \"type\": \"file\"}, {\"name\": \"b.json\", \"type\": \"file\"}]";
    assert_eq!(theme_files(body), Some(vec!["a.json".to_string(), "b.json".to_string()]));
    assert_eq!(theme_files("{"), None);
    assert_eq!(file_url("https://raw/", "a.json"), "https://raw/a.json");
}

#[test]
fn escape_restores_the_theme() {
    let (mut p, _) = ThemePanel::open("dark-one", "dark-one");
    let names = vec!["dark-one".to_string(), "dark-two".to_string()];
    let (r, e) =
        p.handle_event(&Event::Key(KeyEvent::plain(KeyCode::Down)), &names, None, 3);
    assert_eq!(r, EventResult::Consumed);
    assert!(matches!(e, ThemeEffect::Switch(n) if n == "dark-two"));
    let (r, e) = p.handle_event(&Event::Key(KeyEvent::plain(KeyCode::Esc)), &names, None, 3);
    assert_eq!(r, EventResult::Ignored);
    assert!(matches!(e, ThemeEffect::Switch(n) if n == "dark-one"));
}

#[test]
fn a_click_on_a_theme_is_enter_on_it() {
    let (mut p, e) = ThemePanel::open("dark-one", "dark-two");
    assert!(matches!(e, ThemeEffect::Switch(n) if n == "dark-two"));
    let names = vec!["dark-one".to_string(), "dark-two".to_string()];
    p.select_current(&names, "dark-two");
    let (_, e) = p.handle_event(&Event::Key(KeyEvent::plain(KeyCode::Enter)), &names, None, 3);
    assert!(matches!(e, ThemeEffect::Apply(n) if n == "dark-two"));
    let area = Some(Rect::new(0, 0, 60, 30));
    let mut preview = Doc::new();
    for _ in 0..3 {
        preview.blank();
    }
    let shown = p.lines(&names, preview, (2, 0), "dark-two", 0, false);
    let name = |row: usize| {
        shown.lines[row - 1].pieces.iter().any(
            |p| matches!(&p.words, Words::Literal(t) if t.contains("dark-one")),
        )
    };
    assert!(!name(8) && name(9) && !name(10));
    let m = MouseEvent { kind: MouseKind::LeftDown, row: 8, column: 2 };
    let (_, e) = p.handle_event(&Event::Mouse(m), &names, area, 3);
    assert!(matches!(e, ThemeEffect::Nothing));
    let m = MouseEvent { kind: MouseKind::LeftDown, row: 9, column: 2 };
    let (r, e) = p.handle_event(&Event::Mouse(m), &names, area, 3);
    assert_eq!(r, EventResult::Consumed);
    assert!(matches!(e, ThemeEffect::Apply(n) if n == "dark-one"));
    assert_eq!(p.selected, 0);
    let (_, e) = p.handle_event(&Event::Key(KeyEvent::with_ctrl(KeyCode::Char('t'))), &names, area, 3);
    assert!(matches!(e, ThemeEffect::ToggleDaily));
    let (_, e) = p.handle_event(&Event::Key(KeyEvent::with_ctrl(KeyCode::Char('d'))), &names, area, 3);
    assert!(matches!(e, ThemeEffect::Download));
    p.handle_event(&Event::Key(KeyEvent::plain(KeyCode::Tab)), &names, area, 3);
    assert_eq!(p.tab, ThemeTab::Light);
}

#[test]
fn letters_move_among_the_themes_like_arrows() {
    let (mut p, _) = ThemePanel::open("one", "one");
    let names: Vec<String> = ["one", "two", "three"].map(String::from).to_vec();
    let mut press = |code| p.handle_event(&Event::Key(KeyEvent::plain(code)), &names, None, 3);
    let (r, e) = press(KeyCode::Char('j'));
    assert_eq!(r, EventResult::Consumed);
    assert!(matches!(e, ThemeEffect::Switch(n) if n == "two"));
    assert!(matches!(press(KeyCode::Down).1, ThemeEffect::Switch(n) if n == "three"));
    assert!(matches!(press(KeyCode::Char('k')).1, ThemeEffect::Switch(n) if n == "two"));
    assert!(matches!(press(KeyCode::Up).1, ThemeEffect::Switch(n) if n == "one"));
    assert!(matches!(press(KeyCode::Char('x')).1, ThemeEffect::Nothing));
}

#[test]
fn the_download_is_shown_until_it_ends() {
    let mut active = false;
    let mut run = DownloadRun::try_claim(&mut active).unwrap();
    run.list(vec!["a.json".into(), "b.json".into()]);
    let popup = DownloadProgressPopup {};
    let esc = Event::Key(KeyEvent::plain(KeyCode::Esc));
    assert!(!popup.handle_event(&esc, &run.progress).1);
    assert_eq!(run.downloading(0), Some("a.json".to_string()));
    run.record(0, Ok(()));
    run.downloading(1);
    run.record(1, Err("HTTP error".into()));
    assert_eq!((run.progress.success_count, run.progress.fail_count), (1, 1));
    run.finish(Ok(()));
    assert!(run.progress.finished);
    assert!(popup.handle_event(&esc, &run.progress).1);
    assert!(popup.lines(&run.progress).lines.len() >= 2);
    assert_eq!(run.downloading(9), None);
}

#[test]
fn the_daily_colour_is_switched_on_and_off() {
    let mut s = ThemeSettings { theme: None, daily_color: false, daily_color_date: None };
    s.toggle_daily_color();
    assert!(s.daily_color);
    s.toggle_daily_color();
    assert!(!s.daily_color);
    s.persist_theme("x");
    assert_eq!(s.persisted_theme_name(), "x");
}

#[test]
fn directory_suffix_keeps_workspace_name_and_unicode_width() {
    assert_eq!(path_tail("/long/仓库/feature", 12), "…库/feature");
    assert_eq!(path_tail("/a", 10), "/a");
    assert_eq!(path_tail("/a", 0), "");
}

#[test]
fn truncation_boundaries_are_display_width_safe() {
    assert_eq!(truncate_text("abcdef", 0), "");
    assert_eq!(truncate_text("abcdef", 1), "…");
    assert_eq!(truncate_text("abcdef", 2), "a…");
    assert_eq!(truncate_text("abcdef", 3), "ab…");
    assert_eq!(truncate_text("仓库名称", 1), "…");
    assert_eq!(truncate_text("仓库名称", 2), "…");
    assert_eq!(truncate_text("仓库名称", 3), "仓…");
    assert_eq!(truncate_text("仓库名称", 4), "仓…");
    assert_eq!(truncate_text("仓库名称", 5), "仓库…");
    assert_eq!(truncate_text("仓库名称", 8), "仓库名称");
    assert_eq!(truncate_text("", 1), "");
    assert_eq!(truncate_text("a", 1), "a");
    assert_eq!(truncate_text("a", 2), "a");
    assert_eq!(truncate_text("界", 2), "界");
    assert_eq!(truncate_text("界面", 3), "界…");
    assert_eq!(truncate_text("abcdef", 4), "abc…");
    assert_eq!(truncate_text("abcdef", 5), "abcd…");
    assert_eq!(truncate_text("abcdef", 6), "abcdef");
    assert_eq!(truncate_text("中文", 4), "中文");
    assert_eq!(truncate_text("中文测试", 6), "中文…");
    assert_eq!(truncate_text("中文测试", 7), "中文测…");
    assert_eq!(truncate_text("中文测试", 8), "中文测试");
    assert_eq!(truncate_text("中文测试", 9), "中文测试");
    assert_eq!(truncate_text("x", 0), "");
    assert_eq!(truncate_text("x", 2), "x");
    assert_eq!(truncate_text("xy", 2), "xy");
}

#[test]
fn selection_visibility_clamps_to_resized_viewport() {
    let mut state = ScrollViewState::with_offset(0, 10);
    keep_selection_visible(&mut state, 3, 20, 5);
    assert_eq!(state.y, 3);
    keep_selection_visible(&mut state, 19, 20, 5);
    assert_eq!(state.y, 15);
    keep_selection_visible(&mut state, 0, 0, 5);
    assert_eq!(state.y, 15);
}

fn thread(id: &str) -> ThreadSummary {
    ThreadSummary {
        id: id.into(),
        title: None,
        updated_at: None,
        cwd: "/w".into(),
        message_count: 1,
    }
}

#[test]
fn a_thread_is_deleted_only_once_confirmed() {
    let mut list = ThreadList {
        scope: ThreadBrowserScope::Workspace,
        threads: vec![thread("a"), thread("b")],
        has_more: false,
        page_count: 1,
        page_size: 50,
    };
    let mut b = ThreadBrowserPanel::default();
    b.follow(&list, 30);
    let key = |c: KeyCode| Event::Key(KeyEvent::plain(c));
    b.handle_event(&key(KeyCode::Down), &mut list, None, 30);
    let (_, e) = b.handle_event(&key(KeyCode::Enter), &mut list, None, 30);
    assert!(matches!(e, BrowserEffect::Load(id) if id == "b"));
    b.handle_event(&key(KeyCode::Char('d')), &mut list, None, 30);
    assert_eq!(b.confirm_delete.as_deref(), Some("b"));
    let (_, e) = b.handle_event(&key(KeyCode::Down), &mut list, None, 30);
    assert!(matches!(e, BrowserEffect::Nothing));
    assert_eq!(b.confirm_delete, None);
    b.handle_event(&key(KeyCode::Delete), &mut list, None, 30);
    let (_, e) = b.handle_event(&key(KeyCode::Enter), &mut list, None, 30);
    assert!(matches!(e, BrowserEffect::Delete(id) if id == "b"));
    assert_eq!(b.confirm_delete, None);
}

#[test]
fn the_selection_follows_its_thread() {
    let mut list = ThreadList {
        scope: ThreadBrowserScope::Project,
        threads: vec![thread("a"), thread("b")],
        has_more: true,
        page_count: 1,
        page_size: 2,
    };
    let key = |c: KeyCode| Event::Key(KeyEvent::plain(c));
    let mut b = ThreadBrowserPanel::default();
    b.follow(&list, 30);
    b.handle_event(&key(KeyCode::Down), &mut list, None, 30);
    assert_eq!(list.page_count, 2);
    list.threads.insert(0, thread("new"));
    b.follow(&list, 30);
    assert_eq!((b.cursor, b.selected_id.as_deref()), (2, Some("b")));
    b.handle_event(&key(KeyCode::Char('v')), &mut list, None, 30);
    assert_eq!(b.preview_id.as_deref(), Some("b"));
    b.handle_event(&key(KeyCode::Enter), &mut list, None, 30);
    assert_eq!(b.preview_id.as_deref(), Some("b"));
    b.handle_event(&key(KeyCode::Char('v')), &mut list, None, 30);
    assert_eq!(b.preview_id, None);
    b.handle_event(&key(KeyCode::Tab), &mut list, None, 30);
    assert_eq!(list.scope, ThreadBrowserScope::Workspace);
    assert!(list.threads.is_empty() && list.page_count == 1 && !list.has_more);
}

#[test]
fn a_click_on_a_thread_loads_it() {
    let mut list = ThreadList {
        scope: ThreadBrowserScope::All,
        threads: vec![thread("a"), thread("b")],
        has_more: false,
        page_count: 1,
        page_size: 50,
    };
    let mut b = ThreadBrowserPanel::default();
    b.follow(&list, 30);
    let m = MouseEvent { kind: MouseKind::LeftDown, row: 3, column: 4 };
    let area = Some(Rect::new(0, 0, 80, 30));
    let (r, e) = b.handle_event(&Event::Mouse(m), &mut list, area, 30);
    assert_eq!(r, EventResult::Consumed);
    assert!(matches!(e, BrowserEffect::Load(id) if id == "b"));
    assert_eq!(
        preview_document(&Preview::Loaded { id: "a".into(), text: "x\ny".into() }, "a").lines.len(),
        3
    );
    assert_eq!(
        preview_document(&Preview::Loaded { id: "a".into(), text: "x\ny".into() }, "b").lines.len(),
        1
    );
}

#[test]
fn a_stored_thread_is_shown_without_control_characters() {
    let t = text(&vec![HistoryEntry {
        heading: "User".into(),
        content: "a\u{1b}[1mb\tc\nd".into(),
        calls: vec!["call()".into()],
    }]);
    assert!(t.contains("a[1mb\tc\nd"));
    assert!(t.contains("User") && t.contains("call()"));
    assert!(!t.contains('\u{1b}'));
}

#[test]
fn the_row_offset_stops_where_it_counts_no_further() {
    let mut s = ScrollViewState::default();
    keep_selection_visible(&mut s, 70000, 80000, 10);
    assert_eq!(s.y, u16::MAX);
    keep_selection_visible(&mut s, 5, 80000, 10);
    assert_eq!(s.y, 5);
}
