//! Going back in a session.

use peri_kit::doc::{ArgValue, Doc, Words};
use peri_kit::event::{Event, EventResult, KeyCode, KeyEvent, MouseEvent, MouseKind, Rect};
use peri_kit::json::{parse_json, Json};
use peri_kit::popups::rewind_popup::{
    build_popup_lines, preview_action, rewind_view, RewindEffect, RewindMessage, RewindPopup,
    RewindPreview, RewindView,
};
use peri_kit::rewind_action::{
    build_execute_params, build_preview_params, on_action_failed, parse_budget_response,
    RewindAction, RewindBudgetState, RewindError, RewindFileChange, RewindState, RewindStep,
};
use peri_kit::text::clip;

fn words(w: &Words) -> String {
    match w {
        Words::Literal(s) => s.clone(),
        Words::Message { key, args } => {
            let mut s = key.clone();
            for a in args {
                let v = match &a.value {
                    ArgValue::Number(n) => n.to_string(),
                    ArgValue::Text(t) => t.clone(),
                    ArgValue::Message(k) => k.clone(),
                };
                s.push_str(&format!(" {}={}", a.name, v));
            }
            s
        }
    }
}

fn text(d: &Doc) -> String {
    d.lines
        .iter()
        .map(|l| l.pieces.iter().map(|p| words(&p.words)).collect::<String>())
        .collect::<Vec<_>>()
        .join("\n")
}

fn message(id: &str, preview: &str) -> RewindMessage {
    RewindMessage { id: id.into(), role: "user".into(), preview: preview.into() }
}

fn two() -> Option<RewindPreview> {
    Some(RewindPreview {
        files: vec![],
        messages: vec![message("m1", "第一轮问题"), message("m2", "第二轮问题")],
    })
}

fn many(n: usize) -> Option<RewindPreview> {
    Some(RewindPreview {
        files: vec![],
        messages: (0..n).map(|i| message(&format!("m{i}"), &format!("p{i}"))).collect(),
    })
}

#[test]
fn test_popup_lines_candidates_view() {
    let t = text(&build_popup_lines(&two(), &RewindBudgetState::Idle, &None, 0, 0));
    assert!(t.contains("rewind-title-count count=2"));
    assert!(t.contains("第一轮问题") && t.contains("第二轮问题"));
    assert!(t.contains(">"));
}

#[test]
fn test_popup_lines_empty_candidates() {
    let t = text(&build_popup_lines(
        &Some(RewindPreview { files: vec![], messages: vec![] }),
        &RewindBudgetState::Idle,
        &None,
        0,
        0,
    ));
    assert!(t.contains("rewind-empty"));
}

#[test]
fn test_popup_lines_query_error() {
    let t = text(&build_popup_lines(
        &None,
        &RewindBudgetState::Idle,
        &Some("RPC timeout".to_string()),
        0,
        0,
    ));
    assert!(t.contains("rewind-query-failed error=RPC timeout"));
}

#[test]
fn test_popup_lines_loading() {
    let t = text(&build_popup_lines(&None, &RewindBudgetState::Idle, &None, 0, 0));
    assert!(t.contains("rewind-loading"));
}

#[test]
fn test_popup_lines_budget_view() {
    let budget = RewindBudgetState::Files(vec![
        RewindFileChange { path: "src/main.rs".into(), kind: "edit".into() },
        RewindFileChange { path: "new_file.txt".into(), kind: "write".into() },
    ]);
    let t = text(&build_popup_lines(&None, &budget, &None, 0, 0));
    assert!(t.contains("rewind-budget-title count=2"));
    assert!(t.contains("[edit] src/main.rs") && t.contains("[write] new_file.txt"));
    assert!(t.contains("rewind-budget-confirm-hint"));
}

#[test]
fn test_popup_lines_executing() {
    let t = text(&build_popup_lines(&None, &RewindBudgetState::Executing, &None, 0, 0));
    assert!(t.contains("rewind-executing"));
}

#[test]
fn long_lists_are_cut_and_say_so() {
    let t = text(&build_popup_lines(&many(11), &RewindBudgetState::Idle, &None, 2, 0));
    let expected = "\n  rewind-title-count count=11\n    p0\n    p1\n  > p2\n    p3\n    p4\n    p5\n    p6\n    p7\n    rewind-budget-more count=3\n\n  rewind-enter-hint";
    assert_eq!(t, expected);
}

#[test]
fn rewind_popup_test_test_truncate_str_short() {
    assert_eq!(clip("hello", 10), "hello");
}

#[test]
fn test_truncate_str_exact() {
    assert_eq!(clip("hello", 5), "hello");
}

#[test]
fn rewind_popup_test_test_truncate_str_long() {
    assert_eq!(clip("hello world", 5), "hello…");
}

#[test]
fn rewind_popup_test_test_truncate_str_cjk() {
    assert_eq!(clip("你好世界朋友", 4), "你好世界…");
}

#[test]
fn test_rewind_view_states_distinct() {
    assert_ne!(RewindView::Candidates, RewindView::Budget);
    assert_ne!(RewindView::Budget, RewindView::Executing);
    assert_ne!(RewindView::Executing, RewindView::Candidates);
}

#[test]
fn test_selected_candidate_enter_submits_selected_message() {
    let action = preview_action(&two(), 1).expect("an action");
    match action {
        RewindAction::Preview { target_message_id, target_text } => {
            assert_eq!(target_message_id, "m2");
            assert_eq!(target_text, "第二轮问题");
        }
        RewindAction::Confirm { .. } => panic!("not a confirmation"),
    }
}

#[test]
fn test_empty_budget_uses_confirmation_view() {
    assert_eq!(rewind_view(&RewindBudgetState::Files(vec![])), RewindView::Budget);
}

fn key(code: KeyCode) -> Event {
    Event::Key(KeyEvent::plain(code))
}

#[test]
fn the_selection_stays_on_the_screen() {
    let preview = many(11);
    let mut state = RewindState::default();
    let mut popup = RewindPopup::default();
    for _ in 0..20 {
        popup.handle_event(&key(KeyCode::Down), &mut state, &preview, None);
    }
    assert_eq!(popup.msg_sel, 7);
    popup.handle_event(&key(KeyCode::Up), &mut state, &preview, None);
    assert_eq!(popup.msg_sel, 6);
}

#[test]
fn a_click_asks_like_enter() {
    let preview = two();
    let mut state = RewindState::default();
    let mut popup = RewindPopup::default();
    let area = Some(Rect::new(0, 0, 40, 12));
    let click = Event::Mouse(MouseEvent { kind: MouseKind::LeftDown, row: 4, column: 3 });
    let (r, e) = popup.handle_event(&click, &mut state, &preview, area);
    assert_eq!(r, EventResult::Consumed);
    assert_eq!(popup.msg_sel, 1);
    assert!(matches!(
        e,
        RewindEffect::Send(RewindAction::Preview { target_message_id, .. })
            if target_message_id == "m2"
    ));
    let (r, e) = popup.handle_event(
        &Event::Mouse(MouseEvent { kind: MouseKind::LeftDown, row: 9, column: 3 }),
        &mut state,
        &preview,
        area,
    );
    assert_eq!(r, EventResult::Consumed);
    assert!(matches!(e, RewindEffect::Nothing));
    let (r, _) = popup.handle_event(
        &Event::Mouse(MouseEvent { kind: MouseKind::Moved, row: 4, column: 3 }),
        &mut state,
        &preview,
        area,
    );
    assert_eq!(r, EventResult::Ignored);
}

#[test]
fn escape_leads_back_and_out() {
    let preview = two();
    let mut popup = RewindPopup::default();
    let mut state = RewindState::default();
    state.budget = RewindBudgetState::Files(vec![]);
    state.target_text = Some("t".into());
    state.fingerprint = Some("f".into());
    let (_, e) = popup.handle_event(&key(KeyCode::Enter), &mut state, &preview, None);
    assert!(matches!(
        e,
        RewindEffect::Send(RewindAction::Confirm { target_message_id }) if target_message_id == "m1"
    ));
    popup.handle_event(&key(KeyCode::Esc), &mut state, &preview, None);
    assert!(matches!(state.budget, RewindBudgetState::Idle));
    assert!(state.target_text.is_none() && state.fingerprint.is_none());

    state.budget = RewindBudgetState::Executing;
    state.target_text = Some("t".into());
    let (r, e) = popup.handle_event(&key(KeyCode::Enter), &mut state, &preview, None);
    assert_eq!(r, EventResult::Consumed);
    assert!(matches!(e, RewindEffect::Nothing));
    popup.handle_event(&key(KeyCode::Esc), &mut state, &preview, None);
    assert_eq!(state.target_text.as_deref(), Some("t"));
    let (_, e) = popup.handle_event(&key(KeyCode::Esc), &mut state, &preview, None);
    assert!(matches!(e, RewindEffect::Close));
    assert!(state.target_text.is_none());
}

fn member<'a>(j: &'a Json, k: &str) -> &'a Json {
    j.get(k).unwrap()
}

#[test]
fn the_requests_carry_session_target_and_mark() {
    let p = build_preview_params("s", "m");
    assert_eq!(p.get_str("sessionId"), Some("s"));
    assert_eq!(p.get_str("target_message_id"), Some("m"));
    let e = build_execute_params("s", "m", "f");
    assert_eq!(e.get_str("sessionId"), Some("s"));
    assert_eq!(e.get_str("target_message_id"), Some("m"));
    assert_eq!(e.get_str("preview_fingerprint"), Some("f"));
    assert!(matches!(member(&e, "revert_files"), Json::Bool(true)));
}

fn reply(changes: &str, mark: &str) -> Json {
    parse_json(&format!("{{\"file_changes\": {changes}, \"preview_fingerprint\": {mark}}}")).unwrap()
}

fn mark() -> String {
    format!("\"{}\"", "0aF9".repeat(16))
}

#[test]
fn a_reply_is_read_in_order() {
    let p = parse_budget_response(&reply(
        "[{\"path\": \"a\", \"kind\": \"write\"}, {\"path\": \"b\"}]",
        &mark(),
    ))
    .unwrap();
    assert_eq!(p.changes.len(), 2);
    assert_eq!((p.changes[0].path.as_str(), p.changes[0].kind.as_str()), ("a", "write"));
    assert_eq!((p.changes[1].path.as_str(), p.changes[1].kind.as_str()), ("b", ""));
    assert_eq!(p.fingerprint, "0aF9".repeat(16));
    assert!(parse_budget_response(&reply("[]", &mark())).is_ok());

    let err = |c: &str, m: &str| parse_budget_response(&reply(c, m)).unwrap_err();
    assert_eq!(err("null", &mark()), RewindError::BudgetMissing);
    assert_eq!(err("[{\"kind\": \"write\"}]", "1"), RewindError::PathMissing);
    assert_eq!(err("[]", "\"abc\""), RewindError::BudgetMissing);
    assert_eq!(err("[]", &format!("\"{}\"", "g".repeat(64))), RewindError::BudgetMissing);
    assert_eq!(err("[]", "null"), RewindError::BudgetMissing);
    assert_eq!(RewindError::BudgetMissing.message_key(), "rewind-error-budget-missing");
    assert_eq!(RewindError::PathMissing.message_key(), "rewind-error-path-missing");
    assert_eq!(
        parse_budget_response(&parse_json("{}").unwrap()).unwrap_err(),
        RewindError::BudgetMissing
    );
}

#[test]
fn going_back_needs_the_mark_of_what_was_shown() {
    let mut s = RewindState::default();
    let confirm = || RewindAction::Confirm { target_message_id: "m".into() };
    let ask = || RewindAction::Preview { target_message_id: "m".into(), target_text: "t".into() };
    assert!(matches!(s.handle_action(ask(), false), RewindStep::Skip));
    assert!(s.target_text.is_none());
    assert!(matches!(
        s.handle_action(confirm(), true),
        RewindStep::Fail(RewindError::BudgetMissing)
    ));
    assert!(matches!(s.handle_action(ask(), true), RewindStep::Query(t) if t == "m"));
    assert_eq!(s.target_text.as_deref(), Some("t"));
    assert_eq!(s.handle_reply(&reply("[]", "1")), Some(RewindError::BudgetMissing));
    assert!(matches!(s.budget, RewindBudgetState::Idle));
    assert_eq!(s.handle_reply(&reply("[]", &mark())), None);
    assert!(matches!(&s.budget, RewindBudgetState::Files(f) if f.is_empty()));
    match s.handle_action(confirm(), true) {
        RewindStep::Execute { target, mark } => {
            assert_eq!(target, "m");
            assert_eq!(mark, "0aF9".repeat(16));
        }
        _ => panic!("must go back"),
    }
    assert!(matches!(s.budget, RewindBudgetState::Executing));
    on_action_failed(&mut s, "no");
    assert_eq!(s.error.as_deref(), Some("no"));
    assert!(s.target_text.is_none() && s.fingerprint.is_none());
    assert!(matches!(s.budget, RewindBudgetState::Idle));
}

#[test]
fn a_failure_has_the_screen_drawn_again() {
    let mut s = RewindState::default();
    on_action_failed(&mut s, "no");
    assert_eq!(s.heartbeat, 1);
    s.heartbeat = u64::MAX;
    on_action_failed(&mut s, "again");
    assert_eq!(s.heartbeat, 0);
    assert_eq!(s.error.as_deref(), Some("again"));
}
