//! The popup that is open.

use peri_kit::json::Json;
use peri_kit::panels::ask_user::types::{
    AskUser, InteractionOwner, PendingInteraction, Question,
};
use peri_kit::popup_overlay::{HitlPending, PendingHitl, PopupKind, Popups};
use peri_kit::popups::confirm_popup::{
    execute_confirm_action, ConfirmAction, ConfirmEffect, ConfirmPayload, ConfirmPopup,
    DirtyRecoveryPopup, RecoveryAnswer, RecoveryConfirmation, RecoveryDisplay, RecoveryLabels,
    RecoveryRequiredDetails, recovery_choice, recovery_width,
};
use peri_kit::doc::Words;
use peri_kit::event::{Event, EventResult, KeyCode, KeyEvent, MouseEvent, MouseKind, Rect};
use peri_kit::panel_registry::{OpenPanels, PanelKind};
use peri_kit::popups::oauth_popup::OauthNeeded;
use peri_kit::popups::rewind_popup::RewindPreview;
use peri_kit::rewind_action::RewindBudgetState;

fn owner(token: u64) -> InteractionOwner {
    InteractionOwner {
        client_instance_id: 0,
        token,
        session_id: String::new(),
        generation: 0,
        prompt_epoch: 0,
    }
}

#[test]
fn test_open_popup_sets_atom() {
    let mut p = Popups::default();
    p.open_popup(PopupKind::Hitl);
    assert_eq!(p.kind, Some(PopupKind::Hitl));
    p.close_popup();
}

#[test]
fn test_close_popup_returns_previous() {
    let mut p = Popups::default();
    p.open_popup(PopupKind::AskUser);
    let closed = p.close_popup().0;
    assert_eq!(closed, Some(PopupKind::AskUser));
    assert_eq!(p.kind, None);
}

#[test]
fn test_close_popup_when_empty_returns_none() {
    let mut p = Popups::default();
    assert_eq!(p.close_popup().0, None);
}

#[test]
fn test_is_popup_active() {
    let mut p = Popups::default();
    assert!(!p.is_popup_active());
    p.open_popup(PopupKind::Rewind);
    assert!(p.is_popup_active());
    p.close_popup();
    assert!(!p.is_popup_active());
}

fn needs_copy<T: Copy>() {}

#[test]
fn test_popup_kind_is_copy() {
    needs_copy::<PopupKind>();
}

#[test]
fn test_close_popup_clears_payload_atoms() {
    let mut p = Popups::default();
    p.hitl = Some(PendingHitl {
        owner: owner(0),
        request_id_json: "\"hitl\"".into(),
        payload: HitlPending { tool_name: "rm".to_string(), tool_input: Json::Null },
    });
    p.ask_user = Some(PendingInteraction {
        owner: owner(0),
        request_id_json: "\"ask\"".into(),
        payload: AskUser {
            questions: vec![Question {
                id: "q1".to_string(),
                header: "h".to_string(),
                question: "q".to_string(),
                options: vec![],
                multi_select: false,
            }],
        },
    });
    p.rewind_preview = Some(RewindPreview { files: vec![], messages: vec![] });
    p.oauth = Some(OauthNeeded {
        server_name: "test".to_string(),
        auth_url: "https://example.com".to_string(),
    });

    p.open_popup(PopupKind::Hitl);
    p.close_popup();
    assert!(p.hitl.is_none());

    p.open_popup(PopupKind::AskUser);
    p.close_popup();
    assert!(p.ask_user.is_none());

    p.open_popup(PopupKind::Rewind);
    p.rewind.target_text = Some("t".to_string());
    p.rewind.budget = RewindBudgetState::Executing;
    p.rewind.error = Some("e".to_string());
    p.close_popup();
    assert!(p.rewind_preview.is_some());
    assert!(
        p.rewind.target_text.is_none()
            && matches!(p.rewind.budget, RewindBudgetState::Idle)
            && p.rewind.error.is_none()
    );

    p.open_popup(PopupKind::OAuth);
    p.close_popup();
    assert!(p.oauth.is_none());
}

#[test]
fn a_popup_ends_with_its_own_owner() {
    let mut p = Popups::default();
    p.ask_user = Some(PendingInteraction {
        owner: owner(2),
        request_id_json: "r".into(),
        payload: AskUser { questions: vec![] },
    });
    p.open_popup(PopupKind::AskUser);
    p.close_ask_user_popup_for_owner(&owner(1));
    assert_eq!(p.kind, Some(PopupKind::AskUser));
    assert!(p.ask_user.is_some());
    p.close_ask_user_popup_for_owner(&owner(2));
    assert_eq!(p.kind, None);
    assert!(p.ask_user.is_none());
}

// ── Confirming ──

#[test]
fn test_confirm_reject_a_preserves_active_b_panel() {
    let mut pending = Some(PendingInteraction {
        owner: owner(0),
        request_id_json: "B".into(),
        payload: AskUser { questions: vec![] },
    });
    let mut panels = OpenPanels::default();
    panels.open_panel(PanelKind::AskUser);
    let sent = execute_confirm_action(
        ConfirmAction::RejectAskUser { owner: owner(1), request_id_json: "A".into() },
        &mut pending,
        &mut panels,
    );
    assert!(matches!(sent, ConfirmEffect::Reject { request_id, .. } if request_id == "A"));
    assert_eq!(pending.as_ref().unwrap().request_id_json, "B");
    assert_eq!(panels.active(), Some(PanelKind::AskUser));
}

fn target() -> RecoveryRequiredDetails {
    RecoveryRequiredDetails { thread_id: "thread-a".to_string(), generation: 3 }
}

fn confirmation(displayed: bool) -> RecoveryConfirmation {
    let mut r = RecoveryConfirmation::new(5, target());
    r.displayed = displayed;
    r
}

#[test]
fn test_dirty_recovery_generic_confirm_path_cannot_accept_risk() {
    let mut panels = OpenPanels::default();
    let e = execute_confirm_action(
        ConfirmAction::RecoverDirty(confirmation(true)),
        &mut None,
        &mut panels,
    );
    assert!(matches!(e, ConfirmEffect::Tell(a) if !a.accepted && a.ticket == 5));
}

#[test]
fn test_dirty_recovery_accept_requires_displayed_confirmation() {
    let mut hidden = confirmation(false);
    let mut tracker = RecoveryDisplay { width: 60, height: 11, area: None };
    let a = tracker.record_area(&mut hidden, Rect::new(0, 0, 20, 4));
    assert!(tracker.area.is_none());
    assert_eq!(a, Some(RecoveryAnswer { ticket: 5, accepted: false }));
    assert_eq!(hidden.answer(true), None);

    let mut visible = confirmation(false);
    let mut tracker = RecoveryDisplay { width: 60, height: 11, area: None };
    assert_eq!(tracker.record_area(&mut visible, Rect::new(4, 2, 60, 11)), None);
    assert_eq!(tracker.area, Some(Rect::new(4, 2, 60, 11)));
    assert_eq!(visible.answer(true), Some(RecoveryAnswer { ticket: 5, accepted: true }));
    assert_eq!(visible.answer(true), None);
}

fn key(code: KeyCode) -> Event {
    Event::Key(KeyEvent::plain(code))
}

#[test]
fn test_dirty_recovery_default_selection_is_cancel() {
    let mut selected = false;
    assert_eq!(recovery_choice(&key(KeyCode::Enter), &mut selected, None), Some(false));
    assert_eq!(recovery_choice(&key(KeyCode::Esc), &mut selected, None), Some(false));
    assert_eq!(recovery_choice(&key(KeyCode::Down), &mut selected, None), None);
    assert!(selected);
    assert_eq!(recovery_choice(&key(KeyCode::Enter), &mut selected, None), Some(true));
    assert_eq!(recovery_choice(&key(KeyCode::Char('y')), &mut selected, None), None);
    assert_eq!(
        recovery_choice(
            &Event::Key(KeyEvent::with_ctrl(KeyCode::Char('c'))),
            &mut selected,
            None
        ),
        None
    );
}

fn click(row: u16) -> Event {
    Event::Mouse(MouseEvent { kind: MouseKind::LeftDown, column: 10, row })
}

#[test]
fn test_dirty_recovery_mouse_requires_recorded_area_rows() {
    let area = Some(Rect::new(4, 2, 60, 11));
    let mut selected = false;
    assert_eq!(recovery_choice(&click(10), &mut selected, area), Some(false));
    assert_eq!(recovery_choice(&click(11), &mut selected, area), Some(true));
    assert_eq!(recovery_choice(&click(6), &mut selected, area), None);
    assert_eq!(recovery_choice(&click(11), &mut selected, None), None);
    assert_eq!(recovery_choice(&click(0), &mut selected, area), None);
}

fn words(w: &Words) -> String {
    match w {
        Words::Literal(s) => s.clone(),
        Words::Message { key, .. } => key.clone(),
    }
}

#[test]
fn test_dirty_recovery_fails_closed_when_popup_is_unavailable() {
    let mut p = Popups::default();
    p.kind = Some(PopupKind::Hitl);
    p.confirm = Some(ConfirmPayload {
        title: Words::Literal("existing".into()),
        message: Words::Literal("existing".into()),
        details: vec![],
        pending_action: ConfirmAction::ThreadSwitch("other".into()),
    });
    assert!(!p.confirm_dirty_recovery(1, &target()));
    assert_eq!(p.kind, Some(PopupKind::Hitl));
    assert_eq!(words(&p.confirm.as_ref().unwrap().title), "existing");
}

#[test]
fn test_dirty_recovery_revoked_before_first_frame_answers_cancel() {
    let mut p = Popups::default();
    assert!(p.confirm_dirty_recovery(9, &target()));
    let before = p.kind;
    let a = p.open_popup(PopupKind::OAuth);
    assert_eq!(p.kind, Some(PopupKind::OAuth));
    assert_eq!(before, Some(PopupKind::Confirm));
    assert!(p.confirm.is_none());
    assert_eq!(a, Some(RecoveryAnswer { ticket: 9, accepted: false }));
    p.close_popup();
    assert_eq!(p.kind, None);
    assert!(p.confirm.is_none());
}

#[test]
fn test_dirty_recovery_dropped_waiter_cancels_and_clears_popup() {
    let mut p = Popups::default();
    assert!(p.confirm_dirty_recovery(9, &target()));
    assert_eq!(p.kind, Some(PopupKind::Confirm));
    p.withdraw_recovery(8);
    assert_eq!(p.kind, Some(PopupKind::Confirm));
    p.withdraw_recovery(9);
    assert_eq!(p.kind, None);
    assert!(p.confirm.is_none());
}

#[test]
fn the_question_names_what_is_at_risk() {
    let mut p = Popups::default();
    p.confirm_dirty_recovery(1, &target());
    let c = p.confirm.as_ref().unwrap();
    assert_eq!(words(&c.title), "dirty-recovery-title");
    assert_eq!(words(&c.message), "dirty-recovery-risk");
    assert_eq!(words(&c.details[0]), "dirty-recovery-responsibility");
    assert_eq!(words(&c.details[1]), "thread-a / generation 3");
}

fn labels() -> RecoveryLabels {
    RecoveryLabels {
        title: "t".into(),
        risk: "r".into(),
        unknown: "u".into(),
        responsibility: "you".into(),
        hint: "h".into(),
        cancel: "Cancel".into(),
        accept: "Accept 风险".into(),
    }
}

#[test]
fn the_question_is_as_wide_as_its_widest_line() {
    let popup = DirtyRecoveryPopup { selected: true };
    let texts = popup.texts(&labels(), &target());
    assert_eq!(
        texts,
        vec!["t", "r", "u", "you", "thread-a", "generation 3", "h", "  Cancel", "> Accept 风险"]
    );
    assert_eq!(recovery_width(&texts), 15);
    assert_eq!(recovery_width(&vec![]), 2);
}

#[test]
fn a_risk_is_accepted_by_choosing_it_on_the_screen() {
    let mut p = Popups::default();
    p.confirm_dirty_recovery(9, &target());
    let mut popup = DirtyRecoveryPopup::default();
    let mut display = RecoveryDisplay { width: 20, height: 11, area: None };
    assert_eq!(p.recovery_drawn(&mut display, Rect::new(0, 0, 40, 12)), None);
    let (r, a) = popup.handle_event(&key(KeyCode::Tab), &mut p, display.area);
    assert_eq!((r, a), (EventResult::Consumed, None));
    let (_, a) = popup.handle_event(&key(KeyCode::Enter), &mut p, display.area);
    assert_eq!(a, Some(RecoveryAnswer { ticket: 9, accepted: true }));
    assert_eq!(p.kind, None);
    assert!(p.confirm.is_none());
}

#[test]
fn a_risk_that_was_never_drawn_is_not_accepted() {
    let mut p = Popups::default();
    p.confirm_dirty_recovery(9, &target());
    let mut popup = DirtyRecoveryPopup { selected: true };
    let (_, a) = popup.handle_event(&key(KeyCode::Enter), &mut p, None);
    assert_eq!(a, Some(RecoveryAnswer { ticket: 9, accepted: false }));
}

#[test]
fn enter_and_a_click_confirm_and_escape_turns_away() {
    let area = Some(Rect::new(0, 0, 20, 10));
    for event in [key(KeyCode::Enter), click(3)] {
        let mut p = Popups::default();
        let mut panels = OpenPanels::default();
        p.confirm = Some(ConfirmPayload {
            title: Words::Literal("a".into()),
            message: Words::Literal("b".into()),
            details: vec![],
            pending_action: ConfirmAction::ThreadSwitch("other".into()),
        });
        p.open_popup(PopupKind::Confirm);
        let (r, e) = ConfirmPopup {}.handle_event(&event, &mut p, &mut panels, area);
        assert_eq!(r, EventResult::Consumed);
        assert!(matches!(e, ConfirmEffect::LoadThread(id) if id == "other"));
        assert!(p.confirm.is_none());
        assert_eq!(p.kind, None);
    }
    let mut p = Popups::default();
    let mut panels = OpenPanels::default();
    p.ask_user = Some(PendingInteraction {
        owner: owner(1),
        request_id_json: "A".into(),
        payload: AskUser { questions: vec![] },
    });
    panels.open_panel(PanelKind::AskUser);
    p.ask_reject(&owner(1), "A");
    let (_, e) =
        ConfirmPopup {}.handle_event(&key(KeyCode::Esc), &mut p, &mut panels, area);
    assert!(matches!(e, ConfirmEffect::Nothing));
    assert_eq!(p.kind, None);
    assert_eq!(panels.active(), Some(PanelKind::AskUser));
    p.ask_reject(&owner(1), "A");
    let (_, e) =
        ConfirmPopup {}.handle_event(&key(KeyCode::Enter), &mut p, &mut panels, area);
    assert!(matches!(e, ConfirmEffect::Reject { request_id, .. } if request_id == "A"));
    assert_eq!(panels.active(), None);
    assert!(p.ask_user.is_none());
    let (r, _) =
        ConfirmPopup {}.handle_event(&key(KeyCode::Char('x')), &mut p, &mut panels, area);
    assert_eq!(r, EventResult::Ignored);
}

#[test]
fn the_confirmation_shows_title_message_and_details() {
    let d = ConfirmPopup {}.lines(Some(&ConfirmPayload {
        title: Words::Literal("title".into()),
        message: Words::Literal("message".into()),
        details: vec![Words::Literal("one".into()), Words::Literal("two".into())],
        pending_action: ConfirmAction::ThreadSwitch("x".into()),
    }));
    let text: Vec<String> = d
        .lines
        .iter()
        .map(|l| l.pieces.iter().map(|p| words(&p.words)).collect::<String>())
        .collect();
    assert_eq!(
        text,
        vec!["", "  title", "", "message", "one", "two", "", "popup-confirm-action-hint"]
    );
    let d = ConfirmPopup {}.lines(None);
    assert_eq!(d.lines.len(), 4);
    assert_eq!(words(&d.lines[1].pieces[0].words), "popup-confirm-empty");
}
