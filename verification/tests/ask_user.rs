//! The form with the questions to the user.

use peri_kit::event::{Event, KeyCode, KeyEvent, MouseEvent, MouseKind, Rect};
use peri_kit::json::Json;
use peri_kit::panels::ask_user::form::{
    build_answers_map, reset_for_owner_change, FormOutcome, FormState,
};
use peri_kit::panel_registry::{OpenPanels, PanelKind};
use peri_kit::panels::ask_user::panel::{wrap_width, AskUserPanel, AskUserReply};
use peri_kit::panels::ask_user::types::{
    AskUser, InteractionOwner, PendingInteraction, Question, QuestionOption,
};
use peri_kit::popup_overlay::{PopupKind, Popups};
use peri_kit::popups::ask_user_popup::{AskUserPopup, PopupEffect};
use peri_kit::scroll_view::ScrollViewState;
use peri_kit::textarea::TextAreaState;
use peri_kit::wrap::{trim, wrap_text};
use serde_json::Value;

fn to_value(j: &Json) -> Value {
    match j {
        Json::Null => Value::Null,
        Json::Bool(b) => Value::Bool(*b),
        Json::Number(n) => serde_json::from_str(n).unwrap(),
        Json::Str(s) => Value::String(s.clone()),
        Json::Array(v) => Value::Array(v.iter().map(to_value).collect()),
        Json::Object(m) => {
            Value::Object(m.iter().map(|x| (x.key.clone(), to_value(&x.value))).collect())
        }
    }
}

fn value(text: &str) -> Value {
    serde_json::from_str(text).unwrap()
}

fn owner(token: u64) -> InteractionOwner {
    InteractionOwner {
        client_instance_id: 1,
        token,
        session_id: "s1".into(),
        generation: 3,
        prompt_epoch: 5,
    }
}

fn make_question(id: &str, multi_select: bool, labels: &[&str]) -> Question {
    Question {
        id: id.to_string(),
        header: id.to_string(),
        question: format!("Question {id}"),
        options: labels
            .iter()
            .map(|l| QuestionOption { label: l.to_string(), description: String::new() })
            .collect(),
        multi_select,
    }
}

fn make_ask_user(questions: Vec<Question>) -> AskUser {
    AskUser { questions }
}

#[test]
fn test_ask_user_same_question_ids_new_owner_resets_answers() {
    let request = |token: u64| PendingInteraction {
        owner: owner(token),
        request_id_json: "\"same-wire-id\"".into(),
        payload: AskUser { questions: vec![make_question("same", false, &["A", "B"])] },
    };
    let a = request(7);
    let b = request(8);

    let mut form = FormState::default();
    assert!(form.reset_for_owner_change(Some(&a)));
    form.focused = 2;
    form.answers = vec![vec![1]];
    form.focused_option = 1;
    form.is_typing = true;
    form.typing_state.insert_str("answer owned by A");
    form.custom_answers = vec![Some("A custom".into())];
    let mut scroll = ScrollViewState::with_offset(0, 9);

    assert!(!reset_for_owner_change(&mut form, Some(&a), &mut scroll));
    assert_eq!(form.typing_state.all_text(), "answer owned by A");
    assert_eq!(scroll.y, 9);
    assert!(reset_for_owner_change(&mut form, Some(&b), &mut scroll));
    assert_eq!(form.focused, 0);
    assert_eq!(form.answers, vec![Vec::<usize>::new()]);
    assert_eq!(form.focused_option, 0);
    assert!(!form.is_typing);
    assert_eq!(form.typing_state.all_text(), "");
    assert_eq!(form.typing_state.cursor, 0);
    assert_eq!(form.custom_answers, vec![None]);
    assert_eq!(scroll.y, 0);
    assert!(!reset_for_owner_change(&mut form, Some(&b), &mut scroll));
    assert_eq!(
        to_value(&build_answers_map(Some(&b.payload), &form.answers, &form.custom_answers)),
        value("{\"same\": \"\"}")
    );
    assert!(reset_for_owner_change(&mut form, None, &mut scroll));
    assert!(form.answers.is_empty());
    assert!(form.custom_answers.is_empty());
}

fn answers(au: &AskUser, answers: Vec<Vec<usize>>, custom: Vec<Option<String>>) -> Value {
    to_value(&build_answers_map(Some(au), &answers, &custom))
}

#[test]
fn test_build_answers_map_single_select_preset() {
    let au = make_ask_user(vec![make_question("q1", false, &["A", "B", "C"])]);
    assert_eq!(answers(&au, vec![vec![1]], vec![None]), value("{\"q1\": \"B\"}"));
}

#[test]
fn test_build_answers_map_multi_select_preset() {
    let au = make_ask_user(vec![make_question("q1", true, &["A", "B", "C"])]);
    assert_eq!(answers(&au, vec![vec![0, 2]], vec![None]), value("{\"q1\": [\"A\", \"C\"]}"));
}

#[test]
fn test_build_answers_map_custom_text() {
    let au = make_ask_user(vec![make_question("q1", false, &["A", "B"])]);
    assert_eq!(
        answers(&au, vec![vec![]], vec![Some("my custom answer".to_string())]),
        value("{\"q1\": \"my custom answer\"}")
    );
}

#[test]
fn test_build_answers_map_custom_overrides_preset() {
    let au = make_ask_user(vec![make_question("q1", false, &["A", "B"])]);
    assert_eq!(
        answers(&au, vec![vec![0]], vec![Some("overridden text".to_string())]),
        value("{\"q1\": \"overridden text\"}")
    );
}

#[test]
fn test_build_answers_map_empty_custom_not_override() {
    let au = make_ask_user(vec![make_question("q1", false, &["A", "B"])]);
    assert_eq!(
        answers(&au, vec![vec![1]], vec![Some(String::new())]),
        value("{\"q1\": \"\"}")
    );
}

#[test]
fn test_build_answers_map_mixed_preset_and_custom() {
    let au = make_ask_user(vec![
        make_question("q1", false, &["A", "B"]),
        make_question("q2", true, &["X", "Y", "Z"]),
        make_question("q3", false, &["P", "Q"]),
    ]);
    let custom =
        vec![Some("custom answer".to_string()), Some("extra note".to_string()), None];
    assert_eq!(
        answers(&au, vec![vec![], vec![0, 1], vec![1]], custom),
        value(
            "{\"q1\": \"custom answer\", \"q2\": [\"X\", \"Y\", \"extra note\"], \"q3\": \"Q\"}"
        )
    );
}

#[test]
fn test_build_answers_map_multi_select_empty_with_custom() {
    let au = make_ask_user(vec![make_question("q1", true, &["A", "B"])]);
    assert_eq!(
        answers(&au, vec![vec![]], vec![Some("only me".to_string())]),
        value("{\"q1\": [\"only me\"]}")
    );
}

#[test]
fn test_wrap_text_short_returns_single_line() {
    assert_eq!(wrap_text("hello", 80), vec!["hello"]);
}

#[test]
fn test_wrap_text_long_splits_at_whitespace() {
    assert_eq!(wrap_text("hello world foo bar", 12), vec!["hello world", "foo", "bar"]);
}

#[test]
fn test_wrap_text_cjk_splits_at_boundary() {
    assert_eq!(
        wrap_text("你好世界你好世界你好世界", 10),
        vec!["你好世界你", "好世界你好", "世界"]
    );
}

#[test]
fn test_wrap_text_empty_returns_single_empty() {
    assert_eq!(wrap_text("", 80), vec![""]);
}

#[test]
fn test_wrap_text_zero_width_returns_original() {
    assert_eq!(wrap_text("hello", 0), vec!["hello"]);
}

#[test]
fn test_textarea_state_insert_and_retrieve() {
    let mut state = TextAreaState::default();
    state.insert_char('h');
    state.insert_char('i');
    assert_eq!(state.text, "hi");
}

#[test]
fn test_textarea_state_backspace_clears() {
    let mut state = TextAreaState::default();
    state.insert_char('x');
    state.backspace();
    assert!(state.text.is_empty());
}

#[test]
fn test_textarea_state_replace_all_no_undo_resets() {
    let mut state = TextAreaState::default();
    state.insert_str("old text");
    state.replace_all_no_undo("new".to_string());
    assert_eq!(state.text, "new");
}

#[test]
fn test_textarea_state_delete_word_backward() {
    let mut state = TextAreaState::default();
    state.insert_str("hello");
    state.cursor = state.text.len();
    state.delete_word_backward();
    assert!(state.text.is_empty());
}

#[test]
fn undo_goes_back_and_redo_forward() {
    let mut state = TextAreaState::default();
    state.insert_char('a');
    state.insert_char('界');
    state.undo();
    assert_eq!(state.text, "a");
    state.redo();
    assert_eq!(state.text, "a界");
    state.cursor_left();
    state.delete_forward();
    assert_eq!(state.text, "a");
}

fn form_for(payload: AskUser) -> (FormState, AskUser) {
    let mut form = FormState::default();
    let request = PendingInteraction {
        owner: owner(1),
        request_id_json: "1".into(),
        payload,
    };
    form.reset_for_owner_change(Some(&request));
    (form, request.payload)
}

fn press(form: &mut FormState, payload: &AskUser, code: KeyCode) -> FormOutcome {
    form.handle_key(&KeyEvent::plain(code), Some(payload), 40)
}

fn consumed(o: FormOutcome) -> bool {
    matches!(o, FormOutcome::Consumed)
}

fn submitted(o: FormOutcome) -> Value {
    match o {
        FormOutcome::Submit(j) => to_value(&j),
        _ => panic!("not submitted"),
    }
}

#[test]
fn form_mouse_and_space_share_single_and_multi_selection_semantics() {
    for multi in [false, true] {
        let make = || make_ask_user(vec![make_question("q", multi, &["A", "B"])]);
        let (mut mouse_form, _) = form_for(make());
        let (mut key_form, payload) = form_for(make());
        for index in [0, 1, 1, 0] {
            mouse_form.toggle_option(0, index, multi);
            key_form.focused_option = index;
            assert!(consumed(press(&mut key_form, &payload, KeyCode::Char(' '))));
            assert_eq!(mouse_form.answers, key_form.answers);
        }
    }
}

#[test]
fn form_confirm_moves_to_unanswered_question_then_emits_complete_answers() {
    let (mut form, payload) = form_for(make_ask_user(vec![
        make_question("first", false, &["A", "B"]),
        make_question("optional", false, &[]),
        make_question("last", true, &["X", "Y"]),
    ]));
    press(&mut form, &payload, KeyCode::Char(' '));
    assert!(consumed(press(&mut form, &payload, KeyCode::Enter)));
    assert_eq!(form.focused, 2);
    assert_eq!(form.focused_option, 0);
    press(&mut form, &payload, KeyCode::Char(' '));
    press(&mut form, &payload, KeyCode::Down);
    press(&mut form, &payload, KeyCode::Char(' '));
    assert_eq!(
        submitted(press(&mut form, &payload, KeyCode::Enter)),
        value("{\"first\": \"A\", \"optional\": \"\", \"last\": [\"X\", \"Y\"]}")
    );
    assert_eq!(form.answers, vec![vec![0], vec![], vec![0, 1]]);
}

#[test]
fn form_custom_answer_enter_saves_trimmed_text_and_escape_only_exits_editor() {
    let (mut form, payload) = form_for(make_ask_user(vec![make_question("q", false, &["A"])]));
    assert!(consumed(press(&mut form, &payload, KeyCode::Down)));
    assert!(form.is_typing);
    for c in " 中文 ".chars() {
        press(&mut form, &payload, KeyCode::Char(c));
    }
    assert!(consumed(press(&mut form, &payload, KeyCode::Enter)));
    assert_eq!(form.custom_answers, vec![Some("中文".into())]);
    assert!(!form.is_typing);
    press(&mut form, &payload, KeyCode::Char(' '));
    assert_eq!(form.typing_state.all_text(), "中文");
    press(&mut form, &payload, KeyCode::Char('!'));
    assert!(consumed(press(&mut form, &payload, KeyCode::Esc)));
    assert_eq!(form.custom_answers, vec![Some("中文".into())]);
    assert!(matches!(press(&mut form, &payload, KeyCode::Esc), FormOutcome::RequestCancel));
    assert_eq!(
        submitted(press(&mut form, &payload, KeyCode::Enter)),
        value("{\"q\": \"中文\"}")
    );
}

#[test]
fn form_empty_edit_preserves_saved_answer_and_up_returns_to_last_preset() {
    let (mut form, payload) =
        form_for(make_ask_user(vec![make_question("q", false, &["A", "B"])]));
    form.custom_answers[0] = Some("saved".into());
    form.begin_custom_input(0);
    form.handle_key(&KeyEvent::with_ctrl(KeyCode::Char('u')), Some(&payload), 40);
    assert!(consumed(press(&mut form, &payload, KeyCode::Enter)));
    assert_eq!(form.custom_answers[0].as_deref(), Some("saved"));
    form.begin_custom_input(0);
    assert!(consumed(press(&mut form, &payload, KeyCode::Up)));
    assert!(!form.is_typing);
    assert_eq!(form.focused_option, 1);
    assert_eq!(form.custom_answers[0].as_deref(), Some("saved"));
}

#[test]
fn form_tab_restores_selected_option_and_does_not_leave_active_editor() {
    let (mut form, payload) = form_for(make_ask_user(vec![
        make_question("a", false, &["A", "B"]),
        make_question("b", false, &["X"]),
    ]));
    form.toggle_option(0, 1, false);
    assert!(consumed(press(&mut form, &payload, KeyCode::Tab)));
    assert_eq!(form.focused, 1);
    assert!(consumed(form.handle_key(
        &KeyEvent::with_shift(KeyCode::BackTab),
        Some(&payload),
        40
    )));
    assert_eq!(form.focused, 0);
    assert_eq!(form.focused_option, 1);
    form.begin_custom_input(0);
    assert!(consumed(press(&mut form, &payload, KeyCode::Tab)));
    assert_eq!(form.focused, 0);
    assert!(form.is_typing);
}

#[test]
fn form_empty_questions_and_unrelated_keys_have_explicit_decisions() {
    let (mut form, payload) = form_for(make_ask_user(vec![]));
    for code in [KeyCode::Tab, KeyCode::Char('x')] {
        let key = KeyEvent::plain(code);
        assert!(!form.accepts_key(&key, Some(&payload)));
        assert!(matches!(
            form.handle_key(&key, Some(&payload), 40),
            FormOutcome::Ignored
        ));
    }
    assert_eq!(submitted(press(&mut form, &payload, KeyCode::Enter)), value("{}"));
}

#[test]
fn test_question_option_struct_fields() {
    let opt = QuestionOption { label: "test".to_string(), description: "desc".to_string() };
    assert_eq!(opt.label, "test");
    assert_eq!(opt.description, "desc");
}

fn asked() -> PendingInteraction {
    PendingInteraction {
        owner: owner(1),
        request_id_json: "7".into(),
        payload: make_ask_user(vec![
            make_question("q1", false, &["A", "B"]),
            make_question("q2", false, &["C"]),
        ]),
    }
}

#[test]
fn the_panel_closes_once_all_is_answered() {
    let mut popups = Popups { ask_user: Some(asked()), ..Default::default() };
    let mut panels = OpenPanels::default();
    panels.open_panel(PanelKind::AskUser);
    let mut p = AskUserPanel::default();
    assert!(p.follow(popups.ask_user.as_ref()));
    assert!(!p.follow(popups.ask_user.as_ref()));
    let width = wrap_width(100);
    let mut press = |p: &mut AskUserPanel, popups: &mut Popups, panels: &mut OpenPanels, c| {
        p.handle_event(&Event::Key(KeyEvent::plain(c)), popups, panels, None, width).1
    };
    assert!(matches!(press(&mut p, &mut popups, &mut panels, KeyCode::Char(' ')),
        AskUserReply::Nothing));
    press(&mut p, &mut popups, &mut panels, KeyCode::Enter);
    assert_eq!(p.form.focused, 1);
    assert_eq!(panels.active(), Some(PanelKind::AskUser));
    press(&mut p, &mut popups, &mut panels, KeyCode::Char(' '));
    let r = press(&mut p, &mut popups, &mut panels, KeyCode::Enter);
    let AskUserReply::Answers { owner: o, request_id, answers } = r else {
        panic!("the answers are sent")
    };
    assert!(o.is(&owner(1)));
    assert_eq!(request_id, "7");
    assert_eq!(to_value(&answers), value("{\"q1\":\"A\",\"q2\":\"C\"}"));
    assert_eq!(panels.active(), None);
    assert!(popups.ask_user.is_none());
}

#[test]
fn turning_away_from_questions_is_confirmed() {
    let mut popups = Popups { ask_user: Some(asked()), ..Default::default() };
    let mut panels = OpenPanels::default();
    panels.open_panel(PanelKind::AskUser);
    let mut p = AskUserPanel::default();
    p.follow(popups.ask_user.as_ref());
    let esc = Event::Key(KeyEvent::plain(KeyCode::Esc));
    p.handle_event(&esc, &mut popups, &mut panels, None, 60);
    assert_eq!(popups.kind, Some(PopupKind::Confirm));
    assert!(popups.ask_user.is_some());
    assert_eq!(panels.active(), Some(PanelKind::AskUser));
}

#[test]
fn an_option_is_clicked_where_it_is_shown() {
    let mut popups = Popups { ask_user: Some(asked()), ..Default::default() };
    let mut panels = OpenPanels::default();
    panels.open_panel(PanelKind::AskUser);
    let mut p = AskUserPanel::default();
    p.follow(popups.ask_user.as_ref());
    let width = wrap_width(100);
    let shown = p.form.lines(popups.ask_user.as_ref(), peri_kit::doc::Doc::new(), width);
    let row = shown
        .lines
        .iter()
        .position(|l| {
            l.pieces.iter().any(|x| {
                matches!(&x.words, peri_kit::doc::Words::Literal(t) if t.trim_end().ends_with(" B"))
            })
        })
        .unwrap();
    let m = MouseEvent { kind: MouseKind::LeftDown, row: row as u16 + 1, column: 5 };
    let area = Some(Rect::new(0, 0, 100, 40));
    p.handle_event(&Event::Mouse(m), &mut popups, &mut panels, area, width);
    assert_eq!(p.form.answers[0], vec![1]);
}

#[test]
fn the_popup_asks_one_after_the_other() {
    let pending = asked();
    let mut p = AskUserPopup::default();
    p.follow(Some(&pending));
    let mut press =
        |p: &mut AskUserPopup, c| p.handle(&Event::Key(KeyEvent::plain(c)), Some(&pending)).1;
    press(&mut p, KeyCode::Char(' '));
    assert_eq!(p.answers[0], Some(0));
    press(&mut p, KeyCode::Char(' '));
    assert_eq!(p.answers[0], None);
    press(&mut p, KeyCode::Char(' '));
    press(&mut p, KeyCode::Enter);
    assert_eq!(p.focused, 1);
    press(&mut p, KeyCode::Char(' '));
    let e = press(&mut p, KeyCode::Enter);
    assert!(matches!(e, PopupEffect::Submit { request_id, .. } if request_id == "7"));
    let e = press(&mut p, KeyCode::Esc);
    assert!(matches!(e, PopupEffect::Cancel { request, .. } if request == "7"));
}

#[test]
fn another_request_starts_at_the_top() {
    let mut p = AskUserPanel::default();
    p.follow(Some(&asked()));
    p.scroll = ScrollViewState {
        x: 3,
        y: 7,
        content_height: Some(40),
        page_height: Some(10),
    };
    let mut other = asked();
    other.owner = owner(2);
    assert!(p.follow(Some(&other)));
    assert_eq!((p.scroll.x, p.scroll.y), (0, 0));
    assert_eq!((p.scroll.content_height, p.scroll.page_height), (None, None));
}

#[test]
fn a_word_stays_whole() {
    let text = "aaa bbbb ccccc dd eeee fffff gg";
    for width in 5..12 {
        let lines = wrap_text(text, width);
        for word in text.split(' ') {
            assert!(lines.iter().any(|l| l.split(' ').any(|w| w == word)));
        }
    }
    assert_eq!(wrap_text(" hello world", 5), vec!["hell", "o", "world"]);
    assert_eq!(wrap_text("  hello world", 5), vec!["hello", "world"]);
}

#[test]
fn all_that_is_blank_is_trimmed() {
    for c in '\u{0}'..=char::MAX {
        assert_eq!(trim(&c.to_string()).is_empty(), c.is_whitespace());
    }
}

#[test]
fn a_key_that_is_not_accepted_changes_nothing() {
    let (mut form, payload) = form_for(make_ask_user(vec![
        make_question("q1", false, &["A", "B"]),
        make_question("q2", false, &["C"]),
    ]));
    form.focused = usize::MAX;
    let odd = KeyEvent::plain(KeyCode::Char('x'));
    assert!(!form.accepts_key(&odd, Some(&payload)));
    assert!(matches!(form.handle_key(&odd, Some(&payload), 80), FormOutcome::Ignored));
    assert_eq!((form.focused, form.focused_option), (usize::MAX, 0));
    let enter = KeyEvent::plain(KeyCode::Enter);
    assert!(form.accepts_key(&enter, Some(&payload)));
    assert!(consumed(form.handle_key(&enter, Some(&payload), 80)));
    assert!(form.focused < 2);
}
