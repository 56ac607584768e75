//! The popup in which the user authorises a server.

use peri_kit::doc::Back;
use peri_kit::event::{Event, EventResult, KeyCode, KeyEvent, MouseEvent, MouseKind, Rect};
use peri_kit::popups::oauth_popup::{
    browser_command, content_rows, oauth_callback_params, oauth_cancel_params, oauth_link,
    OAuthPopup, OauthEffect, OauthHint, OauthLink, OauthNeeded, Platform,
};

fn key(code: KeyCode) -> Event {
    Event::Key(KeyEvent::plain(code))
}

fn click(row: u16, column: u16) -> Event {
    Event::Mouse(MouseEvent { kind: MouseKind::LeftDown, row, column })
}

fn labels() -> Vec<String> {
    ["Open", "Copy", "Cancel"].map(String::from).to_vec()
}

fn info() -> OauthNeeded {
    OauthNeeded { server_name: "srv".into(), auth_url: "https://a".into() }
}

fn go(p: &mut OAuthPopup, event: Event) -> (EventResult, OauthEffect) {
    let i = info();
    let area = Some(Rect::new(0, 0, 60, 20));
    p.handle_event(&event, Some(&i), OauthLink::Current, area, &labels())
}

#[test]
fn the_buttons_go_round_and_enter_presses_them() {
    let mut p = OAuthPopup::default();
    assert!(matches!(go(&mut p, key(KeyCode::Enter)).1,
        OauthEffect::Open { url, seq: 1 } if url == "https://a"));
    assert_eq!(p.hint, Some(OauthHint::BrowserOpened));
    go(&mut p, key(KeyCode::Right));
    assert!(matches!(go(&mut p, key(KeyCode::Enter)).1, OauthEffect::Copy(u) if u == "https://a"));
    assert_eq!(p.copied(true), Some(2));
    assert_eq!(p.hint, Some(OauthHint::Copied));
    p.expire(1);
    assert_eq!(p.hint, Some(OauthHint::Copied));
    p.expire(2);
    assert_eq!(p.hint, None);
    assert_eq!(p.copied(false), None);
    go(&mut p, key(KeyCode::Right));
    assert!(matches!(go(&mut p, key(KeyCode::Enter)).1, OauthEffect::Cancel(s) if s == "srv"));
    go(&mut p, key(KeyCode::Right));
    assert_eq!(p.btn_idx, 0);
    go(&mut p, key(KeyCode::Left));
    assert_eq!(p.btn_idx, 2);
    go(&mut p, key(KeyCode::Tab));
    go(&mut p, key(KeyCode::Tab));
    assert_eq!(p.btn_idx, 0);
}

#[test]
fn a_code_is_typed_and_sent() {
    let mut p = OAuthPopup::default();
    go(&mut p, key(KeyCode::Tab));
    assert!(matches!(go(&mut p, key(KeyCode::Enter)).1, OauthEffect::Close));
    for c in ['a', 'b', 'c'] {
        go(&mut p, key(KeyCode::Char(c)));
    }
    go(&mut p, key(KeyCode::Backspace));
    assert_eq!(p.code, "ab");
    assert!(matches!(go(&mut p, key(KeyCode::Enter)).1,
        OauthEffect::Submit { server, code } if server == "srv" && code == "ab"));
}

#[test]
fn escape_cancels_the_authorisation() {
    let mut p = OAuthPopup::default();
    assert!(matches!(go(&mut p, key(KeyCode::Esc)).1, OauthEffect::Cancel(s) if s == "srv"));
    let (_, e) = p.handle_event(&key(KeyCode::Esc), None, OauthLink::Current, None, &labels());
    assert!(matches!(e, OauthEffect::Close));
}

#[test]
fn rows_are_clicked_where_they_are_shown() {
    assert_eq!(content_rows("https://a"), (7, 9));
    assert_eq!(content_rows(&"x".repeat(104)), (8, 10));
    let mut p = OAuthPopup::default();
    assert!(matches!(go(&mut p, click(8, 0)).1, OauthEffect::Open { .. }));
    assert!(matches!(go(&mut p, click(8, 10)).1, OauthEffect::Copy(_)));
    assert!(matches!(go(&mut p, click(8, 20)).1, OauthEffect::Cancel(_)));
    assert!(matches!(go(&mut p, click(8, 8)), (EventResult::Consumed, OauthEffect::Nothing)));
    assert!(p.btn_focus);
    go(&mut p, click(10, 5));
    assert!(!p.btn_focus);
}

#[test]
fn only_the_session_of_the_request_is_told() {
    assert_eq!(oauth_link(None, Some("s")), OauthLink::Missing);
    assert_eq!(oauth_link(Some(Some("t")), Some("s")), OauthLink::Stale);
    assert_eq!(oauth_link(Some(None), Some("s")), OauthLink::Stale);
    assert_eq!(oauth_link(Some(Some("s")), Some("s")), OauthLink::Current);
    let i = info();
    let mut p = OAuthPopup { btn_focus: false, code: "c".into(), ..Default::default() };
    let (_, e) =
        p.handle_event(&key(KeyCode::Enter), Some(&i), OauthLink::Stale, None, &labels());
    assert!(matches!(e, OauthEffect::Nothing));
    let (_, e) =
        p.handle_event(&key(KeyCode::Enter), Some(&i), OauthLink::Missing, None, &labels());
    assert!(matches!(e, OauthEffect::Close));
}

#[test]
fn requests_and_commands_carry_what_is_asked() {
    let c = oauth_cancel_params("srv", Some("s"));
    assert_eq!((c.get_str("server_name"), c.get_str("sessionId")), (Some("srv"), Some("s")));
    let c = oauth_callback_params("srv", Some("s"), "code");
    assert_eq!((c.get_str("code"), c.get_str("state")), (Some("code"), Some("")));
    assert_eq!(browser_command(Platform::MacOs, "u").program, "open");
    assert_eq!(browser_command(Platform::Other, "u").args, vec!["u"]);
}

#[test]
fn the_focused_row_is_marked_whole() {
    let mut p = OAuthPopup::default();
    let i = info();
    let (buttons, code) = content_rows("https://a");
    for focus in [true, false] {
        p.btn_focus = focus;
        let d = p.lines(Some(&i));
        let marked = |row: u128| {
            d.lines[row as usize].pieces.iter().all(|p| p.style.back == Back::Selection)
        };
        assert_eq!((marked(buttons), marked(code)), (focus, !focus));
    }
}
