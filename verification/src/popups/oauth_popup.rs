//! The popup that asks the user to authorise a server.

use crate::doc::{blank, bold, fg, italic, lit, msg, msg_text, on, Back, Color, Doc, Line, Piece,
    PieceV, Style};
use crate::event::{sat, Event, EventResult, KeyCode, KeyEvent, MouseEvent, Rect};
use crate::json::{with_member, Json, JsonV, ObjectBuilder};
use crate::panel_mouse::{button_from, click, find_button, left_down};
use crate::panels::memory::EditorCommand;
use crate::text::{cat, count_chars, opt_str, same, slice_chars, text_views, to_chars};
use crate::wrap::{line_views, wrap_text, wrap_text_spec};
use vstd::prelude::*;

verus! {

/// A line of the popup.
pub type LineV = Seq<PieceV>;

/// What is asked: to authorise a server at an address.
#[derive(Debug)]
pub struct OauthNeeded {
    pub server_name: String,
    pub auth_url: String,
}

/// What is asked, abstractly.
pub struct OauthV {
    pub server: Seq<char>,
    pub url: Seq<char>,
}

impl View for OauthNeeded {
    type V = OauthV;

    open spec fn view(&self) -> OauthV {
        OauthV { server: self.server_name@, url: self.auth_url@ }
    }
}

/// What is asked, if anything is.
pub open spec fn info_view(i: Option<&OauthNeeded>) -> Option<OauthV> {
    match i {
        Some(x) => Some(x@),
        None => None,
    }
}

/// How the popup stands to the session that it was opened for: there is no client, the
/// client is in another session, or in that one.
#[derive(Debug, Clone, Copy, PartialEq, Eq, Structural)]
pub enum OauthLink {
    Missing,
    Stale,
    Current,
}

/// How the popup stands to its session: `client` is the session of the client, where
/// there is a client.
pub fn oauth_link(client: Option<Option<&str>>, session: Option<&str>) -> (r: OauthLink)
    ensures
        r == (match client {
            None => OauthLink::Missing,
            Some(c) => if opt_str(c) == opt_str(session) {
                OauthLink::Current
            } else {
                OauthLink::Stale
            },
        }),
{
    match client {
        None => OauthLink::Missing,
        Some(c) => {
            let equal = match (c, session) {
                (Some(a), Some(b)) => same(a, b),
                (None, None) => true,
                _ => false,
            };
            if equal {
                OauthLink::Current
            } else {
                OauthLink::Stale
            }
        },
    }
}

/// A short answer to what was done.
#[derive(Debug, Clone, Copy, PartialEq, Eq, Structural)]
pub enum OauthHint {
    Copied,
    BrowserOpened,
}

/// The popup: the code typed so far, whether the buttons have the focus, the button
/// selected, and the answer shown with its number.
#[derive(Debug)]
pub struct OAuthPopup {
    pub code: String,
    pub btn_focus: bool,
    pub btn_idx: usize,
    pub hint: Option<OauthHint>,
    pub hint_seq: u64,
}

/// The popup, abstractly.
pub struct PopupV {
    pub code: Seq<char>,
    pub btn_focus: bool,
    pub btn: int,
    pub hint: Option<OauthHint>,
    pub hint_seq: int,
}

impl View for OAuthPopup {
    type V = PopupV;

    open spec fn view(&self) -> PopupV {
        PopupV {
            code: self.code@,
            btn_focus: self.btn_focus,
            btn: self.btn_idx as int,
            hint: self.hint,
            hint_seq: self.hint_seq as int,
        }
    }
}

impl Default for OAuthPopup {
    fn default() -> (p: OAuthPopup)
        ensures
            p@ == (PopupV { code: ""@, btn_focus: true, btn: 0, hint: None, hint_seq: 0 }),
    {
        OAuthPopup {
            code: "".to_owned(),
            btn_focus: true,
            btn_idx: 0,
            hint: None,
            hint_seq: 0,
        }
    }
}

/// What the program around the popup has to do. The number that comes with an address to
/// open is that of the answer, which goes away after three seconds. `Cancel` and `Submit`
/// close the popup too.
#[derive(Debug)]
pub enum OauthEffect {
    Nothing,
    Close,
    Open { url: String, seq: u64 },
    Copy(String),
    Cancel(String),
    Submit { server: String, code: String },
}

/// What the program has to do, abstractly.
pub enum OauthEffectV {
    Nothing,
    Close,
    Open(Seq<char>, int),
    Copy(Seq<char>),
    Cancel(Seq<char>),
    Submit(Seq<char>, Seq<char>),
}

impl View for OauthEffect {
    type V = OauthEffectV;

    open spec fn view(&self) -> OauthEffectV {
        match *self {
            OauthEffect::Nothing => OauthEffectV::Nothing,
            OauthEffect::Close => OauthEffectV::Close,
            OauthEffect::Open { url, seq } => OauthEffectV::Open(url@, seq as int),
            OauthEffect::Copy(u) => OauthEffectV::Copy(u@),
            OauthEffect::Cancel(s) => OauthEffectV::Cancel(s@),
            OauthEffect::Submit { server, code } => OauthEffectV::Submit(server@, code@),
        }
    }
}

/// The number after a number.
pub open spec fn next_seq(n: int) -> int {
    if n < u64::MAX {
        n + 1
    } else {
        0
    }
}

/// An answer shown, with a new number.
pub open spec fn hinted(p: PopupV, h: OauthHint) -> PopupV {
    PopupV { hint: Some(h), hint_seq: next_seq(p.hint_seq), ..p }
}

/// Giving up: the server is told where the session is still that of the popup.
pub open spec fn giving_up(info: Option<OauthV>, link: OauthLink) -> OauthEffectV {
    match info {
        Some(i) => if link == OauthLink::Current {
            OauthEffectV::Cancel(i.server)
        } else {
            OauthEffectV::Close
        },
        None => OauthEffectV::Close,
    }
}

/// A button is pressed: open the address, copy it, or give up.
pub open spec fn pressed(p: PopupV, i: OauthV, link: OauthLink, btn: int) -> (
    PopupV,
    OauthEffectV,
) {
    if btn == 0 {
        (
            hinted(p, OauthHint::BrowserOpened),
            OauthEffectV::Open(i.url, next_seq(p.hint_seq)),
        )
    } else if btn == 1 {
        (p, OauthEffectV::Copy(i.url))
    } else {
        (p, giving_up(Some(i), link))
    }
}

/// Enter in the field: a code is sent where the session is still that of the popup, and
/// the popup stays where it is not. Without a code the popup closes.
pub open spec fn submitting(p: PopupV, info: Option<OauthV>, link: OauthLink) -> OauthEffectV {
    match info {
        Some(i) => if p.code.len() == 0 {
            OauthEffectV::Close
        } else {
            match link {
                OauthLink::Missing => OauthEffectV::Close,
                OauthLink::Stale => OauthEffectV::Nothing,
                OauthLink::Current => OauthEffectV::Submit(i.server, p.code),
            }
        },
        None => OauthEffectV::Close,
    }
}

/// What a key does while the buttons have the focus.
pub open spec fn button_key(p: PopupV, info: Option<OauthV>, link: OauthLink, code: KeyCode) -> (
    PopupV,
    EventResult,
    OauthEffectV,
) {
    match code {
        KeyCode::Left => (
            PopupV {
                btn: if p.btn == 0 {
                    2
                } else {
                    p.btn - 1
                },
                ..p
            },
            EventResult::Consumed,
            OauthEffectV::Nothing,
        ),
        KeyCode::Right => (
            PopupV { btn: (p.btn + 1) % 3, ..p },
            EventResult::Consumed,
            OauthEffectV::Nothing,
        ),
        KeyCode::Enter => match info {
            Some(i) => {
                let (q, e) = pressed(p, i, link, p.btn);
                (q, EventResult::Consumed, e)
            },
            None => (p, EventResult::Consumed, OauthEffectV::Nothing),
        },
        KeyCode::Esc => (p, EventResult::Consumed, giving_up(info, link)),
        _ => (p, EventResult::Ignored, OauthEffectV::Nothing),
    }
}

/// What a key does in the field.
pub open spec fn field_key(p: PopupV, info: Option<OauthV>, link: OauthLink, key: KeyEvent) -> (
    PopupV,
    EventResult,
    OauthEffectV,
) {
    match key.code {
        KeyCode::Char(c) => if key.mods.none() || key.mods.only_shift() {
            (PopupV { code: p.code.push(c), ..p }, EventResult::Consumed, OauthEffectV::Nothing)
        } else {
            (p, EventResult::Ignored, OauthEffectV::Nothing)
        },
        KeyCode::Backspace => if key.mods.none() {
            (
                PopupV {
                    code: if p.code.len() > 0 {
                        p.code.drop_last()
                    } else {
                        p.code
                    },
                    ..p
                },
                EventResult::Consumed,
                OauthEffectV::Nothing,
            )
        } else {
            (p, EventResult::Ignored, OauthEffectV::Nothing)
        },
        KeyCode::Enter => if key.mods.none() {
            (p, EventResult::Consumed, submitting(p, info, link))
        } else {
            (p, EventResult::Ignored, OauthEffectV::Nothing)
        },
        KeyCode::Esc => if key.mods.none() {
            (p, EventResult::Consumed, giving_up(info, link))
        } else {
            (p, EventResult::Ignored, OauthEffectV::Nothing)
        },
        _ => (p, EventResult::Ignored, OauthEffectV::Nothing),
    }
}

/// What a key does.
pub open spec fn key_step(p: PopupV, info: Option<OauthV>, link: OauthLink, key: KeyEvent) -> (
    PopupV,
    EventResult,
    OauthEffectV,
) {
    if key.code == KeyCode::Tab {
        (
            PopupV {
                btn_focus: !p.btn_focus,
                btn: if p.btn_focus {
                    p.btn
                } else {
                    0
                },
                ..p
            },
            EventResult::Consumed,
            OauthEffectV::Nothing,
        )
    } else if p.btn_focus {
        button_key(p, info, link, key.code)
    } else {
        field_key(p, info, link, key)
    }
}

/// The width that the address is broken to.
pub const URL_WIDTH: usize = 52;

/// The row of the buttons.
pub open spec fn btn_row(url: Seq<char>) -> int {
    6 + wrap_text_spec(url, URL_WIDTH as nat).len() as int
}

/// The row of the field.
pub open spec fn input_row(url: Seq<char>) -> int {
    8 + wrap_text_spec(url, URL_WIDTH as nat).len() as int
}

/// What a click does.
pub open spec fn click_step(
    p: PopupV,
    i: OauthV,
    link: OauthLink,
    row: u16,
    column: u16,
    area: Rect,
    labels: Seq<Seq<char>>,
) -> (PopupV, OauthEffectV) {
    let at = row - area.y - 1;
    if at == btn_row(i.url) {
        match button_from(area.x, labels.map_values(|l: Seq<char>| l.len() as int), column, 0) {
            Some(b) => pressed(p, i, link, b),
            None => (p, OauthEffectV::Nothing),
        }
    } else if at == input_row(i.url) {
        (PopupV { btn_focus: false, ..p }, OauthEffectV::Nothing)
    } else {
        (p, OauthEffectV::Nothing)
    }
}

/// What the mouse does.
pub open spec fn mouse_step(
    p: PopupV,
    info: Option<OauthV>,
    link: OauthLink,
    m: MouseEvent,
    area: Option<Rect>,
    labels: Seq<Seq<char>>,
) -> (PopupV, EventResult, OauthEffectV) {
    match click(m) {
        Some((row, column)) => if area is Some && info is Some && row >= sat(
            area->0.y as int,
            1,
        ) {
            let (q, e) = click_step(p, info->0, link, row, column, area->0, labels);
            (q, EventResult::Consumed, e)
        } else {
            (p, EventResult::Consumed, OauthEffectV::Nothing)
        },
        None => (p, EventResult::Ignored, OauthEffectV::Nothing),
    }
}

/// What an input does.
pub open spec fn oauth_step(
    p: PopupV,
    info: Option<OauthV>,
    link: OauthLink,
    event: Event,
    area: Option<Rect>,
    labels: Seq<Seq<char>>,
) -> (PopupV, EventResult, OauthEffectV) {
    match event {
        Event::Mouse(m) => mouse_step(p, info, link, m, area, labels),
        Event::Key(key) => if key.press {
            key_step(p, info, link, key)
        } else {
            (p, EventResult::Ignored, OauthEffectV::Nothing)
        },
        _ => (p, EventResult::Ignored, OauthEffectV::Nothing),
    }
}

/// The rows of the buttons and of the field.
pub fn content_rows(auth_url: &str) -> (r: (u128, u128))
    ensures
        r.0 == btn_row(auth_url@),
        r.1 == input_row(auth_url@),
{
    let lines = wrap_text(auth_url, URL_WIDTH);
    let n: u128 = lines.len() as u128;
    assert(n == line_views(lines@).len());
    (6 + n, 8 + n)
}

fn give_up(info: Option<&OauthNeeded>, link: OauthLink) -> (e: OauthEffect)
    ensures
        e@ == giving_up(info_view(info), link),
{
    match info {
        Some(i) => if link == OauthLink::Current {
            OauthEffect::Cancel(i.server_name.clone())
        } else {
            OauthEffect::Close
        },
        None => OauthEffect::Close,
    }
}

impl OAuthPopup {
    fn show_hint(&mut self, h: OauthHint) -> (seq: u64)
        ensures
            final(self)@ == hinted(old(self)@, h),
            seq == final(self)@.hint_seq,
    {
        self.hint = Some(h);
        self.hint_seq = if self.hint_seq < u64::MAX {
            self.hint_seq + 1
        } else {
            0
        };
        self.hint_seq
    }

    /// The address has been copied, or could not be. Gives the number of the answer, where
    /// one is shown.
    pub fn copied(&mut self, done: bool) -> (seq: Option<u64>)
        ensures
            done ==> final(self)@ == hinted(old(self)@, OauthHint::Copied) && seq == Some(
                final(self).hint_seq,
            ),
            !done ==> final(self)@ == old(self)@ && seq is None,
    {
        if done {
            Some(self.show_hint(OauthHint::Copied))
        } else {
            None
        }
    }

    /// The time of an answer is over: it goes, unless a later one is shown.
    pub fn expire(&mut self, seq: u64)
        ensures
            final(self)@ == (if old(self)@.hint_seq == seq {
                PopupV { hint: None, ..old(self)@ }
            } else {
                old(self)@
            }),
    {
        if self.hint_seq == seq {
            self.hint = None;
        }
    }

    fn press(&mut self, i: &OauthNeeded, link: OauthLink, btn: usize) -> (e: OauthEffect)
        ensures
            (final(self)@, e@) == pressed(old(self)@, i@, link, btn as int),
    {
        if btn == 0 {
            let seq: u64 = self.show_hint(OauthHint::BrowserOpened);
            OauthEffect::Open { url: i.auth_url.clone(), seq }
        } else if btn == 1 {
            OauthEffect::Copy(i.auth_url.clone())
        } else {
            give_up(Some(i), link)
        }
    }

    fn button_key(&mut self, info: Option<&OauthNeeded>, link: OauthLink, code: KeyCode) -> (r: (
        EventResult,
        OauthEffect,
    ))
        ensures
            (final(self)@, r.0, r.1@) == button_key(old(self)@, info_view(info), link, code),
    {
        match code {
            KeyCode::Left => {
                self.btn_idx = if self.btn_idx == 0 {
                    2
                } else {
                    self.btn_idx - 1
                };
                (EventResult::Consumed, OauthEffect::Nothing)
            },
            KeyCode::Right => {
                self.btn_idx = (self.btn_idx % 3 + 1) % 3;
                (EventResult::Consumed, OauthEffect::Nothing)
            },
            KeyCode::Enter => {
                match info {
                    Some(i) => {
                        let b: usize = self.btn_idx;
                        let e = self.press(i, link, b);
                        (EventResult::Consumed, e)
                    },
                    None => (EventResult::Consumed, OauthEffect::Nothing),
                }
            },
            KeyCode::Esc => (EventResult::Consumed, give_up(info, link)),
            _ => (EventResult::Ignored, OauthEffect::Nothing),
        }
    }

    fn submit(&self, info: Option<&OauthNeeded>, link: OauthLink) -> (e: OauthEffect)
        ensures
            e@ == submitting(self@, info_view(info), link),
    {
        match info {
            Some(i) => {
                if self.code.as_str().is_empty() {
                    return OauthEffect::Close;
                }
                match link {
                    OauthLink::Missing => OauthEffect::Close,
                    OauthLink::Stale => OauthEffect::Nothing,
                    OauthLink::Current => OauthEffect::Submit {
                        server: i.server_name.clone(),
                        code: self.code.clone(),
                    },
                }
            },
            None => OauthEffect::Close,
        }
    }

    fn erase(&mut self)
        ensures
            final(self)@ == (PopupV {
                code: if old(self)@.code.len() > 0 {
                    old(self)@.code.drop_last()
                } else {
                    old(self)@.code
                },
                ..old(self)@
            }),
    {
        let cs = to_chars(self.code.as_str());
        if cs.len() > 0 {
            self.code = slice_chars(&cs, 0, cs.len() - 1);
            assert(self.code@ =~= old(self)@.code.drop_last());
        }
    }

    fn field_key(&mut self, info: Option<&OauthNeeded>, link: OauthLink, key: &KeyEvent) -> (r: (
        EventResult,
        OauthEffect,
    ))
        ensures
            (final(self)@, r.0, r.1@) == field_key(old(self)@, info_view(info), link, *key),
    {
        let plain = key.mods.is_none();
        match key.code {
            KeyCode::Char(c) => {
                if plain || key.mods.is_only_shift() {
                    self.code.push(c);
                    (EventResult::Consumed, OauthEffect::Nothing)
                } else {
                    (EventResult::Ignored, OauthEffect::Nothing)
                }
            },
            KeyCode::Backspace => {
                if plain {
                    self.erase();
                    (EventResult::Consumed, OauthEffect::Nothing)
                } else {
                    (EventResult::Ignored, OauthEffect::Nothing)
                }
            },
            KeyCode::Enter => {
                if plain {
                    (EventResult::Consumed, self.submit(info, link))
                } else {
                    (EventResult::Ignored, OauthEffect::Nothing)
                }
            },
            KeyCode::Esc => {
                if plain {
                    (EventResult::Consumed, give_up(info, link))
                } else {
                    (EventResult::Ignored, OauthEffect::Nothing)
                }
            },
            _ => (EventResult::Ignored, OauthEffect::Nothing),
        }
    }

    fn handle_mouse(
        &mut self,
        m: &MouseEvent,
        info: Option<&OauthNeeded>,
        link: OauthLink,
        area: Option<Rect>,
        labels: &Vec<String>,
    ) -> (r: (EventResult, OauthEffect))
        requires
            forall|i: int| 0 <= i < labels@.len() ==> labels@[i]@.len() < usize::MAX - 4,
        ensures
            (final(self)@, r.0, r.1@) == mouse_step(
                old(self)@,
                info_view(info),
                link,
                *m,
                area,
                text_views(labels@),
            ),
    {
        let (row, column) = match left_down(m) {
            Some(at) => at,
            None => {
                return (EventResult::Ignored, OauthEffect::Nothing);
            },
        };
        let (area, i) = match (area, info) {
            (Some(a), Some(i)) => (a, i),
            _ => {
                return (EventResult::Consumed, OauthEffect::Nothing);
            },
        };
        if row < area.y.saturating_add(1) {
            return (EventResult::Consumed, OauthEffect::Nothing);
        }
        let (buttons, field) = content_rows(i.auth_url.as_str());
        if row <= area.y {
            return (EventResult::Consumed, OauthEffect::Nothing);
        }
        let at: u128 = (row - area.y - 1) as u128;
        if at == buttons {
            let lens = self.lens(labels);
            match find_button(area.x, &lens, column) {
                Some(b) => {
                    let e = self.press(i, link, b);
                    return (EventResult::Consumed, e);
                },
                None => {
                    return (EventResult::Consumed, OauthEffect::Nothing);
                },
            }
        }
        if at == field {
            self.btn_focus = false;
        }
        (EventResult::Consumed, OauthEffect::Nothing)
    }

    fn lens(&self, labels: &Vec<String>) -> (lens: Vec<usize>)
        requires
            forall|i: int| 0 <= i < labels@.len() ==> labels@[i]@.len() < usize::MAX - 4,
        ensures
            lens@.map_values(|n: usize| n as int) == text_views(labels@).map_values(
                |l: Seq<char>| l.len() as int,
            ),
            forall|i: int| 0 <= i < lens@.len() ==> lens@[i] < usize::MAX - 4,
    {
        let mut lens: Vec<usize> = Vec::new();
        let mut k: usize = 0;
        while k < labels.len()
            invariant
                k <= labels@.len(),
                lens@.len() == k,
                forall|i: int| 0 <= i < labels@.len() ==> labels@[i]@.len() < usize::MAX - 4,
                forall|i: int| 0 <= i < k ==> lens@[i] == labels@[i]@.len(),
            decreases labels.len() - k,
        {
            lens.push(count_chars(labels[k].as_str()));
            k = k + 1;
        }
        assert(lens@.map_values(|n: usize| n as int) =~= text_views(labels@).map_values(
            |l: Seq<char>| l.len() as int,
        ));
        lens
    }

    /// Deals with an input. The labels of the buttons are given as they read on the
    /// screen.
    pub fn handle_event(
        &mut self,
        event: &Event,
        info: Option<&OauthNeeded>,
        link: OauthLink,
        area: Option<Rect>,
        labels: &Vec<String>,
    ) -> (r: (EventResult, OauthEffect))
        requires
            forall|i: int| 0 <= i < labels@.len() ==> labels@[i]@.len() < usize::MAX - 4,
        ensures
            (final(self)@, r.0, r.1@) == oauth_step(
                old(self)@,
                info_view(info),
                link,
                *event,
                area,
                text_views(labels@),
            ),
    {
        match event {
            Event::Mouse(m) => self.handle_mouse(m, info, link, area, labels),
            Event::Key(key) => {
                if !key.press {
                    return (EventResult::Ignored, OauthEffect::Nothing);
                }
                if key.code == KeyCode::Tab {
                    self.btn_focus = !self.btn_focus;
                    if self.btn_focus {
                        self.btn_idx = 0;
                    }
                    return (EventResult::Consumed, OauthEffect::Nothing);
                }
                if self.btn_focus {
                    self.button_key(info, link, key.code)
                } else {
                    self.field_key(info, link, key)
                }
            },
            _ => (EventResult::Ignored, OauthEffect::Nothing),
        }
    }
}

// ── Requests ───────────────────────────────────────────────────────────────

/// The session of a request, or that there is none.
pub open spec fn session_value(s: Option<&str>) -> JsonV {
    match s {
        Some(x) => JsonV::Str(x@),
        None => JsonV::Null,
    }
}

/// The parameters of the request that gives up an authorisation.
pub open spec fn cancel_params(server: Seq<char>, session: JsonV) -> Seq<(Seq<char>, JsonV)> {
    with_member(
        with_member(Seq::empty(), "server_name"@, JsonV::Str(server)),
        "sessionId"@,
        session,
    )
}

fn session_json(s: Option<&str>) -> (r: Json)
    ensures
        r@ == session_value(s),
{
    match s {
        Some(x) => Json::text(x),
        None => Json::Null,
    }
}

/// The parameters of the request that gives up an authorisation.
pub fn oauth_cancel_params(server_name: &str, session_id: Option<&str>) -> (r: Json)
    ensures
        r@ == JsonV::Object(cancel_params(server_name@, session_value(session_id))),
{
    let mut o = ObjectBuilder::new();
    o.put_str("server_name", server_name);
    o.put("sessionId", session_json(session_id));
    o.build()
}

/// The parameters of the request that hands over a code. The state is left empty.
pub fn oauth_callback_params(server_name: &str, session_id: Option<&str>, code: &str) -> (r: Json)
    ensures
        r@ == JsonV::Object(
            with_member(
                with_member(
                    cancel_params(server_name@, session_value(session_id)),
                    "code"@,
                    JsonV::Str(code@),
                ),
                "state"@,
                JsonV::Str(""@),
            ),
        ),
{
    let mut o = ObjectBuilder::new();
    o.put_str("server_name", server_name);
    o.put("sessionId", session_json(session_id));
    o.put_str("code", code);
    o.put_str("state", "");
    o.build()
}

/// The systems that open an address in different ways.
#[derive(Debug, Clone, Copy, PartialEq, Eq, Structural)]
pub enum Platform {
    MacOs,
    Windows,
    Other,
}

/// The command that opens an address in the browser.
pub fn browser_command(platform: Platform, url: &str) -> (c: EditorCommand)
    ensures
        match platform {
            Platform::MacOs => c.program@ == "open"@ && text_views(c.args@) == seq![url@],
            Platform::Windows => c.program@ == "cmd"@ && text_views(c.args@) == seq![
                "/C"@,
                "start"@,
                ""@,
                url@,
            ],
            Platform::Other => c.program@ == "xdg-open"@ && text_views(c.args@) == seq![url@],
        },
{
    let mut args: Vec<String> = Vec::new();
    if platform == Platform::Windows {
        args.push("/C".to_owned());
        args.push("start".to_owned());
        args.push("".to_owned());
    }
    args.push(url.to_owned());
    let program = match platform {
        Platform::MacOs => "open".to_owned(),
        Platform::Windows => "cmd".to_owned(),
        Platform::Other => "xdg-open".to_owned(),
    };
    assert(platform == Platform::Windows ==> text_views(args@) =~= seq![
        "/C"@,
        "start"@,
        ""@,
        url@,
    ]);
    assert(platform != Platform::Windows ==> text_views(args@) =~= seq![url@]);
    EditorCommand { program, args }
}

// ── What is shown ──────────────────────────────────────────────────────────

/// What has the selection behind it and is not bold.
pub open spec fn selected_plain() -> Style {
    Style { color: Color::Primary, back: Back::Selection, bold: false, italic: false }
}

/// The style of what parts the buttons.
pub open spec fn gap_style(p: PopupV) -> Style {
    if p.btn_focus {
        selected_plain()
    } else {
        fg(Color::Plain)
    }
}

/// The style of what stands in the row of the buttons. Where the row has the focus, all of it
/// has the selection behind it, and the button chosen is bold.
pub open spec fn button_style(p: PopupV, i: int) -> Style {
    if p.btn_focus && i == p.btn {
        on(Color::Primary, Back::Selection)
    } else if p.btn_focus {
        selected_plain()
    } else {
        fg(Color::Dim)
    }
}

/// A button.
pub open spec fn button(key: Seq<char>, style: Style) -> LineV {
    seq![lit("[ "@, style), msg(key, style), lit(" ]"@, style)]
}

/// The line of the buttons.
pub open spec fn button_line(p: PopupV) -> LineV {
    button("oauth-btn-open"@, button_style(p, 0)) + seq![lit("  "@, gap_style(p))] + button(
        "oauth-btn-copy"@,
        button_style(p, 1),
    ) + seq![lit("  "@, gap_style(p))] + button("oauth-btn-cancel"@, button_style(p, 2))
}

/// The line of the field, with a cursor where it has the focus.
pub open spec fn code_line(p: PopupV) -> LineV {
    let style = if p.btn_focus {
        fg(Color::Dim)
    } else {
        on(Color::Primary, Back::Selection)
    };
    seq![
        lit("  "@, style),
        msg("oauth-callback-label"@, style),
        lit(
            (if p.code.len() == 0 {
                " (empty)"@
            } else {
                ": "@ + p.code
            }) + (if p.btn_focus {
                ""@
            } else {
                "▏"@
            }),
            style,
        ),
    ]
}

/// The message key of the last line: the answer, or what can be done.
pub open spec fn hint_key(p: PopupV) -> Seq<char> {
    match p.hint {
        Some(OauthHint::Copied) => "oauth-copied-hint"@,
        Some(OauthHint::BrowserOpened) => "oauth-opened-hint"@,
        None => if p.btn_focus {
            "oauth-hint-btn-focus"@
        } else {
            "oauth-hint-input-focus"@
        },
    }
}

/// The address, on as many lines as it takes.
pub open spec fn url_lines(url: Seq<char>) -> Seq<LineV> {
    wrap_text_spec(url, URL_WIDTH as nat).map_values(
        |l: Seq<char>| seq![lit("  "@ + l, fg(Color::Muted))],
    )
}

/// What the popup shows of a request.
pub open spec fn request_lines(p: PopupV, i: OauthV) -> Seq<LineV> {
    seq![
        blank(),
        seq![lit("  Server: "@ + i.server, bold(Color::PopupAction))],
        blank(),
        seq![msg("oauth-prompt"@, fg(Color::Primary))],
        blank(),
    ] + url_lines(i.url) + seq![
        blank(),
        button_line(p),
        blank(),
        code_line(p),
        blank(),
        seq![msg(hint_key(p), fg(Color::Dim))],
    ]
}

/// What the popup shows.
pub open spec fn oauth_lines(p: PopupV, info: Option<OauthV>) -> Seq<LineV> {
    match info {
        Some(i) => request_lines(p, i),
        None => seq![
            blank(),
            seq![lit("  No OAuth request pending."@, italic(Color::Muted))],
            blank(),
            seq![msg("common-esc-close"@, fg(Color::Dim))],
        ],
    }
}

/// The title of the popup.
pub open spec fn oauth_title(info: Option<OauthV>) -> PieceV {
    match info {
        Some(i) => msg_text("oauth-title"@, "server"@, i.server, fg(Color::PopupAction)),
        None => lit(" OAuth Authorization "@, fg(Color::PopupAction)),
    }
}

/// The buttons and the field stand in the rows in which a click finds them.
pub proof fn rows_are_clicked_where_shown(p: PopupV, i: OauthV)
    ensures
        0 <= btn_row(i.url) < input_row(i.url) < request_lines(p, i).len(),
        request_lines(p, i)[btn_row(i.url)] == button_line(p),
        request_lines(p, i)[input_row(i.url)] == code_line(p),
{
}

/// The row that has the focus has the selection behind all of it, and the other row nowhere.
pub proof fn the_focused_row_is_marked(p: PopupV, k: int)
    ensures
        0 <= k < button_line(p).len() ==> (button_line(p)[k].style.back == Back::Selection)
            == p.btn_focus,
        0 <= k < code_line(p).len() ==> (code_line(p)[k].style.back == Back::Selection)
            == !p.btn_focus,
{
}

fn show_button(key: &str, style: Style) -> (l: Line)
    ensures
        l@ == button(key@, style),
{
    Line::of3(Piece::lit("[ ", style), Piece::msg(key, style), Piece::lit(" ]", style))
}

impl OAuthPopup {
    fn style_of(&self, i: usize) -> (s: Style)
        ensures
            s == button_style(self@, i as int),
    {
        if self.btn_focus && i == self.btn_idx {
            Style::on(Color::Primary, Back::Selection)
        } else if self.btn_focus {
            Style { color: Color::Primary, back: Back::Selection, bold: false, italic: false }
        } else {
            Style::fg(Color::Dim)
        }
    }

    fn show_buttons(&self) -> (l: Line)
        ensures
            l@ == button_line(self@),
    {
        let gap = if self.btn_focus {
            Style { color: Color::Primary, back: Back::Selection, bold: false, italic: false }
        } else {
            Style::fg(Color::Plain)
        };
        let mut l = show_button("oauth-btn-open", self.style_of(0));
        l.push(Piece::lit("  ", gap));
        l.extend(show_button("oauth-btn-copy", self.style_of(1)));
        l.push(Piece::lit("  ", gap));
        l.extend(show_button("oauth-btn-cancel", self.style_of(2)));
        assert(l@ =~= button_line(self@));
        l
    }

    fn show_code(&self) -> (l: Line)
        ensures
            l@ == code_line(self@),
    {
        let style = if self.btn_focus {
            Style::fg(Color::Dim)
        } else {
            Style::on(Color::Primary, Back::Selection)
        };
        let text = if self.code.as_str().is_empty() {
            " (empty)".to_owned()
        } else {
            cat(": ", self.code.as_str())
        };
        let end = if self.btn_focus {
            ""
        } else {
            "▏"
        };
        Line::of3(
            Piece::lit("  ", style),
            Piece::msg("oauth-callback-label", style),
            Piece::text(cat(text.as_str(), end), style),
        )
    }

    /// What the popup shows.
    pub fn lines(&self, info: Option<&OauthNeeded>) -> (d: Doc)
        ensures
            d@ == oauth_lines(self@, info_view(info)),
    {
        let mut d = Doc::new();
        d.blank();
        let i = match info {
            Some(i) => i,
            None => {
                d.line(Piece::lit("  No OAuth request pending.", Style::italic(Color::Muted)));
                d.blank();
                d.line(Piece::msg("common-esc-close", Style::fg(Color::Dim)));
                assert(d@ =~= oauth_lines(self@, info_view(info)));
                return d;
            },
        };
        d.line(
            Piece::text(cat("  Server: ", i.server_name.as_str()), Style::bold(Color::PopupAction)),
        );
        d.blank();
        d.line(Piece::msg("oauth-prompt", Style::fg(Color::Primary)));
        d.blank();
        d.extend(show_url(i.auth_url.as_str()));
        d.blank();
        d.push(self.show_buttons());
        d.blank();
        d.push(self.show_code());
        d.blank();
        let key = match self.hint {
            Some(OauthHint::Copied) => "oauth-copied-hint",
            Some(OauthHint::BrowserOpened) => "oauth-opened-hint",
            None => if self.btn_focus {
                "oauth-hint-btn-focus"
            } else {
                "oauth-hint-input-focus"
            },
        };
        d.line(Piece::msg(key, Style::fg(Color::Dim)));
        assert(d@ =~= request_lines(self@, i@));
        d
    }
}

fn show_url(url: &str) -> (d: Doc)
    ensures
        d@ == url_lines(url@),
{
    let ghost all = url_lines(url@);
    let lines = wrap_text(url, URL_WIDTH);
    let mut d = Doc::new();
    let mut i: usize = 0;
    assert(d@ =~= all.take(0));
    while i < lines.len()
        invariant
            i <= lines@.len(),
            line_views(lines@) == wrap_text_spec(url@, URL_WIDTH as nat),
            all == url_lines(url@),
            d@ == all.take(i as int),
        decreases lines.len() - i,
    {
        assert(line_views(lines@)[i as int] == lines@[i as int]@);
        d.line(Piece::text(cat("  ", lines[i].as_str()), Style::fg(Color::Muted)));
        i = i + 1;
        assert(d@ =~= all.take(i as int));
    }
    assert(all.take(i as int) =~= all);
    d
}

/// The title of the popup.
pub fn title(info: Option<&OauthNeeded>) -> (p: Piece)
    ensures
        p@ == oauth_title(info_view(info)),
{
    match info {
        Some(i) => Piece::msg_text(
            "oauth-title",
            "server",
            i.server_name.as_str(),
            Style::fg(Color::PopupAction),
        ),
        None => Piece::lit(" OAuth Authorization ", Style::fg(Color::PopupAction)),
    }
}

// ── Laws ───────────────────────────────────────────────────────────────────

/// Escape closes the popup, whatever has the focus.
pub proof fn escape_closes(p: PopupV, info: Option<OauthV>, link: OauthLink, key: KeyEvent)
    requires
        key.code == KeyCode::Esc,
        key.mods.none(),
    ensures
        key_step(p, info, link, key).2 is Close || key_step(p, info, link, key).2 is Cancel,
{
}

/// A code is sent only if one was typed, and only to the session of the popup; giving up
/// is told only there.
pub proof fn only_its_session_is_told(
    p: PopupV,
    info: Option<OauthV>,
    link: OauthLink,
    event: Event,
    area: Option<Rect>,
    labels: Seq<Seq<char>>,
)
    ensures
        ({
            let e = oauth_step(p, info, link, event, area, labels).2;
            &&& e is Submit ==> link == OauthLink::Current && p.code.len() > 0
                && e->Submit_1 == p.code
            &&& e is Cancel ==> link == OauthLink::Current
        }),
{
}

/// Moving right and left among the buttons leads back, and three steps lead round.
pub proof fn buttons_cycle(p: PopupV, info: Option<OauthV>, link: OauthLink)
    requires
        0 <= p.btn < 3,
        p.btn_focus,
    ensures
        ({
            let right = |q: PopupV| button_key(q, info, link, KeyCode::Right).0;
            let left = |q: PopupV| button_key(q, info, link, KeyCode::Left).0;
            &&& left(right(p)) == p
            &&& right(left(p)) == p
            &&& right(right(right(p))) == p
        }),
{
}

/// A click on a button does what Enter does with the button selected.
pub proof fn click_is_enter_on_button(
    p: PopupV,
    i: OauthV,
    link: OauthLink,
    row: u16,
    column: u16,
    area: Rect,
    labels: Seq<Seq<char>>,
    b: int,
)
    ensures
        row - area.y - 1 == btn_row(i.url) && button_from(
            area.x,
            labels.map_values(|l: Seq<char>| l.len() as int),
            column,
            0,
        ) == Some(b) && p.btn == b ==> {
            let (q, e) = click_step(p, i, link, row, column, area, labels);
            button_key(p, Some(i), link, KeyCode::Enter) == (q, EventResult::Consumed, e)
        },
{
}

} // verus!
