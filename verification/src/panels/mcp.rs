//! The panel that lists the MCP servers, with a page on each.

use crate::doc::{blank, bold, fg, lit, msg, msg_with, on, Arg, ArgV, Back, Color, Doc, Line,
    Piece, PieceV, Style};
use crate::event::{sat, Event, EventResult, KeyCode, MouseEvent, Rect};
use crate::json::{with_member, Json, JsonV, ObjectBuilder};
use crate::list_nav::{next_sel, next_selection, prev_sel, previous_selection,
    scroll_start_for_selected, window_start};
use crate::panel_mouse::{button_from, click, find_button, left_down};
use crate::panels::memory::window_end;
use crate::text::{after_last, before_first, cat, contains, contains_spec, count_chars, find_char, first_of,
    lowercase_of, opt_view, same, text_after_last, text_before, text_views, to_chars,
    to_lowercase};
use crate::wrap::{line_views, wrap_text, wrap_text_spec};
use vstd::prelude::*;

verus! {

/// A line of the panel.
pub type LineV = Seq<PieceV>;

/// What the panel knows of a server.
#[derive(Debug)]
pub struct McpServerSummary {
    pub name: String,
    pub status: String,
    pub transport: String,
    pub tools_count: usize,
    pub needs_auth: bool,
    pub url: Option<String>,
    pub version: Option<String>,
    pub cache_status: Option<String>,
    pub error_summary: Option<String>,
}

/// What the panel knows of a server, abstractly.
pub struct ServerV {
    pub name: Seq<char>,
    pub status: Seq<char>,
    pub transport: Seq<char>,
    pub tools_count: nat,
    pub needs_auth: bool,
    pub url: Option<Seq<char>>,
    pub version: Option<Seq<char>>,
    pub cache_status: Option<Seq<char>>,
    pub error_summary: Option<Seq<char>>,
}

impl View for McpServerSummary {
    type V = ServerV;

    open spec fn view(&self) -> ServerV {
        ServerV {
            name: self.name@,
            status: self.status@,
            transport: self.transport@,
            tools_count: self.tools_count as nat,
            needs_auth: self.needs_auth,
            url: opt_view(self.url),
            version: opt_view(self.version),
            cache_status: opt_view(self.cache_status),
            error_summary: opt_view(self.error_summary),
        }
    }
}

impl Default for McpServerSummary {
    fn default() -> (s: McpServerSummary)
        ensures
            s@ == (ServerV {
                name: ""@,
                status: ""@,
                transport: ""@,
                tools_count: 0,
                needs_auth: false,
                url: None,
                version: None,
                cache_status: None,
                error_summary: None,
            }),
    {
        McpServerSummary {
            name: "".to_owned(),
            status: "".to_owned(),
            transport: "".to_owned(),
            tools_count: 0,
            needs_auth: false,
            url: None,
            version: None,
            cache_status: None,
            error_summary: None,
        }
    }
}

/// The servers of a list.
pub open spec fn servers_view(v: Seq<McpServerSummary>) -> Seq<ServerV> {
    v.map_values(|s: McpServerSummary| s@)
}

/// The list, or the page on a server.
#[derive(Debug, Clone, Copy, PartialEq, Eq, Structural)]
pub enum McpView {
    List,
    Detail,
}

/// The panel: the selection, what is shown, the server of the page and the button
/// selected on it.
#[derive(Debug, Clone, Copy, PartialEq, Eq, Structural)]
pub struct McpPanel {
    pub selected: usize,
    pub view: McpView,
    pub detail_idx: usize,
    pub detail_btn: usize,
}

impl Default for McpPanel {
    fn default() -> (p: McpPanel)
        ensures
            p == (McpPanel { selected: 0, view: McpView::List, detail_idx: 0, detail_btn: 0 }),
    {
        McpPanel { selected: 0, view: McpView::List, detail_idx: 0, detail_btn: 0 }
    }
}

/// What the program around the panel has to do.
#[derive(Debug)]
pub enum McpEffect {
    Nothing,
    Close,
    StartOauth(String),
}

/// What the program has to do, abstractly.
pub enum McpEffectV {
    Nothing,
    Close,
    StartOauth(Seq<char>),
}

impl View for McpEffect {
    type V = McpEffectV;

    open spec fn view(&self) -> McpEffectV {
        match *self {
            McpEffect::Nothing => McpEffectV::Nothing,
            McpEffect::Close => McpEffectV::Close,
            McpEffect::StartOauth(n) => McpEffectV::StartOauth(n@),
        }
    }
}

// ── The page on a server ───────────────────────────────────────────────────

/// The width that an address is broken to.
pub const URL_WIDTH: usize = 52;

/// The number of lines that the address takes.
pub open spec fn url_rows(s: ServerV) -> int {
    match s.url {
        Some(u) => wrap_text_spec(u, URL_WIDTH as nat).len() as int,
        None => 1,
    }
}

/// The row of the buttons on the page.
pub open spec fn btn_row(s: ServerV) -> int {
    6 + url_rows(s) + (if s.error_summary is Some {
        3int
    } else {
        0
    })
}

/// The message key of a button.
pub open spec fn btn_key(s: ServerV, i: int) -> Seq<char> {
    if s.needs_auth && i == 0 {
        "panel-mcp-detail-btn-auth"@
    } else {
        "panel-mcp-detail-btn-back"@
    }
}

/// The row of the buttons on the page.
pub fn detail_btn_row(s: &McpServerSummary) -> (r: u128)
    ensures
        r == btn_row(s@),
{
    let url: usize = match &s.url {
        Some(u) => wrap_text(u.as_str(), URL_WIDTH).len(),
        None => 1,
    };
    assert(url == url_rows(s@));
    let error: u128 = if s.error_summary.is_some() {
        3
    } else {
        0
    };
    6 + url as u128 + error
}

/// The lengths of the labels of the buttons, as they read in the language of the user.
pub open spec fn label_lens(s: ServerV, auth: Seq<char>, back: Seq<char>) -> Seq<int> {
    if s.needs_auth {
        seq![auth.len() as int, back.len() as int]
    } else {
        seq![back.len() as int]
    }
}

/// The button that a click on the page points at.
pub open spec fn clicked_button(
    s: ServerV,
    row: u16,
    column: u16,
    area: Rect,
    auth: Seq<char>,
    back: Seq<char>,
) -> Option<int> {
    if row - area.y - 1 == btn_row(s) {
        button_from(area.x, label_lens(s, auth, back), column, 0)
    } else {
        None
    }
}

/// A button is pressed: the page closes, and the authorisation begins where that was
/// the button.
pub open spec fn pressed(p: McpPanel, s: ServerV, i: int) -> (McpPanel, McpEffectV) {
    (
        McpPanel { detail_btn: 0, view: McpView::List, ..p },
        if s.needs_auth && i == 0 {
            McpEffectV::StartOauth(s.name)
        } else {
            McpEffectV::Nothing
        },
    )
}

/// What the mouse does.
pub open spec fn mouse_step(
    p: McpPanel,
    ss: Seq<ServerV>,
    m: MouseEvent,
    area: Option<Rect>,
    auth: Seq<char>,
    back: Seq<char>,
) -> (McpPanel, EventResult, McpEffectV) {
    match click(m) {
        Some((row, column)) => if p.view != McpView::Detail {
            (p, EventResult::Ignored, McpEffectV::Nothing)
        } else if area is Some && row >= sat(area->0.y as int, 1) && p.detail_idx < ss.len() {
            let s = ss[p.detail_idx as int];
            match clicked_button(s, row, column, area->0, auth, back) {
                Some(i) => {
                    let (q, e) = pressed(p, s, i);
                    (q, EventResult::Consumed, e)
                },
                None => (p, EventResult::Consumed, McpEffectV::Nothing),
            }
        } else {
            (p, EventResult::Consumed, McpEffectV::Nothing)
        },
        None => (p, EventResult::Ignored, McpEffectV::Nothing),
    }
}

/// What a key does on the page.
pub open spec fn detail_key(p: McpPanel, ss: Seq<ServerV>, code: KeyCode) -> (McpPanel, McpEffectV) {
    let known = p.detail_idx < ss.len();
    match code {
        KeyCode::Esc => (McpPanel { view: McpView::List, ..p }, McpEffectV::Nothing),
        KeyCode::Left | KeyCode::Right => if known && ss[p.detail_idx as int].needs_auth {
            (
                McpPanel {
                    detail_btn: if p.detail_btn == 0 {
                        1
                    } else {
                        0
                    },
                    ..p
                },
                McpEffectV::Nothing,
            )
        } else {
            (p, McpEffectV::Nothing)
        },
        KeyCode::Enter => if known {
            pressed(p, ss[p.detail_idx as int], p.detail_btn as int)
        } else {
            (p, McpEffectV::Nothing)
        },
        _ => (p, McpEffectV::Nothing),
    }
}

/// What a key does in the list. The page opens on the button that leads back.
pub open spec fn list_key(p: McpPanel, ss: Seq<ServerV>, code: KeyCode) -> (McpPanel, McpEffectV) {
    match code {
        KeyCode::Esc => (p, McpEffectV::Close),
        KeyCode::Enter => if p.selected < ss.len() {
            (
                McpPanel {
                    detail_idx: p.selected,
                    detail_btn: if ss[p.selected as int].needs_auth {
                        1
                    } else {
                        0
                    },
                    view: McpView::Detail,
                    ..p
                },
                McpEffectV::Nothing,
            )
        } else {
            (p, McpEffectV::Nothing)
        },
        KeyCode::Up => (
            McpPanel { selected: prev_sel(p.selected as int) as usize, ..p },
            McpEffectV::Nothing,
        ),
        KeyCode::Down => (
            if ss.len() > 0 {
                McpPanel { selected: next_sel(p.selected as int, ss.len() as int) as usize, ..p }
            } else {
                p
            },
            McpEffectV::Nothing,
        ),
        _ => (p, McpEffectV::Nothing),
    }
}

/// What an input does.
pub open spec fn mcp_step(
    p: McpPanel,
    ss: Seq<ServerV>,
    event: Event,
    area: Option<Rect>,
    auth: Seq<char>,
    back: Seq<char>,
) -> (McpPanel, EventResult, McpEffectV) {
    match event {
        Event::Mouse(m) => mouse_step(p, ss, m, area, auth, back),
        Event::Key(key) => if !key.press {
            (p, EventResult::Ignored, McpEffectV::Nothing)
        } else {
            let (q, e) = if p.view == McpView::Detail {
                detail_key(p, ss, key.code)
            } else {
                list_key(p, ss, key.code)
            };
            (q, EventResult::Consumed, e)
        },
        _ => (p, EventResult::Ignored, McpEffectV::Nothing),
    }
}

impl McpPanel {
    fn press(&mut self, s: &McpServerSummary, i: usize) -> (e: McpEffect)
        ensures
            (*final(self), e@) == pressed(*old(self), s@, i as int),
    {
        self.detail_btn = 0;
        self.view = McpView::List;
        if s.needs_auth && i == 0 {
            McpEffect::StartOauth(s.name.clone())
        } else {
            McpEffect::Nothing
        }
    }

    fn handle_mouse(
        &mut self,
        servers: &Vec<McpServerSummary>,
        m: &MouseEvent,
        area: Option<Rect>,
        auth: &str,
        back: &str,
    ) -> (r: (EventResult, McpEffect))
        requires
            auth@.len() < usize::MAX - 4,
            back@.len() < usize::MAX - 4,
        ensures
            (*final(self), r.0, r.1@) == mouse_step(
                *old(self),
                servers_view(servers@),
                *m,
                area,
                auth@,
                back@,
            ),
    {
        let (row, column) = match left_down(m) {
            Some(at) => at,
            None => {
                return (EventResult::Ignored, McpEffect::Nothing);
            },
        };
        if self.view != McpView::Detail {
            return (EventResult::Ignored, McpEffect::Nothing);
        }
        let area = match area {
            Some(a) => a,
            None => {
                return (EventResult::Consumed, McpEffect::Nothing);
            },
        };
        if row < area.y.saturating_add(1) || self.detail_idx >= servers.len() {
            return (EventResult::Consumed, McpEffect::Nothing);
        }
        let s = &servers[self.detail_idx];
        assert(servers_view(servers@)[self.detail_idx as int] == s@);
        if row <= area.y || (row - area.y - 1) as u128 != detail_btn_row(s) {
            assert(btn_row(s@) >= 6);
            return (EventResult::Consumed, McpEffect::Nothing);
        }
        let mut lens: Vec<usize> = Vec::new();
        if s.needs_auth {
            lens.push(count_chars(auth));
        }
        lens.push(count_chars(back));
        assert(lens@.map_values(|n: usize| n as int) =~= label_lens(s@, auth@, back@));
        match find_button(area.x, &lens, column) {
            Some(i) => {
                let e = self.press(s, i);
                (EventResult::Consumed, e)
            },
            None => (EventResult::Consumed, McpEffect::Nothing),
        }
    }

    fn detail_key(&mut self, servers: &Vec<McpServerSummary>, code: KeyCode) -> (e: McpEffect)
        ensures
            (*final(self), e@) == detail_key(*old(self), servers_view(servers@), code),
    {
        let known = self.detail_idx < servers.len();
        match code {
            KeyCode::Esc => {
                self.view = McpView::List;
                McpEffect::Nothing
            },
            KeyCode::Left | KeyCode::Right => {
                if known {
                    assert(servers_view(servers@)[self.detail_idx as int]
                        == servers@[self.detail_idx as int]@);
                    if servers[self.detail_idx].needs_auth {
                        self.detail_btn = if self.detail_btn == 0 {
                            1
                        } else {
                            0
                        };
                    }
                }
                McpEffect::Nothing
            },
            KeyCode::Enter => {
                if known {
                    assert(servers_view(servers@)[self.detail_idx as int]
                        == servers@[self.detail_idx as int]@);
                    let b: usize = self.detail_btn;
                    self.press(&servers[self.detail_idx], b)
                } else {
                    McpEffect::Nothing
                }
            },
            _ => McpEffect::Nothing,
        }
    }

    fn list_key(&mut self, servers: &Vec<McpServerSummary>, code: KeyCode) -> (e: McpEffect)
        ensures
            (*final(self), e@) == list_key(*old(self), servers_view(servers@), code),
    {
        match code {
            KeyCode::Esc => McpEffect::Close,
            KeyCode::Enter => {
                if self.selected < servers.len() {
                    assert(servers_view(servers@)[self.selected as int]
                        == servers@[self.selected as int]@);
                    self.detail_idx = self.selected;
                    self.detail_btn = if servers[self.selected].needs_auth {
                        1
                    } else {
                        0
                    };
                    self.view = McpView::Detail;
                }
                McpEffect::Nothing
            },
            KeyCode::Up => {
                self.selected = previous_selection(self.selected);
                McpEffect::Nothing
            },
            KeyCode::Down => {
                if servers.len() > 0 {
                    self.selected = next_selection(self.selected, servers.len());
                }
                McpEffect::Nothing
            },
            _ => McpEffect::Nothing,
        }
    }

    /// Deals with an input. The labels of the buttons are given as they read on the
    /// screen.
    pub fn handle_event(
        &mut self,
        event: &Event,
        servers: &Vec<McpServerSummary>,
        area: Option<Rect>,
        auth: &str,
        back: &str,
    ) -> (r: (EventResult, McpEffect))
        requires
            auth@.len() < usize::MAX - 4,
            back@.len() < usize::MAX - 4,
        ensures
            (*final(self), r.0, r.1@) == mcp_step(
                *old(self),
                servers_view(servers@),
                *event,
                area,
                auth@,
                back@,
            ),
    {
        match event {
            Event::Mouse(m) => self.handle_mouse(servers, m, area, auth, back),
            Event::Key(key) => {
                if !key.press {
                    return (EventResult::Ignored, McpEffect::Nothing);
                }
                let e = if self.view == McpView::Detail {
                    self.detail_key(servers, key.code)
                } else {
                    self.list_key(servers, key.code)
                };
                (EventResult::Consumed, e)
            },
            _ => (EventResult::Ignored, McpEffect::Nothing),
        }
    }

    /// Goes back to the list where the server of the page is gone.
    pub fn follow(&mut self, servers: &Vec<McpServerSummary>)
        ensures
            *final(self) == (if old(self).view == McpView::Detail && old(self).detail_idx
                >= servers@.len() {
                McpPanel { view: McpView::List, ..*old(self) }
            } else {
                *old(self)
            }),
    {
        if self.view == McpView::Detail && self.detail_idx >= servers.len() {
            self.view = McpView::List;
        }
    }
}

/// The parameters of the request that begins an authorisation.
pub fn oauth_start_params(server_name: &str, session_id: &str) -> (r: Json)
    ensures
        r@ == JsonV::Object(
            with_member(
                with_member(Seq::empty(), "server_name"@, JsonV::Str(server_name@)),
                "sessionId"@,
                JsonV::Str(session_id@),
            ),
        ),
{
    let mut o = ObjectBuilder::new();
    o.put_str("server_name", server_name);
    o.put_str("sessionId", session_id);
    o.build()
}

// ── Laws ───────────────────────────────────────────────────────────────────

/// An authorisation begins only from the page of a server that needs one.
pub proof fn authorisation_is_asked_for(
    p: McpPanel,
    ss: Seq<ServerV>,
    event: Event,
    area: Option<Rect>,
    auth: Seq<char>,
    back: Seq<char>,
)
    ensures
        mcp_step(p, ss, event, area, auth, back).2 matches McpEffectV::StartOauth(n) ==> {
            &&& p.view == McpView::Detail
            &&& p.detail_idx < ss.len()
            &&& ss[p.detail_idx as int].needs_auth
            &&& n == ss[p.detail_idx as int].name
        },
{
}

/// Enter twice opens a page and closes it again, and begins nothing.
pub proof fn enter_twice_is_harmless(p: McpPanel, ss: Seq<ServerV>)
    requires
        p.view == McpView::List,
        p.selected < ss.len(),
    ensures
        ({
            let (open, first) = list_key(p, ss, KeyCode::Enter);
            let (closed, second) = detail_key(open, ss, KeyCode::Enter);
            &&& open.view == McpView::Detail
            &&& closed.view == McpView::List
            &&& closed.selected == p.selected
            &&& first == McpEffectV::Nothing
            &&& second == McpEffectV::Nothing
        }),
{
}

// ── What is shown ──────────────────────────────────────────────────────────

/// The message key of the icon of a status, and its colour.
pub open spec fn status_style(status: Seq<char>) -> (Seq<char>, Color) {
    if contains_spec(status, "connected"@) {
        ("panel-mcp-icon-connected"@, Color::Success)
    } else if contains_spec(status, "error"@) || contains_spec(status, "failed"@) {
        ("panel-mcp-icon-error"@, Color::Error)
    } else {
        ("panel-mcp-icon-unknown"@, Color::Muted)
    }
}

/// The message key of the icon of a status, and its colour.
pub fn derive_status_style(status: &str) -> (r: (&'static str, Color))
    ensures
        (r.0@, r.1) == status_style(status@),
{
    if contains(status, "connected") {
        ("panel-mcp-icon-connected", Color::Success)
    } else if contains(status, "error") || contains(status, "failed") {
        ("panel-mcp-icon-error", Color::Error)
    } else {
        ("panel-mcp-icon-unknown", Color::Muted)
    }
}

/// The message key that tells how the cache stands.
pub open spec fn cache_key(status: Option<Seq<char>>) -> Option<Seq<char>> {
    match status {
        None => None,
        Some(s) => if s == "version_cached"@ {
            Some("panel-mcp-cache-version-hit"@)
        } else if s == "mcpp_cached"@ {
            Some("panel-mcp-cache-protocol-hit"@)
        } else if s == "cached"@ {
            Some("panel-mcp-cache-hit"@)
        } else if s == "stored_after_fetch"@ {
            Some("panel-mcp-cache-saved"@)
        } else if s == "cache_ready"@ {
            Some("panel-mcp-cache-ready"@)
        } else if s == "cache_disabled"@ {
            Some("panel-mcp-cache-disabled"@)
        } else if s == "live_fetch"@ {
            Some("panel-mcp-cache-live-fetch"@)
        } else {
            None
        },
    }
}

/// The message key that tells how the cache stands.
pub fn cache_status_label_key(status: Option<&str>) -> (r: Option<&'static str>)
    ensures
        (match r {
            Some(k) => Some(k@),
            None => None,
        }) == cache_key(
            match status {
                Some(s) => Some(s@),
                None => None,
            },
        ),
{
    match status {
        None => None,
        Some(s) => if same(s, "version_cached") {
            Some("panel-mcp-cache-version-hit")
        } else if same(s, "mcpp_cached") {
            Some("panel-mcp-cache-protocol-hit")
        } else if same(s, "cached") {
            Some("panel-mcp-cache-hit")
        } else if same(s, "stored_after_fetch") {
            Some("panel-mcp-cache-saved")
        } else if same(s, "cache_ready") {
            Some("panel-mcp-cache-ready")
        } else if same(s, "cache_disabled") {
            Some("panel-mcp-cache-disabled")
        } else if same(s, "live_fetch") {
            Some("panel-mcp-cache-live-fetch")
        } else {
            None
        },
    }
}

/// The key by which the commands of a server are found: the last part of its name, in
/// small letters.
pub open spec fn domain_key(name: Seq<char>) -> Seq<char> {
    lowercase_of(after_last(name, ':'))
}

/// The number of the first commands that belong to a server: those with its key before
/// a colon.
pub open spec fn skill_count(commands: Seq<Seq<char>>, key: Seq<char>, to: int) -> nat
    decreases to,
{
    if to <= 0 {
        0
    } else if first_of(commands[to - 1], ':') < commands[to - 1].len() && before_first(
        commands[to - 1],
        ':',
    ) == key {
        skill_count(commands, key, to - 1) + 1
    } else {
        skill_count(commands, key, to - 1)
    }
}

/// The number of commands that a server has brought.
pub fn count_skills(commands: &Vec<String>, server_name: &str) -> (n: usize)
    ensures
        n == skill_count(
            text_views(commands@),
            domain_key(server_name@),
            commands@.len() as int,
        ),
{
    let key = to_lowercase(text_after_last(server_name, ':').as_str());
    let ghost all = text_views(commands@);
    let mut n: usize = 0;
    let mut i: usize = 0;
    while i < commands.len()
        invariant
            i <= commands@.len(),
            n <= i,
            all == text_views(commands@),
            key@ == domain_key(server_name@),
            n == skill_count(all, key@, i as int),
        decreases commands.len() - i,
    {
        assert(all[i as int] == commands@[i as int]@);
        let cs = to_chars(commands[i].as_str());
        let at: usize = find_char(&cs, ':');
        if at < cs.len() && same(text_before(commands[i].as_str(), ':').as_str(), key.as_str()) {
            n = n + 1;
        }
        i = i + 1;
    }
    n
}

/// How far the servers have come as a whole.
#[derive(Debug, Clone, Copy, PartialEq, Eq, Structural)]
pub enum McpInitPhase {
    Pending,
    Initializing,
    Ready,
    Failed,
}

/// The message key of a phase.
pub open spec fn phase_key(p: McpInitPhase) -> Seq<char> {
    match p {
        McpInitPhase::Pending => "panel-mcp-phase-pending"@,
        McpInitPhase::Initializing => "panel-mcp-phase-initializing"@,
        McpInitPhase::Ready => "panel-mcp-phase-ready"@,
        McpInitPhase::Failed => "panel-mcp-phase-failed"@,
    }
}

/// The servers as a whole: the phase, how many are connected and how many there are.
#[derive(Debug, Clone, Copy, PartialEq, Eq, Structural)]
pub struct McpPool {
    pub init_phase: McpInitPhase,
    pub connected: usize,
    pub total: usize,
}

/// The number of servers on the screen.
pub const VISIBLE_ITEMS: usize = 6;

/// The version, where it is known.
pub open spec fn version_piece(v: Option<Seq<char>>, before: Seq<char>) -> LineV {
    match v {
        Some(x) => seq![lit(before + x, fg(Color::Dim))],
        None => Seq::empty(),
    }
}

/// That the server needs an authorisation, where it does.
pub open spec fn auth_pieces(needs: bool, before: Seq<char>) -> LineV {
    if needs {
        seq![
            lit(before, fg(Color::Warning)),
            msg("panel-mcp-needs-auth"@, fg(Color::Warning)),
        ]
    } else {
        Seq::empty()
    }
}

/// The icon and the text of a status.
pub open spec fn status_pieces(status: Seq<char>) -> LineV {
    let (icon, color) = status_style(status);
    seq![lit("  "@, fg(color)), msg(icon, fg(color)), lit(" "@ + status, fg(color))]
}

/// The first line of a server in the list.
pub open spec fn server_line(s: ServerV, selected: bool) -> LineV {
    seq![
        lit(
            if selected {
                " > "@
            } else {
                "   "@
            },
            fg(Color::Title),
        ),
        lit(
            s.name,
            if selected {
                bold(Color::Title)
            } else {
                fg(Color::Primary)
            },
        ),
    ] + auth_pieces(s.needs_auth, " "@) + status_pieces(s.status)
}

/// The second line of a server in the list.
pub open spec fn server_details(s: ServerV, commands: Seq<Seq<char>>) -> LineV {
    seq![
        msg_with(
            "panel-mcp-server-detail"@,
            seq![
                ("transport"@, ArgV::Text(s.transport)),
                ("count"@, ArgV::Number(s.tools_count)),
                (
                    "skills"@,
                    ArgV::Number(
                        skill_count(commands, domain_key(s.name), commands.len() as int),
                    ),
                ),
            ],
            fg(Color::Dim),
        ),
    ] + version_piece(s.version, "  ·  "@)
}

/// The lines of the servers from one position to another.
pub open spec fn server_rows(
    ss: Seq<ServerV>,
    selected: int,
    commands: Seq<Seq<char>>,
    from: int,
    to: int,
) -> Seq<LineV>
    decreases to - from,
{
    if to <= from {
        Seq::empty()
    } else {
        server_rows(ss, selected, commands, from, to - 1).push(
            server_line(ss[to - 1], to - 1 == selected),
        ).push(server_details(ss[to - 1], commands))
    }
}

/// What the panel shows as a list.
pub open spec fn list_lines(
    selected: int,
    ss: Seq<ServerV>,
    pool: McpPool,
    commands: Seq<Seq<char>>,
) -> Seq<LineV> {
    let start = window_start(selected, VISIBLE_ITEMS as int);
    seq![
        seq![
            msg("panel-mcp-pool-label"@, fg(Color::Muted)),
            msg(phase_key(pool.init_phase), bold(Color::BorderActive)),
            msg_with(
                "panel-mcp-connected"@,
                seq![
                    ("connected"@, ArgV::Number(pool.connected as nat)),
                    ("total"@, ArgV::Number(pool.total as nat)),
                ],
                fg(Color::Primary),
            ),
        ],
        blank(),
    ] + (if ss.len() == 0 {
        seq![
            seq![msg("panel-mcp-empty"@, fg(Color::Muted))],
            seq![msg("panel-mcp-empty-hint"@, fg(Color::Muted))],
        ]
    } else {
        server_rows(
            ss,
            selected,
            commands,
            start,
            window_end(start, ss.len() as int, VISIBLE_ITEMS as int),
        )
    }) + seq![blank(), seq![msg("panel-mcp-list-hint"@, fg(Color::Dim))]]
}

/// What went wrong with the server, where something did.
pub open spec fn error_lines(error: Option<Seq<char>>) -> Seq<LineV> {
    match error {
        Some(e) => seq![
            seq![lit("  "@, fg(Color::Error)), msg("panel-mcp-detail-error"@, fg(Color::Error))],
            seq![lit("    "@ + e, fg(Color::Muted))],
            blank(),
        ],
        None => Seq::empty(),
    }
}

/// The address, on as many lines as it takes.
pub open spec fn url_lines(url: Option<Seq<char>>) -> Seq<LineV> {
    match url {
        Some(u) => wrap_text_spec(u, URL_WIDTH as nat).map_values(
            |l: Seq<char>| seq![lit("    "@ + l, fg(Color::Primary))],
        ),
        None => seq![
            seq![
                lit("    ("@, fg(Color::Dim)),
                msg("ui-empty"@, fg(Color::Dim)),
                lit(")"@, fg(Color::Dim)),
            ],
        ],
    }
}

/// A button.
pub open spec fn button(key: Seq<char>, selected: bool) -> LineV {
    let style = if selected {
        on(Color::Primary, Back::Selection)
    } else {
        fg(Color::Primary)
    };
    seq![lit("[ "@, style), msg(key, style), lit(" ]"@, style)]
}

/// The line of the buttons.
pub open spec fn button_line(s: ServerV, btn: int) -> LineV {
    if s.needs_auth {
        button(btn_key(s, 0), btn == 0) + seq![lit("  "@, fg(Color::Plain))] + button(
            btn_key(s, 1),
            btn == 1,
        )
    } else {
        button(btn_key(s, 0), btn == 0)
    }
}

/// The message key that tells how the cache stands, or that there is none.
pub open spec fn cache_label(status: Option<Seq<char>>) -> Seq<char> {
    match cache_key(status) {
        Some(k) => k,
        None => "panel-mcp-detail-cache-none"@,
    }
}

/// The page on a server, down to the buttons.
pub open spec fn detail_head(s: ServerV) -> Seq<LineV> {
    seq![
        blank(),
        seq![lit("  "@ + s.name, bold(Color::Title))] + status_pieces(s.status) + version_piece(
            s.version,
            " · "@,
        ) + auth_pieces(s.needs_auth, "  "@),
        seq![
            lit("  "@, fg(Color::Dim)),
            msg("panel-mcp-detail-cache"@, fg(Color::Dim)),
            lit(" "@, fg(Color::Dim)),
            msg(cache_label(s.cache_status), fg(Color::Primary)),
        ],
        blank(),
    ] + error_lines(s.error_summary) + seq![
        seq![lit("  "@, fg(Color::Dim)), msg("panel-mcp-detail-url"@, fg(Color::Dim))],
    ] + url_lines(s.url) + seq![blank()]
}

/// The page on a server.
pub open spec fn detail_lines(s: ServerV, btn: int) -> Seq<LineV> {
    detail_head(s) + seq![
        button_line(s, btn),
        blank(),
        seq![msg("panel-mcp-detail-hint"@, fg(Color::Dim))],
    ]
}

/// The buttons stand in the row in which a click finds them.
pub proof fn buttons_are_clicked_where_shown(s: ServerV, btn: int)
    ensures
        0 <= btn_row(s) < detail_lines(s, btn).len(),
        detail_lines(s, btn)[btn_row(s)] == button_line(s, btn),
{
    assert(detail_head(s).len() == btn_row(s));
}

fn push_status(l: &mut Line, status: &str)
    ensures
        final(l)@ == old(l)@ + status_pieces(status@),
{
    let ghost before = l@;
    let (icon, color) = derive_status_style(status);
    let style = Style::fg(color);
    l.push(Piece::lit("  ", style));
    l.push(Piece::msg(icon, style));
    l.push(Piece::text(cat(" ", status), style));
    assert(l@ =~= before + status_pieces(status@));
}

fn push_auth(l: &mut Line, needs: bool, before: &str)
    ensures
        final(l)@ == old(l)@ + auth_pieces(needs, before@),
{
    let ghost was = l@;
    if needs {
        l.push(Piece::lit(before, Style::fg(Color::Warning)));
        l.push(Piece::msg("panel-mcp-needs-auth", Style::fg(Color::Warning)));
    }
    assert(l@ =~= was + auth_pieces(needs, before@));
}

fn push_version(l: &mut Line, version: &Option<String>, before: &str)
    ensures
        final(l)@ == old(l)@ + version_piece(opt_view(*version), before@),
{
    let ghost was = l@;
    match version {
        Some(v) => {
            l.push(Piece::text(cat(before, v.as_str()), Style::fg(Color::Dim)));
        },
        None => {},
    }
    assert(l@ =~= was + version_piece(opt_view(*version), before@));
}

fn show_button(key: &str, selected: bool) -> (l: Line)
    ensures
        l@ == button(key@, selected),
{
    let style = if selected {
        Style::on(Color::Primary, Back::Selection)
    } else {
        Style::fg(Color::Primary)
    };
    Line::of3(Piece::lit("[ ", style), Piece::msg(key, style), Piece::lit(" ]", style))
}

fn show_buttons(s: &McpServerSummary, btn: usize) -> (l: Line)
    ensures
        l@ == button_line(s@, btn as int),
{
    if s.needs_auth {
        let mut l = show_button("panel-mcp-detail-btn-auth", btn == 0);
        l.push(Piece::lit("  ", Style::fg(Color::Plain)));
        l.extend(show_button("panel-mcp-detail-btn-back", btn == 1));
        assert(l@ =~= button_line(s@, btn as int));
        l
    } else {
        show_button("panel-mcp-detail-btn-back", btn == 0)
    }
}

fn show_url(url: &Option<String>) -> (d: Doc)
    ensures
        d@ == url_lines(opt_view(*url)),
{
    let mut d = Doc::new();
    match url {
        Some(u) => {
            let ghost all = url_lines(opt_view(*url));
            let lines = wrap_text(u.as_str(), URL_WIDTH);
            let mut i: usize = 0;
            assert(d@ =~= all.take(0));
            while i < lines.len()
                invariant
                    i <= lines@.len(),
                    line_views(lines@) == wrap_text_spec(u@, URL_WIDTH as nat),
                    all == wrap_text_spec(u@, URL_WIDTH as nat).map_values(
                        |l: Seq<char>| seq![lit("    "@ + l, fg(Color::Primary))],
                    ),
                    d@ == all.take(i as int),
                decreases lines.len() - i,
            {
                assert(line_views(lines@)[i as int] == lines@[i as int]@);
                d.line(Piece::text(cat("    ", lines[i].as_str()), Style::fg(Color::Primary)));
                i = i + 1;
                assert(d@ =~= all.take(i as int));
            }
            assert(all.take(i as int) =~= all);
        },
        None => {
            let dim = Style::fg(Color::Dim);
            d.push(
                Line::of3(Piece::lit("    (", dim), Piece::msg("ui-empty", dim), Piece::lit(")", dim)),
            );
            assert(d@ =~= url_lines(opt_view(*url)));
        },
    }
    d
}

/// The page on a server.
pub fn build_detail_lines(s: &McpServerSummary, btn: usize) -> (d: Doc)
    ensures
        d@ == detail_lines(s@, btn as int),
{
    let dim = Style::fg(Color::Dim);
    let mut d = Doc::new();
    d.blank();
    let mut title = Line::of(Piece::text(cat("  ", s.name.as_str()), Style::bold(Color::Title)));
    push_status(&mut title, s.status.as_str());
    push_version(&mut title, &s.version, " · ");
    push_auth(&mut title, s.needs_auth, "  ");
    d.push(title);
    let label = match cache_status_label_key(
        match &s.cache_status {
            Some(c) => Some(c.as_str()),
            None => None,
        },
    ) {
        Some(k) => k,
        None => "panel-mcp-detail-cache-none",
    };
    assert(label@ == cache_label(s@.cache_status));
    let mut cache = Line::of3(
        Piece::lit("  ", dim),
        Piece::msg("panel-mcp-detail-cache", dim),
        Piece::lit(" ", dim),
    );
    cache.push(Piece::msg(label, Style::fg(Color::Primary)));
    assert(cache@ =~= seq![
        lit("  "@, fg(Color::Dim)),
        msg("panel-mcp-detail-cache"@, fg(Color::Dim)),
        lit(" "@, fg(Color::Dim)),
        msg(cache_label(s@.cache_status), fg(Color::Primary)),
    ]);
    d.push(cache);
    d.blank();
    match &s.error_summary {
        Some(e) => {
            let red = Style::fg(Color::Error);
            d.push(Line::of2(Piece::lit("  ", red), Piece::msg("panel-mcp-detail-error", red)));
            d.line(Piece::text(cat("    ", e.as_str()), Style::fg(Color::Muted)));
            d.blank();
        },
        None => {},
    }
    d.push(Line::of2(Piece::lit("  ", dim), Piece::msg("panel-mcp-detail-url", dim)));
    d.extend(show_url(&s.url));
    d.blank();
    assert(d@ =~= detail_head(s@));
    d.push(show_buttons(s, btn));
    d.blank();
    d.line(Piece::msg("panel-mcp-detail-hint", dim));
    assert(d@ =~= detail_lines(s@, btn as int));
    d
}

fn show_server(s: &McpServerSummary, selected: bool) -> (l: Line)
    ensures
        l@ == server_line(s@, selected),
{
    let mut l = Line::of2(
        Piece::lit(
            if selected {
                " > "
            } else {
                "   "
            },
            Style::fg(Color::Title),
        ),
        Piece::lit(
            s.name.as_str(),
            if selected {
                Style::bold(Color::Title)
            } else {
                Style::fg(Color::Primary)
            },
        ),
    );
    push_auth(&mut l, s.needs_auth, " ");
    push_status(&mut l, s.status.as_str());
    l
}

fn show_details(s: &McpServerSummary, commands: &Vec<String>) -> (l: Line)
    ensures
        l@ == server_details(s@, text_views(commands@)),
{
    let skills: usize = count_skills(commands, s.name.as_str());
    let mut l = Line::of(
        Piece::msg3(
            "panel-mcp-server-detail",
            Arg::text("transport", s.transport.as_str()),
            Arg::number("count", s.tools_count as u64),
            Arg::number("skills", skills as u64),
            Style::fg(Color::Dim),
        ),
    );
    push_version(&mut l, &s.version, "  ·  ");
    l
}

impl McpPanel {
    fn list(&self, servers: &Vec<McpServerSummary>, pool: McpPool, commands: &Vec<String>) -> (d:
        Doc)
        ensures
            d@ == list_lines(
                self.selected as int,
                servers_view(servers@),
                pool,
                text_views(commands@),
            ),
    {
        let ghost ss = servers_view(servers@);
        let ghost cs = text_views(commands@);
        let count: usize = servers.len();
        let mut d = Doc::new();
        let phase = match pool.init_phase {
            McpInitPhase::Pending => "panel-mcp-phase-pending",
            McpInitPhase::Initializing => "panel-mcp-phase-initializing",
            McpInitPhase::Ready => "panel-mcp-phase-ready",
            McpInitPhase::Failed => "panel-mcp-phase-failed",
        };
        d.push(
            Line::of3(
                Piece::msg("panel-mcp-pool-label", Style::fg(Color::Muted)),
                Piece::msg(phase, Style::bold(Color::BorderActive)),
                Piece::msg2(
                    "panel-mcp-connected",
                    Arg::number("connected", pool.connected as u64),
                    Arg::number("total", pool.total as u64),
                    Style::fg(Color::Primary),
                ),
            ),
        );
        d.blank();
        if count == 0 {
            d.line(Piece::msg("panel-mcp-empty", Style::fg(Color::Muted)));
            d.line(Piece::msg("panel-mcp-empty-hint", Style::fg(Color::Muted)));
        } else {
            let start: usize = scroll_start_for_selected(self.selected, VISIBLE_ITEMS);
            let ghost end = window_end(start as int, count as int, VISIBLE_ITEMS as int);
            let mut shown = Doc::new();
            let mut i: usize = start;
            while i < count && i - start < VISIBLE_ITEMS
                invariant
                    start <= i,
                    count == ss.len(),
                    ss == servers_view(servers@),
                    cs == text_views(commands@),
                    i <= end || i == start,
                    end == window_end(start as int, count as int, VISIBLE_ITEMS as int),
                    shown@ == server_rows(
                        ss,
                        self.selected as int,
                        cs,
                        start as int,
                        i as int,
                    ),
                decreases count - i,
            {
                assert(ss[i as int] == servers@[i as int]@);
                shown.push(show_server(&servers[i], i == self.selected));
                shown.push(show_details(&servers[i], commands));
                i = i + 1;
            }
            d.extend(shown);
        }
        d.blank();
        d.line(Piece::msg("panel-mcp-list-hint", Style::fg(Color::Dim)));
        assert(d@ =~= list_lines(self.selected as int, ss, pool, cs));
        d
    }

    /// What the panel shows: the page on a server, or the list.
    pub fn lines(
        &self,
        servers: &Vec<McpServerSummary>,
        pool: McpPool,
        commands: &Vec<String>,
    ) -> (d: Doc)
        ensures
            d@ == (if self.view == McpView::Detail {
                if self.detail_idx < servers@.len() {
                    detail_lines(
                        servers_view(servers@)[self.detail_idx as int],
                        self.detail_btn as int,
                    )
                } else {
                    Seq::empty()
                }
            } else {
                list_lines(
                    self.selected as int,
                    servers_view(servers@),
                    pool,
                    text_views(commands@),
                )
            }),
    {
        if self.view == McpView::Detail {
            if self.detail_idx < servers.len() {
                build_detail_lines(&servers[self.detail_idx], self.detail_btn)
            } else {
                Doc::new()
            }
        } else {
            self.list(servers, pool, commands)
        }
    }
}

} // verus!
