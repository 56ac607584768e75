//! The panel on the state of the program and of the session.

use crate::doc::{blank, bold, fg, italic, lit, msg, on, Back, Color, Doc, Line, Piece, PieceV, Style};
use crate::event::{Event, EventResult, KeyCode};
use crate::panels::mcp::{McpInitPhase, McpPool};
use crate::text::{cat, cat3, cat4, decimal, decimal_text};
use crate::view_models::{groups, groups_among, groups_in, TuiRenderUnit, ViewModelsSnapshot};
use vstd::prelude::*;

verus! {

/// A line of the panel.
pub type LineV = Seq<PieceV>;

/// What the panel shows.
#[derive(Debug, Clone, Copy, PartialEq, Eq, Structural)]
pub enum StatusTab {
    Service,
    Context,
}

/// The panel: what it shows.
#[derive(Debug, Clone, Copy, PartialEq, Eq, Structural)]
pub struct StatusPanel {
    pub tab: StatusTab,
}

impl Default for StatusPanel {
    fn default() -> (p: StatusPanel)
        ensures
            p.tab == StatusTab::Service,
    {
        StatusPanel { tab: StatusTab::Service }
    }
}

/// What an input does: the tab after it, whether it is used up, and whether the panel
/// closes.
pub open spec fn status_step(tab: StatusTab, event: Event) -> (StatusTab, EventResult, bool) {
    match event {
        Event::Key(key) => if !key.press {
            (tab, EventResult::Ignored, false)
        } else {
            match key.code {
                KeyCode::Esc => (tab, EventResult::Consumed, true),
                KeyCode::Left => (StatusTab::Service, EventResult::Consumed, false),
                KeyCode::Right => (StatusTab::Context, EventResult::Consumed, false),
                _ => (tab, EventResult::Consumed, false),
            }
        },
        _ => (tab, EventResult::Ignored, false),
    }
}

impl StatusPanel {
    /// Deals with an input: whether it is used up, and whether the panel closes.
    pub fn handle_event(&mut self, event: &Event) -> (r: (EventResult, bool))
        ensures
            (final(self).tab, r.0, r.1) == status_step(old(self).tab, *event),
    {
        match event {
            Event::Key(key) => {
                if !key.press {
                    return (EventResult::Ignored, false);
                }
                match key.code {
                    KeyCode::Esc => (EventResult::Consumed, true),
                    KeyCode::Left => {
                        self.tab = StatusTab::Service;
                        (EventResult::Consumed, false)
                    },
                    KeyCode::Right => {
                        self.tab = StatusTab::Context;
                        (EventResult::Consumed, false)
                    },
                    _ => (EventResult::Consumed, false),
                }
            },
            _ => (EventResult::Ignored, false),
        }
    }
}

// ── Counting the timeline ──────────────────────────────────────────────────

/// How many units of each sort a timeline holds.
pub struct StatsV {
    pub user: int,
    pub assistant: int,
    pub tools: int,
    pub helpers: int,
    pub notes: int,
}

impl StatsV {
    /// Nothing counted.
    pub open spec fn zero() -> StatsV {
        StatsV { user: 0, assistant: 0, tools: 0, helpers: 0, notes: 0 }
    }

    /// Two counts together.
    pub open spec fn plus(self, o: StatsV) -> StatsV {
        StatsV {
            user: self.user + o.user,
            assistant: self.assistant + o.assistant,
            tools: self.tools + o.tools,
            helpers: self.helpers + o.helpers,
            notes: self.notes + o.notes,
        }
    }

    /// All that was counted.
    pub open spec fn total(self) -> int {
        self.user + self.assistant + self.tools + self.helpers + self.notes
    }

    /// No count is negative.
    pub open spec fn natural(self) -> bool {
        self.user >= 0 && self.assistant >= 0 && self.tools >= 0 && self.helpers >= 0 && self.notes
            >= 0
    }
}

/// The count of a unit: a group of helpers counts, and so does what it holds; of units
/// shown as one only those count.
pub open spec fn count_in(vm: TuiRenderUnit) -> StatsV
    decreases vm, 0int,
{
    match vm {
        TuiRenderUnit::TuiUserBubble(_) => StatsV { user: 1, ..StatsV::zero() },
        TuiRenderUnit::TuiAssistantBubble => StatsV { assistant: 1, ..StatsV::zero() },
        TuiRenderUnit::TuiToolCard => StatsV { tools: 1, ..StatsV::zero() },
        TuiRenderUnit::TuiSubAgentGroup(g) => StatsV { helpers: 1, ..StatsV::zero() }.plus(
            count_among(g.view_models@, g.view_models@.len() as int),
        ),
        TuiRenderUnit::TuiSystemNote => StatsV { notes: 1, ..StatsV::zero() },
        TuiRenderUnit::TuiCollapsedGroup(g) => count_among(
            g.view_models@,
            g.view_models@.len() as int,
        ),
        TuiRenderUnit::Other => StatsV::zero(),
    }
}

/// The count of the first units of a list.
pub open spec fn count_among(vms: Seq<TuiRenderUnit>, to: int) -> StatsV
    decreases vms, to,
{
    if to <= 0 || to > vms.len() {
        StatsV::zero()
    } else {
        count_among(vms, to - 1).plus(count_in(vms[to - 1]))
    }
}

proof fn counts_are_natural(vm: TuiRenderUnit)
    ensures
        count_in(vm).natural(),
    decreases vm, 0int,
{
    match vm {
        TuiRenderUnit::TuiSubAgentGroup(g) => {
            sums_are_natural(g.view_models@, g.view_models@.len() as int);
        },
        TuiRenderUnit::TuiCollapsedGroup(g) => {
            sums_are_natural(g.view_models@, g.view_models@.len() as int);
        },
        _ => {},
    }
}

proof fn sums_are_natural(vms: Seq<TuiRenderUnit>, to: int)
    ensures
        count_among(vms, to).natural(),
    decreases vms, to,
{
    if 0 < to <= vms.len() {
        sums_are_natural(vms, to - 1);
        counts_are_natural(vms[to - 1]);
    }
}

proof fn sums_grow(vms: Seq<TuiRenderUnit>, i: int, to: int)
    requires
        0 <= i <= to <= vms.len(),
    ensures
        count_among(vms, i).total() <= count_among(vms, to).total(),
    decreases to - i,
{
    if i < to {
        sums_grow(vms, i, to - 1);
        counts_are_natural(vms[to - 1]);
    }
}

proof fn helpers_in_unit(vm: TuiRenderUnit)
    ensures
        count_in(vm).helpers == groups_in(vm).len(),
    decreases vm, 0int,
{
    match vm {
        TuiRenderUnit::TuiSubAgentGroup(g) => {
            helpers_in_list(g.view_models@, g.view_models@.len() as int);
        },
        TuiRenderUnit::TuiCollapsedGroup(g) => {
            helpers_in_list(g.view_models@, g.view_models@.len() as int);
        },
        _ => {},
    }
}

proof fn helpers_in_list(vms: Seq<TuiRenderUnit>, to: int)
    ensures
        count_among(vms, to).helpers == groups_among(vms, to).len(),
    decreases vms, to,
{
    if 0 < to <= vms.len() {
        helpers_in_list(vms, to - 1);
        helpers_in_unit(vms[to - 1]);
    }
}

/// The groups of helpers counted are those that can be looked at, however deep they
/// stand.
pub proof fn every_group_is_counted(s: ViewModelsSnapshot)
    ensures
        count_among(s.items@, s.items@.len() as int).helpers == groups(s).len(),
{
    helpers_in_list(s.items@, s.items@.len() as int);
}

/// How many units of each sort a timeline holds.
#[derive(Debug, Clone, Copy, PartialEq, Eq, Structural)]
pub struct VmStats {
    pub total: usize,
    pub user_bubbles: usize,
    pub assistant_bubbles: usize,
    pub tool_cards: usize,
    pub subagent_groups: usize,
    pub system_notes: usize,
}

/// How many units of each sort a timeline holds, and how many in all, abstractly.
pub struct VmStatsV {
    pub total: int,
    pub counts: StatsV,
}

impl View for VmStats {
    type V = VmStatsV;

    open spec fn view(&self) -> VmStatsV {
        VmStatsV { total: self.total as int, counts: self.counts() }
    }
}

impl VmStats {
    /// How many units of each sort were counted.
    pub open spec fn counts(self) -> StatsV {
        StatsV {
            user: self.user_bubbles as int,
            assistant: self.assistant_bubbles as int,
            tools: self.tool_cards as int,
            helpers: self.subagent_groups as int,
            notes: self.system_notes as int,
        }
    }
}

fn count_vm(vm: &TuiRenderUnit, s: &mut VmStats)
    requires
        old(s).counts().total() + count_in(*vm).total() <= usize::MAX,
    ensures
        final(s).counts() == old(s).counts().plus(count_in(*vm)),
    decreases vm, 0int,
{
    match vm {
        TuiRenderUnit::TuiUserBubble(_) => {
            s.user_bubbles = s.user_bubbles + 1;
        },
        TuiRenderUnit::TuiAssistantBubble => {
            s.assistant_bubbles = s.assistant_bubbles + 1;
        },
        TuiRenderUnit::TuiToolCard => {
            s.tool_cards = s.tool_cards + 1;
        },
        TuiRenderUnit::TuiSubAgentGroup(g) => {
            proof {
                sums_are_natural(g.view_models@, g.view_models@.len() as int);
            }
            s.subagent_groups = s.subagent_groups + 1;
            count_list(&g.view_models, s);
        },
        TuiRenderUnit::TuiSystemNote => {
            s.system_notes = s.system_notes + 1;
        },
        TuiRenderUnit::TuiCollapsedGroup(g) => {
            count_list(&g.view_models, s);
        },
        TuiRenderUnit::Other => {},
    }
}

fn count_list(vms: &Vec<TuiRenderUnit>, s: &mut VmStats)
    requires
        old(s).counts().total() + count_among(vms@, vms@.len() as int).total() <= usize::MAX,
    ensures
        final(s).counts() == old(s).counts().plus(count_among(vms@, vms@.len() as int)),
    decreases vms, vms@.len(),
{
    let ghost before = s.counts();
    let mut i: usize = 0;
    while i < vms.len()
        invariant
            i <= vms@.len(),
            before.total() + count_among(vms@, vms@.len() as int).total() <= usize::MAX,
            s.counts() == before.plus(count_among(vms@, i as int)),
        decreases vms.len() - i,
    {
        proof {
            sums_grow(vms@, i + 1, vms@.len() as int);
        }
        assert(decreases_to!(vms => vms@[i as int]));
        count_vm(&vms[i], s);
        i = i + 1;
    }
}

/// How many units of each sort a timeline holds, and how many in all.
pub fn derive_vm_stats(snap: &ViewModelsSnapshot) -> (s: VmStats)
    requires
        count_among(snap.items@, snap.items@.len() as int).total() <= usize::MAX,
    ensures
        s@.counts == count_among(snap.items@, snap.items@.len() as int),
        s@.total == s@.counts.total(),
{
    let mut s = VmStats {
        total: 0,
        user_bubbles: 0,
        assistant_bubbles: 0,
        tool_cards: 0,
        subagent_groups: 0,
        system_notes: 0,
    };
    count_list(&snap.items, &mut s);
    let all: usize = s.user_bubbles + s.assistant_bubbles + s.tool_cards + s.subagent_groups
        + s.system_notes;
    VmStats { total: all, ..s }
}

// ── What is shown ──────────────────────────────────────────────────────────

/// The state of the program. The load of the processor is given as it is written.
#[derive(Debug)]
pub struct ServiceInfo {
    pub provider_name: String,
    pub model_alias: String,
    pub permission_mode: String,
    pub cpu_percent: String,
    pub memory_mb: u64,
    pub mcp: McpPool,
    pub cron_total: u64,
    pub cron_enabled: u64,
    pub cwd: String,
}

/// The text, or a message where there is none.
pub open spec fn or_message(s: Seq<char>, key: Seq<char>, style: Style) -> PieceV {
    if s.len() == 0 {
        msg(key, style)
    } else {
        lit(s, style)
    }
}

/// The name of a phase.
pub open spec fn phase_name(p: McpInitPhase) -> Seq<char> {
    match p {
        McpInitPhase::Pending => "pending"@,
        McpInitPhase::Initializing => "initializing"@,
        McpInitPhase::Ready => "ready"@,
        McpInitPhase::Failed => "failed"@,
    }
}

/// A line of the panel: a name and a value.
pub open spec fn field_line(key: Seq<char>, value: PieceV) -> LineV {
    seq![msg(key, fg(Color::Muted)), value]
}

/// The mode, `default` where none is reported.
pub open spec fn mode_text(s: Seq<char>) -> Seq<char> {
    if s.len() == 0 {
        "default"@
    } else {
        s
    }
}

/// What is shown of the program.
pub open spec fn service_lines(i: ServiceInfo) -> Seq<LineV> {
    seq![
        field_line(
            "status-label-provider"@,
            or_message(i.provider_name@, "app-not-configured"@, bold(Color::Primary)),
        ),
        field_line(
            "status-label-model"@,
            or_message(i.model_alias@, "app-empty"@, bold(Color::Primary)),
        ),
        field_line(
            "status-label-permission"@,
            lit(mode_text(i.permission_mode@), bold(Color::BorderActive)),
        ),
        blank(),
        field_line("status-label-cpu"@, lit(i.cpu_percent@ + "%"@, fg(Color::Primary))),
        field_line(
            "status-label-memory"@,
            lit(decimal(i.memory_mb as nat) + " MB"@, fg(Color::Primary)),
        ),
        seq![
            msg("status-label-mcp"@, fg(Color::Muted)),
            lit(
                decimal(i.mcp.connected as nat) + "/"@ + decimal(i.mcp.total as nat)
                    + " connected"@,
                fg(Color::Success),
            ),
            lit("  ["@ + phase_name(i.mcp.init_phase) + "]"@, fg(Color::Muted)),
        ],
        field_line(
            "status-label-cron"@,
            lit(
                decimal(i.cron_total as nat) + " ("@ + decimal(i.cron_enabled as nat)
                    + " enabled)"@,
                fg(Color::Primary),
            ),
        ),
        blank(),
        field_line("status-label-cwd"@, lit(i.cwd@, fg(Color::Primary))),
    ]
}

/// What is shown of the session.
pub open spec fn context_lines(s: VmStatsV) -> Seq<LineV> {
    seq![
        field_line("status-label-total-vms"@, lit(decimal(s.total as nat), bold(Color::Primary))),
        field_line("status-label-user-turns"@, lit(decimal(s.counts.user as nat), fg(Color::Primary))),
        field_line(
            "status-label-assistant-turns"@,
            lit(decimal(s.counts.assistant as nat), fg(Color::Primary)),
        ),
        field_line("status-label-tool-calls"@, lit(decimal(s.counts.tools as nat), fg(Color::Primary))),
        field_line(
            "status-label-subagent-groups"@,
            lit(decimal(s.counts.helpers as nat), fg(Color::Primary)),
        ),
        field_line("status-label-system-notes"@, lit(decimal(s.counts.notes as nat), fg(Color::Primary))),
        blank(),
        seq![
            lit(
                "  Token-level budget requires ACP stream; VM counts shown here are derived locally."@,
                italic(Color::Dim),
            ),
        ],
    ]
}

/// The bar of the tabs.
pub open spec fn tab_bar(tab: StatusTab) -> LineV {
    seq![
        msg(
            "status-tab-service"@,
            if tab == StatusTab::Service {
                on(Color::Primary, Back::Title)
            } else {
                fg(Color::Muted)
            },
        ),
        msg(
            "status-tab-context"@,
            if tab == StatusTab::Context {
                on(Color::Primary, Back::Title)
            } else {
                fg(Color::Muted)
            },
        ),
    ]
}

/// What the panel shows below the bar.
pub open spec fn status_lines(tab: StatusTab, i: ServiceInfo, s: VmStatsV) -> Seq<LineV> {
    seq![blank()] + (match tab {
        StatusTab::Service => service_lines(i),
        StatusTab::Context => context_lines(s),
    }) + seq![blank(), seq![msg("panel-status-nav-hint"@, fg(Color::Dim))]]
}

fn show_field(key: &str, value: Piece) -> (l: Line)
    ensures
        l@ == field_line(key@, value@),
{
    Line::of2(Piece::msg(key, Style::fg(Color::Muted)), value)
}

fn text_or_message(s: &str, key: &str, style: Style) -> (p: Piece)
    ensures
        p@ == or_message(s@, key@, style),
{
    if s.is_empty() {
        Piece::msg(key, style)
    } else {
        Piece::lit(s, style)
    }
}

fn show_service(i: &ServiceInfo) -> (d: Doc)
    ensures
        d@ == service_lines(*i),
{
    let plain = Style::fg(Color::Primary);
    let mut d = Doc::new();
    d.push(
        show_field(
            "status-label-provider",
            text_or_message(
                i.provider_name.as_str(),
                "app-not-configured",
                Style::bold(Color::Primary),
            ),
        ),
    );
    d.push(
        show_field(
            "status-label-model",
            text_or_message(i.model_alias.as_str(), "app-empty", Style::bold(Color::Primary)),
        ),
    );
    let mode = if i.permission_mode.as_str().is_empty() {
        "default"
    } else {
        i.permission_mode.as_str()
    };
    d.push(
        show_field("status-label-permission", Piece::lit(mode, Style::bold(Color::BorderActive))),
    );
    d.blank();
    d.push(
        show_field("status-label-cpu", Piece::text(cat(i.cpu_percent.as_str(), "%"), plain)),
    );
    d.push(
        show_field(
            "status-label-memory",
            Piece::text(cat(decimal_text(i.memory_mb).as_str(), " MB"), plain),
        ),
    );
    let phase = match i.mcp.init_phase {
        McpInitPhase::Pending => "pending",
        McpInitPhase::Initializing => "initializing",
        McpInitPhase::Ready => "ready",
        McpInitPhase::Failed => "failed",
    };
    d.push(
        Line::of3(
            Piece::msg("status-label-mcp", Style::fg(Color::Muted)),
            Piece::text(
                cat4(
                    decimal_text(i.mcp.connected as u64).as_str(),
                    "/",
                    decimal_text(i.mcp.total as u64).as_str(),
                    " connected",
                ),
                Style::fg(Color::Success),
            ),
            Piece::text(cat3("  [", phase, "]"), Style::fg(Color::Muted)),
        ),
    );
    d.push(
        show_field(
            "status-label-cron",
            Piece::text(
                cat4(
                    decimal_text(i.cron_total).as_str(),
                    " (",
                    decimal_text(i.cron_enabled).as_str(),
                    " enabled)",
                ),
                plain,
            ),
        ),
    );
    d.blank();
    d.push(show_field("status-label-cwd", Piece::lit(i.cwd.as_str(), plain)));
    assert(d@ =~= service_lines(*i));
    d
}

fn show_count(key: &str, n: usize, style: Style) -> (l: Line)
    ensures
        l@ == field_line(key@, lit(decimal(n as nat), style)),
{
    show_field(key, Piece::text(decimal_text(n as u64), style))
}

fn show_context(s: &VmStats) -> (d: Doc)
    ensures
        d@ == context_lines(s@),
{
    let plain = Style::fg(Color::Primary);
    let mut d = Doc::new();
    d.push(show_count("status-label-total-vms", s.total, Style::bold(Color::Primary)));
    d.push(show_count("status-label-user-turns", s.user_bubbles, plain));
    d.push(show_count("status-label-assistant-turns", s.assistant_bubbles, plain));
    d.push(show_count("status-label-tool-calls", s.tool_cards, plain));
    d.push(show_count("status-label-subagent-groups", s.subagent_groups, plain));
    d.push(show_count("status-label-system-notes", s.system_notes, plain));
    d.blank();
    d.line(
        Piece::lit(
            "  Token-level budget requires ACP stream; VM counts shown here are derived locally.",
            Style::italic(Color::Dim),
        ),
    );
    assert(d@ =~= context_lines(s@));
    d
}

impl StatusPanel {
    /// The bar of the tabs.
    pub fn bar(&self) -> (l: Line)
        ensures
            l@ == tab_bar(self.tab),
    {
        let active = Style::on(Color::Primary, Back::Title);
        let other = Style::fg(Color::Muted);
        Line::of2(
            Piece::msg(
                "status-tab-service",
                if self.tab == StatusTab::Service {
                    active
                } else {
                    other
                },
            ),
            Piece::msg(
                "status-tab-context",
                if self.tab == StatusTab::Context {
                    active
                } else {
                    other
                },
            ),
        )
    }

    /// What the panel shows below the bar.
    pub fn lines(&self, info: &ServiceInfo, stats: &VmStats) -> (d: Doc)
        ensures
            d@ == status_lines(self.tab, *info, stats@),
    {
        let mut d = Doc::new();
        d.blank();
        d.extend(
            match self.tab {
                StatusTab::Service => show_service(info),
                StatusTab::Context => show_context(stats),
            },
        );
        d.blank();
        d.line(Piece::msg("panel-status-nav-hint", Style::fg(Color::Dim)));
        assert(d@ =~= status_lines(self.tab, *info, stats@));
        d
    }
}

} // verus!
