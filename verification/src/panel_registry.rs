//! The panels: what is registered of each, and which are open.

use crate::event::KeyCode;
use crate::panels::ask_user::types::{InteractionOwner, OwnerV, PendingInteraction};
use crate::text::opt_view;
use vstd::prelude::*;

verus! {

/// A panel.
#[derive(Debug, Clone, Copy, PartialEq, Eq, Structural)]
pub enum PanelKind {
    Model,
    Login,
    Agent,
    Hooks,
    Config,
    ThreadBrowser,
    Mcp,
    Plugin,
    Cron,
    Status,
    Memory,
    Tasks,
    Betas,
    Workflow,
    AskUser,
    Theme,
    SubAgentDetail,
    ShellDetail,
    Goal,
}

/// Panels of one group replace each other.
#[derive(Debug, Clone, Copy, PartialEq, Eq, Structural)]
pub enum MutexGroup {
    Settings,
    Agent,
    Extensions,
    Session,
    Tools,
    Question,
}

/// What a panel is about: the session, or the program.
#[derive(Debug, Clone, Copy, PartialEq, Eq, Structural)]
pub enum PanelScope {
    Global,
    Session,
}

/// How many panels there are.
pub const PANEL_COUNT: u8 = 19;

/// What is registered of a panel. A letter of zero and an empty command mean that there is
/// none.
#[derive(Debug, Clone, Copy)]
pub struct PanelMeta {
    pub kind: PanelKind,
    pub shortcut_letter: char,
    pub slash_command: &'static str,
    pub mutex_group: MutexGroup,
    pub scope: PanelScope,
    pub priority: u8,
}

/// What is registered of a panel, abstractly.
pub struct MetaV {
    pub kind: PanelKind,
    pub letter: char,
    pub command: Seq<char>,
    pub group: MutexGroup,
    pub scope: PanelScope,
    pub priority: u8,
}

impl View for PanelMeta {
    type V = MetaV;

    open spec fn view(&self) -> MetaV {
        MetaV {
            kind: self.kind,
            letter: self.shortcut_letter,
            command: self.slash_command@,
            group: self.mutex_group,
            scope: self.scope,
            priority: self.priority,
        }
    }
}

/// The letter that opens a panel together with Ctrl.
pub open spec fn letter_of(kind: PanelKind) -> char {
    if kind == PanelKind::Model {
        'm'
    } else {
        '\0'
    }
}

/// The command that opens a panel.
pub open spec fn command_of(kind: PanelKind) -> Seq<char> {
    match kind {
        PanelKind::Model => "model"@,
        PanelKind::Login => "login"@,
        PanelKind::Agent => "agent"@,
        PanelKind::Hooks => "hooks"@,
        PanelKind::Config => "config"@,
        PanelKind::ThreadBrowser => "threads"@,
        PanelKind::Mcp => "mcp"@,
        PanelKind::Plugin => "plugin"@,
        PanelKind::Cron => "cron-list"@,
        PanelKind::Status => "status"@,
        PanelKind::Memory => "memory"@,
        PanelKind::Tasks => "tasks"@,
        PanelKind::Betas => "betas"@,
        PanelKind::Workflow => "workflow"@,
        PanelKind::AskUser => ""@,
        PanelKind::Theme => "theme"@,
        PanelKind::SubAgentDetail => ""@,
        PanelKind::ShellDetail => ""@,
        PanelKind::Goal => "goal"@,
    }
}

/// The group of a panel.
pub open spec fn group_of(kind: PanelKind) -> MutexGroup {
    match kind {
        PanelKind::Model | PanelKind::Login | PanelKind::Config | PanelKind::Betas | PanelKind::Theme => MutexGroup::Settings,
        PanelKind::Agent | PanelKind::SubAgentDetail => MutexGroup::Agent,
        PanelKind::Hooks | PanelKind::Mcp | PanelKind::Plugin => MutexGroup::Extensions,
        PanelKind::ThreadBrowser | PanelKind::Status | PanelKind::Memory | PanelKind::Goal => MutexGroup::Session,
        PanelKind::Cron | PanelKind::Tasks | PanelKind::Workflow | PanelKind::ShellDetail => MutexGroup::Tools,
        PanelKind::AskUser => MutexGroup::Question,
    }
}

/// What a panel is about.
pub open spec fn scope_of(kind: PanelKind) -> PanelScope {
    match kind {
        PanelKind::Model | PanelKind::Login | PanelKind::Agent | PanelKind::Hooks | PanelKind::Config | PanelKind::Mcp | PanelKind::Plugin | PanelKind::Cron | PanelKind::Memory | PanelKind::Betas | PanelKind::Workflow | PanelKind::Theme => PanelScope::Global,
        PanelKind::ThreadBrowser | PanelKind::Status | PanelKind::Tasks | PanelKind::AskUser | PanelKind::SubAgentDetail | PanelKind::ShellDetail | PanelKind::Goal => PanelScope::Session,
    }
}

/// The place of a panel among all.
pub open spec fn place_of(kind: PanelKind) -> u8 {
    match kind {
        PanelKind::Model => 0,
        PanelKind::Login => 1,
        PanelKind::Agent => 2,
        PanelKind::Hooks => 3,
        PanelKind::Config => 4,
        PanelKind::ThreadBrowser => 5,
        PanelKind::Mcp => 6,
        PanelKind::Plugin => 7,
        PanelKind::Cron => 8,
        PanelKind::Status => 9,
        PanelKind::Memory => 10,
        PanelKind::Tasks => 11,
        PanelKind::Betas => 12,
        PanelKind::Workflow => 13,
        PanelKind::AskUser => 14,
        PanelKind::Theme => 15,
        PanelKind::SubAgentDetail => 16,
        PanelKind::ShellDetail => 17,
        PanelKind::Goal => 18,
    }
}

/// What is registered of a panel.
pub open spec fn meta_of(kind: PanelKind) -> MetaV {
    MetaV {
        kind,
        letter: letter_of(kind),
        command: command_of(kind),
        group: group_of(kind),
        scope: scope_of(kind),
        priority: place_of(kind),
    }
}

/// The panel at a place.
pub open spec fn kind_at(i: int) -> PanelKind {
    if i == 0 {
        PanelKind::Model
    } else if i == 1 {
        PanelKind::Login
    } else if i == 2 {
        PanelKind::Agent
    } else if i == 3 {
        PanelKind::Hooks
    } else if i == 4 {
        PanelKind::Config
    } else if i == 5 {
        PanelKind::ThreadBrowser
    } else if i == 6 {
        PanelKind::Mcp
    } else if i == 7 {
        PanelKind::Plugin
    } else if i == 8 {
        PanelKind::Cron
    } else if i == 9 {
        PanelKind::Status
    } else if i == 10 {
        PanelKind::Memory
    } else if i == 11 {
        PanelKind::Tasks
    } else if i == 12 {
        PanelKind::Betas
    } else if i == 13 {
        PanelKind::Workflow
    } else if i == 14 {
        PanelKind::AskUser
    } else if i == 15 {
        PanelKind::Theme
    } else if i == 16 {
        PanelKind::SubAgentDetail
    } else if i == 17 {
        PanelKind::ShellDetail
    } else {
        PanelKind::Goal
    }
}

/// The group of a panel.
pub fn mutex_group(kind: PanelKind) -> (g: MutexGroup)
    ensures
        g == group_of(kind),
{
    match kind {
        PanelKind::Model | PanelKind::Login | PanelKind::Config | PanelKind::Betas | PanelKind::Theme => MutexGroup::Settings,
        PanelKind::Agent | PanelKind::SubAgentDetail => MutexGroup::Agent,
        PanelKind::Hooks | PanelKind::Mcp | PanelKind::Plugin => MutexGroup::Extensions,
        PanelKind::ThreadBrowser | PanelKind::Status | PanelKind::Memory | PanelKind::Goal => MutexGroup::Session,
        PanelKind::Cron | PanelKind::Tasks | PanelKind::Workflow | PanelKind::ShellDetail => MutexGroup::Tools,
        PanelKind::AskUser => MutexGroup::Question,
    }
}

/// What is registered of a panel: there is something of each.
pub fn meta(kind: PanelKind) -> (m: Option<PanelMeta>)
    ensures
        m is Some,
        m->0@ == meta_of(kind),
{
    let slash_command = match kind {
        PanelKind::Model => "model",
        PanelKind::Login => "login",
        PanelKind::Agent => "agent",
        PanelKind::Hooks => "hooks",
        PanelKind::Config => "config",
        PanelKind::ThreadBrowser => "threads",
        PanelKind::Mcp => "mcp",
        PanelKind::Plugin => "plugin",
        PanelKind::Cron => "cron-list",
        PanelKind::Status => "status",
        PanelKind::Memory => "memory",
        PanelKind::Tasks => "tasks",
        PanelKind::Betas => "betas",
        PanelKind::Workflow => "workflow",
        PanelKind::AskUser => "",
        PanelKind::Theme => "theme",
        PanelKind::SubAgentDetail => "",
        PanelKind::ShellDetail => "",
        PanelKind::Goal => "goal",
    };
    let priority: u8 = match kind {
        PanelKind::Model => 0,
        PanelKind::Login => 1,
        PanelKind::Agent => 2,
        PanelKind::Hooks => 3,
        PanelKind::Config => 4,
        PanelKind::ThreadBrowser => 5,
        PanelKind::Mcp => 6,
        PanelKind::Plugin => 7,
        PanelKind::Cron => 8,
        PanelKind::Status => 9,
        PanelKind::Memory => 10,
        PanelKind::Tasks => 11,
        PanelKind::Betas => 12,
        PanelKind::Workflow => 13,
        PanelKind::AskUser => 14,
        PanelKind::Theme => 15,
        PanelKind::SubAgentDetail => 16,
        PanelKind::ShellDetail => 17,
        PanelKind::Goal => 18,
    };
    let scope = match kind {
        PanelKind::Model | PanelKind::Login | PanelKind::Agent | PanelKind::Hooks | PanelKind::Config | PanelKind::Mcp | PanelKind::Plugin | PanelKind::Cron | PanelKind::Memory | PanelKind::Betas | PanelKind::Workflow | PanelKind::Theme => PanelScope::Global,
        PanelKind::ThreadBrowser | PanelKind::Status | PanelKind::Tasks | PanelKind::AskUser | PanelKind::SubAgentDetail | PanelKind::ShellDetail | PanelKind::Goal => PanelScope::Session,
    };
    Some(
        PanelMeta {
            kind,
            shortcut_letter: match kind {
                PanelKind::Model => 'm',
                _ => '\0',
            },
            slash_command,
            mutex_group: mutex_group(kind),
            scope,
            priority,
        },
    )
}

fn kind_of_place(i: u8) -> (k: PanelKind)
    ensures
        k == kind_at(i as int),
{
    match i {
        0 => PanelKind::Model,
        1 => PanelKind::Login,
        2 => PanelKind::Agent,
        3 => PanelKind::Hooks,
        4 => PanelKind::Config,
        5 => PanelKind::ThreadBrowser,
        6 => PanelKind::Mcp,
        7 => PanelKind::Plugin,
        8 => PanelKind::Cron,
        9 => PanelKind::Status,
        10 => PanelKind::Memory,
        11 => PanelKind::Tasks,
        12 => PanelKind::Betas,
        13 => PanelKind::Workflow,
        14 => PanelKind::AskUser,
        15 => PanelKind::Theme,
        16 => PanelKind::SubAgentDetail,
        17 => PanelKind::ShellDetail,
        _ => PanelKind::Goal,
    }
}

/// What is registered of all panels, in the order of their places.
pub fn panels() -> (ms: Vec<PanelMeta>)
    ensures
        ms@.len() == PANEL_COUNT,
        forall|i: int| 0 <= i < PANEL_COUNT ==> (#[trigger] ms@[i])@ == meta_of(kind_at(i)),
{
    let mut ms: Vec<PanelMeta> = Vec::new();
    let mut i: u8 = 0;
    while i < PANEL_COUNT
        invariant
            i <= PANEL_COUNT,
            ms@.len() == i,
            forall|j: int| 0 <= j < i ==> (#[trigger] ms@[j])@ == meta_of(kind_at(j)),
        decreases PANEL_COUNT - i,
    {
        match meta(kind_of_place(i)) {
            Some(m) => {
                ms.push(m);
            },
            None => {},
        }
        i = i + 1;
    }
    ms
}

/// The message key of the title of a panel.
pub open spec fn title_of(kind: PanelKind) -> Seq<char> {
    match kind {
        PanelKind::Model => "panel-title-model"@,
        PanelKind::Login => "panel-title-login"@,
        PanelKind::Agent => "panel-title-agent"@,
        PanelKind::Hooks => "panel-title-hooks"@,
        PanelKind::Config => "panel-title-config"@,
        PanelKind::ThreadBrowser => "panel-title-threads"@,
        PanelKind::Mcp => "panel-title-mcp"@,
        PanelKind::Plugin => "panel-title-plugin"@,
        PanelKind::Cron => "panel-title-cron"@,
        PanelKind::Status => "panel-title-status"@,
        PanelKind::Memory => "panel-title-memory"@,
        PanelKind::Tasks => "panel-title-tasks"@,
        PanelKind::Betas => "panel-title-betas"@,
        PanelKind::Workflow => "panel-title-workflow"@,
        PanelKind::AskUser => "panel-title-ask-user"@,
        PanelKind::Theme => "panel-title-theme"@,
        PanelKind::SubAgentDetail => "panel-title-subagent-detail"@,
        PanelKind::ShellDetail => "panel-title-shell-detail"@,
        PanelKind::Goal => "panel-title-goal"@,
    }
}

/// The message key of the title of a panel.
pub fn panel_title(kind: PanelKind) -> (t: &'static str)
    ensures
        t@ == title_of(kind),
{
    match kind {
        PanelKind::Model => "panel-title-model",
        PanelKind::Login => "panel-title-login",
        PanelKind::Agent => "panel-title-agent",
        PanelKind::Hooks => "panel-title-hooks",
        PanelKind::Config => "panel-title-config",
        PanelKind::ThreadBrowser => "panel-title-threads",
        PanelKind::Mcp => "panel-title-mcp",
        PanelKind::Plugin => "panel-title-plugin",
        PanelKind::Cron => "panel-title-cron",
        PanelKind::Status => "panel-title-status",
        PanelKind::Memory => "panel-title-memory",
        PanelKind::Tasks => "panel-title-tasks",
        PanelKind::Betas => "panel-title-betas",
        PanelKind::Workflow => "panel-title-workflow",
        PanelKind::AskUser => "panel-title-ask-user",
        PanelKind::Theme => "panel-title-theme",
        PanelKind::SubAgentDetail => "panel-title-subagent-detail",
        PanelKind::ShellDetail => "panel-title-shell-detail",
        PanelKind::Goal => "panel-title-goal",
    }
}

/// The message key of the description of a panel.
pub open spec fn description_of(kind: PanelKind) -> Seq<char> {
    match kind {
        PanelKind::Model => "panel-desc-model"@,
        PanelKind::Login => "panel-desc-login"@,
        PanelKind::Agent => "panel-desc-agent"@,
        PanelKind::Hooks => "panel-desc-hooks"@,
        PanelKind::Config => "panel-desc-config"@,
        PanelKind::ThreadBrowser => "panel-desc-threads"@,
        PanelKind::Mcp => "panel-desc-mcp"@,
        PanelKind::Plugin => "panel-desc-plugin"@,
        PanelKind::Cron => "panel-desc-cron"@,
        PanelKind::Status => "panel-desc-status"@,
        PanelKind::Memory => "panel-desc-memory"@,
        PanelKind::Tasks => "panel-desc-tasks"@,
        PanelKind::Betas => "panel-desc-betas"@,
        PanelKind::Workflow => "panel-desc-workflow"@,
        PanelKind::AskUser => "panel-desc-ask-user"@,
        PanelKind::Theme => "panel-desc-theme"@,
        PanelKind::SubAgentDetail => "panel-desc-subagent-detail"@,
        PanelKind::ShellDetail => "panel-desc-shell-detail"@,
        PanelKind::Goal => "panel-desc-goal"@,
    }
}

/// The message key of the description of a panel.
pub fn panel_description(kind: PanelKind) -> (t: &'static str)
    ensures
        t@ == description_of(kind),
{
    match kind {
        PanelKind::Model => "panel-desc-model",
        PanelKind::Login => "panel-desc-login",
        PanelKind::Agent => "panel-desc-agent",
        PanelKind::Hooks => "panel-desc-hooks",
        PanelKind::Config => "panel-desc-config",
        PanelKind::ThreadBrowser => "panel-desc-threads",
        PanelKind::Mcp => "panel-desc-mcp",
        PanelKind::Plugin => "panel-desc-plugin",
        PanelKind::Cron => "panel-desc-cron",
        PanelKind::Status => "panel-desc-status",
        PanelKind::Memory => "panel-desc-memory",
        PanelKind::Tasks => "panel-desc-tasks",
        PanelKind::Betas => "panel-desc-betas",
        PanelKind::Workflow => "panel-desc-workflow",
        PanelKind::AskUser => "panel-desc-ask-user",
        PanelKind::Theme => "panel-desc-theme",
        PanelKind::SubAgentDetail => "panel-desc-subagent-detail",
        PanelKind::ShellDetail => "panel-desc-shell-detail",
        PanelKind::Goal => "panel-desc-goal",
    }
}

/// The panel that a letter opens, small or capital.
pub open spec fn panel_for(letter: char) -> Option<PanelKind> {
    if letter == 'm' || letter == 'M' {
        Some(PanelKind::Model)
    } else {
        None
    }
}

/// The panel that a letter opens.
pub fn from_shortcut(letter: char) -> (k: Option<PanelKind>)
    ensures
        k == panel_for(letter),
{
    if letter == 'm' || letter == 'M' {
        Some(PanelKind::Model)
    } else {
        None
    }
}

/// The panel that a key opens together with Ctrl.
pub fn from_key_code(code: KeyCode) -> (k: Option<PanelKind>)
    ensures
        k == (match code {
            KeyCode::Char(c) => panel_for(c),
            _ => None,
        }),
{
    match code {
        KeyCode::Char(c) => from_shortcut(c),
        _ => None,
    }
}

/// Every panel is registered, each at its own place.
pub proof fn every_panel_is_registered(kind: PanelKind)
    ensures
        place_of(kind) < PANEL_COUNT,
        kind_at(place_of(kind) as int) == kind,
{
}

/// A letter opens one panel, the one that it is registered for.
pub proof fn letters_lead_back(a: PanelKind, b: PanelKind)
    ensures
        letter_of(a) != '\0' ==> panel_for(letter_of(a)) == Some(a),
        letter_of(a) != '\0' && letter_of(a) == letter_of(b) ==> a == b,
{
}

proof fn commands_start()
    ensures
        forall|k: PanelKind|
            (#[trigger] command_of(k)).len() > 0 ==> command_of(k).len() == signature(k).0
                && command_of(k)[0] == signature(k).1 && command_of(k)[1] == signature(k).2,
{
    reveal_strlit("model");
    reveal_strlit("login");
    reveal_strlit("agent");
    reveal_strlit("hooks");
    reveal_strlit("config");
    reveal_strlit("threads");
    reveal_strlit("mcp");
    reveal_strlit("plugin");
    reveal_strlit("cron-list");
    reveal_strlit("status");
    reveal_strlit("memory");
    reveal_strlit("tasks");
    reveal_strlit("betas");
    reveal_strlit("workflow");
    reveal_strlit("theme");
    reveal_strlit("goal");
    reveal_strlit("");
}

spec fn signature(kind: PanelKind) -> (int, char, char) {
    match kind {
        PanelKind::Model => (5, 'm', 'o'),
        PanelKind::Login => (5, 'l', 'o'),
        PanelKind::Agent => (5, 'a', 'g'),
        PanelKind::Hooks => (5, 'h', 'o'),
        PanelKind::Config => (6, 'c', 'o'),
        PanelKind::ThreadBrowser => (7, 't', 'h'),
        PanelKind::Mcp => (3, 'm', 'c'),
        PanelKind::Plugin => (6, 'p', 'l'),
        PanelKind::Cron => (9, 'c', 'r'),
        PanelKind::Status => (6, 's', 't'),
        PanelKind::Memory => (6, 'm', 'e'),
        PanelKind::Tasks => (5, 't', 'a'),
        PanelKind::Betas => (5, 'b', 'e'),
        PanelKind::Workflow => (8, 'w', 'o'),
        PanelKind::AskUser => (0, 'x', 'x'),
        PanelKind::Theme => (5, 't', 'h'),
        PanelKind::SubAgentDetail => (0, 'x', 'x'),
        PanelKind::ShellDetail => (0, 'x', 'x'),
        PanelKind::Goal => (4, 'g', 'o'),
    }
}

/// A command opens one panel.
pub proof fn commands_are_unique(a: PanelKind, b: PanelKind)
    ensures
        command_of(a).len() > 0 && command_of(a) == command_of(b) ==> a == b,
{
    commands_start();
    if command_of(a).len() > 0 && command_of(a) == command_of(b) {
        assert(command_of(b).len() > 0);
        assert(signature(a) == signature(b));
    }
}

// ── The open panels ────────────────────────────────────────────────────────

/// The open panels without one.
pub open spec fn without_kind(s: Seq<PanelKind>, kind: PanelKind) -> Seq<PanelKind>
    decreases s.len(),
{
    if s.len() == 0 {
        s
    } else if s.last() == kind {
        without_kind(s.drop_last(), kind)
    } else {
        without_kind(s.drop_last(), kind).push(s.last())
    }
}

/// The open panels without those of a group.
pub open spec fn without_group(s: Seq<PanelKind>, group: MutexGroup) -> Seq<PanelKind>
    decreases s.len(),
{
    if s.len() == 0 {
        s
    } else if group_of(s.last()) == group {
        without_group(s.drop_last(), group)
    } else {
        without_group(s.drop_last(), group).push(s.last())
    }
}

/// The open panels after a panel was opened: one that is open already comes to the top, any
/// other takes the place of those of its group.
pub open spec fn opened(s: Seq<PanelKind>, kind: PanelKind) -> Seq<PanelKind> {
    if s.contains(kind) {
        without_kind(s, kind).push(kind)
    } else {
        without_group(s, group_of(kind)).push(kind)
    }
}

/// The panel on top.
pub open spec fn top(s: Seq<PanelKind>) -> Option<PanelKind> {
    if s.len() == 0 {
        None
    } else {
        Some(s.last())
    }
}

/// The open panels after the one on top was closed.
pub open spec fn popped(s: Seq<PanelKind>) -> Seq<PanelKind> {
    if s.len() == 0 {
        s
    } else {
        s.drop_last()
    }
}

/// The open panels after one was opened, or closed where it was open.
pub open spec fn toggled(s: Seq<PanelKind>, kind: PanelKind) -> Seq<PanelKind> {
    if s.contains(kind) {
        without_kind(s, kind)
    } else {
        opened(s, kind)
    }
}

/// No two panels of one group are open.
pub open spec fn one_per_group(s: Seq<PanelKind>) -> bool {
    forall|i: int, j: int|
        0 <= i < j < s.len() ==> group_of(#[trigger] s[i]) != group_of(#[trigger] s[j])
}

/// The open panels, the active one on top.
#[derive(Debug)]
pub struct OpenPanels {
    pub stack: Vec<PanelKind>,
}

impl View for OpenPanels {
    type V = Seq<PanelKind>;

    open spec fn view(&self) -> Seq<PanelKind> {
        self.stack@
    }
}

impl Default for OpenPanels {
    fn default() -> (p: OpenPanels)
        ensures
            p@ == Seq::<PanelKind>::empty(),
    {
        OpenPanels { stack: Vec::new() }
    }
}

impl OpenPanels {
    /// The active panel.
    pub fn active(&self) -> (k: Option<PanelKind>)
        ensures
            k == top(self@),
    {
        let n: usize = self.stack.len();
        if n == 0 {
            None
        } else {
            Some(self.stack[n - 1])
        }
    }

    /// Whether a panel is open.
    pub fn is_open(&self, kind: PanelKind) -> (b: bool)
        ensures
            b == self@.contains(kind),
    {
        let mut i: usize = 0;
        while i < self.stack.len()
            invariant
                i <= self.stack@.len(),
                forall|j: int| 0 <= j < i ==> self.stack@[j] != kind,
            decreases self.stack.len() - i,
        {
            if self.stack[i] == kind {
                assert(self@[i as int] == kind);
                return true;
            }
            i = i + 1;
        }
        false
    }

    fn remove_kind(&mut self, kind: PanelKind)
        ensures
            final(self)@ == without_kind(old(self)@, kind),
    {
        let mut rest: Vec<PanelKind> = Vec::new();
        let mut i: usize = 0;
        let ghost all = self.stack@;
        while i < self.stack.len()
            invariant
                i <= all.len(),
                self.stack@ == all,
                rest@ == without_kind(all.take(i as int), kind),
            decreases all.len() - i,
        {
            let k = self.stack[i];
            assert(all.take(i + 1).drop_last() =~= all.take(i as int));
            if k != kind {
                rest.push(k);
            }
            i = i + 1;
        }
        assert(all.take(i as int) =~= all);
        self.stack = rest;
    }

    fn remove_group(&mut self, group: MutexGroup)
        ensures
            final(self)@ == without_group(old(self)@, group),
    {
        let mut rest: Vec<PanelKind> = Vec::new();
        let mut i: usize = 0;
        let ghost all = self.stack@;
        while i < self.stack.len()
            invariant
                i <= all.len(),
                self.stack@ == all,
                rest@ == without_group(all.take(i as int), group),
            decreases all.len() - i,
        {
            let k = self.stack[i];
            assert(all.take(i + 1).drop_last() =~= all.take(i as int));
            if mutex_group(k) != group {
                rest.push(k);
            }
            i = i + 1;
        }
        assert(all.take(i as int) =~= all);
        self.stack = rest;
    }

    /// Opens a panel, or brings it to the top.
    pub fn open_panel(&mut self, kind: PanelKind)
        ensures
            final(self)@ == opened(old(self)@, kind),
    {
        if self.is_open(kind) {
            self.remove_kind(kind);
        } else {
            self.remove_group(mutex_group(kind));
        }
        self.stack.push(kind);
    }

    /// Closes the active panel and gives it.
    pub fn close_active_panel(&mut self) -> (k: Option<PanelKind>)
        ensures
            k == top(old(self)@),
            final(self)@ == popped(old(self)@),
    {
        self.stack.pop()
    }

    /// Closes a panel; gives whether it was open.
    pub fn close_panel(&mut self, kind: PanelKind) -> (b: bool)
        ensures
            b == old(self)@.contains(kind),
            final(self)@ == without_kind(old(self)@, kind),
    {
        let open = self.is_open(kind);
        self.remove_kind(kind);
        open
    }

    /// Opens a panel, or closes it where it is open; gives whether it is open then.
    pub fn toggle_panel(&mut self, kind: PanelKind) -> (b: bool)
        ensures
            b == !old(self)@.contains(kind),
            final(self)@ == toggled(old(self)@, kind),
    {
        if self.is_open(kind) {
            self.remove_kind(kind);
            false
        } else {
            self.open_panel(kind);
            true
        }
    }

    /// Closes all panels.
    pub fn close_all_panels(&mut self)
        ensures
            final(self)@ == Seq::<PanelKind>::empty(),
    {
        self.stack = Vec::new();
    }

    /// Ends a request of an owner: only a request of this owner is taken back, and only
    /// then is the panel with its questions closed.
    pub fn close_ask_user_panel_for_owner(
        &mut self,
        pending: &mut Option<PendingInteraction>,
        owner: &InteractionOwner,
    )
        ensures
            asked_by(*old(pending), owner@) ==> *final(pending) is None && final(self)@
                == without_kind(old(self)@, PanelKind::AskUser),
            !asked_by(*old(pending), owner@) ==> *final(pending) == *old(pending) && *final(self)
                == *old(self),
    {
        let mine = match pending {
            Some(p) => p.owner.is(owner),
            None => false,
        };
        if mine {
            *pending = None;
            self.remove_kind(PanelKind::AskUser);
        }
    }
}

/// The request that waits is one of this owner.
pub open spec fn asked_by(pending: Option<PendingInteraction>, owner: OwnerV) -> bool {
    pending is Some && pending->0.owner@ == owner
}

// ── Laws ───────────────────────────────────────────────────────────────────

proof fn kind_is_gone(s: Seq<PanelKind>, kind: PanelKind)
    ensures
        !without_kind(s, kind).contains(kind),
        forall|k: PanelKind|
            #[trigger] without_kind(s, kind).contains(k) ==> s.contains(k) && k != kind,
        one_per_group(s) ==> one_per_group(without_kind(s, kind)),
        !s.contains(kind) ==> without_kind(s, kind) == s,
    decreases s.len(),
{
    if s.len() > 0 {
        let rest = s.drop_last();
        kind_is_gone(rest, kind);
        let t = without_kind(rest, kind);
        assert forall|k: PanelKind| #[trigger] without_kind(s, kind).contains(k) implies s.contains(
            k,
        ) && k != kind by {
            let i = choose|i: int|
                0 <= i < without_kind(s, kind).len() && without_kind(s, kind)[i] == k;
            if s.last() == kind || i < t.len() {
                assert(t[i] == k);
                assert(t.contains(k));
                let j = choose|j: int| 0 <= j < rest.len() && rest[j] == k;
                assert(s[j] == k);
            } else {
                assert(s[s.len() - 1] == k);
            }
        }
        if one_per_group(s) {
            assert(one_per_group(rest)) by {
                assert forall|i: int, j: int| 0 <= i < j < rest.len() implies group_of(
                    #[trigger] rest[i],
                ) != group_of(#[trigger] rest[j]) by {
                    assert(rest[i] == s[i] && rest[j] == s[j]);
                }
            }
            if s.last() != kind {
                assert forall|i: int| 0 <= i < t.len() implies group_of(#[trigger] t[i])
                    != group_of(s.last()) by {
                    assert(t.contains(t[i]));
                    let j = choose|j: int| 0 <= j < rest.len() && rest[j] == t[i];
                    assert(s[j] == t[i]);
                    assert(group_of(s[j]) != group_of(s[s.len() - 1]));
                }
            }
        }
        if !s.contains(kind) {
            assert(s[s.len() - 1] != kind);
            assert(!rest.contains(kind)) by {
                if rest.contains(kind) {
                    let j = choose|j: int| 0 <= j < rest.len() && rest[j] == kind;
                    assert(s[j] == kind);
                }
            }
            assert(without_kind(s, kind) =~= s);
        }
    }
}

proof fn group_is_gone(s: Seq<PanelKind>, group: MutexGroup)
    ensures
        forall|k: PanelKind|
            #[trigger] without_group(s, group).contains(k) ==> s.contains(k) && group_of(k)
                != group,
        one_per_group(s) ==> one_per_group(without_group(s, group)),
        (forall|i: int| 0 <= i < s.len() ==> group_of(#[trigger] s[i]) != group)
            ==> without_group(s, group) == s,
    decreases s.len(),
{
    if s.len() > 0 {
        let rest = s.drop_last();
        group_is_gone(rest, group);
        let t = without_group(rest, group);
        assert forall|k: PanelKind| #[trigger]
            without_group(s, group).contains(k) implies s.contains(k) && group_of(k) != group by {
            let i = choose|i: int|
                0 <= i < without_group(s, group).len() && without_group(s, group)[i] == k;
            if group_of(s.last()) == group || i < t.len() {
                assert(t[i] == k);
                assert(t.contains(k));
                let j = choose|j: int| 0 <= j < rest.len() && rest[j] == k;
                assert(s[j] == k);
            } else {
                assert(s[s.len() - 1] == k);
            }
        }
        if one_per_group(s) {
            assert(one_per_group(rest)) by {
                assert forall|i: int, j: int| 0 <= i < j < rest.len() implies group_of(
                    #[trigger] rest[i],
                ) != group_of(#[trigger] rest[j]) by {
                    assert(rest[i] == s[i] && rest[j] == s[j]);
                }
            }
            if group_of(s.last()) != group {
                assert forall|i: int| 0 <= i < t.len() implies group_of(#[trigger] t[i])
                    != group_of(s.last()) by {
                    assert(t.contains(t[i]));
                    let j = choose|j: int| 0 <= j < rest.len() && rest[j] == t[i];
                    assert(s[j] == t[i]);
                    assert(group_of(s[j]) != group_of(s[s.len() - 1]));
                }
            }
        }
        if forall|i: int| 0 <= i < s.len() ==> group_of(#[trigger] s[i]) != group {
            assert(group_of(s[s.len() - 1]) != group);
            assert forall|i: int| 0 <= i < rest.len() implies group_of(#[trigger] rest[i])
                != group by {
                assert(rest[i] == s[i]);
            }
            assert(without_group(s, group) =~= s);
        }
    }
}

/// Whatever is done, at most one panel of a group is open, so none is open twice.
pub proof fn one_of_a_group_is_open(s: Seq<PanelKind>, kind: PanelKind)
    requires
        one_per_group(s),
    ensures
        one_per_group(opened(s, kind)),
        one_per_group(popped(s)),
        one_per_group(without_kind(s, kind)),
        one_per_group(toggled(s, kind)),
        one_per_group(Seq::<PanelKind>::empty()),
{
    kind_is_gone(s, kind);
    group_is_gone(s, group_of(kind));
    let t = if s.contains(kind) {
        without_kind(s, kind)
    } else {
        without_group(s, group_of(kind))
    };
    assert forall|i: int| 0 <= i < t.len() implies group_of(#[trigger] t[i]) != group_of(kind) by {
        assert(t.contains(t[i]));
        if s.contains(kind) {
            let a = choose|a: int| 0 <= a < s.len() && s[a] == kind;
            let b = choose|b: int| 0 <= b < s.len() && s[b] == t[i];
            assert(s[a] != s[b]);
            if a < b {
                assert(group_of(s[a]) != group_of(s[b]));
            } else {
                assert(group_of(s[b]) != group_of(s[a]));
            }
        }
    }
    if s.len() > 0 {
        let rest = s.drop_last();
        assert forall|i: int, j: int| 0 <= i < j < rest.len() implies group_of(#[trigger] rest[i])
            != group_of(#[trigger] rest[j]) by {
            assert(rest[i] == s[i] && rest[j] == s[j]);
        }
    }
}

/// A panel that is opened is the active one; one that is closed is not open.
pub proof fn what_is_opened_is_active(s: Seq<PanelKind>, kind: PanelKind)
    ensures
        top(opened(s, kind)) == Some(kind),
        !without_kind(s, kind).contains(kind),
{
    kind_is_gone(s, kind);
}

/// Where no panel of its group is open, a panel that is opened and closed again leaves the
/// others as they were.
pub proof fn closing_undoes_opening(s: Seq<PanelKind>, kind: PanelKind)
    requires
        forall|i: int| 0 <= i < s.len() ==> group_of(#[trigger] s[i]) != group_of(kind),
    ensures
        popped(opened(s, kind)) == s,
        toggled(toggled(s, kind), kind) == s,
{
    assert(!s.contains(kind));
    group_is_gone(s, group_of(kind));
    let t = opened(s, kind);
    assert(t[s.len() as int] == kind);
    assert(t.contains(kind));
    kind_is_gone(s, kind);
    assert(t.drop_last() =~= s);
}

// ── Background tasks ───────────────────────────────────────────────────────

/// Where a click on a background task leads.
#[derive(Debug)]
pub enum BgTaskClickRoute {
    Shell { task_id: String },
    Workflow { run_id: String },
    SubAgent { subagent_id: String },
}

/// Where a click leads, abstractly.
pub enum RouteV {
    Shell(Seq<char>),
    Workflow(Seq<char>),
    SubAgent(Seq<char>),
}

impl View for BgTaskClickRoute {
    type V = RouteV;

    open spec fn view(&self) -> RouteV {
        match *self {
            BgTaskClickRoute::Shell { task_id } => RouteV::Shell(task_id@),
            BgTaskClickRoute::Workflow { run_id } => RouteV::Workflow(run_id@),
            BgTaskClickRoute::SubAgent { subagent_id } => RouteV::SubAgent(subagent_id@),
        }
    }
}

/// The task, the run and the helper that the panels show.
#[derive(Debug)]
pub struct Selection {
    pub bg_task_id: Option<String>,
    pub workflow_run_id: Option<String>,
    pub subagent_id: Option<String>,
}

/// What the panels show, abstractly.
pub struct SelectionV {
    pub task: Option<Seq<char>>,
    pub run: Option<Seq<char>>,
    pub subagent: Option<Seq<char>>,
}

impl View for Selection {
    type V = SelectionV;

    open spec fn view(&self) -> SelectionV {
        SelectionV {
            task: opt_view(self.bg_task_id),
            run: opt_view(self.workflow_run_id),
            subagent: opt_view(self.subagent_id),
        }
    }
}

impl Default for Selection {
    fn default() -> (s: Selection)
        ensures
            s@ == (SelectionV { task: None, run: None, subagent: None }),
    {
        Selection { bg_task_id: None, workflow_run_id: None, subagent_id: None }
    }
}

/// What a click on a background task leads to: the task is selected and its panel opened.
pub open spec fn routed(s: Seq<PanelKind>, sel: SelectionV, route: RouteV) -> (
    Seq<PanelKind>,
    SelectionV,
) {
    match route {
        RouteV::Shell(id) => (
            opened(s, PanelKind::ShellDetail),
            SelectionV { task: Some(id), ..sel },
        ),
        RouteV::Workflow(id) => (
            opened(s, PanelKind::Workflow),
            SelectionV { run: Some(id), ..sel },
        ),
        RouteV::SubAgent(id) => (
            opened(s, PanelKind::SubAgentDetail),
            SelectionV { subagent: Some(id), ..sel },
        ),
    }
}

/// Follows a click on a background task.
pub fn apply_bg_task_click_route(
    panels: &mut OpenPanels,
    selection: &mut Selection,
    route: BgTaskClickRoute,
)
    ensures
        (final(panels)@, final(selection)@) == routed(old(panels)@, old(selection)@, route@),
{
    match route {
        BgTaskClickRoute::Shell { task_id } => {
            selection.bg_task_id = Some(task_id);
            panels.open_panel(PanelKind::ShellDetail);
        },
        BgTaskClickRoute::Workflow { run_id } => {
            selection.workflow_run_id = Some(run_id);
            panels.open_panel(PanelKind::Workflow);
        },
        BgTaskClickRoute::SubAgent { subagent_id } => {
            selection.subagent_id = Some(subagent_id);
            panels.open_panel(PanelKind::SubAgentDetail);
        },
    }
}

} // verus!
