//! The panels that are open.

use crate::panel_registry::{group_of, opened, popped, routed, scope_of, toggled, top, without_group,
    without_kind, MutexGroup, PanelKind, PanelScope, RouteV, SelectionV};
use vstd::prelude::*;

verus! {

/// Closing a panel closes that panel and leaves the others as they are.
pub proof fn only_the_closed_panel_goes(s: Seq<PanelKind>, kind: PanelKind)
    ensures
        without_kind(s, kind) == s.filter(|k: PanelKind| k != kind),
    decreases s.len(),
{
    reveal(Seq::filter);
    if s.len() > 0 {
        only_the_closed_panel_goes(s.drop_last(), kind);
    }
}

proof fn lemma_group(s: Seq<PanelKind>, group: MutexGroup)
    ensures
        without_group(s, group) == s.filter(|k: PanelKind| group_of(k) != group),
    decreases s.len(),
{
    reveal(Seq::filter);
    if s.len() > 0 {
        lemma_group(s.drop_last(), group);
    }
}

/// A panel that is opened comes on top; one that was open already leaves its old place, and one
/// that was not replaces those of its group. All others stay, in their order.
pub proof fn an_opened_panel_replaces_its_group(s: Seq<PanelKind>, kind: PanelKind)
    ensures
        s.contains(kind) ==> opened(s, kind) == s.filter(|k: PanelKind| k != kind).push(kind),
        !s.contains(kind) ==> opened(s, kind) == s.filter(
            |k: PanelKind| group_of(k) != group_of(kind),
        ).push(kind),
{
    only_the_closed_panel_goes(s, kind);
    lemma_group(s, group_of(kind));
    assert(s.filter(|k: PanelKind| group_of(k) != group_of(kind)) == without_group(
        s,
        group_of(kind),
    )) by {
        lemma_own_group(s, kind);
    }
}

proof fn lemma_own_group(s: Seq<PanelKind>, kind: PanelKind)
    ensures
        without_group(s, group_of(kind)) == s.filter(
            |k: PanelKind| group_of(k) != group_of(kind),
        ),
    decreases s.len(),
{
    reveal(Seq::filter);
    if s.len() > 0 {
        lemma_own_group(s.drop_last(), kind);
    }
}

/// A panel is switched: open, it is closed; closed, it is opened. The panel on top is the one
/// opened last, and leaving it leaves the others.
pub proof fn a_panel_is_switched(s: Seq<PanelKind>, kind: PanelKind)
    ensures
        s.contains(kind) ==> toggled(s, kind) == s.filter(|k: PanelKind| k != kind),
        !s.contains(kind) ==> toggled(s, kind) == opened(s, kind),
        s.len() > 0 ==> top(s) == Some(s[s.len() - 1]) && popped(s) == s.take(s.len() - 1),
        s.len() == 0 ==> top(s) is None && popped(s) == s,
{
    only_the_closed_panel_goes(s, kind);
}

/// The settings are a group, the panels of the agent another, and so on; a question stands alone.
pub proof fn panels_stand_in_groups(k: PanelKind)
    ensures
        group_of(k) == MutexGroup::Settings <==> k == PanelKind::Model || k == PanelKind::Login || k
            == PanelKind::Config || k == PanelKind::Betas || k == PanelKind::Theme,
        group_of(k) == MutexGroup::Agent <==> k == PanelKind::Agent || k
            == PanelKind::SubAgentDetail,
        group_of(k) == MutexGroup::Extensions <==> k == PanelKind::Hooks || k == PanelKind::Mcp || k
            == PanelKind::Plugin,
        group_of(k) == MutexGroup::Session <==> k == PanelKind::ThreadBrowser || k
            == PanelKind::Status || k == PanelKind::Memory || k == PanelKind::Goal,
        group_of(k) == MutexGroup::Tools <==> k == PanelKind::Cron || k == PanelKind::Tasks || k
            == PanelKind::Workflow || k == PanelKind::ShellDetail,
        group_of(k) == MutexGroup::Question <==> k == PanelKind::AskUser,
        scope_of(k) == PanelScope::Session <==> k == PanelKind::ThreadBrowser || k
            == PanelKind::Status || k == PanelKind::Tasks || k == PanelKind::AskUser || k
            == PanelKind::SubAgentDetail || k == PanelKind::ShellDetail || k == PanelKind::Goal,
{
}

/// A click on a task leads to the panel for its kind, with that task selected; what other panels
/// have selected stays.
pub proof fn a_click_leads_to_the_task(s: Seq<PanelKind>, sel: SelectionV, id: Seq<char>)
    ensures
        top(routed(s, sel, RouteV::Shell(id)).0) == Some(PanelKind::ShellDetail),
        routed(s, sel, RouteV::Shell(id)).1 == (SelectionV { task: Some(id), ..sel }),
        top(routed(s, sel, RouteV::Workflow(id)).0) == Some(PanelKind::Workflow),
        routed(s, sel, RouteV::Workflow(id)).1 == (SelectionV { run: Some(id), ..sel }),
        top(routed(s, sel, RouteV::SubAgent(id)).0) == Some(PanelKind::SubAgentDetail),
        routed(s, sel, RouteV::SubAgent(id)).1 == (SelectionV { subagent: Some(id), ..sel }),
{
    an_opened_panel_replaces_its_group(s, PanelKind::ShellDetail);
    an_opened_panel_replaces_its_group(s, PanelKind::Workflow);
    an_opened_panel_replaces_its_group(s, PanelKind::SubAgentDetail);
}

} // verus!
