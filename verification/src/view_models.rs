//! What the timeline of a session is made of.

use vstd::prelude::*;

verus! {

/// What the user said.
#[derive(Debug)]
pub struct TuiUserBubble {
    pub text: String,
}

/// What a helper of the agent did. One helper may appear several times, each time with an
/// id of its own.
#[derive(Debug)]
pub struct TuiSubAgentGroup {
    pub instance_id: String,
    pub agent_id: String,
    pub agent_name: String,
    pub view_models: Vec<TuiRenderUnit>,
    pub collapsed: bool,
    pub is_running: bool,
    pub is_error: bool,
    pub error_reason: Option<String>,
}

/// Several units shown as one.
#[derive(Debug)]
pub struct TuiCollapsedGroup {
    pub title: String,
    pub count: usize,
    pub failed_count: usize,
    pub view_models: Vec<TuiRenderUnit>,
}

/// A unit of the timeline.
#[derive(Debug)]
pub enum TuiRenderUnit {
    TuiUserBubble(TuiUserBubble),
    TuiAssistantBubble,
    TuiToolCard,
    TuiSubAgentGroup(TuiSubAgentGroup),
    TuiSystemNote,
    TuiCollapsedGroup(TuiCollapsedGroup),
    Other,
}

/// The timeline.
#[derive(Debug)]
pub struct ViewModelsSnapshot {
    pub items: Vec<TuiRenderUnit>,
}

/// The groups of helpers in a unit, each before those within it.
pub open spec fn groups_in(vm: TuiRenderUnit) -> Seq<TuiSubAgentGroup>
    decreases vm, 0int,
{
    match vm {
        TuiRenderUnit::TuiSubAgentGroup(g) => seq![g] + groups_among(
            g.view_models@,
            g.view_models@.len() as int,
        ),
        TuiRenderUnit::TuiCollapsedGroup(g) => groups_among(
            g.view_models@,
            g.view_models@.len() as int,
        ),
        _ => Seq::empty(),
    }
}

/// The groups of helpers in the first units of a list.
pub open spec fn groups_among(vms: Seq<TuiRenderUnit>, to: int) -> Seq<TuiSubAgentGroup>
    decreases vms, to,
{
    if to <= 0 || to > vms.len() {
        Seq::empty()
    } else {
        groups_among(vms, to - 1) + groups_in(vms[to - 1])
    }
}

/// The groups of helpers in a timeline.
pub open spec fn groups(s: ViewModelsSnapshot) -> Seq<TuiSubAgentGroup> {
    groups_among(s.items@, s.items@.len() as int)
}

/// What a list of references refers to.
pub open spec fn referents(v: Seq<&TuiSubAgentGroup>) -> Seq<TuiSubAgentGroup> {
    v.map_values(|g: &TuiSubAgentGroup| *g)
}

fn collect_in<'a>(vm: &'a TuiRenderUnit, out: &mut Vec<&'a TuiSubAgentGroup>)
    ensures
        referents(final(out)@) == referents(old(out)@) + groups_in(*vm),
    decreases vm, 0int,
{
    let ghost before = referents(out@);
    match vm {
        TuiRenderUnit::TuiSubAgentGroup(g) => {
            out.push(g);
            assert(referents(out@) =~= before.push(*g));
            collect_among(&g.view_models, out);
            assert(referents(out@) =~= before + groups_in(*vm));
        },
        TuiRenderUnit::TuiCollapsedGroup(g) => {
            collect_among(&g.view_models, out);
        },
        _ => {
            assert(referents(out@) =~= before + groups_in(*vm));
        },
    }
}

fn collect_among<'a>(vms: &'a Vec<TuiRenderUnit>, out: &mut Vec<&'a TuiSubAgentGroup>)
    ensures
        referents(final(out)@) == referents(old(out)@) + groups_among(
            vms@,
            vms@.len() as int,
        ),
    decreases vms, vms@.len(),
{
    let ghost before = referents(out@);
    let mut i: usize = 0;
    assert(referents(out@) =~= before + groups_among(vms@, 0));
    while i < vms.len()
        invariant
            i <= vms@.len(),
            referents(out@) == before + groups_among(vms@, i as int),
        decreases vms.len() - i,
    {
        assert(decreases_to!(vms => vms@[i as int]));
        collect_in(&vms[i], out);
        i = i + 1;
        assert(referents(out@) =~= before + groups_among(vms@, i as int));
    }
}

/// The groups of helpers in a timeline.
pub fn all_groups(s: &ViewModelsSnapshot) -> (r: Vec<&TuiSubAgentGroup>)
    ensures
        referents(r@) == groups(*s),
{
    let mut out: Vec<&TuiSubAgentGroup> = Vec::new();
    collect_among(&s.items, &mut out);
    assert(referents(out@) =~= groups(*s));
    out
}

} // verus!
