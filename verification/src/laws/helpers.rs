//! The helpers of the agent, and the units of the timeline.

use crate::background::{live_at, live_of, BgLiveStatus, DisplayV, LiveV};
use crate::doc::{ArgV, WordsV};
use crate::panels::agent::{active, agent_lines, first_groups, has_agent, helper_line, helper_lines,
    meta_line, meta_lines, subagents};
use crate::panels::config::PeriV;
use crate::panels::status::{count_among, count_in, StatsV};
use crate::panels::subagent_detail::{detail_head, group_at, linked_before, selected_detail,
    DetailV};
use crate::view_models::{groups, groups_among, groups_in, TuiCollapsedGroup, TuiRenderUnit,
    TuiSubAgentGroup, ViewModelsSnapshot};
use vstd::prelude::*;

verus! {

proof fn lemma_groups_before(vms: Seq<TuiRenderUnit>, u: TuiRenderUnit, to: int)
    requires
        0 <= to <= vms.len(),
    ensures
        groups_among(vms.push(u), to) == groups_among(vms, to),
        count_among(vms.push(u), to) == count_among(vms, to),
    decreases to,
{
    if to > 0 {
        lemma_groups_before(vms, u, to - 1);
    }
}

/// A unit adds to the helpers of a timeline the helper that it is and those within it, at any
/// depth; a unit that holds others adds those within it, and any other unit adds none.
pub proof fn helpers_are_found_at_any_depth(
    vms: Seq<TuiRenderUnit>,
    g: TuiSubAgentGroup,
    c: TuiCollapsedGroup,
    u: TuiRenderUnit,
)
    ensures
        groups_among(Seq::empty(), 0).len() == 0,
        groups_among(vms.push(TuiRenderUnit::TuiSubAgentGroup(g)), vms.len() as int + 1)
            == groups_among(vms, vms.len() as int).push(g) + groups_among(
            g.view_models@,
            g.view_models@.len() as int,
        ),
        groups_among(vms.push(TuiRenderUnit::TuiCollapsedGroup(c)), vms.len() as int + 1)
            == groups_among(vms, vms.len() as int) + groups_among(
            c.view_models@,
            c.view_models@.len() as int,
        ),
        !(u is TuiSubAgentGroup) && !(u is TuiCollapsedGroup) ==> groups_among(
            vms.push(u),
            vms.len() as int + 1,
        ) == groups_among(vms, vms.len() as int),
{
    let n = vms.len() as int;
    lemma_groups_before(vms, TuiRenderUnit::TuiSubAgentGroup(g), n);
    lemma_groups_before(vms, TuiRenderUnit::TuiCollapsedGroup(c), n);
    lemma_groups_before(vms, u, n);
    let helper = TuiRenderUnit::TuiSubAgentGroup(g);
    let several = TuiRenderUnit::TuiCollapsedGroup(c);
    assert(groups_among(vms.push(helper), n + 1) == groups_among(vms.push(helper), n) + groups_in(
        vms.push(helper)[n],
    ));
    assert(groups_among(vms.push(several), n + 1) == groups_among(vms.push(several), n) + groups_in(
        vms.push(several)[n],
    ));
    assert(groups_among(vms.push(u), n + 1) == groups_among(vms.push(u), n) + groups_in(
        vms.push(u)[n],
    ));
    let inner = groups_among(g.view_models@, g.view_models@.len() as int);
    let inside = groups_among(c.view_models@, c.view_models@.len() as int);
    assert(groups_in(helper) == seq![g] + inner);
    assert(groups_in(several) == inside);
    assert(!(u is TuiSubAgentGroup) && !(u is TuiCollapsedGroup) ==> groups_in(u) =~= Seq::empty());
    assert(groups_among(vms, n) + (seq![g] + inner) =~= groups_among(vms, n).push(g) + inner);
    assert(vms.push(TuiRenderUnit::TuiSubAgentGroup(g))[n] == TuiRenderUnit::TuiSubAgentGroup(g));
    assert(vms.push(TuiRenderUnit::TuiCollapsedGroup(c))[n] == TuiRenderUnit::TuiCollapsedGroup(c));
    assert(vms.push(u)[n] == u);
}

/// A unit adds one to the count of its sort; one that holds others adds what they add, and a
/// helper adds itself besides.
pub proof fn units_are_counted_at_any_depth(
    vms: Seq<TuiRenderUnit>,
    g: TuiSubAgentGroup,
    c: TuiCollapsedGroup,
    u: TuiRenderUnit,
)
    ensures
        ({
            let before = count_among(vms, vms.len() as int);
            let after = count_among(vms.push(u), vms.len() as int + 1);
            let helper = count_among(
                vms.push(TuiRenderUnit::TuiSubAgentGroup(g)),
                vms.len() as int + 1,
            );
            let several = count_among(
                vms.push(TuiRenderUnit::TuiCollapsedGroup(c)),
                vms.len() as int + 1,
            );
            let within = count_among(g.view_models@, g.view_models@.len() as int);
            let inside = count_among(c.view_models@, c.view_models@.len() as int);
            &&& count_among(Seq::empty(), 0) == (StatsV {
                user: 0,
                assistant: 0,
                tools: 0,
                helpers: 0,
                notes: 0,
            })
            &&& u is TuiUserBubble ==> after == (StatsV { user: before.user + 1, ..before })
            &&& u is TuiAssistantBubble ==> after == (StatsV {
                assistant: before.assistant + 1,
                ..before
            })
            &&& u is TuiToolCard ==> after == (StatsV { tools: before.tools + 1, ..before })
            &&& u is TuiSystemNote ==> after == (StatsV { notes: before.notes + 1, ..before })
            &&& u is Other ==> after == before
            &&& helper == (StatsV {
                user: before.user + within.user,
                assistant: before.assistant + within.assistant,
                tools: before.tools + within.tools,
                helpers: before.helpers + 1 + within.helpers,
                notes: before.notes + within.notes,
            })
            &&& several == (StatsV {
                user: before.user + inside.user,
                assistant: before.assistant + inside.assistant,
                tools: before.tools + inside.tools,
                helpers: before.helpers + inside.helpers,
                notes: before.notes + inside.notes,
            })
        }),
{
    let n = vms.len() as int;
    lemma_groups_before(vms, TuiRenderUnit::TuiSubAgentGroup(g), n);
    lemma_groups_before(vms, TuiRenderUnit::TuiCollapsedGroup(c), n);
    lemma_groups_before(vms, u, n);
    assert(vms.push(TuiRenderUnit::TuiSubAgentGroup(g))[n] == TuiRenderUnit::TuiSubAgentGroup(g));
    assert(vms.push(TuiRenderUnit::TuiCollapsedGroup(c))[n] == TuiRenderUnit::TuiCollapsedGroup(c));
    let helper = TuiRenderUnit::TuiSubAgentGroup(g);
    let several = TuiRenderUnit::TuiCollapsedGroup(c);
    assert(count_among(vms.push(helper), n + 1) == count_among(vms.push(helper), n).plus(
        count_in(vms.push(helper)[n]),
    ));
    assert(count_among(vms.push(several), n + 1) == count_among(vms.push(several), n).plus(
        count_in(vms.push(several)[n]),
    ));
    assert(count_among(vms.push(u), n + 1) == count_among(vms.push(u), n).plus(
        count_in(vms.push(u)[n]),
    ));
    assert(count_in(several) == count_among(c.view_models@, c.view_models@.len() as int));
    assert(count_in(helper) == StatsV { helpers: 1, ..StatsV::zero() }.plus(
        count_among(g.view_models@, g.view_models@.len() as int),
    ));
    assert(vms.push(u)[n] == u);
}

/// Of each agent the first group is listed, in the order of the timeline, and no agent twice.
pub proof fn each_agent_is_listed_once(gs: Seq<TuiSubAgentGroup>, to: int)
    requires
        0 <= to <= gs.len(),
    ensures
        first_groups(gs, to) == Seq::new(to as nat, |i: int| i).filter(
            |i: int|
                forall|j: int| 0 <= j < i ==> (#[trigger] gs[j]).agent_id@ != gs[i].agent_id@,
        ).map_values(|i: int| gs[i]),
        forall|a: Seq<char>|
            (#[trigger] has_agent(first_groups(gs, to), a)) <==> exists|j: int|
                0 <= j < to && (#[trigger] gs[j]).agent_id@ == a,
    decreases to,
{
    reveal(Seq::filter);
    if to > 0 {
        each_agent_is_listed_once(gs, to - 1);
        assert(Seq::new(to as nat, |i: int| i).drop_last() =~= Seq::new(
            (to - 1) as nat,
            |i: int| i,
        ));
        let rest = first_groups(gs, to - 1);
        let all = first_groups(gs, to);
        let own = gs[to - 1].agent_id@;
        assert forall|a: Seq<char>|
            (#[trigger] has_agent(all, a)) <==> exists|j: int|
                0 <= j < to && (#[trigger] gs[j]).agent_id@ == a by {
            if has_agent(all, a) {
                let k = choose|k: int| 0 <= k < all.len() && (#[trigger] all[k]).agent_id@ == a;
                if k < rest.len() {
                    assert(rest[k].agent_id@ == a);
                    assert(has_agent(rest, a));
                } else {
                    assert(gs[to - 1].agent_id@ == a);
                }
            }
            if exists|j: int| 0 <= j < to && (#[trigger] gs[j]).agent_id@ == a {
                let j = choose|j: int| 0 <= j < to && (#[trigger] gs[j]).agent_id@ == a;
                if j < to - 1 {
                    assert(has_agent(rest, a));
                    let k = choose|k: int|
                        0 <= k < rest.len() && (#[trigger] rest[k]).agent_id@ == a;
                    assert(all[k].agent_id@ == a);
                } else if has_agent(rest, own) {
                    assert(all == rest);
                } else {
                    assert(all[rest.len() as int].agent_id@ == a);
                }
            }
        }
        assert(has_agent(rest, own) <==> !(forall|j: int|
            0 <= j < to - 1 ==> (#[trigger] gs[j]).agent_id@ != own));
    }
}

proof fn lemma_helpers(gs: Seq<TuiSubAgentGroup>, cursor: int, to: int, i: int)
    requires
        0 <= to <= gs.len(),
    ensures
        helper_lines(gs, cursor, to).len() == to,
        0 <= i < to ==> helper_lines(gs, cursor, to)[i] == helper_line(gs[i], i + 7 == cursor),
    decreases to,
{
    if to > 0 {
        lemma_helpers(gs, cursor, to - 1, i);
    }
}

proof fn lemma_meta(labels: Seq<Seq<char>>, vs: Seq<Seq<char>>, cursor: int, to: int, i: int)
    ensures
        to >= 0 ==> meta_lines(labels, vs, cursor, to).len() == to,
        0 <= i < to ==> meta_lines(labels, vs, cursor, to)[i] == meta_line(
            labels[i],
            vs[i],
            i == cursor,
        ),
    decreases to,
{
    if to > 0 {
        lemma_meta(labels, vs, cursor, to - 1, i);
    }
}

/// Each helper has its row, with its name, its id and the number of its messages, behind the six
/// rows of the session, each with its value as far as sixty characters.
pub proof fn each_helper_has_its_row(
    labels: Seq<Seq<char>>,
    vs: Seq<Seq<char>>,
    gs: Seq<TuiSubAgentGroup>,
    cursor: int,
    i: int,
    k: int,
)
    requires
        0 <= i < gs.len(),
        0 <= k < 6,
        vs[k].len() <= 60,
    ensures
        ({
            let d = agent_lines(labels, vs, gs, cursor);
            &&& d[3 + k][2].words == WordsV::Literal(vs[k])
            &&& d[3 + k][0].words == WordsV::Literal(
                if k == cursor {
                    " > "@
                } else {
                    "   "@
                },
            )
            &&& d[10][0].words == WordsV::Message(
                "agent-subagents-count"@,
                seq![("count"@, ArgV::Number(gs.len()))],
            )
            &&& d[11 + i][1].words == WordsV::Literal(gs[i].agent_name@)
            &&& d[11 + i][2].words == WordsV::Literal("  ["@ + gs[i].agent_id@ + "]"@)
            &&& d[11 + i][4].words == WordsV::Message(
                "agent-message-count"@,
                seq![("count"@, ArgV::Number(gs[i].view_models@.len()))],
            )
        }),
{
    lemma_meta(labels, vs, cursor, 6, k);
    lemma_helpers(gs, cursor, gs.len() as int, i);
    let d = agent_lines(labels, vs, gs, cursor);
    assert(d[3 + k] == meta_lines(labels, vs, cursor, 6)[k]);
    assert(d[11 + i] == helper_lines(gs, cursor, gs.len() as int)[i]);
}

proof fn lemma_live(ls: Seq<(Seq<char>, LiveV)>, id: Seq<char>, i: int, at: int)
    requires
        0 <= i <= at <= ls.len(),
        at < ls.len() ==> ls[at].0 == id,
        forall|k: int| i <= k < at ==> (#[trigger] ls[k]).0 != id,
    ensures
        live_at(ls, id, i) == at,
    decreases at - i,
{
    if i < at {
        lemma_live(ls, id, i + 1, at);
    }
}

/// What a task has reported is found under its id, the first where there are several.
pub proof fn reports_are_found_by_id(ls: Seq<(Seq<char>, LiveV)>, id: Seq<char>, at: int)
    ensures
        0 <= at < ls.len() && ls[at].0 == id && (forall|k: int|
            0 <= k < at ==> (#[trigger] ls[k]).0 != id) ==> live_of(ls, id) == Some(ls[at].1),
        (forall|k: int| 0 <= k < ls.len() ==> (#[trigger] ls[k]).0 != id) ==> live_of(
            ls,
            id,
        ) is None,
{
    if 0 <= at < ls.len() && ls[at].0 == id && (forall|k: int|
        0 <= k < at ==> (#[trigger] ls[k]).0 != id) {
        lemma_live(ls, id, 0, at);
    }
    if forall|k: int| 0 <= k < ls.len() ==> (#[trigger] ls[k]).0 != id {
        lemma_live(ls, id, 0, ls.len() as int);
    }
}

proof fn lemma_group_at(gs: Seq<TuiSubAgentGroup>, id: Seq<char>, i: int, at: int)
    requires
        0 <= i <= at <= gs.len(),
        at < gs.len() ==> gs[at].instance_id@ == id || gs[at].agent_id@ == id,
        forall|k: int|
            i <= k < at ==> (#[trigger] gs[k]).instance_id@ != id && gs[k].agent_id@ != id,
    ensures
        group_at(gs, id, i) == at,
    decreases at - i,
{
    if i < at {
        lemma_group_at(gs, id, i + 1, at);
    }
}

proof fn lemma_linked(ds: Seq<DisplayV>, agent: Seq<char>, n: int, at: int)
    requires
        -1 <= at < n <= ds.len(),
        at >= 0 ==> ds[at].linked == Some(agent),
        forall|k: int| at < k < n ==> (#[trigger] ds[k]).linked != Some(agent),
    ensures
        linked_before(ds, agent, n) == at,
    decreases n,
{
    if n > 0 && at < n - 1 {
        lemma_linked(ds, agent, n - 1, at);
    }
}

/// The page of a helper shows the first group of the timeline that has the id, as its own or as
/// that of its agent.
pub proof fn the_page_shows_the_group(
    s: ViewModelsSnapshot,
    ls: Seq<(Seq<char>, LiveV)>,
    ds: Seq<DisplayV>,
    id: Seq<char>,
    at: int,
)
    requires
        0 <= at < groups(s).len(),
        groups(s)[at].instance_id@ == id || groups(s)[at].agent_id@ == id,
        forall|k: int|
            0 <= k < at ==> (#[trigger] groups(s)[k]).instance_id@ != id && groups(s)[k].agent_id@
                != id,
    ensures
        ({
            let d = selected_detail(s, ls, ds, Some(id));
            &&& d is Some
            &&& d->0.instance_id == groups(s)[at].instance_id@
            &&& d->0.agent_id == groups(s)[at].agent_id@
            &&& d->0.agent_name == groups(s)[at].agent_name@
            &&& d->0.units == groups(s)[at].view_models@
            &&& d->0.is_running == groups(s)[at].is_running
            &&& d->0.is_error == groups(s)[at].is_error
            &&& detail_head(d)[0][0].words == WordsV::Literal(groups(s)[at].agent_name@)
            &&& detail_head(d)[1][0].words == WordsV::Literal(
                "  ["@ + groups(s)[at].agent_id@ + "]"@,
            )
        }),
        selected_detail(s, ls, ds, None) is None,
{
    lemma_group_at(groups(s), id, 0, at);
}

/// Where the timeline has no such group, the page shows what the task of the id has reported, or
/// else the task last linked to the agent of the id; where there is none, it shows nothing.
pub proof fn the_page_shows_the_report(
    s: ViewModelsSnapshot,
    ls: Seq<(Seq<char>, LiveV)>,
    ds: Seq<DisplayV>,
    id: Seq<char>,
    at: int,
    l: LiveV,
)
    requires
        forall|k: int|
            0 <= k < groups(s).len() ==> (#[trigger] groups(s)[k]).instance_id@ != id && groups(
                s,
            )[k].agent_id@ != id,
    ensures
        live_of(ls, id) == Some(l) ==> selected_detail(s, ls, ds, Some(id)) == Some(
            DetailV {
                instance_id: id,
                agent_id: match l.agent_id {
                    Some(a) => a,
                    None => id,
                },
                agent_name: match l.agent_name {
                    Some(a) => a,
                    None => l.summary,
                },
                units: l.units,
                is_running: l.status == BgLiveStatus::Running,
                is_error: l.is_error,
                error_reason: l.result,
            },
        ),
        live_of(ls, id) is None && 0 <= at < ds.len() && ds[at].linked == Some(id) && (forall|
            k: int,
        |
            at < k < ds.len() ==> (#[trigger] ds[k]).linked != Some(id)) ==> (live_of(ls, ds[at].id)
            is Some <==> selected_detail(s, ls, ds, Some(id)) is Some) && (live_of(ls, ds[at].id)
            == Some(l) ==> selected_detail(s, ls, ds, Some(id))->0.instance_id == ds[at].id
            && selected_detail(s, ls, ds, Some(id))->0.units == l.units),
        live_of(ls, id) is None && (forall|k: int|
            0 <= k < ds.len() ==> (#[trigger] ds[k]).linked != Some(id)) ==> selected_detail(
            s,
            ls,
            ds,
            Some(id),
        ) is None,
{
    lemma_group_at(groups(s), id, 0, groups(s).len() as int);
    if 0 <= at < ds.len() && ds[at].linked == Some(id) && (forall|k: int|
        at < k < ds.len() ==> (#[trigger] ds[k]).linked != Some(id)) {
        lemma_linked(ds, id, ds.len() as int, at);
    }
    if forall|k: int| 0 <= k < ds.len() ==> (#[trigger] ds[k]).linked != Some(id) {
        if ds.len() > 0 {
            lemma_linked(ds, id, ds.len() as int, -1);
        }
    }
}

/// The provider in use is that of the profile of the alias in use.
pub proof fn the_provider_in_use_is_of_the_alias(p: PeriV, at: int)
    ensures
        0 <= at < p.profiles.len() && p.profiles[at].alias == p.alias && (forall|k: int|
            0 <= k < at ==> (#[trigger] p.profiles[k]).alias != p.alias) ==> active(Some(p)) == (
            p.profiles[at].provider,
            p.alias,
        ),
        active(Some(p)).1 == p.alias,
{
    if 0 <= at < p.profiles.len() && p.profiles[at].alias == p.alias && (forall|k: int|
        0 <= k < at ==> (#[trigger] p.profiles[k]).alias != p.alias) {
        crate::laws::models::the_first_profile_counts(p.profiles, p.alias, at);
    }
}

/// The helpers of a session are those of its timeline, all of them, and the list of agents holds
/// the first group of each.
pub proof fn helpers_are_those_of_the_timeline(s: ViewModelsSnapshot, i: int)
    ensures
        groups(s) == groups_among(s.items@, s.items@.len() as int),
        0 <= i < groups(s).len() && (forall|j: int|
            0 <= j < i ==> (#[trigger] groups(s)[j]).agent_id@ != groups(s)[i].agent_id@)
            ==> subagents(s).contains(groups(s)[i]),
        forall|a: int, b: int|
            0 <= a < b < subagents(s).len() ==> (#[trigger] subagents(s)[a]).agent_id@ != (
            #[trigger] subagents(s)[b]).agent_id@,
{
    let gs = groups(s);
    lemma_first_stays(gs, gs.len() as int, i);
    lemma_agents_differ(gs, gs.len() as int);
}

proof fn lemma_first_stays(gs: Seq<TuiSubAgentGroup>, to: int, i: int)
    requires
        0 <= to <= gs.len(),
    ensures
        0 <= i < to && (forall|j: int|
            0 <= j < i ==> (#[trigger] gs[j]).agent_id@ != gs[i].agent_id@) ==> first_groups(
            gs,
            to,
        ).contains(gs[i]),
    decreases to,
{
    if 0 <= i < to && (forall|j: int|
        0 <= j < i ==> (#[trigger] gs[j]).agent_id@ != gs[i].agent_id@) {
        let rest = first_groups(gs, to - 1);
        let all = first_groups(gs, to);
        each_agent_is_listed_once(gs, to - 1);
        if i == to - 1 {
            assert(!has_agent(rest, gs[i].agent_id@));
            assert(all[rest.len() as int] == gs[i]);
        } else {
            lemma_first_stays(gs, to - 1, i);
            let k = choose|k: int| 0 <= k < rest.len() && rest[k] == gs[i];
            assert(all[k] == gs[i]);
        }
    }
}

proof fn lemma_agents_differ(gs: Seq<TuiSubAgentGroup>, to: int)
    requires
        0 <= to <= gs.len(),
    ensures
        forall|a: int, b: int|
            0 <= a < b < first_groups(gs, to).len() ==> (#[trigger] first_groups(gs, to)[a]).agent_id@
                != (#[trigger] first_groups(gs, to)[b]).agent_id@,
    decreases to,
{
    if to > 0 {
        lemma_agents_differ(gs, to - 1);
        let rest = first_groups(gs, to - 1);
        let all = first_groups(gs, to);
        assert forall|a: int, b: int| 0 <= a < b < all.len() implies (#[trigger] all[a]).agent_id@
            != (#[trigger] all[b]).agent_id@ by {
            if b == rest.len() {
                assert(rest[a] == all[a]);
                assert(!has_agent(rest, gs[to - 1].agent_id@));
            } else {
                assert(rest[a] == all[a] && rest[b] == all[b]);
            }
        }
    }
}

} // verus!
