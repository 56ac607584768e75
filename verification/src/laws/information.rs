//! Panels that tell how things stand.

use crate::doc::{ArgV, WordsV};
use crate::event::{Event, EventResult, KeyCode, KeyEvent};
use crate::panels::agent::agent_step;
use crate::panels::betas::{beta_entry, betas_lines, betas_step, list_lines};
use crate::panels::goal::{goal_lines, GoalStatus, GoalV};
use crate::panels::hooks::{event_key, hook_lines, hooks_lines, hooks_step, HookV};
use crate::panels::mcp::cache_key;
use crate::panels::status::{status_lines, status_step, ServiceInfo, StatusTab, VmStatsV};
use crate::text::decimal;
use crate::wrap::trim_spec;
use vstd::prelude::*;

verus! {

/// The arrows lead from row to row, not beyond the first and the last, and Enter and Escape close.
pub proof fn arrows_lead_through_the_rows(selected: int, count: int, key: KeyEvent)
    requires
        key.press,
        0 <= selected < count,
    ensures
        key.code == KeyCode::Down ==> hooks_step(selected, count, Event::Key(key)) == (
            if selected + 1 < count {
                selected + 1
            } else {
                selected
            },
            EventResult::Consumed,
            false,
        ),
        key.code == KeyCode::Up ==> hooks_step(selected, count, Event::Key(key)) == (
            if selected > 0 {
                selected - 1
            } else {
                0
            },
            EventResult::Consumed,
            false,
        ),
        key.code == KeyCode::Esc || key.code == KeyCode::Enter ==> hooks_step(
            selected,
            count,
            Event::Key(key),
        ) == (selected, EventResult::Consumed, true),
        selected < 4 && key.code == KeyCode::Down ==> betas_step(selected, Event::Key(key)).0 == (
        if selected < 3 {
            selected + 1
        } else {
            3
        }),
        selected < 8 + count && key.code == KeyCode::Down ==> agent_step(
            selected,
            count,
            Event::Key(key),
        ).0 == (if selected + 1 < 8 + count {
            selected + 1
        } else {
            selected
        }),
        key.code == KeyCode::Up ==> betas_step(selected, Event::Key(key)).0 == agent_step(
            selected,
            count,
            Event::Key(key),
        ).0 && agent_step(selected, count, Event::Key(key)).0 == (if selected > 0 {
            selected - 1
        } else {
            0
        }),
{
}

/// Left shows the services, Right the context, and Escape closes.
pub proof fn the_status_has_two_pages(tab: StatusTab, key: KeyEvent)
    requires
        key.press,
    ensures
        key.code == KeyCode::Left ==> status_step(tab, Event::Key(key)) == (
            StatusTab::Service,
            EventResult::Consumed,
            false,
        ),
        key.code == KeyCode::Right ==> status_step(tab, Event::Key(key)) == (
            StatusTab::Context,
            EventResult::Consumed,
            false,
        ),
        key.code == KeyCode::Esc ==> status_step(tab, Event::Key(key)) == (
            tab,
            EventResult::Consumed,
            true,
        ),
{
}

/// The status tells the provider, the model, the mode, the load, the servers, the jobs and the
/// directory on one page, and the counts of the units on the other.
pub proof fn the_status_tells_what_it_was_given(i: ServiceInfo, s: VmStatsV)
    ensures
        ({
            let d = status_lines(StatusTab::Service, i, s);
            let c = status_lines(StatusTab::Context, i, s);
            &&& i.provider_name@.len() > 0 ==> d[1][1].words == WordsV::Literal(i.provider_name@)
            &&& i.model_alias@.len() > 0 ==> d[2][1].words == WordsV::Literal(i.model_alias@)
            &&& i.permission_mode@.len() > 0 ==> d[3][1].words == WordsV::Literal(
                i.permission_mode@,
            )
            &&& i.permission_mode@.len() == 0 ==> d[3][1].words == WordsV::Literal("default"@)
            &&& d[5][1].words == WordsV::Literal(i.cpu_percent@ + "%"@)
            &&& d[6][1].words == WordsV::Literal(decimal(i.memory_mb as nat) + " MB"@)
            &&& d[7][1].words == WordsV::Literal(
                decimal(i.mcp.connected as nat) + "/"@ + decimal(i.mcp.total as nat)
                    + " connected"@,
            )
            &&& d[8][1].words == WordsV::Literal(
                decimal(i.cron_total as nat) + " ("@ + decimal(i.cron_enabled as nat)
                    + " enabled)"@,
            )
            &&& d[10][1].words == WordsV::Literal(i.cwd@)
            &&& c[1][1].words == WordsV::Literal(decimal(s.total as nat))
            &&& c[2][1].words == WordsV::Literal(decimal(s.counts.user as nat))
            &&& c[3][1].words == WordsV::Literal(decimal(s.counts.assistant as nat))
            &&& c[4][1].words == WordsV::Literal(decimal(s.counts.tools as nat))
            &&& c[5][1].words == WordsV::Literal(decimal(s.counts.helpers as nat))
            &&& c[6][1].words == WordsV::Literal(decimal(s.counts.notes as nat))
        }),
{
}

/// The goal tells its objective, how it stands, how often it was taken up again, and why it is
/// blocked where a reason is given.
pub proof fn the_goal_tells_its_objective(g: GoalV, objective: Seq<char>, reason: Seq<char>)
    ensures
        g.objective == Some(objective) ==> goal_lines(Some(g))[0][0].words == WordsV::Literal(
            objective,
        ),
        goal_lines(Some(g))[3][2].words == WordsV::Literal(decimal(g.continuations)),
        g.status == Some(GoalStatus::Active) ==> goal_lines(Some(g))[2][2].words == WordsV::Message(
            "goal-status-active"@,
            Seq::empty(),
        ),
        g.status == Some(GoalStatus::Complete) ==> goal_lines(Some(g))[2][2].words
            == WordsV::Message("goal-status-complete"@, Seq::empty()),
        g.status == Some(GoalStatus::Blocked) ==> goal_lines(Some(g))[2][2].words
            == WordsV::Message("goal-status-blocked"@, Seq::empty()),
        g.blocked_reason == Some(reason) && trim_spec(reason).len() > 0 ==> goal_lines(
            Some(g),
        ).len() == 7 && goal_lines(Some(g))[6][0].words == WordsV::Literal(reason),
        g.blocked_reason is None ==> goal_lines(Some(g)).len() == 4,
{
}

proof fn lemma_hooks(hs: Seq<HookV>, selected: int, from: int, to: int, i: int)
    requires
        0 <= from <= to <= hs.len(),
    ensures
        crate::panels::hooks::list_lines(hs, selected, from, to).len() == 3 * (to - from),
        from <= i < to ==> crate::panels::hooks::list_lines(hs, selected, from, to)[3 * (i - from)]
            == hook_lines(hs[i], i, i == selected)[0] && crate::panels::hooks::list_lines(
            hs,
            selected,
            from,
            to,
        )[3 * (i - from) + 2] == hook_lines(hs[i], i, i == selected)[2],
    decreases to - from,
{
    if to > from {
        lemma_hooks(hs, selected, from, to - 1, i);
        let all = crate::panels::hooks::list_lines(hs, selected, from, to);
        let less = crate::panels::hooks::list_lines(hs, selected, from, to - 1);
        if from <= i < to - 1 {
            assert(all[3 * (i - from)] == less[3 * (i - from)]);
            assert(all[3 * (i - from) + 2] == less[3 * (i - from) + 2]);
        }
    }
}

/// The number of hooks is told, and three at a time are shown, each with its number, its event,
/// where it comes from and its command, the selected one among them and marked.
pub proof fn the_selected_hook_is_shown(selected: int, hs: Seq<HookV>, i: int)
    requires
        0 <= selected < hs.len(),
        0 <= i < hs.len(),
        selected < 3 && i < 3 || selected >= 3 && selected - 2 <= i <= selected,
        hs[i].command.len() <= 70,
    ensures
        ({
            let start = if selected < 3 {
                0
            } else {
                selected - 2
            };
            let d = hooks_lines(selected, hs);
            let at = 3 + 3 * (i - start);
            &&& d[0][0].words == WordsV::Message(
                "hooks-configured-count"@,
                seq![("count"@, ArgV::Number(hs.len()))],
            )
            &&& d[at][0].words == WordsV::Literal(
                (if i == selected {
                    " > "@
                } else {
                    "   "@
                }) + decimal((i + 1) as nat) + ". "@ + (hs[i].event + " "@),
            )
            &&& d[at][1].words == WordsV::Literal("  via "@ + hs[i].plugin)
            &&& d[at + 2][0].words == WordsV::Literal("     "@ + hs[i].command)
        }),
{
    let start = if selected < 3 {
        0
    } else {
        selected - 2
    };
    let end = if start + 3 < hs.len() {
        start + 3
    } else {
        hs.len() as int
    };
    lemma_hooks(hs, selected, start, end, i);
    let d = hooks_lines(selected, hs);
    let rows = crate::panels::hooks::list_lines(hs, selected, start, end);
    let at = 3 * (i - start);
    assert(d[3 + at] == rows[at] && d[5 + at] == rows[at + 2]);
}

/// Every event that a hook can stand for is explained, and every way of caching is named.
pub proof fn every_event_is_explained(i: int)
    ensures
        ({
            let events = seq![
                "pretooluse"@,
                "posttooluse"@,
                "posttoolusefailure"@,
                "permissionrequest"@,
                "userpromptsubmit"@,
                "sessionstart"@,
                "sessionend"@,
                "stop"@,
                "stopfailure"@,
                "posttoolbatch"@,
                "subagentstart"@,
                "subagentstop"@,
                "precompact"@,
                "postcompact"@,
                "notification"@,
            ];
            0 <= i < events.len() ==> event_key(events[i]) is Some
        }),
        ({
            let ways = seq![
                "version_cached"@,
                "mcpp_cached"@,
                "cached"@,
                "stored_after_fetch"@,
                "cache_ready"@,
                "cache_disabled"@,
                "live_fetch"@,
            ];
            0 <= i < ways.len() ==> cache_key(Some(ways[i])) is Some
        }),
        cache_key(None) is None,
{
}

/// Each feature has its row with its name, what it is, and whether it is on; the selected one is
/// marked.
pub proof fn each_feature_has_its_row(selected: int, i: int)
    requires
        0 <= i < 4,
    ensures
        ({
            let d = betas_lines(selected);
            &&& d[2 + 2 * i][0].words == WordsV::Literal(
                if i == selected {
                    "> "@
                } else {
                    "  "@
                },
            )
            &&& d[2 + 2 * i][2].words == WordsV::Message(
                if beta_entry(i).2 {
                    "common-on"@
                } else {
                    "common-off"@
                },
                Seq::empty(),
            )
            &&& d[2 + 2 * i + 1][0].words == WordsV::Literal("      "@ + beta_entry(i).1)
        }),
{
    reveal_with_fuel(list_lines, 5);
}

} // verus!
