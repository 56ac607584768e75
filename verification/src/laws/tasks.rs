//! Tasks in the background.

use crate::background::{live_of, BgLiveStatus, DisplayV, LiveV, TaskV};
use crate::doc::WordsV;
use crate::panels::shell_detail::{bar_at, context_of, known_lines, output_lines, output_of,
    shell_at, shell_lines, ContextV, OutputV};
use crate::panels::workflow::{cell_of, clamped, run_from, TuiRunProgress};
use crate::text::{decimal, lines_of, str_width_of};
use vstd::prelude::*;

verus! {

proof fn lemma_shell(ts: Seq<TaskV>, id: Seq<char>, i: int, at: int)
    requires
        0 <= i <= at <= ts.len(),
        at < ts.len() ==> ts[at].id == id && ts[at].kind == "shell"@,
        forall|k: int| i <= k < at ==> (#[trigger] ts[k]).id != id || ts[k].kind != "shell"@,
    ensures
        shell_at(ts, id, i) == at,
    decreases at - i,
{
    if i < at {
        lemma_shell(ts, id, i + 1, at);
    }
}

proof fn lemma_bar(ds: Seq<DisplayV>, id: Seq<char>, i: int, at: int)
    requires
        0 <= i <= at <= ds.len(),
        at < ds.len() ==> ds[at].id == id && ds[at].agent_type == "shell"@,
        forall|k: int| i <= k < at ==> (#[trigger] ds[k]).id != id || ds[k].agent_type != "shell"@,
    ensures
        bar_at(ds, id, true, i) == at,
    decreases at - i,
{
    if i < at {
        lemma_bar(ds, id, i + 1, at);
    }
}

/// The page of a command that runs shows what is known of the running task of that id.
pub proof fn a_running_command_is_found(
    ts: Seq<TaskV>,
    ds: Seq<DisplayV>,
    ls: Seq<(Seq<char>, LiveV)>,
    id: Seq<char>,
    at: int,
)
    requires
        0 <= at < ts.len(),
        ts[at].id == id,
        ts[at].kind == "shell"@,
        forall|k: int| 0 <= k < at ==> (#[trigger] ts[k]).id != id || ts[k].kind != "shell"@,
    ensures
        context_of(ts, ds, ls, Some(id)) == Some(
            ContextV {
                id,
                summary: ts[at].summary,
                pid: ts[at].pid,
                started_at: Some(ts[at].started_at),
            },
        ),
        context_of(ts, ds, ls, None) is None,
        shell_lines(ts, ds, ls, Some(id))[0][0].words == WordsV::Literal(ts[at].summary),
        shell_lines(ts, ds, ls, Some(id))[1][0].words == WordsV::Literal("  id: "@ + id),
{
    lemma_shell(ts, id, 0, at);
}

/// The page of a command that has ended shows what the bar has of it, and else what it reported;
/// what is no command is not shown.
pub proof fn an_ended_command_is_found(
    ts: Seq<TaskV>,
    ds: Seq<DisplayV>,
    ls: Seq<(Seq<char>, LiveV)>,
    id: Seq<char>,
    at: int,
    l: LiveV,
)
    requires
        forall|k: int|
            0 <= k < ts.len() ==> (#[trigger] ts[k]).id != id || ts[k].kind != "shell"@,
    ensures
        0 <= at < ds.len() && ds[at].id == id && ds[at].agent_type == "shell"@ && (forall|k: int|
            0 <= k < at ==> (#[trigger] ds[k]).id != id || ds[k].agent_type != "shell"@) ==> {
            let c = context_of(ts, ds, ls, Some(id));
            &&& c is Some && c->0.id == id && c->0.summary == ds[at].desc
            &&& c->0.started_at is None
            &&& live_of(ls, id) == Some(l) ==> c->0.pid == l.pid
            &&& live_of(ls, id) is None ==> c->0.pid is None
        },
        (forall|k: int|
            0 <= k < ds.len() ==> (#[trigger] ds[k]).id != id || ds[k].agent_type != "shell"@) ==> {
            &&& live_of(ls, id) == Some(l) && l.kind == "shell"@ ==> context_of(
                ts,
                ds,
                ls,
                Some(id),
            ) == Some(ContextV { id, summary: l.summary, pid: l.pid, started_at: None })
            &&& live_of(ls, id) == Some(l) && l.kind != "shell"@ ==> context_of(
                ts,
                ds,
                ls,
                Some(id),
            ) is None
            &&& live_of(ls, id) is None ==> context_of(ts, ds, ls, Some(id)) is None
        },
{
    lemma_shell(ts, id, 0, ts.len() as int);
    if 0 <= at < ds.len() && ds[at].id == id && ds[at].agent_type == "shell"@ && (forall|k: int|
        0 <= k < at ==> (#[trigger] ds[k]).id != id || ds[k].agent_type != "shell"@) {
        lemma_bar(ds, id, 0, at);
    }
    if forall|k: int|
        0 <= k < ds.len() ==> (#[trigger] ds[k]).id != id || ds[k].agent_type != "shell"@ {
        lemma_bar(ds, id, 0, ds.len() as int);
    }
}

/// What a command has put out is shown line by line; where there is nothing, it is said whether
/// the command still runs.
pub proof fn output_is_shown_line_by_line(l: LiveV, d: DisplayV, out: Seq<char>, i: int)
    ensures
        l.output_preview == Some(out) && out.len() > 0 ==> output_of(Some(l), Some(d))
            == OutputV::Preview(out),
        l.output_preview is None || l.output_preview->0.len() == 0 ==> output_of(Some(l), Some(d))
            == (if l.status == BgLiveStatus::Running {
            OutputV::RunningNoStream
        } else {
            OutputV::NoOutput
        }),
        output_of(None, Some(d)) == (if d.is_active {
            OutputV::RunningNoStream
        } else {
            OutputV::NoOutput
        }),
        output_lines(OutputV::Preview(out)).len() == 1 + lines_of(out).len(),
        0 <= i < lines_of(out).len() ==> output_lines(OutputV::Preview(out))[1 + i][0].words
            == WordsV::Literal("  "@ + lines_of(out)[i]),
{
}

proof fn lemma_run(runs: Seq<TuiRunProgress>, id: Seq<char>, i: int, at: int)
    requires
        0 <= i <= at <= runs.len(),
        at < runs.len() ==> runs[at].run_id@ == id,
        forall|k: int| i <= k < at ==> (#[trigger] runs[k]).run_id@ != id,
    ensures
        run_from(runs, id, i) == (if at < runs.len() {
            Some(at)
        } else {
            None
        }),
    decreases at - i,
{
    if i < at {
        lemma_run(runs, id, i + 1, at);
    }
}

/// A run is found by its id, the first where there are several, and a selection stays within the
/// runs.
pub proof fn a_run_is_found_by_id(runs: Seq<TuiRunProgress>, id: Seq<char>, at: int, count: int)
    ensures
        0 <= at < runs.len() && runs[at].run_id@ == id && (forall|k: int|
            0 <= k < at ==> (#[trigger] runs[k]).run_id@ != id) ==> run_from(runs, id, 0) == Some(
            at,
        ),
        (forall|k: int| 0 <= k < runs.len() ==> (#[trigger] runs[k]).run_id@ != id) ==> run_from(
            runs,
            id,
            0,
        ) is None,
        0 <= at < count ==> clamped(at, count) == at,
        count > 0 && at >= count ==> clamped(at, count) == count - 1,
        clamped(at, 0) == 0,
{
    if 0 <= at < runs.len() && runs[at].run_id@ == id && (forall|k: int|
        0 <= k < at ==> (#[trigger] runs[k]).run_id@ != id) {
        lemma_run(runs, id, 0, at);
    }
    if forall|k: int| 0 <= k < runs.len() ==> (#[trigger] runs[k]).run_id@ != id {
        lemma_run(runs, id, 0, runs.len() as int);
    }
}

/// A model that fits its cell is followed by blanks up to the width of the cell.
pub proof fn a_cell_is_filled_up(model: &str, width: usize)
    requires
        str_width_of(model@) <= width,
    ensures
        cell_of(Some(model), width).len() == model@.len() + (width - str_width_of(model@)),
        cell_of(Some(model), width).take(model@.len() as int) == model@,
        forall|k: int|
            model@.len() <= k < cell_of(Some(model), width).len() ==> (#[trigger] cell_of(
                Some(model),
                width,
            )[k]) == ' ',
{
    assert(cell_of(Some(model), width).take(model@.len() as int) =~= model@);
}

/// The page of a command tells its process, when it began, how it stands and what it put out.
pub proof fn the_page_of_a_command_tells_of_it(
    c: ContextV,
    d: Option<DisplayV>,
    l: LiveV,
    pid: u32,
    began: Seq<char>,
    out: Seq<char>,
    i: int,
)
    requires
        c.pid == Some(pid),
        c.started_at == Some(began),
        began.len() > 0,
        l.output_preview == Some(out),
        out.len() > 0,
    ensures
        ({
            let p = known_lines(c, d, Some(l));
            &&& p[0][0].words == WordsV::Literal(c.summary)
            &&& p[1][0].words == WordsV::Literal("  id: "@ + c.id)
            &&& p[2][0].words == WordsV::Literal("  pid: "@ + decimal(pid as nat))
            &&& p[3][0].words == WordsV::Literal("  started: "@ + began)
            &&& p[4][0].words == WordsV::Message(
                match l.status {
                    BgLiveStatus::Running => "shell-detail-status-running"@,
                    BgLiveStatus::Succeeded => "shell-detail-status-succeeded"@,
                    BgLiveStatus::Failed => "shell-detail-status-failed"@,
                    BgLiveStatus::Cancelled => "shell-detail-status-cancelled"@,
                },
                Seq::empty(),
            )
            &&& 0 <= i < lines_of(out).len() ==> p[7 + i][0].words == WordsV::Literal(
                "  "@ + lines_of(out)[i],
            )
            &&& p.len() == 7 + lines_of(out).len()
        }),
{
}

} // verus!
