//! The panel about a shell task in the background.

use crate::background::{displays_view, live_of, live_view, tasks_view, BgDisplayEntry,
    BgLiveDetail, BgLiveStatus, BgTaskEntry, DisplayV, LiveDetails, LiveV, TaskV};
use crate::doc::{blank, bold, fg, lit, msg, Color, Doc, Line, Piece, PieceV, Style};
use crate::event::{Event, EventResult};
use crate::panels::subagent_detail::{handle_reading_event, key_closes};
use crate::text::{cat, cat3, decimal, decimal_text, lines_of, opt_str, opt_view, same,
    split_lines, text_views};
use vstd::prelude::*;

verus! {

/// A line of the panel.
pub type LineV = Seq<PieceV>;

/// The position of the running shell task of an id, or the length.
pub open spec fn shell_at(ts: Seq<TaskV>, id: Seq<char>, i: int) -> int
    decreases ts.len() - i,
{
    if i < 0 || i >= ts.len() || (ts[i].id == id && ts[i].kind == "shell"@) {
        i
    } else {
        shell_at(ts, id, i + 1)
    }
}

/// The running shell task of an id.
pub open spec fn shell_task(ts: Seq<TaskV>, id: Seq<char>) -> Option<TaskV> {
    if shell_at(ts, id, 0) < ts.len() {
        Some(ts[shell_at(ts, id, 0)])
    } else {
        None
    }
}

/// The position of the task of an id in the bar, a shell task where only those are looked
/// for, or the length.
pub open spec fn bar_at(ds: Seq<DisplayV>, id: Seq<char>, shell: bool, i: int) -> int
    decreases ds.len() - i,
{
    if i < 0 || i >= ds.len() || (ds[i].id == id && (shell ==> ds[i].agent_type == "shell"@)) {
        i
    } else {
        bar_at(ds, id, shell, i + 1)
    }
}

/// The task of an id in the bar.
pub open spec fn bar_row(ds: Seq<DisplayV>, id: Seq<char>, shell: bool) -> Option<DisplayV> {
    if bar_at(ds, id, shell, 0) < ds.len() {
        Some(ds[bar_at(ds, id, shell, 0)])
    } else {
        None
    }
}

/// What is said of a shell task at the top.
#[derive(Debug)]
pub struct ShellDetailContext {
    pub task_id: String,
    pub summary: String,
    pub pid: Option<u32>,
    pub started_at: Option<String>,
}

/// What is said of a shell task at the top, abstractly.
pub struct ContextV {
    pub id: Seq<char>,
    pub summary: Seq<char>,
    pub pid: Option<u32>,
    pub started_at: Option<Seq<char>>,
}

impl View for ShellDetailContext {
    type V = ContextV;

    open spec fn view(&self) -> ContextV {
        ContextV {
            id: self.task_id@,
            summary: self.summary@,
            pid: self.pid,
            started_at: opt_view(self.started_at),
        }
    }
}

/// The process of a report.
pub open spec fn pid_of(l: Option<LiveV>) -> Option<u32> {
    match l {
        Some(l) => l.pid,
        None => None,
    }
}

/// What is said of the shell task of an id: from the running tasks, else from the bar,
/// else from its report.
pub open spec fn context_of(
    ts: Seq<TaskV>,
    ds: Seq<DisplayV>,
    ls: Seq<(Seq<char>, LiveV)>,
    id: Option<Seq<char>>,
) -> Option<ContextV> {
    match id {
        Some(id) => match shell_task(ts, id) {
            Some(t) => Some(
                ContextV {
                    id: t.id,
                    summary: t.summary,
                    pid: t.pid,
                    started_at: Some(t.started_at),
                },
            ),
            None => match bar_row(ds, id, true) {
                Some(d) => Some(
                    ContextV {
                        id,
                        summary: d.desc,
                        pid: pid_of(live_of(ls, id)),
                        started_at: None,
                    },
                ),
                None => match live_of(ls, id) {
                    Some(l) => if l.kind == "shell"@ {
                        Some(ContextV { id, summary: l.summary, pid: l.pid, started_at: None })
                    } else {
                        None
                    },
                    None => None,
                },
            },
        },
        None => None,
    }
}

/// The running shell task of an id.
pub fn resolve_shell_task<'a>(tasks: &'a Vec<BgTaskEntry>, task_id: Option<&str>) -> (r: Option<
    &'a BgTaskEntry,
>)
    ensures
        (match r {
            Some(t) => Some(t@),
            None => None,
        }) == (match opt_str(task_id) {
            Some(id) => shell_task(tasks_view(tasks@), id),
            None => None,
        }),
{
    let id = match task_id {
        Some(id) => id,
        None => {
            return None;
        },
    };
    let ghost ts = tasks_view(tasks@);
    let mut i: usize = 0;
    while i < tasks.len()
        invariant
            i <= tasks@.len(),
            opt_str(task_id) == Some(id@),
            ts == tasks_view(tasks@),
            shell_at(ts, id@, 0) == shell_at(ts, id@, i as int),
        decreases tasks.len() - i,
    {
        assert(ts[i as int] == tasks@[i as int]@);
        if same(tasks[i].task_id.as_str(), id) && same(tasks[i].kind.as_str(), "shell") {
            return Some(&tasks[i]);
        }
        i = i + 1;
    }
    None
}

fn find_bar_row<'a>(display: &'a Vec<BgDisplayEntry>, id: &str, shell: bool) -> (r: Option<
    &'a BgDisplayEntry,
>)
    ensures
        (match r {
            Some(d) => Some(d@),
            None => None,
        }) == bar_row(displays_view(display@), id@, shell),
{
    let ghost ds = displays_view(display@);
    let mut i: usize = 0;
    while i < display.len()
        invariant
            i <= display@.len(),
            ds == displays_view(display@),
            bar_at(ds, id@, shell, 0) == bar_at(ds, id@, shell, i as int),
        decreases display.len() - i,
    {
        assert(ds[i as int] == display@[i as int]@);
        if same(display[i].id.as_str(), id) && (!shell || same(
            display[i].agent_type.as_str(),
            "shell",
        )) {
            return Some(&display[i]);
        }
        i = i + 1;
    }
    None
}

/// What is said of the shell task of an id.
pub fn resolve_shell_detail_context(
    tasks: &Vec<BgTaskEntry>,
    display: &Vec<BgDisplayEntry>,
    live: &LiveDetails,
    task_id: Option<&str>,
) -> (r: Option<ShellDetailContext>)
    ensures
        (match r {
            Some(c) => Some(c@),
            None => None,
        }) == context_of(
            tasks_view(tasks@),
            displays_view(display@),
            live@,
            opt_str(task_id),
        ),
{
    let id = match task_id {
        Some(id) => id,
        None => {
            return None;
        },
    };
    match resolve_shell_task(tasks, task_id) {
        Some(t) => {
            return Some(
                ShellDetailContext {
                    task_id: t.task_id.clone(),
                    summary: t.summary.clone(),
                    pid: t.pid,
                    started_at: Some(t.started_at.clone()),
                },
            );
        },
        None => {},
    }
    let report = live.get(id);
    match find_bar_row(display, id, true) {
        Some(d) => {
            return Some(
                ShellDetailContext {
                    task_id: id.to_owned(),
                    summary: d.desc.clone(),
                    pid: match report {
                        Some(l) => l.pid,
                        None => None,
                    },
                    started_at: None,
                },
            );
        },
        None => {},
    }
    match report {
        Some(l) => if same(l.kind.as_str(), "shell") {
            Some(
                ShellDetailContext {
                    task_id: id.to_owned(),
                    summary: l.summary.clone(),
                    pid: l.pid,
                    started_at: None,
                },
            )
        } else {
            None
        },
        None => None,
    }
}

/// What is shown of the output.
#[derive(Debug)]
pub enum OutputSection {
    Preview(String),
    RunningNoStream,
    NoOutput,
}

/// What is shown of the output, abstractly.
pub enum OutputV {
    Preview(Seq<char>),
    RunningNoStream,
    NoOutput,
}

impl View for OutputSection {
    type V = OutputV;

    open spec fn view(&self) -> OutputV {
        match *self {
            OutputSection::Preview(t) => OutputV::Preview(t@),
            OutputSection::RunningNoStream => OutputV::RunningNoStream,
            OutputSection::NoOutput => OutputV::NoOutput,
        }
    }
}

/// The task is running, as far as is known.
pub open spec fn is_running(l: Option<LiveV>, d: Option<DisplayV>) -> bool {
    match l {
        Some(l) => l.status == BgLiveStatus::Running,
        None => match d {
            Some(d) => d.is_active,
            None => true,
        },
    }
}

/// The output that was reported, if there is some.
pub open spec fn preview_of(l: Option<LiveV>) -> Option<Seq<char>> {
    match l {
        Some(l) => match l.output_preview {
            Some(t) => if t.len() > 0 {
                Some(t)
            } else {
                None
            },
            None => None,
        },
        None => None,
    }
}

/// What is shown of the output: what was reported, else that the task runs or that there
/// is nothing.
pub open spec fn output_of(l: Option<LiveV>, d: Option<DisplayV>) -> OutputV {
    match preview_of(l) {
        Some(t) => OutputV::Preview(t),
        None => if is_running(l, d) {
            OutputV::RunningNoStream
        } else {
            OutputV::NoOutput
        },
    }
}

/// A task of the bar, if there is one.
pub open spec fn bar_view(d: Option<&BgDisplayEntry>) -> Option<DisplayV> {
    match d {
        Some(x) => Some(x@),
        None => None,
    }
}

/// What is shown of the output.
pub fn output_section(live: Option<&BgLiveDetail>, display: Option<&BgDisplayEntry>) -> (r:
    OutputSection)
    ensures
        r@ == output_of(live_view(live), bar_view(display)),
{
    let running = match live {
        Some(l) => {
            match &l.output_preview {
                Some(t) => {
                    if !t.as_str().is_empty() {
                        return OutputSection::Preview(t.clone());
                    }
                },
                None => {},
            }
            l.status == BgLiveStatus::Running
        },
        None => match display {
            Some(d) => d.is_active,
            None => true,
        },
    };
    if running {
        OutputSection::RunningNoStream
    } else {
        OutputSection::NoOutput
    }
}

/// The message key of a status.
pub open spec fn status_key(s: BgLiveStatus) -> Seq<char> {
    match s {
        BgLiveStatus::Running => "shell-detail-status-running"@,
        BgLiveStatus::Succeeded => "shell-detail-status-succeeded"@,
        BgLiveStatus::Failed => "shell-detail-status-failed"@,
        BgLiveStatus::Cancelled => "shell-detail-status-cancelled"@,
    }
}

/// The line of the status: what was reported, with the reason of a cancellation where one
/// is given, else what the bar shows.
pub open spec fn status_line(d: Option<DisplayV>, l: Option<LiveV>) -> LineV {
    match l {
        Some(l) => seq![msg(status_key(l.status), fg(Color::Muted))] + (match l.cancel_reason {
            Some(r) => if r.len() > 0 {
                seq![lit(" ("@ + r + ")"@, fg(Color::Muted))]
            } else {
                Seq::empty()
            },
            None => Seq::empty(),
        }),
        None => seq![
            msg(
                match d {
                    Some(d) => if d.is_error {
                        status_key(BgLiveStatus::Failed)
                    } else if d.is_active {
                        status_key(BgLiveStatus::Running)
                    } else {
                        status_key(BgLiveStatus::Succeeded)
                    },
                    None => status_key(BgLiveStatus::Running),
                },
                fg(Color::Muted),
            ),
        ],
    }
}

/// The process and the time of the start, as far as they are known.
pub open spec fn origin_lines(c: ContextV) -> Seq<LineV> {
    (match c.pid {
        Some(p) => seq![seq![lit("  pid: "@ + decimal(p as nat), fg(Color::Dim))]],
        None => Seq::empty(),
    }) + (match c.started_at {
        Some(t) => if t.len() > 0 {
            seq![seq![lit("  started: "@ + t, fg(Color::Dim))]]
        } else {
            Seq::empty()
        },
        None => Seq::empty(),
    })
}

/// The lines of the output.
pub open spec fn output_lines(o: OutputV) -> Seq<LineV> {
    match o {
        OutputV::Preview(t) => seq![
            seq![msg("shell-detail-output-preview"@, fg(Color::Dim))],
        ] + lines_of(t).map_values(|l: Seq<char>| seq![lit("  "@ + l, fg(Color::Plain))]),
        OutputV::RunningNoStream => seq![
            seq![msg("shell-detail-running"@, fg(Color::Muted))],
            seq![msg("shell-detail-no-output"@, fg(Color::Muted))],
        ],
        OutputV::NoOutput => seq![seq![msg("shell-detail-no-output"@, fg(Color::Muted))]],
    }
}

/// What the panel shows of a task that is known.
pub open spec fn known_lines(c: ContextV, d: Option<DisplayV>, l: Option<LiveV>) -> Seq<LineV> {
    seq![
        seq![lit(c.summary, bold(Color::Title))],
        seq![lit("  id: "@ + c.id, fg(Color::Dim))],
    ] + origin_lines(c) + seq![status_line(d, l), blank()] + output_lines(output_of(l, d))
}

/// What the panel shows of an id, nothing of one that is not known.
pub open spec fn shell_lines(
    ts: Seq<TaskV>,
    ds: Seq<DisplayV>,
    ls: Seq<(Seq<char>, LiveV)>,
    id: Option<Seq<char>>,
) -> Seq<LineV> {
    match context_of(ts, ds, ls, id) {
        Some(c) => known_lines(c, bar_row(ds, c.id, false), live_of(ls, c.id)),
        None => Seq::empty(),
    }
}

fn show_status(display: Option<&BgDisplayEntry>, live: Option<&BgLiveDetail>) -> (l: Line)
    ensures
        l@ == status_line(bar_view(display), live_view(live)),
{
    let muted = Style::fg(Color::Muted);
    match live {
        Some(d) => {
            let key = match d.status {
                BgLiveStatus::Running => "shell-detail-status-running",
                BgLiveStatus::Succeeded => "shell-detail-status-succeeded",
                BgLiveStatus::Failed => "shell-detail-status-failed",
                BgLiveStatus::Cancelled => "shell-detail-status-cancelled",
            };
            let mut l = Line::of(Piece::msg(key, muted));
            match &d.cancel_reason {
                Some(r) => {
                    if !r.as_str().is_empty() {
                        l.push(Piece::text(cat3(" (", r.as_str(), ")"), muted));
                    }
                },
                None => {},
            }
            assert(l@ =~= status_line(bar_view(display), live_view(live)));
            l
        },
        None => {
            let key = match display {
                Some(d) => if d.is_error {
                    "shell-detail-status-failed"
                } else if d.is_active {
                    "shell-detail-status-running"
                } else {
                    "shell-detail-status-succeeded"
                },
                None => "shell-detail-status-running",
            };
            Line::of(Piece::msg(key, muted))
        },
    }
}

fn show_output(o: &OutputSection) -> (d: Doc)
    ensures
        d@ == output_lines(o@),
{
    let mut d = Doc::new();
    match o {
        OutputSection::Preview(t) => {
            d.line(Piece::msg("shell-detail-output-preview", Style::fg(Color::Dim)));
            let lines = split_lines(t.as_str());
            let ghost head = d@;
            let ghost all = lines_of(t@).map_values(
                |l: Seq<char>| seq![lit("  "@ + l, fg(Color::Plain))],
            );
            let mut i: usize = 0;
            assert(d@ =~= head + all.take(0));
            while i < lines.len()
                invariant
                    i <= lines@.len(),
                    text_views(lines@) == lines_of(t@),
                    all == lines_of(t@).map_values(
                        |l: Seq<char>| seq![lit("  "@ + l, fg(Color::Plain))],
                    ),
                    d@ == head + all.take(i as int),
                decreases lines.len() - i,
            {
                assert(text_views(lines@)[i as int] == lines@[i as int]@);
                d.line(Piece::text(cat("  ", lines[i].as_str()), Style::fg(Color::Plain)));
                i = i + 1;
                assert(d@ =~= head + all.take(i as int));
            }
            assert(all.take(i as int) =~= all);
        },
        OutputSection::RunningNoStream => {
            d.line(Piece::msg("shell-detail-running", Style::fg(Color::Muted)));
            d.line(Piece::msg("shell-detail-no-output", Style::fg(Color::Muted)));
        },
        OutputSection::NoOutput => {
            d.line(Piece::msg("shell-detail-no-output", Style::fg(Color::Muted)));
        },
    }
    assert(d@ =~= output_lines(o@));
    d
}

/// What the panel shows of an id, nothing of one that is not known.
pub fn build_shell_detail_lines(
    selected_id: Option<&str>,
    tasks: &Vec<BgTaskEntry>,
    display: &Vec<BgDisplayEntry>,
    live: &LiveDetails,
) -> (d: Doc)
    ensures
        d@ == shell_lines(
            tasks_view(tasks@),
            displays_view(display@),
            live@,
            opt_str(selected_id),
        ),
{
    let mut d = Doc::new();
    let c = match resolve_shell_detail_context(tasks, display, live, selected_id) {
        Some(c) => c,
        None => {
            return d;
        },
    };
    let row = find_bar_row(display, c.task_id.as_str(), false);
    let report = live.get(c.task_id.as_str());
    let dim = Style::fg(Color::Dim);
    d.line(Piece::lit(c.summary.as_str(), Style::bold(Color::Title)));
    d.line(Piece::text(cat("  id: ", c.task_id.as_str()), dim));
    match c.pid {
        Some(p) => {
            d.line(Piece::text(cat("  pid: ", decimal_text(p as u64).as_str()), dim));
        },
        None => {},
    }
    match &c.started_at {
        Some(t) => {
            if !t.as_str().is_empty() {
                d.line(Piece::text(cat("  started: ", t.as_str()), dim));
            }
        },
        None => {},
    }
    d.push(show_status(row, report));
    d.blank();
    d.extend(show_output(&output_section(report, row)));
    assert(d@ =~= known_lines(c@, bar_view(row), live_view(report)));
    d
}

/// The panel: it is only read.
#[derive(Debug, Clone, Copy, PartialEq, Eq, Structural)]
pub struct ShellDetailPanel {}

impl ShellDetailPanel {
    /// Deals with an input: whether it is used up, and whether the panel closes.
    pub fn handle_event(&self, event: &Event) -> (r: (EventResult, bool))
        ensures
            r == key_closes(*event),
    {
        handle_reading_event(event)
    }

    /// What the panel shows: the task, or that it is not known.
    pub fn lines(
        &self,
        selected_id: Option<&str>,
        tasks: &Vec<BgTaskEntry>,
        display: &Vec<BgDisplayEntry>,
        live: &LiveDetails,
    ) -> (d: Doc)
        ensures
            ({
                let shown = shell_lines(
                    tasks_view(tasks@),
                    displays_view(display@),
                    live@,
                    opt_str(selected_id),
                );
                d@ == (if shown.len() == 0 {
                    seq![seq![msg("shell-detail-not-found"@, fg(Color::Muted))]]
                } else {
                    shown
                })
            }),
    {
        let mut d = build_shell_detail_lines(selected_id, tasks, display, live);
        if d.lines.len() == 0 {
            d.line(Piece::msg("shell-detail-not-found", Style::fg(Color::Muted)));
            assert(d@ =~= seq![seq![msg("shell-detail-not-found"@, fg(Color::Muted))]]);
        }
        d
    }
}

/// A shell task can be looked at as long as any of the lists knows it: also after it has
/// left the running tasks and the bar.
pub proof fn known_tasks_are_shown(
    ts: Seq<TaskV>,
    ds: Seq<DisplayV>,
    ls: Seq<(Seq<char>, LiveV)>,
    id: Seq<char>,
)
    ensures
        shell_task(ts, id) is Some || bar_row(ds, id, true) is Some || (live_of(
            ls,
            id,
        ) matches Some(l) && l.kind == "shell"@) ==> shell_lines(ts, ds, ls, Some(id)).len() > 0,
{
}

} // verus!
