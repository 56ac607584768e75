//! Tasks that run in the background, and what is known of them.

use crate::text::{opt_view, same};
use crate::view_models::TuiRenderUnit;
use vstd::prelude::*;

verus! {

/// A task that is running.
#[derive(Debug)]
pub struct BgTaskEntry {
    pub task_id: String,
    pub kind: String,
    pub summary: String,
    pub started_at: String,
    pub pid: Option<u32>,
}

/// A running task, abstractly.
pub struct TaskV {
    pub id: Seq<char>,
    pub kind: Seq<char>,
    pub summary: Seq<char>,
    pub started_at: Seq<char>,
    pub pid: Option<u32>,
}

impl View for BgTaskEntry {
    type V = TaskV;

    open spec fn view(&self) -> TaskV {
        TaskV {
            id: self.task_id@,
            kind: self.kind@,
            summary: self.summary@,
            started_at: self.started_at@,
            pid: self.pid,
        }
    }
}

/// A task as the bar shows it, also for a while after its end.
#[derive(Debug)]
pub struct BgDisplayEntry {
    pub id: String,
    pub linked_agent_id: Option<String>,
    pub agent_type: String,
    pub desc: String,
    pub is_active: bool,
    pub is_error: bool,
}

/// A task as the bar shows it, abstractly.
pub struct DisplayV {
    pub id: Seq<char>,
    pub linked: Option<Seq<char>>,
    pub agent_type: Seq<char>,
    pub desc: Seq<char>,
    pub is_active: bool,
    pub is_error: bool,
}

impl View for BgDisplayEntry {
    type V = DisplayV;

    open spec fn view(&self) -> DisplayV {
        DisplayV {
            id: self.id@,
            linked: opt_view(self.linked_agent_id),
            agent_type: self.agent_type@,
            desc: self.desc@,
            is_active: self.is_active,
            is_error: self.is_error,
        }
    }
}

/// How a task stands.
#[derive(Debug, Clone, Copy, PartialEq, Eq, Structural)]
pub enum BgLiveStatus {
    Running,
    Succeeded,
    Failed,
    Cancelled,
}

/// What a task has reported.
#[derive(Debug)]
pub struct BgLiveDetail {
    pub status: BgLiveStatus,
    pub kind: String,
    pub summary: String,
    pub pid: Option<u32>,
    pub output_preview: Option<String>,
    pub cancel_reason: Option<String>,
    pub agent_id: Option<String>,
    pub agent_name: Option<String>,
    pub nested_units: Vec<TuiRenderUnit>,
    pub subagent_is_error: bool,
    pub subagent_result: Option<String>,
}

/// What a task has reported, abstractly.
pub struct LiveV {
    pub status: BgLiveStatus,
    pub kind: Seq<char>,
    pub summary: Seq<char>,
    pub pid: Option<u32>,
    pub output_preview: Option<Seq<char>>,
    pub cancel_reason: Option<Seq<char>>,
    pub agent_id: Option<Seq<char>>,
    pub agent_name: Option<Seq<char>>,
    pub units: Seq<TuiRenderUnit>,
    pub is_error: bool,
    pub result: Option<Seq<char>>,
}

impl View for BgLiveDetail {
    type V = LiveV;

    open spec fn view(&self) -> LiveV {
        LiveV {
            status: self.status,
            kind: self.kind@,
            summary: self.summary@,
            pid: self.pid,
            output_preview: opt_view(self.output_preview),
            cancel_reason: opt_view(self.cancel_reason),
            agent_id: opt_view(self.agent_id),
            agent_name: opt_view(self.agent_name),
            units: self.nested_units@,
            is_error: self.subagent_is_error,
            result: opt_view(self.subagent_result),
        }
    }
}

impl Default for BgLiveDetail {
    fn default() -> (d: BgLiveDetail)
        ensures
            d@ == (LiveV {
                status: BgLiveStatus::Running,
                kind: ""@,
                summary: ""@,
                pid: None,
                output_preview: None,
                cancel_reason: None,
                agent_id: None,
                agent_name: None,
                units: Seq::empty(),
                is_error: false,
                result: None,
            }),
    {
        BgLiveDetail {
            status: BgLiveStatus::Running,
            kind: "".to_owned(),
            summary: "".to_owned(),
            pid: None,
            output_preview: None,
            cancel_reason: None,
            agent_id: None,
            agent_name: None,
            nested_units: Vec::new(),
            subagent_is_error: false,
            subagent_result: None,
        }
    }
}

/// A report under the id of its task.
#[derive(Debug)]
pub struct LiveEntry {
    pub task_id: String,
    pub detail: BgLiveDetail,
}

/// The reports of the tasks. Where an id stands twice the first counts.
#[derive(Debug)]
pub struct LiveDetails {
    pub list: Vec<LiveEntry>,
}

impl View for LiveDetails {
    type V = Seq<(Seq<char>, LiveV)>;

    open spec fn view(&self) -> Seq<(Seq<char>, LiveV)> {
        self.list@.map_values(|e: LiveEntry| (e.task_id@, e.detail@))
    }
}

/// The position of the report of a task, or the length.
pub open spec fn live_at(ls: Seq<(Seq<char>, LiveV)>, id: Seq<char>, i: int) -> int
    decreases ls.len() - i,
{
    if i < 0 || i >= ls.len() || ls[i].0 == id {
        i
    } else {
        live_at(ls, id, i + 1)
    }
}

/// The report of a task.
pub open spec fn live_of(ls: Seq<(Seq<char>, LiveV)>, id: Seq<char>) -> Option<LiveV> {
    if live_at(ls, id, 0) < ls.len() {
        Some(ls[live_at(ls, id, 0)].1)
    } else {
        None
    }
}

impl LiveDetails {
    /// The report of a task.
    pub fn get(&self, id: &str) -> (r: Option<&BgLiveDetail>)
        ensures
            live_view(r) == live_of(self@, id@),
    {
        let mut i: usize = 0;
        while i < self.list.len()
            invariant
                i <= self.list@.len(),
                live_at(self@, id@, 0) == live_at(self@, id@, i as int),
            decreases self.list.len() - i,
        {
            assert(self@[i as int] == (self.list@[i as int].task_id@, self.list@[i as int].detail@));
            if same(self.list[i].task_id.as_str(), id) {
                return Some(&self.list[i].detail);
            }
            i = i + 1;
        }
        None
    }
}

/// A report, if there is one.
pub open spec fn live_view(d: Option<&BgLiveDetail>) -> Option<LiveV> {
    match d {
        Some(x) => Some(x@),
        None => None,
    }
}

/// The running tasks of a list.
pub open spec fn tasks_view(v: Seq<BgTaskEntry>) -> Seq<TaskV> {
    v.map_values(|t: BgTaskEntry| t@)
}

/// The tasks of the bar.
pub open spec fn displays_view(v: Seq<BgDisplayEntry>) -> Seq<DisplayV> {
    v.map_values(|d: BgDisplayEntry| d@)
}

} // verus!
