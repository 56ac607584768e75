//! The panel that shows what a helper of the agent did.

use crate::background::{displays_view, live_of, BgDisplayEntry, BgLiveStatus, DisplayV,
    LiveDetails, LiveV};
use crate::doc::{blank, bold, fg, lit, msg, Color, Doc, Piece, PieceV, Style};
use crate::event::{Event, EventResult, KeyCode};
use crate::text::{cat3, opt_str, same};
use crate::view_models::{all_groups, groups, referents, TuiRenderUnit, TuiSubAgentGroup,
    ViewModelsSnapshot};
use vstd::prelude::*;

verus! {

/// A line of the panel.
pub type LineV = Seq<PieceV>;

/// As many rows as a height can count, one at least.
pub open spec fn height_of(rows: nat) -> u16 {
    if rows == 0 {
        1
    } else if rows > u16::MAX {
        u16::MAX
    } else {
        rows as u16
    }
}

/// The height of the content: its lines, one at least and as many as a height can count.
pub fn scroll_content_height(line_count: usize) -> (r: u16)
    ensures
        r == height_of(line_count as nat),
{
    if line_count == 0 {
        1
    } else if line_count > 65535 {
        65535
    } else {
        line_count as u16
    }
}

/// The group has the id, as its own or as that of its helper.
pub open spec fn is_group(g: TuiSubAgentGroup, id: Seq<char>) -> bool {
    g.instance_id@ == id || g.agent_id@ == id
}

/// The first group of an id at or behind a position, or the length.
pub open spec fn group_at(gs: Seq<TuiSubAgentGroup>, id: Seq<char>, i: int) -> int
    decreases gs.len() - i,
{
    if i < 0 || i >= gs.len() || is_group(gs[i], id) {
        i
    } else {
        group_at(gs, id, i + 1)
    }
}

/// The first group of an id in a timeline, those within a group after it.
pub open spec fn found_group(s: ViewModelsSnapshot, id: Option<Seq<char>>) -> Option<
    TuiSubAgentGroup,
> {
    match id {
        Some(id) => if group_at(groups(s), id, 0) < groups(s).len() {
            Some(groups(s)[group_at(groups(s), id, 0)])
        } else {
            None
        },
        None => None,
    }
}

/// The first group of an id in a timeline.
pub fn find_selected_subagent<'a>(snap: &'a ViewModelsSnapshot, selected_id: Option<&str>) -> (r:
    Option<&'a TuiSubAgentGroup>)
    ensures
        match r {
            Some(g) => found_group(*snap, opt_str(selected_id)) == Some(*g),
            None => found_group(*snap, opt_str(selected_id)) is None,
        },
{
    let id = match selected_id {
        Some(id) => id,
        None => {
            return None;
        },
    };
    let all = all_groups(snap);
    let ghost gs = groups(*snap);
    let mut i: usize = 0;
    while i < all.len()
        invariant
            i <= all@.len(),
            opt_str(selected_id) == Some(id@),
            gs == groups(*snap),
            gs == referents(all@),
            group_at(gs, id@, 0) == group_at(gs, id@, i as int),
        decreases all.len() - i,
    {
        assert(gs[i as int] == *all@[i as int]);
        let g: &'a TuiSubAgentGroup = all[i];
        if same(g.instance_id.as_str(), id) || same(g.agent_id.as_str(), id) {
            return Some(g);
        }
        i = i + 1;
    }
    None
}

/// What is shown of a helper.
#[derive(Debug)]
pub struct SubAgentDetail<'a> {
    pub instance_id: &'a str,
    pub agent_id: &'a str,
    pub agent_name: &'a str,
    pub view_models: &'a Vec<TuiRenderUnit>,
    pub is_running: bool,
    pub is_error: bool,
    pub error_reason: Option<&'a str>,
}

/// What is shown of a helper, abstractly.
pub struct DetailV {
    pub instance_id: Seq<char>,
    pub agent_id: Seq<char>,
    pub agent_name: Seq<char>,
    pub units: Seq<TuiRenderUnit>,
    pub is_running: bool,
    pub is_error: bool,
    pub error_reason: Option<Seq<char>>,
}

impl<'a> View for SubAgentDetail<'a> {
    type V = DetailV;

    open spec fn view(&self) -> DetailV {
        DetailV {
            instance_id: self.instance_id@,
            agent_id: self.agent_id@,
            agent_name: self.agent_name@,
            units: self.view_models@,
            is_running: self.is_running,
            is_error: self.is_error,
            error_reason: opt_str(self.error_reason),
        }
    }
}

/// What is shown of a helper, if anything is.
pub open spec fn detail_view(d: Option<SubAgentDetail>) -> Option<DetailV> {
    match d {
        Some(x) => Some(x@),
        None => None,
    }
}

/// The last of the first tasks of the bar that belongs to a helper, or -1.
pub open spec fn linked_before(ds: Seq<DisplayV>, agent: Seq<char>, n: int) -> int
    decreases n,
{
    if n <= 0 || ds[n - 1].linked == Some(agent) {
        n - 1
    } else {
        linked_before(ds, agent, n - 1)
    }
}

/// The task that an id means: the task of that id where it has a report, else the latest
/// task of the bar that belongs to the helper of that id.
pub open spec fn task_meant(
    ls: Seq<(Seq<char>, LiveV)>,
    ds: Seq<DisplayV>,
    id: Seq<char>,
) -> Option<Seq<char>> {
    let k = linked_before(ds, id, ds.len() as int);
    if live_of(ls, id) is Some {
        Some(id)
    } else if k >= 0 {
        Some(ds[k].id)
    } else {
        None
    }
}

/// The text, or another where there is none.
pub open spec fn or_else(t: Option<Seq<char>>, other: Seq<char>) -> Seq<char> {
    match t {
        Some(x) => x,
        None => other,
    }
}

/// What is shown of a report.
pub open spec fn live_detail(task: Seq<char>, id: Seq<char>, l: LiveV) -> DetailV {
    DetailV {
        instance_id: task,
        agent_id: or_else(l.agent_id, id),
        agent_name: or_else(l.agent_name, l.summary),
        units: l.units,
        is_running: l.status == BgLiveStatus::Running,
        is_error: l.is_error,
        error_reason: l.result,
    }
}

/// What the reports say of a helper.
pub open spec fn reported(
    ls: Seq<(Seq<char>, LiveV)>,
    ds: Seq<DisplayV>,
    id: Option<Seq<char>>,
) -> Option<DetailV> {
    match id {
        Some(id) => match task_meant(ls, ds, id) {
            Some(task) => match live_of(ls, task) {
                Some(l) => Some(live_detail(task, id, l)),
                None => None,
            },
            None => None,
        },
        None => None,
    }
}

fn as_ref_text<'a>(t: &'a Option<String>) -> (r: Option<&'a str>)
    ensures
        opt_str(r) == crate::text::opt_view(*t),
{
    match t {
        Some(s) => Some(s.as_str()),
        None => None,
    }
}

/// What the reports say of a helper.
pub fn find_live_detail_subagent<'a>(
    live: &'a LiveDetails,
    display: &'a Vec<BgDisplayEntry>,
    selected_id: Option<&'a str>,
) -> (r: Option<SubAgentDetail<'a>>)
    ensures
        detail_view(r) == reported(live@, displays_view(display@), opt_str(selected_id)),
{
    let id = match selected_id {
        Some(id) => id,
        None => {
            return None;
        },
    };
    let ghost ds = displays_view(display@);
    let task: &'a str = match live.get(id) {
        Some(_) => id,
        None => {
            let mut n: usize = display.len();
            while n > 0 && !linked_to(&display[n - 1], id)
                invariant
                    n <= display@.len(),
                    ds == displays_view(display@),
                    linked_before(ds, id@, ds.len() as int) == linked_before(ds, id@, n as int),
                decreases n,
            {
                assert(ds[n - 1] == display@[n - 1]@);
                n = n - 1;
            }
            if n == 0 {
                return None;
            }
            assert(ds[n - 1] == display@[n - 1]@);
            display[n - 1].id.as_str()
        },
    };
    let l = match live.get(task) {
        Some(l) => l,
        None => {
            return None;
        },
    };
    Some(
        SubAgentDetail {
            instance_id: task,
            agent_id: match &l.agent_id {
                Some(a) => a.as_str(),
                None => id,
            },
            agent_name: match &l.agent_name {
                Some(a) => a.as_str(),
                None => l.summary.as_str(),
            },
            view_models: &l.nested_units,
            is_running: l.status == BgLiveStatus::Running,
            is_error: l.subagent_is_error,
            error_reason: as_ref_text(&l.subagent_result),
        },
    )
}

fn linked_to(d: &BgDisplayEntry, agent: &str) -> (b: bool)
    ensures
        b == (d@.linked == Some(agent@)),
{
    match &d.linked_agent_id {
        Some(a) => same(a.as_str(), agent),
        None => false,
    }
}

/// What is shown of a group.
pub open spec fn group_detail(g: TuiSubAgentGroup) -> DetailV {
    DetailV {
        instance_id: g.instance_id@,
        agent_id: g.agent_id@,
        agent_name: g.agent_name@,
        units: g.view_models@,
        is_running: g.is_running,
        is_error: g.is_error,
        error_reason: crate::text::opt_view(g.error_reason),
    }
}

/// What is shown of an id: the group in the timeline, else what the reports say.
pub open spec fn selected_detail(
    s: ViewModelsSnapshot,
    ls: Seq<(Seq<char>, LiveV)>,
    ds: Seq<DisplayV>,
    id: Option<Seq<char>>,
) -> Option<DetailV> {
    match found_group(s, id) {
        Some(g) => Some(group_detail(g)),
        None => reported(ls, ds, id),
    }
}

/// What is shown of an id.
pub fn find_detail<'a>(
    snap: &'a ViewModelsSnapshot,
    live: &'a LiveDetails,
    display: &'a Vec<BgDisplayEntry>,
    selected_id: Option<&'a str>,
) -> (r: Option<SubAgentDetail<'a>>)
    ensures
        detail_view(r) == selected_detail(
            *snap,
            live@,
            displays_view(display@),
            opt_str(selected_id),
        ),
{
    match find_selected_subagent(snap, selected_id) {
        Some(g) => Some(
            SubAgentDetail {
                instance_id: g.instance_id.as_str(),
                agent_id: g.agent_id.as_str(),
                agent_name: g.agent_name.as_str(),
                view_models: &g.view_models,
                is_running: g.is_running,
                is_error: g.is_error,
                error_reason: as_ref_text(&g.error_reason),
            },
        ),
        None => find_live_detail_subagent(live, display, selected_id),
    }
}

/// Every key press is used up, and Escape closes the panel: whether it is used up, and
/// whether the panel closes.
pub open spec fn key_closes(event: Event) -> (EventResult, bool) {
    match event {
        Event::Key(key) => if key.press {
            (EventResult::Consumed, key.code == KeyCode::Esc)
        } else {
            (EventResult::Ignored, false)
        },
        _ => (EventResult::Ignored, false),
    }
}

/// Deals with an input to a panel that is only read: whether it is used up, and whether
/// the panel closes.
pub fn handle_reading_event(event: &Event) -> (r: (EventResult, bool))
    ensures
        r == key_closes(*event),
{
    match event {
        Event::Key(key) => if key.press {
            (EventResult::Consumed, key.code == KeyCode::Esc)
        } else {
            (EventResult::Ignored, false)
        },
        _ => (EventResult::Ignored, false),
    }
}

/// What stands above the units of a helper, or that it is not known.
pub open spec fn detail_head(d: Option<DetailV>) -> Seq<LineV> {
    match d {
        Some(d) => seq![
            seq![lit(d.agent_name, bold(Color::Title))],
            seq![lit("  ["@ + d.agent_id + "]"@, fg(Color::Dim))],
            blank(),
        ],
        None => seq![seq![msg("subagent-detail-not-found"@, fg(Color::Muted))]],
    }
}

/// The panel: it is only read.
#[derive(Debug, Clone, Copy, PartialEq, Eq, Structural)]
pub struct SubAgentDetailPanel {}

impl SubAgentDetailPanel {
    /// Deals with an input: whether it is used up, and whether the panel closes.
    pub fn handle_event(&self, event: &Event) -> (r: (EventResult, bool))
        ensures
            r == key_closes(*event),
    {
        handle_reading_event(event)
    }

    /// What stands above the units of a helper, or that it is not known.
    pub fn head_lines(&self, detail: Option<&SubAgentDetail>) -> (d: Doc)
        ensures
            d@ == detail_head(
                match detail {
                    Some(x) => Some(x@),
                    None => None,
                },
            ),
    {
        let mut d = Doc::new();
        match detail {
            Some(x) => {
                d.line(Piece::lit(x.agent_name, Style::bold(Color::Title)));
                d.line(Piece::text(cat3("  [", x.agent_id, "]"), Style::fg(Color::Dim)));
                d.blank();
            },
            None => {
                d.line(Piece::msg("subagent-detail-not-found", Style::fg(Color::Muted)));
            },
        }
        assert(d@ =~= detail_head(
            match detail {
                Some(x) => Some(x@),
                None => None,
            },
        ));
        d
    }
}

proof fn found_group_matches(gs: Seq<TuiSubAgentGroup>, id: Seq<char>, i: int)
    requires
        0 <= i <= gs.len(),
    ensures
        i <= group_at(gs, id, i) <= gs.len(),
        group_at(gs, id, i) < gs.len() ==> is_group(gs[group_at(gs, id, i)], id),
        forall|j: int| i <= j < group_at(gs, id, i) ==> !is_group(#[trigger] gs[j], id),
    decreases gs.len() - i,
{
    if i < gs.len() && !is_group(gs[i], id) {
        found_group_matches(gs, id, i + 1);
    }
}

/// What is found has the id; and something is found wherever a group in the timeline has
/// it.
pub proof fn selection_is_found(s: ViewModelsSnapshot, id: Seq<char>)
    ensures
        found_group(s, Some(id)) matches Some(g) ==> is_group(g, id),
        (exists|j: int| 0 <= j < groups(s).len() && is_group(#[trigger] groups(s)[j], id)) ==>
            found_group(s, Some(id)) is Some,
{
    found_group_matches(groups(s), id, 0);
}

} // verus!
