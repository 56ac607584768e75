//! The panel about the agent of the session.

use crate::doc::{blank, bold, fg, italic, lit, msg, msg_num, Color, Doc, Line, Piece, PieceV, Style};
use crate::event::{Event, EventResult, KeyCode};
use crate::list_nav::{next_sel, next_selection, prev_sel, previous_selection};
use crate::panels::config::{pad, padded, profile, PeriConfig, PeriV};
use crate::panels::subagent_detail::height_of;
use crate::paragraph::{line_texts, wrapped_content_height, wrapped_rows, MAX_WRAP_WIDTH};
use crate::text::{cat, cat3, cat4, decimal, decimal_text, head, head_spec, same, text_views};
use crate::view_models::{all_groups, groups, referents, TuiSubAgentGroup, ViewModelsSnapshot};
use vstd::prelude::*;

verus! {

/// A line of the panel.
pub type LineV = Seq<PieceV>;

// ── The helpers ────────────────────────────────────────────────────────────

/// A group of the helper is in the list.
pub open spec fn has_agent(gs: Seq<TuiSubAgentGroup>, agent: Seq<char>) -> bool {
    exists|k: int| 0 <= k < gs.len() && (#[trigger] gs[k]).agent_id@ == agent
}

/// The first group of each helper among the first groups.
pub open spec fn first_groups(gs: Seq<TuiSubAgentGroup>, to: int) -> Seq<TuiSubAgentGroup>
    decreases to,
{
    if to <= 0 {
        Seq::empty()
    } else {
        let rest = first_groups(gs, to - 1);
        if has_agent(rest, gs[to - 1].agent_id@) {
            rest
        } else {
            rest.push(gs[to - 1])
        }
    }
}

/// The helpers of a timeline, each once.
pub open spec fn subagents(s: ViewModelsSnapshot) -> Seq<TuiSubAgentGroup> {
    first_groups(groups(s), groups(s).len() as int)
}

proof fn first_groups_differ(gs: Seq<TuiSubAgentGroup>, to: int)
    requires
        to <= gs.len(),
    ensures
        forall|i: int, j: int|
            0 <= i < j < first_groups(gs, to).len() ==> (#[trigger] first_groups(
                gs,
                to,
            )[i]).agent_id@ != (#[trigger] first_groups(gs, to)[j]).agent_id@,
        forall|k: int|
            0 <= k < to ==> has_agent(first_groups(gs, to), (#[trigger] gs[k]).agent_id@),
    decreases to,
{
    if to > 0 {
        first_groups_differ(gs, to - 1);
        let rest = first_groups(gs, to - 1);
        let all = first_groups(gs, to);
        assert forall|k: int| 0 <= k < to implies has_agent(all, (#[trigger] gs[k]).agent_id@) by {
            if k == to - 1 && !has_agent(rest, gs[k].agent_id@) {
                assert(all[rest.len() as int] == gs[k]);
            } else {
                assert(has_agent(rest, gs[k].agent_id@));
                let i = choose|i: int|
                    0 <= i < rest.len() && (#[trigger] rest[i]).agent_id@ == gs[k].agent_id@;
                assert(all[i] == rest[i]);
            }
        }
        assert forall|i: int, j: int| 0 <= i < j < all.len() implies (
        #[trigger] all[i]).agent_id@ != (#[trigger] all[j]).agent_id@ by {
            if j == rest.len() {
                assert(all[i] == rest[i]);
            } else {
                assert(all[i] == rest[i] && all[j] == rest[j]);
            }
        }
    }
}

/// Each helper of the timeline is listed, and listed once.
pub proof fn each_helper_is_listed_once(s: ViewModelsSnapshot)
    ensures
        forall|i: int, j: int|
            0 <= i < j < subagents(s).len() ==> (#[trigger] subagents(s)[i]).agent_id@ != (
            #[trigger] subagents(s)[j]).agent_id@,
        forall|k: int|
            0 <= k < groups(s).len() ==> has_agent(
                subagents(s),
                (#[trigger] groups(s)[k]).agent_id@,
            ),
{
    first_groups_differ(groups(s), groups(s).len() as int);
}

/// The helpers of a timeline, each once.
pub fn collect_subagents(snap: &ViewModelsSnapshot) -> (r: Vec<&TuiSubAgentGroup>)
    ensures
        referents(r@) == subagents(*snap),
{
    let all = all_groups(snap);
    let ghost gs = groups(*snap);
    let mut out: Vec<&TuiSubAgentGroup> = Vec::new();
    let mut i: usize = 0;
    assert(referents(out@) =~= first_groups(gs, 0));
    while i < all.len()
        invariant
            i <= all@.len(),
            gs == groups(*snap),
            gs == referents(all@),
            referents(out@) == first_groups(gs, i as int),
        decreases all.len() - i,
    {
        let ghost before = referents(out@);
        let g = all[i];
        assert(gs[i as int] == *g);
        let known = has_id(&out, g.agent_id.as_str());
        if !known {
            out.push(g);
            assert(referents(out@) =~= before.push(*g));
        }
        i = i + 1;
    }
    out
}

fn has_id(gs: &Vec<&TuiSubAgentGroup>, agent: &str) -> (b: bool)
    ensures
        b == has_agent(referents(gs@), agent@),
{
    let ghost all = referents(gs@);
    let mut k: usize = 0;
    while k < gs.len()
        invariant
            k <= gs@.len(),
            all == referents(gs@),
            forall|j: int| 0 <= j < k ==> (#[trigger] all[j]).agent_id@ != agent@,
        decreases gs.len() - k,
    {
        assert(all[k as int] == *gs@[k as int]);
        if same(gs[k].agent_id.as_str(), agent) {
            return true;
        }
        k = k + 1;
    }
    false
}

// ── What an input does ─────────────────────────────────────────────────────

/// The panel: the row of the cursor.
#[derive(Debug, Clone, Copy, PartialEq, Eq, Structural)]
pub struct AgentPanel {
    pub cursor: usize,
}

impl Default for AgentPanel {
    fn default() -> (p: AgentPanel)
        ensures
            p.cursor == 0,
    {
        AgentPanel { cursor: 0 }
    }
}

/// The number of rows that the cursor moves over.
pub open spec fn row_count(subagents: int) -> int {
    8 + (if subagents > 1 {
        subagents
    } else {
        1
    })
}

/// What an input does: the cursor after it, whether it is used up, and whether the panel
/// closes.
pub open spec fn agent_step(cursor: int, subagents: int, event: Event) -> (int, EventResult, bool) {
    match event {
        Event::Key(key) => if !key.press {
            (cursor, EventResult::Ignored, false)
        } else {
            match key.code {
                KeyCode::Esc | KeyCode::Enter => (cursor, EventResult::Consumed, true),
                KeyCode::Up => (prev_sel(cursor), EventResult::Consumed, false),
                KeyCode::Down => (
                    next_sel(cursor, row_count(subagents)),
                    EventResult::Consumed,
                    false,
                ),
                _ => (cursor, EventResult::Consumed, false),
            }
        },
        _ => (cursor, EventResult::Ignored, false),
    }
}

impl AgentPanel {
    /// Deals with an input: whether it is used up, and whether the panel closes.
    pub fn handle_event(&mut self, event: &Event, subagent_count: usize) -> (r: (EventResult, bool))
        requires
            subagent_count <= usize::MAX - 8,
        ensures
            (final(self).cursor as int, r.0, r.1) == agent_step(
                old(self).cursor as int,
                subagent_count as int,
                *event,
            ),
    {
        match event {
            Event::Key(key) => {
                if !key.press {
                    return (EventResult::Ignored, false);
                }
                match key.code {
                    KeyCode::Esc | KeyCode::Enter => (EventResult::Consumed, true),
                    KeyCode::Up => {
                        self.cursor = previous_selection(self.cursor);
                        (EventResult::Consumed, false)
                    },
                    KeyCode::Down => {
                        let rows: usize = 8 + if subagent_count > 1 {
                            subagent_count
                        } else {
                            1
                        };
                        self.cursor = next_selection(self.cursor, rows);
                        (EventResult::Consumed, false)
                    },
                    _ => (EventResult::Consumed, false),
                }
            },
            _ => (EventResult::Ignored, false),
        }
    }
}

// ── What is shown ──────────────────────────────────────────────────────────

/// What the panel says of the session.
#[derive(Debug)]
pub struct SessionInfo {
    pub provider_name: String,
    pub model_alias: String,
    pub permission_mode: String,
    pub cwd: String,
    pub total_messages: usize,
}

/// The provider of the active model and its alias, `?` while the settings are not loaded.
pub open spec fn active(p: Option<PeriV>) -> (Seq<char>, Seq<char>) {
    match p {
        Some(p) => (
            match profile(p.profiles, p.alias) {
                Some(x) => x.provider,
                None => ""@,
            },
            p.alias,
        ),
        None => ("?"@, "?"@),
    }
}

/// The provider of the active model and its alias.
pub fn active_profile(cfg: Option<&PeriConfig>) -> (r: (String, String))
    ensures
        (r.0@, r.1@) == active(
            match cfg {
                Some(c) => Some(c@),
                None => None,
            },
        ),
{
    match cfg {
        Some(c) => {
            let provider = match c.config.profiles.get(c.config.active_alias.as_str()) {
                Some(p) => p.provider.clone(),
                None => "".to_owned(),
            };
            (provider, c.config.active_alias.clone())
        },
        None => ("?".to_owned(), "?".to_owned()),
    }
}

/// The values of the first six rows.
pub open spec fn values(
    info: SessionInfo,
    provider_id: Seq<char>,
    alias: Seq<char>,
) -> Seq<Seq<char>> {
    seq![
        info.provider_name@ + " ("@ + provider_id + ")"@,
        info.model_alias@ + " (alias: "@ + alias + ")"@,
        info.permission_mode@,
        info.cwd@,
        decimal(info.total_messages as nat),
        decimal(info.total_messages as nat),
    ]
}

/// A row about the session: at most sixty characters of its value.
pub open spec fn meta_line(label: Seq<char>, value: Seq<char>, selected: bool) -> LineV {
    seq![
        lit(
            if selected {
                " > "@
            } else {
                "   "@
            },
            fg(Color::Title),
        ),
        lit(
            padded(label + ":"@, 18),
            if selected {
                bold(Color::Title)
            } else {
                fg(Color::Muted)
            },
        ),
        lit(
            head_spec(value, 60),
            if selected {
                bold(Color::Primary)
            } else {
                fg(Color::Primary)
            },
        ),
    ]
}

/// The first rows about the session.
pub open spec fn meta_lines(
    labels: Seq<Seq<char>>,
    vs: Seq<Seq<char>>,
    cursor: int,
    to: int,
) -> Seq<LineV>
    decreases to,
{
    if to <= 0 {
        Seq::empty()
    } else {
        meta_lines(labels, vs, cursor, to - 1).push(
            meta_line(labels[to - 1], vs[to - 1], to - 1 == cursor),
        )
    }
}

/// The row of a helper.
pub open spec fn helper_line(g: TuiSubAgentGroup, selected: bool) -> LineV {
    seq![
        lit(
            if selected {
                " > "@
            } else {
                "   "@
            },
            fg(Color::Title),
        ),
        lit(
            g.agent_name@,
            if selected {
                bold(Color::Title)
            } else {
                fg(Color::Primary)
            },
        ),
        lit("  ["@ + g.agent_id@ + "]"@, fg(Color::Dim)),
        if g.collapsed {
            msg("agent-collapsed"@, fg(Color::Muted))
        } else {
            msg("agent-expanded"@, fg(Color::Success))
        },
        msg_num("agent-message-count"@, "count"@, g.view_models@.len(), fg(Color::Muted)),
    ]
}

/// The rows of the first helpers.
pub open spec fn helper_lines(gs: Seq<TuiSubAgentGroup>, cursor: int, to: int) -> Seq<LineV>
    decreases to,
{
    if to <= 0 {
        Seq::empty()
    } else {
        helper_lines(gs, cursor, to - 1).push(helper_line(gs[to - 1], to + 6 == cursor))
    }
}

/// What the panel shows.
pub open spec fn agent_lines(
    labels: Seq<Seq<char>>,
    vs: Seq<Seq<char>>,
    gs: Seq<TuiSubAgentGroup>,
    cursor: int,
) -> Seq<LineV> {
    seq![
        seq![msg("agent-panel-title-session"@, bold(Color::Primary))],
        seq![lit("  ----------------------"@, fg(Color::Dim))],
        blank(),
    ] + meta_lines(labels, vs, cursor, 6) + seq![
        blank(),
        seq![msg_num("agent-subagents-count"@, "count"@, gs.len(), bold(Color::Primary))],
    ] + (if gs.len() == 0 {
        seq![seq![msg("agent-no-subagents"@, italic(Color::Muted))]]
    } else {
        helper_lines(gs, cursor, gs.len() as int)
    }) + seq![blank(), seq![msg("panel-agent-nav-hint"@, fg(Color::Dim))]]
}

fn show_meta(label: &str, value: &str, selected: bool) -> (l: Line)
    ensures
        l@ == meta_line(label@, value@, selected),
{
    Line::of3(
        Piece::lit(
            if selected {
                " > "
            } else {
                "   "
            },
            Style::fg(Color::Title),
        ),
        Piece::text(
            pad(cat(label, ":").as_str(), 18),
            if selected {
                Style::bold(Color::Title)
            } else {
                Style::fg(Color::Muted)
            },
        ),
        Piece::text(
            head(value, 60),
            if selected {
                Style::bold(Color::Primary)
            } else {
                Style::fg(Color::Primary)
            },
        ),
    )
}

fn show_helper(g: &TuiSubAgentGroup, selected: bool) -> (l: Line)
    ensures
        l@ == helper_line(*g, selected),
{
    let mut l = Line::new();
    l.push(
        Piece::lit(
            if selected {
                " > "
            } else {
                "   "
            },
            Style::fg(Color::Title),
        ),
    );
    l.push(
        Piece::lit(
            g.agent_name.as_str(),
            if selected {
                Style::bold(Color::Title)
            } else {
                Style::fg(Color::Primary)
            },
        ),
    );
    l.push(Piece::text(cat3("  [", g.agent_id.as_str(), "]"), Style::fg(Color::Dim)));
    l.push(
        if g.collapsed {
            Piece::msg("agent-collapsed", Style::fg(Color::Muted))
        } else {
            Piece::msg("agent-expanded", Style::fg(Color::Success))
        },
    );
    l.push(
        Piece::msg_num(
            "agent-message-count",
            "count",
            g.view_models.len() as u64,
            Style::fg(Color::Muted),
        ),
    );
    assert(l@ =~= helper_line(*g, selected));
    l
}

fn session_values(info: &SessionInfo, provider_id: &str, alias: &str) -> (r: Vec<String>)
    ensures
        text_views(r@) == values(*info, provider_id@, alias@),
{
    let mut r: Vec<String> = Vec::new();
    r.push(cat4(info.provider_name.as_str(), " (", provider_id, ")"));
    r.push(cat4(info.model_alias.as_str(), " (alias: ", alias, ")"));
    r.push(info.permission_mode.clone());
    r.push(info.cwd.clone());
    r.push(decimal_text(info.total_messages as u64));
    r.push(decimal_text(info.total_messages as u64));
    assert(text_views(r@) =~= values(*info, provider_id@, alias@));
    r
}

impl AgentPanel {
    /// What the panel shows, with the names of the rows as they read on the screen.
    pub fn lines(
        &self,
        info: &SessionInfo,
        provider_id: &str,
        alias: &str,
        helpers: &Vec<&TuiSubAgentGroup>,
        labels: &Vec<String>,
    ) -> (d: Doc)
        requires
            labels@.len() == 6,
        ensures
            d@ == agent_lines(
                text_views(labels@),
                values(*info, provider_id@, alias@),
                referents(helpers@),
                self.cursor as int,
            ),
    {
        let ghost names = text_views(labels@);
        let ghost gs = referents(helpers@);
        let ghost vs = values(*info, provider_id@, alias@);
        let texts = session_values(info, provider_id, alias);
        let mut d = Doc::new();
        d.line(Piece::msg("agent-panel-title-session", Style::bold(Color::Primary)));
        d.line(Piece::lit("  ----------------------", Style::fg(Color::Dim)));
        d.blank();
        let ghost first = d@;
        let mut i: usize = 0;
        assert(d@ =~= first + meta_lines(names, vs, self.cursor as int, 0));
        while i < 6
            invariant
                i <= 6,
                labels@.len() == 6,
                names == text_views(labels@),
                vs == text_views(texts@),
                vs.len() == 6,
                d@ == first + meta_lines(names, vs, self.cursor as int, i as int),
            decreases 6 - i,
        {
            assert(names[i as int] == labels@[i as int]@);
            assert(vs[i as int] == texts@[i as int]@);
            d.push(show_meta(labels[i].as_str(), texts[i].as_str(), i == self.cursor));
            i = i + 1;
            assert(d@ =~= first + meta_lines(names, vs, self.cursor as int, i as int));
        }
        d.blank();
        let count: usize = helpers.len();
        d.line(
            Piece::msg_num(
                "agent-subagents-count",
                "count",
                count as u64,
                Style::bold(Color::Primary),
            ),
        );
        let ghost second = d@;
        if count == 0 {
            d.line(Piece::msg("agent-no-subagents", Style::italic(Color::Muted)));
        } else {
            let mut k: usize = 0;
            assert(d@ =~= second + helper_lines(gs, self.cursor as int, 0));
            while k < count
                invariant
                    k <= count,
                    count == gs.len(),
                    gs == referents(helpers@),
                    d@ == second + helper_lines(gs, self.cursor as int, k as int),
                decreases count - k,
            {
                assert(gs[k as int] == *helpers@[k as int]);
                let selected = self.cursor >= 7 && self.cursor - 7 == k;
                d.push(show_helper(helpers[k], selected));
                k = k + 1;
                assert(d@ =~= second + helper_lines(gs, self.cursor as int, k as int));
            }
        }
        d.blank();
        d.line(Piece::msg("panel-agent-nav-hint", Style::fg(Color::Dim)));
        assert(d@ =~= agent_lines(names, vs, gs, self.cursor as int));
        d
    }
}

/// The columns of the panel beside its content.
pub const PANEL_CONTENT_INSET: u16 = 2;

/// The width of the content of a panel.
pub open spec fn content_width(panel_width: u16) -> u16 {
    if panel_width <= PANEL_CONTENT_INSET {
        1
    } else {
        (panel_width - PANEL_CONTENT_INSET) as u16
    }
}

/// The height of the content, whose lines are wrapped in a panel of the width.
pub fn content_height(lines: &Vec<Vec<String>>, panel_width: u16) -> (h: u16)
    requires
        content_width(panel_width) <= MAX_WRAP_WIDTH,
    ensures
        h == height_of(wrapped_rows(line_texts(lines@), content_width(panel_width))),
{
    wrapped_content_height(lines, panel_width.saturating_sub(PANEL_CONTENT_INSET))
}

} // verus!
