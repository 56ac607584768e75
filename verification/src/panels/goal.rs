//! The panel on the goal of the session.

use crate::doc::{blank, bold, fg, lit, msg, Color, Doc, Line, Piece, PieceV, Style};
use crate::event::{Event, EventResult};
use crate::panels::subagent_detail::{handle_reading_event, key_closes};
use crate::text::{decimal, decimal_text, opt_view};
use crate::wrap::{is_blank, trim_spec};
use vstd::prelude::*;

verus! {

/// A line of the panel.
pub type LineV = Seq<PieceV>;

/// How a goal stands.
#[derive(Debug, Clone, Copy, PartialEq, Eq, Structural)]
pub enum GoalStatus {
    Active,
    Complete,
    Blocked,
}

/// What is known of the goal.
#[derive(Debug)]
pub struct GoalSnapshot {
    pub objective: Option<String>,
    pub status: Option<GoalStatus>,
    pub continuation_count: u64,
    pub blocked_reason: Option<String>,
}

/// What is known of the goal, abstractly.
pub struct GoalV {
    pub objective: Option<Seq<char>>,
    pub status: Option<GoalStatus>,
    pub continuations: nat,
    pub blocked_reason: Option<Seq<char>>,
}

impl View for GoalSnapshot {
    type V = GoalV;

    open spec fn view(&self) -> GoalV {
        GoalV {
            objective: opt_view(self.objective),
            status: self.status,
            continuations: self.continuation_count as nat,
            blocked_reason: opt_view(self.blocked_reason),
        }
    }
}

/// The message key of a status.
pub open spec fn status_key(s: Option<GoalStatus>) -> Seq<char> {
    match s {
        Some(GoalStatus::Active) => "goal-status-active"@,
        Some(GoalStatus::Complete) => "goal-status-complete"@,
        Some(GoalStatus::Blocked) => "goal-status-blocked"@,
        None => "ui-empty"@,
    }
}

/// The message key of a status.
pub fn status_label(status: Option<GoalStatus>) -> (r: &'static str)
    ensures
        r@ == status_key(status),
{
    match status {
        Some(GoalStatus::Active) => "goal-status-active",
        Some(GoalStatus::Complete) => "goal-status-complete",
        Some(GoalStatus::Blocked) => "goal-status-blocked",
        None => "ui-empty",
    }
}

/// A line of the panel: a name and a value.
pub open spec fn detail_line(key: Seq<char>, value: PieceV) -> LineV {
    seq![msg(key, fg(Color::Muted)), lit(": "@, fg(Color::Muted)), value]
}

/// Why the goal is blocked, where a reason is given.
pub open spec fn reason_lines(r: Option<Seq<char>>) -> Seq<LineV> {
    match r {
        Some(r) => if trim_spec(r).len() > 0 {
            seq![
                blank(),
                seq![msg("goal-detail-blocked-reason"@, fg(Color::Muted))],
                seq![lit(r, fg(Color::Primary))],
            ]
        } else {
            Seq::empty()
        },
        None => Seq::empty(),
    }
}

/// The goal itself.
pub open spec fn objective_piece(o: Option<Seq<char>>) -> PieceV {
    match o {
        Some(t) => lit(t, bold(Color::Title)),
        None => msg("ui-empty"@, bold(Color::Title)),
    }
}

/// What the panel shows.
pub open spec fn goal_lines(g: Option<GoalV>) -> Seq<LineV> {
    match g {
        Some(g) => seq![
            seq![objective_piece(g.objective)],
            blank(),
            detail_line("goal-detail-status"@, msg(status_key(g.status), fg(Color::Primary))),
            detail_line(
                "goal-detail-continuations"@,
                lit(decimal(g.continuations), fg(Color::Primary)),
            ),
        ] + reason_lines(g.blocked_reason),
        None => seq![seq![msg("goal-detail-empty"@, fg(Color::Muted))]],
    }
}

fn show_detail(key: &str, value: Piece) -> (l: Line)
    ensures
        l@ == detail_line(key@, value@),
{
    Line::of3(
        Piece::msg(key, Style::fg(Color::Muted)),
        Piece::lit(": ", Style::fg(Color::Muted)),
        value,
    )
}

/// The panel: it is only read.
#[derive(Debug, Clone, Copy, PartialEq, Eq, Structural)]
pub struct GoalPanel {}

impl GoalPanel {
    /// Deals with an input: whether it is used up, and whether the panel closes.
    pub fn handle_event(&self, event: &Event) -> (r: (EventResult, bool))
        ensures
            r == key_closes(*event),
    {
        handle_reading_event(event)
    }

    /// What the panel shows.
    pub fn lines(&self, goal: Option<&GoalSnapshot>) -> (d: Doc)
        ensures
            d@ == goal_lines(
                match goal {
                    Some(g) => Some(g@),
                    None => None,
                },
            ),
    {
        let mut d = Doc::new();
        let g = match goal {
            Some(g) => g,
            None => {
                d.line(Piece::msg("goal-detail-empty", Style::fg(Color::Muted)));
                assert(d@ =~= goal_lines(None));
                return d;
            },
        };
        d.line(
            match &g.objective {
                Some(t) => Piece::lit(t.as_str(), Style::bold(Color::Title)),
                None => Piece::msg("ui-empty", Style::bold(Color::Title)),
            },
        );
        d.blank();
        d.push(
            show_detail(
                "goal-detail-status",
                Piece::msg(status_label(g.status), Style::fg(Color::Primary)),
            ),
        );
        d.push(
            show_detail(
                "goal-detail-continuations",
                Piece::text(decimal_text(g.continuation_count), Style::fg(Color::Primary)),
            ),
        );
        match &g.blocked_reason {
            Some(r) => {
                if !is_blank(r.as_str()) {
                    d.blank();
                    d.line(Piece::msg("goal-detail-blocked-reason", Style::fg(Color::Muted)));
                    d.line(Piece::lit(r.as_str(), Style::fg(Color::Primary)));
                }
            },
            None => {},
        }
        assert(d@ =~= goal_lines(Some(g@)));
        d
    }
}

} // verus!
