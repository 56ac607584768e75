//! The panel that lists the features on trial.

use crate::doc::{blank, bold, fg, lit, msg, Color, Doc, Line, Piece, PieceV, Style};
use crate::event::{Event, EventResult, KeyCode};
use crate::list_nav::{next_sel, next_selection, prev_sel, previous_selection};
use crate::panels::config::{pad, padded};
use crate::text::cat;
use vstd::prelude::*;

verus! {

/// A line of the panel.
pub type LineV = Seq<PieceV>;

/// The number of features on trial.
pub const BETA_COUNT: usize = 4;

/// A feature on trial.
#[derive(Debug, Clone, Copy)]
pub struct BetaEntry {
    pub label: &'static str,
    pub description: &'static str,
    pub enabled: bool,
}

/// A feature on trial: its name, what it is, and whether it is on.
pub open spec fn beta_entry(i: int) -> (Seq<char>, Seq<char>, bool) {
    if i == 0 {
        ("subagent_v2"@, "New sub-agent dispatch engine"@, true)
    } else if i == 1 {
        ("experimental_compact"@, "Experimental context compaction"@, false)
    } else if i == 2 {
        ("mcp_logging"@, "MCP tool call logging"@, false)
    } else {
        ("ui_v2"@, "New UI rendering engine"@, true)
    }
}

/// A feature on trial.
pub fn beta(i: usize) -> (e: BetaEntry)
    ensures
        (e.label@, e.description@, e.enabled) == beta_entry(i as int),
{
    if i == 0 {
        BetaEntry {
            label: "subagent_v2",
            description: "New sub-agent dispatch engine",
            enabled: true,
        }
    } else if i == 1 {
        BetaEntry {
            label: "experimental_compact",
            description: "Experimental context compaction",
            enabled: false,
        }
    } else if i == 2 {
        BetaEntry { label: "mcp_logging", description: "MCP tool call logging", enabled: false }
    } else {
        BetaEntry { label: "ui_v2", description: "New UI rendering engine", enabled: true }
    }
}

/// The panel: the selection.
#[derive(Debug, Clone, Copy, PartialEq, Eq, Structural)]
pub struct BetasPanel {
    pub selected: usize,
}

impl Default for BetasPanel {
    fn default() -> (p: BetasPanel)
        ensures
            p.selected == 0,
    {
        BetasPanel { selected: 0 }
    }
}

/// What an input does: the selection after it, whether it is used up, and whether the
/// panel closes.
pub open spec fn betas_step(selected: int, event: Event) -> (int, EventResult, bool) {
    match event {
        Event::Key(key) => if !key.press {
            (selected, EventResult::Ignored, false)
        } else {
            match key.code {
                KeyCode::Esc | KeyCode::Enter => (selected, EventResult::Consumed, true),
                KeyCode::Up => (prev_sel(selected), EventResult::Consumed, false),
                KeyCode::Down => (
                    next_sel(selected, BETA_COUNT as int),
                    EventResult::Consumed,
                    false,
                ),
                _ => (selected, EventResult::Ignored, false),
            }
        },
        _ => (selected, EventResult::Ignored, false),
    }
}

/// The two lines of a feature.
pub open spec fn beta_lines(i: int, selected: bool) -> Seq<LineV> {
    let (label, description, enabled) = beta_entry(i);
    seq![
        seq![
            lit(
                if selected {
                    "> "@
                } else {
                    "  "@
                },
                fg(Color::Title),
            ),
            lit(
                padded(label, 22),
                if selected {
                    bold(Color::Title)
                } else {
                    fg(Color::Primary)
                },
            ),
            if enabled {
                msg("common-on"@, bold(Color::Success))
            } else {
                msg("common-off"@, fg(Color::Muted))
            },
        ],
        seq![lit("      "@ + description, fg(Color::Muted))],
    ]
}

/// The lines of the first features.
pub open spec fn list_lines(selected: int, to: int) -> Seq<LineV>
    decreases to,
{
    if to <= 0 {
        Seq::empty()
    } else {
        list_lines(selected, to - 1) + beta_lines(to - 1, to - 1 == selected)
    }
}

/// What the panel shows.
pub open spec fn betas_lines(selected: int) -> Seq<LineV> {
    seq![seq![msg("panel-betas-readonly-hint"@, fg(Color::Muted))], blank()] + list_lines(
        selected,
        BETA_COUNT as int,
    ) + seq![blank(), seq![msg("common-nav-enter-close"@, fg(Color::Dim))]]
}

impl BetasPanel {
    /// Deals with an input: whether it is used up, and whether the panel closes.
    pub fn handle_event(&mut self, event: &Event) -> (r: (EventResult, bool))
        ensures
            (final(self).selected as int, r.0, r.1) == betas_step(
                old(self).selected as int,
                *event,
            ),
    {
        match event {
            Event::Key(key) => {
                if !key.press {
                    return (EventResult::Ignored, false);
                }
                match key.code {
                    KeyCode::Esc | KeyCode::Enter => (EventResult::Consumed, true),
                    KeyCode::Up => {
                        self.selected = previous_selection(self.selected);
                        (EventResult::Consumed, false)
                    },
                    KeyCode::Down => {
                        self.selected = next_selection(self.selected, BETA_COUNT);
                        (EventResult::Consumed, false)
                    },
                    _ => (EventResult::Ignored, false),
                }
            },
            _ => (EventResult::Ignored, false),
        }
    }

    /// What the panel shows.
    pub fn lines(&self) -> (d: Doc)
        ensures
            d@ == betas_lines(self.selected as int),
    {
        let mut d = Doc::new();
        d.line(Piece::msg("panel-betas-readonly-hint", Style::fg(Color::Muted)));
        d.blank();
        let ghost head = d@;
        let mut i: usize = 0;
        assert(d@ =~= head + list_lines(self.selected as int, 0));
        while i < BETA_COUNT
            invariant
                i <= BETA_COUNT,
                d@ == head + list_lines(self.selected as int, i as int),
            decreases BETA_COUNT - i,
        {
            let ghost before = d@;
            let e = beta(i);
            let selected = i == self.selected;
            d.push(
                Line::of3(
                    Piece::lit(
                        if selected {
                            "> "
                        } else {
                            "  "
                        },
                        Style::fg(Color::Title),
                    ),
                    Piece::text(
                        pad(e.label, 22),
                        if selected {
                            Style::bold(Color::Title)
                        } else {
                            Style::fg(Color::Primary)
                        },
                    ),
                    if e.enabled {
                        Piece::msg("common-on", Style::bold(Color::Success))
                    } else {
                        Piece::msg("common-off", Style::fg(Color::Muted))
                    },
                ),
            );
            d.line(Piece::text(cat("      ", e.description), Style::fg(Color::Muted)));
            assert(d@ =~= before + beta_lines(i as int, selected));
            i = i + 1;
            assert(d@ =~= head + list_lines(self.selected as int, i as int));
        }
        d.blank();
        d.line(Piece::msg("common-nav-enter-close", Style::fg(Color::Dim)));
        assert(d@ =~= betas_lines(self.selected as int));
        d
    }
}

} // verus!
