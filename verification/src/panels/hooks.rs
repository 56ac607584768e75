//! The panel that lists the hooks.

use crate::doc::{blank, bold, fg, italic, lit, msg, msg_num, Color, Doc, Line, Piece, PieceV, Style};
use crate::event::{Event, EventResult, KeyCode};
use crate::list_nav::{next_sel, next_selection, prev_sel, previous_selection,
    scroll_start_for_selected, window_start};
use crate::panels::memory::window_end;
use crate::text::{cat, cat4, clip, clip_spec, decimal, decimal_text, opt_view, same};
use vstd::prelude::*;

verus! {

/// A line of the panel.
pub type LineV = Seq<PieceV>;

/// A hook: the event it waits for, where it comes from, what it is limited to, and what
/// it runs.
#[derive(Debug)]
pub struct HookSummary {
    pub event: String,
    pub plugin_name: String,
    pub matcher: Option<String>,
    pub command: String,
}

/// A hook, abstractly.
pub struct HookV {
    pub event: Seq<char>,
    pub plugin: Seq<char>,
    pub matcher: Option<Seq<char>>,
    pub command: Seq<char>,
}

impl View for HookSummary {
    type V = HookV;

    open spec fn view(&self) -> HookV {
        HookV {
            event: self.event@,
            plugin: self.plugin_name@,
            matcher: opt_view(self.matcher),
            command: self.command@,
        }
    }
}

/// The hooks of a list.
pub open spec fn hooks_view(v: Seq<HookSummary>) -> Seq<HookV> {
    v.map_values(|h: HookSummary| h@)
}

/// The message key that tells what an event is, nothing for one that is not known.
pub open spec fn event_key(e: Seq<char>) -> Option<Seq<char>> {
    if e == "pretooluse"@ {
        Some("hook-event-before-tool"@)
    } else if e == "posttooluse"@ {
        Some("hook-event-after-tool"@)
    } else if e == "posttoolusefailure"@ {
        Some("hook-event-after-tool-fail"@)
    } else if e == "permissionrequest"@ {
        Some("hook-event-before-auto-mode"@)
    } else if e == "userpromptsubmit"@ {
        Some("hook-event-user-submit"@)
    } else if e == "sessionstart"@ {
        Some("hook-event-session-start"@)
    } else if e == "sessionend"@ {
        Some("hook-event-session-end"@)
    } else if e == "stop"@ {
        Some("hook-event-agent-stop"@)
    } else if e == "stopfailure"@ {
        Some("hook-event-agent-stop-fail"@)
    } else if e == "posttoolbatch"@ {
        Some("hook-event-parallel-tools-done"@)
    } else if e == "subagentstart"@ {
        Some("hook-event-subagent-start"@)
    } else if e == "subagentstop"@ {
        Some("hook-event-subagent-stop"@)
    } else if e == "precompact"@ {
        Some("hook-event-before-compact"@)
    } else if e == "postcompact"@ {
        Some("hook-event-after-compact"@)
    } else if e == "notification"@ {
        Some("hook-event-needs-input"@)
    } else {
        None
    }
}

/// The message key that tells what an event is, nothing for one that is not known.
pub fn event_description(event: &str) -> (r: Option<&'static str>)
    ensures
        (match r {
            Some(k) => Some(k@),
            None => None,
        }) == event_key(event@),
{
    if same(event, "pretooluse") {
        Some("hook-event-before-tool")
    } else if same(event, "posttooluse") {
        Some("hook-event-after-tool")
    } else if same(event, "posttoolusefailure") {
        Some("hook-event-after-tool-fail")
    } else if same(event, "permissionrequest") {
        Some("hook-event-before-auto-mode")
    } else if same(event, "userpromptsubmit") {
        Some("hook-event-user-submit")
    } else if same(event, "sessionstart") {
        Some("hook-event-session-start")
    } else if same(event, "sessionend") {
        Some("hook-event-session-end")
    } else if same(event, "stop") {
        Some("hook-event-agent-stop")
    } else if same(event, "stopfailure") {
        Some("hook-event-agent-stop-fail")
    } else if same(event, "posttoolbatch") {
        Some("hook-event-parallel-tools-done")
    } else if same(event, "subagentstart") {
        Some("hook-event-subagent-start")
    } else if same(event, "subagentstop") {
        Some("hook-event-subagent-stop")
    } else if same(event, "precompact") {
        Some("hook-event-before-compact")
    } else if same(event, "postcompact") {
        Some("hook-event-after-compact")
    } else if same(event, "notification") {
        Some("hook-event-needs-input")
    } else {
        None
    }
}

/// The number of hooks on the screen.
pub const VISIBLE_ITEMS: usize = 3;

/// The panel: the selection.
#[derive(Debug, Clone, Copy, PartialEq, Eq, Structural)]
pub struct HooksPanel {
    pub selected: usize,
}

impl Default for HooksPanel {
    fn default() -> (p: HooksPanel)
        ensures
            p.selected == 0,
    {
        HooksPanel { selected: 0 }
    }
}

/// What an input does: the selection after it, whether it is used up, and whether the
/// panel closes.
pub open spec fn hooks_step(selected: int, count: int, event: Event) -> (int, EventResult, bool) {
    match event {
        Event::Key(key) => if !key.press {
            (selected, EventResult::Ignored, false)
        } else {
            match key.code {
                KeyCode::Esc | KeyCode::Enter => (selected, EventResult::Consumed, true),
                KeyCode::Up => (prev_sel(selected), EventResult::Consumed, false),
                KeyCode::Down => (
                    if count > 0 {
                        next_sel(selected, count)
                    } else {
                        selected
                    },
                    EventResult::Consumed,
                    false,
                ),
                KeyCode::Char(c) => if c == 'c' && key.mods.ctrl {
                    (selected, EventResult::Ignored, false)
                } else {
                    (selected, EventResult::Consumed, false)
                },
                _ => (selected, EventResult::Consumed, false),
            }
        },
        _ => (selected, EventResult::Ignored, false),
    }
}

/// The first line of a hook.
pub open spec fn hook_line(h: HookV, i: int, selected: bool) -> LineV {
    seq![
        lit(
            (if selected {
                " > "@
            } else {
                "   "@
            }) + decimal((i + 1) as nat) + ". "@ + (h.event + " "@),
            if selected {
                bold(Color::Title)
            } else {
                fg(Color::Primary)
            },
        ),
        lit("  via "@ + h.plugin, fg(Color::BorderActive)),
        lit("  "@, fg(Color::Muted)),
    ] + (match event_key(h.event) {
        Some(k) => seq![msg(k, fg(Color::Muted))],
        None => Seq::empty(),
    })
}

/// The second line of a hook, empty where it is limited to nothing.
pub open spec fn matcher_line(m: Option<Seq<char>>) -> LineV {
    match m {
        Some(x) => seq![lit("     matcher: "@ + x, fg(Color::Dim))],
        None => blank(),
    }
}

/// The three lines of a hook.
pub open spec fn hook_lines(h: HookV, i: int, selected: bool) -> Seq<LineV> {
    seq![
        hook_line(h, i, selected),
        matcher_line(h.matcher),
        seq![lit("     "@ + clip_spec(h.command, 70), fg(Color::Primary))],
    ]
}

/// The lines of the hooks from one position to another.
pub open spec fn list_lines(hs: Seq<HookV>, selected: int, from: int, to: int) -> Seq<LineV>
    decreases to - from,
{
    if to <= from {
        Seq::empty()
    } else {
        list_lines(hs, selected, from, to - 1) + hook_lines(hs[to - 1], to - 1, to - 1 == selected)
    }
}

/// What the panel shows.
pub open spec fn hooks_lines(selected: int, hs: Seq<HookV>) -> Seq<LineV> {
    let start = window_start(selected, VISIBLE_ITEMS as int);
    seq![
        seq![msg_num("hooks-configured-count"@, "count"@, hs.len(), bold(Color::Primary))],
        seq![msg("hooks-readonly-hint"@, italic(Color::Muted))],
        blank(),
    ] + (if hs.len() == 0 {
        seq![
            seq![msg("hooks-no-hooks"@, fg(Color::Muted))],
            seq![msg("hooks-no-hooks-hint"@, fg(Color::Muted))],
        ]
    } else {
        list_lines(
            hs,
            selected,
            start,
            window_end(start, hs.len() as int, VISIBLE_ITEMS as int),
        )
    }) + seq![blank(), seq![msg("panel-hooks-nav-hint"@, fg(Color::Dim))]]
}

fn show_hook(h: &HookSummary, i: usize, selected: bool) -> (l: Line)
    requires
        i < usize::MAX,
    ensures
        l@ == hook_line(h@, i as int, selected),
{
    let tail = cat(h.event.as_str(), " ");
    let text = cat4(
        if selected {
            " > "
        } else {
            "   "
        },
        decimal_text((i + 1) as u64).as_str(),
        ". ",
        tail.as_str(),
    );
    let mut l = Line::of3(
        Piece::text(
            text,
            if selected {
                Style::bold(Color::Title)
            } else {
                Style::fg(Color::Primary)
            },
        ),
        Piece::text(cat("  via ", h.plugin_name.as_str()), Style::fg(Color::BorderActive)),
        Piece::lit("  ", Style::fg(Color::Muted)),
    );
    match event_description(h.event.as_str()) {
        Some(k) => {
            l.push(Piece::msg(k, Style::fg(Color::Muted)));
        },
        None => {},
    }
    assert(l@ =~= hook_line(h@, i as int, selected));
    l
}

fn show_matcher(m: &Option<String>) -> (l: Line)
    ensures
        l@ == matcher_line(opt_view(*m)),
{
    match m {
        Some(x) => Line::of(Piece::text(cat("     matcher: ", x.as_str()), Style::fg(Color::Dim))),
        None => Line::new(),
    }
}

impl HooksPanel {
    /// Deals with an input: whether it is used up, and whether the panel closes.
    pub fn handle_event(&mut self, event: &Event, count: usize) -> (r: (EventResult, bool))
        ensures
            (final(self).selected as int, r.0, r.1) == hooks_step(
                old(self).selected as int,
                count as int,
                *event,
            ),
    {
        match event {
            Event::Key(key) => {
                if !key.press {
                    return (EventResult::Ignored, false);
                }
                match key.code {
                    KeyCode::Esc | KeyCode::Enter => (EventResult::Consumed, true),
                    KeyCode::Up => {
                        self.selected = previous_selection(self.selected);
                        (EventResult::Consumed, false)
                    },
                    KeyCode::Down => {
                        if count > 0 {
                            self.selected = next_selection(self.selected, count);
                        }
                        (EventResult::Consumed, false)
                    },
                    KeyCode::Char(c) => if c == 'c' && key.mods.ctrl {
                        (EventResult::Ignored, false)
                    } else {
                        (EventResult::Consumed, false)
                    },
                    _ => (EventResult::Consumed, false),
                }
            },
            _ => (EventResult::Ignored, false),
        }
    }

    /// What the panel shows.
    pub fn lines(&self, hooks: &Vec<HookSummary>) -> (d: Doc)
        ensures
            d@ == hooks_lines(self.selected as int, hooks_view(hooks@)),
    {
        let ghost hs = hooks_view(hooks@);
        let count: usize = hooks.len();
        let mut d = Doc::new();
        d.line(
            Piece::msg_num(
                "hooks-configured-count",
                "count",
                count as u64,
                Style::bold(Color::Primary),
            ),
        );
        d.line(Piece::msg("hooks-readonly-hint", Style::italic(Color::Muted)));
        d.blank();
        if count == 0 {
            d.line(Piece::msg("hooks-no-hooks", Style::fg(Color::Muted)));
            d.line(Piece::msg("hooks-no-hooks-hint", Style::fg(Color::Muted)));
        } else {
            let start: usize = scroll_start_for_selected(self.selected, VISIBLE_ITEMS);
            let ghost end = window_end(start as int, count as int, VISIBLE_ITEMS as int);
            let mut shown = Doc::new();
            let mut i: usize = start;
            while i < count && i - start < VISIBLE_ITEMS
                invariant
                    start <= i,
                    count == hs.len(),
                    hs == hooks_view(hooks@),
                    i <= end || i == start,
                    end == window_end(start as int, count as int, VISIBLE_ITEMS as int),
                    shown@ == list_lines(hs, self.selected as int, start as int, i as int),
                decreases count - i,
            {
                let ghost before = shown@;
                let h = &hooks[i];
                assert(hs[i as int] == h@);
                shown.push(show_hook(h, i, i == self.selected));
                shown.push(show_matcher(&h.matcher));
                shown.line(
                    Piece::text(
                        cat("     ", clip(h.command.as_str(), 70).as_str()),
                        Style::fg(Color::Primary),
                    ),
                );
                assert(shown@ =~= before + hook_lines(h@, i as int, i == self.selected));
                i = i + 1;
            }
            d.extend(shown);
        }
        d.blank();
        d.line(Piece::msg("panel-hooks-nav-hint", Style::fg(Color::Dim)));
        assert(d@ =~= hooks_lines(self.selected as int, hs));
        d
    }
}

} // verus!
