//! The panel that shows a form: where its rows are, what clicks and keys do, and
//! what it shows.

use crate::doc::{blank, bold, fg, italic, lit, msg, on, Back, Color, Doc, Line, Piece, PieceV,
    Style};
use crate::event::{Event, EventResult, KeyEvent, MouseEvent, MouseKind, Rect};
use crate::json::{Json, JsonV};
use crate::panel_mouse::{is_scrollbar_column, on_scrollbar};
use crate::panel_registry::{asked_by, without_kind, OpenPanels, PanelKind};
use crate::panels::ask_user::form::{accepted, form_step, is_space, reset_for_owner_change, FormOutcome,
    FormState, FormV, OutcomeV};
use crate::panels::ask_user::types::{fingerprint_of, questions_of, AskUser, InteractionOwner, OptionV, OwnerV,
    PendingInteraction, Question, QuestionOption, QuestionV};
use crate::popup_overlay::{settled, PopupKind, Popups, PopupsV};
use crate::popups::confirm_popup::{reject_payload, RecoveryAnswer};
use crate::scroll_view::ScrollViewState;
use crate::text::{cat, cat4, repeat_char, repeated};
use crate::wrap::{line_views, wrap_text, wrap_text_spec};
use vstd::prelude::*;

verus! {

/// A line of the panel.
pub type LineV = Seq<PieceV>;

/// The rows of typed text shown at once.
pub const TYPING_VIEWPORT_ROWS: usize = 3;

/// The width that text is wrapped at: that of the terminal less its borders, at
/// least 40; 80 where the terminal has none.
pub open spec fn wrap_width_spec(term_width: u16) -> nat {
    if term_width == 0 {
        80
    } else if term_width < 42 {
        40
    } else {
        (term_width - 2) as nat
    }
}

/// The width that text is wrapped at.
pub fn wrap_width(term_width: u16) -> (w: usize)
    ensures
        w == wrap_width_spec(term_width),
{
    if term_width == 0 {
        80
    } else if term_width < 42 {
        40
    } else {
        (term_width - 2) as usize
    }
}

// ── Rows ───────────────────────────────────────────────────────────────────

/// The text of a question.
pub open spec fn question_text(q: QuestionV) -> Seq<char> {
    if q.question.len() == 0 {
        q.header
    } else {
        "  "@ + q.question
    }
}

/// How many rows an option takes: its label, and its description if any.
pub open spec fn option_rows(o: OptionV, width: nat) -> nat {
    wrap_text_spec("  ○ "@ + o.label, width).len() + (if o.description.len() == 0 {
        0nat
    } else {
        wrap_text_spec("    "@ + o.description, width).len()
    })
}

/// The first row of an option, counted from the top border: four rows, the rows
/// of the question and an empty one stand above the options.
pub open spec fn option_row(q: QuestionV, i: int, width: nat) -> nat
    decreases i,
{
    if i <= 0 {
        5 + wrap_text_spec(question_text(q), width).len()
    } else {
        option_row(q, i - 1, width) + option_rows(q.options[i - 1], width)
    }
}

/// How many rows the typed answer takes.
pub open spec fn custom_rows(typed: Option<Seq<char>>, width: nat) -> nat {
    match typed {
        Some(t) => wrap_text_spec(
            t,
            if width >= 4 {
                (width - 4) as nat
            } else {
                0
            },
        ).len(),
        None => 1,
    }
}

/// The option that a row belongs to, from an index on.
pub open spec fn option_at(q: QuestionV, from: int, row: int, width: nat) -> Option<int>
    decreases q.options.len() - from,
{
    if from < 0 || from >= q.options.len() {
        None
    } else if option_row(q, from, width) <= row < option_row(q, from + 1, width) {
        Some(from)
    } else {
        option_at(q, from + 1, row, width)
    }
}

/// What a click on a row of the form does: an option is toggled, and on the typed
/// answer typing starts.
pub open spec fn row_clicked(f: FormV, qs: Seq<QuestionV>, row: int, width: nat) -> FormV {
    if qs.len() == 0 {
        f
    } else {
        let i = if f.focused < qs.len() {
            f.focused
        } else {
            qs.len() - 1
        };
        let q = qs[i];
        let custom = option_row(q, q.options.len() as int, width);
        match option_at(q, 0, row, width) {
            Some(o) => f.option_toggled(i, o as usize, q.multi_select),
            None => if custom <= row < custom + custom_rows(f.typed_for(i), width) {
                f.typing_for(i)
            } else {
                f
            },
        }
    }
}

/// What the mouse does on the form.
pub open spec fn mouse_step(
    f: FormV,
    m: MouseEvent,
    area: Option<Rect>,
    popup_open: bool,
    qs: Seq<QuestionV>,
    width: nat,
) -> (FormV, EventResult) {
    if m.kind != MouseKind::LeftDown || area is None || popup_open {
        (f, EventResult::Ignored)
    } else {
        let a = area->0;
        let bottom = a.y + (if a.height > 0 {
            a.height - 1
        } else {
            0
        });
        if m.row <= a.y || m.row >= bottom || on_scrollbar(m, a) || f.is_typing {
            (f, EventResult::Consumed)
        } else {
            (row_clicked(f, qs, m.row - a.y - 1, width), EventResult::Consumed)
        }
    }
}

/// What the program around the panel has to do.
#[derive(Debug)]
pub enum AskUserEffect {
    Nothing,
    Submit { owner: InteractionOwner, request_id: String, answers: Json },
    AskReject { asker: InteractionOwner, request: String },
}

/// What the program has to do, abstractly.
pub enum AskEffectV {
    Nothing,
    Submit(OwnerV, Seq<char>, JsonV),
    AskReject(OwnerV, Seq<char>),
}

impl View for AskUserEffect {
    type V = AskEffectV;

    open spec fn view(&self) -> AskEffectV {
        match *self {
            AskUserEffect::Nothing => AskEffectV::Nothing,
            AskUserEffect::Submit { owner, request_id, answers } => AskEffectV::Submit(
                owner@,
                request_id@,
                answers@,
            ),
            AskUserEffect::AskReject { asker, request } => AskEffectV::AskReject(
                asker@,
                request@,
            ),
        }
    }
}

/// The questions of a request, none where there is none.
pub open spec fn asked(p: Option<&PendingInteraction>) -> Seq<QuestionV> {
    match p {
        Some(p) => p.payload@,
        None => Seq::empty(),
    }
}

/// What follows from what a key led to: answers go to the owner of the request,
/// and giving up has to be confirmed.
pub open spec fn followed(o: OutcomeV, p: Option<&PendingInteraction>) -> (EventResult, AskEffectV) {
    match o {
        OutcomeV::Ignored => (EventResult::Ignored, AskEffectV::Nothing),
        OutcomeV::Consumed => (EventResult::Consumed, AskEffectV::Nothing),
        OutcomeV::Submit(answers) => (
            EventResult::Consumed,
            match p {
                Some(p) => AskEffectV::Submit(p.owner@, p.request_id_json@, answers),
                None => AskEffectV::Nothing,
            },
        ),
        OutcomeV::RequestCancel => (
            EventResult::Consumed,
            match p {
                Some(p) => AskEffectV::AskReject(p.owner@, p.request_id_json@),
                None => AskEffectV::Nothing,
            },
        ),
    }
}

/// What an input does on the panel.
pub open spec fn panel_step(
    f: FormV,
    event: Event,
    area: Option<Rect>,
    popup_open: bool,
    p: Option<&PendingInteraction>,
    width: nat,
) -> (FormV, EventResult, AskEffectV) {
    let qs = asked(p);
    match event {
        Event::Mouse(m) => {
            let (g, r) = mouse_step(f, m, area, popup_open, qs, width);
            (g, r, AskEffectV::Nothing)
        },
        Event::Key(key) => if !key.press || popup_open || !accepted(f, key, qs) {
            (f, EventResult::Ignored, AskEffectV::Nothing)
        } else {
            let (g, o) = form_step(f, key, qs, width);
            let (r, e) = followed(o, p);
            (g, r, e)
        },
        _ => (f, EventResult::Ignored, AskEffectV::Nothing),
    }
}

/// `n`, or the largest size.
spec fn capped(n: int) -> int {
    if n < usize::MAX {
        n
    } else {
        usize::MAX as int
    }
}

fn rows_of(text: &str, width: usize) -> (n: usize)
    ensures
        n == wrap_text_spec(text@, width as nat).len(),
{
    let lines = wrap_text(text, width);
    assert(lines@.len() == line_views(lines@).len());
    lines.len()
}

fn text_of_question(q: &Question) -> (r: String)
    ensures
        r@ == question_text(q@),
{
    if q.question.as_str().is_empty() {
        q.header.clone()
    } else {
        cat("  ", q.question.as_str())
    }
}

fn rows_of_option(o: &QuestionOption, width: usize) -> (n: usize)
    ensures
        n == capped(option_rows(o@, width as nat) as int),
{
    let a: usize = rows_of(cat("  ○ ", o.label.as_str()).as_str(), width);
    let b: usize = if o.description.as_str().is_empty() {
        0
    } else {
        rows_of(cat("    ", o.description.as_str()).as_str(), width)
    };
    a.saturating_add(b)
}

impl FormState {
    fn click_row(&mut self, pending: Option<&PendingInteraction>, row: u16, width: usize)
        ensures
            final(self)@ == row_clicked(old(self)@, asked(pending), row as int, width as nat),
    {
        let ghost qs = asked(pending);
        let a = match pending {
            Some(p) => &p.payload,
            None => {
                return ;
            },
        };
        if a.questions.len() == 0 {
            return ;
        }
        let i: usize = if self.focused < a.questions.len() {
            self.focused
        } else {
            a.questions.len() - 1
        };
        let q = &a.questions[i];
        assert(qs[i as int] == q@);
        let visual: usize = row as usize;
        let mut cur: usize = rows_of(text_of_question(q).as_str(), width).saturating_add(5);
        let mut o: usize = 0;
        while o < q.options.len()
            invariant
                o <= q.options@.len(),
                visual == row,
                cur == capped(option_row(q@, o as int, width as nat) as int),
                option_at(q@, 0, row as int, width as nat) == option_at(
                    q@,
                    o as int,
                    row as int,
                    width as nat,
                ),
                self@ == old(self)@,
                qs == asked(pending),
                qs.len() > 0,
                qs[i as int] == q@,
                i == (if old(self)@.focused < qs.len() {
                    old(self)@.focused
                } else {
                    qs.len() - 1
                }),
            decreases q.options.len() - o,
        {
            assert(q@.options[o as int] == q.options@[o as int]@);
            let rows: usize = rows_of_option(&q.options[o], width);
            let next: usize = cur.saturating_add(rows);
            assert(next == capped(option_row(q@, o + 1, width as nat) as int));
            if visual >= cur && visual < next {
                self.toggle_option(i, o, q.multi_select);
                return ;
            }
            cur = next;
            o = o + 1;
        }
        let rows: usize = if i < self.custom_answers.len() {
            match &self.custom_answers[i] {
                Some(t) => rows_of(t.as_str(), width.saturating_sub(4)),
                None => 1,
            }
        } else {
            1
        };
        assert(rows == custom_rows(self@.typed_for(i as int), width as nat));
        if visual >= cur && visual < cur.saturating_add(rows) {
            self.begin_custom_input(i);
        }
    }

    /// Deals with an input on the panel.
    pub fn handle_panel_event(
        &mut self,
        event: &Event,
        area: Option<Rect>,
        popup_open: bool,
        pending: Option<&PendingInteraction>,
        width: usize,
    ) -> (r: (EventResult, AskUserEffect))
        ensures
            (final(self)@, r.0, r.1@) == panel_step(
                old(self)@,
                *event,
                area,
                popup_open,
                pending,
                width as nat,
            ),
    {
        let key = match event {
            Event::Mouse(m) => {
                if m.kind != MouseKind::LeftDown || popup_open {
                    return (EventResult::Ignored, AskUserEffect::Nothing);
                }
                let a = match area {
                    Some(a) => a,
                    None => {
                        return (EventResult::Ignored, AskUserEffect::Nothing);
                    },
                };
                let bottom: u32 = a.y as u32 + a.height.saturating_sub(1) as u32;
                if m.row <= a.y || m.row as u32 >= bottom || is_scrollbar_column(m, a)
                    || self.is_typing {
                    return (EventResult::Consumed, AskUserEffect::Nothing);
                }
                self.click_row(pending, m.row - a.y - 1, width);
                return (EventResult::Consumed, AskUserEffect::Nothing);
            },
            Event::Key(key) => key,
            _ => {
                return (EventResult::Ignored, AskUserEffect::Nothing);
            },
        };
        if !key.press || popup_open {
            return (EventResult::Ignored, AskUserEffect::Nothing);
        }
        let asked_now = match pending {
            Some(p) => Some(&p.payload),
            None => None,
        };
        assert(questions_of(asked_now) == asked(pending));
        if !self.accepts_key(key, asked_now) {
            return (EventResult::Ignored, AskUserEffect::Nothing);
        }
        match self.handle_key(key, asked_now, width) {
            FormOutcome::Ignored => (EventResult::Ignored, AskUserEffect::Nothing),
            FormOutcome::Consumed => (EventResult::Consumed, AskUserEffect::Nothing),
            FormOutcome::Submit(answers) => {
                match pending {
                    Some(p) => (
                        EventResult::Consumed,
                        AskUserEffect::Submit {
                            owner: p.owner.copy(),
                            request_id: p.request_id_json.clone(),
                            answers,
                        },
                    ),
                    None => (EventResult::Consumed, AskUserEffect::Nothing),
                }
            },
            FormOutcome::RequestCancel => {
                match pending {
                    Some(p) => (
                        EventResult::Consumed,
                        AskUserEffect::AskReject {
                            asker: p.owner.copy(),
                            request: p.request_id_json.clone(),
                        },
                    ),
                    None => (EventResult::Consumed, AskUserEffect::Nothing),
                }
            },
        }
    }
}

// ── What is shown ──────────────────────────────────────────────────────────

/// The style of a question's tab.
pub open spec fn tab_style(active: bool) -> Style {
    if active {
        on(Color::Surface, Back::Action)
    } else {
        fg(Color::Dim)
    }
}

/// The tab of a question: its header, and a mark once it is answered.
pub open spec fn tab_of(q: QuestionV, active: bool, answered: bool) -> LineV {
    seq![lit(" "@ + q.header, tab_style(active))] + (if answered {
        seq![msg("panel-ask-user-answered-mark"@, tab_style(active))]
    } else {
        Seq::empty()
    }) + seq![lit(" "@, tab_style(active)), lit(" "@, fg(Color::Plain))]
}

/// The tabs of the first questions.
pub open spec fn tabs(f: FormV, qs: Seq<QuestionV>, focused: int, to: int) -> LineV
    decreases to,
{
    if to <= 0 {
        Seq::empty()
    } else {
        tabs(f, qs, focused, to - 1) + tab_of(qs[to - 1], to - 1 == focused, f.answered(to - 1))
    }
}

/// A line of text for each line that a text is wrapped into.
pub open spec fn text_lines(lines: Seq<Seq<char>>, prefix: Seq<char>, style: Style) -> Seq<LineV> {
    lines.map_values(|l: Seq<char>| seq![lit(prefix + l, style)])
}

/// A text, wrapped.
pub open spec fn wrapped(text: Seq<char>, width: nat, style: Style) -> Seq<LineV> {
    text_lines(wrap_text_spec(text, width), Seq::empty(), style)
}

/// The mark of an option.
pub open spec fn option_mark(selected: bool, multi_select: bool) -> Seq<char> {
    if selected {
        if multi_select {
            "☑"@
        } else {
            "●"@
        }
    } else if multi_select {
        "☐"@
    } else {
        "○"@
    }
}

fn mark(selected: bool, multi_select: bool) -> (r: &'static str)
    ensures
        r@ == option_mark(selected, multi_select),
{
    if selected {
        if multi_select {
            "☑"
        } else {
            "●"
        }
    } else if multi_select {
        "☐"
    } else {
        "○"
    }
}

/// The lines of an option.
pub open spec fn option_lines(
    o: OptionV,
    selected: bool,
    focused: bool,
    multi_select: bool,
    width: nat,
) -> Seq<LineV> {
    wrapped(
        "  "@ + option_mark(selected, multi_select) + " "@ + o.label,
        width,
        if selected || focused {
            bold(Color::PopupAction)
        } else {
            fg(Color::Primary)
        },
    ) + (if o.description.len() == 0 {
        Seq::empty()
    } else {
        wrapped("    "@ + o.description, width, fg(Color::Dim))
    })
}

/// An option is shown as chosen: while typing, and once an answer was typed, none
/// is.
pub open spec fn shown_chosen(f: FormV, focused: int, i: int) -> bool {
    !f.is_typing && f.typed_for(focused) is None && 0 <= focused < f.answers.len()
        && f.answers[focused].contains(i as usize)
}

/// The lines of the first options.
pub open spec fn options_lines(f: FormV, q: QuestionV, focused: int, to: int, width: nat) -> Seq<
    LineV,
>
    decreases to,
{
    if to <= 0 {
        Seq::empty()
    } else {
        options_lines(f, q, focused, to - 1, width) + option_lines(
            q.options[to - 1],
            shown_chosen(f, focused, to - 1),
            !f.is_typing && to - 1 == f.option,
            q.multi_select,
            width,
        )
    }
}

/// The place for a typed answer: the editor while typing, what was typed, or an
/// invitation.
pub open spec fn custom_lines(
    f: FormV,
    q: QuestionV,
    focused: int,
    editor: Seq<LineV>,
    width: nat,
) -> Seq<LineV> {
    if f.is_typing {
        editor.map_values(|l: LineV| seq![lit("    "@, fg(Color::Plain))] + l)
    } else if f.typed_for(focused) is Some {
        text_lines(
            wrap_text_spec(
                f.typed_for(focused)->0,
                if width >= 4 {
                    (width - 4) as nat
                } else {
                    0
                },
            ),
            "    "@ + option_mark(true, q.multi_select) + " "@,
            bold(Color::PopupAction),
        )
    } else {
        let style = if f.option == q.options.len() {
            bold(Color::PopupAction)
        } else {
            fg(Color::Dim)
        };
        seq![seq![lit("    "@, style), msg("ask-user-placeholder"@, style)]]
    }
}

/// The message key of the hint below the form.
pub open spec fn hint_key(f: FormV, qs: Seq<QuestionV>, focused: int) -> Seq<char> {
    let multi = qs[focused].multi_select;
    if f.is_typing {
        "panel-ask-user-hint-typing"@
    } else if qs.len() > 1 {
        if f.complete(qs) {
            if multi {
                "panel-ask-user-hint-tab-multi-select-answered"@
            } else {
                "panel-ask-user-hint-tab-multi-answered"@
            }
        } else if multi {
            "panel-ask-user-hint-tab-multi-select-unanswered"@
        } else {
            "panel-ask-user-hint-tab-multi-unanswered"@
        }
    } else if f.open(qs, 0) {
        if multi {
            "panel-ask-user-hint-single-multi-select-unanswered"@
        } else {
            "panel-ask-user-hint-single-unanswered"@
        }
    } else if multi {
        "panel-ask-user-hint-single-multi-select-answered"@
    } else {
        "panel-ask-user-hint-single-answered"@
    }
}

/// What the panel shows of a form with questions; `editor` is what the text field
/// shows.
pub open spec fn form_lines(f: FormV, qs: Seq<QuestionV>, editor: Seq<LineV>, width: nat) -> Seq<
    LineV,
> {
    let focused = if f.focused < qs.len() {
        f.focused
    } else {
        qs.len() - 1
    };
    let q = qs[focused];
    seq![
        blank(),
        tabs(f, qs, focused, qs.len() as int),
        seq![lit(repeated('─', width), fg(Color::BorderDefault))],
        blank(),
    ] + wrapped(question_text(q), width, fg(Color::Primary)) + seq![blank()] + options_lines(
        f,
        q,
        focused,
        q.options.len() as int,
        width,
    ) + custom_lines(f, q, focused, editor, width) + (if q.options.len() == 0 {
        seq![seq![msg("panel-ask-user-no-options"@, fg(Color::Dim))]]
    } else {
        Seq::empty()
    }) + seq![blank(), seq![msg(hint_key(f, qs, focused), fg(Color::Dim))]]
}

/// What the panel shows.
pub open spec fn panel_lines(
    f: FormV,
    pending: Option<&PendingInteraction>,
    editor: Seq<LineV>,
    width: nat,
) -> Seq<LineV> {
    match pending {
        None => seq![blank(), seq![msg("panel-ask-user-empty"@, italic(Color::Muted))]],
        Some(p) => if p.payload@.len() == 0 {
            seq![blank(), seq![msg("panel-ask-user-malformed"@, fg(Color::Warning))]]
        } else {
            form_lines(f, p.payload@, editor, width)
        },
    }
}

fn push_lines(d: &mut Doc, lines: &Vec<String>, prefix: &str, style: Style)
    ensures
        final(d)@ == old(d)@ + text_lines(line_views(lines@), prefix@, style),
{
    let ghost start = d@;
    let ghost all = text_lines(line_views(lines@), prefix@, style);
    let mut i: usize = 0;
    assert(d@ =~= start + all.take(0));
    while i < lines.len()
        invariant
            i <= lines@.len(),
            all == text_lines(line_views(lines@), prefix@, style),
            d@ == start + all.take(i as int),
        decreases lines.len() - i,
    {
        d.line(Piece::text(cat(prefix, lines[i].as_str()), style));
        assert(all[i as int] =~= seq![lit(prefix@ + lines@[i as int]@, style)]);
        i = i + 1;
        assert(d@ =~= start + all.take(i as int));
    }
    assert(all.take(i as int) =~= all);
}

fn push_wrapped(d: &mut Doc, text: &str, width: usize, style: Style)
    ensures
        final(d)@ == old(d)@ + wrapped(text@, width as nat, style),
{
    proof {
        reveal_strlit("");
        assert(""@ =~= Seq::<char>::empty());
    }
    let lines = wrap_text(text, width);
    push_lines(d, &lines, "", style);
}

fn show_tab(l: &mut Line, q: &Question, active: bool, answered: bool)
    ensures
        final(l)@ == old(l)@ + tab_of(q@, active, answered),
{
    let ghost before = l@;
    let style = if active {
        Style::on(Color::Surface, Back::Action)
    } else {
        Style::fg(Color::Dim)
    };
    l.push(Piece::text(cat(" ", q.header.as_str()), style));
    if answered {
        l.push(Piece::msg("panel-ask-user-answered-mark", style));
    }
    l.push(Piece::lit(" ", style));
    l.push(Piece::lit(" ", Style::fg(Color::Plain)));
    assert(l@ =~= before + tab_of(q@, active, answered));
}

fn holds(v: &Vec<usize>, x: usize) -> (b: bool)
    ensures
        b == v@.contains(x),
{
    let mut i: usize = 0;
    while i < v.len()
        invariant
            i <= v@.len(),
            forall|j: int| 0 <= j < i ==> v@[j] != x,
        decreases v.len() - i,
    {
        if v[i] == x {
            assert(v@[i as int] == x);
            return true;
        }
        i = i + 1;
    }
    false
}

impl FormState {
    fn is_answered(&self, i: usize) -> (b: bool)
        ensures
            b == self@.answered(i as int),
    {
        (i < self.answers.len() && self.answers[i].len() > 0) || (i < self.custom_answers.len()
            && self.custom_answers[i].is_some())
    }

    fn show_tabs(&self, a: &AskUser, focused: usize) -> (l: Line)
        ensures
            l@ == tabs(self@, a@, focused as int, a@.len() as int),
    {
        let mut l = Line::new();
        let mut i: usize = 0;
        while i < a.questions.len()
            invariant
                i <= a.questions@.len(),
                l@ == tabs(self@, a@, focused as int, i as int),
            decreases a.questions.len() - i,
        {
            let answered = self.is_answered(i);
            assert(a@[i as int] == a.questions@[i as int]@);
            show_tab(&mut l, &a.questions[i], i == focused, answered);
            i = i + 1;
        }
        l
    }

    fn show_options(&self, q: &Question, focused: usize, width: usize) -> (d: Doc)
        ensures
            d@ == options_lines(
                self@,
                q@,
                focused as int,
                q@.options.len() as int,
                width as nat,
            ),
    {
        let typed_in = focused < self.custom_answers.len() && self.custom_answers[focused].is_some();
        assert(typed_in == self@.typed_for(focused as int) is Some);
        let mut d = Doc::new();
        let mut i: usize = 0;
        while i < q.options.len()
            invariant
                i <= q.options@.len(),
                typed_in == self@.typed_for(focused as int) is Some,
                d@ == options_lines(self@, q@, focused as int, i as int, width as nat),
            decreases q.options.len() - i,
        {
            let o = &q.options[i];
            assert(q@.options[i as int] == o@);
            let selected = !self.is_typing && !typed_in && focused < self.answers.len() && holds(
                &self.answers[focused],
                i,
            );
            assert(selected == shown_chosen(self@, focused as int, i as int));
            let here = !self.is_typing && i == self.focused_option;
            let ghost before = d@;
            let style = if selected || here {
                Style::bold(Color::PopupAction)
            } else {
                Style::fg(Color::Primary)
            };
            push_wrapped(
                &mut d,
                cat4("  ", mark(selected, q.multi_select), " ", o.label.as_str()).as_str(),
                width,
                style,
            );
            if !o.description.as_str().is_empty() {
                push_wrapped(
                    &mut d,
                    cat("    ", o.description.as_str()).as_str(),
                    width,
                    Style::fg(Color::Dim),
                );
            }
            i = i + 1;
            assert(d@ =~= before + option_lines(o@, selected, here, q@.multi_select, width as nat));
        }
        d
    }

    fn show_custom(&self, q: &Question, focused: usize, editor: Doc, width: usize) -> (d: Doc)
        ensures
            d@ == custom_lines(self@, q@, focused as int, editor@, width as nat),
    {
        let mut d = Doc::new();
        if self.is_typing {
            let ghost all = editor@.map_values(
                |l: LineV| seq![lit("    "@, fg(Color::Plain))] + l,
            );
            let ghost source = editor.lines@;
            let lines = editor.lines;
            assert(d@ =~= all.take(0));
            for line in it: lines
                invariant
                    it.seq() == source,
                    editor@ == source.map_values(|l: Line| l@),
                    all == editor@.map_values(|l: LineV| seq![lit("    "@, fg(Color::Plain))] + l),
                    d@ == all.take(it.index() as int),
            {
                let ghost i = it.index() as int;
                let mut l = Line::of(Piece::lit("    ", Style::fg(Color::Plain)));
                l.extend(line);
                assert(l@ =~= all[i]);
                d.push(l);
                assert(d@ =~= all.take(i + 1));
            }
            assert(all.take(all.len() as int) =~= all);
            return d;
        }
        if focused < self.custom_answers.len() {
            match &self.custom_answers[focused] {
                Some(t) => {
                    let lines = wrap_text(t.as_str(), width.saturating_sub(4));
                    let prefix = crate::text::cat3("    ", mark(true, q.multi_select), " ");
                    push_lines(&mut d, &lines, prefix.as_str(), Style::bold(Color::PopupAction));
                    assert(d@ =~= custom_lines(
                        self@,
                        q@,
                        focused as int,
                        editor@,
                        width as nat,
                    ));
                    return d;
                },
                None => {},
            }
        }
        let style = if self.focused_option == q.options.len() {
            Style::bold(Color::PopupAction)
        } else {
            Style::fg(Color::Dim)
        };
        d.push(Line::of2(Piece::lit("    ", style), Piece::msg("ask-user-placeholder", style)));
        assert(d@ =~= custom_lines(self@, q@, focused as int, editor@, width as nat));
        d
    }

    fn hint(&self, a: &AskUser, focused: usize) -> (r: &'static str)
        requires
            focused < a@.len(),
        ensures
            r@ == hint_key(self@, a@, focused as int),
    {
        assert(a@[focused as int] == a.questions@[focused as int]@);
        let multi = a.questions[focused].multi_select;
        if self.is_typing {
            return "panel-ask-user-hint-typing";
        }
        if a.questions.len() > 1 {
            let done = self.all_answered(Some(a));
            return if done {
                if multi {
                    "panel-ask-user-hint-tab-multi-select-answered"
                } else {
                    "panel-ask-user-hint-tab-multi-answered"
                }
            } else if multi {
                "panel-ask-user-hint-tab-multi-select-unanswered"
            } else {
                "panel-ask-user-hint-tab-multi-unanswered"
            };
        }
        assert(a@[0] == a.questions@[0]@);
        let waiting = a.questions[0].options.len() > 0 && !self.is_answered(0);
        if waiting {
            if multi {
                "panel-ask-user-hint-single-multi-select-unanswered"
            } else {
                "panel-ask-user-hint-single-unanswered"
            }
        } else if multi {
            "panel-ask-user-hint-single-multi-select-answered"
        } else {
            "panel-ask-user-hint-single-answered"
        }
    }

    /// What the panel shows; `editor` is what the text field shows.
    pub fn lines(&self, pending: Option<&PendingInteraction>, editor: Doc, width: usize) -> (d: Doc)
        ensures
            d@ == panel_lines(self@, pending, editor@, width as nat),
    {
        let mut d = Doc::new();
        d.blank();
        let p = match pending {
            Some(p) => p,
            None => {
                d.line(Piece::msg("panel-ask-user-empty", Style::italic(Color::Muted)));
                assert(d@ =~= panel_lines(self@, pending, editor@, width as nat));
                return d;
            },
        };
        let a = &p.payload;
        if a.questions.len() == 0 {
            d.line(Piece::msg("panel-ask-user-malformed", Style::fg(Color::Warning)));
            assert(d@ =~= panel_lines(self@, pending, editor@, width as nat));
            return d;
        }
        let focused: usize = if self.focused < a.questions.len() {
            self.focused
        } else {
            a.questions.len() - 1
        };
        let q = &a.questions[focused];
        assert(a@[focused as int] == q@);
        d.push(self.show_tabs(a, focused));
        d.line(Piece::text(repeat_char('─', width), Style::fg(Color::BorderDefault)));
        d.blank();
        push_wrapped(&mut d, text_of_question(q).as_str(), width, Style::fg(Color::Primary));
        d.blank();
        d.extend(self.show_options(q, focused, width));
        d.extend(self.show_custom(q, focused, editor, width));
        if q.options.len() == 0 {
            d.line(Piece::msg("panel-ask-user-no-options", Style::fg(Color::Dim)));
        }
        d.blank();
        d.line(Piece::msg(self.hint(a, focused), Style::fg(Color::Dim)));
        assert(d@ =~= panel_lines(self@, pending, editor@, width as nat));
        d
    }
}

// ── Laws ───────────────────────────────────────────────────────────────────

proof fn options_lines_count(f: FormV, q: QuestionV, focused: int, to: int, width: nat)
    requires
        0 <= to <= q.options.len(),
        !q.multi_select,
        forall|i: int| 0 <= i < q.options.len() ==> !#[trigger] shown_chosen(f, focused, i),
    ensures
        options_lines(f, q, focused, to, width).len() == option_row(q, to, width) - option_row(
            q,
            0,
            width,
        ),
    decreases to,
{
    if to > 0 {
        options_lines_count(f, q, focused, to - 1, width);
        let o = q.options[to - 1];
        assert(!shown_chosen(f, focused, to - 1));
        reveal_strlit("  ");
        reveal_strlit("○");
        reveal_strlit(" ");
        reveal_strlit("  ○ ");
        assert("  "@ + "○"@ + " "@ + o.label =~= "  ○ "@ + o.label);
    }
}

/// Clicks find the options of a question where they are shown, as long as none is
/// chosen: the rows above an option are as many as the lines above it.
pub proof fn options_are_clicked_where_shown(f: FormV, qs: Seq<QuestionV>, i: int, width: nat)
    requires
        0 <= f.focused < qs.len(),
        0 <= i <= qs[f.focused].options.len(),
        !qs[f.focused].multi_select,
        forall|k: int|
            0 <= k < qs[f.focused].options.len() ==> !#[trigger] shown_chosen(f, f.focused, k),
    ensures
        option_row(qs[f.focused], i, width) == 4 + wrapped(
            question_text(qs[f.focused]),
            width,
            fg(Color::Primary),
        ).len() + 1 + options_lines(f, qs[f.focused], f.focused, i, width).len(),
{
    options_lines_count(f, qs[f.focused], f.focused, i, width);
}

proof fn option_at_bounds(q: QuestionV, from: int, row: int, width: nat)
    ensures
        option_at(q, from, row, width) is Some ==> 0 <= option_at(q, from, row, width)->0
            < q.options.len(),
    decreases q.options.len() - from,
{
    if 0 <= from < q.options.len() && !(option_row(q, from, width) <= row < option_row(
        q,
        from + 1,
        width,
    )) {
        option_at_bounds(q, from + 1, row, width);
    }
}

/// A click on an option gives the answers that the space bar on it gives.
pub proof fn click_is_space_on_option(
    f: FormV,
    key: KeyEvent,
    qs: Seq<QuestionV>,
    row: int,
    width: nat,
)
    requires
        is_space(key),
        !f.is_typing,
        0 <= f.focused < qs.len(),
        qs[f.focused].options.len() <= usize::MAX,
    ensures
        option_at(qs[f.focused], 0, row, width) matches Some(o) ==> form_step(
            FormV { option: o, ..f },
            key,
            qs,
            width,
        ).0.answers == row_clicked(f, qs, row, width).answers,
{
    option_at_bounds(qs[f.focused], 0, row, width);
}

// ── The panel ──────────────────────────────────────────────────────────────

/// The panel: the form, and how far it is scrolled.
#[derive(Debug)]
pub struct AskUserPanel {
    pub form: FormState,
    pub scroll: ScrollViewState,
}

/// The panel, abstractly.
pub struct AskUserV {
    pub form: FormV,
    pub scroll: ScrollViewState,
}

impl View for AskUserPanel {
    type V = AskUserV;

    open spec fn view(&self) -> AskUserV {
        AskUserV { form: self.form@, scroll: self.scroll }
    }
}

impl Default for AskUserPanel {
    fn default() -> (p: AskUserPanel)
        ensures
            p@ == (AskUserV {
                form: FormV::renewed(0, Seq::empty()),
                scroll: ScrollViewState { x: 0, y: 0, content_height: None, page_height: None },
            }),
    {
        AskUserPanel { form: FormState::default(), scroll: ScrollViewState::default() }
    }
}

/// What the program around the panel has to send: the answers, once they are complete.
#[derive(Debug)]
pub enum AskUserReply {
    Nothing,
    Answers { owner: InteractionOwner, request_id: String, answers: Json },
}

/// What the program has to send, abstractly.
pub enum ReplyV {
    Nothing,
    Answers(OwnerV, Seq<char>, JsonV),
}

impl View for AskUserReply {
    type V = ReplyV;

    open spec fn view(&self) -> ReplyV {
        match *self {
            AskUserReply::Nothing => ReplyV::Nothing,
            AskUserReply::Answers { owner, request_id, answers } => ReplyV::Answers(
                owner@,
                request_id@,
                answers@,
            ),
        }
    }
}

/// What an input does to the form, the popups and the open panels. Answers end the request
/// and close the panel; giving up opens the question whether to.
pub open spec fn asking_step(
    f: FormV,
    popups: PopupsV,
    panels: Seq<PanelKind>,
    event: Event,
    area: Option<Rect>,
    width: nat,
) -> (FormV, PopupsV, Seq<PanelKind>, EventResult, ReplyV) {
    let pending = match popups.ask_user {
        Some(p) => Some(&p),
        None => None,
    };
    let (g, r, e) = panel_step(f, event, area, popups.kind is Some, pending, width);
    match e {
        AskEffectV::Nothing => (g, popups, panels, r, ReplyV::Nothing),
        AskEffectV::Submit(owner, request, answers) => if asked_by(popups.ask_user, owner) {
            (
                g,
                PopupsV { ask_user: None, ..popups },
                without_kind(panels, PanelKind::AskUser),
                r,
                ReplyV::Answers(owner, request, answers),
            )
        } else {
            (g, popups, panels, r, ReplyV::Answers(owner, request, answers))
        },
        AskEffectV::AskReject(owner, request) => (
            g,
            PopupsV {
                kind: Some(PopupKind::Confirm),
                confirm: Some(reject_payload(owner, request)),
                ..popups
            },
            panels,
            r,
            ReplyV::Nothing,
        ),
    }
}

/// The input asks to reject the request.
pub open spec fn gives_up(
    f: FormV,
    popups: PopupsV,
    event: Event,
    area: Option<Rect>,
    width: nat,
) -> bool {
    let pending = match popups.ask_user {
        Some(p) => Some(&p),
        None => None,
    };
    panel_step(f, event, area, popups.kind is Some, pending, width).2 is AskReject
}

impl AskUserPanel {
    /// Follows the request that waits: another one starts the form anew.
    pub fn follow(&mut self, interaction: Option<&PendingInteraction>) -> (reset: bool)
        ensures
            reset == (old(self)@.form.fingerprint != fingerprint_of(interaction)),
            reset ==> final(self)@.form == FormV::renewed(
                match interaction {
                    Some(p) => p.payload@.len(),
                    None => 0,
                },
                fingerprint_of(interaction),
            ) && final(self)@.scroll == (ScrollViewState {
                x: 0,
                y: 0,
                content_height: None,
                page_height: None,
            }),
            !reset ==> final(self)@ == old(self)@,
    {
        reset_for_owner_change(&mut self.form, interaction, &mut self.scroll)
    }

    /// Deals with an input; gives whether it is used up, what has to be sent, and what
    /// whoever waits for the user is told of a question that gave way to another.
    pub fn handle_event(
        &mut self,
        event: &Event,
        popups: &mut Popups,
        panels: &mut OpenPanels,
        area: Option<Rect>,
        width: usize,
    ) -> (r: (EventResult, AskUserReply, Option<RecoveryAnswer>))
        ensures
            (final(self)@.form, final(popups)@, final(panels)@, r.0, r.1@) == asking_step(
                old(self)@.form,
                old(popups)@,
                old(panels)@,
                *event,
                area,
                width as nat,
            ),
            final(self)@.scroll == old(self)@.scroll,
            r.2 == (if gives_up(old(self)@.form, old(popups)@, *event, area, width as nat) {
                settled(old(popups)@.confirm)
            } else {
                None
            }),
    {
        let open = popups.is_popup_active();
        let pending = match &popups.ask_user {
            Some(p) => Some(p),
            None => None,
        };
        let (r, e) = self.form.handle_panel_event(event, area, open, pending, width);
        match e {
            AskUserEffect::Nothing => (r, AskUserReply::Nothing, None),
            AskUserEffect::Submit { owner, request_id, answers } => {
                panels.close_ask_user_panel_for_owner(&mut popups.ask_user, &owner);
                (r, AskUserReply::Answers { owner, request_id, answers }, None)
            },
            AskUserEffect::AskReject { asker, request } => {
                let told = popups.ask_reject(&asker, request.as_str());
                (r, AskUserReply::Nothing, told)
            },
        }
    }
}

/// Answers that are sent close the panel, and giving up does not before it was confirmed.
pub proof fn the_panel_stays_until_answered(
    f: FormV,
    popups: PopupsV,
    panels: Seq<PanelKind>,
    event: Event,
    area: Option<Rect>,
    width: nat,
)
    ensures
        ({
            let (_, after, left, _, reply) = asking_step(f, popups, panels, event, area, width);
            &&& reply is Nothing ==> left == panels && after.ask_user == popups.ask_user
            &&& reply is Answers ==> after.ask_user is None && left == without_kind(
                panels,
                PanelKind::AskUser,
            )
        }),
{
}

} // verus!
