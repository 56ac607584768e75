//! The popup that asks the user questions, one answer to each.

use crate::doc::{blank, bold, fg, italic, lit, msg, Color, Doc, Line, Piece, PieceV, Style};
use crate::event::{Event, EventResult, KeyCode, KeyEvent};
use crate::json::{with_member, Json, JsonV, ObjectBuilder};
use crate::list_nav::{classify_list_nav, cycle_next, cycle_previous, nav_of, next_cyc, next_sel,
    next_selection, prev_cyc, prev_sel, previous_selection, ListNavAction};
use crate::panels::ask_user::panel::option_mark;
use crate::panels::ask_user::types::{question_ids, same_texts, AskUser, InteractionOwner,
    OptionV, OwnerV, PendingInteraction, Question, QuestionV};
use crate::text::{cat, cat3, cat4, repeat_char, repeated, text_views};
use vstd::prelude::*;

verus! {

/// A line of the popup.
pub type LineV = Seq<PieceV>;

/// The state of the popup.
#[derive(Debug)]
pub struct AskUserPopup {
    pub focused: usize,
    pub answers: Vec<Option<usize>>,
    pub focused_option: usize,
    pub fingerprint: Vec<String>,
}

/// The state of the popup, abstractly.
pub struct PopupV {
    pub focused: int,
    pub answers: Seq<Option<usize>>,
    pub option: int,
    pub ids: Seq<Seq<char>>,
}

impl View for AskUserPopup {
    type V = PopupV;

    open spec fn view(&self) -> PopupV {
        PopupV {
            focused: self.focused as int,
            answers: self.answers@,
            option: self.focused_option as int,
            ids: text_views(self.fingerprint@),
        }
    }
}

/// The questions of a request, none where there is none.
pub open spec fn asked(p: Option<&PendingInteraction>) -> Seq<QuestionV> {
    match p {
        Some(p) => p.payload@,
        None => Seq::empty(),
    }
}

impl PopupV {
    /// Nothing chosen yet.
    pub open spec fn renewed(qs: Seq<QuestionV>) -> PopupV {
        PopupV {
            focused: 0,
            answers: Seq::new(qs.len(), |i: int| None::<usize>),
            option: 0,
            ids: question_ids(qs),
        }
    }

    /// The answer to a question.
    pub open spec fn answer(self, i: int) -> Option<usize> {
        if 0 <= i < self.answers.len() {
            self.answers[i]
        } else {
            None
        }
    }

    /// A question still waits for an answer.
    pub open spec fn open(self, qs: Seq<QuestionV>, i: int) -> bool {
        0 <= i < qs.len() && qs[i].options.len() > 0 && self.answer(i) is None
    }

    /// No question waits for an answer.
    pub open spec fn complete(self, qs: Seq<QuestionV>) -> bool {
        forall|i: int| 0 <= i < self.answers.len() ==> !#[trigger] self.open(qs, i)
    }

    /// The first question that waits, looking at `n` questions from `i` on.
    pub open spec fn seek(self, qs: Seq<QuestionV>, i: int, n: nat) -> int
        decreases n,
    {
        if n == 0 || self.open(qs, i) {
            i
        } else {
            self.seek(qs, (i + 1) % (qs.len() as int), (n - 1) as nat)
        }
    }

    /// The question to go to next.
    pub open spec fn next_open(self, qs: Seq<QuestionV>) -> int {
        self.seek(
            qs,
            (self.focused + 1) % (qs.len() as int),
            if self.focused < qs.len() {
                (qs.len() - 1) as nat
            } else {
                qs.len()
            },
        )
    }

    /// At another question, on the option chosen there.
    pub open spec fn focused_on(self, i: int) -> PopupV {
        PopupV {
            focused: i,
            option: match self.answer(i) {
                Some(o) => o as int,
                None => 0,
            },
            ..self
        }
    }
}

/// The answers made long enough for a question.
pub open spec fn room_for(answers: Seq<Option<usize>>, question: int) -> Seq<Option<usize>> {
    if question < answers.len() {
        answers
    } else {
        answers + Seq::new((question + 1 - answers.len()) as nat, |i: int| None::<usize>)
    }
}

/// What the space bar does: it chooses the option under the focus, or takes the
/// choice back.
pub open spec fn spaced(p: PopupV, qs: Seq<QuestionV>) -> PopupV {
    if 0 <= p.focused < qs.len() && p.option < qs[p.focused].options.len() {
        PopupV {
            answers: room_for(p.answers, p.focused).update(
                p.focused,
                if p.answer(p.focused) == Some(p.option as usize) {
                    None
                } else {
                    Some(p.option as usize)
                },
            ),
            ..p
        }
    } else {
        p
    }
}

/// The answer to a question: the label of the chosen option.
pub open spec fn answer_value(q: QuestionV, chosen: Option<usize>) -> JsonV {
    match chosen {
        Some(o) => if o < q.options.len() {
            JsonV::Str(q.options[o as int].label)
        } else {
            JsonV::Str(Seq::empty())
        },
        None => JsonV::Str(Seq::empty()),
    }
}

/// The answers to the first questions, by the ids of the questions.
pub open spec fn answers_to(qs: Seq<QuestionV>, answers: Seq<Option<usize>>, to: int) -> Seq<
    (Seq<char>, JsonV),
>
    decreases to,
{
    if to <= 0 {
        Seq::empty()
    } else {
        with_member(
            answers_to(qs, answers, to - 1),
            qs[to - 1].id,
            answer_value(
                qs[to - 1],
                if to - 1 < answers.len() {
                    answers[to - 1]
                } else {
                    None
                },
            ),
        )
    }
}

/// The answers to all questions.
pub open spec fn answers_map(qs: Seq<QuestionV>, answers: Seq<Option<usize>>) -> JsonV {
    JsonV::Object(answers_to(qs, answers, qs.len() as int))
}

/// What the program around the popup has to do.
#[derive(Debug)]
pub enum PopupEffect {
    Nothing,
    Submit { owner: InteractionOwner, request_id: String, answers: Json },
    Cancel { asker: InteractionOwner, request: String },
}

/// What the program has to do, abstractly.
pub enum PopupEffectV {
    Nothing,
    Submit(OwnerV, Seq<char>, JsonV),
    Cancel(OwnerV, Seq<char>),
}

impl View for PopupEffect {
    type V = PopupEffectV;

    open spec fn view(&self) -> PopupEffectV {
        match *self {
            PopupEffect::Nothing => PopupEffectV::Nothing,
            PopupEffect::Submit { owner, request_id, answers } => PopupEffectV::Submit(
                owner@,
                request_id@,
                answers@,
            ),
            PopupEffect::Cancel { asker, request } => PopupEffectV::Cancel(asker@, request@),
        }
    }
}

/// What Enter does: the answers are given once all are there, else the next
/// question that waits gets the focus.
pub open spec fn confirmed(p: PopupV, pending: Option<&PendingInteraction>) -> (
    PopupV,
    PopupEffectV,
) {
    let qs = asked(pending);
    if p.complete(qs) {
        (
            p,
            match pending {
                Some(i) => PopupEffectV::Submit(
                    i.owner@,
                    i.request_id_json@,
                    answers_map(qs, p.answers),
                ),
                None => PopupEffectV::Nothing,
            },
        )
    } else {
        (PopupV { focused: p.next_open(qs), option: 0, ..p }, PopupEffectV::Nothing)
    }
}

/// What a key press does.
pub open spec fn key_step(p: PopupV, key: KeyEvent, pending: Option<&PendingInteraction>) -> (
    PopupV,
    EventResult,
    PopupEffectV,
) {
    let qs = asked(pending);
    if key.mods.none() && key.code == KeyCode::Char(' ') {
        (spaced(p, qs), EventResult::Consumed, PopupEffectV::Nothing)
    } else {
        match nav_of(key.code) {
            Some(ListNavAction::MoveUp) => (
                PopupV { option: prev_sel(p.option), ..p },
                EventResult::Consumed,
                PopupEffectV::Nothing,
            ),
            Some(ListNavAction::MoveDown) => (
                if 0 <= p.focused < qs.len() && qs[p.focused].options.len() > 0 {
                    PopupV {
                        option: next_sel(p.option, qs[p.focused].options.len() as int),
                        ..p
                    }
                } else {
                    p
                },
                EventResult::Consumed,
                PopupEffectV::Nothing,
            ),
            Some(ListNavAction::CycleForward) => if qs.len() > 0 {
                (
                    p.focused_on(next_cyc(p.focused, qs.len() as int)),
                    EventResult::Consumed,
                    PopupEffectV::Nothing,
                )
            } else {
                (p, EventResult::Ignored, PopupEffectV::Nothing)
            },
            Some(ListNavAction::CycleBackward) => if qs.len() > 0 {
                (
                    p.focused_on(prev_cyc(p.focused, qs.len() as int)),
                    EventResult::Consumed,
                    PopupEffectV::Nothing,
                )
            } else {
                (p, EventResult::Ignored, PopupEffectV::Nothing)
            },
            Some(ListNavAction::Confirm) => {
                let (q, e) = confirmed(p, pending);
                (q, EventResult::Consumed, e)
            },
            Some(ListNavAction::Cancel) => (
                p,
                EventResult::Consumed,
                match pending {
                    Some(i) => PopupEffectV::Cancel(i.owner@, i.request_id_json@),
                    None => PopupEffectV::Nothing,
                },
            ),
            None => (p, EventResult::Ignored, PopupEffectV::Nothing),
        }
    }
}

/// What an input does.
pub open spec fn popup_step(p: PopupV, event: Event, pending: Option<&PendingInteraction>) -> (
    PopupV,
    EventResult,
    PopupEffectV,
) {
    match event {
        Event::Key(key) => if key.press {
            key_step(p, key, pending)
        } else {
            (p, EventResult::Ignored, PopupEffectV::Nothing)
        },
        _ => (p, EventResult::Ignored, PopupEffectV::Nothing),
    }
}

/// The answers as a value, by the ids of the questions.
pub fn build_answers_map(pending: Option<&AskUser>, answers: &Vec<Option<usize>>) -> (r: Json)
    ensures
        r@ == answers_map(
            match pending {
                Some(a) => a@,
                None => Seq::empty(),
            },
            answers@,
        ),
{
    let mut o = ObjectBuilder::new();
    match pending {
        Some(a) => {
            let mut i: usize = 0;
            while i < a.questions.len()
                invariant
                    i <= a.questions@.len(),
                    o@ == answers_to(a@, answers@, i as int),
                decreases a.questions.len() - i,
            {
                let q = &a.questions[i];
                assert(a@[i as int] == q@);
                let chosen: Option<usize> = if i < answers.len() {
                    answers[i]
                } else {
                    None
                };
                let value = match chosen {
                    Some(k) => if k < q.options.len() {
                        assert(q@.options[k as int] == q.options@[k as int]@);
                        Json::text(q.options[k].label.as_str())
                    } else {
                        Json::Str(String::new())
                    },
                    None => Json::Str(String::new()),
                };
                o.put(q.id.as_str(), value);
                i = i + 1;
            }
        },
        None => {},
    }
    o.build()
}

impl Default for AskUserPopup {
    fn default() -> (p: AskUserPopup)
        ensures
            p@ == PopupV::renewed(Seq::empty()),
    {
        let p = AskUserPopup {
            focused: 0,
            answers: Vec::new(),
            focused_option: 0,
            fingerprint: Vec::new(),
        };
        assert(p@.answers =~= PopupV::renewed(Seq::empty()).answers);
        assert(p@.ids =~= question_ids(Seq::empty()));
        p
    }
}

impl AskUserPopup {
    /// Starts anew when other questions are asked.
    pub fn follow(&mut self, pending: Option<&PendingInteraction>)
        ensures
            final(self)@ == (if old(self)@.ids == question_ids(asked(pending)) {
                old(self)@
            } else {
                PopupV::renewed(asked(pending))
            }),
    {
        let ghost qs = asked(pending);
        let mut ids: Vec<String> = Vec::new();
        let mut none: Vec<Option<usize>> = Vec::new();
        match pending {
            Some(p) => {
                let list = &p.payload.questions;
                let mut i: usize = 0;
                assert(text_views(ids@) =~= question_ids(qs).take(0));
                while i < list.len()
                    invariant
                        i <= list@.len(),
                        qs == list@.map_values(|q: Question| q@),
                        none@.len() == i,
                        forall|j: int| 0 <= j < i ==> none@[j] is None,
                        text_views(ids@) == question_ids(qs).take(i as int),
                    decreases list.len() - i,
                {
                    let ghost before = text_views(ids@);
                    ids.push(list[i].id.clone());
                    none.push(None);
                    assert(text_views(ids@) =~= before.push(question_ids(qs)[i as int]));
                    i = i + 1;
                    assert(text_views(ids@) =~= question_ids(qs).take(i as int));
                }
            },
            None => {},
        }
        assert(text_views(ids@) =~= question_ids(qs));
        assert(none@ =~= PopupV::renewed(qs).answers);
        if !same_texts(&self.fingerprint, &ids) {
            self.focused = 0;
            self.answers = none;
            self.focused_option = 0;
            self.fingerprint = ids;
        }
    }

    fn is_open(&self, pending: Option<&PendingInteraction>, i: usize) -> (b: bool)
        ensures
            b == self@.open(asked(pending), i as int),
    {
        let offers = match pending {
            Some(p) => if i < p.payload.questions.len() {
                assert(p.payload@[i as int] == p.payload.questions@[i as int]@);
                p.payload.questions[i].options.len() > 0
            } else {
                false
            },
            None => false,
        };
        let chosen = i < self.answers.len() && self.answers[i].is_some();
        offers && !chosen
    }

    fn all_answered(&self, pending: Option<&PendingInteraction>) -> (b: bool)
        ensures
            b == self@.complete(asked(pending)),
    {
        let ghost qs = asked(pending);
        let mut i: usize = 0;
        while i < self.answers.len()
            invariant
                i <= self.answers@.len(),
                qs == asked(pending),
                forall|j: int| 0 <= j < i ==> !#[trigger] self@.open(qs, j),
            decreases self.answers.len() - i,
        {
            if self.is_open(pending, i) {
                assert(self@.open(qs, i as int));
                return false;
            }
            i = i + 1;
        }
        true
    }

    fn toggle(&mut self, pending: Option<&PendingInteraction>)
        ensures
            final(self)@ == spaced(old(self)@, asked(pending)),
    {
        let p = match pending {
            Some(p) => p,
            None => {
                return ;
            },
        };
        if self.focused >= p.payload.questions.len() {
            return ;
        }
        assert(p.payload@[self.focused as int] == p.payload.questions@[self.focused as int]@);
        if self.focused_option >= p.payload.questions[self.focused].options.len() {
            return ;
        }
        let ghost before = self@;
        let again = self.focused < self.answers.len() && self.answers[self.focused].is_some()
            && match self.answers[self.focused] {
            Some(o) => o == self.focused_option,
            None => false,
        };
        let ghost room = room_for(before.answers, before.focused);
        while self.answers.len() <= self.focused
            invariant
                before.answers.len() <= self.answers@.len(),
                self.answers@.len() <= before.answers.len() || self.answers@.len() <= self.focused
                    + 1,
                self@ == (PopupV { answers: self.answers@, ..before }),
                forall|j: int|
                    0 <= j < before.answers.len() ==> self.answers@[j] == before.answers[j],
                forall|j: int|
                    before.answers.len() <= j < self.answers@.len() ==> self.answers@[j] is None,
            decreases self.focused + 1 - self.answers@.len(),
        {
            self.answers.push(None);
        }
        assert(self.answers@ =~= room);
        let value: Option<usize> = if again {
            None
        } else {
            Some(self.focused_option)
        };
        let i: usize = self.focused;
        self.answers.set(i, value);
        assert(self@.answers =~= room.update(before.focused, value));
    }

    fn focus(&mut self, i: usize)
        ensures
            final(self)@ == old(self)@.focused_on(i as int),
    {
        self.focused = i;
        self.focused_option = if i < self.answers.len() {
            match self.answers[i] {
                Some(o) => o,
                None => 0,
            }
        } else {
            0
        };
    }

    fn confirm(&mut self, pending: Option<&PendingInteraction>) -> (e: PopupEffect)
        ensures
            (final(self)@, e@) == confirmed(old(self)@, pending),
    {
        let ghost qs = asked(pending);
        if self.all_answered(pending) {
            return match pending {
                Some(p) => PopupEffect::Submit {
                    owner: p.owner.copy(),
                    request_id: p.request_id_json.clone(),
                    answers: build_answers_map(Some(&p.payload), &self.answers),
                },
                None => PopupEffect::Nothing,
            };
        }
        let count: usize = match pending {
            Some(p) => p.payload.questions.len(),
            None => 0,
        };
        proof {
            let i = choose|i: int| 0 <= i < self@.answers.len() && #[trigger] self@.open(qs, i);
            assert(self@.open(qs, i));
        }
        let mut next: usize = (self.focused % count + 1) % count;
        assert(next == (self.focused + 1) % count as int) by {
            vstd::arithmetic::div_mod::lemma_add_mod_noop_right(
                1,
                self.focused as int,
                count as int,
            );
        }
        let mut left: usize = if self.focused < count {
            count - 1
        } else {
            count
        };
        while left > 0 && !self.is_open(pending, next)
            invariant
                qs == asked(pending),
                count == qs.len(),
                count > 0,
                next < count,
                self@.seek(qs, next as int, left as nat) == self@.next_open(qs),
            decreases left,
        {
            next = (next + 1) % count;
            left = left - 1;
        }
        self.focused = next;
        self.focused_option = 0;
        PopupEffect::Nothing
    }

    /// Deals with an input.
    pub fn handle(&mut self, event: &Event, pending: Option<&PendingInteraction>) -> (r: (
        EventResult,
        PopupEffect,
    ))
        ensures
            (final(self)@, r.0, r.1@) == popup_step(old(self)@, *event, pending),
    {
        let key = match event {
            Event::Key(k) => k,
            _ => {
                return (EventResult::Ignored, PopupEffect::Nothing);
            },
        };
        if !key.press {
            return (EventResult::Ignored, PopupEffect::Nothing);
        }
        if key.mods.is_none() && key.code == KeyCode::Char(' ') {
            self.toggle(pending);
            return (EventResult::Consumed, PopupEffect::Nothing);
        }
        let count: usize = match pending {
            Some(p) => p.payload.questions.len(),
            None => 0,
        };
        assert(count == asked(pending).len());
        match classify_list_nav(key) {
            Some(ListNavAction::MoveUp) => {
                self.focused_option = previous_selection(self.focused_option);
                (EventResult::Consumed, PopupEffect::Nothing)
            },
            Some(ListNavAction::MoveDown) => {
                match pending {
                    Some(p) => {
                        if self.focused < p.payload.questions.len() {
                            assert(asked(pending)[self.focused as int]
                                == p.payload.questions@[self.focused as int]@);
                            let n: usize = p.payload.questions[self.focused].options.len();
                            if n > 0 {
                                self.focused_option = next_selection(self.focused_option, n);
                            }
                        }
                    },
                    None => {},
                }
                (EventResult::Consumed, PopupEffect::Nothing)
            },
            Some(ListNavAction::CycleForward) => {
                if count == 0 {
                    return (EventResult::Ignored, PopupEffect::Nothing);
                }
                let to: usize = cycle_next(self.focused, count);
                self.focus(to);
                (EventResult::Consumed, PopupEffect::Nothing)
            },
            Some(ListNavAction::CycleBackward) => {
                if count == 0 {
                    return (EventResult::Ignored, PopupEffect::Nothing);
                }
                let to: usize = cycle_previous(self.focused, count);
                self.focus(to);
                (EventResult::Consumed, PopupEffect::Nothing)
            },
            Some(ListNavAction::Confirm) => {
                let e = self.confirm(pending);
                (EventResult::Consumed, e)
            },
            Some(ListNavAction::Cancel) => {
                match pending {
                    Some(p) => (
                        EventResult::Consumed,
                        PopupEffect::Cancel {
                            asker: p.owner.copy(),
                            request: p.request_id_json.clone(),
                        },
                    ),
                    None => (EventResult::Consumed, PopupEffect::Nothing),
                }
            },
            None => (EventResult::Ignored, PopupEffect::Nothing),
        }
    }
}

// ── What is shown ──────────────────────────────────────────────────────────

/// The tab of a question: in brackets where it has the focus, with a mark once it
/// is answered.
pub open spec fn tab_of(q: QuestionV, active: bool, answered: bool) -> LineV {
    seq![
        lit(
            if active {
                "["@ + q.header + "]"@
            } else {
                " "@ + q.header + " "@
            },
            fg(Color::Dim),
        ),
    ] + (if answered {
        seq![msg("popup-ask-user-answered-mark"@, fg(Color::Dim))]
    } else {
        Seq::empty()
    })
}

/// The tabs of the first questions, two spaces between them.
pub open spec fn tabs(p: PopupV, qs: Seq<QuestionV>, focused: int, to: int) -> LineV
    decreases to,
{
    if to <= 0 {
        seq![lit("  "@, fg(Color::Dim))]
    } else {
        tabs(p, qs, focused, to - 1) + (if to > 1 {
            seq![lit("  "@, fg(Color::Dim))]
        } else {
            Seq::empty()
        }) + tab_of(qs[to - 1], to - 1 == focused, p.answer(to - 1) is Some)
    }
}

/// The lines of an option.
pub open spec fn option_lines(o: OptionV, selected: bool, focused: bool, multi: bool) -> Seq<LineV> {
    seq![
        seq![
            lit(
                "  "@ + option_mark(selected, multi) + " "@ + o.label,
                if selected {
                    bold(Color::PopupAction)
                } else if focused {
                    fg(Color::PopupSelected)
                } else {
                    fg(Color::Primary)
                },
            ),
        ],
    ] + (if o.description.len() == 0 {
        Seq::empty()
    } else {
        seq![seq![lit("    "@ + o.description, fg(Color::Dim))]]
    })
}

/// The lines of the first options.
pub open spec fn options_lines(p: PopupV, q: QuestionV, focused: int, to: int) -> Seq<LineV>
    decreases to,
{
    if to <= 0 {
        Seq::empty()
    } else {
        options_lines(p, q, focused, to - 1) + option_lines(
            q.options[to - 1],
            p.answer(focused) == Some((to - 1) as usize),
            to - 1 == p.option,
            q.multi_select,
        )
    }
}

/// The message key of the hint below.
pub open spec fn hint_key(p: PopupV, qs: Seq<QuestionV>) -> Seq<char> {
    if qs.len() > 1 {
        if p.complete(qs) {
            "popup-ask-user-hint-multi-submit"@
        } else {
            "popup-ask-user-hint-multi-next"@
        }
    } else if p.open(qs, 0) {
        "popup-ask-user-hint-single-unsubmitted"@
    } else {
        "popup-ask-user-hint-single-submit"@
    }
}

/// What the popup shows of questions.
pub open spec fn questions_lines(p: PopupV, qs: Seq<QuestionV>) -> Seq<LineV> {
    let focused = if p.focused < qs.len() {
        p.focused
    } else {
        qs.len() - 1
    };
    let q = qs[focused];
    seq![
        blank(),
        tabs(p, qs, focused, qs.len() as int),
        seq![lit(repeated('─', 80), fg(Color::BorderDefault))],
        blank(),
        seq![
            lit(
                if q.question.len() == 0 {
                    q.header
                } else {
                    "  "@ + q.question
                },
                fg(Color::Primary),
            ),
        ],
        blank(),
    ] + options_lines(p, q, focused, q.options.len() as int) + (if q.options.len() == 0 {
        seq![seq![msg("popup-ask-user-no-options"@, fg(Color::Dim))]]
    } else {
        Seq::empty()
    }) + seq![blank(), seq![msg(hint_key(p, qs), fg(Color::Dim))]]
}

/// What the popup shows.
pub open spec fn popup_lines(p: PopupV, pending: Option<&PendingInteraction>) -> Seq<LineV> {
    match pending {
        None => seq![
            blank(),
            seq![msg("popup-ask-user-empty"@, italic(Color::Muted))],
            blank(),
            seq![msg("common-esc-close"@, fg(Color::Dim))],
        ],
        Some(i) => if i.payload@.len() == 0 {
            seq![
                blank(),
                seq![msg("popup-ask-user-malformed"@, fg(Color::Warning))],
                blank(),
                seq![msg("common-esc-close"@, fg(Color::Dim))],
            ]
        } else {
            questions_lines(p, i.payload@)
        },
    }
}

impl AskUserPopup {
    fn is_answered(&self, i: usize) -> (b: bool)
        ensures
            b == self@.answer(i as int) is Some,
    {
        i < self.answers.len() && self.answers[i].is_some()
    }

    fn show_tabs(&self, a: &AskUser, focused: usize) -> (l: Line)
        ensures
            l@ == tabs(self@, a@, focused as int, a@.len() as int),
    {
        let mut l = Line::of(Piece::lit("  ", Style::fg(Color::Dim)));
        let mut i: usize = 0;
        while i < a.questions.len()
            invariant
                i <= a.questions@.len(),
                l@ == tabs(self@, a@, focused as int, i as int),
            decreases a.questions.len() - i,
        {
            let ghost before = l@;
            let q = &a.questions[i];
            assert(a@[i as int] == q@);
            let answered = self.is_answered(i);
            if i > 0 {
                l.push(Piece::lit("  ", Style::fg(Color::Dim)));
            }
            let text = if i == focused {
                cat3("[", q.header.as_str(), "]")
            } else {
                cat3(" ", q.header.as_str(), " ")
            };
            l.push(Piece::text(text, Style::fg(Color::Dim)));
            if answered {
                l.push(Piece::msg("popup-ask-user-answered-mark", Style::fg(Color::Dim)));
            }
            i = i + 1;
            assert(l@ =~= tabs(self@, a@, focused as int, i as int));
        }
        l
    }

    fn show_options(&self, q: &Question, focused: usize) -> (d: Doc)
        ensures
            d@ == options_lines(self@, q@, focused as int, q@.options.len() as int),
    {
        let chosen: Option<usize> = if focused < self.answers.len() {
            self.answers[focused]
        } else {
            None
        };
        let mut d = Doc::new();
        let mut i: usize = 0;
        while i < q.options.len()
            invariant
                i <= q.options@.len(),
                chosen == self@.answer(focused as int),
                d@ == options_lines(self@, q@, focused as int, i as int),
            decreases q.options.len() - i,
        {
            let o = &q.options[i];
            assert(q@.options[i as int] == o@);
            let selected = match chosen {
                Some(k) => k == i,
                None => false,
            };
            let here = i == self.focused_option;
            let ghost before = d@;
            let style = if selected {
                Style::bold(Color::PopupAction)
            } else if here {
                Style::fg(Color::PopupSelected)
            } else {
                Style::fg(Color::Primary)
            };
            let sign = if selected {
                if q.multi_select {
                    "☑"
                } else {
                    "●"
                }
            } else if q.multi_select {
                "☐"
            } else {
                "○"
            };
            d.line(Piece::text(cat4("  ", sign, " ", o.label.as_str()), style));
            if !o.description.as_str().is_empty() {
                d.line(Piece::text(cat("    ", o.description.as_str()), Style::fg(Color::Dim)));
            }
            i = i + 1;
            assert(d@ =~= before + option_lines(o@, selected, here, q@.multi_select));
        }
        d
    }

    /// What the popup shows.
    pub fn lines(&self, pending: Option<&PendingInteraction>) -> (d: Doc)
        ensures
            d@ == popup_lines(self@, pending),
    {
        let mut d = Doc::new();
        d.blank();
        let p = match pending {
            Some(p) => p,
            None => {
                d.line(Piece::msg("popup-ask-user-empty", Style::italic(Color::Muted)));
                d.blank();
                d.line(Piece::msg("common-esc-close", Style::fg(Color::Dim)));
                assert(d@ =~= popup_lines(self@, pending));
                return d;
            },
        };
        let a = &p.payload;
        if a.questions.len() == 0 {
            d.line(Piece::msg("popup-ask-user-malformed", Style::fg(Color::Warning)));
            d.blank();
            d.line(Piece::msg("common-esc-close", Style::fg(Color::Dim)));
            assert(d@ =~= popup_lines(self@, pending));
            return d;
        }
        let focused: usize = if self.focused < a.questions.len() {
            self.focused
        } else {
            a.questions.len() - 1
        };
        let q = &a.questions[focused];
        assert(a@[focused as int] == q@);
        d.push(self.show_tabs(a, focused));
        d.line(Piece::text(repeat_char('─', 80), Style::fg(Color::BorderDefault)));
        d.blank();
        let text = if q.question.as_str().is_empty() {
            q.header.clone()
        } else {
            cat("  ", q.question.as_str())
        };
        d.line(Piece::text(text, Style::fg(Color::Primary)));
        d.blank();
        d.extend(self.show_options(q, focused));
        if q.options.len() == 0 {
            d.line(Piece::msg("popup-ask-user-no-options", Style::fg(Color::Dim)));
        }
        d.blank();
        let key = if a.questions.len() > 1 {
            if self.all_answered(pending) {
                "popup-ask-user-hint-multi-submit"
            } else {
                "popup-ask-user-hint-multi-next"
            }
        } else if self.is_open(pending, 0) {
            "popup-ask-user-hint-single-unsubmitted"
        } else {
            "popup-ask-user-hint-single-submit"
        };
        d.line(Piece::msg(key, Style::fg(Color::Dim)));
        assert(d@ =~= popup_lines(self@, pending));
        d
    }
}

/// Enter gives the answers exactly when no question waits for one.
pub proof fn enter_submits_exactly_when_complete(p: PopupV, pending: Option<&PendingInteraction>)
    requires
        pending is Some,
    ensures
        confirmed(p, pending).1 is Submit <==> p.complete(asked(pending)),
{
}

/// Choosing an option twice takes the choice back.
pub proof fn choosing_twice_takes_back(p: PopupV, qs: Seq<QuestionV>)
    requires
        0 <= p.focused < qs.len(),
        p.focused < p.answers.len(),
        0 <= p.option < qs[p.focused].options.len(),
        p.option <= usize::MAX,
        p.answer(p.focused) is None,
    ensures
        spaced(spaced(p, qs), qs) == p,
{
    assert(spaced(spaced(p, qs), qs).answers =~= p.answers);
}

} // verus!
