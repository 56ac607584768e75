//! The one owner of a form's focus, its answers and the text being typed.

use crate::event::{KeyCode, KeyEvent};
use crate::json::{array, values_view, with_member, Json, JsonV, ObjectBuilder};
use crate::list_nav::{classify_list_nav, cycle_next, cycle_previous, nav_of, next_cyc, next_sel,
    prev_cyc, prev_sel, previous_selection, ListNavAction};
use crate::panels::ask_user::types::{fingerprint_of, interaction_fingerprint, questions_of,
    same_texts, AskUser, PendingInteraction, Question, QuestionV};
use crate::panels::ask_user::typing::typed;
use crate::scroll_view::ScrollViewState;
use crate::text::{opt_view, or_empty, text_views};
use crate::textarea::{fresh, TextAreaState, TextV};
use vstd::prelude::*;

verus! {

/// The state of a form.
#[derive(Debug)]
pub struct FormState {
    pub focused: usize,
    pub answers: Vec<Vec<usize>>,
    pub focused_option: usize,
    pub is_typing: bool,
    pub typing_state: TextAreaState,
    pub custom_answers: Vec<Option<String>>,
    pub session_fingerprint: Vec<String>,
}

/// The state of a form, abstractly.
pub struct FormV {
    pub focused: int,
    pub answers: Seq<Seq<usize>>,
    pub option: int,
    pub is_typing: bool,
    pub typing: TextV,
    pub custom: Seq<Option<Seq<char>>>,
    pub fingerprint: Seq<Seq<char>>,
}

/// The chosen options, abstractly.
pub open spec fn answers_view(v: Seq<Vec<usize>>) -> Seq<Seq<usize>> {
    v.map_values(|a: Vec<usize>| a@)
}

/// The typed answers, abstractly.
pub open spec fn custom_view(v: Seq<Option<String>>) -> Seq<Option<Seq<char>>> {
    v.map_values(|o: Option<String>| opt_view(o))
}

impl View for FormState {
    type V = FormV;

    open spec fn view(&self) -> FormV {
        FormV {
            focused: self.focused as int,
            answers: answers_view(self.answers@),
            option: self.focused_option as int,
            is_typing: self.is_typing,
            typing: self.typing_state@,
            custom: custom_view(self.custom_answers@),
            fingerprint: text_views(self.session_fingerprint@),
        }
    }
}

/// What a key led to.
#[derive(Debug)]
pub enum FormOutcome {
    Ignored,
    Consumed,
    Submit(Json),
    RequestCancel,
}

/// What a key led to, abstractly.
pub enum OutcomeV {
    Ignored,
    Consumed,
    Submit(JsonV),
    RequestCancel,
}

impl View for FormOutcome {
    type V = OutcomeV;

    open spec fn view(&self) -> OutcomeV {
        match *self {
            FormOutcome::Ignored => OutcomeV::Ignored,
            FormOutcome::Consumed => OutcomeV::Consumed,
            FormOutcome::Submit(j) => OutcomeV::Submit(j@),
            FormOutcome::RequestCancel => OutcomeV::RequestCancel,
        }
    }
}

// ── Answers ────────────────────────────────────────────────────────────────

/// A list with one occurrence of an element, the first, taken out.
pub open spec fn drop_one(s: Seq<usize>, x: usize) -> Seq<usize>
    decreases s.len(),
{
    if s.len() == 0 {
        s
    } else if s[0] == x {
        s.drop_first()
    } else {
        seq![s[0]] + drop_one(s.drop_first(), x)
    }
}

/// The chosen options after one has been toggled.
pub open spec fn toggled(chosen: Seq<usize>, option: usize, multi_select: bool) -> Seq<usize> {
    if multi_select {
        if chosen.contains(option) {
            drop_one(chosen, option)
        } else {
            chosen.push(option)
        }
    } else if chosen.len() > 0 && chosen[0] == option {
        Seq::empty()
    } else {
        seq![option]
    }
}

/// A list of answers made long enough for a question.
pub open spec fn room_for(answers: Seq<Seq<usize>>, question: int) -> Seq<Seq<usize>> {
    if question < answers.len() {
        answers
    } else {
        answers + Seq::new((question + 1 - answers.len()) as nat, |i: int| Seq::<usize>::empty())
    }
}

impl FormV {
    /// A form for another request: nothing chosen, nothing typed.
    pub open spec fn renewed(count: nat, fingerprint: Seq<Seq<char>>) -> FormV {
        FormV {
            focused: 0,
            answers: Seq::new(count, |i: int| Seq::<usize>::empty()),
            option: 0,
            is_typing: false,
            typing: fresh(Seq::empty()),
            custom: Seq::new(count, |i: int| None::<Seq<char>>),
            fingerprint,
        }
    }

    /// After an option of a question was toggled.
    pub open spec fn option_toggled(self, question: int, option: usize, multi_select: bool) -> FormV {
        let answers = room_for(self.answers, question);
        FormV {
            answers: answers.update(
                question,
                toggled(answers[question], option, multi_select),
            ),
            ..self
        }
    }

    /// What has been typed for a question.
    pub open spec fn typed_for(self, question: int) -> Option<Seq<char>> {
        if 0 <= question < self.custom.len() {
            self.custom[question]
        } else {
            None
        }
    }

    /// Typing the answer to a question, starting from what was typed before.
    pub open spec fn typing_for(self, question: int) -> FormV {
        FormV { typing: fresh(or_empty(self.typed_for(question))), is_typing: true, ..self }
    }

    /// A question has an answer.
    pub open spec fn answered(self, i: int) -> bool {
        (0 <= i < self.answers.len() && self.answers[i].len() > 0) || self.typed_for(i) is Some
    }

    /// A question still waits for an answer: it offers some and none is given.
    pub open spec fn open(self, qs: Seq<QuestionV>, i: int) -> bool {
        0 <= i < qs.len() && qs[i].options.len() > 0 && !self.answered(i)
    }

    /// Nothing the form knows of waits for an answer.
    pub open spec fn complete(self, qs: Seq<QuestionV>) -> bool {
        forall|i: int| 0 <= i < self.answers.len() ==> !#[trigger] self.open(qs, i)
    }

    /// The first question that waits for an answer, looking at `n` questions from
    /// `i` on, round the end; the one behind them where none does.
    pub open spec fn seek(self, qs: Seq<QuestionV>, i: int, n: nat) -> int
        decreases n,
    {
        if n == 0 || self.open(qs, i) {
            i
        } else {
            self.seek(qs, (i + 1) % (qs.len() as int), (n - 1) as nat)
        }
    }

    /// The question to go to next: the first that waits behind the focused one,
    /// else the focused one itself.
    pub open spec fn next_open(self, qs: Seq<QuestionV>) -> int {
        self.seek(
            qs,
            (self.focused + 1) % (qs.len() as int),
            if self.focused < qs.len() {
                (qs.len() - 1) as nat
            } else {
                qs.len()
            },
        )
    }

    /// The option to stand on when a question gets the focus.
    pub open spec fn first_chosen(self, question: int) -> int {
        if 0 <= question < self.answers.len() && self.answers[question].len() > 0 {
            self.answers[question][0] as int
        } else {
            0
        }
    }
}

/// The labels of the chosen options that there are.
pub open spec fn labels(q: QuestionV, chosen: Seq<usize>) -> Seq<JsonV>
    decreases chosen.len(),
{
    if chosen.len() == 0 {
        Seq::empty()
    } else if chosen.last() < q.options.len() {
        labels(q, chosen.drop_last()).push(JsonV::Str(q.options[chosen.last() as int].label))
    } else {
        labels(q, chosen.drop_last())
    }
}

/// The answer to a question: for several choices the labels of the options and
/// what was typed; else what was typed, or the label of the chosen option.
pub open spec fn answer_value(q: QuestionV, chosen: Seq<usize>, custom: Option<Seq<char>>) -> JsonV {
    if q.multi_select {
        JsonV::Array(
            if custom is Some && custom->0.len() > 0 {
                labels(q, chosen).push(JsonV::Str(custom->0))
            } else {
                labels(q, chosen)
            },
        )
    } else if custom is Some {
        JsonV::Str(custom->0)
    } else if chosen.len() > 0 && chosen[0] < q.options.len() {
        JsonV::Str(q.options[chosen[0] as int].label)
    } else {
        JsonV::Str(Seq::empty())
    }
}

/// The element at an index, or the given one.
pub open spec fn get_or<T>(s: Seq<T>, i: int, default: T) -> T {
    if 0 <= i < s.len() {
        s[i]
    } else {
        default
    }
}

/// The answers to the first questions, by the ids of the questions.
pub open spec fn answers_to(
    qs: Seq<QuestionV>,
    answers: Seq<Seq<usize>>,
    custom: Seq<Option<Seq<char>>>,
    to: int,
) -> Seq<(Seq<char>, JsonV)>
    decreases to,
{
    if to <= 0 {
        Seq::empty()
    } else {
        with_member(
            answers_to(qs, answers, custom, to - 1),
            qs[to - 1].id,
            answer_value(
                qs[to - 1],
                get_or(answers, to - 1, Seq::empty()),
                get_or(custom, to - 1, None),
            ),
        )
    }
}

/// The answers to all questions.
pub open spec fn answers_map(
    qs: Seq<QuestionV>,
    answers: Seq<Seq<usize>>,
    custom: Seq<Option<Seq<char>>>,
) -> JsonV {
    JsonV::Object(answers_to(qs, answers, custom, qs.len() as int))
}

fn question_labels(q: &Question, chosen: &Vec<usize>) -> (r: Vec<Json>)
    ensures
        values_view(r@) == labels(q@, chosen@),
{
    let mut out: Vec<Json> = Vec::new();
    let mut i: usize = 0;
    assert(values_view(out@) =~= labels(q@, chosen@.take(0)));
    while i < chosen.len()
        invariant
            i <= chosen@.len(),
            values_view(out@) == labels(q@, chosen@.take(i as int)),
        decreases chosen.len() - i,
    {
        assert(chosen@.take(i + 1).drop_last() =~= chosen@.take(i as int));
        let ghost before = values_view(out@);
        let k: usize = chosen[i];
        if k < q.options.len() {
            assert(q@.options[k as int] == q.options@[k as int]@);
            out.push(Json::text(q.options[k].label.as_str()));
            assert(values_view(out@) =~= before.push(JsonV::Str(q@.options[k as int].label)));
        }
        i = i + 1;
    }
    assert(chosen@.take(i as int) =~= chosen@);
    out
}

fn question_answer(q: &Question, chosen: &Vec<usize>, custom: &Option<String>) -> (r: Json)
    ensures
        r@ == answer_value(q@, chosen@, opt_view(*custom)),
{
    if q.multi_select {
        let mut out = question_labels(q, chosen);
        match custom {
            Some(text) => {
                if !text.as_str().is_empty() {
                    let ghost before = values_view(out@);
                    out.push(Json::text(text.as_str()));
                    assert(values_view(out@) =~= before.push(JsonV::Str(text@)));
                }
            },
            None => {},
        }
        return array(out);
    }
    match custom {
        Some(text) => Json::text(text.as_str()),
        None => {
            if chosen.len() > 0 && chosen[0] < q.options.len() {
                assert(q@.options[chosen@[0] as int] == q.options@[chosen@[0] as int]@);
                Json::text(q.options[chosen[0]].label.as_str())
            } else {
                Json::Str(String::new())
            }
        },
    }
}

/// The answers as a value, by the ids of the questions.
pub fn build_answers_map(
    pending: Option<&AskUser>,
    answers: &Vec<Vec<usize>>,
    custom_answers: &Vec<Option<String>>,
) -> (r: Json)
    ensures
        r@ == answers_map(
            questions_of(pending),
            answers_view(answers@),
            custom_view(custom_answers@),
        ),
{
    let ghost qs = questions_of(pending);
    let ghost av = answers_view(answers@);
    let ghost cv = custom_view(custom_answers@);
    let mut o = ObjectBuilder::new();
    match pending {
        Some(a) => {
            let none: Vec<usize> = Vec::new();
            let mut i: usize = 0;
            while i < a.questions.len()
                invariant
                    i <= a.questions@.len(),
                    none@ == Seq::<usize>::empty(),
                    qs == a@,
                    av == answers_view(answers@),
                    cv == custom_view(custom_answers@),
                    o@ == answers_to(qs, av, cv, i as int),
                decreases a.questions.len() - i,
            {
                let q = &a.questions[i];
                assert(qs[i as int] == q@);
                let chosen = if i < answers.len() {
                    &answers[i]
                } else {
                    &none
                };
                assert(chosen@ == get_or(av, i as int, Seq::empty()));
                let value = if i < custom_answers.len() {
                    question_answer(q, chosen, &custom_answers[i])
                } else {
                    question_answer(q, chosen, &None)
                };
                o.put(q.id.as_str(), value);
                i = i + 1;
            }
        },
        None => {},
    }
    o.build()
}

// ── Keys ───────────────────────────────────────────────────────────────────

/// A bare press of the space bar.
pub open spec fn is_space(key: KeyEvent) -> bool {
    key.mods.none() && key.code == KeyCode::Char(' ')
}

/// The form deals with a key.
pub open spec fn accepted(f: FormV, key: KeyEvent, qs: Seq<QuestionV>) -> bool {
    f.is_typing || is_space(key) || match nav_of(key.code) {
        Some(ListNavAction::CycleForward) => qs.len() > 0,
        Some(ListNavAction::CycleBackward) => qs.len() > 0,
        Some(_) => true,
        None => false,
    }
}

/// What the space bar does: it toggles the option under the focus, or starts
/// typing at the place behind the options.
pub open spec fn spaced(f: FormV, qs: Seq<QuestionV>) -> FormV {
    if 0 <= f.focused < qs.len() {
        let q = qs[f.focused];
        if f.option == q.options.len() {
            f.typing_for(f.focused)
        } else if f.option < q.options.len() {
            f.option_toggled(f.focused, f.option as usize, q.multi_select)
        } else {
            f
        }
    } else {
        f
    }
}

/// One option down; typing starts at the place behind the last.
pub open spec fn moved_down(f: FormV, qs: Seq<QuestionV>) -> FormV {
    if !f.is_typing && 0 <= f.focused < qs.len() {
        let n = qs[f.focused].options.len() as int;
        let g = FormV { option: next_sel(f.option, n + 1), ..f };
        if g.option == n {
            g.typing_for(f.focused)
        } else {
            g
        }
    } else {
        f
    }
}

/// To another question, onto the option chosen there.
pub open spec fn focused_on(f: FormV, question: int) -> FormV {
    FormV { focused: question, option: f.first_chosen(question), ..f }
}

/// What Enter does: the answers are given once all are there, else the next
/// question that waits gets the focus.
pub open spec fn confirmed(f: FormV, qs: Seq<QuestionV>) -> (FormV, OutcomeV) {
    if f.complete(qs) {
        (f, OutcomeV::Submit(answers_map(qs, f.answers, f.custom)))
    } else {
        (FormV { focused: f.next_open(qs), option: 0, ..f }, OutcomeV::Consumed)
    }
}

/// What a key that moves through lists does.
pub open spec fn navigated(f: FormV, nav: Option<ListNavAction>, qs: Seq<QuestionV>) -> (
    FormV,
    OutcomeV,
) {
    match nav {
        Some(ListNavAction::MoveUp) => (
            if f.is_typing {
                f
            } else {
                FormV { option: prev_sel(f.option), ..f }
            },
            OutcomeV::Consumed,
        ),
        Some(ListNavAction::MoveDown) => (moved_down(f, qs), OutcomeV::Consumed),
        Some(ListNavAction::CycleForward) => if qs.len() == 0 {
            (f, OutcomeV::Ignored)
        } else if f.is_typing {
            (f, OutcomeV::Consumed)
        } else {
            (focused_on(f, next_cyc(f.focused, qs.len() as int)), OutcomeV::Consumed)
        },
        Some(ListNavAction::CycleBackward) => if qs.len() == 0 {
            (f, OutcomeV::Ignored)
        } else if f.is_typing {
            (f, OutcomeV::Consumed)
        } else {
            (focused_on(f, prev_cyc(f.focused, qs.len() as int)), OutcomeV::Consumed)
        },
        Some(ListNavAction::Confirm) => confirmed(f, qs),
        Some(ListNavAction::Cancel) => (f, OutcomeV::RequestCancel),
        None => (f, OutcomeV::Ignored),
    }
}

/// What a key does.
pub open spec fn form_step(f: FormV, key: KeyEvent, qs: Seq<QuestionV>, width: nat) -> (
    FormV,
    OutcomeV,
) {
    let t = typed(f, key, qs, width);
    if f.is_typing && t is Some {
        (t->0, OutcomeV::Consumed)
    } else if is_space(key) {
        (spaced(f, qs), OutcomeV::Consumed)
    } else {
        navigated(f, nav_of(key.code), qs)
    }
}

/// A key that is not accepted changes nothing and is left to others; outside the editor, a key
/// that is accepted is never left to others.
pub proof fn only_accepted_keys_act(f: FormV, key: KeyEvent, qs: Seq<QuestionV>, width: nat)
    ensures
        !accepted(f, key, qs) ==> form_step(f, key, qs, width) == (f, OutcomeV::Ignored),
        accepted(f, key, qs) && !f.is_typing ==> form_step(f, key, qs, width).1 !is Ignored,
{
}

impl Default for FormState {
    fn default() -> (f: FormState)
        ensures
            f@ == FormV::renewed(0, Seq::empty()),
    {
        let f = FormState {
            focused: 0,
            answers: Vec::new(),
            focused_option: 0,
            is_typing: false,
            typing_state: TextAreaState::default(),
            custom_answers: Vec::new(),
            session_fingerprint: Vec::new(),
        };
        assert(f@.answers =~= FormV::renewed(0, Seq::empty()).answers);
        assert(f@.custom =~= FormV::renewed(0, Seq::empty()).custom);
        assert(f@.fingerprint =~= Seq::empty());
        f
    }
}

impl FormState {
    /// Starts anew for another request; the same request keeps what was entered.
    pub fn reset_for_owner_change(&mut self, interaction: Option<&PendingInteraction>) -> (reset:
        bool)
        ensures
            reset == (old(self)@.fingerprint != fingerprint_of(interaction)),
            final(self)@ == (if reset {
                FormV::renewed(
                    match interaction {
                        Some(p) => p.payload@.len(),
                        None => 0,
                    },
                    fingerprint_of(interaction),
                )
            } else {
                old(self)@
            }),
    {
        let fingerprint = interaction_fingerprint(interaction);
        if same_texts(&self.session_fingerprint, &fingerprint) {
            return false;
        }
        let count: usize = match interaction {
            Some(p) => p.payload.questions.len(),
            None => 0,
        };
        let mut answers: Vec<Vec<usize>> = Vec::new();
        let mut custom: Vec<Option<String>> = Vec::new();
        let mut i: usize = 0;
        while i < count
            invariant
                i <= count,
                answers@.len() == i,
                custom@.len() == i,
                forall|j: int| 0 <= j < i ==> (#[trigger] answers@[j])@ == Seq::<usize>::empty(),
                forall|j: int| 0 <= j < i ==> (#[trigger] custom@[j]) is None,
            decreases count - i,
        {
            answers.push(Vec::new());
            custom.push(None);
            i = i + 1;
        }
        *self = FormState {
            focused: 0,
            answers,
            focused_option: 0,
            is_typing: false,
            typing_state: TextAreaState::default(),
            custom_answers: custom,
            session_fingerprint: fingerprint,
        };
        let ghost want = FormV::renewed(count as nat, fingerprint_of(interaction));
        assert(self@.answers =~= want.answers);
        assert(self@.custom =~= want.custom);
        true
    }

    /// Toggles an option of a question.
    pub fn toggle_option(&mut self, question: usize, option: usize, multi_select: bool)
        ensures
            final(self)@ == old(self)@.option_toggled(question as int, option, multi_select),
    {
        let ghost before = self@;
        while self.answers.len() <= question
            invariant
                before.answers.len() <= self.answers@.len(),
                self.answers@.len() <= before.answers.len() || self.answers@.len() <= question + 1,
                forall|j: int|
                    0 <= j < before.answers.len() ==> (#[trigger] self.answers@[j])@
                        == before.answers[j],
                forall|j: int|
                    before.answers.len() <= j < self.answers@.len() ==> (
                    #[trigger] self.answers@[j])@ == Seq::<usize>::empty(),
                self@ == (FormV { answers: answers_view(self.answers@), ..before }),
            decreases question + 1 - self.answers@.len(),
        {
            self.answers.push(Vec::new());
        }
        let ghost grown = room_for(before.answers, question as int);
        assert(self@.answers =~= grown);
        let chosen = &self.answers[question];
        let next: Vec<usize> = if multi_select {
            toggle_among(chosen, option)
        } else if chosen.len() > 0 && chosen[0] == option {
            Vec::new()
        } else {
            let mut v: Vec<usize> = Vec::new();
            v.push(option);
            v
        };
        assert(next@ =~= toggled(grown[question as int], option, multi_select));
        self.answers.set(question, next);
        assert(self@.answers =~= grown.update(
            question as int,
            toggled(grown[question as int], option, multi_select),
        ));
    }

    /// Starts typing the answer to a question.
    pub fn begin_custom_input(&mut self, question: usize)
        ensures
            final(self)@ == old(self)@.typing_for(question as int),
    {
        let existing = if question < self.custom_answers.len() {
            match &self.custom_answers[question] {
                Some(t) => t.clone(),
                None => String::new(),
            }
        } else {
            String::new()
        };
        assert(existing@ == or_empty(self@.typed_for(question as int)));
        self.typing_state.replace_all_no_undo(existing);
        self.typing_state.clear_undo_history();
        self.is_typing = true;
    }

    /// Whether the form deals with a key.
    pub fn accepts_key(&self, key: &KeyEvent, pending: Option<&AskUser>) -> (b: bool)
        ensures
            b == accepted(self@, *key, questions_of(pending)),
    {
        if self.is_typing || (key.mods.is_none() && key.code == KeyCode::Char(' ')) {
            return true;
        }
        match classify_list_nav(key) {
            Some(ListNavAction::CycleForward) | Some(ListNavAction::CycleBackward) => {
                match pending {
                    Some(a) => a.questions.len() > 0,
                    None => false,
                }
            },
            Some(_) => true,
            None => false,
        }
    }

    /// Deals with a key.
    pub fn handle_key(&mut self, key: &KeyEvent, pending: Option<&AskUser>, wrap_width: usize) -> (o:
        FormOutcome)
        ensures
            (final(self)@, o@) == form_step(
                old(self)@,
                *key,
                questions_of(pending),
                wrap_width as nat,
            ),
    {
        if self.is_typing && self.handle_typing_key(key, pending, wrap_width) {
            return FormOutcome::Consumed;
        }
        if key.mods.is_none() && key.code == KeyCode::Char(' ') {
            match pending {
                Some(a) => {
                    if self.focused < a.questions.len() {
                        let q = &a.questions[self.focused];
                        assert(questions_of(pending)[self.focused as int] == q@);
                        if self.focused_option == q.options.len() {
                            self.begin_custom_input(self.focused);
                        } else if self.focused_option < q.options.len() {
                            self.toggle_option(self.focused, self.focused_option, q.multi_select);
                        }
                    }
                },
                None => {},
            }
            return FormOutcome::Consumed;
        }
        self.navigate(classify_list_nav(key), pending)
    }

    fn navigate(&mut self, action: Option<ListNavAction>, pending: Option<&AskUser>) -> (o:
        FormOutcome)
        ensures
            (final(self)@, o@) == navigated(old(self)@, action, questions_of(pending)),
    {
        let count: usize = match pending {
            Some(a) => a.questions.len(),
            None => 0,
        };
        assert(count == questions_of(pending).len());
        match action {
            Some(ListNavAction::MoveUp) => {
                if !self.is_typing {
                    self.focused_option = previous_selection(self.focused_option);
                }
                FormOutcome::Consumed
            },
            Some(ListNavAction::MoveDown) => {
                if !self.is_typing {
                    match pending {
                        Some(a) => {
                            if self.focused < a.questions.len() {
                                let n: usize = a.questions[self.focused].options.len();
                                assert(questions_of(pending)[self.focused as int].options.len()
                                    == n);
                                self.focused_option = if self.focused_option < n {
                                    self.focused_option + 1
                                } else {
                                    n
                                };
                                if self.focused_option == n {
                                    self.begin_custom_input(self.focused);
                                }
                            }
                        },
                        None => {},
                    }
                }
                FormOutcome::Consumed
            },
            Some(ListNavAction::CycleForward) => {
                if count == 0 {
                    return FormOutcome::Ignored;
                }
                if !self.is_typing {
                    let to: usize = cycle_next(self.focused, count);
                    self.focus(to);
                }
                FormOutcome::Consumed
            },
            Some(ListNavAction::CycleBackward) => {
                if count == 0 {
                    return FormOutcome::Ignored;
                }
                if !self.is_typing {
                    let to: usize = cycle_previous(self.focused, count);
                    self.focus(to);
                }
                FormOutcome::Consumed
            },
            Some(ListNavAction::Confirm) => self.confirm(pending),
            Some(ListNavAction::Cancel) => FormOutcome::RequestCancel,
            None => FormOutcome::Ignored,
        }
    }

    fn focus(&mut self, question: usize)
        ensures
            final(self)@ == focused_on(old(self)@, question as int),
    {
        self.focused = question;
        self.focused_option = if question < self.answers.len() {
            let chosen = &self.answers[question];
            assert(self@.answers[question as int] == chosen@);
            if chosen.len() > 0 {
                chosen[0]
            } else {
                0
            }
        } else {
            0
        };
    }

    /// Whether a question still waits for an answer.
    fn is_open(&self, pending: Option<&AskUser>, i: usize) -> (b: bool)
        ensures
            b == self@.open(questions_of(pending), i as int),
    {
        let offers = match pending {
            Some(a) => if i < a.questions.len() {
                assert(a@[i as int] == a.questions@[i as int]@);
                a.questions[i].options.len() > 0
            } else {
                false
            },
            None => false,
        };
        let chosen = i < self.answers.len() && self.answers[i].len() > 0;
        let typed_in = i < self.custom_answers.len() && self.custom_answers[i].is_some();
        offers && !chosen && !typed_in
    }

    /// Whether nothing the form knows of waits for an answer.
    pub fn all_answered(&self, pending: Option<&AskUser>) -> (b: bool)
        ensures
            b == self@.complete(questions_of(pending)),
    {
        let ghost qs = questions_of(pending);
        let mut i: usize = 0;
        while i < self.answers.len()
            invariant
                i <= self.answers@.len(),
                qs == questions_of(pending),
                forall|j: int| 0 <= j < i ==> !#[trigger] self@.open(qs, j),
            decreases self.answers.len() - i,
        {
            if self.is_open(pending, i) {
                assert(self@.open(qs, i as int));
                return false;
            }
            i = i + 1;
        }
        true
    }

    fn confirm(&mut self, pending: Option<&AskUser>) -> (o: FormOutcome)
        ensures
            (final(self)@, o@) == confirmed(old(self)@, questions_of(pending)),
    {
        let ghost qs = questions_of(pending);
        if self.all_answered(pending) {
            return FormOutcome::Submit(
                build_answers_map(pending, &self.answers, &self.custom_answers),
            );
        }
        let count: usize = match pending {
            Some(a) => a.questions.len(),
            None => 0,
        };
        proof {
            let i = choose|i: int| 0 <= i < self@.answers.len() && #[trigger] self@.open(qs, i);
            assert(self@.open(qs, i));
        }
        let mut next: usize = (self.focused % count + 1) % count;
        assert(next == (self.focused + 1) % count as int) by {
            vstd::arithmetic::div_mod::lemma_add_mod_noop_right(
                1,
                self.focused as int,
                count as int,
            );
        }
        let mut left: usize = if self.focused < count {
            count - 1
        } else {
            count
        };
        while left > 0 && !self.is_open(pending, next)
            invariant
                qs == questions_of(pending),
                count == qs.len(),
                count > 0,
                next < count,
                self@.seek(qs, next as int, left as nat) == self@.next_open(qs),
            decreases left,
        {
            next = (next + 1) % count;
            left = left - 1;
        }
        self.focused = next;
        self.focused_option = 0;
        FormOutcome::Consumed
    }
}

fn toggle_among(chosen: &Vec<usize>, option: usize) -> (r: Vec<usize>)
    ensures
        r@ == toggled(chosen@, option, true),
{
    let mut out: Vec<usize> = Vec::new();
    let mut found = false;
    let mut i: usize = 0;
    assert(chosen@.skip(0) =~= chosen@);
    assert(out@ + drop_one(chosen@, option) =~= drop_one(chosen@, option));
    while i < chosen.len()
        invariant
            i <= chosen@.len(),
            found ==> chosen@.contains(option),
            !found ==> out@ == chosen@.take(i as int),
            !found ==> forall|j: int| 0 <= j < i ==> chosen@[j] != option,
            out@ + (if found {
                chosen@.skip(i as int)
            } else {
                drop_one(chosen@.skip(i as int), option)
            }) == drop_one(chosen@, option),
        decreases chosen.len() - i,
    {
        let ghost here = chosen@.skip(i as int);
        let ghost before = out@;
        assert(here.drop_first() =~= chosen@.skip(i + 1));
        assert(here[0] == chosen@[i as int]);
        if !found && chosen[i] == option {
            found = true;
            assert(chosen@[i as int] == option);
        } else {
            out.push(chosen[i]);
            assert(out@ + chosen@.skip(i + 1) =~= before + here);
            assert(out@ + drop_one(chosen@.skip(i + 1), option) =~= before + (seq![here[0]]
                + drop_one(chosen@.skip(i + 1), option)));
            assert(!found ==> out@ =~= chosen@.take(i + 1));
        }
        i = i + 1;
    }
    assert(chosen@.skip(i as int).len() == 0);
    if found {
        assert(out@ =~= drop_one(chosen@, option));
    } else {
        assert(out@ =~= chosen@);
        out.push(option);
    }
    out
}

/// Starts the form anew for another request, and its scroll position with it.
pub fn reset_for_owner_change(
    form: &mut FormState,
    interaction: Option<&PendingInteraction>,
    scroll: &mut ScrollViewState,
) -> (reset: bool)
    ensures
        reset == (old(form)@.fingerprint != fingerprint_of(interaction)),
        final(form)@ == (if reset {
            FormV::renewed(
                match interaction {
                    Some(p) => p.payload@.len(),
                    None => 0,
                },
                fingerprint_of(interaction),
            )
        } else {
            old(form)@
        }),
        *final(scroll) == (if reset {
            ScrollViewState { x: 0, y: 0, content_height: None, page_height: None }
        } else {
            *old(scroll)
        }),
{
    if !form.reset_for_owner_change(interaction) {
        return false;
    }
    *scroll = ScrollViewState::default();
    true
}

// ── Laws ───────────────────────────────────────────────────────────────────

/// The space bar and a click on an option mean the same.
pub proof fn space_toggles_like_a_click(f: FormV, key: KeyEvent, qs: Seq<QuestionV>, width: nat)
    requires
        is_space(key),
        !f.is_typing,
        0 <= f.focused < qs.len(),
        0 <= f.option < qs[f.focused].options.len(),
        f.option <= usize::MAX,
    ensures
        form_step(f, key, qs, width) == (
            f.option_toggled(f.focused, f.option as usize, qs[f.focused].multi_select),
            OutcomeV::Consumed,
        ),
{
}

/// Toggling an option that is not chosen, twice, leaves several choices as they
/// were.
pub proof fn toggling_twice_is_neutral(chosen: Seq<usize>, option: usize)
    requires
        !chosen.contains(option),
    ensures
        toggled(toggled(chosen, option, true), option, true) == chosen,
{
    let more = chosen.push(option);
    assert(more[more.len() - 1] == option);
    drop_one_of_last(chosen, option);
}

proof fn drop_one_of_last(s: Seq<usize>, x: usize)
    requires
        !s.contains(x),
    ensures
        drop_one(s.push(x), x) == s,
    decreases s.len(),
{
    let more = s.push(x);
    if s.len() == 0 {
        assert(more.drop_first() =~= s);
    } else {
        assert(more.drop_first() =~= s.drop_first().push(x));
        assert(!s.drop_first().contains(x)) by {
            if s.drop_first().contains(x) {
                let i = choose|i: int| 0 <= i < s.drop_first().len() && s.drop_first()[i] == x;
                assert(s[i + 1] == x);
            }
        }
        assert(s[0] != x);
        drop_one_of_last(s.drop_first(), x);
        assert(seq![s[0]] + s.drop_first() =~= s);
    }
}

/// A question that allows one answer never has more than one.
pub proof fn single_choice_stays_single(chosen: Seq<usize>, option: usize)
    ensures
        toggled(chosen, option, false).len() <= 1,
{
}

/// Enter never gives incomplete answers, and always gives complete ones.
pub proof fn enter_submits_exactly_when_complete(
    f: FormV,
    key: KeyEvent,
    qs: Seq<QuestionV>,
    width: nat,
)
    requires
        key.code == KeyCode::Enter,
        !f.is_typing,
    ensures
        form_step(f, key, qs, width).1 is Submit <==> f.complete(qs),
{
}

proof fn seek_in_range(f: FormV, qs: Seq<QuestionV>, i: int, n: nat)
    requires
        0 <= i < qs.len(),
    ensures
        0 <= f.seek(qs, i, n) < qs.len(),
    decreases n,
{
    if n > 0 && !f.open(qs, i) {
        seek_in_range(f, qs, (i + 1) % (qs.len() as int), (n - 1) as nat);
    }
}

/// Wherever Enter moves the focus, there is a question.
pub proof fn enter_focuses_a_question(f: FormV, qs: Seq<QuestionV>)
    requires
        !f.complete(qs),
        f.focused >= 0,
    ensures
        0 <= f.next_open(qs) < qs.len(),
{
    let i = choose|i: int| 0 <= i < f.answers.len() && #[trigger] f.open(qs, i);
    assert(f.open(qs, i));
    let n = qs.len() as int;
    assert(0 <= (f.focused + 1) % n < n) by (nonlinear_arith)
        requires
            n > 0,
            f.focused >= 0,
    ;
    seek_in_range(
        f,
        qs,
        (f.focused + 1) % n,
        if f.focused < qs.len() {
            (qs.len() - 1) as nat
        } else {
            qs.len()
        },
    );
}

} // verus!
