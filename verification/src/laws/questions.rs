//! The answers to the questions of the agent.

use crate::event::{Event, EventResult, KeyCode, KeyEvent};
use crate::json::{member, member_reads_back, with_member, JsonV};
use crate::panels::ask_user::form::{answer_value, answers_map, answers_to, drop_one, form_step,
    get_or, is_space, labels, toggled, FormV};
use crate::panels::ask_user::panel::{asked, panel_step, AskEffectV};
use crate::panels::ask_user::types::{PendingInteraction, QuestionV};
use crate::textarea::EditV;
use crate::wrap::trim_spec;
use vstd::prelude::*;

verus! {

/// The labels sent are those of the chosen options that there are, in the order in which they
/// were chosen; where all are options, there is one label for each choice.
pub proof fn every_choice_is_labelled(q: QuestionV, chosen: Seq<usize>)
    ensures
        labels(q, chosen) == chosen.filter(|k: usize| k < q.options.len()).map_values(
            |k: usize| JsonV::Str(q.options[k as int].label),
        ),
        (forall|k: int| 0 <= k < chosen.len() ==> (#[trigger] chosen[k]) < q.options.len()) ==> {
            &&& labels(q, chosen).len() == chosen.len()
            &&& forall|k: int|
                0 <= k < chosen.len() ==> (#[trigger] labels(q, chosen)[k]) == JsonV::Str(
                    q.options[chosen[k] as int].label,
                )
        },
    decreases chosen.len(),
{
    reveal(Seq::filter);
    if chosen.len() > 0 {
        every_choice_is_labelled(q, chosen.drop_last());
        let less = chosen.drop_last();
        assert(forall|k: int| 0 <= k < less.len() ==> less[k] == chosen[k]);
        assert(labels(q, chosen) =~= chosen.filter(|k: usize| k < q.options.len()).map_values(
            |k: usize| JsonV::Str(q.options[k as int].label),
        ));
    } else {
        assert(labels(q, chosen) =~= chosen.filter(|k: usize| k < q.options.len()).map_values(
            |k: usize| JsonV::Str(q.options[k as int].label),
        ));
    }
}

/// The answer to a question: several choices are a list of all their labels with the typed text
/// behind them; one choice is the typed text, or else its label, or else empty.
pub proof fn an_answer_says_what_was_chosen(
    q: QuestionV,
    chosen: Seq<usize>,
    typed: Option<Seq<char>>,
)
    requires
        forall|k: int| 0 <= k < chosen.len() ==> (#[trigger] chosen[k]) < q.options.len(),
    ensures
        q.multi_select ==> {
            &&& answer_value(q, chosen, typed) is Array
            &&& forall|k: int|
                0 <= k < chosen.len() ==> (#[trigger] answer_value(q, chosen, typed)->Array_0[k])
                    == JsonV::Str(q.options[chosen[k] as int].label)
            &&& answer_value(q, chosen, typed)->Array_0.len() == chosen.len() + (if typed is Some
                && typed->0.len() > 0 {
                1int
            } else {
                0
            })
            &&& typed is Some && typed->0.len() > 0 ==> answer_value(
                q,
                chosen,
                typed,
            )->Array_0[chosen.len() as int] == JsonV::Str(typed->0)
        },
        !q.multi_select && typed is Some ==> answer_value(q, chosen, typed) == JsonV::Str(typed->0),
        !q.multi_select && typed is None && chosen.len() > 0 ==> answer_value(q, chosen, typed)
            == JsonV::Str(q.options[chosen[0] as int].label),
        !q.multi_select && typed is None && chosen.len() == 0 ==> answer_value(q, chosen, typed)
            == JsonV::Str(Seq::empty()),
{
    every_choice_is_labelled(q, chosen);
    let l = labels(q, chosen);
    if typed is Some {
        assert forall|k: int| 0 <= k < chosen.len() implies (#[trigger] l.push(
            JsonV::Str(typed->0),
        )[k]) == l[k] by {}
    }
}

proof fn lemma_answers(
    qs: Seq<QuestionV>,
    answers: Seq<Seq<usize>>,
    custom: Seq<Option<Seq<char>>>,
    to: int,
    i: int,
)
    requires
        0 <= i < to <= qs.len(),
        forall|a: int, b: int| 0 <= a < b < qs.len() ==> (#[trigger] qs[a]).id != (#[trigger] qs[b]).id,
    ensures
        member(answers_to(qs, answers, custom, to), qs[i].id) == Some(
            answer_value(qs[i], get_or(answers, i, Seq::empty()), get_or(custom, i, None)),
        ),
    decreases to,
{
    member_reads_back(
        answers_to(qs, answers, custom, to - 1),
        qs[to - 1].id,
        answer_value(
            qs[to - 1],
            get_or(answers, to - 1, Seq::empty()),
            get_or(custom, to - 1, None),
        ),
        qs[i].id,
    );
    if i < to - 1 {
        lemma_answers(qs, answers, custom, to - 1, i);
    }
}

proof fn lemma_other_members(
    m: Seq<(Seq<char>, JsonV)>,
    key: Seq<char>,
    value: JsonV,
    n: int,
)
    requires
        0 <= n < with_member(m, key, value).len(),
    ensures
        with_member(m, key, value)[n].0 == key || exists|k: int|
            0 <= k < m.len() && (#[trigger] m[k]).0 == with_member(m, key, value)[n].0,
    decreases m.len(),
{
    if m.len() > 0 {
        let w = with_member(m, key, value);
        if n == 0 {
            assert(w[0].0 == key || w[0] == m[0]);
        } else if m[0].0 == key {
            assert(w[n] == m[n]);
        } else {
            let rest = m.drop_first();
            assert(w[n] == with_member(rest, key, value)[n - 1]);
            lemma_other_members(rest, key, value, n - 1);
            if w[n].0 != key {
                let k = choose|k: int| 0 <= k < rest.len() && (#[trigger] rest[k]).0 == w[n].0;
                assert(m[k + 1].0 == w[n].0);
            }
        }
    }
}

proof fn lemma_only_questions(
    qs: Seq<QuestionV>,
    answers: Seq<Seq<usize>>,
    custom: Seq<Option<Seq<char>>>,
    to: int,
    n: int,
)
    requires
        0 <= to <= qs.len(),
        0 <= n < answers_to(qs, answers, custom, to).len(),
    ensures
        exists|i: int|
            0 <= i < to && (#[trigger] qs[i]).id == answers_to(qs, answers, custom, to)[n].0,
    decreases to,
{
    if to > 0 {
        let before = answers_to(qs, answers, custom, to - 1);
        let value = answer_value(
            qs[to - 1],
            get_or(answers, to - 1, Seq::empty()),
            get_or(custom, to - 1, None),
        );
        lemma_other_members(before, qs[to - 1].id, value, n);
        let key = with_member(before, qs[to - 1].id, value)[n].0;
        if key == qs[to - 1].id {
            assert(qs[to - 1].id == key);
        } else {
            let k = choose|k: int| 0 <= k < before.len() && (#[trigger] before[k]).0 == key;
            lemma_only_questions(qs, answers, custom, to - 1, k);
        }
    }
}

/// What is sent holds the answer to each question under its id, and nothing else: the labels of
/// all that was chosen, in order, and what was typed.
pub proof fn all_answers_are_sent(
    qs: Seq<QuestionV>,
    answers: Seq<Seq<usize>>,
    custom: Seq<Option<Seq<char>>>,
)
    requires
        forall|a: int, b: int| 0 <= a < b < qs.len() ==> (#[trigger] qs[a]).id != (#[trigger] qs[b]).id,
        answers.len() == qs.len(),
        custom.len() == qs.len(),
        forall|i: int, k: int|
            0 <= i < qs.len() && 0 <= k < answers[i].len() ==> (#[trigger] answers[i][k])
                < qs[i].options.len(),
    ensures
        answers_map(qs, answers, custom) is Object,
        forall|n: int|
            0 <= n < answers_map(qs, answers, custom)->Object_0.len() ==> exists|i: int|
                0 <= i < qs.len() && (#[trigger] qs[i]).id == (
                #[trigger] answers_map(qs, answers, custom)->Object_0[n]).0,
        forall|i: int|
            0 <= i < qs.len() ==> {
                let sent = member(
                    answers_map(qs, answers, custom)->Object_0,
                    (#[trigger] qs[i]).id,
                );
                let typed = custom[i] is Some && custom[i]->0.len() > 0;
                &&& sent is Some
                &&& qs[i].multi_select ==> {
                    &&& sent->0 is Array
                    &&& sent->0->Array_0.len() == answers[i].len() + (if typed {
                        1int
                    } else {
                        0
                    })
                    &&& typed ==> sent->0->Array_0.last() == JsonV::Str(custom[i]->0)
                    &&& forall|k: int|
                        0 <= k < answers[i].len() ==> (#[trigger] sent->0->Array_0[k])
                            == JsonV::Str(qs[i].options[answers[i][k] as int].label)
                }
                &&& !qs[i].multi_select ==> sent->0 == JsonV::Str(
                    if custom[i] is Some {
                        custom[i]->0
                    } else if answers[i].len() > 0 {
                        qs[i].options[answers[i][0] as int].label
                    } else {
                        Seq::empty()
                    },
                )
            },
{
    let n = qs.len() as int;
    assert forall|i: int| 0 <= i < qs.len() implies member(
        answers_map(qs, answers, custom)->Object_0,
        (#[trigger] qs[i]).id,
    ) == Some(answer_value(qs[i], answers[i], custom[i])) by {
        lemma_answers(qs, answers, custom, n, i);
    }
    assert forall|i: int| 0 <= i < qs.len() implies {
        let v = answer_value(#[trigger] qs[i], answers[i], custom[i]);
        let typed = custom[i] is Some && custom[i]->0.len() > 0;
        &&& qs[i].multi_select ==> {
            &&& v is Array
            &&& v->Array_0.len() == answers[i].len() + (if typed {
                1int
            } else {
                0
            })
            &&& typed ==> v->Array_0.last() == JsonV::Str(custom[i]->0)
            &&& forall|k: int|
                0 <= k < answers[i].len() ==> (#[trigger] v->Array_0[k]) == JsonV::Str(
                    qs[i].options[answers[i][k] as int].label,
                )
        }
        &&& !qs[i].multi_select ==> v == JsonV::Str(
            if custom[i] is Some {
                custom[i]->0
            } else if answers[i].len() > 0 {
                qs[i].options[answers[i][0] as int].label
            } else {
                Seq::empty()
            },
        )
    } by {
        an_answer_says_what_was_chosen(qs[i], answers[i], custom[i]);
    }
    assert forall|k: int| 0 <= k < answers_map(qs, answers, custom)->Object_0.len() implies exists|
        i: int,
    |
        0 <= i < qs.len() && (#[trigger] qs[i]).id == (
        #[trigger] answers_map(qs, answers, custom)->Object_0[k]).0 by {
        lemma_only_questions(qs, answers, custom, n, k);
    }
}

/// Choosing among several: an option that was not chosen comes behind the others, and one that
/// was is taken out of its place; the others stay as they are.
pub proof fn choosing_several(chosen: Seq<usize>, option: usize)
    ensures
        !chosen.contains(option) ==> toggled(chosen, option, true) == chosen.push(option),
        chosen.contains(option) ==> exists|i: int|
            0 <= i < chosen.len() && chosen[i] == option && toggled(chosen, option, true)
                == #[trigger] chosen.remove(i),
{
    if chosen.contains(option) {
        lemma_taken_out(chosen, option);
    }
}

proof fn lemma_taken_out(s: Seq<usize>, x: usize)
    requires
        s.contains(x),
    ensures
        exists|i: int| 0 <= i < s.len() && s[i] == x && drop_one(s, x) == #[trigger] s.remove(i),
    decreases s.len(),
{
    if s[0] == x {
        assert(s.drop_first() =~= s.remove(0));
    } else {
        let rest = s.drop_first();
        let j = choose|j: int| 0 <= j < s.len() && s[j] == x;
        assert(rest[j - 1] == x);
        lemma_taken_out(rest, x);
        let i = choose|i: int|
            0 <= i < rest.len() && rest[i] == x && drop_one(rest, x) == #[trigger] rest.remove(i);
        assert(seq![s[0]] + rest.remove(i) =~= s.remove(i + 1));
    }
}

/// Choosing one of several that exclude each other: the option alone, or none where it was the
/// one chosen.
pub proof fn choosing_one(chosen: Seq<usize>, option: usize)
    ensures
        toggled(chosen, option, false) == (if chosen.len() > 0 && chosen[0] == option {
            Seq::empty()
        } else {
            seq![option]
        }),
{
}

/// The space bar on an option changes the choice of the question with the focus and nothing
/// else in the form.
pub proof fn space_changes_one_question(
    f: FormV,
    key: KeyEvent,
    qs: Seq<QuestionV>,
    width: nat,
)
    requires
        is_space(key),
        !f.is_typing,
        0 <= f.focused < qs.len(),
        f.answers.len() == qs.len(),
        0 <= f.option < qs[f.focused].options.len() <= usize::MAX,
        f.answers[f.focused].no_duplicates(),
    ensures
        ({
            let g = form_step(f, key, qs, width).0;
            &&& form_step(f, key, qs, width).1 is Consumed
            &&& g.answers.len() == f.answers.len()
            &&& qs[f.focused].multi_select ==> forall|x: usize|
                g.answers[f.focused].contains(x) <==> (#[trigger] f.answers[f.focused].contains(x)
                    != (x == f.option))
            &&& !qs[f.focused].multi_select ==> g.answers[f.focused] == (
            if f.answers[f.focused].len() > 0 && f.answers[f.focused][0] == f.option {
                Seq::empty()
            } else {
                seq![f.option as usize]
            })
            &&& forall|i: int|
                0 <= i < f.answers.len() && i != f.focused ==> (#[trigger] g.answers[i])
                    == f.answers[i]
            &&& g == (FormV { answers: g.answers, ..f })
        }),
{
    let chosen = f.answers[f.focused];
    let option = f.option as usize;
    let after = toggled(chosen, option, qs[f.focused].multi_select);
    choosing_several(chosen, option);
    if qs[f.focused].multi_select {
        assert forall|x: usize| after.contains(x) <==> (#[trigger] chosen.contains(x) != (x == option)) by {
            if chosen.contains(option) {
                let i = choose|i: int|
                    0 <= i < chosen.len() && chosen[i] == option && after == #[trigger] chosen.remove(
                        i,
                    );
                if after.contains(x) {
                    let j = choose|j: int| 0 <= j < after.len() && after[j] == x;
                    assert(chosen[if j < i {
                        j
                    } else {
                        j + 1
                    }] == x);
                }
                if chosen.contains(x) && x != option {
                    let j = choose|j: int| 0 <= j < chosen.len() && chosen[j] == x;
                    assert(after[if j < i {
                        j
                    } else {
                        j - 1
                    }] == x);
                }
            } else {
                assert(after[chosen.len() as int] == option);
                if chosen.contains(x) {
                    let j = choose|j: int| 0 <= j < chosen.len() && chosen[j] == x;
                    assert(after[j] == x);
                }
            }
        }
    }
}

proof fn lemma_seek(f: FormV, qs: Seq<QuestionV>, i: int, n: nat)
    requires
        qs.len() > 0,
        0 <= i < qs.len(),
    ensures
        exists|e: nat|
            {
                &&& e <= n
                &&& f.seek(qs, i, n) == #[trigger] ((i + e) % (qs.len() as int))
                &&& (e < n ==> f.open(qs, f.seek(qs, i, n)))
                &&& forall|d: nat|
                    d < e ==> !f.open(qs, #[trigger] ((i + d) % (qs.len() as int)))
            },
    decreases n,
{
    let m = qs.len() as int;
    assert(i % m == i) by (nonlinear_arith)
        requires
            0 <= i < m,
    ;
    if n == 0 || f.open(qs, i) {
        let e: nat = 0;
        assert(f.seek(qs, i, n) == (i + e) % m);
    } else {
        let j = (i + 1) % m;
        assert(0 <= j < m) by (nonlinear_arith)
            requires
                m > 0,
                j == (i + 1) % m,
        ;
        lemma_seek(f, qs, j, (n - 1) as nat);
        let e = choose|e: nat|
            {
                &&& e <= n - 1
                &&& f.seek(qs, j, (n - 1) as nat) == #[trigger] ((j + e) % m)
                &&& (e < n - 1 ==> f.open(qs, f.seek(qs, j, (n - 1) as nat)))
                &&& forall|d: nat| d < e ==> !f.open(qs, #[trigger] ((j + d) % m))
            };
        let k: nat = e + 1;
        vstd::arithmetic::div_mod::lemma_add_mod_noop_right(e as int, i + 1, m);
        assert((i + k) % m == (j + e) % m);
        assert forall|d: nat| d < k implies !f.open(qs, #[trigger] ((i + d) % m)) by {
            if d > 0 {
                let c: nat = (d - 1) as nat;
                vstd::arithmetic::div_mod::lemma_add_mod_noop_right(c as int, i + 1, m);
                assert((i + d) % m == (j + c) % m);
            }
        }
        assert(f.seek(qs, i, n) == (i + k) % m);
    }
}

/// Where an answer is missing, Enter goes to the first question behind the focused one, round
/// the end, that offers options and has no answer, and to its first option.
pub proof fn enter_goes_to_the_next_unanswered(
    f: FormV,
    key: KeyEvent,
    qs: Seq<QuestionV>,
    width: nat,
    missing: int,
)
    requires
        key.code == KeyCode::Enter,
        !f.is_typing,
        0 <= f.focused < qs.len(),
        f.answers.len() == qs.len(),
        f.custom.len() == qs.len(),
        0 <= missing < qs.len(),
        qs[missing].options.len() > 0,
        f.answers[missing].len() == 0,
        f.custom[missing] is None,
    ensures
        ({
            let g = form_step(f, key, qs, width).0;
            &&& form_step(f, key, qs, width).1 is Consumed
            &&& g == (FormV { focused: g.focused, option: 0, ..f })
            &&& 0 <= g.focused < qs.len()
            &&& g.focused != f.focused ==> qs[g.focused].options.len() > 0 && f.answers[g.focused].len()
                == 0 && f.custom[g.focused] is None
            &&& missing != f.focused ==> g.focused != f.focused
            &&& exists|e: nat|
                {
                    &&& g.focused == #[trigger] ((f.focused + 1 + e) % (qs.len() as int))
                    &&& forall|d: nat|
                        d < e ==> {
                            let i = #[trigger] ((f.focused + 1 + d) % (qs.len() as int));
                            qs[i].options.len() == 0 || f.answers[i].len() > 0 || f.custom[i]
                                is Some
                        }
                }
        }),
{
    assert(f.open(qs, missing));
    assert(!f.complete(qs));
    let m = qs.len() as int;
    let i = (f.focused + 1) % m;
    assert(0 <= i < m) by (nonlinear_arith)
        requires
            m > 0,
            i == (f.focused + 1) % m,
    ;
    let n = (m - 1) as nat;
    lemma_seek(f, qs, i, n);
    let e = choose|e: nat|
        {
            &&& e <= n
            &&& f.seek(qs, i, n) == #[trigger] ((i + e) % m)
            &&& (e < n ==> f.open(qs, f.seek(qs, i, n)))
            &&& forall|d: nat| d < e ==> !f.open(qs, #[trigger] ((i + d) % m))
        };
    let to = f.next_open(qs);
    assert(to == f.seek(qs, i, n));
    vstd::arithmetic::div_mod::lemma_add_mod_noop_right(e as int, f.focused + 1, m);
    assert(to == (f.focused + 1 + e) % m);
    assert(0 <= to < m) by (nonlinear_arith)
        requires
            m > 0,
            to == (i + e) % m,
    ;
    assert forall|d: nat| d < e implies {
        let k = #[trigger] ((f.focused + 1 + d) % m);
        qs[k].options.len() == 0 || f.answers[k].len() > 0 || f.custom[k] is Some
    } by {
        vstd::arithmetic::div_mod::lemma_add_mod_noop_right(d as int, f.focused + 1, m);
        let k = (f.focused + 1 + d) % m;
        assert(k == (i + d) % m);
        assert(!f.open(qs, (i + d) % m));
        assert(0 <= k < m) by (nonlinear_arith)
            requires
                m > 0,
                k == (i + d) % m,
        ;
    }
    if e == n {
        assert(to == f.focused) by {
            assert(f.focused + 1 + n == f.focused + m);
            vstd::arithmetic::div_mod::lemma_mod_add_multiples_vanish(f.focused, m);
            vstd::arithmetic::div_mod::lemma_small_mod(f.focused as nat, m as nat);
        }
        if missing != f.focused {
            let d: nat = if missing > f.focused {
                (missing - f.focused - 1) as nat
            } else {
                (missing - f.focused - 1 + m) as nat
            };
            vstd::arithmetic::div_mod::lemma_add_mod_noop_right(d as int, f.focused + 1, m);
            vstd::arithmetic::div_mod::lemma_mod_add_multiples_vanish(missing, m);
            vstd::arithmetic::div_mod::lemma_small_mod(missing as nat, m as nat);
            assert((i + d) % m == missing);
            assert(d < e);
        }
    } else if f.focused + 1 + e < m {
        vstd::arithmetic::div_mod::lemma_small_mod((f.focused + 1 + e) as nat, m as nat);
    } else {
        let back = f.focused + 1 + e - m;
        vstd::arithmetic::div_mod::lemma_mod_add_multiples_vanish(back, m);
        vstd::arithmetic::div_mod::lemma_small_mod(back as nat, m as nat);
    }
}

/// Where every question that offers options has an answer, Enter sends the answers to whoever
/// asked, with the request they belong to, and leaves the form as it is.
pub proof fn enter_sends_the_answers(
    f: FormV,
    key: KeyEvent,
    p: &PendingInteraction,
    area: Option<crate::event::Rect>,
    width: nat,
)
    requires
        key.code == KeyCode::Enter,
        key.press,
        !f.is_typing,
        f.answers.len() == p.payload@.len(),
        f.custom.len() == p.payload@.len(),
        forall|i: int|
            0 <= i < p.payload@.len() ==> (#[trigger] p.payload@[i]).options.len() == 0
                || f.answers[i].len() > 0 || f.custom[i] is Some,
    ensures
        panel_step(f, Event::Key(key), area, false, Some(p), width) == (
            f,
            EventResult::Consumed,
            AskEffectV::Submit(
                p.owner@,
                p.request_id_json@,
                answers_map(p.payload@, f.answers, f.custom),
            ),
        ),
{
    let qs = p.payload@;
    assert(asked(Some(p)) == qs);
    assert forall|i: int| 0 <= i < f.answers.len() implies !#[trigger] f.open(qs, i) by {
        assert(qs[i].options.len() == 0 || f.answers[i].len() > 0 || f.custom[i] is Some);
    }
    assert(f.complete(qs));
}

/// Enter while typing ends it. A text that is more than blanks becomes the answer to the focused
/// question, without the blanks around it; every other answer stays.
pub proof fn a_typed_answer_is_kept(f: FormV, key: KeyEvent, qs: Seq<QuestionV>, width: nat)
    requires
        f.is_typing,
        key.code == KeyCode::Enter,
        key.mods.none(),
        0 <= f.focused < f.custom.len(),
    ensures
        ({
            let g = form_step(f, key, qs, width).0;
            let text = trim_spec(f.typing.now.text);
            &&& form_step(f, key, qs, width).1 is Consumed
            &&& !g.is_typing
            &&& g == (FormV { is_typing: false, custom: g.custom, ..f })
            &&& g.custom.len() == f.custom.len()
            &&& g.custom[f.focused] == (if text.len() > 0 {
                Some(text)
            } else {
                f.custom[f.focused]
            })
            &&& forall|i: int|
                0 <= i < f.custom.len() && i != f.focused ==> (#[trigger] g.custom[i]) == f.custom[i]
        }),
{
}

/// A character typed stands before the cursor, with all that was there around it.
pub proof fn a_character_is_put_in(f: FormV, key: KeyEvent, c: char, qs: Seq<QuestionV>, width: nat)
    requires
        f.is_typing,
        key.code == KeyCode::Char(c),
        key.mods.none() || key.mods.only_shift(),
        0 <= f.typing.now.cursor <= f.typing.now.text.len(),
    ensures
        ({
            let g = form_step(f, key, qs, width).0;
            let text = f.typing.now.text;
            let at = f.typing.now.cursor;
            &&& form_step(f, key, qs, width).1 is Consumed
            &&& g.typing.now.text == text.insert(at, c)
            &&& g.typing.now.cursor == at + 1
            &&& g == (FormV { typing: g.typing, ..f })
        }),
{
    let text = f.typing.now.text;
    let at = f.typing.now.cursor;
    assert(text.take(at) + seq![c] + text.skip(at) =~= text.insert(at, c));
}

/// Backspace takes out the character before the cursor, and Delete the one behind it.
pub proof fn a_character_is_taken_out(f: FormV, key: KeyEvent, qs: Seq<QuestionV>, width: nat)
    requires
        f.is_typing,
        key.mods.none(),
        0 <= f.typing.now.cursor <= f.typing.now.text.len(),
        key.code == KeyCode::Backspace || key.code == KeyCode::Delete,
    ensures
        ({
            let g = form_step(f, key, qs, width).0;
            let text = f.typing.now.text;
            let at = f.typing.now.cursor;
            &&& form_step(f, key, qs, width).1 is Consumed
            &&& key.code == KeyCode::Backspace && at > 0 ==> g.typing.now == (EditV {
                text: text.remove(at - 1),
                cursor: at - 1,
            })
            &&& key.code == KeyCode::Delete && at < text.len() ==> g.typing.now == (EditV {
                text: text.remove(at),
                cursor: at,
            })
            &&& key.code == KeyCode::Backspace && at == 0 ==> g == f
            &&& key.code == KeyCode::Delete && at == text.len() ==> g == f
            &&& g == (FormV { typing: g.typing, ..f })
        }),
{
    let text = f.typing.now.text;
    let at = f.typing.now.cursor;
    if at > 0 {
        assert(text.take(at - 1) + text.skip(at) =~= text.remove(at - 1));
    }
    if at < text.len() {
        assert(text.take(at) + text.skip(at + 1) =~= text.remove(at));
    }
}

/// Typing for a question begins with what was typed for it before, at the end of it.
pub proof fn typing_begins_with_what_was_typed(f: FormV, question: int)
    requires
        0 <= question < f.custom.len(),
    ensures
        ({
            let g = f.typing_for(question);
            &&& g.is_typing
            &&& g.typing.now.text == (match f.custom[question] {
                Some(t) => t,
                None => Seq::empty(),
            })
            &&& g.typing.now.cursor == g.typing.now.text.len()
            &&& g == (FormV { typing: g.typing, is_typing: true, ..f })
        }),
{
}

/// The arrows move by one option within the question; behind the last option is the place to
/// type, and coming there begins to.
pub proof fn arrows_move_by_one_option(f: FormV, key: KeyEvent, qs: Seq<QuestionV>, width: nat)
    requires
        !f.is_typing,
        0 <= f.focused < qs.len(),
        0 <= f.option <= qs[f.focused].options.len(),
        key.code == KeyCode::Up || key.code == KeyCode::Down,
    ensures
        ({
            let g = form_step(f, key, qs, width).0;
            let n = qs[f.focused].options.len();
            &&& form_step(f, key, qs, width).1 is Consumed
            &&& key.code == KeyCode::Up && f.option > 0 ==> g.option == f.option - 1
            &&& key.code == KeyCode::Up && f.option == 0 ==> g.option == 0
            &&& key.code == KeyCode::Down && f.option < n ==> g.option == f.option + 1
            &&& key.code == KeyCode::Down && f.option == n ==> g.option == n
            &&& g.is_typing == (key.code == KeyCode::Down && g.option == n)
            &&& g.answers == f.answers && g.custom == f.custom && g.focused == f.focused
        }),
{
}

/// Tab goes to the question behind, round the end, onto the option chosen there.
pub proof fn tab_goes_to_the_next_question(f: FormV, key: KeyEvent, qs: Seq<QuestionV>, width: nat)
    requires
        !f.is_typing,
        0 <= f.focused < qs.len(),
        f.answers.len() == qs.len(),
        key.code == KeyCode::Tab || key.code == KeyCode::BackTab,
    ensures
        ({
            let g = form_step(f, key, qs, width).0;
            let n = qs.len();
            &&& form_step(f, key, qs, width).1 is Consumed
            &&& key.code == KeyCode::Tab ==> g.focused == (if f.focused + 1 < n {
                f.focused + 1
            } else {
                0
            })
            &&& key.code == KeyCode::BackTab ==> g.focused == (if f.focused > 0 {
                f.focused - 1
            } else {
                n - 1
            })
            &&& g.option == (if f.answers[g.focused].len() > 0 {
                f.answers[g.focused][0] as int
            } else {
                0
            })
            &&& g == (FormV { focused: g.focused, option: g.option, ..f })
        }),
{
}

/// Escape outside the editor asks to reject the request, of whoever asked.
pub proof fn escape_asks_to_reject(
    f: FormV,
    key: KeyEvent,
    p: &PendingInteraction,
    area: Option<crate::event::Rect>,
    width: nat,
)
    requires
        key.code == KeyCode::Esc,
        key.press,
        !f.is_typing,
    ensures
        panel_step(f, Event::Key(key), area, false, Some(p), width) == (
            f,
            EventResult::Consumed,
            AskEffectV::AskReject(p.owner@, p.request_id_json@),
        ),
{
}

} // verus!
