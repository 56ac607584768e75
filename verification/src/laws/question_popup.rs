//! The answers to the questions of the agent, given in a popup.

use crate::event::{Event, EventResult, KeyCode, KeyEvent};
use crate::json::{member, member_reads_back, JsonV};
use crate::panels::ask_user::types::{PendingInteraction, QuestionV};
use crate::popups::ask_user_popup::{answer_value, answers_map, answers_to, asked, popup_step,
    PopupEffectV, PopupV};
use vstd::prelude::*;

verus! {

proof fn lemma_answers(qs: Seq<QuestionV>, answers: Seq<Option<usize>>, to: int, i: int)
    requires
        0 <= i < to <= qs.len(),
        answers.len() == qs.len(),
        forall|a: int, b: int| 0 <= a < b < qs.len() ==> (#[trigger] qs[a]).id != (#[trigger] qs[b]).id,
    ensures
        member(answers_to(qs, answers, to), qs[i].id) == Some(answer_value(qs[i], answers[i])),
    decreases to,
{
    member_reads_back(
        answers_to(qs, answers, to - 1),
        qs[to - 1].id,
        answer_value(qs[to - 1], answers[to - 1]),
        qs[i].id,
    );
    if i < to - 1 {
        lemma_answers(qs, answers, to - 1, i);
    }
}

/// What is sent holds under the id of each question the label of the option chosen there, and an
/// empty text where none was.
pub proof fn all_answers_are_sent(qs: Seq<QuestionV>, answers: Seq<Option<usize>>)
    requires
        forall|a: int, b: int| 0 <= a < b < qs.len() ==> (#[trigger] qs[a]).id != (#[trigger] qs[b]).id,
        answers.len() == qs.len(),
        forall|i: int|
            0 <= i < qs.len() ==> ((#[trigger] answers[i]) is Some ==> answers[i]->0
                < qs[i].options.len()),
    ensures
        answers_map(qs, answers) is Object,
        forall|i: int|
            0 <= i < qs.len() ==> member(answers_map(qs, answers)->Object_0, (#[trigger] qs[i]).id)
                == Some(
                JsonV::Str(
                    match answers[i] {
                        Some(o) => qs[i].options[o as int].label,
                        None => Seq::empty(),
                    },
                ),
            ),
{
    assert forall|i: int| 0 <= i < qs.len() implies member(
        answers_map(qs, answers)->Object_0,
        (#[trigger] qs[i]).id,
    ) == Some(
        JsonV::Str(
            match answers[i] {
                Some(o) => qs[i].options[o as int].label,
                None => Seq::empty(),
            },
        ),
    ) by {
        lemma_answers(qs, answers, qs.len() as int, i);
        assert(answers[i] is Some ==> answers[i]->0 < qs[i].options.len());
    }
}

/// Once every question that offers options has an answer, Enter sends the answers to whoever
/// asked; before that it sends nothing and stays among the questions.
pub proof fn enter_sends_the_answers(p: PopupV, key: KeyEvent, i: &PendingInteraction)
    requires
        key.press,
        key.code == KeyCode::Enter,
        p.answers.len() == i.payload@.len(),
    ensures
        (forall|k: int|
            0 <= k < i.payload@.len() ==> (#[trigger] i.payload@[k]).options.len() == 0
                || p.answers[k] is Some) ==> popup_step(p, Event::Key(key), Some(i)) == (
            p,
            EventResult::Consumed,
            PopupEffectV::Submit(
                i.owner@,
                i.request_id_json@,
                answers_map(i.payload@, p.answers),
            ),
        ),
        (exists|k: int|
            0 <= k < i.payload@.len() && (#[trigger] i.payload@[k]).options.len() > 0
                && p.answers[k] is None) ==> {
            let (q, r, e) = popup_step(p, Event::Key(key), Some(i));
            e is Nothing && r is Consumed && q.answers == p.answers && q.option == 0
        },
{
    let qs = i.payload@;
    assert(asked(Some(i)) == qs);
    if forall|k: int|
        0 <= k < qs.len() ==> (#[trigger] qs[k]).options.len() == 0 || p.answers[k] is Some {
        assert forall|k: int| 0 <= k < p.answers.len() implies !#[trigger] p.open(qs, k) by {
            assert(qs[k].options.len() == 0 || p.answers[k] is Some);
        }
        assert(p.complete(qs));
    } else {
        let k = choose|k: int|
            0 <= k < qs.len() && (#[trigger] qs[k]).options.len() > 0 && p.answers[k] is None;
        assert(p.open(qs, k));
    }
}

proof fn lemma_seek(p: PopupV, qs: Seq<QuestionV>, i: int, n: nat)
    requires
        0 <= i < qs.len(),
    ensures
        exists|e: nat|
            {
                &&& e <= n
                &&& p.seek(qs, i, n) == #[trigger] ((i + e) % (qs.len() as int))
                &&& (e < n ==> p.open(qs, p.seek(qs, i, n)))
                &&& forall|d: nat|
                    d < e ==> !p.open(qs, #[trigger] ((i + d) % (qs.len() as int)))
            },
    decreases n,
{
    let m = qs.len() as int;
    vstd::arithmetic::div_mod::lemma_small_mod(i as nat, m as nat);
    if n == 0 || p.open(qs, i) {
        let e: nat = 0;
        assert(p.seek(qs, i, n) == (i + e) % m);
    } else {
        let j = (i + 1) % m;
        assert(0 <= j < m) by (nonlinear_arith)
            requires
                m > 0,
                j == (i + 1) % m,
        ;
        lemma_seek(p, qs, j, (n - 1) as nat);
        let e = choose|e: nat|
            {
                &&& e <= n - 1
                &&& p.seek(qs, j, (n - 1) as nat) == #[trigger] ((j + e) % m)
                &&& (e < n - 1 ==> p.open(qs, p.seek(qs, j, (n - 1) as nat)))
                &&& forall|d: nat| d < e ==> !p.open(qs, #[trigger] ((j + d) % m))
            };
        let k: nat = e + 1;
        vstd::arithmetic::div_mod::lemma_add_mod_noop_right(e as int, i + 1, m);
        assert((i + k) % m == (j + e) % m);
        assert forall|d: nat| d < k implies !p.open(qs, #[trigger] ((i + d) % m)) by {
            if d > 0 {
                let c: nat = (d - 1) as nat;
                vstd::arithmetic::div_mod::lemma_add_mod_noop_right(c as int, i + 1, m);
                assert((i + d) % m == (j + c) % m);
            }
        }
        assert(p.seek(qs, i, n) == (i + k) % m);
    }
}

/// Where another question waits for an answer, Enter goes to one that does.
pub proof fn enter_goes_to_a_question_that_waits(
    p: PopupV,
    key: KeyEvent,
    i: &PendingInteraction,
    missing: int,
)
    requires
        key.press,
        key.code == KeyCode::Enter,
        p.answers.len() == i.payload@.len(),
        0 <= p.focused < i.payload@.len(),
        0 <= missing < i.payload@.len(),
        missing != p.focused,
        i.payload@[missing].options.len() > 0,
        p.answers[missing] is None,
    ensures
        ({
            let q = popup_step(p, Event::Key(key), Some(i)).0;
            &&& 0 <= q.focused < i.payload@.len()
            &&& i.payload@[q.focused].options.len() > 0
            &&& p.answers[q.focused] is None
        }),
{
    let qs = i.payload@;
    assert(asked(Some(i)) == qs);
    assert(p.open(qs, missing));
    assert(!p.complete(qs));
    let m = qs.len() as int;
    let at = (p.focused + 1) % m;
    assert(0 <= at < m) by (nonlinear_arith)
        requires
            m > 0,
            at == (p.focused + 1) % m,
    ;
    let n = (m - 1) as nat;
    lemma_seek(p, qs, at, n);
    let e = choose|e: nat|
        {
            &&& e <= n
            &&& p.seek(qs, at, n) == #[trigger] ((at + e) % m)
            &&& (e < n ==> p.open(qs, p.seek(qs, at, n)))
            &&& forall|d: nat| d < e ==> !p.open(qs, #[trigger] ((at + d) % m))
        };
    if e == n {
        let d: nat = if missing > p.focused {
            (missing - p.focused - 1) as nat
        } else {
            (missing - p.focused - 1 + m) as nat
        };
        vstd::arithmetic::div_mod::lemma_add_mod_noop_right(d as int, p.focused + 1, m);
        vstd::arithmetic::div_mod::lemma_mod_add_multiples_vanish(missing, m);
        vstd::arithmetic::div_mod::lemma_small_mod(missing as nat, m as nat);
        assert((at + d) % m == missing);
        assert(d < e);
    }
}

/// The space bar on an option chooses it, or takes the choice back where it was the one chosen;
/// no other question changes.
pub proof fn space_chooses(p: PopupV, key: KeyEvent, i: &PendingInteraction)
    requires
        key.press,
        key.mods.none(),
        key.code == KeyCode::Char(' '),
        p.answers.len() == i.payload@.len(),
        0 <= p.focused < i.payload@.len(),
        0 <= p.option < i.payload@[p.focused].options.len() <= usize::MAX,
    ensures
        ({
            let (q, r, e) = popup_step(p, Event::Key(key), Some(i));
            &&& r is Consumed && e is Nothing
            &&& q.answers.len() == p.answers.len()
            &&& q.answers[p.focused] == (if p.answers[p.focused] == Some(p.option as usize) {
                None
            } else {
                Some(p.option as usize)
            })
            &&& forall|k: int|
                0 <= k < p.answers.len() && k != p.focused ==> (#[trigger] q.answers[k])
                    == p.answers[k]
            &&& q == (PopupV { answers: q.answers, ..p })
        }),
{
}

/// The arrows move by one option, within the options of the question.
pub proof fn arrows_move_by_one_option(p: PopupV, key: KeyEvent, i: &PendingInteraction)
    requires
        key.press,
        key.code == KeyCode::Up || key.code == KeyCode::Down,
        0 <= p.focused < i.payload@.len(),
        0 <= p.option < i.payload@[p.focused].options.len(),
    ensures
        ({
            let n = i.payload@[p.focused].options.len();
            popup_step(p, Event::Key(key), Some(i)) == (
                PopupV {
                    option: if key.code == KeyCode::Up {
                        if p.option > 0 {
                            p.option - 1
                        } else {
                            0
                        }
                    } else if p.option + 1 < n {
                        p.option + 1
                    } else {
                        p.option
                    },
                    ..p
                },
                EventResult::Consumed,
                PopupEffectV::Nothing,
            )
        }),
{
}

/// Tab goes to the question behind, round the end, onto the option chosen there.
pub proof fn tab_goes_to_the_next_question(p: PopupV, key: KeyEvent, i: &PendingInteraction)
    requires
        key.press,
        key.code == KeyCode::Tab || key.code == KeyCode::BackTab,
        0 <= p.focused < i.payload@.len(),
        p.answers.len() == i.payload@.len(),
    ensures
        ({
            let q = popup_step(p, Event::Key(key), Some(i)).0;
            let n = i.payload@.len();
            &&& key.code == KeyCode::Tab ==> q.focused == (if p.focused + 1 < n {
                p.focused + 1
            } else {
                0
            })
            &&& key.code == KeyCode::BackTab ==> q.focused == (if p.focused > 0 {
                p.focused - 1
            } else {
                n - 1
            })
            &&& q.option == (match p.answers[q.focused] {
                Some(o) => o as int,
                None => 0,
            })
            &&& q.answers == p.answers
        }),
{
}

/// Escape gives the request up, of whoever asked.
pub proof fn escape_gives_up(p: PopupV, key: KeyEvent, i: &PendingInteraction)
    requires
        key.press,
        key.code == KeyCode::Esc,
    ensures
        popup_step(p, Event::Key(key), Some(i)) == (
            p,
            EventResult::Consumed,
            PopupEffectV::Cancel(i.owner@, i.request_id_json@),
        ),
{
}

} // verus!
