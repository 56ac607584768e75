//! Telling one request of questions from another.

use crate::doc::WordsV;
use crate::laws::texts::a_number_can_be_read_back;
use crate::panels::ask_user::form::FormV;
use crate::panels::ask_user::panel::wrap_width_spec;
use crate::panels::ask_user::types::{fingerprint_of, question_ids, questions_of, AskUser,
    PendingInteraction, QuestionV};
use crate::popups::ask_user_popup::{option_lines, options_lines, popup_lines, PopupV};
use crate::text::decimal;
use vstd::prelude::*;

verus! {

/// Two requests are taken for the same exactly where the same asker asks, by all its numbers, and
/// the questions have the same ids.
pub proof fn other_requests_are_told_apart(a: &PendingInteraction, b: &PendingInteraction)
    ensures
        fingerprint_of(Some(a)) == fingerprint_of(Some(b)) <==> {
            &&& a.owner.client_instance_id == b.owner.client_instance_id
            &&& a.owner.generation == b.owner.generation
            &&& a.owner.prompt_epoch == b.owner.prompt_epoch
            &&& a.owner.token == b.owner.token
            &&& a.payload@.len() == b.payload@.len()
            &&& forall|i: int|
                0 <= i < a.payload@.len() ==> (#[trigger] a.payload@[i]).id == b.payload@[i].id
        },
        fingerprint_of(Some(a)) != fingerprint_of(None),
{
    let f = fingerprint_of(Some(a));
    let g = fingerprint_of(Some(b));
    assert(f.len() == 4 + a.payload@.len());
    assert(g.len() == 4 + b.payload@.len());
    assert(f[0] == decimal(a.owner.client_instance_id as nat));
    assert(g[0] == decimal(b.owner.client_instance_id as nat));
    assert(f[1] == decimal(a.owner.generation as nat));
    assert(g[1] == decimal(b.owner.generation as nat));
    assert(f[2] == decimal(a.owner.prompt_epoch as nat));
    assert(g[2] == decimal(b.owner.prompt_epoch as nat));
    assert(f[3] == decimal(a.owner.token as nat));
    assert(g[3] == decimal(b.owner.token as nat));
    assert(forall|i: int|
        0 <= i < a.payload@.len() ==> f[4 + i] == (#[trigger] a.payload@[i]).id);
    assert(forall|i: int|
        0 <= i < b.payload@.len() ==> g[4 + i] == (#[trigger] b.payload@[i]).id);
    if f == g {
        a_number_can_be_read_back(
            a.owner.client_instance_id as nat,
            b.owner.client_instance_id as nat,
        );
        a_number_can_be_read_back(a.owner.generation as nat, b.owner.generation as nat);
        a_number_can_be_read_back(a.owner.prompt_epoch as nat, b.owner.prompt_epoch as nat);
        a_number_can_be_read_back(a.owner.token as nat, b.owner.token as nat);
        assert forall|i: int| 0 <= i < a.payload@.len() implies (#[trigger] a.payload@[i]).id
            == b.payload@[i].id by {
            assert(f[4 + i] == g[4 + i]);
        }
    }
    if a.owner.client_instance_id == b.owner.client_instance_id && a.owner.generation
        == b.owner.generation && a.owner.prompt_epoch == b.owner.prompt_epoch && a.owner.token
        == b.owner.token && a.payload@.len() == b.payload@.len() && (forall|i: int|
        0 <= i < a.payload@.len() ==> (#[trigger] a.payload@[i]).id == b.payload@[i].id) {
        assert forall|k: int| 0 <= k < f.len() implies f[k] == g[k] by {
            if k >= 4 {
                assert(a.payload@[k - 4].id == b.payload@[k - 4].id);
            }
        }
        assert(f =~= g);
    }
}

/// A request holds its questions with all their options, in order.
pub proof fn a_request_holds_its_questions(a: &AskUser, i: int, k: int)
    ensures
        questions_of(Some(a)).len() == a.questions@.len(),
        questions_of(None).len() == 0,
        question_ids(a@).len() == a.questions@.len(),
        0 <= i < a.questions@.len() ==> {
            let q = a@[i];
            let of = a.questions@[i];
            &&& question_ids(a@)[i] == of.id@
            &&& q.id == of.id@ && q.header == of.header@ && q.question == of.question@
            &&& q.multi_select == of.multi_select
            &&& q.options.len() == of.options@.len()
            &&& 0 <= k < of.options@.len() ==> q.options[k].label == of.options@[k].label@
                && q.options[k].description == of.options@[k].description@
        },
{
}

/// A form for another request has room for an answer to each of its questions, and none is given.
pub proof fn a_new_form_is_empty(count: nat, fingerprint: Seq<Seq<char>>, qs: Seq<QuestionV>, i: int)
    ensures
        ({
            let f = FormV::renewed(count, fingerprint);
            &&& f.answers.len() == count && f.custom.len() == count
            &&& 0 <= i < count ==> f.answers[i].len() == 0 && f.custom[i] is None
            &&& f.focused == 0 && f.option == 0 && !f.is_typing
            &&& f.fingerprint == fingerprint
        }),
        ({
            let p = PopupV::renewed(qs);
            &&& p.answers.len() == qs.len()
            &&& 0 <= i < qs.len() ==> p.answers[i] is None && p.ids[i] == qs[i].id
            &&& p.ids.len() == qs.len()
            &&& p.focused == 0 && p.option == 0
        }),
{
}

/// Lines are as wide as the terminal without its border, forty columns at least, and eighty where
/// the width is not known.
pub proof fn lines_are_as_wide_as_the_terminal(width: u16)
    ensures
        width >= 42 ==> wrap_width_spec(width) == width - 2,
        0 < width < 42 ==> wrap_width_spec(width) == 40,
        wrap_width_spec(0) == 80,
{
}

proof fn lemma_options(p: PopupV, q: QuestionV, focused: int, to: int, i: int) -> (at: int)
    requires
        0 <= i < to <= q.options.len(),
    ensures
        0 <= at < options_lines(p, q, focused, to).len(),
        options_lines(p, q, focused, to)[at] == option_lines(
            q.options[i],
            p.answer(focused) == Some(i as usize),
            i == p.option,
            q.multi_select,
        )[0],
    decreases to,
{
    let before = options_lines(p, q, focused, to - 1);
    let all = options_lines(p, q, focused, to);
    if i == to - 1 {
        before.len() as int
    } else {
        let at = lemma_options(p, q, focused, to - 1, i);
        assert(all[at] == before[at]);
        at
    }
}

/// The popup shows the question that has the focus and each of its options; the one chosen bears
/// the sign of a choice.
pub proof fn each_option_is_shown(p: PopupV, i: &PendingInteraction, k: int) -> (at: int)
    requires
        0 <= p.focused < i.payload@.len(),
        p.answers.len() == i.payload@.len(),
        0 <= k < i.payload@[p.focused].options.len(),
        i.payload@[p.focused].question.len() > 0,
    ensures
        ({
            let d = popup_lines(p, Some(i));
            let q = i.payload@[p.focused];
            &&& d[4][0].words == WordsV::Literal("  "@ + q.question)
            &&& 6 <= at < d.len()
            &&& d[at][0].words == WordsV::Literal(
                "  "@ + (match (p.answers[p.focused] == Some(k as usize), q.multi_select) {
                    (true, true) => "☑"@,
                    (true, false) => "●"@,
                    (false, true) => "☐"@,
                    (false, false) => "○"@,
                }) + " "@ + q.options[k].label,
            )
        }),
{
    let q = i.payload@[p.focused];
    let n = q.options.len() as int;
    let at = lemma_options(p, q, p.focused, n, k);
    assert(popup_lines(p, Some(i))[6 + at] == options_lines(p, q, p.focused, n)[at]);
    6 + at
}

} // verus!
