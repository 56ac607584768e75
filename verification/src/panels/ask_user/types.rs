//! Questions and who asked them.

use crate::text::{decimal, decimal_text, text_views};
use vstd::prelude::*;

verus! {

/// An answer offered for a question.
#[derive(Debug)]
pub struct QuestionOption {
    pub label: String,
    pub description: String,
}

/// A question with the answers offered; any number of them where `multi_select`
/// is set, else one.
#[derive(Debug)]
pub struct Question {
    pub id: String,
    pub header: String,
    pub question: String,
    pub options: Vec<QuestionOption>,
    pub multi_select: bool,
}

/// The questions asked together.
#[derive(Debug)]
pub struct AskUser {
    pub questions: Vec<Question>,
}

/// Whose request an answer goes to.
#[derive(Debug)]
pub struct InteractionOwner {
    pub client_instance_id: u64,
    pub token: u64,
    pub session_id: String,
    pub generation: u64,
    pub prompt_epoch: u64,
}

/// A request waiting for the user.
#[derive(Debug)]
pub struct PendingInteraction {
    pub owner: InteractionOwner,
    pub request_id_json: String,
    pub payload: AskUser,
}

/// An offered answer, abstractly.
pub struct OptionV {
    pub label: Seq<char>,
    pub description: Seq<char>,
}

/// A question, abstractly.
pub struct QuestionV {
    pub id: Seq<char>,
    pub header: Seq<char>,
    pub question: Seq<char>,
    pub options: Seq<OptionV>,
    pub multi_select: bool,
}

/// An owner, abstractly.
pub struct OwnerV {
    pub client_instance_id: u64,
    pub token: u64,
    pub session_id: Seq<char>,
    pub generation: u64,
    pub prompt_epoch: u64,
}

impl View for QuestionOption {
    type V = OptionV;

    open spec fn view(&self) -> OptionV {
        OptionV { label: self.label@, description: self.description@ }
    }
}

impl View for Question {
    type V = QuestionV;

    open spec fn view(&self) -> QuestionV {
        QuestionV {
            id: self.id@,
            header: self.header@,
            question: self.question@,
            options: self.options@.map_values(|o: QuestionOption| o@),
            multi_select: self.multi_select,
        }
    }
}

impl View for AskUser {
    type V = Seq<QuestionV>;

    open spec fn view(&self) -> Seq<QuestionV> {
        self.questions@.map_values(|q: Question| q@)
    }
}

impl View for InteractionOwner {
    type V = OwnerV;

    open spec fn view(&self) -> OwnerV {
        OwnerV {
            client_instance_id: self.client_instance_id,
            token: self.token,
            session_id: self.session_id@,
            generation: self.generation,
            prompt_epoch: self.prompt_epoch,
        }
    }
}

impl InteractionOwner {
    /// The same owner once more.
    pub fn copy(&self) -> (o: InteractionOwner)
        ensures
            o@ == self@,
    {
        InteractionOwner {
            client_instance_id: self.client_instance_id,
            token: self.token,
            session_id: self.session_id.clone(),
            generation: self.generation,
            prompt_epoch: self.prompt_epoch,
        }
    }

    /// Whether both are the same owner.
    pub fn is(&self, other: &InteractionOwner) -> (b: bool)
        ensures
            b == (self@ == other@),
    {
        self.client_instance_id == other.client_instance_id && self.token == other.token
            && crate::text::same(self.session_id.as_str(), other.session_id.as_str())
            && self.generation == other.generation && self.prompt_epoch == other.prompt_epoch
    }
}

/// The questions asked, none where nothing is asked.
pub open spec fn questions_of(p: Option<&AskUser>) -> Seq<QuestionV> {
    match p {
        Some(a) => a@,
        None => Seq::empty(),
    }
}

/// The ids of the first questions.
pub open spec fn question_ids(qs: Seq<QuestionV>) -> Seq<Seq<char>> {
    qs.map_values(|q: QuestionV| q.id)
}

/// What tells one request from another: its owner and the ids of its questions.
pub open spec fn fingerprint_of(p: Option<&PendingInteraction>) -> Seq<Seq<char>> {
    match p {
        Some(p) => seq![
            decimal(p.owner.client_instance_id as nat),
            decimal(p.owner.generation as nat),
            decimal(p.owner.prompt_epoch as nat),
            decimal(p.owner.token as nat),
        ] + question_ids(p.payload@),
        None => Seq::empty(),
    }
}

/// What tells one request from another.
pub fn interaction_fingerprint(p: Option<&PendingInteraction>) -> (r: Vec<String>)
    ensures
        text_views(r@) == fingerprint_of(p),
{
    let mut out: Vec<String> = Vec::new();
    match p {
        Some(p) => {
            out.push(decimal_text(p.owner.client_instance_id));
            out.push(decimal_text(p.owner.generation));
            out.push(decimal_text(p.owner.prompt_epoch));
            out.push(decimal_text(p.owner.token));
            let qs = &p.payload.questions;
            let ghost head = text_views(out@);
            let ghost ids = question_ids(p.payload@);
            let mut i: usize = 0;
            assert(text_views(out@) =~= head + ids.take(0));
            while i < qs.len()
                invariant
                    i <= qs@.len(),
                    qs == p.payload.questions,
                    ids == question_ids(p.payload@),
                    text_views(out@) == head + ids.take(i as int),
                decreases qs.len() - i,
            {
                let ghost before = text_views(out@);
                out.push(qs[i].id.clone());
                assert(text_views(out@) =~= before.push(ids[i as int]));
                i = i + 1;
                assert(text_views(out@) =~= head + ids.take(i as int));
            }
            assert(ids.take(i as int) =~= ids);
            assert(head =~= seq![
                decimal(p.owner.client_instance_id as nat),
                decimal(p.owner.generation as nat),
                decimal(p.owner.prompt_epoch as nat),
                decimal(p.owner.token as nat),
            ]);
        },
        None => {
            assert(text_views(out@) =~= Seq::empty());
        },
    }
    out
}

/// Whether two lists of texts agree.
pub fn same_texts(a: &Vec<String>, b: &Vec<String>) -> (r: bool)
    ensures
        r == (text_views(a@) == text_views(b@)),
{
    if a.len() != b.len() {
        assert(text_views(a@).len() != text_views(b@).len());
        return false;
    }
    let mut i: usize = 0;
    while i < a.len()
        invariant
            i <= a@.len(),
            a@.len() == b@.len(),
            forall|j: int| 0 <= j < i ==> a@[j]@ == b@[j]@,
        decreases a.len() - i,
    {
        if !crate::text::same(a[i].as_str(), b[i].as_str()) {
            assert(text_views(a@)[i as int] != text_views(b@)[i as int]);
            return false;
        }
        i = i + 1;
    }
    assert(text_views(a@) =~= text_views(b@));
    true
}

} // verus!
