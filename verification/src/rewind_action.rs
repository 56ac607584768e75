//! Going back in a session: what would be undone is asked for, shown, and undone only
//! after that was confirmed.

use crate::json::{field, member, member_reads_back, str_field, values_view, with_member, Json, JsonV,
    ObjectBuilder};
use crate::text::{opt_view, to_chars};
use vstd::prelude::*;

verus! {

/// What the user asks for: to see what going back to a message would undo, or to go back.
#[derive(Debug)]
pub enum RewindAction {
    Preview { target_message_id: String, target_text: String },
    Confirm { target_message_id: String },
}

/// What the user asks for, abstractly.
pub enum ActionV {
    Preview(Seq<char>, Seq<char>),
    Confirm(Seq<char>),
}

impl View for RewindAction {
    type V = ActionV;

    open spec fn view(&self) -> ActionV {
        match *self {
            RewindAction::Preview { target_message_id, target_text } => ActionV::Preview(
                target_message_id@,
                target_text@,
            ),
            RewindAction::Confirm { target_message_id } => ActionV::Confirm(target_message_id@),
        }
    }
}

/// A file that would be changed back.
#[derive(Debug)]
pub struct RewindFileChange {
    pub path: String,
    pub kind: String,
}

/// A file that would be changed back, abstractly.
pub struct ChangeV {
    pub path: Seq<char>,
    pub kind: Seq<char>,
}

impl View for RewindFileChange {
    type V = ChangeV;

    open spec fn view(&self) -> ChangeV {
        ChangeV { path: self.path@, kind: self.kind@ }
    }
}

/// The files of a list.
pub open spec fn changes_view(v: Seq<RewindFileChange>) -> Seq<ChangeV> {
    v.map_values(|c: RewindFileChange| c@)
}

/// How far going back has come: nothing asked, the files shown, or under way.
#[derive(Debug)]
pub enum RewindBudgetState {
    Idle,
    Files(Vec<RewindFileChange>),
    Executing,
}

/// How far going back has come, abstractly.
pub enum BudgetV {
    Idle,
    Files(Seq<ChangeV>),
    Executing,
}

impl View for RewindBudgetState {
    type V = BudgetV;

    open spec fn view(&self) -> BudgetV {
        match *self {
            RewindBudgetState::Idle => BudgetV::Idle,
            RewindBudgetState::Files(f) => BudgetV::Files(changes_view(f@)),
            RewindBudgetState::Executing => BudgetV::Executing,
        }
    }
}

/// What is kept while the user goes back: the text to be put back into the input, the mark
/// of the files shown, how far it has come, and what went wrong. The heartbeat goes up by one,
/// and begins anew behind the last number, whenever the screen has to be drawn again.
#[derive(Debug)]
pub struct RewindState {
    pub target_text: Option<String>,
    pub fingerprint: Option<String>,
    pub budget: RewindBudgetState,
    pub error: Option<String>,
    pub heartbeat: u64,
}

/// What is kept while the user goes back, abstractly.
pub struct RewindV {
    pub target_text: Option<Seq<char>>,
    pub fingerprint: Option<Seq<char>>,
    pub budget: BudgetV,
    pub error: Option<Seq<char>>,
    pub heartbeat: u64,
}

impl View for RewindState {
    type V = RewindV;

    open spec fn view(&self) -> RewindV {
        RewindV {
            target_text: opt_view(self.target_text),
            fingerprint: opt_view(self.fingerprint),
            budget: self.budget@,
            error: opt_view(self.error),
            heartbeat: self.heartbeat,
        }
    }
}

/// The heartbeat after the next beat.
pub open spec fn next_beat(beat: u64) -> u64 {
    if beat == u64::MAX {
        0
    } else {
        (beat + 1) as u64
    }
}

impl RewindV {
    /// Nothing asked, nothing wrong.
    pub open spec fn idle(self) -> RewindV {
        RewindV {
            target_text: None,
            fingerprint: None,
            budget: BudgetV::Idle,
            error: None,
            heartbeat: self.heartbeat,
        }
    }

    /// The screen has to be drawn again.
    pub open spec fn beaten(self) -> RewindV {
        RewindV { heartbeat: next_beat(self.heartbeat), ..self }
    }

    /// Something went wrong: back to the start, with what it was, which is to be drawn.
    pub open spec fn failed(self, error: Seq<char>) -> RewindV {
        RewindV { error: Some(error), ..self.idle() }.beaten()
    }
}

impl Default for RewindState {
    fn default() -> (s: RewindState)
        ensures
            s@ == (RewindV {
                target_text: None,
                fingerprint: None,
                budget: BudgetV::Idle,
                error: None,
                heartbeat: 0,
            }),
    {
        RewindState {
            target_text: None,
            fingerprint: None,
            budget: RewindBudgetState::Idle,
            error: None,
            heartbeat: 0,
        }
    }
}

impl RewindState {
    /// Goes back to the start.
    pub fn clear(&mut self)
        ensures
            final(self)@ == old(self)@.idle(),
    {
        self.target_text = None;
        self.fingerprint = None;
        self.budget = RewindBudgetState::Idle;
        self.error = None;
    }

    /// Has the screen drawn again.
    pub fn beat(&mut self)
        ensures
            final(self)@ == old(self)@.beaten(),
    {
        self.heartbeat = self.heartbeat.wrapping_add(1);
    }
}

/// Something went wrong: nothing is left of what was asked, and the error is shown.
pub fn on_action_failed(state: &mut RewindState, error: &str)
    ensures
        final(state)@ == old(state)@.failed(error@),
{
    state.clear();
    state.error = Some(error.to_owned());
    state.beat();
}

// ── Requests ───────────────────────────────────────────────────────────────

/// The parameters that ask what going back would undo.
pub open spec fn preview_members(sid: Seq<char>, target: Seq<char>) -> Seq<(Seq<char>, JsonV)> {
    with_member(
        with_member(Seq::empty(), "sessionId"@, JsonV::Str(sid)),
        "target_message_id"@,
        JsonV::Str(target),
    )
}

/// The parameters that ask what going back would undo.
pub fn build_preview_params(sid: &str, target_message_id: &str) -> (r: Json)
    ensures
        r@ == JsonV::Object(preview_members(sid@, target_message_id@)),
{
    let mut o = ObjectBuilder::new();
    o.put_str("sessionId", sid);
    o.put_str("target_message_id", target_message_id);
    o.build()
}

proof fn execute_params_read_back(sid: Seq<char>, target: Seq<char>, mark: Seq<char>)
    ensures
        ({
            let m = with_member(
                with_member(preview_members(sid, target), "revert_files"@, JsonV::Bool(true)),
                "preview_fingerprint"@,
                JsonV::Str(mark),
            );
            &&& member(m, "sessionId"@) == Some(JsonV::Str(sid))
            &&& member(m, "target_message_id"@) == Some(JsonV::Str(target))
            &&& member(m, "preview_fingerprint"@) == Some(JsonV::Str(mark))
            &&& member(m, "revert_files"@) == Some(JsonV::Bool(true))
        }),
{
    reveal_strlit("sessionId");
    reveal_strlit("target_message_id");
    reveal_strlit("revert_files");
    reveal_strlit("preview_fingerprint");
    assert("sessionId"@.len() == 9 && "target_message_id"@.len() == 17 && "revert_files"@.len()
        == 12 && "preview_fingerprint"@.len() == 19);
    let a = with_member(Seq::empty(), "sessionId"@, JsonV::Str(sid));
    let b = preview_members(sid, target);
    let c = with_member(b, "revert_files"@, JsonV::Bool(true));
    member_reads_back(Seq::empty(), "sessionId"@, JsonV::Str(sid), "sessionId"@);
    member_reads_back(a, "target_message_id"@, JsonV::Str(target), "sessionId"@);
    member_reads_back(b, "revert_files"@, JsonV::Bool(true), "sessionId"@);
    member_reads_back(b, "revert_files"@, JsonV::Bool(true), "target_message_id"@);
    member_reads_back(c, "preview_fingerprint"@, JsonV::Str(mark), "sessionId"@);
    member_reads_back(c, "preview_fingerprint"@, JsonV::Str(mark), "target_message_id"@);
    member_reads_back(c, "preview_fingerprint"@, JsonV::Str(mark), "revert_files"@);
}

/// The parameters that ask to go back. The files are always changed back, and the mark
/// tells which files the user has seen.
pub fn build_execute_params(sid: &str, target_message_id: &str, preview_fingerprint: &str) -> (r:
    Json)
    ensures
        r@ == JsonV::Object(
            with_member(
                with_member(
                    preview_members(sid@, target_message_id@),
                    "revert_files"@,
                    JsonV::Bool(true),
                ),
                "preview_fingerprint"@,
                JsonV::Str(preview_fingerprint@),
            ),
        ),
        str_field(r@, "sessionId"@) == Some(sid@),
        str_field(r@, "target_message_id"@) == Some(target_message_id@),
        str_field(r@, "preview_fingerprint"@) == Some(preview_fingerprint@),
        field(r@, "revert_files"@) == Some(JsonV::Bool(true)),
{
    proof {
        execute_params_read_back(sid@, target_message_id@, preview_fingerprint@);
    }
    let mut o = ObjectBuilder::new();
    o.put_str("sessionId", sid);
    o.put_str("target_message_id", target_message_id);
    o.put("revert_files", Json::Bool(true));
    o.put_str("preview_fingerprint", preview_fingerprint);
    o.build()
}

// ── Replies ────────────────────────────────────────────────────────────────

/// Why a reply is of no use.
#[derive(Debug, Clone, Copy, PartialEq, Eq, Structural)]
pub enum RewindError {
    BudgetMissing,
    PathMissing,
}

impl RewindError {
    /// The message key of an error.
    pub open spec fn key(self) -> Seq<char> {
        match self {
            RewindError::BudgetMissing => "rewind-error-budget-missing"@,
            RewindError::PathMissing => "rewind-error-path-missing"@,
        }
    }

    /// The message key of an error.
    pub fn message_key(&self) -> (k: &'static str)
        ensures
            k@ == self.key(),
    {
        match self {
            RewindError::BudgetMissing => "rewind-error-budget-missing",
            RewindError::PathMissing => "rewind-error-path-missing",
        }
    }
}

/// What going back would undo: the files, and the mark that stands for them.
#[derive(Debug)]
pub struct RewindBudgetPreview {
    pub changes: Vec<RewindFileChange>,
    pub fingerprint: String,
}

/// What going back would undo, abstractly.
pub struct PreviewV {
    pub changes: Seq<ChangeV>,
    pub fingerprint: Seq<char>,
}

impl View for RewindBudgetPreview {
    type V = PreviewV;

    open spec fn view(&self) -> PreviewV {
        PreviewV { changes: changes_view(self.changes@), fingerprint: self.fingerprint@ }
    }
}

/// A hexadecimal digit.
pub open spec fn hex_digit(c: char) -> bool {
    ('0' <= c <= '9') || ('a' <= c <= 'f') || ('A' <= c <= 'F')
}

/// A mark: sixty-four hexadecimal digits.
pub open spec fn is_fingerprint(s: Seq<char>) -> bool {
    s.len() == 64 && forall|i: int| 0 <= i < s.len() ==> hex_digit(#[trigger] s[i])
}

/// A file of a reply, nothing where its path is missing. A kind that is missing is empty.
pub open spec fn change_of(j: JsonV) -> Option<ChangeV> {
    match str_field(j, "path"@) {
        Some(p) => Some(
            ChangeV {
                path: p,
                kind: match str_field(j, "kind"@) {
                    Some(k) => k,
                    None => Seq::empty(),
                },
            },
        ),
        None => None,
    }
}

/// The first files of a reply, nothing where a path is missing.
pub open spec fn changes_of(js: Seq<JsonV>, to: int) -> Option<Seq<ChangeV>>
    decreases to,
{
    if to <= 0 {
        Some(Seq::empty())
    } else {
        match (changes_of(js, to - 1), change_of(js[to - 1])) {
            (Some(cs), Some(c)) => Some(cs.push(c)),
            _ => None,
        }
    }
}

/// What a reply says. The files come first, then their paths, then the mark.
pub open spec fn budget_of(j: JsonV) -> Result<PreviewV, RewindError> {
    match field(j, "file_changes"@) {
        Some(JsonV::Array(js)) => match changes_of(js, js.len() as int) {
            Some(changes) => match str_field(j, "preview_fingerprint"@) {
                Some(f) => if is_fingerprint(f) {
                    Ok(PreviewV { changes, fingerprint: f })
                } else {
                    Err(RewindError::BudgetMissing)
                },
                None => Err(RewindError::BudgetMissing),
            },
            None => Err(RewindError::PathMissing),
        },
        _ => Err(RewindError::BudgetMissing),
    }
}

fn is_mark(s: &str) -> (b: bool)
    ensures
        b == is_fingerprint(s@),
{
    let cs = to_chars(s);
    if cs.len() != 64 {
        return false;
    }
    let mut i: usize = 0;
    while i < cs.len()
        invariant
            i <= cs@.len(),
            cs@ == s@,
            cs@.len() == 64,
            forall|j: int| 0 <= j < i ==> hex_digit(#[trigger] cs@[j]),
        decreases cs.len() - i,
    {
        let c = cs[i];
        if !(('0' <= c && c <= '9') || ('a' <= c && c <= 'f') || ('A' <= c && c <= 'F')) {
            assert(!hex_digit(cs@[i as int]));
            return false;
        }
        i = i + 1;
    }
    true
}

fn read_changes(js: &Vec<Json>) -> (r: Option<Vec<RewindFileChange>>)
    ensures
        (match r {
            Some(v) => Some(changes_view(v@)),
            None => None,
        }) == changes_of(values_view(js@), js@.len() as int),
{
    let ghost all = values_view(js@);
    let mut out: Vec<RewindFileChange> = Vec::new();
    let mut i: usize = 0;
    assert(changes_view(out@) =~= Seq::empty());
    while i < js.len()
        invariant
            i <= js@.len(),
            all == values_view(js@),
            changes_of(all, i as int) == Some(changes_view(out@)),
        decreases js.len() - i,
    {
        let ghost before = changes_view(out@);
        assert(all[i as int] == js@[i as int]@);
        let kind = match js[i].get_str("kind") {
            Some(k) => k.to_owned(),
            None => String::new(),
        };
        match js[i].get_str("path") {
            Some(p) => {
                out.push(RewindFileChange { path: p.to_owned(), kind });
                assert(change_of(all[i as int]) == Some(out@.last()@));
                assert(changes_view(out@) =~= before.push(out@.last()@));
            },
            None => {
                assert(changes_of(all, i + 1) is None);
                proof {
                    missing_stays_missing(all, i + 1, all.len() as int);
                }
                return None;
            },
        }
        i = i + 1;
    }
    Some(out)
}

proof fn missing_stays_missing(js: Seq<JsonV>, i: int, to: int)
    requires
        i <= to,
        changes_of(js, i) is None,
    ensures
        changes_of(js, to) is None,
    decreases to - i,
{
    if i < to {
        missing_stays_missing(js, i, to - 1);
    }
}

/// What a reply says would be undone.
pub fn parse_budget_response(resp: &Json) -> (r: Result<RewindBudgetPreview, RewindError>)
    ensures
        match r {
            Ok(p) => budget_of(resp@) == Ok::<PreviewV, RewindError>(p@),
            Err(e) => budget_of(resp@) == Err::<PreviewV, RewindError>(e),
        },
{
    let list = match resp.get("file_changes") {
        Some(v) => v.as_array(),
        None => None,
    };
    let changes = match list {
        Some(js) => match read_changes(js) {
            Some(c) => c,
            None => {
                return Err(RewindError::PathMissing);
            },
        },
        None => {
            return Err(RewindError::BudgetMissing);
        },
    };
    match resp.get_str("preview_fingerprint") {
        Some(f) => {
            if is_mark(f) {
                Ok(RewindBudgetPreview { changes, fingerprint: f.to_owned() })
            } else {
                Err(RewindError::BudgetMissing)
            }
        },
        None => Err(RewindError::BudgetMissing),
    }
}

// ── What is done next ──────────────────────────────────────────────────────

/// What the program has to do for an action: nothing, ask what would be undone, go back, or
/// report what is wrong.
#[derive(Debug)]
pub enum RewindStep {
    Skip,
    Query(String),
    Execute { target: String, mark: String },
    Fail(RewindError),
}

/// What the program has to do, abstractly.
pub enum StepV {
    Skip,
    Query(Seq<char>),
    Execute(Seq<char>, Seq<char>),
    Fail(RewindError),
}

impl View for RewindStep {
    type V = StepV;

    open spec fn view(&self) -> StepV {
        match *self {
            RewindStep::Skip => StepV::Skip,
            RewindStep::Query(t) => StepV::Query(t@),
            RewindStep::Execute { target, mark } => StepV::Execute(target@, mark@),
            RewindStep::Fail(e) => StepV::Fail(e),
        }
    }
}

/// What an action leads to. Without a session it leads to nothing. Going back needs the
/// mark of the files that were shown.
pub open spec fn action_step(s: RewindV, action: ActionV, has_session: bool) -> (RewindV, StepV) {
    if !has_session {
        (s, StepV::Skip)
    } else {
        match action {
            ActionV::Preview(target, text) => (
                RewindV { target_text: Some(text), fingerprint: None, ..s },
                StepV::Query(target),
            ),
            ActionV::Confirm(target) => match s.fingerprint {
                Some(f) => (
                    RewindV { budget: BudgetV::Executing, ..s }.beaten(),
                    StepV::Execute(target, f),
                ),
                None => (s, StepV::Fail(RewindError::BudgetMissing)),
            },
        }
    }
}

/// What a reply on what would be undone leads to: the files are shown, also where there
/// are none, or the reply is of no use.
pub open spec fn reply_step(s: RewindV, reply: JsonV) -> (RewindV, Option<RewindError>) {
    match budget_of(reply) {
        Ok(p) => (
            RewindV {
                fingerprint: Some(p.fingerprint),
                budget: BudgetV::Files(p.changes),
                ..s
            }.beaten(),
            None,
        ),
        Err(e) => (s, Some(e)),
    }
}

impl RewindState {
    /// Takes up an action.
    pub fn handle_action(&mut self, action: RewindAction, has_session: bool) -> (step: RewindStep)
        ensures
            (final(self)@, step@) == action_step(old(self)@, action@, has_session),
    {
        if !has_session {
            return RewindStep::Skip;
        }
        match action {
            RewindAction::Preview { target_message_id, target_text } => {
                self.target_text = Some(target_text);
                self.fingerprint = None;
                RewindStep::Query(target_message_id)
            },
            RewindAction::Confirm { target_message_id } => {
                let mark = match &self.fingerprint {
                    Some(f) => f.clone(),
                    None => {
                        return RewindStep::Fail(RewindError::BudgetMissing);
                    },
                };
                self.budget = RewindBudgetState::Executing;
                self.beat();
                RewindStep::Execute { target: target_message_id, mark }
            },
        }
    }

    /// Takes up a reply on what would be undone; gives what is wrong with it, if anything
    /// is.
    pub fn handle_reply(&mut self, reply: &Json) -> (e: Option<RewindError>)
        ensures
            (final(self)@, e) == reply_step(old(self)@, reply@),
    {
        match parse_budget_response(reply) {
            Ok(p) => {
                self.fingerprint = Some(p.fingerprint);
                self.budget = RewindBudgetState::Files(p.changes);
                self.beat();
                None
            },
            Err(e) => Some(e),
        }
    }
}

// ── Laws ───────────────────────────────────────────────────────────────────

/// Nothing is undone without a mark, and the mark is that of the files shown last.
pub proof fn undoing_needs_what_was_shown(
    s: RewindV,
    reply: JsonV,
    target: Seq<char>,
    has_session: bool,
)
    ensures
        s.fingerprint is None ==> !(action_step(
            s,
            ActionV::Confirm(target),
            has_session,
        ).1 is Execute),
        has_session ==> (budget_of(reply) matches Ok(p) ==> action_step(
            reply_step(s, reply).0,
            ActionV::Confirm(target),
            has_session,
        ).1 == StepV::Execute(target, p.fingerprint)),
{
}

/// Asking anew takes the old mark away: until the reply has come nothing can be undone.
pub proof fn asking_takes_the_mark(
    s: RewindV,
    target: Seq<char>,
    text: Seq<char>,
    other: Seq<char>,
)
    ensures
        ({
            let asked = action_step(s, ActionV::Preview(target, text), true).0;
            &&& asked.target_text == Some(text)
            &&& action_step(asked, ActionV::Confirm(other), true) == (
                asked,
                StepV::Fail(RewindError::BudgetMissing),
            )
        }),
{
}

/// Going back is always confirmed, also where no file would be changed.
pub proof fn an_empty_budget_is_shown(s: RewindV, reply: JsonV)
    ensures
        budget_of(reply) is Ok ==> reply_step(s, reply).0.budget is Files,
{
}

/// After a failure nothing is left that could be confirmed, and the failure is drawn.
pub proof fn a_failure_clears_all(s: RewindV, error: Seq<char>, target: Seq<char>)
    ensures
        s.failed(error).budget is Idle,
        s.failed(error).target_text is None,
        s.failed(error).heartbeat != s.heartbeat,
        action_step(s.failed(error), ActionV::Confirm(target), true).1 == StepV::Fail(
            RewindError::BudgetMissing,
        ),
{
}

} // verus!
