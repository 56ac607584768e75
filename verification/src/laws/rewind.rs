//! Going back in a session.

use crate::doc::WordsV;
use crate::event::{Event, EventResult, KeyCode, KeyEvent};
use crate::json::{field, member, member_reads_back, str_field, JsonV};
use crate::popups::rewind_popup::{file_line, file_lines, message_line, message_lines, popup_step,
    rewind_lines, MessageV, RewindEffectV, RewindPopup};
use crate::rewind_action::{action_step, budget_of, change_of, changes_of, hex_digit, is_fingerprint,
    preview_members, reply_step, ActionV, BudgetV, ChangeV, RewindV, StepV};
use vstd::prelude::*;

verus! {

proof fn lemma_changes(js: Seq<JsonV>, to: int)
    requires
        0 <= to <= js.len(),
    ensures
        changes_of(js, to) is Some <==> forall|i: int|
            0 <= i < to ==> str_field(#[trigger] js[i], "path"@) is Some,
        changes_of(js, to) matches Some(cs) ==> {
            &&& cs.len() == to
            &&& forall|i: int|
                0 <= i < to ==> {
                    &&& Some((#[trigger] cs[i]).path) == str_field(js[i], "path"@)
                    &&& cs[i].kind == (match str_field(js[i], "kind"@) {
                        Some(k) => k,
                        None => Seq::empty(),
                    })
                }
        },
    decreases to,
{
    if to > 0 {
        lemma_changes(js, to - 1);
        assert(change_of(js[to - 1]) is Some <==> str_field(js[to - 1], "path"@) is Some);
        if changes_of(js, to) is None && changes_of(js, to - 1) is None {
            assert(exists|i: int| 0 <= i < to - 1 && str_field(#[trigger] js[i], "path"@) is None);
        }
    }
}

/// A reply is of use exactly where it lists changes that all have a path and bears a mark of
/// sixty-four hexadecimal digits. Then every change listed is there, in the order of the list,
/// with its path and its kind.
pub proof fn every_change_is_read(j: JsonV)
    ensures
        budget_of(j) is Ok <==> {
            &&& field(j, "file_changes"@) is Some
            &&& field(j, "file_changes"@)->0 is Array
            &&& forall|i: int|
                0 <= i < field(j, "file_changes"@)->0->Array_0.len() ==> str_field(
                    #[trigger] field(j, "file_changes"@)->0->Array_0[i],
                    "path"@,
                ) is Some
            &&& str_field(j, "preview_fingerprint"@) is Some
            &&& str_field(j, "preview_fingerprint"@)->0.len() == 64
            &&& forall|i: int|
                0 <= i < 64 ==> {
                    let c = #[trigger] str_field(j, "preview_fingerprint"@)->0[i];
                    ('0' <= c <= '9') || ('a' <= c <= 'f') || ('A' <= c <= 'F')
                }
        },
        budget_of(j) matches Ok(p) ==> {
            let listed = field(j, "file_changes"@)->0->Array_0;
            &&& p.changes.len() == listed.len()
            &&& forall|i: int|
                0 <= i < listed.len() ==> {
                    &&& Some((#[trigger] p.changes[i]).path) == str_field(listed[i], "path"@)
                    &&& p.changes[i].kind == (match str_field(listed[i], "kind"@) {
                        Some(k) => k,
                        None => Seq::empty(),
                    })
                }
            &&& Some(p.fingerprint) == str_field(j, "preview_fingerprint"@)
        },
        budget_of(j) matches Err(e) ==> (e is PathMissing <==> field(j, "file_changes"@) is Some
            && field(j, "file_changes"@)->0 is Array && exists|i: int|
            0 <= i < field(j, "file_changes"@)->0->Array_0.len() && str_field(
                #[trigger] field(j, "file_changes"@)->0->Array_0[i],
                "path"@,
            ) is None),
{
    match field(j, "file_changes"@) {
        Some(JsonV::Array(js)) => {
            lemma_changes(js, js.len() as int);
            match str_field(j, "preview_fingerprint"@) {
                Some(f) => {
                    assert(is_fingerprint(f) <==> f.len() == 64 && forall|i: int|
                        0 <= i < 64 ==> hex_digit(#[trigger] f[i]));
                    assert forall|i: int| 0 <= i < f.len() implies hex_digit(#[trigger] f[i]) == {
                        let c = f[i];
                        ('0' <= c <= '9') || ('a' <= c <= 'f') || ('A' <= c <= 'F')
                    } by {}
                },
                None => {},
            }
        },
        _ => {},
    }
}

/// A reply of use shows the changes it lists and keeps its mark, and confirming then goes back
/// to the message asked for, with that mark. A reply of no use changes nothing.
pub proof fn what_is_shown_is_what_is_confirmed(
    s: RewindV,
    reply: JsonV,
    target: Seq<char>,
)
    ensures
        budget_of(reply) matches Ok(p) ==> {
            let (t, e) = reply_step(s, reply);
            &&& e is None
            &&& t.budget == BudgetV::Files(p.changes)
            &&& t.fingerprint == Some(p.fingerprint)
            &&& t.target_text == s.target_text && t.error == s.error
            &&& t.heartbeat != s.heartbeat
            &&& action_step(t, ActionV::Confirm(target), true).1 == StepV::Execute(
                target,
                p.fingerprint,
            )
            &&& action_step(t, ActionV::Confirm(target), true).0.budget is Executing
            &&& action_step(t, ActionV::Confirm(target), true).0.target_text == s.target_text
        },
        budget_of(reply) matches Err(e) ==> reply_step(s, reply) == (s, Some(e)),
{
}

/// Asking about a message asks about that message, keeps its text, and takes back the mark of
/// what was shown before. Without a session nothing is done.
pub proof fn asking_names_the_message(s: RewindV, target: Seq<char>, text: Seq<char>, a: ActionV)
    ensures
        action_step(s, ActionV::Preview(target, text), true) == (
            RewindV { target_text: Some(text), fingerprint: None, ..s },
            StepV::Query(target),
        ),
        action_step(s, a, false) == (s, StepV::Skip),
{
}

/// The parameters of a question about a message name the session and the message, and nothing
/// else.
pub proof fn a_question_names_session_and_message(sid: Seq<char>, target: Seq<char>)
    ensures
        member(preview_members(sid, target), "sessionId"@) == Some(JsonV::Str(sid)),
        member(preview_members(sid, target), "target_message_id"@) == Some(JsonV::Str(target)),
        preview_members(sid, target).len() == 2,
{
    reveal_strlit("sessionId");
    reveal_strlit("target_message_id");
    assert("sessionId"@.len() != "target_message_id"@.len());
    let first = crate::json::with_member(Seq::empty(), "sessionId"@, JsonV::Str(sid));
    member_reads_back(Seq::empty(), "sessionId"@, JsonV::Str(sid), "target_message_id"@);
    member_reads_back(first, "target_message_id"@, JsonV::Str(target), "sessionId"@);
    assert(first.drop_first() =~= Seq::empty());
    assert(crate::json::with_member(Seq::empty(), "target_message_id"@, JsonV::Str(target)).len()
        == 1);
}

/// Enter on a message asks what going back to that message would undo.
pub proof fn enter_asks_about_the_selected_message(
    p: RewindPopup,
    s: RewindV,
    ms: Seq<MessageV>,
    key: KeyEvent,
    area: Option<crate::event::Rect>,
)
    requires
        key.press,
        key.code == KeyCode::Enter,
        p.msg_sel < ms.len(),
    ensures
        s.budget is Idle ==> popup_step(p, s, ms, Event::Key(key), area) == (
            p,
            s,
            EventResult::Consumed,
            RewindEffectV::Send(
                ActionV::Preview(ms[p.msg_sel as int].id, ms[p.msg_sel as int].preview),
            ),
        ),
        s.budget is Files ==> popup_step(p, s, ms, Event::Key(key), area) == (
            p,
            s,
            EventResult::Consumed,
            RewindEffectV::Send(ActionV::Confirm(ms[p.msg_sel as int].id)),
        ),
        s.budget is Executing ==> popup_step(p, s, ms, Event::Key(key), area).3 is Nothing,
{
}

/// Escape before the confirmation leads back without anything having been undone: what was
/// shown and its mark are gone.
pub proof fn escape_takes_the_question_back(
    p: RewindPopup,
    s: RewindV,
    ms: Seq<MessageV>,
    key: KeyEvent,
    area: Option<crate::event::Rect>,
    target: Seq<char>,
)
    requires
        key.press,
        key.code == KeyCode::Esc,
    ensures
        ({
            let (q, t, r, e) = popup_step(p, s, ms, Event::Key(key), area);
            &&& r is Consumed
            &&& !(e is Send)
            &&& t.budget is Idle
            &&& s.budget is Files ==> e is Nothing && t.fingerprint is None && t.target_text is None
                && !(action_step(t, ActionV::Confirm(target), true).1 is Execute)
            &&& s.budget is Executing ==> e is Nothing && t.target_text == s.target_text
            &&& s.budget is Idle ==> e is Close
        }),
{
}

proof fn lemma_files(cs: Seq<ChangeV>, selected: int, to: int)
    requires
        0 <= to <= cs.len(),
    ensures
        file_lines(cs, selected, to).len() == to,
        forall|i: int|
            0 <= i < to ==> (#[trigger] file_lines(cs, selected, to)[i]) == file_line(
                cs[i],
                i == selected,
            ),
    decreases to,
{
    if to > 0 {
        lemma_files(cs, selected, to - 1);
    }
}

/// Before anything is undone, the number of files is shown and a row for each of the first
/// eight, with its path as far as forty characters and how it would be changed; where there are
/// more, how many.
pub proof fn the_files_to_be_undone_are_shown(
    ms: Option<Seq<MessageV>>,
    cs: Seq<ChangeV>,
    error: Option<Seq<char>>,
    msg_sel: int,
    file_sel: int,
    i: int,
)
    requires
        0 <= i < cs.len(),
    ensures
        ({
            let d = rewind_lines(ms, BudgetV::Files(cs), error, msg_sel, file_sel);
            &&& d[1][1].words == WordsV::Message(
                "rewind-budget-title"@,
                seq![("count"@, crate::doc::ArgV::Number(cs.len()))],
            )
            &&& i < 8 && cs[i].path.len() <= 40 ==> d[2 + i].len() == 1 && d[2 + i][0].words
                == WordsV::Literal(
                (if i == file_sel {
                    "  > "@
                } else {
                    "    "@
                }) + "["@ + (if cs[i].kind == "write"@ {
                    "write"@
                } else {
                    "edit"@
                }) + ("] "@ + cs[i].path),
            )
            &&& cs.len() > 8 ==> d[10][1].words == WordsV::Message(
                "rewind-budget-more"@,
                seq![("count"@, crate::doc::ArgV::Number((cs.len() - 8) as nat))],
            )
        }),
{
    let n = if cs.len() < 8 {
        cs.len() as int
    } else {
        8
    };
    lemma_files(cs, file_sel, n);
    let d = rewind_lines(ms, BudgetV::Files(cs), error, msg_sel, file_sel);
    if i < 8 {
        assert(d[2 + i] == file_lines(cs, file_sel, n)[i]);
    }
}

proof fn lemma_messages(ms: Seq<MessageV>, selected: int, to: int)
    requires
        0 <= to <= ms.len(),
    ensures
        message_lines(ms, selected, to).len() == to,
        forall|i: int|
            0 <= i < to ==> (#[trigger] message_lines(ms, selected, to)[i]) == message_line(
                ms[i],
                i == selected,
            ),
    decreases to,
{
    if to > 0 {
        lemma_messages(ms, selected, to - 1);
    }
}

/// The first eight messages that the user can go back to are shown, each in its row, and the
/// selected one is marked.
pub proof fn the_messages_are_shown(
    ms: Seq<MessageV>,
    msg_sel: int,
    file_sel: int,
    i: int,
)
    requires
        0 <= i < ms.len(),
        i < 8,
        ms[i].preview.len() <= 40,
    ensures
        rewind_lines(Some(ms), BudgetV::Idle, None, msg_sel, file_sel)[2 + i].len() == 1,
        rewind_lines(Some(ms), BudgetV::Idle, None, msg_sel, file_sel)[2 + i][0].words
            == WordsV::Literal(
            (if i == msg_sel {
                "  > "@
            } else {
                "    "@
            }) + ms[i].preview,
        ),
{
    let n = if ms.len() < 8 {
        ms.len() as int
    } else {
        8
    };
    lemma_messages(ms, msg_sel, n);
    let d = rewind_lines(Some(ms), BudgetV::Idle, None, msg_sel, file_sel);
    assert(d[2 + i] == message_lines(ms, msg_sel, n)[i]);
}

/// The arrows lead through the messages that are shown, not beyond the first and the last, as long
/// as nothing has been asked about.
pub proof fn arrows_lead_through_the_messages(
    p: RewindPopup,
    s: RewindV,
    ms: Seq<MessageV>,
    key: KeyEvent,
    area: Option<crate::event::Rect>,
)
    requires
        key.press,
        s.budget is Idle,
        p.msg_sel < ms.len(),
        p.msg_sel < 8,
    ensures
        ({
            let (q, t, r, e) = popup_step(p, s, ms, Event::Key(key), area);
            &&& t == s || key.code == KeyCode::Esc
            &&& key.code == KeyCode::Up ==> e is Nothing && q == (RewindPopup {
                msg_sel: if p.msg_sel > 0 {
                    (p.msg_sel - 1) as usize
                } else {
                    0
                },
                ..p
            })
            &&& key.code == KeyCode::Down ==> e is Nothing && q == (RewindPopup {
                msg_sel: if p.msg_sel + 1 < ms.len() && p.msg_sel < 7 {
                    (p.msg_sel + 1) as usize
                } else {
                    p.msg_sel
                },
                ..p
            })
        }),
{
}

/// The number of messages is told, and how many are not shown; what went wrong is told instead of
/// them.
pub proof fn the_messages_are_counted(ms: Seq<MessageV>, msg_sel: int, file_sel: int, why: Seq<char>)
    requires
        ms.len() > 0,
    ensures
        rewind_lines(Some(ms), BudgetV::Idle, None, msg_sel, file_sel)[1][1].words
            == WordsV::Message(
            "rewind-title-count"@,
            seq![("count"@, crate::doc::ArgV::Number(ms.len()))],
        ),
        ms.len() > 8 ==> rewind_lines(Some(ms), BudgetV::Idle, None, msg_sel, file_sel)[10][1].words
            == WordsV::Message(
            "rewind-budget-more"@,
            seq![("count"@, crate::doc::ArgV::Number((ms.len() - 8) as nat))],
        ),
        rewind_lines(Some(ms), BudgetV::Idle, Some(why), msg_sel, file_sel)[1][1].words
            == WordsV::Message(
            "rewind-query-failed"@,
            seq![("error"@, crate::doc::ArgV::Text(why))],
        ),
{
    let n = if ms.len() < 8 {
        ms.len() as int
    } else {
        8
    };
    lemma_messages(ms, msg_sel, n);
}

} // verus!
