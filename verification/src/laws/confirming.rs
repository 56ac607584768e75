//! Questions that have to be confirmed, and the popups as a whole.

use crate::doc::WordsV;
use crate::event::{Event, KeyCode, KeyEvent, Rect};
use crate::panel_registry::PanelKind;
use crate::panels::ask_user::types::OwnerV;
use crate::panels::theme::download::{ItemV, ProgressV, StatusV};
use crate::popup_overlay::{closed, ended, shown, withdrawn, PopupKind, PopupsV};
use crate::popups::confirm_popup::{confirm_lines, confirm_step, detail_lines, dirty_payload,
    question_texts, reject_payload, risk_step, ConfirmActionV, ConfirmEffectV, ConfirmV,
    DirtyRecoveryPopup, RecoveryAnswer, RecoveryLabels, RecoveryV, TargetV};
use crate::popups::download_progress::{closes, item_line, item_lines, progress_lines};
use crate::text::decimal;
use vstd::prelude::*;

verus! {

/// Enter does what was asked about: it changes to that thread, or turns that request of that
/// asker away; and the question is gone.
pub proof fn what_was_asked_about_is_done(
    s: PopupsV,
    panels: Seq<PanelKind>,
    key: KeyEvent,
    area: Option<Rect>,
    c: ConfirmV,
    id: Seq<char>,
    owner: OwnerV,
)
    requires
        key.press,
        key.mods.none(),
        key.code == KeyCode::Enter,
        s.confirm == Some(c),
    ensures
        ({
            let (t, ps, r, e) = confirm_step(s, panels, Event::Key(key), area);
            &&& r is Consumed
            &&& t.confirm is None && t.kind is None
            &&& c.action == ConfirmActionV::ThreadSwitch(id) ==> e == ConfirmEffectV::LoadThread(id)
                && ps == panels
            &&& c.action == ConfirmActionV::RejectAskUser(owner, id) ==> e
                == ConfirmEffectV::Reject(owner, id)
            &&& c.action == ConfirmActionV::RejectAskUser(owner, id) && s.ask_user is Some
                && s.ask_user->0.owner@ == owner ==> t.ask_user is None && ps == panels.filter(
                |k: PanelKind| k != PanelKind::AskUser,
            )
            &&& c.action == ConfirmActionV::RejectAskUser(owner, id) && s.kind == Some(
                PopupKind::Confirm,
            ) && !(s.ask_user is Some && s.ask_user->0.owner@ == owner) ==> t.ask_user
                == s.ask_user && ps == panels
        }),
{
    crate::laws::open_panels::only_the_closed_panel_goes(panels, PanelKind::AskUser);
}

/// Escape does nothing of what was asked about, and the question is gone.
pub proof fn escape_does_nothing(
    s: PopupsV,
    panels: Seq<PanelKind>,
    key: KeyEvent,
    area: Option<Rect>,
)
    requires
        key.press,
        key.mods.none(),
        key.code == KeyCode::Esc,
    ensures
        ({
            let (t, ps, r, e) = confirm_step(s, panels, Event::Key(key), area);
            &&& r is Consumed
            &&& t.confirm is None && t.kind is None
            &&& ps == panels
            &&& e is Nothing || e is Tell && !e->Tell_0.accepted
        }),
{
}

/// A risk is accepted where the question about it was on the screen and the user chose to accept;
/// any other answer to it is no. The answer bears the ticket of the question.
pub proof fn the_risk_is_answered(
    p: DirtyRecoveryPopup,
    s: PopupsV,
    key: KeyEvent,
    area: Option<Rect>,
    c: ConfirmV,
    r: RecoveryV,
)
    requires
        key.press,
        key.mods.none(),
        s.confirm == Some(c),
        c.action == ConfirmActionV::RecoverDirty(r),
        !r.answered,
    ensures
        ({
            let (q, t, res, a) = risk_step(p, s, Event::Key(key), area);
            &&& res is Consumed
            &&& key.code == KeyCode::Enter ==> a == Some(
                RecoveryAnswer { ticket: r.ticket, accepted: p.selected && r.displayed },
            ) && t.kind is None && t.confirm is None
            &&& key.code == KeyCode::Esc ==> a == Some(
                RecoveryAnswer { ticket: r.ticket, accepted: false },
            ) && t.kind is None && t.confirm is None
            &&& key.code == KeyCode::Up || key.code == KeyCode::Down || key.code == KeyCode::Tab
                ==> a is None && t == s && q.selected == !p.selected
        }),
{
}

/// The question about a risk names the thread and its generation, and the choice is marked.
pub proof fn the_risk_is_named(l: RecoveryLabels, t: TargetV, ticket: u64)
    ensures
        question_texts(l, t, false).len() == 9,
        question_texts(l, t, false)[4] == t.thread,
        question_texts(l, t, true)[4] == t.thread,
        question_texts(l, t, false)[5] == "generation "@ + decimal(t.generation as nat),
        question_texts(l, t, false)[7] == ">"@ + " "@ + l.cancel@,
        question_texts(l, t, false)[8] == " "@ + " "@ + l.accept@,
        question_texts(l, t, true)[7] == " "@ + " "@ + l.cancel@,
        question_texts(l, t, true)[8] == ">"@ + " "@ + l.accept@,
        dirty_payload(ticket, t).action == ConfirmActionV::RecoverDirty(
            RecoveryV { ticket, target: t, answered: false, displayed: false },
        ),
{
}

/// Turning a request away is asked about for that request of that asker.
pub proof fn the_request_to_turn_away_is_kept(owner: OwnerV, request: Seq<char>)
    ensures
        reject_payload(owner, request).action == ConfirmActionV::RejectAskUser(owner, request),
{
}

proof fn lemma_details(details: Seq<WordsV>, to: int, i: int)
    requires
        0 <= i < to <= details.len(),
    ensures
        detail_lines(details, to).len() == to,
        detail_lines(details, to)[i].len() == 1,
        detail_lines(details, to)[i][0].words == details[i],
    decreases to,
{
    if to > 1 && i < to - 1 {
        lemma_details(details, to - 1, i);
    } else if to > 1 {
        lemma_details(details, to - 1, 0);
    } else {
        assert(detail_lines(details, 0).len() == 0);
    }
}

/// A question shows its title, what it asks, and each of its details.
pub proof fn a_question_shows_its_details(c: ConfirmV, i: int)
    requires
        0 <= i < c.details.len(),
    ensures
        confirm_lines(Some(c))[1][1].words == c.title,
        confirm_lines(Some(c))[3][0].words == c.message,
        confirm_lines(Some(c))[4 + i].len() == 1,
        confirm_lines(Some(c))[4 + i][0].words == c.details[i],
        confirm_lines(Some(c)).len() == 6 + c.details.len(),
{
    lemma_details(c.details, c.details.len() as int, i);
    let d = confirm_lines(Some(c));
    assert(d[4 + i] == detail_lines(c.details, c.details.len() as int)[i]);
}

/// A popup that is opened is the one that is open; what other popups wait for stays, but for a
/// question about a risk.
pub proof fn what_is_opened_is_open(s: PopupsV, kind: PopupKind)
    ensures
        shown(s, kind).kind == Some(kind),
        shown(s, kind).hitl == s.hitl && shown(s, kind).ask_user == s.ask_user && shown(
            s,
            kind,
        ).oauth == s.oauth && shown(s, kind).rewind == s.rewind && shown(s, kind).preview
            == s.preview,
        s.confirm is None || !(s.confirm->0.action is RecoverDirty) ==> shown(s, kind).confirm
            == s.confirm,
        s.confirm is Some && s.confirm->0.action is RecoverDirty ==> shown(s, kind).confirm is None,
{
}

/// Closing takes with the popup what it was about, and leaves what the others are about.
pub proof fn closing_takes_what_it_was_about(s: PopupsV)
    ensures
        closed(s).kind is None,
        closed(s).hitl == (if s.kind == Some(PopupKind::Hitl) {
            None
        } else {
            s.hitl
        }),
        closed(s).ask_user == (if s.kind == Some(PopupKind::AskUser) {
            None
        } else {
            s.ask_user
        }),
        closed(s).oauth == (if s.kind == Some(PopupKind::OAuth) {
            None
        } else {
            s.oauth
        }),
        s.kind == Some(PopupKind::Confirm) ==> closed(s).confirm is None,
        s.kind == Some(PopupKind::Rewind) ==> closed(s).rewind.budget is Idle && closed(
            s,
        ).rewind.fingerprint is None && closed(s).rewind.target_text is None,
        s.kind != Some(PopupKind::Rewind) ==> closed(s).rewind == s.rewind,
{
}

/// Where an asker has gone, its question goes, and the popup with it; where another asked, nothing
/// changes. A question about a risk goes with its ticket alone.
pub proof fn only_the_askers_question_goes(s: PopupsV, owner: OwnerV, ticket: u64, r: RecoveryV)
    ensures
        s.ask_user is Some && s.ask_user->0.owner@ == owner ==> ended(s, owner).ask_user is None
            && (s.kind == Some(PopupKind::AskUser) ==> ended(s, owner).kind is None) && (s.kind
            != Some(PopupKind::AskUser) ==> ended(s, owner).kind == s.kind),
        s.ask_user is None || s.ask_user->0.owner@ != owner ==> ended(s, owner) == s,
        s.confirm is Some && s.confirm->0.action == ConfirmActionV::RecoverDirty(r) && r.ticket
            == ticket ==> withdrawn(s, ticket).confirm is None && (s.kind == Some(
            PopupKind::Confirm,
        ) ==> withdrawn(s, ticket).kind is None) && (s.kind != Some(PopupKind::Confirm)
            ==> withdrawn(s, ticket).kind == s.kind),
        s.confirm is Some && s.confirm->0.action == ConfirmActionV::RecoverDirty(r) && r.ticket
            != ticket ==> withdrawn(s, ticket) == s,
        s.confirm is None || !(s.confirm->0.action is RecoverDirty) ==> withdrawn(s, ticket) == s,
{
}

proof fn lemma_items(items: Seq<ItemV>, to: int, i: int)
    requires
        0 <= to <= items.len(),
    ensures
        item_lines(items, to).len() == to,
        0 <= i < to ==> item_lines(items, to)[i] == item_line(items[i]),
    decreases to,
{
    if to > 0 {
        lemma_items(items, to - 1, i);
    }
}

/// The first files of a download are shown, each with what became of it, and the popup is closed
/// by Escape once all is over, not before.
pub proof fn each_file_is_shown(p: ProgressV, i: int, key: KeyEvent)
    requires
        0 <= i < p.items.len(),
        i < crate::popups::download_progress::MAX_VISIBLE_ITEMS,
        key.press,
        key.mods.none(),
    ensures
        progress_lines(p)[i].len() == 1,
        progress_lines(p)[i][0].words == WordsV::Literal(
            (match p.items[i].status {
                StatusV::Pending => " · "@,
                StatusV::Downloading => " → "@,
                StatusV::Done => " ✓ "@,
                StatusV::Failed(_) => " ✗ "@,
            }) + p.items[i].filename,
        ),
        closes(Event::Key(key), p.finished) <==> p.finished && key.code == KeyCode::Esc,
{
    let n = if p.items.len() < crate::popups::download_progress::MAX_VISIBLE_ITEMS {
        p.items.len() as int
    } else {
        crate::popups::download_progress::MAX_VISIBLE_ITEMS as int
    };
    lemma_items(p.items, n, i);
    assert(progress_lines(p)[i] == item_lines(p.items, n)[i]);
}

} // verus!
