//! Which popup is open, and what each popup is about.

use crate::json::Json;
use crate::panel_registry::asked_by;
use crate::panels::ask_user::types::{InteractionOwner, OwnerV, PendingInteraction};
use crate::popups::confirm_popup::{answering, confirm_view, dirty_payload, ConfirmAction,
    ConfirmActionV, ConfirmPayload, ConfirmV, RecoveryAnswer, RecoveryRequiredDetails};
use crate::popups::oauth_popup::OauthNeeded;
use crate::popups::rewind_popup::RewindPreview;
use crate::rewind_action::{BudgetV, RewindState, RewindV};
use vstd::prelude::*;

verus! {

/// A popup.
#[derive(Debug, Clone, Copy, PartialEq, Eq, Structural)]
pub enum PopupKind {
    Hitl,
    AskUser,
    Rewind,
    OAuth,
    Confirm,
    Download,
    ModelQuickSwitch,
}

/// A tool that waits for the user to allow it.
#[derive(Debug)]
pub struct HitlPending {
    pub tool_name: String,
    pub tool_input: Json,
}

/// The request of a tool that waits for the user.
#[derive(Debug)]
pub struct PendingHitl {
    pub owner: InteractionOwner,
    pub request_id_json: String,
    pub payload: HitlPending,
}

/// The popup that is open, and what each popup is about.
#[derive(Debug)]
pub struct Popups {
    pub kind: Option<PopupKind>,
    pub hitl: Option<PendingHitl>,
    pub ask_user: Option<PendingInteraction>,
    pub oauth: Option<OauthNeeded>,
    pub rewind: RewindState,
    pub rewind_preview: Option<RewindPreview>,
    pub confirm: Option<ConfirmPayload>,
}

/// The popups, abstractly.
pub struct PopupsV {
    pub kind: Option<PopupKind>,
    pub hitl: Option<PendingHitl>,
    pub ask_user: Option<PendingInteraction>,
    pub oauth: Option<OauthNeeded>,
    pub rewind: RewindV,
    pub preview: Option<RewindPreview>,
    pub confirm: Option<ConfirmV>,
}

impl View for Popups {
    type V = PopupsV;

    open spec fn view(&self) -> PopupsV {
        PopupsV {
            kind: self.kind,
            hitl: self.hitl,
            ask_user: self.ask_user,
            oauth: self.oauth,
            rewind: self.rewind@,
            preview: self.rewind_preview,
            confirm: confirm_view(self.confirm),
        }
    }
}

impl Default for Popups {
    fn default() -> (p: Popups)
        ensures
            p@ == (PopupsV {
                kind: None,
                hitl: None,
                ask_user: None,
                oauth: None,
                rewind: RewindV {
                    target_text: None,
                    fingerprint: None,
                    budget: BudgetV::Idle,
                    error: None,
                    heartbeat: 0,
                },
                preview: None,
                confirm: None,
            }),
    {
        Popups {
            kind: None,
            hitl: None,
            ask_user: None,
            oauth: None,
            rewind: RewindState::default(),
            rewind_preview: None,
            confirm: None,
        }
    }
}

/// A risk waits for the user to accept it.
pub open spec fn is_dirty(c: Option<ConfirmV>) -> bool {
    c is Some && c->0.action is RecoverDirty
}

/// What whoever waits for the user is told when a question is taken back: that the risk is
/// not accepted.
pub open spec fn settled(c: Option<ConfirmV>) -> Option<RecoveryAnswer> {
    match c {
        Some(c) => match c.action {
            ConfirmActionV::RecoverDirty(r) => answering(r, false).1,
            _ => None,
        },
        None => None,
    }
}

/// The popups after a question about a risk was taken back.
pub open spec fn undirty(s: PopupsV) -> PopupsV {
    if is_dirty(s.confirm) {
        PopupsV { confirm: None, ..s }
    } else {
        s
    }
}

/// The popups after one was opened.
pub open spec fn shown(s: PopupsV, kind: PopupKind) -> PopupsV {
    PopupsV { kind: Some(kind), ..undirty(s) }
}

/// The popups after the open one was closed: what it was about is gone, but for the messages
/// that the user can go back to, which belong to the session.
pub open spec fn closed(s: PopupsV) -> PopupsV {
    let t = PopupsV { kind: None, ..undirty(s) };
    match s.kind {
        Some(PopupKind::Hitl) => PopupsV { hitl: None, ..t },
        Some(PopupKind::AskUser) => PopupsV { ask_user: None, ..t },
        Some(PopupKind::Rewind) => PopupsV { rewind: s.rewind.idle(), ..t },
        Some(PopupKind::OAuth) => PopupsV { oauth: None, ..t },
        Some(PopupKind::Confirm) => PopupsV { confirm: None, ..t },
        _ => t,
    }
}

/// The popups after a request of an owner has ended: only a request of this owner is taken
/// back, and with it the popup that asks.
pub open spec fn ended(s: PopupsV, owner: OwnerV) -> PopupsV {
    if !asked_by(s.ask_user, owner) {
        s
    } else if s.kind == Some(PopupKind::AskUser) {
        closed(s)
    } else {
        PopupsV { ask_user: None, ..s }
    }
}

impl Popups {
    /// Whether a popup is open.
    pub fn is_popup_active(&self) -> (b: bool)
        ensures
            b == (self@.kind is Some),
    {
        self.kind.is_some()
    }

    /// Takes a question about a risk back; gives whether there was one, and what whoever
    /// waits for the user is told.
    pub fn cancel_pending_dirty_recovery(&mut self) -> (r: (bool, Option<RecoveryAnswer>))
        ensures
            final(self)@ == undirty(old(self)@),
            r.0 == is_dirty(old(self)@.confirm),
            r.1 == settled(old(self)@.confirm),
    {
        match self.confirm.take() {
            Some(payload) => {
                let ConfirmPayload { title, message, details, pending_action } = payload;
                match pending_action {
                    ConfirmAction::RecoverDirty(mut r) => {
                        let a = r.answer(false);
                        (true, a)
                    },
                    other => {
                        self.confirm = Some(
                            ConfirmPayload { title, message, details, pending_action: other },
                        );
                        (false, None)
                    },
                }
            },
            None => (false, None),
        }
    }

    /// Opens a popup in place of any other.
    pub fn open_popup(&mut self, kind: PopupKind) -> (a: Option<RecoveryAnswer>)
        ensures
            final(self)@ == shown(old(self)@, kind),
            a == settled(old(self)@.confirm),
    {
        let (_, a) = self.cancel_pending_dirty_recovery();
        self.kind = Some(kind);
        a
    }

    /// Closes the popup; gives which it was.
    pub fn close_popup(&mut self) -> (r: (Option<PopupKind>, Option<RecoveryAnswer>))
        ensures
            final(self)@ == closed(old(self)@),
            r.0 == old(self)@.kind,
            r.1 == settled(old(self)@.confirm),
    {
        let (_, a) = self.cancel_pending_dirty_recovery();
        let kind = self.kind;
        self.kind = None;
        match kind {
            Some(PopupKind::Hitl) => {
                self.hitl = None;
            },
            Some(PopupKind::AskUser) => {
                self.ask_user = None;
            },
            Some(PopupKind::Rewind) => {
                self.rewind.clear();
            },
            Some(PopupKind::OAuth) => {
                self.oauth = None;
            },
            Some(PopupKind::Confirm) => {
                self.confirm = None;
            },
            _ => {},
        }
        (kind, a)
    }

    /// Ends a request of an owner.
    pub fn close_ask_user_popup_for_owner(&mut self, owner: &InteractionOwner) -> (a: Option<
        RecoveryAnswer,
    >)
        ensures
            final(self)@ == ended(old(self)@, owner@),
            a == (if asked_by(old(self)@.ask_user, owner@) && old(self)@.kind == Some(
                PopupKind::AskUser,
            ) {
                settled(old(self)@.confirm)
            } else {
                None
            }),
    {
        let mine = match &self.ask_user {
            Some(p) => p.owner.is(owner),
            None => false,
        };
        if !mine {
            return None;
        }
        match self.kind {
            Some(PopupKind::AskUser) => self.close_popup().1,
            _ => {
                self.ask_user = None;
                None
            },
        }
    }

    /// Asks the user about a risk; gives whether it could be asked, which it cannot while
    /// another popup or question is there.
    pub fn confirm_dirty_recovery(&mut self, ticket: u64, target: &RecoveryRequiredDetails) -> (b:
        bool)
        ensures
            b == (old(self)@.kind is None && old(self)@.confirm is None),
            b ==> final(self)@ == (PopupsV {
                kind: Some(PopupKind::Confirm),
                confirm: Some(dirty_payload(ticket, target@)),
                ..old(self)@
            }),
            !b ==> *final(self) == *old(self),
    {
        if self.kind.is_some() || self.confirm.is_some() {
            return false;
        }
        self.confirm = Some(ConfirmPayload::dirty(ticket, target));
        self.kind = Some(PopupKind::Confirm);
        true
    }

    /// Whoever waited for the user has gone: their question is taken back, and the popup
    /// that asks it is closed.
    pub fn withdraw_recovery(&mut self, ticket: u64)
        ensures
            final(self)@ == withdrawn(old(self)@, ticket),
    {
        let mine = match &self.confirm {
            Some(p) => match &p.pending_action {
                ConfirmAction::RecoverDirty(r) => r.ticket == ticket,
                _ => false,
            },
            None => false,
        };
        if mine {
            self.confirm = None;
            let asks = match self.kind {
                Some(k) => k == PopupKind::Confirm,
                None => false,
            };
            if asks {
                self.kind = None;
            }
        }
    }

    /// Asks whether a request is to be rejected.
    pub fn ask_reject(&mut self, owner: &InteractionOwner, request_id_json: &str) -> (a: Option<
        RecoveryAnswer,
    >)
        ensures
            final(self)@ == (PopupsV {
                kind: Some(PopupKind::Confirm),
                confirm: Some(
                    crate::popups::confirm_popup::reject_payload(owner@, request_id_json@),
                ),
                ..old(self)@
            }),
            a == settled(old(self)@.confirm),
    {
        let (_, a) = self.cancel_pending_dirty_recovery();
        self.confirm = Some(ConfirmPayload::reject(owner, request_id_json));
        self.kind = Some(PopupKind::Confirm);
        a
    }
}

/// The question about a risk of this ticket is there.
pub open spec fn asks_about(c: Option<ConfirmV>, ticket: u64) -> bool {
    c is Some && (c->0.action matches ConfirmActionV::RecoverDirty(r) && r.ticket == ticket)
}

/// The popups after whoever waited for the user has gone.
pub open spec fn withdrawn(s: PopupsV, ticket: u64) -> PopupsV {
    if !asks_about(s.confirm, ticket) {
        s
    } else if s.kind == Some(PopupKind::Confirm) {
        PopupsV { kind: None, confirm: None, ..s }
    } else {
        PopupsV { confirm: None, ..s }
    }
}

// ── Laws ───────────────────────────────────────────────────────────────────

/// A popup that is opened and closed again leaves none open, and nothing of what it was
/// about.
pub proof fn closing_leaves_nothing(s: PopupsV, kind: PopupKind)
    ensures
        closed(shown(s, kind)).kind is None,
        kind == PopupKind::Hitl ==> closed(shown(s, kind)).hitl is None,
        kind == PopupKind::AskUser ==> closed(shown(s, kind)).ask_user is None,
        kind == PopupKind::OAuth ==> closed(shown(s, kind)).oauth is None,
        kind == PopupKind::Rewind ==> closed(shown(s, kind)).rewind == s.rewind.idle(),
        kind == PopupKind::Confirm ==> closed(shown(s, kind)).confirm is None,
        closed(shown(s, kind)).preview == s.preview,
{
}

/// A question about a risk never outlives its popup: once another popup is opened or the
/// popup is closed, it is gone, and whoever waits is told that the risk is not accepted,
/// unless they were told before.
pub proof fn a_replaced_question_is_refused(s: PopupsV, kind: PopupKind)
    ensures
        !is_dirty(shown(s, kind).confirm),
        !is_dirty(closed(s).confirm),
        settled(s.confirm) matches Some(a) ==> !a.accepted,
        s.confirm matches Some(c) ==> (c.action matches ConfirmActionV::RecoverDirty(r) ==> (
        !r.answered ==> settled(s.confirm) == Some(
            RecoveryAnswer { ticket: r.ticket, accepted: false },
        ))),
{
}

/// What belongs to another owner is left as it is.
pub proof fn another_owner_is_left_alone(s: PopupsV, owner: OwnerV)
    requires
        s.ask_user is Some,
        s.ask_user->0.owner@ != owner,
    ensures
        ended(s, owner) == s,
{
}

} // verus!
