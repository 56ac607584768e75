//! The popups in which the user confirms something.
//!
//! Accepting a risk takes a popup of its own: the user has to choose it, and the popup has to
//! be on the screen as a whole.

use crate::doc::{blank, bold, fg, italic, lit, msg, words_view, Color, Doc, Line, Piece, PieceV, Style,
    Words, WordsV};
use crate::event::{Event, EventResult, KeyCode, MouseKind, Rect};
use crate::panel_registry::{asked_by, without_kind, OpenPanels, PanelKind};
use crate::panels::ask_user::types::{InteractionOwner, OwnerV, PendingInteraction};
use crate::popup_overlay::{closed, is_dirty, settled, Popups, PopupsV};
use crate::text::{cat, cat3, decimal, decimal_text, str_width, str_width_of, text_views};
use vstd::prelude::*;

verus! {

/// A line of the popup.
pub type LineV = Seq<PieceV>;

// ── Accepting a risk ───────────────────────────────────────────────────────

/// What is at risk: a thread at a generation.
#[derive(Debug)]
pub struct RecoveryRequiredDetails {
    pub thread_id: String,
    pub generation: u64,
}

/// What is at risk, abstractly.
pub struct TargetV {
    pub thread: Seq<char>,
    pub generation: u64,
}

impl View for RecoveryRequiredDetails {
    type V = TargetV;

    open spec fn view(&self) -> TargetV {
        TargetV { thread: self.thread_id@, generation: self.generation }
    }
}

/// A question about a risk. Whoever waits for the user is known by a ticket and is told
/// once.
#[derive(Debug)]
pub struct RecoveryConfirmation {
    pub ticket: u64,
    pub target: RecoveryRequiredDetails,
    pub answered: bool,
    pub displayed: bool,
}

/// A question about a risk, abstractly.
pub struct RecoveryV {
    pub ticket: u64,
    pub target: TargetV,
    pub answered: bool,
    pub displayed: bool,
}

impl View for RecoveryConfirmation {
    type V = RecoveryV;

    open spec fn view(&self) -> RecoveryV {
        RecoveryV {
            ticket: self.ticket,
            target: self.target@,
            answered: self.answered,
            displayed: self.displayed,
        }
    }
}

/// What whoever waits for the user is told.
#[derive(Debug, Clone, Copy, PartialEq, Eq, Structural)]
pub struct RecoveryAnswer {
    pub ticket: u64,
    pub accepted: bool,
}

/// What an answer leads to: the first one is told, and says that the risk is accepted only
/// where the question was on the screen.
pub open spec fn answering(r: RecoveryV, accepted: bool) -> (RecoveryV, Option<RecoveryAnswer>) {
    if r.answered {
        (r, None)
    } else {
        (
            RecoveryV { answered: true, ..r },
            Some(RecoveryAnswer { ticket: r.ticket, accepted: accepted && r.displayed }),
        )
    }
}

/// A question that was drawn, or not.
pub open spec fn drawn(r: RecoveryV, visible: bool) -> (RecoveryV, Option<RecoveryAnswer>) {
    let s = RecoveryV { displayed: visible, ..r };
    if visible {
        (s, None)
    } else {
        answering(s, false)
    }
}

impl RecoveryConfirmation {
    /// A question that is not on the screen yet.
    pub fn new(ticket: u64, target: RecoveryRequiredDetails) -> (r: RecoveryConfirmation)
        ensures
            r@ == (RecoveryV { ticket, target: target@, answered: false, displayed: false }),
    {
        RecoveryConfirmation { ticket, target, answered: false, displayed: false }
    }

    /// Answers the question.
    pub fn answer(&mut self, accepted: bool) -> (a: Option<RecoveryAnswer>)
        ensures
            (final(self)@, a) == answering(old(self)@, accepted),
    {
        if self.answered {
            None
        } else {
            self.answered = true;
            Some(RecoveryAnswer { ticket: self.ticket, accepted: accepted && self.displayed })
        }
    }
}

/// Where a question about a risk has to fit, and where it was drawn.
#[derive(Debug, Clone, Copy, PartialEq, Eq, Structural)]
pub struct RecoveryDisplay {
    pub width: u16,
    pub height: u16,
    pub area: Option<Rect>,
}

/// The rows that the question takes, with its borders.
pub const RECOVERY_HEIGHT: u16 = 11;

impl RecoveryDisplay {
    /// The question fits.
    pub open spec fn fits(self, area: Rect) -> bool {
        area.width >= self.width && area.height >= self.height
    }

    /// Takes note of where the question is drawn. One that does not fit is answered at once:
    /// the risk is not accepted.
    pub fn record_area(&mut self, owner: &mut RecoveryConfirmation, area: Rect) -> (a: Option<
        RecoveryAnswer,
    >)
        ensures
            *final(self) == (RecoveryDisplay {
                area: if old(self).fits(area) {
                    Some(area)
                } else {
                    None
                },
                ..*old(self)
            }),
            (final(owner)@, a) == drawn(old(owner)@, old(self).fits(area)),
    {
        let visible = area.width >= self.width && area.height >= self.height;
        self.area = if visible {
            Some(area)
        } else {
            None
        };
        owner.displayed = visible;
        if visible {
            None
        } else {
            owner.answer(false)
        }
    }
}

/// The choice that an input makes, if it makes one, and the choice that is selected after
/// it.
pub open spec fn choosing(event: Event, selected: bool, area: Option<Rect>) -> (bool, Option<bool>) {
    match event {
        Event::Key(key) => if key.press && key.mods.none() {
            match key.code {
                KeyCode::Esc => (selected, Some(false)),
                KeyCode::Up | KeyCode::Down | KeyCode::Tab => (!selected, None),
                KeyCode::Enter => (selected, Some(selected)),
                _ => (selected, None),
            }
        } else {
            (selected, None)
        },
        Event::Mouse(m) => (
            selected,
            if m.kind == MouseKind::LeftDown && area is Some && area->0.holds(m.row, m.column) {
                if m.row - area->0.y == 8 {
                    Some(false)
                } else if m.row - area->0.y == 9 {
                    Some(true)
                } else {
                    None
                }
            } else {
                None
            },
        ),
        _ => (selected, None),
    }
}

/// The choice that an input makes, if it makes one.
pub fn recovery_choice(event: &Event, selected: &mut bool, area: Option<Rect>) -> (r: Option<bool>)
    ensures
        (*final(selected), r) == choosing(*event, *old(selected), area),
{
    match event {
        Event::Key(key) => {
            if !key.press || !key.mods.is_none() {
                return None;
            }
            match key.code {
                KeyCode::Esc => Some(false),
                KeyCode::Up | KeyCode::Down | KeyCode::Tab => {
                    *selected = !*selected;
                    None
                },
                KeyCode::Enter => Some(*selected),
                _ => None,
            }
        },
        Event::Mouse(m) => {
            if m.kind != MouseKind::LeftDown {
                return None;
            }
            match area {
                Some(a) => {
                    if !a.contains(m.row, m.column) {
                        return None;
                    }
                    let row: u16 = m.row - a.y;
                    if row == 8 {
                        Some(false)
                    } else if row == 9 {
                        Some(true)
                    } else {
                        None
                    }
                },
                None => None,
            }
        },
        _ => None,
    }
}

/// The texts of the question, in the language of the user.
#[derive(Debug)]
pub struct RecoveryLabels {
    pub title: String,
    pub risk: String,
    pub unknown: String,
    pub responsibility: String,
    pub hint: String,
    pub cancel: String,
    pub accept: String,
}

/// A choice, with a mark where it is selected.
pub open spec fn choice_text(selected: bool, label: Seq<char>) -> Seq<char> {
    (if selected {
        ">"@
    } else {
        " "@
    }) + " "@ + label
}

/// The lines of the question.
pub open spec fn question_texts(l: RecoveryLabels, t: TargetV, selected: bool) -> Seq<Seq<char>> {
    seq![
        l.title@,
        l.risk@,
        l.unknown@,
        l.responsibility@,
        t.thread,
        "generation "@ + decimal(t.generation as nat),
        l.hint@,
        choice_text(!selected, l.cancel@),
        choice_text(selected, l.accept@),
    ]
}

fn choice(selected: bool, label: &str) -> (s: String)
    ensures
        s@ == choice_text(selected, label@),
{
    cat3(
        if selected {
            ">"
        } else {
            " "
        },
        " ",
        label,
    )
}

/// The largest width of the first texts.
pub open spec fn widest(texts: Seq<Seq<char>>, to: int) -> usize
    decreases to,
{
    if to <= 0 {
        0
    } else if str_width_of(texts[to - 1]) > widest(texts, to - 1) {
        str_width_of(texts[to - 1])
    } else {
        widest(texts, to - 1)
    }
}

/// The width that lines need, with a column on either side.
pub open spec fn needed_width(texts: Seq<Seq<char>>) -> int {
    if widest(texts, texts.len() as int) + 2 > u16::MAX {
        u16::MAX as int
    } else {
        widest(texts, texts.len() as int) + 2
    }
}

/// The width that lines need, with a column on either side.
pub fn recovery_width(texts: &Vec<String>) -> (w: u16)
    ensures
        w == needed_width(text_views(texts@)),
{
    let ghost all = text_views(texts@);
    let mut most: usize = 0;
    let mut i: usize = 0;
    while i < texts.len()
        invariant
            i <= texts@.len(),
            all == text_views(texts@),
            most == widest(all, i as int),
        decreases texts.len() - i,
    {
        assert(all[i as int] == texts@[i as int]@);
        let w: usize = str_width(texts[i].as_str());
        if w > most {
            most = w;
        }
        i = i + 1;
    }
    if most > 0xfffd {
        0xffff
    } else {
        (most + 2) as u16
    }
}

/// The popup that asks about a risk. Not to accept it is selected first.
#[derive(Debug, Clone, Copy, PartialEq, Eq, Structural)]
pub struct DirtyRecoveryPopup {
    pub selected: bool,
}

impl Default for DirtyRecoveryPopup {
    fn default() -> (p: DirtyRecoveryPopup)
        ensures
            p == (DirtyRecoveryPopup { selected: false }),
    {
        DirtyRecoveryPopup { selected: false }
    }
}

impl DirtyRecoveryPopup {
    /// The lines of the question.
    pub fn texts(&self, labels: &RecoveryLabels, target: &RecoveryRequiredDetails) -> (v: Vec<
        String,
    >)
        ensures
            text_views(v@) == question_texts(*labels, target@, self.selected),
    {
        let mut v: Vec<String> = Vec::new();
        v.push(labels.title.clone());
        v.push(labels.risk.clone());
        v.push(labels.unknown.clone());
        v.push(labels.responsibility.clone());
        v.push(target.thread_id.clone());
        v.push(cat("generation ", decimal_text(target.generation).as_str()));
        v.push(labels.hint.clone());
        v.push(choice(!self.selected, labels.cancel.as_str()));
        v.push(choice(self.selected, labels.accept.as_str()));
        assert(text_views(v@) =~= question_texts(*labels, target@, self.selected));
        v
    }

    /// Deals with an input: nothing gets past the question. A choice is told, and closes
    /// the popup.
    pub fn handle_event(&mut self, event: &Event, popups: &mut Popups, area: Option<Rect>) -> (r: (
        EventResult,
        Option<RecoveryAnswer>,
    ))
        ensures
            (*final(self), final(popups)@, r.0, r.1) == risk_step(
                *old(self),
                old(popups)@,
                *event,
                area,
            ),
    {
        let mut selected = self.selected;
        let choice = recovery_choice(event, &mut selected, area);
        self.selected = selected;
        match choice {
            Some(accepted) => {
                let a = popups.answer_recovery(accepted);
                popups.close_popup();
                (EventResult::Consumed, a)
            },
            None => (EventResult::Consumed, None),
        }
    }
}

/// The popups after an answer to a question about a risk, and what is told.
pub open spec fn told(s: PopupsV, accepted: bool) -> (PopupsV, Option<RecoveryAnswer>) {
    match s.confirm {
        Some(c) => match c.action {
            ConfirmActionV::RecoverDirty(r) => {
                let (t, a) = answering(r, accepted);
                (
                    PopupsV {
                        confirm: Some(
                            ConfirmV { action: ConfirmActionV::RecoverDirty(t), ..c },
                        ),
                        ..s
                    },
                    a,
                )
            },
            _ => (s, None),
        },
        None => (s, None),
    }
}

/// The popups after a question about a risk was drawn, and what is told.
pub open spec fn told_drawn(s: PopupsV, visible: bool) -> (PopupsV, Option<RecoveryAnswer>) {
    match s.confirm {
        Some(c) => match c.action {
            ConfirmActionV::RecoverDirty(r) => {
                let (t, a) = drawn(r, visible);
                (
                    PopupsV {
                        confirm: Some(
                            ConfirmV { action: ConfirmActionV::RecoverDirty(t), ..c },
                        ),
                        ..s
                    },
                    a,
                )
            },
            _ => (s, None),
        },
        None => (s, None),
    }
}

/// What an input does while the popup asks about a risk.
pub open spec fn risk_step(
    p: DirtyRecoveryPopup,
    s: PopupsV,
    event: Event,
    area: Option<Rect>,
) -> (DirtyRecoveryPopup, PopupsV, EventResult, Option<RecoveryAnswer>) {
    let (selected, choice) = choosing(event, p.selected, area);
    match choice {
        Some(accepted) => (
            DirtyRecoveryPopup { selected },
            closed(told(s, accepted).0),
            EventResult::Consumed,
            told(s, accepted).1,
        ),
        None => (DirtyRecoveryPopup { selected }, s, EventResult::Consumed, None),
    }
}

impl Popups {
    /// Answers a question about a risk, if there is one.
    pub fn answer_recovery(&mut self, accepted: bool) -> (a: Option<RecoveryAnswer>)
        ensures
            (final(self)@, a) == told(old(self)@, accepted),
    {
        match self.confirm.take() {
            Some(payload) => {
                let ConfirmPayload { title, message, details, pending_action } = payload;
                match pending_action {
                    ConfirmAction::RecoverDirty(mut r) => {
                        let a = r.answer(accepted);
                        self.confirm = Some(
                            ConfirmPayload {
                                title,
                                message,
                                details,
                                pending_action: ConfirmAction::RecoverDirty(r),
                            },
                        );
                        a
                    },
                    other => {
                        self.confirm = Some(
                            ConfirmPayload { title, message, details, pending_action: other },
                        );
                        None
                    },
                }
            },
            None => None,
        }
    }

    /// Takes note of where a question about a risk is drawn.
    pub fn recovery_drawn(&mut self, display: &mut RecoveryDisplay, area: Rect) -> (a: Option<
        RecoveryAnswer,
    >)
        ensures
            (final(self)@, a) == told_drawn(old(self)@, old(display).fits(area)),
            is_dirty(old(self)@.confirm) ==> *final(display) == (RecoveryDisplay {
                area: if old(display).fits(area) {
                    Some(area)
                } else {
                    None
                },
                ..*old(display)
            }),
            !is_dirty(old(self)@.confirm) ==> *final(display) == *old(display),
    {
        match self.confirm.take() {
            Some(payload) => {
                let ConfirmPayload { title, message, details, pending_action } = payload;
                match pending_action {
                    ConfirmAction::RecoverDirty(mut r) => {
                        let a = display.record_area(&mut r, area);
                        self.confirm = Some(
                            ConfirmPayload {
                                title,
                                message,
                                details,
                                pending_action: ConfirmAction::RecoverDirty(r),
                            },
                        );
                        a
                    },
                    other => {
                        self.confirm = Some(
                            ConfirmPayload { title, message, details, pending_action: other },
                        );
                        None
                    },
                }
            },
            None => None,
        }
    }
}

// ── Confirming anything else ───────────────────────────────────────────────

/// What is to be confirmed: a risk, a change of thread, or the rejection of a request.
#[derive(Debug)]
pub enum ConfirmAction {
    RecoverDirty(RecoveryConfirmation),
    ThreadSwitch(String),
    RejectAskUser { owner: InteractionOwner, request_id_json: String },
}

/// What is to be confirmed, abstractly.
pub enum ConfirmActionV {
    RecoverDirty(RecoveryV),
    ThreadSwitch(Seq<char>),
    RejectAskUser(OwnerV, Seq<char>),
}

impl View for ConfirmAction {
    type V = ConfirmActionV;

    open spec fn view(&self) -> ConfirmActionV {
        match *self {
            ConfirmAction::RecoverDirty(r) => ConfirmActionV::RecoverDirty(r@),
            ConfirmAction::ThreadSwitch(id) => ConfirmActionV::ThreadSwitch(id@),
            ConfirmAction::RejectAskUser { owner, request_id_json } => {
                ConfirmActionV::RejectAskUser(owner@, request_id_json@)
            },
        }
    }
}

/// A question to the user, and what it is about.
#[derive(Debug)]
pub struct ConfirmPayload {
    pub title: Words,
    pub message: Words,
    pub details: Vec<Words>,
    pub pending_action: ConfirmAction,
}

/// A question to the user, abstractly.
pub struct ConfirmV {
    pub title: WordsV,
    pub message: WordsV,
    pub details: Seq<WordsV>,
    pub action: ConfirmActionV,
}

impl View for ConfirmPayload {
    type V = ConfirmV;

    open spec fn view(&self) -> ConfirmV {
        ConfirmV {
            title: words_view(self.title),
            message: words_view(self.message),
            details: self.details@.map_values(|w: Words| words_view(w)),
            action: self.pending_action@,
        }
    }
}

/// The question, if there is one.
pub open spec fn confirm_view(c: Option<ConfirmPayload>) -> Option<ConfirmV> {
    match c {
        Some(c) => Some(c@),
        None => None,
    }
}

/// The words of a message without values.
pub open spec fn plain(key: Seq<char>) -> WordsV {
    WordsV::Message(key, Seq::empty())
}

/// A question about a risk that was not put yet.
pub open spec fn dirty_payload(ticket: u64, target: TargetV) -> ConfirmV {
    ConfirmV {
        title: plain("dirty-recovery-title"@),
        message: plain("dirty-recovery-risk"@),
        details: seq![
            plain("dirty-recovery-responsibility"@),
            WordsV::Literal(
                target.thread + " / generation "@ + decimal(target.generation as nat),
            ),
        ],
        action: ConfirmActionV::RecoverDirty(
            RecoveryV { ticket, target, answered: false, displayed: false },
        ),
    }
}

/// The question whether a request is to be rejected.
pub open spec fn reject_payload(owner: OwnerV, request: Seq<char>) -> ConfirmV {
    ConfirmV {
        title: plain("popup-confirm-reject-title"@),
        message: plain("popup-confirm-reject-message"@),
        details: Seq::empty(),
        action: ConfirmActionV::RejectAskUser(owner, request),
    }
}

fn plain_words(key: &str) -> (w: Words)
    ensures
        words_view(w) == plain(key@),
{
    let w = Words::Message { key: key.to_owned(), args: Vec::new() };
    assert(words_view(w)->Message_1 =~= Seq::empty());
    w
}

impl ConfirmPayload {
    /// A question about a risk.
    pub fn dirty(ticket: u64, target: &RecoveryRequiredDetails) -> (p: ConfirmPayload)
        ensures
            p@ == dirty_payload(ticket, target@),
    {
        let place = cat3(
            target.thread_id.as_str(),
            " / generation ",
            decimal_text(target.generation).as_str(),
        );
        let mut details: Vec<Words> = Vec::new();
        details.push(plain_words("dirty-recovery-responsibility"));
        details.push(Words::Literal(place));
        let copy = RecoveryRequiredDetails {
            thread_id: target.thread_id.clone(),
            generation: target.generation,
        };
        let p = ConfirmPayload {
            title: plain_words("dirty-recovery-title"),
            message: plain_words("dirty-recovery-risk"),
            details,
            pending_action: ConfirmAction::RecoverDirty(RecoveryConfirmation::new(ticket, copy)),
        };
        assert(p@.details =~= dirty_payload(ticket, target@).details);
        p
    }

    /// The question whether a request is to be rejected.
    pub fn reject(owner: &InteractionOwner, request_id_json: &str) -> (p: ConfirmPayload)
        ensures
            p@ == reject_payload(owner@, request_id_json@),
    {
        let p = ConfirmPayload {
            title: plain_words("popup-confirm-reject-title"),
            message: plain_words("popup-confirm-reject-message"),
            details: Vec::new(),
            pending_action: ConfirmAction::RejectAskUser {
                owner: owner.copy(),
                request_id_json: request_id_json.to_owned(),
            },
        };
        assert(p@.details =~= Seq::empty());
        p
    }
}

/// What the program around the popup has to do.
#[derive(Debug)]
pub enum ConfirmEffect {
    Nothing,
    Tell(RecoveryAnswer),
    LoadThread(String),
    Reject { owner: InteractionOwner, request_id: String },
}

/// What the program has to do, abstractly.
pub enum ConfirmEffectV {
    Nothing,
    Tell(RecoveryAnswer),
    LoadThread(Seq<char>),
    Reject(OwnerV, Seq<char>),
}

impl View for ConfirmEffect {
    type V = ConfirmEffectV;

    open spec fn view(&self) -> ConfirmEffectV {
        match *self {
            ConfirmEffect::Nothing => ConfirmEffectV::Nothing,
            ConfirmEffect::Tell(a) => ConfirmEffectV::Tell(a),
            ConfirmEffect::LoadThread(id) => ConfirmEffectV::LoadThread(id@),
            ConfirmEffect::Reject { owner, request_id } => ConfirmEffectV::Reject(
                owner@,
                request_id@,
            ),
        }
    }
}

/// Something that is told, if it is.
pub open spec fn telling(a: Option<RecoveryAnswer>) -> ConfirmEffectV {
    match a {
        Some(a) => ConfirmEffectV::Tell(a),
        None => ConfirmEffectV::Nothing,
    }
}

/// The request that waits and the open panels after something was confirmed, and what has to
/// be done. A risk is never accepted this way.
pub open spec fn executed(
    action: ConfirmActionV,
    pending: Option<PendingInteraction>,
    panels: Seq<PanelKind>,
) -> (Option<PendingInteraction>, Seq<PanelKind>, ConfirmEffectV) {
    match action {
        ConfirmActionV::RecoverDirty(r) => (pending, panels, telling(answering(r, false).1)),
        ConfirmActionV::ThreadSwitch(id) => (pending, panels, ConfirmEffectV::LoadThread(id)),
        ConfirmActionV::RejectAskUser(owner, request) => if asked_by(pending, owner) {
            (
                None,
                without_kind(panels, PanelKind::AskUser),
                ConfirmEffectV::Reject(owner, request),
            )
        } else {
            (pending, panels, ConfirmEffectV::Reject(owner, request))
        },
    }
}

fn tell(a: Option<RecoveryAnswer>) -> (e: ConfirmEffect)
    ensures
        e@ == telling(a),
{
    match a {
        Some(a) => ConfirmEffect::Tell(a),
        None => ConfirmEffect::Nothing,
    }
}

/// Does what was confirmed.
pub fn execute_confirm_action(
    action: ConfirmAction,
    pending: &mut Option<PendingInteraction>,
    panels: &mut OpenPanels,
) -> (e: ConfirmEffect)
    ensures
        (*final(pending), final(panels)@, e@) == executed(action@, *old(pending), old(panels)@),
{
    match action {
        ConfirmAction::RecoverDirty(mut r) => {
            let a = r.answer(false);
            tell(a)
        },
        ConfirmAction::ThreadSwitch(id) => ConfirmEffect::LoadThread(id),
        ConfirmAction::RejectAskUser { owner, request_id_json } => {
            panels.close_ask_user_panel_for_owner(pending, &owner);
            ConfirmEffect::Reject { owner, request_id: request_id_json }
        },
    }
}

/// The popups and panels after the question was confirmed: what it is about is done, the
/// question is gone, and the popup is closed.
pub open spec fn confirmed(s: PopupsV, panels: Seq<PanelKind>) -> (
    PopupsV,
    Seq<PanelKind>,
    ConfirmEffectV,
) {
    match s.confirm {
        Some(c) => {
            let (pending, ps, e) = executed(c.action, s.ask_user, panels);
            (closed(PopupsV { ask_user: pending, confirm: None, ..s }), ps, e)
        },
        None => (closed(s), panels, ConfirmEffectV::Nothing),
    }
}

/// The popups after the user has turned away from the question: it is gone, and whoever
/// waits for an answer is told that the risk is not accepted.
pub open spec fn declined(s: PopupsV) -> (PopupsV, ConfirmEffectV) {
    (closed(PopupsV { confirm: None, ..s }), telling(settled(s.confirm)))
}

/// What an input does: a click or Enter confirms, Escape turns away.
pub open spec fn confirm_step(
    s: PopupsV,
    panels: Seq<PanelKind>,
    event: Event,
    area: Option<Rect>,
) -> (PopupsV, Seq<PanelKind>, EventResult, ConfirmEffectV) {
    let confirms = match event {
        Event::Mouse(m) => area is Some && m.kind == MouseKind::LeftDown,
        Event::Key(key) => key.press && key.mods.none() && key.code == KeyCode::Enter,
        _ => false,
    };
    let turns_away = match event {
        Event::Key(key) => key.press && key.mods.none() && key.code == KeyCode::Esc,
        _ => false,
    };
    if confirms {
        let (t, ps, e) = confirmed(s, panels);
        (t, ps, EventResult::Consumed, e)
    } else if turns_away {
        let (t, e) = declined(s);
        (t, panels, EventResult::Consumed, e)
    } else {
        (s, panels, EventResult::Ignored, ConfirmEffectV::Nothing)
    }
}

/// The popup that asks the user to confirm something.
#[derive(Debug, Clone, Copy, PartialEq, Eq, Structural)]
pub struct ConfirmPopup {}

impl ConfirmPopup {
    fn confirm(&self, popups: &mut Popups, panels: &mut OpenPanels) -> (e: ConfirmEffect)
        ensures
            (final(popups)@, final(panels)@, e@) == confirmed(old(popups)@, old(panels)@),
    {
        match popups.confirm.take() {
            Some(payload) => {
                let e = execute_confirm_action(
                    payload.pending_action,
                    &mut popups.ask_user,
                    panels,
                );
                popups.close_popup();
                e
            },
            None => {
                popups.close_popup();
                ConfirmEffect::Nothing
            },
        }
    }

    /// Deals with an input.
    pub fn handle_event(
        &self,
        event: &Event,
        popups: &mut Popups,
        panels: &mut OpenPanels,
        area: Option<Rect>,
    ) -> (r: (EventResult, ConfirmEffect))
        ensures
            (final(popups)@, final(panels)@, r.0, r.1@) == confirm_step(
                old(popups)@,
                old(panels)@,
                *event,
                area,
            ),
    {
        match event {
            Event::Mouse(m) => {
                if area.is_some() && m.kind == MouseKind::LeftDown {
                    return (EventResult::Consumed, self.confirm(popups, panels));
                }
                (EventResult::Ignored, ConfirmEffect::Nothing)
            },
            Event::Key(key) => {
                if !key.press || !key.mods.is_none() {
                    return (EventResult::Ignored, ConfirmEffect::Nothing);
                }
                match key.code {
                    KeyCode::Enter => (EventResult::Consumed, self.confirm(popups, panels)),
                    KeyCode::Esc => {
                        let (_, a) = popups.cancel_pending_dirty_recovery();
                        popups.confirm = None;
                        popups.close_popup();
                        (EventResult::Consumed, tell(a))
                    },
                    _ => (EventResult::Ignored, ConfirmEffect::Nothing),
                }
            },
            _ => (EventResult::Ignored, ConfirmEffect::Nothing),
        }
    }

    /// What the popup shows.
    pub fn lines(&self, payload: Option<&ConfirmPayload>) -> (d: Doc)
        ensures
            d@ == confirm_lines(
                match payload {
                    Some(p) => Some(p@),
                    None => None,
                },
            ),
    {
        let mut d = Doc::new();
        d.blank();
        match payload {
            None => {
                d.line(Piece::msg("popup-confirm-empty", Style::italic(Color::Muted)));
                d.blank();
                d.line(Piece::msg("common-esc-close", Style::fg(Color::Dim)));
                assert(d@ =~= confirm_lines(None));
            },
            Some(p) => {
                let ghost all = p@.details;
                let bold = Style::bold(Color::PopupAction);
                d.push(
                    Line::of2(
                        Piece::lit("  ", bold),
                        Piece { words: p.title.copy(), style: bold },
                    ),
                );
                d.blank();
                d.line(Piece { words: p.message.copy(), style: Style::fg(Color::Primary) });
                let ghost head = d@;
                let mut i: usize = 0;
                assert(head =~= head + detail_lines(all, 0));
                while i < p.details.len()
                    invariant
                        i <= p.details@.len(),
                        all == p.details@.map_values(|w: Words| words_view(w)),
                        d@ == head + detail_lines(all, i as int),
                    decreases p.details@.len() - i,
                {
                    d.line(Piece { words: p.details[i].copy(), style: Style::fg(Color::Muted) });
                    i = i + 1;
                    assert(d@ =~= head + detail_lines(all, i as int));
                }
                d.blank();
                d.line(Piece::msg("popup-confirm-action-hint", Style::fg(Color::Dim)));
                assert(d@ =~= confirm_lines(Some(p@)));
            },
        }
        d
    }
}

/// The lines of the first details.
pub open spec fn detail_lines(details: Seq<WordsV>, to: int) -> Seq<LineV>
    decreases to,
{
    if to <= 0 {
        Seq::empty()
    } else {
        detail_lines(details, to - 1).push(
            seq![PieceV { words: details[to - 1], style: fg(Color::Muted) }],
        )
    }
}

/// What the popup shows.
pub open spec fn confirm_lines(c: Option<ConfirmV>) -> Seq<LineV> {
    match c {
        None => seq![
            blank(),
            seq![msg("popup-confirm-empty"@, italic(Color::Muted))],
            blank(),
            seq![msg("common-esc-close"@, fg(Color::Dim))],
        ],
        Some(c) => seq![
            blank(),
            seq![
                lit("  "@, bold(Color::PopupAction)),
                PieceV { words: c.title, style: bold(Color::PopupAction) },
            ],
            blank(),
            seq![PieceV { words: c.message, style: fg(Color::Primary) }],
        ] + detail_lines(c.details, c.details.len() as int) + seq![
            blank(),
            seq![msg("popup-confirm-action-hint"@, fg(Color::Dim))],
        ],
    }
}

// ── Laws ───────────────────────────────────────────────────────────────────

/// A risk is accepted only where the question was on the screen and the user chose to
/// accept.
pub proof fn a_risk_is_accepted_knowingly(
    p: DirtyRecoveryPopup,
    s: PopupsV,
    event: Event,
    area: Option<Rect>,
)
    ensures
        risk_step(p, s, event, area).3 matches Some(a) ==> (a.accepted ==> {
            &&& s.confirm is Some
            &&& s.confirm->0.action is RecoverDirty
            &&& s.confirm->0.action->RecoverDirty_0.displayed
            &&& s.confirm->0.action->RecoverDirty_0.ticket == a.ticket
            &&& choosing(event, p.selected, area).1 == Some(true)
        }),
{
}

/// Enter and Escape do not accept the risk unless the user has moved to that choice before.
pub proof fn not_to_accept_is_the_default(event: Event, area: Option<Rect>)
    ensures
        event is Key ==> choosing(event, false, area).1 != Some(true),
        area is None && event is Mouse ==> choosing(event, false, area).1 is None,
{
}

/// A question is answered once.
pub proof fn an_answer_is_told_once(r: RecoveryV, first: bool, second: bool)
    ensures
        answering(answering(r, first).0, second).1 is None,
{
}

/// Confirming anything never accepts a risk, and neither does turning away.
pub proof fn confirming_accepts_no_risk(
    s: PopupsV,
    panels: Seq<PanelKind>,
    event: Event,
    area: Option<Rect>,
)
    ensures
        confirm_step(s, panels, event, area).3 matches ConfirmEffectV::Tell(a) ==> !a.accepted,
{
}

/// A question that does not fit on the screen is answered at once, and not accepted.
pub proof fn a_hidden_question_is_refused(s: PopupsV)
    ensures
        told_drawn(s, false).1 matches Some(a) ==> !a.accepted,
        s.confirm matches Some(c) ==> (c.action matches ConfirmActionV::RecoverDirty(r) ==> (
        !r.answered ==> told_drawn(s, false).1 is Some)),
        told(told_drawn(s, false).0, true).1 is None,
{
}

/// The two choices are clicked in the rows in which they are shown, below the border.
pub proof fn choices_are_clicked_where_shown(
    l: RecoveryLabels,
    t: TargetV,
    selected: bool,
    area: Rect,
    m: crate::event::MouseEvent,
)
    requires
        area.holds(m.row, m.column),
        m.kind == MouseKind::LeftDown,
    ensures
        question_texts(l, t, selected).len() + 2 == RECOVERY_HEIGHT,
        choosing(Event::Mouse(m), selected, Some(area)).1 == Some(false) <==> m.row - area.y - 1
            == 7,
        choosing(Event::Mouse(m), selected, Some(area)).1 == Some(true) <==> m.row - area.y - 1
            == 8,
        question_texts(l, t, selected)[7] == choice_text(!selected, l.cancel@),
        question_texts(l, t, selected)[8] == choice_text(selected, l.accept@),
{
}

/// Rejecting a request closes nothing that belongs to another.
pub proof fn rejecting_leaves_others_alone(
    owner: OwnerV,
    request: Seq<char>,
    pending: Option<PendingInteraction>,
    panels: Seq<PanelKind>,
)
    requires
        !asked_by(pending, owner),
    ensures
        executed(ConfirmActionV::RejectAskUser(owner, request), pending, panels) == (
            pending,
            panels,
            ConfirmEffectV::Reject(owner, request),
        ),
{
}

} // verus!
