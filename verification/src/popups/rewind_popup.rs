//! The popup in which the user goes back in the session.

use crate::doc::{blank, bold, fg, italic, lit, msg, msg_num, msg_text, Color, Doc, Line, Piece, PieceV,
    Style};
use crate::event::{Event, EventResult, MouseKind, Rect};
use crate::list_nav::{classify_list_nav, nav_of, next_sel, next_selection, prev_sel,
    previous_selection, ListNavAction};
use crate::panel_mouse::{hit, hit_item, ListLayout};
use crate::rewind_action::{changes_view, ActionV, BudgetV, ChangeV, RewindAction,
    RewindBudgetState, RewindFileChange, RewindState, RewindV};
use crate::text::{cat, cat4, clip, clip_spec, opt_view, same};
use vstd::prelude::*;

verus! {

/// A line of the popup.
pub type LineV = Seq<PieceV>;

/// A message that the user can go back to.
#[derive(Debug)]
pub struct RewindMessage {
    pub id: String,
    pub role: String,
    pub preview: String,
}

/// A message that the user can go back to, abstractly.
pub struct MessageV {
    pub id: Seq<char>,
    pub role: Seq<char>,
    pub preview: Seq<char>,
}

impl View for RewindMessage {
    type V = MessageV;

    open spec fn view(&self) -> MessageV {
        MessageV { id: self.id@, role: self.role@, preview: self.preview@ }
    }
}

/// What the user can go back to.
#[derive(Debug)]
pub struct RewindPreview {
    pub files: Vec<RewindFileChange>,
    pub messages: Vec<RewindMessage>,
}

/// The messages of a list.
pub open spec fn messages_view(v: Seq<RewindMessage>) -> Seq<MessageV> {
    v.map_values(|m: RewindMessage| m@)
}

/// The messages that the user can go back to, nothing while they are not known.
pub open spec fn candidates(p: Option<RewindPreview>) -> Option<Seq<MessageV>> {
    match p {
        Some(p) => Some(messages_view(p.messages@)),
        None => None,
    }
}

/// The messages that the user can go back to, as far as they are known.
pub open spec fn known(ms: Option<Seq<MessageV>>) -> Seq<MessageV> {
    match ms {
        Some(ms) => ms,
        None => Seq::empty(),
    }
}

/// What the popup shows.
#[derive(Debug, Clone, Copy, PartialEq, Eq, Structural)]
pub enum RewindView {
    Candidates,
    Budget,
    Executing,
}

/// What the popup shows, by how far going back has come.
pub open spec fn view_of(b: BudgetV) -> RewindView {
    match b {
        BudgetV::Files(_) => RewindView::Budget,
        BudgetV::Executing => RewindView::Executing,
        BudgetV::Idle => RewindView::Candidates,
    }
}

/// What the popup shows, by how far going back has come.
pub fn rewind_view(budget: &RewindBudgetState) -> (v: RewindView)
    ensures
        v == view_of(budget@),
{
    match budget {
        RewindBudgetState::Files(_) => RewindView::Budget,
        RewindBudgetState::Executing => RewindView::Executing,
        RewindBudgetState::Idle => RewindView::Candidates,
    }
}

/// The number of messages on the screen.
pub const VISIBLE_ITEMS: usize = 8;

/// The number of messages on the screen, of a number of messages.
pub open spec fn rendered(count: int) -> int {
    if count < VISIBLE_ITEMS {
        count
    } else {
        VISIBLE_ITEMS as int
    }
}

/// The popup: the message selected and the file selected.
#[derive(Debug, Clone, Copy, PartialEq, Eq, Structural)]
pub struct RewindPopup {
    pub msg_sel: usize,
    pub file_sel: usize,
}

impl Default for RewindPopup {
    fn default() -> (p: RewindPopup)
        ensures
            p == (RewindPopup { msg_sel: 0, file_sel: 0 }),
    {
        RewindPopup { msg_sel: 0, file_sel: 0 }
    }
}

/// What the program around the popup has to do.
#[derive(Debug)]
pub enum RewindEffect {
    Nothing,
    Close,
    Send(RewindAction),
}

/// What the program has to do, abstractly.
pub enum RewindEffectV {
    Nothing,
    Close,
    Send(ActionV),
}

impl View for RewindEffect {
    type V = RewindEffectV;

    open spec fn view(&self) -> RewindEffectV {
        match *self {
            RewindEffect::Nothing => RewindEffectV::Nothing,
            RewindEffect::Close => RewindEffectV::Close,
            RewindEffect::Send(a) => RewindEffectV::Send(a@),
        }
    }
}

/// Asking what going back to a message would undo.
pub open spec fn asking(ms: Seq<MessageV>, i: int) -> Option<ActionV> {
    if 0 <= i < ms.len() {
        Some(ActionV::Preview(ms[i].id, ms[i].preview))
    } else {
        None
    }
}

/// Asking what going back to a message would undo.
pub fn preview_action(preview: &Option<RewindPreview>, msg_sel: usize) -> (r: Option<RewindAction>)
    ensures
        (match r {
            Some(a) => Some(a@),
            None => None,
        }) == asking(known(candidates(*preview)), msg_sel as int),
{
    match preview {
        Some(p) => {
            if msg_sel < p.messages.len() {
                assert(messages_view(p.messages@)[msg_sel as int]
                    == p.messages@[msg_sel as int]@);
                let m = &p.messages[msg_sel];
                Some(
                    RewindAction::Preview {
                        target_message_id: m.id.clone(),
                        target_text: m.preview.clone(),
                    },
                )
            } else {
                None
            }
        },
        None => None,
    }
}

/// An action to be sent, if there is one.
pub open spec fn sending(a: Option<ActionV>) -> RewindEffectV {
    match a {
        Some(a) => RewindEffectV::Send(a),
        None => RewindEffectV::Nothing,
    }
}

/// Where the messages stand in the popup.
pub open spec fn layout(count: int) -> ListLayout {
    ListLayout {
        header_rows: 2,
        item_rows: 1,
        footer_rows: 2,
        visible_items: rendered(count) as u16,
        scroll_start: 0,
        item_count: count as usize,
    }
}

/// What Enter does: it asks about the message, confirms, or waits.
pub open spec fn confirming(p: RewindPopup, s: RewindV, ms: Seq<MessageV>) -> RewindEffectV {
    match view_of(s.budget) {
        RewindView::Candidates => sending(asking(ms, p.msg_sel as int)),
        RewindView::Budget => if p.msg_sel < ms.len() {
            RewindEffectV::Send(ActionV::Confirm(ms[p.msg_sel as int].id))
        } else {
            RewindEffectV::Nothing
        },
        RewindView::Executing => RewindEffectV::Nothing,
    }
}

/// What Escape does: it leads back to the messages, and from there it closes the popup.
/// What is under way goes on, and its text is kept.
pub open spec fn cancelling(s: RewindV) -> (RewindV, RewindEffectV) {
    match view_of(s.budget) {
        RewindView::Executing => (
            RewindV { budget: BudgetV::Idle, ..s }.beaten(),
            RewindEffectV::Nothing,
        ),
        RewindView::Budget => (
            RewindV { budget: BudgetV::Idle, target_text: None, fingerprint: None, ..s }.beaten(),
            RewindEffectV::Nothing,
        ),
        RewindView::Candidates => (s.idle(), RewindEffectV::Close),
    }
}

/// What an input does.
pub open spec fn popup_step(
    p: RewindPopup,
    s: RewindV,
    ms: Seq<MessageV>,
    event: Event,
    area: Option<Rect>,
) -> (RewindPopup, RewindV, EventResult, RewindEffectV) {
    let candidates = view_of(s.budget) == RewindView::Candidates;
    match event {
        Event::Mouse(m) => if area is Some && candidates && hit(
            m,
            area->0,
            layout(ms.len() as int),
        ) is Some {
            let i = hit(m, area->0, layout(ms.len() as int))->0;
            (
                RewindPopup { msg_sel: i as usize, ..p },
                s,
                EventResult::Consumed,
                sending(asking(ms, i)),
            )
        } else {
            (
                p,
                s,
                if m.kind == MouseKind::LeftDown {
                    EventResult::Consumed
                } else {
                    EventResult::Ignored
                },
                RewindEffectV::Nothing,
            )
        },
        Event::Key(key) => if !key.press {
            (p, s, EventResult::Ignored, RewindEffectV::Nothing)
        } else {
            match nav_of(key.code) {
                Some(ListNavAction::MoveUp) => if candidates {
                    (
                        RewindPopup { msg_sel: prev_sel(p.msg_sel as int) as usize, ..p },
                        s,
                        EventResult::Consumed,
                        RewindEffectV::Nothing,
                    )
                } else {
                    (p, s, EventResult::Ignored, RewindEffectV::Nothing)
                },
                Some(ListNavAction::MoveDown) => if candidates {
                    (
                        RewindPopup {
                            msg_sel: next_sel(
                                p.msg_sel as int,
                                rendered(ms.len() as int),
                            ) as usize,
                            ..p
                        },
                        s,
                        EventResult::Consumed,
                        RewindEffectV::Nothing,
                    )
                } else {
                    (p, s, EventResult::Ignored, RewindEffectV::Nothing)
                },
                Some(ListNavAction::Confirm) => (
                    p,
                    s,
                    EventResult::Consumed,
                    confirming(p, s, ms),
                ),
                Some(ListNavAction::Cancel) => {
                    let (t, e) = cancelling(s);
                    (p, t, EventResult::Consumed, e)
                },
                _ => (p, s, EventResult::Ignored, RewindEffectV::Nothing),
            }
        },
        _ => (p, s, EventResult::Ignored, RewindEffectV::Nothing),
    }
}

fn send(a: Option<RewindAction>) -> (e: RewindEffect)
    ensures
        e@ == sending(
            match a {
                Some(a) => Some(a@),
                None => None,
            },
        ),
{
    match a {
        Some(a) => RewindEffect::Send(a),
        None => RewindEffect::Nothing,
    }
}

impl RewindPopup {
    fn confirm(&self, state: &RewindState, preview: &Option<RewindPreview>) -> (e: RewindEffect)
        ensures
            e@ == confirming(*self, state@, known(candidates(*preview))),
    {
        match rewind_view(&state.budget) {
            RewindView::Candidates => send(preview_action(preview, self.msg_sel)),
            RewindView::Budget => {
                match preview {
                    Some(p) => {
                        if self.msg_sel < p.messages.len() {
                            assert(messages_view(p.messages@)[self.msg_sel as int]
                                == p.messages@[self.msg_sel as int]@);
                            RewindEffect::Send(
                                RewindAction::Confirm {
                                    target_message_id: p.messages[self.msg_sel].id.clone(),
                                },
                            )
                        } else {
                            RewindEffect::Nothing
                        }
                    },
                    None => RewindEffect::Nothing,
                }
            },
            RewindView::Executing => RewindEffect::Nothing,
        }
    }

    fn cancel(&self, state: &mut RewindState) -> (e: RewindEffect)
        ensures
            (final(state)@, e@) == cancelling(old(state)@),
    {
        match rewind_view(&state.budget) {
            RewindView::Executing => {
                state.budget = RewindBudgetState::Idle;
                state.beat();
                RewindEffect::Nothing
            },
            RewindView::Budget => {
                state.budget = RewindBudgetState::Idle;
                state.target_text = None;
                state.fingerprint = None;
                state.beat();
                RewindEffect::Nothing
            },
            RewindView::Candidates => {
                state.clear();
                RewindEffect::Close
            },
        }
    }

    /// Deals with an input.
    pub fn handle_event(
        &mut self,
        event: &Event,
        state: &mut RewindState,
        preview: &Option<RewindPreview>,
        area: Option<Rect>,
    ) -> (r: (EventResult, RewindEffect))
        ensures
            (*final(self), final(state)@, r.0, r.1@) == popup_step(
                *old(self),
                old(state)@,
                known(candidates(*preview)),
                *event,
                area,
            ),
    {
        let count: usize = match preview {
            Some(p) => p.messages.len(),
            None => 0,
        };
        let ghost ms = known(candidates(*preview));
        assert(count == ms.len());
        let shown: usize = if count < VISIBLE_ITEMS {
            count
        } else {
            VISIBLE_ITEMS
        };
        let listing = rewind_view(&state.budget) == RewindView::Candidates;
        match event {
            Event::Mouse(m) => {
                let shape = ListLayout {
                    header_rows: 2,
                    item_rows: 1,
                    footer_rows: 2,
                    visible_items: shown as u16,
                    scroll_start: 0,
                    item_count: count,
                };
                assert(shape == layout(count as int));
                match area {
                    Some(a) => {
                        if listing {
                            match hit_item(m, a, shape) {
                                Some(i) => {
                                    self.msg_sel = i;
                                    return (
                                        EventResult::Consumed,
                                        send(preview_action(preview, i)),
                                    );
                                },
                                None => {},
                            }
                        }
                    },
                    None => {},
                }
                if m.kind == MouseKind::LeftDown {
                    (EventResult::Consumed, RewindEffect::Nothing)
                } else {
                    (EventResult::Ignored, RewindEffect::Nothing)
                }
            },
            Event::Key(key) => {
                if !key.press {
                    return (EventResult::Ignored, RewindEffect::Nothing);
                }
                match classify_list_nav(key) {
                    Some(ListNavAction::MoveUp) => {
                        if !listing {
                            return (EventResult::Ignored, RewindEffect::Nothing);
                        }
                        self.msg_sel = previous_selection(self.msg_sel);
                        (EventResult::Consumed, RewindEffect::Nothing)
                    },
                    Some(ListNavAction::MoveDown) => {
                        if !listing {
                            return (EventResult::Ignored, RewindEffect::Nothing);
                        }
                        self.msg_sel = next_selection(self.msg_sel, shown);
                        (EventResult::Consumed, RewindEffect::Nothing)
                    },
                    Some(ListNavAction::Confirm) => (
                        EventResult::Consumed,
                        self.confirm(state, preview),
                    ),
                    Some(ListNavAction::Cancel) => {
                        let e = self.cancel(state);
                        (EventResult::Consumed, e)
                    },
                    _ => (EventResult::Ignored, RewindEffect::Nothing),
                }
            },
            _ => (EventResult::Ignored, RewindEffect::Nothing),
        }
    }
}

// ── Laws ───────────────────────────────────────────────────────────────────

/// The message selected stays among those on the screen.
pub proof fn selection_stays_on_screen(
    p: RewindPopup,
    s: RewindV,
    ms: Seq<MessageV>,
    event: Event,
    area: Option<Rect>,
)
    requires
        p.msg_sel < rendered(ms.len() as int),
        ms.len() <= usize::MAX,
    ensures
        popup_step(p, s, ms, event, area).0.msg_sel < rendered(ms.len() as int),
{
    match event {
        Event::Mouse(m) => {
            if area is Some && hit(m, area->0, layout(ms.len() as int)) is Some {
                crate::panel_mouse::hit_is_shown(m, area->0, layout(ms.len() as int));
            }
        },
        _ => {},
    }
}

/// The popup asks to go back only where the files were shown.
pub proof fn only_a_shown_budget_is_confirmed(
    p: RewindPopup,
    s: RewindV,
    ms: Seq<MessageV>,
    event: Event,
    area: Option<Rect>,
)
    ensures
        popup_step(p, s, ms, event, area).3 matches RewindEffectV::Send(ActionV::Confirm(id)) ==> {
            &&& s.budget is Files
            &&& p.msg_sel < ms.len()
            &&& id == ms[p.msg_sel as int].id
        },
{
}

/// A click on a message does what Enter does with the message selected.
pub proof fn click_is_enter_on_message(
    p: RewindPopup,
    s: RewindV,
    ms: Seq<MessageV>,
    m: crate::event::MouseEvent,
    area: Rect,
)
    requires
        view_of(s.budget) == RewindView::Candidates,
        ms.len() <= usize::MAX,
        hit(m, area, layout(ms.len() as int)) is Some,
    ensures
        ({
            let (q, _, _, e) = popup_step(p, s, ms, Event::Mouse(m), Some(area));
            e == confirming(q, s, ms) && e is Send
        }),
{
    crate::panel_mouse::hit_is_shown(m, area, layout(ms.len() as int));
}

/// Escape twice closes the popup, wherever it stands, and leaves nothing that could be
/// confirmed, but for the text of what is under way.
pub proof fn escape_leads_out(s: RewindV)
    ensures
        ({
            let (once, _) = cancelling(s);
            let (twice, e) = cancelling(once);
            &&& view_of(once.budget) == RewindView::Candidates
            &&& e is Close
            &&& twice == once.idle()
        }),
        s.budget is Executing ==> cancelling(s).0.target_text == s.target_text,
{
}

// ── What is shown ──────────────────────────────────────────────────────────

/// A line that is indented.
pub open spec fn indented(p: PieceV) -> LineV {
    seq![lit("  "@, p.style), p]
}

/// How a file would be changed back.
pub open spec fn kind_label(kind: Seq<char>) -> Seq<char> {
    if kind == "write"@ {
        "write"@
    } else {
        "edit"@
    }
}

/// What stands before a row, and its colour.
pub open spec fn mark(selected: bool) -> (Seq<char>, Color) {
    if selected {
        ("  > "@, Color::PopupSelected)
    } else {
        ("    "@, Color::Primary)
    }
}

/// The row of a file.
pub open spec fn file_line(c: ChangeV, selected: bool) -> LineV {
    seq![
        lit(
            mark(selected).0 + "["@ + kind_label(c.kind) + ("] "@ + clip_spec(c.path, 40)),
            fg(mark(selected).1),
        ),
    ]
}

/// The rows of the first files.
pub open spec fn file_lines(cs: Seq<ChangeV>, selected: int, to: int) -> Seq<LineV>
    decreases to,
{
    if to <= 0 {
        Seq::empty()
    } else {
        file_lines(cs, selected, to - 1).push(file_line(cs[to - 1], to - 1 == selected))
    }
}

/// The row of a message.
pub open spec fn message_line(m: MessageV, selected: bool) -> LineV {
    seq![lit(mark(selected).0 + clip_spec(m.preview, 40), fg(mark(selected).1))]
}

/// The rows of the first messages.
pub open spec fn message_lines(ms: Seq<MessageV>, selected: int, to: int) -> Seq<LineV>
    decreases to,
{
    if to <= 0 {
        Seq::empty()
    } else {
        message_lines(ms, selected, to - 1).push(message_line(ms[to - 1], to - 1 == selected))
    }
}

/// How many more there are than fit.
pub open spec fn more_line(count: int) -> Seq<LineV> {
    if count > VISIBLE_ITEMS {
        seq![
            seq![
                lit("    "@, fg(Color::Dim)),
                msg_num(
                    "rewind-budget-more"@,
                    "count"@,
                    (count - VISIBLE_ITEMS) as nat,
                    fg(Color::Dim),
                ),
            ],
        ]
    } else {
        Seq::empty()
    }
}

/// The way out.
pub open spec fn close_line() -> LineV {
    seq![msg("common-esc-close"@, fg(Color::Dim))]
}

/// What is shown of the files.
pub open spec fn budget_lines(cs: Seq<ChangeV>, file_sel: int) -> Seq<LineV> {
    seq![
        blank(),
        indented(msg_num("rewind-budget-title"@, "count"@, cs.len(), bold(Color::Primary))),
    ] + file_lines(cs, file_sel, rendered(cs.len() as int)) + more_line(cs.len() as int) + seq![
        blank(),
        indented(msg("rewind-budget-confirm-hint"@, fg(Color::Dim))),
    ]
}

/// What is shown of the messages.
pub open spec fn listing_lines(ms: Seq<MessageV>, msg_sel: int) -> Seq<LineV> {
    seq![
        blank(),
        indented(msg_num("rewind-title-count"@, "count"@, ms.len(), bold(Color::Primary))),
    ] + message_lines(ms, msg_sel, rendered(ms.len() as int)) + more_line(ms.len() as int) + seq![
        blank(),
        indented(msg("rewind-enter-hint"@, fg(Color::Dim))),
    ]
}

/// What is shown before anything is asked: what went wrong, that the messages are not known
/// yet, that there are none, or the messages.
pub open spec fn candidate_lines(
    ms: Option<Seq<MessageV>>,
    error: Option<Seq<char>>,
    msg_sel: int,
) -> Seq<LineV> {
    match error {
        Some(e) => seq![
            blank(),
            indented(msg_text("rewind-query-failed"@, "error"@, e, fg(Color::Error))),
            blank(),
            close_line(),
        ],
        None => match ms {
            None => seq![
                blank(),
                indented(msg("rewind-loading"@, italic(Color::Muted))),
                blank(),
                close_line(),
            ],
            Some(ms) => if ms.len() == 0 {
                seq![
                    blank(),
                    indented(msg("rewind-empty"@, fg(Color::Dim))),
                    indented(msg("rewind-empty-hint"@, fg(Color::Dim))),
                    blank(),
                    close_line(),
                ]
            } else {
                listing_lines(ms, msg_sel)
            },
        },
    }
}

/// What the popup shows.
pub open spec fn rewind_lines(
    ms: Option<Seq<MessageV>>,
    budget: BudgetV,
    error: Option<Seq<char>>,
    msg_sel: int,
    file_sel: int,
) -> Seq<LineV> {
    match budget {
        BudgetV::Executing => seq![
            blank(),
            indented(msg("rewind-executing"@, fg(Color::Primary))),
            blank(),
            close_line(),
        ],
        BudgetV::Files(cs) => budget_lines(cs, file_sel),
        BudgetV::Idle => candidate_lines(ms, error, msg_sel),
    }
}

proof fn messages_take_a_line_each(ms: Seq<MessageV>, selected: int, to: int)
    requires
        0 <= to,
    ensures
        message_lines(ms, selected, to).len() == to,
        forall|i: int|
            0 <= i < to ==> #[trigger] message_lines(ms, selected, to)[i] == message_line(
                ms[i],
                i == selected,
            ),
    decreases to,
{
    if to > 0 {
        messages_take_a_line_each(ms, selected, to - 1);
    }
}

/// A message on the screen stands in the row in which a click finds it.
pub proof fn messages_are_clicked_where_shown(ms: Seq<MessageV>, msg_sel: int, i: int)
    requires
        0 <= i < rendered(ms.len() as int),
    ensures
        candidate_lines(Some(ms), None, msg_sel)[layout(ms.len() as int).header_rows + i]
            == message_line(ms[i], i == msg_sel),
{
    messages_take_a_line_each(ms, msg_sel, rendered(ms.len() as int));
}

fn indent(p: Piece) -> (l: Line)
    ensures
        l@ == indented(p@),
{
    let style = p.style;
    Line::of2(Piece::lit("  ", style), p)
}

fn push_more(d: &mut Doc, count: usize)
    ensures
        final(d)@ == old(d)@ + more_line(count as int),
{
    let ghost before = d@;
    if count > VISIBLE_ITEMS {
        let dim = Style::fg(Color::Dim);
        d.push(
            Line::of2(
                Piece::lit("    ", dim),
                Piece::msg_num("rewind-budget-more", "count", (count - VISIBLE_ITEMS) as u64, dim),
            ),
        );
    }
    assert(d@ =~= before + more_line(count as int));
}

fn show_files(files: &Vec<RewindFileChange>, file_sel: usize) -> (d: Doc)
    ensures
        d@ == budget_lines(changes_view(files@), file_sel as int),
{
    let ghost cs = changes_view(files@);
    let count: usize = files.len();
    let mut d = Doc::new();
    d.blank();
    d.push(
        indent(
            Piece::msg_num(
                "rewind-budget-title",
                "count",
                count as u64,
                Style::bold(Color::Primary),
            ),
        ),
    );
    let ghost head = d@;
    let mut i: usize = 0;
    assert(d@ =~= head + file_lines(cs, file_sel as int, 0));
    while i < count && i < VISIBLE_ITEMS
        invariant
            i <= count,
            i <= VISIBLE_ITEMS,
            count == cs.len(),
            cs == changes_view(files@),
            d@ == head + file_lines(cs, file_sel as int, i as int),
        decreases count - i,
    {
        let c = &files[i];
        assert(cs[i as int] == c@);
        let selected = i == file_sel;
        let kind = if same(c.kind.as_str(), "write") {
            "write"
        } else {
            "edit"
        };
        let tail = cat("] ", clip(c.path.as_str(), 40).as_str());
        let text = cat4(
            if selected {
                "  > "
            } else {
                "    "
            },
            "[",
            kind,
            tail.as_str(),
        );
        d.line(
            Piece::text(
                text,
                if selected {
                    Style::fg(Color::PopupSelected)
                } else {
                    Style::fg(Color::Primary)
                },
            ),
        );
        i = i + 1;
        assert(d@ =~= head + file_lines(cs, file_sel as int, i as int));
    }
    push_more(&mut d, count);
    d.blank();
    d.push(indent(Piece::msg("rewind-budget-confirm-hint", Style::fg(Color::Dim))));
    assert(d@ =~= budget_lines(cs, file_sel as int));
    d
}

fn show_messages(messages: &Vec<RewindMessage>, msg_sel: usize) -> (d: Doc)
    ensures
        d@ == listing_lines(messages_view(messages@), msg_sel as int),
{
    let ghost ms = messages_view(messages@);
    let count: usize = messages.len();
    let mut d = Doc::new();
    d.blank();
    d.push(
        indent(
            Piece::msg_num(
                "rewind-title-count",
                "count",
                count as u64,
                Style::bold(Color::Primary),
            ),
        ),
    );
    let ghost head = d@;
    let mut i: usize = 0;
    assert(d@ =~= head + message_lines(ms, msg_sel as int, 0));
    while i < count && i < VISIBLE_ITEMS
        invariant
            i <= count,
            i <= VISIBLE_ITEMS,
            count == ms.len(),
            ms == messages_view(messages@),
            d@ == head + message_lines(ms, msg_sel as int, i as int),
        decreases count - i,
    {
        let m = &messages[i];
        assert(ms[i as int] == m@);
        let selected = i == msg_sel;
        let text = cat(
            if selected {
                "  > "
            } else {
                "    "
            },
            clip(m.preview.as_str(), 40).as_str(),
        );
        d.line(
            Piece::text(
                text,
                if selected {
                    Style::fg(Color::PopupSelected)
                } else {
                    Style::fg(Color::Primary)
                },
            ),
        );
        i = i + 1;
        assert(d@ =~= head + message_lines(ms, msg_sel as int, i as int));
    }
    push_more(&mut d, count);
    d.blank();
    d.push(indent(Piece::msg("rewind-enter-hint", Style::fg(Color::Dim))));
    assert(d@ =~= listing_lines(ms, msg_sel as int));
    d
}

fn closing(head: Piece) -> (d: Doc)
    ensures
        d@ == seq![blank(), indented(head@), blank(), close_line()],
{
    let mut d = Doc::new();
    d.blank();
    d.push(indent(head));
    d.blank();
    d.line(Piece::msg("common-esc-close", Style::fg(Color::Dim)));
    assert(d@ =~= seq![blank(), indented(head@), blank(), close_line()]);
    d
}

/// What the popup shows.
pub fn build_popup_lines(
    preview: &Option<RewindPreview>,
    budget: &RewindBudgetState,
    query_error: &Option<String>,
    msg_sel: usize,
    file_sel: usize,
) -> (d: Doc)
    ensures
        d@ == rewind_lines(
            candidates(*preview),
            budget@,
            opt_view(*query_error),
            msg_sel as int,
            file_sel as int,
        ),
{
    match budget {
        RewindBudgetState::Executing => {
            return closing(Piece::msg("rewind-executing", Style::fg(Color::Primary)));
        },
        RewindBudgetState::Files(files) => {
            return show_files(files, file_sel);
        },
        RewindBudgetState::Idle => {},
    }
    match query_error {
        Some(e) => {
            return closing(
                Piece::msg_text(
                    "rewind-query-failed",
                    "error",
                    e.as_str(),
                    Style::fg(Color::Error),
                ),
            );
        },
        None => {},
    }
    match preview {
        None => closing(Piece::msg("rewind-loading", Style::italic(Color::Muted))),
        Some(p) => {
            if p.messages.len() == 0 {
                let mut d = Doc::new();
                d.blank();
                d.push(indent(Piece::msg("rewind-empty", Style::fg(Color::Dim))));
                d.push(indent(Piece::msg("rewind-empty-hint", Style::fg(Color::Dim))));
                d.blank();
                d.line(Piece::msg("common-esc-close", Style::fg(Color::Dim)));
                assert(d@ =~= candidate_lines(
                    candidates(*preview),
                    opt_view(*query_error),
                    msg_sel as int,
                ));
                d
            } else {
                show_messages(&p.messages, msg_sel)
            }
        },
    }
}

} // verus!
