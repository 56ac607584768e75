//! The panel in which the questions of the agent are answered.

use crate::doc::WordsV;
use crate::event::{Event, KeyCode, KeyEvent, MouseEvent, MouseKind, Rect};
use crate::panel_mouse::on_scrollbar;
use crate::panel_registry::PanelKind;
use crate::panels::ask_user::form::{answers_map, FormV};
use crate::panels::ask_user::panel::{asking_step, form_lines, option_at, option_lines, option_row,
    options_lines, panel_step, shown_chosen, tab_of, tabs, ReplyV};
use crate::panels::ask_user::types::{PendingInteraction, QuestionV};
use crate::popup_overlay::{PopupKind, PopupsV};
use crate::popups::confirm_popup::ConfirmActionV;
use crate::wrap::{wrap_text_spec, wrapped_text_has_a_line};
use vstd::prelude::*;

verus! {

/// Once every question that offers options is answered, Enter sends the answers to whoever asked,
/// and the question and the panel are gone.
pub proof fn answers_go_to_whoever_asked(
    f: FormV,
    popups: PopupsV,
    panels: Seq<PanelKind>,
    key: KeyEvent,
    area: Option<Rect>,
    width: nat,
    p: PendingInteraction,
)
    requires
        key.press,
        key.code == KeyCode::Enter,
        !f.is_typing,
        popups.kind is None,
        popups.ask_user == Some(p),
        f.answers.len() == p.payload@.len(),
        f.custom.len() == p.payload@.len(),
        forall|k: int|
            0 <= k < p.payload@.len() ==> (#[trigger] p.payload@[k]).options.len() == 0
                || f.answers[k].len() > 0 || f.custom[k] is Some,
    ensures
        ({
            let (g, after, left, r, reply) = asking_step(
                f,
                popups,
                panels,
                Event::Key(key),
                area,
                width,
            );
            &&& r is Consumed
            &&& reply == ReplyV::Answers(
                p.owner@,
                p.request_id_json@,
                answers_map(p.payload@, f.answers, f.custom),
            )
            &&& after == (PopupsV { ask_user: None, ..popups })
            &&& left == panels.filter(|k: PanelKind| k != PanelKind::AskUser)
        }),
{
    let qs = p.payload@;
    assert forall|i: int| 0 <= i < f.answers.len() implies !#[trigger] f.open(qs, i) by {
        assert(qs[i].options.len() == 0 || f.answers[i].len() > 0 || f.custom[i] is Some);
    }
    assert(f.complete(qs));
    crate::laws::open_panels::only_the_closed_panel_goes(panels, PanelKind::AskUser);
}

/// Escape asks whether to turn that request of that asker away, and nothing is sent yet.
pub proof fn escape_asks_first(
    f: FormV,
    popups: PopupsV,
    panels: Seq<PanelKind>,
    key: KeyEvent,
    area: Option<Rect>,
    width: nat,
    p: PendingInteraction,
)
    requires
        key.press,
        key.code == KeyCode::Esc,
        !f.is_typing,
        popups.kind is None,
        popups.ask_user == Some(p),
    ensures
        ({
            let (g, after, left, r, reply) = asking_step(
                f,
                popups,
                panels,
                Event::Key(key),
                area,
                width,
            );
            &&& r is Consumed && reply is Nothing && left == panels && g == f
            &&& after.kind == Some(PopupKind::Confirm)
            &&& after.confirm is Some && after.confirm->0.action == ConfirmActionV::RejectAskUser(
                p.owner@,
                p.request_id_json@,
            )
            &&& after.ask_user == popups.ask_user
        }),
{
}

/// The options of a question stand below its text, one behind the other, each with the rows of
/// its label and those of its description.
pub proof fn options_stand_one_behind_the_other(q: QuestionV, i: int, width: nat)
    requires
        0 <= i < q.options.len(),
    ensures
        option_row(q, 0, width) == 5 + wrap_text_spec(
            if q.question.len() == 0 {
                q.header
            } else {
                "  "@ + q.question
            },
            width,
        ).len(),
        option_row(q, i + 1, width) == option_row(q, i, width) + wrap_text_spec(
            "  ○ "@ + q.options[i].label,
            width,
        ).len() + (if q.options[i].description.len() == 0 {
            0
        } else {
            wrap_text_spec("    "@ + q.options[i].description, width).len() as int
        }),
        option_row(q, i + 1, width) > option_row(q, i, width),
{
    wrapped_text_has_a_line("  ○ "@ + q.options[i].label, width);
}

proof fn lemma_rows_grow(q: QuestionV, i: int, j: int, width: nat)
    requires
        0 <= i <= j <= q.options.len(),
    ensures
        option_row(q, i, width) <= option_row(q, j, width),
    decreases j - i,
{
    if i < j {
        lemma_rows_grow(q, i, j - 1, width);
        options_stand_one_behind_the_other(q, j - 1, width);
    }
}

proof fn lemma_option_at(q: QuestionV, from: int, i: int, row: int, width: nat)
    requires
        0 <= from <= i < q.options.len(),
        option_row(q, i, width) <= row < option_row(q, i + 1, width),
    ensures
        option_at(q, from, row, width) == Some(i),
    decreases i - from,
{
    if from < i {
        lemma_rows_grow(q, from + 1, i, width);
        lemma_option_at(q, from + 1, i, row, width);
    }
}

/// A click on a row of an option chooses that option of that question, or takes the choice back,
/// and changes nothing else.
pub proof fn a_click_chooses_the_option(
    f: FormV,
    m: MouseEvent,
    area: Rect,
    p: &PendingInteraction,
    width: nat,
    i: int,
)
    requires
        m.kind == MouseKind::LeftDown,
        !f.is_typing,
        !on_scrollbar(m, area),
        area.y < m.row < area.y + area.height - 1,
        0 <= f.focused < p.payload@.len(),
        f.answers.len() == p.payload@.len(),
        0 <= i < p.payload@[f.focused].options.len() <= usize::MAX,
        option_row(p.payload@[f.focused], i, width) <= m.row - area.y - 1 < option_row(
            p.payload@[f.focused],
            i + 1,
            width,
        ),
    ensures
        ({
            let (g, r, e) = panel_step(f, Event::Mouse(m), Some(area), false, Some(p), width);
            let q = p.payload@[f.focused];
            let before = f.answers[f.focused];
            let after = g.answers[f.focused];
            &&& r is Consumed && e is Nothing
            &&& g == (FormV { answers: g.answers, ..f })
            &&& g.answers.len() == f.answers.len()
            &&& forall|k: int|
                0 <= k < f.answers.len() && k != f.focused ==> (#[trigger] g.answers[k])
                    == f.answers[k]
            &&& q.multi_select && !before.contains(i as usize) ==> after == before.push(i as usize)
            &&& !q.multi_select && !(before.len() > 0 && before[0] == i) ==> after == seq![
                i as usize,
            ]
            &&& !q.multi_select && before.len() > 0 && before[0] == i ==> after.len() == 0
        }),
{
    lemma_option_at(p.payload@[f.focused], 0, i, m.row - area.y - 1, width);
}

proof fn lemma_tabs(f: FormV, qs: Seq<QuestionV>, focused: int, to: int, i: int) -> (at: int)
    requires
        0 <= i < to <= qs.len(),
    ensures
        0 <= at < tabs(f, qs, focused, to).len(),
        tabs(f, qs, focused, to)[at].words == WordsV::Literal(" "@ + qs[i].header),
    decreases to,
{
    let before = tabs(f, qs, focused, to - 1);
    let own = tab_of(qs[to - 1], to - 1 == focused, f.answered(to - 1));
    if i == to - 1 {
        assert(tabs(f, qs, focused, to)[before.len() as int] == own[0]);
        before.len() as int
    } else {
        let at = lemma_tabs(f, qs, focused, to - 1, i);
        assert(tabs(f, qs, focused, to)[at] == before[at]);
        at
    }
}

/// The headers of all questions are shown, and the text of the one that has the focus.
pub proof fn every_question_has_its_tab(
    f: FormV,
    qs: Seq<QuestionV>,
    editor: Seq<Seq<crate::doc::PieceV>>,
    width: nat,
    i: int,
) -> (at: int)
    requires
        0 <= i < qs.len(),
        0 <= f.focused < qs.len(),
        qs[f.focused].question.len() > 0,
    ensures
        0 <= at < form_lines(f, qs, editor, width)[1].len(),
        form_lines(f, qs, editor, width)[1][at].words == WordsV::Literal(" "@ + qs[i].header),
        form_lines(f, qs, editor, width)[4][0].words == WordsV::Literal(
            wrap_text_spec("  "@ + qs[f.focused].question, width)[0],
        ),
{
    wrapped_text_has_a_line("  "@ + qs[f.focused].question, width);
    let first = wrap_text_spec("  "@ + qs[f.focused].question, width)[0];
    assert(Seq::<char>::empty() + first =~= first);
    lemma_tabs(f, qs, f.focused, qs.len() as int, i)
}

proof fn lemma_option_lines(f: FormV, q: QuestionV, focused: int, to: int, width: nat, i: int) -> (at:
    int)
    requires
        0 <= i < to <= q.options.len(),
    ensures
        0 <= at < options_lines(f, q, focused, to, width).len(),
        options_lines(f, q, focused, to, width)[at] == option_lines(
            q.options[i],
            shown_chosen(f, focused, i),
            !f.is_typing && i == f.option,
            q.multi_select,
            width,
        )[0],
    decreases to,
{
    let before = options_lines(f, q, focused, to - 1, width);
    let all = options_lines(f, q, focused, to, width);
    if i == to - 1 {
        let mark = crate::panels::ask_user::panel::option_mark(
            shown_chosen(f, focused, i),
            q.multi_select,
        );
        wrapped_text_has_a_line("  "@ + mark + " "@ + q.options[i].label, width);
        let own = option_lines(
            q.options[i],
            shown_chosen(f, focused, i),
            !f.is_typing && i == f.option,
            q.multi_select,
            width,
        );
        assert(own.len() > 0);
        assert(all[before.len() as int] == own[0]);
        before.len() as int
    } else {
        let at = lemma_option_lines(f, q, focused, to - 1, width, i);
        assert(all[at] == before[at]);
        at
    }
}

/// Each option of the question that has the focus is shown with its label; those that are chosen
/// bear the sign of a choice, as long as no text stands in their place.
pub proof fn each_option_is_shown(
    f: FormV,
    qs: Seq<QuestionV>,
    editor: Seq<Seq<crate::doc::PieceV>>,
    width: nat,
    i: int,
    chosen: bool,
) -> (at: int)
    requires
        0 <= f.focused < qs.len(),
        f.answers.len() == qs.len(),
        f.custom.len() == qs.len(),
        !f.is_typing,
        f.custom[f.focused] is None,
        0 <= i < qs[f.focused].options.len() <= usize::MAX,
        chosen == f.answers[f.focused].contains(i as usize),
    ensures
        0 <= at < form_lines(f, qs, editor, width).len(),
        form_lines(f, qs, editor, width)[at][0].words == WordsV::Literal(
            wrap_text_spec(
                "  "@ + (match (chosen, qs[f.focused].multi_select) {
                    (true, true) => "☑"@,
                    (true, false) => "●"@,
                    (false, true) => "☐"@,
                    (false, false) => "○"@,
                }) + " "@ + qs[f.focused].options[i].label,
                width,
            )[0],
        ),
{
    let q = qs[f.focused];
    let n = q.options.len() as int;
    let k = lemma_option_lines(f, q, f.focused, n, width, i);
    let text = if q.question.len() == 0 {
        q.header
    } else {
        "  "@ + q.question
    };
    let above = 5 + wrap_text_spec(text, width).len() as int;
    let d = form_lines(f, qs, editor, width);
    assert(d[above + k] == options_lines(f, q, f.focused, n, width)[k]);
    assert(shown_chosen(f, f.focused, i) == chosen);
    let mark = crate::panels::ask_user::panel::option_mark(chosen, q.multi_select);
    let line = "  "@ + mark + " "@ + q.options[i].label;
    wrapped_text_has_a_line(line, width);
    let first = wrap_text_spec(line, width)[0];
    assert(Seq::<char>::empty() + first =~= first);
    above + k
}

proof fn lemma_no_option_at(q: QuestionV, from: int, row: int, width: nat)
    requires
        0 <= from <= q.options.len(),
        row >= option_row(q, q.options.len() as int, width),
    ensures
        option_at(q, from, row, width) is None,
    decreases q.options.len() - from,
{
    if from < q.options.len() {
        lemma_rows_grow(q, from + 1, q.options.len() as int, width);
        lemma_no_option_at(q, from + 1, row, width);
    }
}

/// A click on the row below the options begins to type an answer, with what was typed before; a
/// click below that changes nothing.
pub proof fn a_click_begins_to_type(
    f: FormV,
    m: MouseEvent,
    area: Rect,
    p: &PendingInteraction,
    width: nat,
)
    requires
        m.kind == MouseKind::LeftDown,
        !f.is_typing,
        !on_scrollbar(m, area),
        area.y < m.row < area.y + area.height - 1,
        0 <= f.focused < p.payload@.len(),
        f.custom.len() == p.payload@.len(),
        f.custom[f.focused] is None,
    ensures
        ({
            let (g, r, e) = panel_step(f, Event::Mouse(m), Some(area), false, Some(p), width);
            let q = p.payload@[f.focused];
            let below = option_row(q, q.options.len() as int, width);
            &&& m.row - area.y - 1 == below ==> g.is_typing && g.typing.now.text.len() == 0
                && g.answers == f.answers && g.custom == f.custom && r is Consumed && e is Nothing
            &&& m.row - area.y - 1 > below ==> g == f && r is Consumed && e is Nothing
        }),
{
    let q = p.payload@[f.focused];
    if m.row - area.y - 1 >= option_row(q, q.options.len() as int, width) {
        lemma_no_option_at(q, 0, m.row - area.y - 1, width);
    }
}

} // verus!
