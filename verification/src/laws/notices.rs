//! What the user is told.

use crate::doc::{ArgV, WordsV};
use crate::event::{Event, EventResult, KeyCode, KeyEvent};
use crate::notification::save_note;
use crate::panel_registry::{command_of, kind_at, letter_of, meta_of, place_of, PanelKind};
use crate::panels::agent::{content_width, values, SessionInfo, PANEL_CONTENT_INSET};
use crate::panels::subagent_detail::{height_of, key_closes};
use crate::panels::theme::download::{finished_note, ProgressV};
use crate::panels::thread_browser::state::ThreadV;
use crate::panels::thread_browser::view::{details_lines, preview_lines, Preview};
use crate::panic_message::{message_text, PanicLocation};
use crate::popups::confirm_popup::{needed_width, widest};
use crate::popups::download_progress::title_line;
use crate::text::{decimal, lines_of, str_width_of};
use vstd::prelude::*;

verus! {

/// That the settings were saved is told, and that they could not be, with the reason.
pub proof fn a_failure_to_save_is_told(why: Seq<char>)
    ensures
        save_note(None).message == WordsV::Message("config-saved"@, Seq::empty()),
        save_note(Some(why)).message == WordsV::Message(
            "config-save-failed"@,
            seq![("error"@, ArgV::Text(why))],
        ),
{
}

/// The end of a download is told with the numbers of all files, of those fetched and of those not.
pub proof fn the_end_of_a_download_is_told(p: ProgressV)
    ensures
        finished_note(p).message == WordsV::Message(
            "popup-download-finished-notify"@,
            seq![
                ("total"@, ArgV::Number(p.items.len())),
                ("success"@, ArgV::Number(p.success as nat)),
                ("failed"@, ArgV::Number(p.failed as nat)),
            ],
        ),
        p.finished ==> title_line(p)[0].words == WordsV::Message(
            "popup-download-title-done"@,
            seq![
                ("total"@, ArgV::Number(p.items.len())),
                ("success"@, ArgV::Number(p.success as nat)),
                ("failed"@, ArgV::Number(p.failed as nat)),
            ],
        ),
        !p.finished ==> title_line(p)[0].words == WordsV::Message(
            "popup-download-title-active"@,
            seq![
                ("done"@, ArgV::Number(p.success as nat)),
                ("total"@, ArgV::Number(p.items.len())),
            ],
        ),
{
}

/// A crash is told with what was said, where it was, and the trace where there is one.
pub proof fn a_crash_is_told(said: &str, at: PanicLocation, trace: &str)
    ensures
        message_text(Some(said), Some(at), None) == "'"@ + said@ + "'\n  at "@ + (at.file@ + ":"@
            + decimal(at.line as nat) + (":"@ + decimal(at.column as nat))),
        message_text(Some(said), Some(at), Some(trace)) == message_text(Some(said), Some(at), None)
            + ("\n"@ + trace@),
{
    reveal_strlit("");
    let place = at.file@ + ":"@ + decimal(at.line as nat) + (":"@ + decimal(at.column as nat));
    assert(place + ""@ =~= place);
    assert(message_text(Some(said), Some(at), Some(trace)) =~= message_text(
        Some(said),
        Some(at),
        None,
    ) + ("\n"@ + trace@));
}

/// A panel is registered under its own letter and command, and stands in the order of the panels.
pub proof fn a_panel_is_registered_as_itself(kind: PanelKind)
    ensures
        meta_of(kind).kind == kind,
        meta_of(kind).command == command_of(kind),
        meta_of(kind).letter == letter_of(kind),
        meta_of(kind).priority == place_of(kind),
        meta_of(kind_at(place_of(kind) as int)).kind == kind,
        command_of(PanelKind::Model) == "model"@ && command_of(PanelKind::Login) == "login"@
            && command_of(PanelKind::Agent) == "agent"@ && command_of(PanelKind::Hooks)
            == "hooks"@ && command_of(PanelKind::Config) == "config"@ && command_of(
            PanelKind::ThreadBrowser,
        ) == "threads"@ && command_of(PanelKind::Mcp) == "mcp"@ && command_of(PanelKind::Plugin)
            == "plugin"@ && command_of(PanelKind::Cron) == "cron-list"@ && command_of(
            PanelKind::Status,
        ) == "status"@ && command_of(PanelKind::Memory) == "memory"@ && command_of(
            PanelKind::Theme,
        ) == "theme"@,
{
}

/// The session tells its provider, its model, its mode, its directory and its messages.
pub proof fn the_session_tells_of_itself(info: SessionInfo, provider: Seq<char>, alias: Seq<char>)
    ensures
        values(info, provider, alias).len() == 6,
        values(info, provider, alias)[0] == info.provider_name@ + " ("@ + provider + ")"@,
        values(info, provider, alias)[1] == info.model_alias@ + " (alias: "@ + alias + ")"@,
        values(info, provider, alias)[2] == info.permission_mode@,
        values(info, provider, alias)[3] == info.cwd@,
        values(info, provider, alias)[4] == decimal(info.total_messages as nat),
{
}

/// A page is as high as its rows, one row at least.
pub proof fn a_page_is_as_high_as_its_rows(rows: nat, width: u16, key: KeyEvent)
    ensures
        0 < rows <= u16::MAX ==> height_of(rows) == rows,
        height_of(0) == 1,
        rows > u16::MAX ==> height_of(rows) == u16::MAX,
        width > PANEL_CONTENT_INSET ==> content_width(width) == width - PANEL_CONTENT_INSET,
        width <= PANEL_CONTENT_INSET ==> content_width(width) == 1,
        key.press ==> key_closes(Event::Key(key)) == (
            EventResult::Consumed,
            key.code == KeyCode::Esc,
        ),
{
}

/// The preview of a thread shows its text line by line, of that thread and no other.
pub proof fn the_preview_is_of_the_thread(id: Seq<char>, of: String, text: String, why: String, i: int)
    ensures
        of@ == id ==> preview_lines(Preview::Loaded { id: of, text }, id).len() == 1 + lines_of(
            text@,
        ).len(),
        of@ == id && 0 <= i < lines_of(text@).len() ==> preview_lines(
            Preview::Loaded { id: of, text },
            id,
        )[1 + i][0].words == WordsV::Literal(lines_of(text@)[i]),
        of@ != id ==> preview_lines(Preview::Loaded { id: of, text }, id).len() == 1,
        preview_lines(Preview::Failed(why), id)[1][0].words == WordsV::Literal(why@),
{
}

/// Below the list stands what is known of the selected thread.
pub proof fn the_selected_thread_is_told_of(
    ts: Seq<ThreadV>,
    selected: int,
    panel_width: u16,
    untitled: Seq<char>,
    selected_empty: Seq<char>,
    path_empty: Seq<char>,
    other: Seq<ThreadV>,
)
    requires
        0 <= selected < ts.len(),
        selected < other.len(),
        ts[selected] == other[selected],
        ts[selected].id.len() > 8,
    ensures
        details_lines(ts, selected, panel_width, untitled, selected_empty, path_empty)
            == details_lines(
            other,
            selected,
            panel_width,
            untitled,
            selected_empty,
            path_empty,
        ),
        details_lines(
            ts,
            selected,
            panel_width,
            untitled,
            selected_empty,
            path_empty,
        )[1][0].words->Message_1[1] == ("id"@, ArgV::Text(ts[selected].id.take(8) + "…"@)),
        details_lines(
            ts,
            selected,
            panel_width,
            untitled,
            selected_empty,
            path_empty,
        )[0][0].words is Message,
{
}

/// A question takes as many columns as the widest of its texts and its border.
pub proof fn a_question_is_as_wide_as_its_widest_text(texts: Seq<Seq<char>>, to: int, i: int)
    requires
        0 <= i < to <= texts.len(),
    ensures
        widest(texts, to) >= str_width_of(texts[i]),
        exists|k: int| 0 <= k < to && widest(texts, to) == str_width_of(#[trigger] texts[k]),
        needed_width(texts) == (if widest(texts, texts.len() as int) + 2 <= u16::MAX {
            widest(texts, texts.len() as int) + 2
        } else {
            u16::MAX as int
        }),
    decreases to,
{
    if to == 1 {
        assert(widest(texts, 0) == 0);
        assert(widest(texts, 1) == str_width_of(texts[0]));
    } else {
        a_question_is_as_wide_as_its_widest_text(texts, to - 1, if i < to - 1 {
            i
        } else {
            0
        });
        if widest(texts, to) != widest(texts, to - 1) {
            assert(widest(texts, to) == str_width_of(texts[to - 1]));
        } else {
            let k = choose|k: int|
                0 <= k < to - 1 && widest(texts, to - 1) == str_width_of(#[trigger] texts[k]);
            assert(widest(texts, to) == str_width_of(texts[k]));
        }
    }
}

} // verus!
