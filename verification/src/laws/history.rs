//! What the list of threads shows.

use crate::doc::{ArgV, WordsV};
use crate::panels::thread_browser::history_preview::{calls_text, entries_text, shown_part, EntryV};
use crate::panels::thread_browser::state::{ListV, ThreadV};
use crate::panels::thread_browser::view::{header_line, list_lines, row_line, rows};
use crate::text::{control_char, str_width_of, truncate_text_spec};
use vstd::prelude::*;

verus! {

/// What is shown of a text is all of it but for its control characters; ends of lines and tabs
/// are shown.
pub proof fn only_control_characters_are_left_out(s: Seq<char>)
    ensures
        shown_part(s) == s.filter(|c: char| !control_char(c) || c == '\n' || c == '\t'),
    decreases s.len(),
{
    reveal(Seq::filter);
    if s.len() > 0 {
        only_control_characters_are_left_out(s.drop_last());
    }
}

/// The preview of a thread holds its entries one behind the other, each with its heading, what it
/// says and its calls, a call a line, and an empty line behind it.
pub proof fn each_entry_is_in_the_preview(es: Seq<EntryV>, e: EntryV, call: Seq<char>)
    ensures
        entries_text(Seq::empty()).len() == 0,
        entries_text(es.push(e)) == entries_text(es) + e.heading + seq!['\n'] + e.content
            + calls_text(e.calls) + seq!['\n', '\n'],
        calls_text(Seq::empty()).len() == 0,
        calls_text(e.calls.push(call)) == calls_text(e.calls) + seq!['\n'] + call,
{
    assert(es.push(e).drop_last() =~= es);
    assert(e.calls.push(call).drop_last() =~= e.calls);
}

proof fn lemma_rows(
    ts: Seq<ThreadV>,
    selected: int,
    panel_width: u16,
    untitled: Seq<char>,
    messages: Seq<Seq<char>>,
    to: int,
    i: int,
)
    requires
        0 <= to <= ts.len(),
    ensures
        rows(ts, selected, panel_width, untitled, messages, to).len() == to,
        0 <= i < to ==> rows(ts, selected, panel_width, untitled, messages, to)[i] == row_line(
            ts[i],
            i == selected,
            panel_width,
            untitled,
            messages[i],
        ),
    decreases to,
{
    if to > 0 {
        lemma_rows(ts, selected, panel_width, untitled, messages, to - 1, i);
    }
}

/// Each thread has its row, with its title as far as there is room, and the selected one is
/// marked; the number of threads is told.
pub proof fn each_thread_has_its_row(
    l: ListV,
    selected: int,
    panel_width: u16,
    untitled: Seq<char>,
    messages: Seq<Seq<char>>,
    i: int,
    title: Seq<char>,
)
    requires
        0 <= i < l.threads.len(),
        l.threads[i].title == Some(title) || l.threads[i].title is None && title == untitled,
    ensures
        ({
            let d = list_lines(l.threads, selected, None, panel_width, untitled, messages);
            &&& d.len() == l.threads.len()
            &&& d[i][0].words == WordsV::Literal(
                if i == selected {
                    " > "@
                } else {
                    "   "@
                },
            )
            &&& panel_width < 72 ==> d[i][3].words == WordsV::Literal(Seq::empty())
            &&& header_line(l)[0].words is Message
            &&& header_line(l)[0].words->Message_1[1] == ("count"@, ArgV::Number(l.threads.len()))
        }),
        exists|room: nat|
            room <= panel_width && list_lines(
                l.threads,
                selected,
                None,
                panel_width,
                untitled,
                messages,
            )[i][1].words == WordsV::Literal(
                #[trigger] truncate_text_spec(title, room),
            ),
{
    lemma_rows(
        l.threads,
        selected,
        panel_width,
        untitled,
        messages,
        l.threads.len() as int,
        i,
    );
    let d = list_lines(l.threads, selected, None, panel_width, untitled, messages);
    let width = crate::event::sat_diff(panel_width as int, 2);
    let prefix = crate::panels::thread_browser::view::mark(i == selected);
    let meta = crate::panels::thread_browser::view::metadata(l.threads[i], width, messages[i]);
    let room = crate::event::sat_diff(
        width,
        str_width_of(prefix) + str_width_of(meta) + 1,
    ) as nat;
    assert(room <= panel_width);
    assert(d[i] == row_line(l.threads[i], i == selected, panel_width, untitled, messages[i]));
    assert(d[i][1].words == WordsV::Literal(truncate_text_spec(title, room)));
}

/// What went wrong with the list is said in its place.
pub proof fn a_failure_is_told(
    ts: Seq<ThreadV>,
    selected: int,
    error: Seq<char>,
    panel_width: u16,
    untitled: Seq<char>,
    messages: Seq<Seq<char>>,
)
    ensures
        list_lines(ts, selected, Some(error), panel_width, untitled, messages).len() == 1,
        list_lines(ts, selected, Some(error), panel_width, untitled, messages)[0][0].words
            == WordsV::Literal(error),
{
}

} // verus!
