//! The text of a stored thread, to read only.

use crate::text::{control_char, is_control, to_chars};
use vstd::prelude::*;

verus! {

/// Who an entry is from.
#[derive(Debug, Clone, Copy, PartialEq, Eq, Structural)]
pub enum Role {
    User,
    Assistant,
    System,
    Tool,
}

impl Role {
    /// The message key of the heading of an entry.
    pub open spec fn key(self) -> Seq<char> {
        match self {
            Role::User => "thread-history-user"@,
            Role::Assistant => "thread-history-assistant"@,
            Role::System => "thread-history-system"@,
            Role::Tool => "thread-history-tool"@,
        }
    }

    /// The message key of the heading of an entry.
    pub fn label_key(&self) -> (k: &'static str)
        ensures
            k@ == self.key(),
    {
        match self {
            Role::User => "thread-history-user",
            Role::Assistant => "thread-history-assistant",
            Role::System => "thread-history-system",
            Role::Tool => "thread-history-tool",
        }
    }
}

/// An entry of a stored thread: its heading, its text and the tool calls it holds, each
/// written out.
#[derive(Debug)]
pub struct HistoryEntry {
    pub heading: String,
    pub content: String,
    pub calls: Vec<String>,
}

/// An entry of a stored thread, abstractly.
pub struct EntryV {
    pub heading: Seq<char>,
    pub content: Seq<char>,
    pub calls: Seq<Seq<char>>,
}

impl View for HistoryEntry {
    type V = EntryV;

    open spec fn view(&self) -> EntryV {
        EntryV {
            heading: self.heading@,
            content: self.content@,
            calls: self.calls@.map_values(|c: String| c@),
        }
    }
}

/// The calls, each on a line of its own.
pub open spec fn calls_text(calls: Seq<Seq<char>>) -> Seq<char>
    decreases calls.len(),
{
    if calls.len() == 0 {
        Seq::empty()
    } else {
        calls_text(calls.drop_last()) + seq!['\n'] + calls.last()
    }
}

/// The text of an entry: heading, text, calls and an empty line.
pub open spec fn entry_text(e: EntryV) -> Seq<char> {
    e.heading + seq!['\n'] + e.content + calls_text(e.calls) + seq!['\n', '\n']
}

/// The texts of the entries.
pub open spec fn entries_text(es: Seq<EntryV>) -> Seq<char>
    decreases es.len(),
{
    if es.len() == 0 {
        Seq::empty()
    } else {
        entries_text(es.drop_last()) + entry_text(es.last())
    }
}

/// A character that can be shown: no control character but the line feed and the tab.
pub open spec fn shown(c: char) -> bool {
    !control_char(c) || c == '\n' || c == '\t'
}

/// The text without what cannot be shown.
pub open spec fn shown_part(s: Seq<char>) -> Seq<char>
    decreases s.len(),
{
    if s.len() == 0 {
        Seq::empty()
    } else if shown(s.last()) {
        shown_part(s.drop_last()).push(s.last())
    } else {
        shown_part(s.drop_last())
    }
}

fn show_calls(out: &mut String, calls: &Vec<String>)
    ensures
        final(out)@ == old(out)@ + calls_text(calls@.map_values(|c: String| c@)),
{
    let ghost all = calls@.map_values(|c: String| c@);
    let ghost before = out@;
    let mut i: usize = 0;
    assert(out@ =~= before + calls_text(all.take(0)));
    while i < calls.len()
        invariant
            i <= calls@.len(),
            all == calls@.map_values(|c: String| c@),
            out@ == before + calls_text(all.take(i as int)),
        decreases calls.len() - i,
    {
        out.push('\n');
        out.append(calls[i].as_str());
        i = i + 1;
        assert(all.take(i as int).drop_last() =~= all.take(i - 1));
        assert(out@ =~= before + calls_text(all.take(i as int)));
    }
    assert(all.take(i as int) =~= all);
}

/// The text of a stored thread.
pub fn text(entries: &Vec<HistoryEntry>) -> (r: String)
    ensures
        r@ == shown_part(entries_text(entries@.map_values(|e: HistoryEntry| e@))),
{
    let ghost all = entries@.map_values(|e: HistoryEntry| e@);
    let mut out = String::new();
    let mut i: usize = 0;
    assert(out@ =~= entries_text(all.take(0)));
    while i < entries.len()
        invariant
            i <= entries@.len(),
            all == entries@.map_values(|e: HistoryEntry| e@),
            out@ == entries_text(all.take(i as int)),
        decreases entries.len() - i,
    {
        let ghost before = out@;
        let e = &entries[i];
        assert(all[i as int] == e@);
        out.append(e.heading.as_str());
        out.push('\n');
        out.append(e.content.as_str());
        show_calls(&mut out, &e.calls);
        out.push('\n');
        out.push('\n');
        i = i + 1;
        assert(all.take(i as int).drop_last() =~= all.take(i - 1));
        assert(out@ =~= before + entry_text(e@));
    }
    assert(all.take(i as int) =~= all);
    let cs = to_chars(out.as_str());
    let mut r = String::new();
    let mut k: usize = 0;
    assert(r@ =~= shown_part(cs@.take(0)));
    while k < cs.len()
        invariant
            k <= cs@.len(),
            r@ == shown_part(cs@.take(k as int)),
        decreases cs.len() - k,
    {
        let c = cs[k];
        if !is_control(c) || c == '\n' || c == '\t' {
            r.push(c);
        }
        k = k + 1;
        assert(cs@.take(k as int).drop_last() =~= cs@.take(k - 1));
    }
    assert(cs@.take(k as int) =~= cs@);
    r
}

/// Nothing that cannot be shown is left in the text.
pub proof fn text_can_be_shown(s: Seq<char>, i: int)
    ensures
        0 <= i < shown_part(s).len() ==> shown(shown_part(s)[i]),
    decreases s.len(),
{
    if s.len() > 0 {
        if shown(s.last()) {
            if i < shown_part(s.drop_last()).len() {
                text_can_be_shown(s.drop_last(), i);
            }
        } else {
            text_can_be_shown(s.drop_last(), i);
        }
    }
}

} // verus!
