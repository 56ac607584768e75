//! A text editor of one field: its text, the cursor and what can be undone.

use crate::text::{char_columns, columns, fit_len, fit_prefix, from_chars, is_whitespace, to_chars,
    total_columns, total_columns_part, whitespace_char};
use vstd::prelude::*;

verus! {

/// A text and the cursor in it, counted in characters.
#[derive(Debug)]
pub struct Snapshot {
    pub text: String,
    pub cursor: usize,
}

/// The editor of one field. The cursor stands in front of the character with its
/// index; one beyond the text counts as behind the last character.
#[derive(Debug)]
pub struct TextAreaState {
    pub text: String,
    pub cursor: usize,
    undone: Vec<Snapshot>,
    done: Vec<Snapshot>,
}

/// A text and a cursor, abstractly.
pub struct EditV {
    pub text: Seq<char>,
    pub cursor: int,
}

/// The editor, abstractly: what it shows, what undo goes back to (the latest
/// last) and what redo goes forward to (the next last).
pub struct TextV {
    pub now: EditV,
    pub done: Seq<EditV>,
    pub undone: Seq<EditV>,
}

impl View for Snapshot {
    type V = EditV;

    open spec fn view(&self) -> EditV {
        EditV { text: self.text@, cursor: clamp(self.cursor as int, self.text@.len() as int) }
    }
}

/// `i`, or `n` where that is less.
pub open spec fn clamp(i: int, n: int) -> int {
    if i < n {
        i
    } else {
        n
    }
}

impl View for TextAreaState {
    type V = TextV;

    closed spec fn view(&self) -> TextV {
        TextV {
            now: EditV {
                text: self.text@,
                cursor: clamp(self.cursor as int, self.text@.len() as int),
            },
            done: self.done@.map_values(|s: Snapshot| s@),
            undone: self.undone@.map_values(|s: Snapshot| s@),
        }
    }
}

/// An editor that holds a text, with the cursor at its end and nothing to undo.
pub open spec fn fresh(text: Seq<char>) -> TextV {
    TextV {
        now: EditV { text, cursor: text.len() as int },
        done: Seq::empty(),
        undone: Seq::empty(),
    }
}

impl EditV {
    /// With a text put in at the cursor.
    pub open spec fn inserted(self, s: Seq<char>) -> EditV {
        EditV {
            text: self.text.take(self.cursor) + s + self.text.skip(self.cursor),
            cursor: self.cursor + s.len(),
        }
    }

    /// With the characters from `from` to `to` taken out, and the cursor there.
    pub open spec fn without(self, from: int, to: int) -> EditV {
        EditV { text: self.text.take(from) + self.text.skip(to), cursor: from }
    }

    /// With the cursor elsewhere.
    pub open spec fn at(self, cursor: int) -> EditV {
        EditV { text: self.text, cursor }
    }
}

impl TextV {
    /// After an edit that can be undone.
    pub open spec fn edited(self, to: EditV) -> TextV {
        TextV { now: to, done: self.done.push(self.now), undone: Seq::empty() }
    }

    /// After the cursor moved.
    pub open spec fn moved(self, cursor: int) -> TextV {
        TextV { now: self.now.at(cursor), done: self.done, undone: self.undone }
    }

    /// After one step back.
    pub open spec fn undo(self) -> TextV {
        if self.done.len() > 0 {
            TextV {
                now: self.done.last(),
                done: self.done.drop_last(),
                undone: self.undone.push(self.now),
            }
        } else {
            self
        }
    }

    /// After one step forward again.
    pub open spec fn redo(self) -> TextV {
        if self.undone.len() > 0 {
            TextV {
                now: self.undone.last(),
                done: self.done.push(self.now),
                undone: self.undone.drop_last(),
            }
        } else {
            self
        }
    }
}

/// Undoing an edit brings back what was there, and redoing it the edit.
pub proof fn undo_reverts_edit(t: TextV, to: EditV)
    ensures
        t.edited(to).undo().now == t.now,
        t.edited(to).undo().done == t.done,
        t.edited(to).undo().redo() == t.edited(to),
{
    assert(t.done.push(t.now).drop_last() =~= t.done);
    assert(Seq::<EditV>::empty().push(to).drop_last() =~= Seq::<EditV>::empty());
}

/// Where the word to the left of `i` begins: whitespace is skipped, then the
/// characters that are none.
pub open spec fn word_left(s: Seq<char>, i: int) -> int {
    run_left(s, run_left(s, i, true), false)
}

/// Where the word to the right of `i` ends: whitespace is skipped, then the
/// characters that are none.
pub open spec fn word_right(s: Seq<char>, i: int) -> int {
    run_right(s, run_right(s, i, true), false)
}

/// Leftwards from `i` while the characters are (or are not) whitespace.
pub open spec fn run_left(s: Seq<char>, i: int, space: bool) -> int
    decreases i,
{
    if 0 < i <= s.len() && whitespace_char(s[i - 1]) == space {
        run_left(s, i - 1, space)
    } else {
        i
    }
}

/// Rightwards from `i` while the characters are (or are not) whitespace.
pub open spec fn run_right(s: Seq<char>, i: int, space: bool) -> int
    decreases s.len() - i,
{
    if 0 <= i < s.len() && whitespace_char(s[i]) == space {
        run_right(s, i + 1, space)
    } else {
        i
    }
}

/// The start of the line that holds position `i`.
pub open spec fn line_home(s: Seq<char>, i: int) -> int
    decreases i,
{
    if 0 < i <= s.len() && s[i - 1] != '\n' {
        line_home(s, i - 1)
    } else {
        i
    }
}

/// The end of the line that holds position `i`.
pub open spec fn line_end(s: Seq<char>, i: int) -> int
    decreases s.len() - i,
{
    if 0 <= i < s.len() && s[i] != '\n' {
        line_end(s, i + 1)
    } else {
        i
    }
}

/// The start of the screen row that holds position `n`, rows being `width`
/// columns wide: a line break starts a row, and so does a character that would
/// not fit behind the others.
pub open spec fn row_start(s: Seq<char>, n: int, width: nat) -> int
    decreases n,
{
    if n <= 0 {
        0
    } else if s[n - 1] == '\n' {
        n
    } else {
        let p = row_start(s, n - 1, width);
        if n - 1 > p && total_columns(s.subrange(p, n)) > width {
            n - 1
        } else {
            p
        }
    }
}

/// Where the cursor goes one screen row up, if there is one.
pub open spec fn visual_up(e: EditV, width: nat) -> Option<int> {
    let r = row_start(e.text, e.cursor, width);
    if r > 0 {
        let p = row_start(e.text, r - 1, width);
        let column = total_columns(e.text.subrange(r, e.cursor));
        Some(p + fit_len(e.text.subrange(p, r - 1), column))
    } else {
        None
    }
}

/// The first position behind `n` that lies on another screen row, or the end of
/// the text and one more where there is none.
pub open spec fn row_end(s: Seq<char>, n: int, width: nat, r: int) -> int
    decreases s.len() - n,
{
    if n >= s.len() {
        s.len() as int + 1
    } else if row_start(s, n + 1, width) != r {
        n + 1
    } else {
        row_end(s, n + 1, width, r)
    }
}

/// Where the cursor goes one screen row down, if there is one.
pub open spec fn visual_down(e: EditV, width: nat) -> Option<int> {
    let r = row_start(e.text, e.cursor, width);
    let next = row_end(e.text, e.cursor, width, r);
    if next <= e.text.len() {
        let p = row_start(e.text, next, width);
        let stop = row_end(e.text, next, width, p) - 1;
        let column = total_columns(e.text.subrange(r, e.cursor));
        Some(p + fit_len(e.text.subrange(p, stop), column))
    } else {
        None
    }
}

proof fn row_start_bounds(s: Seq<char>, n: int, width: nat)
    requires
        0 <= n <= s.len(),
    ensures
        0 <= row_start(s, n, width) <= n,
    decreases n,
{
    if n > 0 {
        row_start_bounds(s, n - 1, width);
    }
}

impl Default for TextAreaState {
    fn default() -> (t: TextAreaState)
        ensures
            t@ == fresh(Seq::empty()),
    {
        let t = TextAreaState {
            text: String::new(),
            cursor: 0,
            undone: Vec::new(),
            done: Vec::new(),
        };
        assert(t@.done =~= Seq::empty());
        assert(t@.undone =~= Seq::empty());
        t
    }
}

impl TextAreaState {
    fn clamped(&self, n: usize) -> (c: usize)
        requires
            n == self.text@.len(),
        ensures
            c == self@.now.cursor,
            0 <= c <= n,
    {
        if self.cursor < n {
            self.cursor
        } else {
            n
        }
    }

    /// Replaces what is shown, keeping it for undo.
    fn change(&mut self, text: String, cursor: usize)
        requires
            cursor <= text@.len(),
        ensures
            final(self)@ == old(self)@.edited(EditV { text: text@, cursor: cursor as int }),
    {
        let ghost before = self@;
        let mut old_text = text;
        std::mem::swap(&mut old_text, &mut self.text);
        let snapshot = Snapshot { text: old_text, cursor: self.cursor };
        self.done.push(snapshot);
        self.cursor = cursor;
        self.undone = Vec::new();
        assert(self@.done =~= before.done.push(before.now));
        assert(self@.undone =~= Seq::empty());
    }

    fn place(&mut self, cursor: usize)
        requires
            cursor <= old(self).text@.len(),
        ensures
            final(self)@ == old(self)@.moved(cursor as int),
            final(self).text@ == old(self).text@,
    {
        self.cursor = cursor;
    }

    /// The characters before and behind the cursor.
    fn split(&self) -> (r: (Vec<char>, usize))
        ensures
            r.0@ == self@.now.text,
            r.1 == self@.now.cursor,
            r.1 <= r.0@.len(),
            r.0@ == self.text@,
    {
        let cs = to_chars(self.text.as_str());
        let c: usize = self.clamped(cs.len());
        (cs, c)
    }

    /// The text without the characters from `from` to `to`.
    fn cut(&mut self, cs: &Vec<char>, from: usize, to: usize)
        requires
            from <= to <= cs@.len(),
            cs@ == old(self)@.now.text,
        ensures
            final(self)@ == old(self)@.edited(old(self)@.now.without(from as int, to as int)),
    {
        let mut kept: Vec<char> = Vec::new();
        let mut i: usize = 0;
        while i < cs.len()
            invariant
                i <= cs@.len(),
                from <= to <= cs@.len(),
                kept@ == (if i <= from {
                    cs@.take(i as int)
                } else if i <= to {
                    cs@.take(from as int)
                } else {
                    cs@.take(from as int) + cs@.subrange(to as int, i as int)
                }),
            decreases cs.len() - i,
        {
            if i < from || i >= to {
                kept.push(cs[i]);
            }
            i = i + 1;
            assert(kept@ =~= (if i <= from {
                cs@.take(i as int)
            } else if i <= to {
                cs@.take(from as int)
            } else {
                cs@.take(from as int) + cs@.subrange(to as int, i as int)
            }));
        }
        assert(kept@ =~= cs@.take(from as int) + cs@.skip(to as int));
        let text = from_chars(&kept);
        self.change(text, from);
    }

    pub fn insert_char(&mut self, c: char)
        ensures
            final(self)@ == old(self)@.edited(old(self)@.now.inserted(seq![c])),
    {
        let (cs, at) = self.split();
        let mut out: Vec<char> = Vec::new();
        let mut i: usize = 0;
        while i < at
            invariant
                i <= at <= cs@.len(),
                out@ == cs@.take(i as int),
            decreases at - i,
        {
            out.push(cs[i]);
            i = i + 1;
            assert(out@ =~= cs@.take(i as int));
        }
        out.push(c);
        let cursor: usize = out.len();
        let ghost head = cs@.take(at as int) + seq![c];
        assert(out@ =~= head + cs@.subrange(at as int, at as int));
        while i < cs.len()
            invariant
                at <= i <= cs@.len(),
                out@ == head + cs@.subrange(at as int, i as int),
            decreases cs.len() - i,
        {
            out.push(cs[i]);
            i = i + 1;
            assert(out@ =~= head + cs@.subrange(at as int, i as int));
        }
        assert(out@ =~= self@.now.inserted(seq![c]).text);
        let text = from_chars(&out);
        self.change(text, cursor);
    }

    /// Puts a text in at the cursor, as one edit.
    pub fn insert_str(&mut self, s: &str)
        ensures
            final(self)@ == old(self)@.edited(old(self)@.now.inserted(s@)),
    {
        let (cs, at) = self.split();
        let add = to_chars(s);
        let mut out: Vec<char> = Vec::new();
        let mut i: usize = 0;
        while i < at
            invariant
                i <= at <= cs@.len(),
                out@ == cs@.take(i as int),
            decreases at - i,
        {
            out.push(cs[i]);
            i = i + 1;
            assert(out@ =~= cs@.take(i as int));
        }
        let mut j: usize = 0;
        assert(out@ =~= cs@.take(at as int) + add@.take(0));
        while j < add.len()
            invariant
                j <= add@.len(),
                out@ == cs@.take(at as int) + add@.take(j as int),
            decreases add.len() - j,
        {
            out.push(add[j]);
            j = j + 1;
            assert(out@ =~= cs@.take(at as int) + add@.take(j as int));
        }
        let cursor: usize = out.len();
        let ghost head = cs@.take(at as int) + s@;
        assert(out@ =~= head + cs@.subrange(at as int, at as int));
        while i < cs.len()
            invariant
                at <= i <= cs@.len(),
                out@ == head + cs@.subrange(at as int, i as int),
            decreases cs.len() - i,
        {
            out.push(cs[i]);
            i = i + 1;
            assert(out@ =~= head + cs@.subrange(at as int, i as int));
        }
        assert(out@ =~= self@.now.inserted(s@).text);
        let text = from_chars(&out);
        self.change(text, cursor);
    }

    /// Takes out the character before the cursor, if there is one.
    pub fn backspace(&mut self)
        ensures
            final(self)@ == (if old(self)@.now.cursor > 0 {
                old(self)@.edited(
                    old(self)@.now.without(old(self)@.now.cursor - 1, old(self)@.now.cursor),
                )
            } else {
                old(self)@
            }),
    {
        let (cs, at) = self.split();
        if at > 0 {
            self.cut(&cs, at - 1, at);
        }
    }

    /// Takes out the character behind the cursor, if there is one.
    pub fn delete_forward(&mut self)
        ensures
            final(self)@ == (if old(self)@.now.cursor < old(self)@.now.text.len() {
                old(self)@.edited(
                    old(self)@.now.without(old(self)@.now.cursor, old(self)@.now.cursor + 1),
                )
            } else {
                old(self)@
            }),
    {
        let (cs, at) = self.split();
        if at < cs.len() {
            self.cut(&cs, at, at + 1);
        }
    }

    /// Takes out the word before the cursor, if there is anything before it.
    pub fn delete_word_backward(&mut self)
        ensures
            final(self)@ == (if old(self)@.now.cursor > 0 {
                old(self)@.edited(
                    old(self)@.now.without(
                        word_left(old(self)@.now.text, old(self)@.now.cursor),
                        old(self)@.now.cursor,
                    ),
                )
            } else {
                old(self)@
            }),
    {
        let (cs, at) = self.split();
        if at > 0 {
            let mid: usize = scan_left(&cs, at, true);
            let from: usize = scan_left(&cs, mid, false);
            self.cut(&cs, from, at);
        }
    }

    /// Takes out everything.
    pub fn clear(&mut self)
        ensures
            final(self)@ == old(self)@.edited(EditV { text: Seq::empty(), cursor: 0 }),
    {
        self.change(String::new(), 0);
    }

    pub fn cursor_left(&mut self)
        ensures
            final(self)@ == old(self)@.moved(
                if old(self)@.now.cursor > 0 {
                    old(self)@.now.cursor - 1
                } else {
                    0
                },
            ),
    {
        let (cs, at) = self.split();
        self.place(if at > 0 { at - 1 } else { 0 });
    }

    pub fn cursor_right(&mut self)
        ensures
            final(self)@ == old(self)@.moved(
                if old(self)@.now.cursor < old(self)@.now.text.len() {
                    old(self)@.now.cursor + 1
                } else {
                    old(self)@.now.cursor
                },
            ),
    {
        let (cs, at) = self.split();
        self.place(if at < cs.len() { at + 1 } else { at });
    }

    pub fn cursor_word_left(&mut self)
        ensures
            final(self)@ == old(self)@.moved(
                word_left(old(self)@.now.text, old(self)@.now.cursor),
            ),
    {
        let (cs, at) = self.split();
        let mid: usize = scan_left(&cs, at, true);
        let to: usize = scan_left(&cs, mid, false);
        self.place(to);
    }

    pub fn cursor_word_right(&mut self)
        ensures
            final(self)@ == old(self)@.moved(
                word_right(old(self)@.now.text, old(self)@.now.cursor),
            ),
    {
        let (cs, at) = self.split();
        let mid: usize = scan_right(&cs, at, true);
        let to: usize = scan_right(&cs, mid, false);
        self.place(to);
    }

    pub fn cursor_line_home(&mut self)
        ensures
            final(self)@ == old(self)@.moved(
                line_home(old(self)@.now.text, old(self)@.now.cursor),
            ),
    {
        let (cs, at) = self.split();
        let mut i: usize = at;
        while i > 0 && cs[i - 1] != '\n'
            invariant
                i <= cs@.len(),
                line_home(cs@, i as int) == line_home(cs@, at as int),
            decreases i,
        {
            i = i - 1;
        }
        self.place(i);
    }

    pub fn cursor_line_end(&mut self)
        ensures
            final(self)@ == old(self)@.moved(
                line_end(old(self)@.now.text, old(self)@.now.cursor),
            ),
    {
        let (cs, at) = self.split();
        let mut i: usize = at;
        while i < cs.len() && cs[i] != '\n'
            invariant
                i <= cs@.len(),
                line_end(cs@, i as int) == line_end(cs@, at as int),
            decreases cs.len() - i,
        {
            i = i + 1;
        }
        self.place(i);
    }

    /// One screen row up; false where there is none.
    pub fn cursor_visual_up(&mut self, width: usize) -> (moved: bool)
        ensures
            moved == visual_up(old(self)@.now, width as nat) is Some,
            final(self)@ == (match visual_up(old(self)@.now, width as nat) {
                Some(to) => old(self)@.moved(to),
                None => old(self)@,
            }),
    {
        let (cs, at) = self.split();
        let r: usize = start_of_row(&cs, at, width);
        if r == 0 {
            return false;
        }
        let p: usize = start_of_row(&cs, r - 1, width);
        let to: usize = column_in_row(&cs, r, at, p, r - 1, width);
        self.place(to);
        true
    }

    /// One screen row down; false where there is none.
    pub fn cursor_visual_down(&mut self, width: usize) -> (moved: bool)
        ensures
            moved == visual_down(old(self)@.now, width as nat) is Some,
            final(self)@ == (match visual_down(old(self)@.now, width as nat) {
                Some(to) => old(self)@.moved(to),
                None => old(self)@,
            }),
    {
        let (cs, at) = self.split();
        let r: usize = start_of_row(&cs, at, width);
        let next: usize = match end_of_row(&cs, at, width, r) {
            Some(n) => n,
            None => {
                return false;
            },
        };
        let p: usize = start_of_row(&cs, next, width);
        let stop: usize = match end_of_row(&cs, next, width, p) {
            Some(n) => n - 1,
            None => cs.len(),
        };
        let to: usize = column_in_row(&cs, r, at, p, stop, width);
        self.place(to);
        true
    }

    /// One step back.
    pub fn undo(&mut self)
        ensures
            final(self)@ == old(self)@.undo(),
    {
        let ghost before = self@;
        match self.done.pop() {
            Some(s) => {
                let mut text = s.text;
                std::mem::swap(&mut text, &mut self.text);
                let snapshot = Snapshot { text, cursor: self.cursor };
                self.cursor = s.cursor;
                self.undone.push(snapshot);
                assert(self@.done =~= before.done.drop_last());
                assert(self@.undone =~= before.undone.push(before.now));
            },
            None => {
                assert(self@.done =~= before.done);
            },
        }
    }

    /// One step forward again.
    pub fn redo(&mut self)
        ensures
            final(self)@ == old(self)@.redo(),
    {
        let ghost before = self@;
        match self.undone.pop() {
            Some(s) => {
                let mut text = s.text;
                std::mem::swap(&mut text, &mut self.text);
                let snapshot = Snapshot { text, cursor: self.cursor };
                self.cursor = s.cursor;
                self.done.push(snapshot);
                assert(self@.undone =~= before.undone.drop_last());
                assert(self@.done =~= before.done.push(before.now));
            },
            None => {
                assert(self@.undone =~= before.undone);
            },
        }
    }

    /// Puts another text in place of this one, without a step to undo.
    pub fn replace_all_no_undo(&mut self, text: String)
        ensures
            final(self)@.now == (EditV { text: text@, cursor: text@.len() as int }),
            final(self)@.done == old(self)@.done,
            final(self)@.undone == old(self)@.undone,
    {
        let cs = to_chars(text.as_str());
        self.cursor = cs.len();
        self.text = text;
    }

    /// Forgets what could be undone or redone.
    pub fn clear_undo_history(&mut self)
        ensures
            final(self)@ == (TextV {
                now: old(self)@.now,
                done: Seq::empty(),
                undone: Seq::empty(),
            }),
    {
        self.done = Vec::new();
        self.undone = Vec::new();
        assert(self@.done =~= Seq::empty());
        assert(self@.undone =~= Seq::empty());
    }

    /// The whole text.
    pub fn all_text(&self) -> (s: String)
        ensures
            s@ == self@.now.text,
    {
        self.text.clone()
    }

    /// Whether nothing has been typed.
    pub fn is_empty(&self) -> (b: bool)
        ensures
            b == (self@.now.text.len() == 0),
    {
        self.text.as_str().is_empty()
    }
}

fn scan_left(cs: &Vec<char>, from: usize, space: bool) -> (i: usize)
    requires
        from <= cs@.len(),
    ensures
        i == run_left(cs@, from as int, space),
        i <= from,
{
    let mut i: usize = from;
    while i > 0 && is_whitespace(cs[i - 1]) == space
        invariant
            i <= from <= cs@.len(),
            run_left(cs@, i as int, space) == run_left(cs@, from as int, space),
        decreases i,
    {
        i = i - 1;
    }
    i
}

fn scan_right(cs: &Vec<char>, from: usize, space: bool) -> (i: usize)
    requires
        from <= cs@.len(),
    ensures
        i == run_right(cs@, from as int, space),
        from <= i <= cs@.len(),
{
    let mut i: usize = from;
    while i < cs.len() && is_whitespace(cs[i]) == space
        invariant
            from <= i <= cs@.len(),
            run_right(cs@, i as int, space) == run_right(cs@, from as int, space),
        decreases cs.len() - i,
    {
        i = i + 1;
    }
    i
}

/// The columns between two positions are at most `limit`.
fn columns_within(cs: &Vec<char>, from: usize, to: usize, limit: usize) -> (b: bool)
    requires
        from <= to <= cs@.len(),
    ensures
        b == (total_columns(cs@.subrange(from as int, to as int)) <= limit),
{
    let mut used: usize = 0;
    let mut i: usize = from;
    assert(cs@.subrange(from as int, from as int) =~= Seq::<char>::empty());
    while i < to
        invariant
            from <= i <= to <= cs@.len(),
            used == total_columns(cs@.subrange(from as int, i as int)),
            used <= limit,
        decreases to - i,
    {
        let w: usize = char_columns(cs[i]);
        assert(cs@.subrange(from as int, i + 1).drop_last() =~= cs@.subrange(
            from as int,
            i as int,
        ));
        if w > limit - used {
            proof {
                assert(cs@.subrange(from as int, i + 1) =~= cs@.subrange(
                    from as int,
                    to as int,
                ).subrange(0, i + 1 - from));
                total_columns_part(
                    cs@.subrange(from as int, to as int),
                    0,
                    i + 1 - from,
                );
            }
            return false;
        }
        used = used + w;
        i = i + 1;
    }
    true
}

fn start_of_row(cs: &Vec<char>, n: usize, width: usize) -> (r: usize)
    requires
        n <= cs@.len(),
    ensures
        r == row_start(cs@, n as int, width as nat),
        r <= n,
{
    let mut r: usize = 0;
    let mut i: usize = 0;
    while i < n
        invariant
            r <= i <= n <= cs@.len(),
            r == row_start(cs@, i as int, width as nat),
        decreases n - i,
    {
        if cs[i] == '\n' {
            r = i + 1;
        } else if i > r && !columns_within(cs, r, i + 1, width) {
            r = i;
        }
        i = i + 1;
    }
    r
}

/// The first position behind `n` on another row, if there is one.
fn end_of_row(cs: &Vec<char>, n: usize, width: usize, r: usize) -> (e: Option<usize>)
    requires
        n <= cs@.len(),
    ensures
        match e {
            Some(e) => e == row_end(cs@, n as int, width as nat, r as int) && n < e <= cs@.len(),
            None => row_end(cs@, n as int, width as nat, r as int) == cs@.len() + 1,
        },
{
    let mut i: usize = n;
    while i < cs.len()
        invariant
            n <= i <= cs@.len(),
            row_end(cs@, i as int, width as nat, r as int) == row_end(
                cs@,
                n as int,
                width as nat,
                r as int,
            ),
        decreases cs.len() - i,
    {
        if start_of_row(cs, i + 1, width) != r {
            return Some(i + 1);
        }
        i = i + 1;
    }
    None
}

/// A row is no wider than `width` columns, but for a single character.
proof fn row_columns_bound(s: Seq<char>, n: int, width: nat)
    requires
        0 <= n <= s.len(),
    ensures
        n - row_start(s, n, width) <= 1 || total_columns(s.subrange(row_start(s, n, width), n))
            <= width,
    decreases n,
{
    if n > 0 {
        row_columns_bound(s, n - 1, width);
        row_start_bounds(s, n - 1, width);
    }
}

/// The columns between two positions.
fn columns_between(cs: &Vec<char>, from: usize, to: usize) -> (n: usize)
    requires
        from <= to <= cs@.len(),
        total_columns(cs@.subrange(from as int, to as int)) <= usize::MAX,
    ensures
        n == total_columns(cs@.subrange(from as int, to as int)),
{
    let ghost all = cs@.subrange(from as int, to as int);
    let mut used: usize = 0;
    let mut i: usize = from;
    assert(cs@.subrange(from as int, from as int) =~= Seq::<char>::empty());
    while i < to
        invariant
            from <= i <= to <= cs@.len(),
            all == cs@.subrange(from as int, to as int),
            total_columns(all) <= usize::MAX,
            used == total_columns(cs@.subrange(from as int, i as int)),
        decreases to - i,
    {
        let w: usize = char_columns(cs[i]);
        proof {
            let next = cs@.subrange(from as int, i + 1);
            assert(next.drop_last() =~= cs@.subrange(from as int, i as int));
            assert(next =~= all.subrange(0, i + 1 - from));
            total_columns_part(all, 0, i + 1 - from);
        }
        used = used + w;
        i = i + 1;
    }
    used
}

/// The position between `from` and `to` in the column of position `at` of the row
/// that starts at `r`.
fn column_in_row(cs: &Vec<char>, r: usize, at: usize, from: usize, to: usize, width: usize) -> (i:
    usize)
    requires
        at <= cs@.len(),
        r == row_start(cs@, at as int, width as nat),
        from <= to <= cs@.len(),
    ensures
        i == from + fit_len(
            cs@.subrange(from as int, to as int),
            total_columns(cs@.subrange(r as int, at as int)),
        ),
        from <= i <= to,
{
    proof {
        row_start_bounds(cs@, at as int, width as nat);
        row_columns_bound(cs@, at as int, width as nat);
        let part = cs@.subrange(r as int, at as int);
        if at - r == 1 {
            assert(part.drop_last() =~= Seq::<char>::empty());
            assert(total_columns(part) == columns(part[0])) by {
                reveal_with_fuel(total_columns, 2);
            }
        } else if at == r {
            assert(part =~= Seq::<char>::empty());
        }
    }
    let column: usize = columns_between(cs, r, at);
    let mut row: Vec<char> = Vec::new();
    let mut i: usize = from;
    while i < to
        invariant
            from <= i <= to <= cs@.len(),
            row@ == cs@.subrange(from as int, i as int),
        decreases to - i,
    {
        row.push(cs[i]);
        i = i + 1;
        assert(row@ =~= cs@.subrange(from as int, i as int));
    }
    let n: usize = fit_prefix(&row, column);
    from + n
}

} // verus!
