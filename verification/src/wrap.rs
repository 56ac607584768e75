//! Trimming and breaking text into lines of a given width.

use crate::text::{char_columns, columns, is_whitespace, slice_chars, str_width,
    str_width_of, to_chars, total_columns, total_columns_add, total_columns_part, whitespace_char};
use vstd::prelude::*;

verus! {

// ── Trimming ───────────────────────────────────────────────────────────────

/// The text without its leading whitespace.
pub open spec fn trim_start_spec(s: Seq<char>) -> Seq<char>
    decreases s.len(),
{
    if s.len() > 0 && whitespace_char(s[0]) {
        trim_start_spec(s.drop_first())
    } else {
        s
    }
}

/// The text without its trailing whitespace.
pub open spec fn trim_end_spec(s: Seq<char>) -> Seq<char>
    decreases s.len(),
{
    if s.len() > 0 && whitespace_char(s.last()) {
        trim_end_spec(s.drop_last())
    } else {
        s
    }
}

/// The text without leading and trailing whitespace.
pub open spec fn trim_spec(s: Seq<char>) -> Seq<char> {
    trim_end_spec(trim_start_spec(s))
}

/// The bounds of what is left of the characters from `from` to `to` once
/// whitespace at both ends is dropped.
fn trim_bounds(cs: &Vec<char>, from: usize, to: usize) -> (r: (usize, usize))
    requires
        from <= to <= cs@.len(),
    ensures
        from <= r.0 <= r.1 <= to,
        cs@.subrange(r.0 as int, r.1 as int) == trim_spec(cs@.subrange(from as int, to as int)),
{
    let mut a: usize = from;
    while a < to && is_whitespace(cs[a])
        invariant
            from <= a <= to <= cs@.len(),
            trim_start_spec(cs@.subrange(a as int, to as int)) == trim_start_spec(
                cs@.subrange(from as int, to as int),
            ),
        decreases to - a,
    {
        assert(cs@.subrange(a as int, to as int).drop_first() =~= cs@.subrange(
            a + 1,
            to as int,
        ));
        a = a + 1;
    }
    let ghost started = cs@.subrange(a as int, to as int);
    let mut b: usize = to;
    while b > a && is_whitespace(cs[b - 1])
        invariant
            from <= a <= b <= to <= cs@.len(),
            started == cs@.subrange(a as int, to as int),
            trim_end_spec(cs@.subrange(a as int, b as int)) == trim_end_spec(started),
        decreases b,
    {
        assert(cs@.subrange(a as int, b as int).drop_last() =~= cs@.subrange(a as int, b - 1));
        b = b - 1;
    }
    (a, b)
}

/// The text without leading and trailing whitespace.
pub fn trim(s: &str) -> (r: String)
    ensures
        r@ == trim_spec(s@),
{
    let cs = to_chars(s);
    let (a, b) = trim_bounds(&cs, 0, cs.len());
    assert(cs@.subrange(0, cs@.len() as int) =~= s@);
    slice_chars(&cs, a, b)
}

/// Whether nothing but whitespace stands in the text.
pub fn is_blank(s: &str) -> (b: bool)
    ensures
        b == (trim_spec(s@).len() == 0),
{
    let cs = to_chars(s);
    let (a, b) = trim_bounds(&cs, 0, cs.len());
    assert(cs@.subrange(0, cs@.len() as int) =~= s@);
    a == b
}

// ── Wrapping ───────────────────────────────────────────────────────────────

/// Where a line that starts at `pos` is full: the first character is taken
/// whatever its width, each further one while the line stays within `max`
/// columns. `end` characters have been looked at so far, `used` columns wide.
pub open spec fn line_full(s: Seq<char>, pos: int, end: int, used: nat, max: nat) -> int
    decreases s.len() - end,
{
    if end < s.len() && (end <= pos || used + columns(s[end]) <= max) {
        line_full(s, pos, end + 1, used + columns(s[end]), max)
    } else {
        end
    }
}

/// The index of the last whitespace character from `pos` up to but not including
/// `end`, or -1 where there is none.
pub open spec fn last_space(s: Seq<char>, pos: int, end: int) -> int
    decreases end - pos,
{
    if end <= pos {
        -1
    } else if whitespace_char(s[end - 1]) {
        end - 1
    } else {
        last_space(s, pos, end - 1)
    }
}

/// Where the line that starts at `pos` is broken: at its last whitespace, and
/// where it has none past its start, where it is full.
pub open spec fn line_break(s: Seq<char>, pos: int, max: nat) -> int {
    let full = line_full(s, pos, pos, 0, max);
    let space = last_space(s, pos, full);
    if space > pos {
        space
    } else {
        full
    }
}

/// The first index from `pos` on that holds no whitespace.
pub open spec fn skip_space(s: Seq<char>, pos: int) -> int
    decreases s.len() - pos,
{
    if 0 <= pos < s.len() && whitespace_char(s[pos]) {
        skip_space(s, pos + 1)
    } else {
        pos
    }
}

/// The lines that the text from `pos` on is broken into; a line of nothing but
/// whitespace is dropped.
pub open spec fn wrapped_from(s: Seq<char>, pos: int, max: nat) -> Seq<Seq<char>>
    decreases s.len() - pos,
{
    if 0 <= pos < s.len() {
        let at = line_break(s, pos, max);
        let next = skip_space(s, at);
        proof {
            lemma_line_break(s, pos, max);
            lemma_skip_space(s, at);
        }
        let segment = trim_spec(s.subrange(pos, at));
        if segment.len() > 0 {
            seq![segment] + wrapped_from(s, next, max)
        } else {
            wrapped_from(s, next, max)
        }
    } else {
        Seq::empty()
    }
}

/// The lines of a text in a column of `max` columns; the text itself where it
/// fits, where there is no width, or where nothing but whitespace stands in it.
pub open spec fn wrap_text_spec(s: Seq<char>, max: nat) -> Seq<Seq<char>> {
    if max == 0 || str_width_of(s) <= max || wrapped_from(s, 0, max).len() == 0 {
        seq![s]
    } else {
        wrapped_from(s, 0, max)
    }
}

proof fn lemma_line_full(s: Seq<char>, pos: int, end: int, used: nat, max: nat)
    requires
        0 <= pos <= end <= s.len(),
        pos < s.len(),
        used == total_columns(s.subrange(pos, end)),
        end <= pos + 1 || used <= max,
    ensures
        pos < line_full(s, pos, end, used, max) <= s.len(),
        end <= line_full(s, pos, end, used, max),
        line_full(s, pos, end, used, max) == pos + 1 || total_columns(
            s.subrange(pos, line_full(s, pos, end, used, max)),
        ) <= max,
    decreases s.len() - end,
{
    if end < s.len() && (end <= pos || used + columns(s[end]) <= max) {
        assert(s.subrange(pos, end + 1).drop_last() =~= s.subrange(pos, end));
        lemma_line_full(s, pos, end + 1, used + columns(s[end]), max);
    }
}

proof fn lemma_last_space(s: Seq<char>, pos: int, end: int)
    ensures
        last_space(s, pos, end) == -1 || pos <= last_space(s, pos, end) < end,
        last_space(s, pos, end) >= 0 ==> whitespace_char(s[last_space(s, pos, end)]),
    decreases end - pos,
{
    if end > pos && !whitespace_char(s[end - 1]) {
        lemma_last_space(s, pos, end - 1);
    }
}

/// A line ends behind its start, within the text, and is no wider than `max`
/// columns but for a single character.
pub proof fn lemma_line_break(s: Seq<char>, pos: int, max: nat)
    requires
        0 <= pos < s.len(),
    ensures
        pos < line_break(s, pos, max) <= s.len(),
        line_break(s, pos, max) == pos + 1 || total_columns(
            s.subrange(pos, line_break(s, pos, max)),
        ) <= max,
{
    assert(s.subrange(pos, pos) =~= Seq::<char>::empty());
    lemma_line_full(s, pos, pos, 0, max);
    let full = line_full(s, pos, pos, 0, max);
    lemma_last_space(s, pos, full);
    let at = line_break(s, pos, max);
    if at != full {
        assert(s.subrange(pos, at) =~= s.subrange(pos, full).subrange(0, at - pos));
        total_columns_part(s.subrange(pos, full), 0, at - pos);
    }
}

/// Skipping whitespace stays within the text.
pub proof fn lemma_skip_space(s: Seq<char>, pos: int)
    requires
        0 <= pos <= s.len(),
    ensures
        pos <= skip_space(s, pos) <= s.len(),
        skip_space(s, pos) < s.len() ==> !whitespace_char(s[skip_space(s, pos)]),
    decreases s.len() - pos,
{
    if pos < s.len() && whitespace_char(s[pos]) {
        lemma_skip_space(s, pos + 1);
    }
}

proof fn lemma_trim_is_part(s: Seq<char>)
    ensures
        exists|i: int, j: int|
            0 <= i <= j <= s.len() && trim_spec(s) == #[trigger] s.subrange(i, j),
{
    lemma_trim_start_is_part(s);
    let i = choose|i: int|
        0 <= i <= s.len() && trim_start_spec(s) == #[trigger] s.subrange(i, s.len() as int);
    let t = trim_start_spec(s);
    lemma_trim_end_is_part(t);
    let j = choose|j: int| 0 <= j <= t.len() && trim_end_spec(t) == #[trigger] t.subrange(0, j);
    assert(t.subrange(0, j) =~= s.subrange(i, i + j));
}

proof fn lemma_trim_start_is_part(s: Seq<char>)
    ensures
        exists|i: int|
            0 <= i <= s.len() && trim_start_spec(s) == #[trigger] s.subrange(i, s.len() as int),
    decreases s.len(),
{
    if s.len() > 0 && whitespace_char(s[0]) {
        let t = s.drop_first();
        lemma_trim_start_is_part(t);
        let i = choose|i: int|
            0 <= i <= t.len() && trim_start_spec(t) == #[trigger] t.subrange(i, t.len() as int);
        assert(t.subrange(i, t.len() as int) =~= s.subrange(i + 1, s.len() as int));
    } else {
        assert(s.subrange(0, s.len() as int) =~= s);
    }
}

proof fn lemma_trim_end_is_part(s: Seq<char>)
    ensures
        exists|j: int|
            0 <= j <= s.len() && trim_end_spec(s) == #[trigger] s.subrange(0, j),
    decreases s.len(),
{
    if s.len() > 0 && whitespace_char(s.last()) {
        let t = s.drop_last();
        lemma_trim_end_is_part(t);
        let j = choose|j: int|
            0 <= j <= t.len() && trim_end_spec(t) == #[trigger] t.subrange(0, j);
        assert(t.subrange(0, j) =~= s.subrange(0, j));
    } else {
        assert(s.subrange(0, s.len() as int) =~= s);
    }
}

proof fn lemma_wrapped_widths(s: Seq<char>, pos: int, max: nat, k: int)
    requires
        0 <= pos <= s.len(),
        0 <= k < wrapped_from(s, pos, max).len(),
    ensures
        wrapped_from(s, pos, max)[k].len() > 0,
        wrapped_from(s, pos, max)[k].len() == 1 || total_columns(wrapped_from(s, pos, max)[k])
            <= max,
    decreases s.len() - pos,
{
    let at = line_break(s, pos, max);
    let next = skip_space(s, at);
    lemma_line_break(s, pos, max);
    lemma_skip_space(s, at);
    let line = s.subrange(pos, at);
    let segment = trim_spec(line);
    if segment.len() > 0 && k == 0 {
        lemma_trim_is_part(line);
        let (i, j) = choose|i: int, j: int|
            0 <= i <= j <= line.len() && segment == #[trigger] line.subrange(i, j);
        total_columns_part(line, i, j);
    } else {
        lemma_wrapped_widths(s, next, max, if segment.len() > 0 { k - 1 } else { k });
    }
}

/// Where a text is broken up, no line is empty and none is wider than `max`
/// columns, but for a line of a single character.
pub proof fn wrapped_lines_fit(s: Seq<char>, max: nat, k: int)
    ensures
        0 <= k < wrap_text_spec(s, max).len() && wrap_text_spec(s, max) != seq![s] ==> {
            &&& wrap_text_spec(s, max)[k].len() > 0
            &&& wrap_text_spec(s, max)[k].len() == 1 || total_columns(wrap_text_spec(s, max)[k])
                <= max
        },
{
    if 0 <= k < wrap_text_spec(s, max).len() && wrap_text_spec(s, max) != seq![s] {
        lemma_wrapped_widths(s, 0, max, k);
    }
}

/// A text always has at least one line.
pub proof fn wrapped_text_has_a_line(s: Seq<char>, max: nat)
    ensures
        wrap_text_spec(s, max).len() > 0,
{
}

/// The characters of a text that are no whitespace.
pub open spec fn visible(s: Seq<char>) -> Seq<char>
    decreases s.len(),
{
    if s.len() == 0 {
        Seq::empty()
    } else if whitespace_char(s.last()) {
        visible(s.drop_last())
    } else {
        visible(s.drop_last()).push(s.last())
    }
}

/// All lines in a row.
pub open spec fn joined(lines: Seq<Seq<char>>) -> Seq<char>
    decreases lines.len(),
{
    if lines.len() == 0 {
        Seq::empty()
    } else {
        lines[0] + joined(lines.drop_first())
    }
}

proof fn lemma_visible_add(a: Seq<char>, b: Seq<char>)
    ensures
        visible(a + b) == visible(a) + visible(b),
    decreases b.len(),
{
    if b.len() == 0 {
        assert(a + b =~= a);
    } else {
        assert((a + b).drop_last() =~= a + b.drop_last());
        lemma_visible_add(a, b.drop_last());
        assert(visible(a + b) =~= visible(a) + visible(b));
    }
}

proof fn lemma_visible_trim_start(s: Seq<char>)
    ensures
        visible(trim_start_spec(s)) == visible(s),
    decreases s.len(),
{
    if s.len() > 0 && whitespace_char(s[0]) {
        let head = seq![s[0]];
        lemma_visible_trim_start(s.drop_first());
        lemma_visible_add(head, s.drop_first());
        assert(s =~= head + s.drop_first());
        assert(visible(head) =~= Seq::<char>::empty()) by {
            reveal_with_fuel(visible, 2);
        }
        assert(visible(s) =~= visible(s.drop_first()));
    }
}

proof fn lemma_visible_trim_end(s: Seq<char>)
    ensures
        visible(trim_end_spec(s)) == visible(s),
    decreases s.len(),
{
    if s.len() > 0 && whitespace_char(s.last()) {
        lemma_visible_trim_end(s.drop_last());
    }
}

proof fn lemma_visible_skip_space(s: Seq<char>, pos: int)
    requires
        0 <= pos <= s.len(),
    ensures
        visible(s.skip(skip_space(s, pos))) == visible(s.skip(pos)),
    decreases s.len() - pos,
{
    if pos < s.len() && whitespace_char(s[pos]) {
        lemma_visible_skip_space(s, pos + 1);
        let head = seq![s[pos]];
        assert(s.skip(pos) =~= head + s.skip(pos + 1));
        lemma_visible_add(head, s.skip(pos + 1));
        assert(visible(head) =~= Seq::<char>::empty()) by {
            reveal_with_fuel(visible, 2);
        }
        assert(visible(s.skip(pos)) =~= visible(s.skip(pos + 1)));
    }
}

proof fn lemma_wrapped_keeps_visible(s: Seq<char>, pos: int, max: nat)
    requires
        0 <= pos <= s.len(),
    ensures
        visible(joined(wrapped_from(s, pos, max))) == visible(s.skip(pos)),
    decreases s.len() - pos,
{
    if pos < s.len() {
        let at = line_break(s, pos, max);
        let next = skip_space(s, at);
        lemma_line_break(s, pos, max);
        lemma_skip_space(s, at);
        lemma_wrapped_keeps_visible(s, next, max);
        lemma_visible_skip_space(s, at);
        let line = s.subrange(pos, at);
        let segment = trim_spec(line);
        lemma_visible_trim_start(line);
        lemma_visible_trim_end(trim_start_spec(line));
        assert(s.skip(pos) =~= line + s.skip(at));
        lemma_visible_add(line, s.skip(at));
        let rest = wrapped_from(s, next, max);
        if segment.len() > 0 {
            assert((seq![segment] + rest).drop_first() =~= rest);
            lemma_visible_add(segment, joined(rest));
        } else {
            assert(visible(segment) =~= Seq::<char>::empty());
            assert(visible(line) + visible(s.skip(at)) =~= visible(s.skip(at)));
        }
    } else {
        assert(s.skip(pos) =~= Seq::<char>::empty());
    }
}

/// Wrapping loses nothing that can be seen: the lines hold, in order, the
/// characters of the text that are no whitespace.
pub proof fn wrapping_keeps_visible_text(s: Seq<char>, max: nat)
    ensures
        visible(joined(wrap_text_spec(s, max))) == visible(s),
{
    if wrap_text_spec(s, max) == seq![s] {
        assert(seq![s].drop_first() =~= Seq::<Seq<char>>::empty());
        assert(joined(seq![s]) =~= s) by {
            reveal_with_fuel(joined, 2);
        }
    } else {
        lemma_wrapped_keeps_visible(s, 0, max);
        assert(s.skip(0) =~= s);
    }
}

/// A word of a text: from `a` to `b`, with whitespace or an end of the text on both sides.
pub open spec fn is_word(s: Seq<char>, a: int, b: int) -> bool {
    &&& 0 <= a < b <= s.len()
    &&& forall|i: int| a <= i < b ==> !whitespace_char(#[trigger] s[i])
    &&& a == 0 || whitespace_char(s[a - 1])
    &&& b == s.len() || whitespace_char(s[b])
}

/// The characters stand in the line in one piece, from `k` on.
pub open spec fn stands_at(line: Seq<char>, word: Seq<char>, k: int) -> bool {
    0 <= k && k + word.len() <= line.len() && line.subrange(k, k + word.len()) == word
}

/// The characters stand in the line in one piece.
pub open spec fn holds_whole(line: Seq<char>, word: Seq<char>) -> bool {
    exists|k: int| stands_at(line, word, k)
}

proof fn lemma_trim_start_holds(t: Seq<char>, i: int, j: int)
    requires
        0 <= i < j <= t.len(),
        !whitespace_char(t[i]),
    ensures
        ({
            let r = trim_start_spec(t);
            let cut = t.len() - r.len();
            0 <= cut <= i && r == t.subrange(cut, t.len() as int)
        }),
    decreases t.len(),
{
    if whitespace_char(t[0]) {
        lemma_trim_start_holds(t.drop_first(), i - 1, j - 1);
        let cut = t.drop_first().len() - trim_start_spec(t.drop_first()).len();
        assert(t.drop_first().subrange(cut, t.len() - 1) =~= t.subrange(cut + 1, t.len() as int));
    } else {
        assert(t.subrange(0, t.len() as int) =~= t);
    }
}

proof fn lemma_trim_end_holds(t: Seq<char>, j: int)
    requires
        0 < j <= t.len(),
        !whitespace_char(t[j - 1]),
    ensures
        j <= trim_end_spec(t).len() <= t.len(),
        trim_end_spec(t) == t.subrange(0, trim_end_spec(t).len() as int),
    decreases t.len(),
{
    if whitespace_char(t.last()) {
        lemma_trim_end_holds(t.drop_last(), j);
        let n = trim_end_spec(t).len() as int;
        assert(t.drop_last().subrange(0, n) =~= t.subrange(0, n));
    } else {
        assert(t.subrange(0, t.len() as int) =~= t);
    }
}

proof fn lemma_trim_holds(t: Seq<char>, i: int, j: int)
    requires
        0 <= i < j <= t.len(),
        !whitespace_char(t[i]),
        !whitespace_char(t[j - 1]),
    ensures
        holds_whole(trim_spec(t), t.subrange(i, j)),
{
    lemma_trim_start_holds(t, i, j);
    let r = trim_start_spec(t);
    let cut = t.len() - r.len();
    lemma_trim_end_holds(r, j - cut);
    let u = trim_spec(t);
    assert(u.subrange(i - cut, j - cut) =~= t.subrange(i, j));
    assert(stands_at(u, t.subrange(i, j), i - cut));
}

proof fn lemma_full_reaches(s: Seq<char>, pos: int, end: int, to: int, max: nat)
    requires
        0 <= pos <= end <= to <= s.len(),
        total_columns(s.subrange(pos, to)) <= max,
    ensures
        line_full(s, pos, end, total_columns(s.subrange(pos, end)), max) >= to,
    decreases to - end,
{
    if end < to {
        assert(s.subrange(pos, end + 1).drop_last() =~= s.subrange(pos, end));
        assert(s.subrange(pos, end + 1) =~= s.subrange(pos, to).subrange(0, end + 1 - pos));
        total_columns_part(s.subrange(pos, to), 0, end + 1 - pos);
        lemma_full_reaches(s, pos, end + 1, to, max);
    } else if end < s.len() {
        lemma_full_grows(s, pos, end, total_columns(s.subrange(pos, end)), max);
    }
}

proof fn lemma_full_grows(s: Seq<char>, pos: int, end: int, used: nat, max: nat)
    requires
        end <= s.len(),
    ensures
        line_full(s, pos, end, used, max) >= end,
    decreases s.len() - end,
{
    if end < s.len() && (end <= pos || used + columns(s[end]) <= max) {
        lemma_full_grows(s, pos, end + 1, used + columns(s[end]), max);
    }
}

proof fn lemma_no_space_behind(s: Seq<char>, pos: int, end: int, i: int)
    requires
        pos <= i < end,
        last_space(s, pos, end) < i,
    ensures
        !whitespace_char(s[i]),
    decreases end - pos,
{
    if i < end - 1 {
        lemma_no_space_behind(s, pos, end - 1, i);
    }
}

proof fn lemma_skip_stops(s: Seq<char>, pos: int, to: int)
    requires
        0 <= pos <= to < s.len(),
        !whitespace_char(s[to]),
    ensures
        skip_space(s, pos) <= to,
    decreases to - pos,
{
    if pos < to && whitespace_char(s[pos]) {
        lemma_skip_stops(s, pos + 1, to);
    }
}

proof fn lemma_no_break_in_word(s: Seq<char>, pos: int, max: nat, a: int, b: int)
    requires
        is_word(s, a, b),
        0 <= pos <= a,
        pos == 0 || !whitespace_char(s[pos]),
        total_columns(s.subrange(a, b)) <= max,
        a != 1 || columns(s[0]) + total_columns(s.subrange(a, b)) <= max,
    ensures
        line_break(s, pos, max) <= a || b <= line_break(s, pos, max),
{
    let full = line_full(s, pos, pos, 0, max);
    let space = last_space(s, pos, full);
    lemma_line_break(s, pos, max);
    lemma_last_space(s, pos, full);
    assert(s.subrange(pos, pos) =~= Seq::<char>::empty());
    if space <= pos && a < full < b {
        if a == pos {
            lemma_full_reaches(s, pos, pos, b, max);
        } else {
            if a - 1 > pos {
                lemma_no_space_behind(s, pos, full, a - 1);
            }
            let word = s.subrange(1, b);
            assert(s.subrange(0, b) =~= seq![s[0]] + word);
            total_columns_add(seq![s[0]], word);
            assert(total_columns(seq![s[0]]) == columns(s[0])) by {
                reveal_with_fuel(total_columns, 2);
            }
            lemma_full_reaches(s, pos, pos, b, max);
        }
    }
}

proof fn lemma_word_stays_whole(s: Seq<char>, pos: int, max: nat, a: int, b: int)
    requires
        is_word(s, a, b),
        0 <= pos <= a,
        pos == 0 || !whitespace_char(s[pos]),
        total_columns(s.subrange(a, b)) <= max,
        a != 1 || columns(s[0]) + total_columns(s.subrange(a, b)) <= max,
    ensures
        exists|k: int|
            0 <= k < wrapped_from(s, pos, max).len() && holds_whole(
                #[trigger] wrapped_from(s, pos, max)[k],
                s.subrange(a, b),
            ),
    decreases s.len() - pos,
{
    let at = line_break(s, pos, max);
    let next = skip_space(s, at);
    lemma_line_break(s, pos, max);
    lemma_skip_space(s, at);
    lemma_no_break_in_word(s, pos, max, a, b);
    let line = s.subrange(pos, at);
    let word = s.subrange(a, b);
    let segment = trim_spec(line);
    let lines = wrapped_from(s, pos, max);
    let rest = wrapped_from(s, next, max);
    if b <= at {
        lemma_trim_holds(line, a - pos, b - pos);
        assert(line.subrange(a - pos, b - pos) =~= word);
        let k = choose|k: int| stands_at(segment, word, k);
        assert(stands_at(segment, word, k));
        assert(lines[0] == segment);
        assert(holds_whole(lines[0], word));
    } else {
        lemma_skip_stops(s, at, a);
        lemma_word_stays_whole(s, next, max, a, b);
        let k = choose|k: int| 0 <= k < rest.len() && holds_whole(#[trigger] rest[k], word);
        if segment.len() > 0 {
            assert(lines[k + 1] == rest[k]);
        } else {
            assert(lines[k] == rest[k]);
        }
    }
}

/// A word that is no wider than `max` columns stands whole in one of the lines. Where a single
/// blank comes before the first word, that blank counts with it.
pub proof fn words_stay_whole(s: Seq<char>, max: nat, a: int, b: int)
    requires
        is_word(s, a, b),
        total_columns(s.subrange(a, b)) <= max,
        a != 1 || columns(s[0]) + total_columns(s.subrange(a, b)) <= max,
    ensures
        exists|k: int|
            0 <= k < wrap_text_spec(s, max).len() && holds_whole(
                #[trigger] wrap_text_spec(s, max)[k],
                s.subrange(a, b),
            ),
{
    if wrap_text_spec(s, max) == seq![s] {
        assert(stands_at(s, s.subrange(a, b), a));
        assert(holds_whole(wrap_text_spec(s, max)[0], s.subrange(a, b)));
    } else {
        lemma_word_stays_whole(s, 0, max, a, b);
    }
}

/// The lines as sequences of characters.
pub open spec fn line_views(lines: Seq<String>) -> Seq<Seq<char>> {
    lines.map_values(|l: String| l@)
}

/// Breaks a text into lines of at most `max_width` columns: at whitespace where
/// there is some, else between two characters.
pub fn wrap_text(text: &str, max_width: usize) -> (lines: Vec<String>)
    ensures
        line_views(lines@) == wrap_text_spec(text@, max_width as nat),
        lines@.len() > 0,
{
    let ghost s = text@;
    let ghost max = max_width as nat;
    let mut whole: Vec<String> = Vec::new();
    whole.push(text.to_owned());
    assert(line_views(whole@) =~= seq![s]);
    if max_width == 0 || str_width(text) <= max_width {
        return whole;
    }
    let cs = to_chars(text);
    let mut lines: Vec<String> = Vec::new();
    let mut pos: usize = 0;
    assert(line_views(lines@) + wrapped_from(s, 0, max) =~= wrapped_from(s, 0, max));
    while pos < cs.len()
        invariant
            pos <= cs.len(),
            cs@ == s,
            max == max_width,
            line_views(lines@) + wrapped_from(s, pos as int, max) == wrapped_from(s, 0, max),
        decreases cs.len() - pos,
    {
        proof {
            lemma_line_break(s, pos as int, max);
            lemma_skip_space(s, line_break(s, pos as int, max));
        }
        let mut used: usize = 0;
        let mut full: usize = pos;
        while full < cs.len()
            invariant_except_break
                pos <= full <= cs.len(),
                cs@ == s,
                max == max_width,
                full <= pos ==> used == 0,
                line_full(s, pos as int, full as int, used as nat, max) == line_full(
                    s,
                    pos as int,
                    pos as int,
                    0,
                    max,
                ),
            ensures
                pos <= full <= cs.len(),
                full == line_full(s, pos as int, pos as int, 0, max),
            decreases cs.len() - full,
        {
            let w: usize = char_columns(cs[full]);
            if full > pos && (used > max_width || w > max_width - used) {
                break;
            }
            used = used + w;
            full = full + 1;
        }
        let mut space: usize = full;
        while space > pos && !is_whitespace(cs[space - 1])
            invariant
                pos <= space <= full <= cs.len(),
                cs@ == s,
                last_space(s, pos as int, space as int) == last_space(
                    s,
                    pos as int,
                    full as int,
                ),
            decreases space,
        {
            space = space - 1;
        }
        let at: usize = if space > pos && space - 1 > pos {
            space - 1
        } else {
            full
        };
        assert(at == line_break(s, pos as int, max));
        let (a, b) = trim_bounds(&cs, pos, at);
        let ghost before = line_views(lines@);
        let ghost segment = trim_spec(s.subrange(pos as int, at as int));
        if a < b {
            lines.push(slice_chars(&cs, a, b));
            assert(line_views(lines@) =~= before.push(segment));
        }
        let mut next: usize = at;
        while next < cs.len() && is_whitespace(cs[next])
            invariant
                at <= next <= cs.len(),
                cs@ == s,
                skip_space(s, next as int) == skip_space(s, at as int),
            decreases cs.len() - next,
        {
            next = next + 1;
        }
        assert(line_views(lines@) + wrapped_from(s, next as int, max) =~= before + wrapped_from(
            s,
            pos as int,
            max,
        ));
        pos = next;
    }
    assert(line_views(lines@) + wrapped_from(s, pos as int, max) =~= line_views(lines@));
    if lines.len() == 0 {
        whole
    } else {
        lines
    }
}

} // verus!
