//! Texts, their parts, and the cursor in them.

use crate::text::{after_first, after_last, before_first, char_width_of, clip_spec, columns,
    contains_spec, control_char, decimal, ends_with_spec, first_of, fit_len, fit_len_is_longest,
    head_spec, lines_of, path_tail_spec, stands_at, str_width_of, tail_start, total_columns,
    truncate_str_spec, truncate_text_spec, whitespace_char, word_len, words_of};
use crate::textarea::{line_end, line_home, row_end, row_start, run_left, run_right, visual_down,
    visual_up, word_left, word_right, EditV, TextV};
use crate::wrap::{line_full, trim_end_spec, trim_spec, trim_start_spec};
use vstd::prelude::*;

verus! {

/// A text takes the columns of its characters, and a character without a width takes none.
pub proof fn columns_add_up(s: Seq<char>, c: char)
    ensures
        total_columns(Seq::empty()) == 0,
        total_columns(s.push(c)) == total_columns(s) + (match char_width_of(c) {
            Some(w) => w as nat,
            None => 0,
        }),
{
    assert(s.push(c).drop_last() =~= s);
}

/// No character that is seen in plain texts is white space; blank, tab and the ends of lines are.
pub proof fn white_space_is_not_seen(c: char)
    ensures
        '!' <= c <= '~' ==> !whitespace_char(c) && !control_char(c),
        c == ' ' || c == '\t' || c == '\n' || c == '\r' ==> whitespace_char(c),
        c == '\n' || c == '\t' || c == '\r' || c == '\u{1b}' || c == '\u{7f}' ==> control_char(c),
        control_char(c) && c != '\u{85}' && !('\t' <= c <= '\r') ==> !whitespace_char(c),
{
}

/// A number is written with digits only, the last of which is its remainder by ten, behind the
/// tenth of it; only zero begins with a zero.
pub proof fn a_number_is_written_in_tens(n: nat)
    ensures
        decimal(n).len() > 0,
        forall|i: int| 0 <= i < decimal(n).len() ==> '0' <= #[trigger] decimal(n)[i] <= '9',
        decimal(n).last() as int == '0' as int + n % 10,
        n >= 10 ==> decimal(n).drop_last() == decimal(n / 10),
        n < 10 ==> decimal(n).len() == 1,
        n > 0 ==> decimal(n)[0] != '0',
    decreases n,
{
    if n >= 10 {
        a_number_is_written_in_tens(n / 10);
        assert(decimal(n).drop_last() =~= decimal(n / 10));
    }
}

/// Two numbers that are written alike are the same.
pub proof fn a_number_can_be_read_back(n: nat, m: nat)
    requires
        decimal(n) == decimal(m),
    ensures
        n == m,
    decreases n,
{
    a_number_is_written_in_tens(n);
    a_number_is_written_in_tens(m);
    if n >= 10 {
        a_number_is_written_in_tens(n / 10);
        assert(m >= 10);
        a_number_can_be_read_back(n / 10, m / 10);
    }
}

/// A text that was cut to a width keeps as much of its beginning as leaves a column.
pub proof fn cutting_keeps_as_much_as_fits(s: Seq<char>, width: nat, n: int)
    requires
        0 <= n <= s.len(),
    ensures
        str_width_of(s) > width && width > 0 && n >= truncate_str_spec(s, width).len()
            ==> total_columns(s.take(n)) >= width,
        total_columns(s) > width && width > 1 && n >= truncate_text_spec(s, width).len()
            ==> total_columns(s.take(n)) >= width,
{
    if width > 0 {
        fit_len_is_longest(s, (width - 1) as nat);
    }
}

proof fn lemma_tail(s: Seq<char>, limit: nat, n: int)
    requires
        0 <= n <= s.len(),
    ensures
        tail_start(s, limit) <= s.len(),
        n < tail_start(s, limit) ==> total_columns(s.skip(n)) > limit,
    decreases s.len(),
{
    if s.len() > 0 && total_columns(s) > limit {
        let rest = s.drop_first();
        if n > 0 {
            lemma_tail(rest, limit, n - 1);
            assert(rest.skip(n - 1) =~= s.skip(n));
        } else {
            lemma_tail(rest, limit, 0);
            assert(s.skip(0) =~= s);
        }
    }
}

/// A path that was cut keeps as much of its end as leaves a column.
pub proof fn a_path_keeps_as_much_as_fits(s: Seq<char>, width: nat, n: int)
    requires
        0 <= n <= s.len(),
    ensures
        str_width_of(s) > width && width > 0 && n >= path_tail_spec(s, width).len()
            ==> total_columns(s.skip(s.len() - n)) >= width,
{
    if width > 0 {
        lemma_tail(s, (width - 1) as nat, s.len() - n);
    }
}

/// A clipped text is the text where it is short enough, and else its first characters and one
/// more that says so.
pub proof fn clipping_keeps_the_beginning(s: Seq<char>, max: nat)
    ensures
        s.len() <= max ==> clip_spec(s, max) == s && head_spec(s, max) == s,
        s.len() > max ==> clip_spec(s, max).len() == max + 1 && clip_spec(s, max).last() == '…'
            && (forall|i: int| 0 <= i < max ==> (#[trigger] clip_spec(s, max)[i]) == s[i])
            && head_spec(s, max).len() == max && (forall|i: int|
            0 <= i < max ==> (#[trigger] head_spec(s, max)[i]) == s[i]),
{
}

/// A text contains another where the other stands in it with anything before and behind it, and
/// ends with it where nothing stands behind it.
pub proof fn a_part_is_found_wherever_it_stands(a: Seq<char>, part: Seq<char>, b: Seq<char>)
    ensures
        contains_spec(a + part + b, part),
        ends_with_spec(a + part, part),
{
    let s = a + part + b;
    assert(s.subrange(a.len() as int, (a.len() + part.len()) as int) =~= part);
    assert(stands_at(s, part, a.len() as int));
    assert((a + part).subrange(a.len() as int, (a.len() + part.len()) as int) =~= part);
}

/// What is found in a text stands in it.
pub proof fn what_is_found_is_there(s: Seq<char>, part: Seq<char>)
    ensures
        contains_spec(s, part) ==> exists|a: Seq<char>, b: Seq<char>| s == #[trigger] (a + part + b),
        ends_with_spec(s, part) ==> exists|a: Seq<char>| s == #[trigger] (a + part),
{
    if contains_spec(s, part) {
        let i = choose|i: int| stands_at(s, part, i);
        let a = s.take(i);
        let b = s.skip(i + part.len());
        assert(s =~= a + s.subrange(i, i + part.len()) + b);
        assert(s == a + part + b);
    }
    if ends_with_spec(s, part) {
        let i = s.len() - part.len();
        assert(s =~= s.take(i) + s.subrange(i, i + part.len()));
        assert(s == s.take(i) + part);
    }
}

proof fn lemma_first_of(s: Seq<char>, c: char, at: int)
    requires
        0 <= at <= s.len(),
        at < s.len() ==> s[at] == c,
        forall|k: int| 0 <= k < at ==> s[k] != c,
    ensures
        first_of(s, c) == at,
    decreases s.len(),
{
    if at > 0 {
        let rest = s.drop_first();
        assert(forall|k: int| 0 <= k < rest.len() ==> rest[k] == s[k + 1]);
        lemma_first_of(rest, c, at - 1);
    }
}

/// A text is parted at the first place of a character: before it nothing is of that character.
pub proof fn a_text_is_parted_at_the_first_place(a: Seq<char>, c: char, b: Seq<char>)
    requires
        !a.contains(c),
    ensures
        before_first(a.push(c) + b, c) == a,
        after_first(a.push(c) + b, c) == b,
        before_first(a, c) == a,
        after_first(a, c).len() == 0,
{
    let s = a.push(c) + b;
    lemma_first_of(s, c, a.len() as int);
    lemma_first_of(a, c, a.len() as int);
    assert(s.take(a.len() as int) =~= a);
    assert(s.skip(a.len() as int + 1) =~= b);
    assert(a.take(a.len() as int) =~= a);
}

/// What stands behind the last place of a character is all that follows it, and the whole text
/// where the character does not occur.
pub proof fn a_text_is_parted_at_the_last_place(a: Seq<char>, c: char, b: Seq<char>)
    requires
        !b.contains(c),
    ensures
        after_last(a.push(c) + b, c) == b,
        after_last(b, c) == b,
    decreases b.len(),
{
    let s = a.push(c) + b;
    if b.len() == 0 {
        assert(s.last() == c);
    } else {
        let less = b.drop_last();
        assert(b.contains(b.last()));
        assert forall|x: char| less.contains(x) implies b.contains(x) by {
            let k = choose|k: int| 0 <= k < less.len() && less[k] == x;
            assert(b[k] == x);
        }
        a_text_is_parted_at_the_last_place(a, c, less);
        assert(s.drop_last() =~= a.push(c) + less);
        assert(less.push(b.last()) =~= b);
    }
}

/// The lines of a text are what stands between the ends of lines: a line with an end before a
/// text is the first of the lines, without its carriage return, and the lines of the text follow;
/// a text without an end of a line is one line.
pub proof fn lines_stand_between_their_ends(line: Seq<char>, rest: Seq<char>)
    requires
        !line.contains('\n'),
    ensures
        lines_of(Seq::empty()).len() == 0,
        line.len() > 0 ==> lines_of(line) == seq![line],
        line.len() == 0 || line.last() != '\r' ==> lines_of(line.push('\n') + rest) == seq![line]
            + lines_of(rest),
        lines_of(line.push('\r').push('\n') + rest) == seq![line] + lines_of(rest),
{
    a_text_is_parted_at_the_first_place(line, '\n', rest);
    lemma_first_of(line, '\n', line.len() as int);
    lemma_first_of(line.push('\n') + rest, '\n', line.len() as int);
    let s = line.push('\n') + rest;
    assert(s.skip(line.len() as int + 1) =~= rest);
    let r = line.push('\r');
    assert(!r.contains('\n')) by {
        if r.contains('\n') {
            let k = choose|k: int| 0 <= k < r.len() && r[k] == '\n';
            assert(k < line.len() && line[k] == '\n');
        }
    }
    a_text_is_parted_at_the_first_place(r, '\n', rest);
    lemma_first_of(r.push('\n') + rest, '\n', r.len() as int);
    let t = r.push('\n') + rest;
    assert(t.skip(r.len() as int + 1) =~= rest);
    assert(r.drop_last() =~= line);
}

proof fn lemma_word_len(s: Seq<char>, n: int)
    requires
        0 <= n <= s.len(),
        n < s.len() ==> whitespace_char(s[n]),
        forall|k: int| 0 <= k < n ==> !whitespace_char(#[trigger] s[k]),
    ensures
        word_len(s) == n,
    decreases s.len(),
{
    if n > 0 {
        assert(!whitespace_char(s[0]));
        let rest = s.drop_first();
        assert forall|k: int| 0 <= k < n - 1 implies !whitespace_char(#[trigger] rest[k]) by {
            assert(rest[k] == s[k + 1]);
        }
        lemma_word_len(rest, n - 1);
    }
}

/// The words of a text are what stands between white space: white space in front adds none, and
/// a word with white space behind it is the first of the words.
pub proof fn words_stand_between_white_space(word: Seq<char>, c: char, rest: Seq<char>)
    requires
        whitespace_char(c),
        forall|k: int| 0 <= k < word.len() ==> !whitespace_char(#[trigger] word[k]),
        word.len() > 0,
    ensures
        words_of(Seq::empty()).len() == 0,
        words_of(seq![c] + rest) == words_of(rest),
        words_of(word) == seq![word],
        words_of(word.push(c) + rest) == seq![word] + words_of(rest),
{
    assert((seq![c] + rest).drop_first() =~= rest);
    lemma_word_len(word, word.len() as int);
    assert(word.take(word.len() as int) =~= word);
    assert(word.skip(word.len() as int) =~= Seq::empty());
    assert(!whitespace_char(word[0]));
    assert(words_of(Seq::empty()) =~= Seq::empty());
    assert(words_of(word) == seq![word] + words_of(word.skip(word.len() as int)));
    assert(seq![word] + Seq::<Seq<char>>::empty() =~= seq![word]);
    let s = word.push(c) + rest;
    assert forall|k: int| 0 <= k < word.len() implies !whitespace_char(#[trigger] s[k]) by {
        assert(s[k] == word[k]);
    }
    lemma_word_len(s, word.len() as int);
    assert(s.take(word.len() as int) =~= word);
    let t = s.skip(word.len() as int);
    assert(t[0] == c);
    assert(t.drop_first() =~= rest);
    assert(s[0] == word[0]);
    assert(words_of(s) == seq![s.take(word.len() as int)] + words_of(t));
    assert(words_of(t) == words_of(t.drop_first()));
}

proof fn lemma_trim_start(s: Seq<char>)
    ensures
        trim_start_spec(s).len() <= s.len(),
        trim_start_spec(s) == s.skip(s.len() - trim_start_spec(s).len()),
        forall|k: int|
            0 <= k < s.len() - trim_start_spec(s).len() ==> whitespace_char(#[trigger] s[k]),
        trim_start_spec(s).len() > 0 ==> !whitespace_char(trim_start_spec(s)[0]),
    decreases s.len(),
{
    if s.len() > 0 && whitespace_char(s[0]) {
        let rest = s.drop_first();
        lemma_trim_start(rest);
        let n = s.len() - trim_start_spec(s).len();
        assert(rest.skip(n - 1) =~= s.skip(n));
        assert forall|k: int| 0 <= k < n implies whitespace_char(#[trigger] s[k]) by {
            if k > 0 {
                assert(rest[k - 1] == s[k]);
            }
        }
    } else {
        assert(s.skip(0) =~= s);
    }
}

proof fn lemma_trim_end(s: Seq<char>)
    ensures
        trim_end_spec(s).len() <= s.len(),
        trim_end_spec(s) == s.take(trim_end_spec(s).len() as int),
        forall|k: int| trim_end_spec(s).len() <= k < s.len() ==> whitespace_char(#[trigger] s[k]),
        trim_end_spec(s).len() > 0 ==> !whitespace_char(trim_end_spec(s).last()),
    decreases s.len(),
{
    if s.len() > 0 && whitespace_char(s.last()) {
        let rest = s.drop_last();
        lemma_trim_end(rest);
        let n = trim_end_spec(s).len() as int;
        assert(rest.take(n) =~= s.take(n));
        assert forall|k: int| n <= k < s.len() implies whitespace_char(#[trigger] s[k]) by {
            if k < s.len() - 1 {
                assert(rest[k] == s[k]);
            }
        }
    } else {
        assert(s.take(s.len() as int) =~= s);
    }
}

/// Trimming takes the white space off both ends and nothing else: what is left neither begins
/// nor ends with any, and only white space is gone.
pub proof fn trimming_takes_only_white_space(s: Seq<char>) -> (at: int)
    ensures
        0 <= at,
        at + trim_spec(s).len() <= s.len(),
        trim_spec(s) == s.subrange(at, at + trim_spec(s).len()),
        forall|k: int| 0 <= k < at ==> whitespace_char(#[trigger] s[k]),
        forall|k: int|
            at + trim_spec(s).len() <= k < s.len() ==> whitespace_char(#[trigger] s[k]),
        trim_spec(s).len() > 0 ==> !whitespace_char(trim_spec(s)[0]) && !whitespace_char(
            trim_spec(s).last(),
        ),
{
    let t = trim_start_spec(s);
    lemma_trim_start(s);
    lemma_trim_end(t);
    let at = s.len() - t.len();
    let n = trim_spec(s).len() as int;
    assert(t.take(n) =~= s.subrange(at, at + n));
    assert forall|k: int| at + n <= k < s.len() implies whitespace_char(#[trigger] s[k]) by {
        assert(t[k - at] == s[k]);
    }
    assert(n > 0 ==> trim_spec(s)[0] == t[0]);
    at
}

/// A line takes as many characters as fit, and one at least.
pub proof fn a_line_takes_as_much_as_fits(s: Seq<char>, pos: int, end: int, used: nat, max: nat)
    requires
        0 <= pos <= end <= s.len(),
        used == total_columns(s.subrange(pos, end)),
        end <= pos + 1 || used <= max,
    ensures
        ({
            let at = line_full(s, pos, end, used, max);
            &&& end <= at <= s.len()
            &&& at < s.len() ==> at > pos && total_columns(s.subrange(pos, at + 1)) > max
            &&& at <= pos + 1 || total_columns(s.subrange(pos, at)) <= max
        }),
    decreases s.len() - end,
{
    if end < s.len() {
        let next = s.subrange(pos, end + 1);
        assert(next =~= s.subrange(pos, end).push(s[end]));
        columns_add_up(s.subrange(pos, end), s[end]);
        if end <= pos || used + columns(s[end]) <= max {
            a_line_takes_as_much_as_fits(s, pos, end + 1, used + columns(s[end]), max);
        }
    }
}

proof fn lemma_run_left(s: Seq<char>, i: int, space: bool)
    requires
        0 <= i <= s.len(),
    ensures
        0 <= run_left(s, i, space) <= i,
        forall|k: int|
            run_left(s, i, space) <= k < i ==> whitespace_char(#[trigger] s[k]) == space,
        run_left(s, i, space) > 0 ==> whitespace_char(s[run_left(s, i, space) - 1]) != space,
    decreases i,
{
    if i > 0 && whitespace_char(s[i - 1]) == space {
        lemma_run_left(s, i - 1, space);
    }
}

proof fn lemma_run_right(s: Seq<char>, i: int, space: bool)
    requires
        0 <= i <= s.len(),
    ensures
        i <= run_right(s, i, space) <= s.len(),
        forall|k: int|
            i <= k < run_right(s, i, space) ==> whitespace_char(#[trigger] s[k]) == space,
        run_right(s, i, space) < s.len() ==> whitespace_char(s[run_right(s, i, space)]) != space,
    decreases s.len() - i,
{
    if i < s.len() && whitespace_char(s[i]) == space {
        lemma_run_right(s, i + 1, space);
    }
}

/// A word to the left: the cursor comes to the start of a word, and between lie that word and
/// white space behind it, nothing else.
pub proof fn a_word_to_the_left(s: Seq<char>, i: int) -> (m: int)
    requires
        0 <= i <= s.len(),
    ensures
        0 <= word_left(s, i) <= m <= i,
        forall|k: int| word_left(s, i) <= k < m ==> !whitespace_char(#[trigger] s[k]),
        forall|k: int| m <= k < i ==> whitespace_char(#[trigger] s[k]),
        word_left(s, i) > 0 ==> whitespace_char(s[word_left(s, i) - 1]),
        m > 0 ==> word_left(s, i) < m,
{
    lemma_run_left(s, i, true);
    lemma_run_left(s, run_left(s, i, true), false);
    run_left(s, i, true)
}

/// A word to the right: the cursor comes to the end of a word, and between lie that word and
/// white space before it, nothing else.
pub proof fn a_word_to_the_right(s: Seq<char>, i: int) -> (m: int)
    requires
        0 <= i <= s.len(),
    ensures
        i <= m <= word_right(s, i) <= s.len(),
        forall|k: int| i <= k < m ==> whitespace_char(#[trigger] s[k]),
        forall|k: int| m <= k < word_right(s, i) ==> !whitespace_char(#[trigger] s[k]),
        word_right(s, i) < s.len() ==> whitespace_char(s[word_right(s, i)]),
        m < s.len() ==> m < word_right(s, i),
{
    lemma_run_right(s, i, true);
    lemma_run_right(s, run_right(s, i, true), false);
    run_right(s, i, true)
}

/// The start of a line: nothing or the end of another line stands before it, and no end of a
/// line between it and the cursor.
pub proof fn a_line_begins_behind_another(s: Seq<char>, i: int)
    requires
        0 <= i <= s.len(),
    ensures
        0 <= line_home(s, i) <= i,
        line_home(s, i) > 0 ==> s[line_home(s, i) - 1] == '\n',
        forall|k: int| line_home(s, i) <= k < i ==> s[k] != '\n',
    decreases i,
{
    if i > 0 && s[i - 1] != '\n' {
        a_line_begins_behind_another(s, i - 1);
    }
}

/// The end of a line: nothing or the end of the line stands there, and none between the cursor
/// and it.
pub proof fn a_line_ends_before_another(s: Seq<char>, i: int)
    requires
        0 <= i <= s.len(),
    ensures
        i <= line_end(s, i) <= s.len(),
        line_end(s, i) < s.len() ==> s[line_end(s, i)] == '\n',
        forall|k: int| i <= k < line_end(s, i) ==> s[k] != '\n',
    decreases s.len() - i,
{
    if i < s.len() && s[i] != '\n' {
        a_line_ends_before_another(s, i + 1);
    }
}

/// What is put in stands before the cursor, between what stood there and what follows; taking it
/// out again leaves what was there.
pub proof fn what_is_put_in_can_be_taken_out(e: EditV, what: Seq<char>)
    requires
        0 <= e.cursor <= e.text.len(),
    ensures
        e.inserted(what).text.len() == e.text.len() + what.len(),
        e.inserted(what).cursor == e.cursor + what.len(),
        e.inserted(what).text.subrange(e.cursor, e.cursor + what.len()) == what,
        e.inserted(what).text.take(e.cursor) == e.text.take(e.cursor),
        e.inserted(what).text.skip(e.cursor + what.len()) == e.text.skip(e.cursor),
        e.inserted(what).without(e.cursor, e.cursor + what.len()) == e,
{
    let f = e.inserted(what);
    assert(f.text.subrange(e.cursor, e.cursor + what.len()) =~= what);
    assert(f.text.take(e.cursor) =~= e.text.take(e.cursor));
    assert(f.text.skip(e.cursor + what.len()) =~= e.text.skip(e.cursor));
    assert(e.text.take(e.cursor) + e.text.skip(e.cursor) =~= e.text);
}

/// Taking out leaves the rest as it was, with the cursor where the part was.
pub proof fn only_the_part_is_taken_out(e: EditV, from: int, to: int)
    requires
        0 <= from <= to <= e.text.len(),
    ensures
        e.without(from, to).cursor == from,
        e.text == e.without(from, to).text.take(from) + e.text.subrange(from, to) + e.without(
            from,
            to,
        ).text.skip(from),
        e.without(from, to).text.len() == e.text.len() - (to - from),
{
    let f = e.without(from, to);
    assert(f.text.take(from) =~= e.text.take(from));
    assert(f.text.skip(from) =~= e.text.skip(to));
    assert(e.text =~= e.text.take(from) + e.text.subrange(from, to) + e.text.skip(to));
}

/// Edits are undone one after the other, the last one first, and are all kept; moving the cursor
/// is no edit.
pub proof fn edits_are_undone_in_turn(t: TextV, first: EditV, second: EditV, cursor: int)
    ensures
        t.edited(first).edited(second).undo().now == first,
        t.edited(first).edited(second).undo().undo().now == t.now,
        t.edited(first).edited(second).undo().undo().redo().redo().now == second,
        t.edited(first).undo().redo().now == first,
        t.moved(cursor).now.text == t.now.text,
        t.moved(cursor).now.cursor == cursor,
        t.moved(cursor).done == t.done && t.moved(cursor).undone == t.undone,
        t.done.len() == 0 ==> t.undo() == t,
        t.undone.len() == 0 ==> t.redo() == t,
        t.edited(first).redo() == t.edited(first),
{
    assert(t.done.push(t.now).push(first).drop_last() =~= t.done.push(t.now));
}

proof fn lemma_row(s: Seq<char>, n: int, width: nat)
    requires
        0 <= n <= s.len(),
    ensures
        0 <= row_start(s, n, width) <= n,
        n - row_start(s, n, width) <= 1 || total_columns(s.subrange(row_start(s, n, width), n))
            <= width,
        forall|k: int| row_start(s, n, width) <= k < n ==> s[k] != '\n',
    decreases n,
{
    if n > 0 && s[n - 1] != '\n' {
        lemma_row(s, n - 1, width);
    }
}

/// On the screen a row begins behind the end of a line or where the row before it is full: it
/// holds no end of a line and is no wider than the screen, but for a single character.
pub proof fn a_row_fits_the_screen(s: Seq<char>, n: int, width: nat)
    requires
        0 <= n <= s.len(),
    ensures
        0 <= row_start(s, n, width) <= n,
        n - row_start(s, n, width) <= 1 || total_columns(s.subrange(row_start(s, n, width), n))
            <= width,
        forall|k: int| row_start(s, n, width) <= k < n ==> s[k] != '\n',
        n > 0 && s[n - 1] == '\n' ==> row_start(s, n, width) == n,
        (forall|k: int| 0 <= k < n ==> s[k] != '\n') && total_columns(s.take(n)) <= width
            ==> row_start(s, n, width) == 0,
    decreases n,
{
    lemma_row(s, n, width);
    if (forall|k: int| 0 <= k < n ==> s[k] != '\n') && total_columns(s.take(n)) <= width && n > 0 {
        assert(s.take(n) =~= s.take(n - 1).push(s[n - 1]));
        columns_add_up(s.take(n - 1), s[n - 1]);
        a_row_fits_the_screen(s, n - 1, width);
        assert(s.subrange(0, n) =~= s.take(n));
        assert(row_start(s, n - 1, width) == 0);
    }
}

/// Up a row leads to an earlier place, not further into its row than the cursor was in its own,
/// and there is a row above unless the cursor is in the first.
pub proof fn up_leads_to_an_earlier_place(e: EditV, width: nat)
    requires
        0 <= e.cursor <= e.text.len(),
    ensures
        visual_up(e, width) is None <==> row_start(e.text, e.cursor, width) == 0,
        visual_up(e, width) matches Some(to) ==> {
            let r = row_start(e.text, e.cursor, width);
            let p = row_start(e.text, r - 1, width);
            &&& 0 <= p <= to < r <= e.cursor
            &&& total_columns(e.text.subrange(p, to)) <= total_columns(
                e.text.subrange(r, e.cursor),
            )
            &&& forall|n: int|
                to < n < r ==> total_columns(#[trigger] e.text.subrange(p, n)) > total_columns(
                    e.text.subrange(r, e.cursor),
                )
        },
{
    let s = e.text;
    lemma_row(s, e.cursor, width);
    let r = row_start(s, e.cursor, width);
    if r > 0 {
        lemma_row(s, r - 1, width);
        let p = row_start(s, r - 1, width);
        let column = total_columns(s.subrange(r, e.cursor));
        let row = s.subrange(p, r - 1);
        fit_len_is_longest(row, column);
        let n = fit_len(row, column) as int;
        assert(row.take(n) =~= s.subrange(p, p + n));
        assert forall|m: int| p + n < m < r implies total_columns(#[trigger] s.subrange(p, m))
            > column by {
            assert(row.take(m - p) =~= s.subrange(p, m));
        }
    }
}

proof fn lemma_row_end(s: Seq<char>, n: int, width: nat, r: int)
    requires
        0 <= n <= s.len(),
        row_start(s, n, width) == r,
    ensures
        n < row_end(s, n, width, r) <= s.len() + 1,
        row_end(s, n, width, r) <= s.len() ==> row_start(s, row_end(s, n, width, r), width) != r,
        row_start(s, row_end(s, n, width, r) - 1, width) == r,
    decreases s.len() - n,
{
    if n < s.len() && row_start(s, n + 1, width) == r {
        lemma_row_end(s, n + 1, width, r);
    }
}

/// Down a row leads to a later row, not further into it than the cursor was in its own, and as far
/// as that allows; there is a row below unless the cursor is in the last. The places handed back
/// are those of the start and the end of the row led to.
pub proof fn down_leads_to_a_later_row(e: EditV, width: nat) -> (row: (int, int))
    requires
        0 <= e.cursor <= e.text.len(),
    ensures
        visual_down(e, width) is None ==> row_start(e.text, e.text.len() as int, width)
            == row_start(e.text, e.cursor, width),
        visual_down(e, width) matches Some(to) ==> {
            let r = row_start(e.text, e.cursor, width);
            let column = total_columns(e.text.subrange(r, e.cursor));
            &&& r <= e.cursor <= row.0 <= to <= row.1 <= e.text.len()
            &&& row.0 != r
            &&& row_start(e.text, row.1, width) == row.0
            &&& row.1 < e.text.len() ==> row_start(e.text, row.1 + 1, width) != row.0
            &&& total_columns(e.text.subrange(row.0, to)) <= column
            &&& forall|n: int|
                to < n <= row.1 ==> total_columns(#[trigger] e.text.subrange(row.0, n)) > column
        },
{
    let s = e.text;
    lemma_row(s, e.cursor, width);
    let r = row_start(s, e.cursor, width);
    lemma_row_end(s, e.cursor, width, r);
    let next = row_end(s, e.cursor, width, r);
    if next <= s.len() {
        let p = row_start(s, next, width);
        lemma_row(s, next, width);
        lemma_row_end(s, next, width, p);
        assert(p == next || p == next - 1);
        let stop = row_end(s, next, width, p) - 1;
        lemma_row(s, stop, width);
        let column = total_columns(s.subrange(r, e.cursor));
        let row = s.subrange(p, stop);
        fit_len_is_longest(row, column);
        let n = fit_len(row, column) as int;
        let to = p + n;
        assert(row.take(n) =~= s.subrange(p, to));
        assert forall|m: int| to < m <= stop implies total_columns(#[trigger] s.subrange(p, m))
            > column by {
            assert(row.take(m - p) =~= s.subrange(p, m));
        }
        (p, stop)
    } else {
        (0, 0)
    }
}

} // verus!
