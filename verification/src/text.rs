//! Strings as sequences of characters: building, measuring, cutting and wrapping.

use unicode_width::UnicodeWidthChar;
use unicode_width::UnicodeWidthStr;
use vstd::prelude::*;

verus! {

// ── What std and unicode-width compute ─────────────────────────────────────

/// `String::push` appends one character at the end.
pub assume_specification[ String::push ](s: &mut String, c: char)
    ensures
        final(s)@ == old(s)@.push(c),
;

/// The columns that `UnicodeWidthChar::width` gives a character; `None` for a
/// control character.
pub uninterp spec fn char_width_of(c: char) -> Option<usize>;

/// The columns that `UnicodeWidthStr::width` gives a text.
pub uninterp spec fn str_width_of(s: Seq<char>) -> usize;

/// A character with the White_Space property.
pub open spec fn whitespace_char(c: char) -> bool {
    ||| '\u{9}' <= c <= '\u{d}'
    ||| c == ' '
    ||| c == '\u{85}'
    ||| c == '\u{a0}'
    ||| c == '\u{1680}'
    ||| '\u{2000}' <= c <= '\u{200a}'
    ||| c == '\u{2028}'
    ||| c == '\u{2029}'
    ||| c == '\u{202f}'
    ||| c == '\u{205f}'
    ||| c == '\u{3000}'
}

/// The text that `str::to_lowercase` makes of a text.
pub uninterp spec fn lowercase_of(s: Seq<char>) -> Seq<char>;

/// `UnicodeWidthChar::width`: the displayed columns of one character. The ellipsis takes one.
#[verifier::external_body]
fn raw_char_width(c: char) -> (w: Option<usize>)
    ensures
        w == char_width_of(c),
        c == '…' ==> w == Some(1usize),
{
    UnicodeWidthChar::width(c)
}

/// `UnicodeWidthStr::width`: the displayed columns of a text.
#[verifier::external_body]
pub(crate) fn str_width(s: &str) -> (w: usize)
    ensures
        w == str_width_of(s@),
{
    UnicodeWidthStr::width(s)
}

/// `char::is_whitespace`: whether a character has the White_Space property, which is that of
/// the tabs and line ends, of the space and the no-break space, and of the separators.
#[verifier::external_body]
pub(crate) fn is_whitespace(c: char) -> (b: bool)
    ensures
        b == whitespace_char(c),
{
    c.is_whitespace()
}

/// A control character: one below the space, or from the delete on to the last of the second
/// block.
pub open spec fn control_char(c: char) -> bool {
    c < ' ' || ('\u{7f}' <= c <= '\u{9f}')
}

/// Whether a character is a control character.
pub fn is_control(c: char) -> (b: bool)
    ensures
        b == control_char(c),
{
    c < ' ' || ('\u{7f}' <= c && c <= '\u{9f}')
}

/// `str::to_lowercase`: the lowercase equivalent of a text. That of no text is no text.
#[verifier::external_body]
pub(crate) fn to_lowercase(s: &str) -> (r: String)
    ensures
        r@ == lowercase_of(s@),
        s@.len() == 0 ==> r@.len() == 0,
{
    s.to_lowercase()
}

/// The columns of a character, a control character taking none.
pub open spec fn columns(c: char) -> nat {
    match char_width_of(c) {
        Some(w) => w as nat,
        None => 0,
    }
}

/// The sum of the columns of the characters.
pub open spec fn total_columns(s: Seq<char>) -> nat
    decreases s.len(),
{
    if s.len() == 0 {
        0
    } else {
        total_columns(s.drop_last()) + columns(s.last())
    }
}

/// The columns of a character, a control character taking none.
pub fn char_columns(c: char) -> (w: usize)
    ensures
        w == columns(c),
        c == '…' ==> w == 1,
{
    match raw_char_width(c) {
        Some(w) => w,
        None => 0,
    }
}

// ── Characters ─────────────────────────────────────────────────────────────

/// The characters of a text.
pub fn to_chars(s: &str) -> (r: Vec<char>)
    ensures
        r@ == s@,
{
    let mut r: Vec<char> = Vec::new();
    for c in it: s.chars()
        invariant
            it.seq() == s@,
            r@ == s@.take(it.index() as int),
    {
        r.push(c);
        assert(s@.take(it.index() + 1) =~= s@.take(it.index() as int).push(c));
    }
    assert(s@.take(s@.len() as int) =~= s@);
    r
}

/// The number of characters.
pub fn count_chars(s: &str) -> (n: usize)
    ensures
        n == s@.len(),
{
    to_chars(s).len()
}

/// The text made of the given characters.
pub fn from_chars(cs: &Vec<char>) -> (r: String)
    ensures
        r@ == cs@,
{
    let mut r = String::new();
    let mut i: usize = 0;
    while i < cs.len()
        invariant
            i <= cs.len(),
            r@ == cs@.take(i as int),
        decreases cs.len() - i,
    {
        r.push(cs[i]);
        assert(cs@.take(i + 1) =~= cs@.take(i as int).push(cs@[i as int]));
        i = i + 1;
    }
    assert(cs@.take(cs@.len() as int) =~= cs@);
    r
}

/// The characters from `from` up to but not including `to`.
pub fn slice_chars(cs: &Vec<char>, from: usize, to: usize) -> (r: String)
    requires
        from <= to <= cs@.len(),
    ensures
        r@ == cs@.subrange(from as int, to as int),
{
    let mut r = String::new();
    let mut i: usize = from;
    while i < to
        invariant
            from <= i <= to <= cs@.len(),
            r@ == cs@.subrange(from as int, i as int),
        decreases to - i,
    {
        r.push(cs[i]);
        assert(cs@.subrange(from as int, i + 1) =~= cs@.subrange(from as int, i as int).push(
            cs@[i as int],
        ));
        i = i + 1;
    }
    r
}

/// Two texts in a row.
pub fn cat(a: &str, b: &str) -> (r: String)
    ensures
        r@ == a@ + b@,
{
    let mut r = a.to_owned();
    r.append(b);
    r
}

/// Three texts in a row.
pub fn cat3(a: &str, b: &str, c: &str) -> (r: String)
    ensures
        r@ == a@ + b@ + c@,
{
    let mut r = a.to_owned();
    r.append(b);
    r.append(c);
    r
}

/// Four texts in a row.
pub fn cat4(a: &str, b: &str, c: &str, d: &str) -> (r: String)
    ensures
        r@ == a@ + b@ + c@ + d@,
{
    let mut r = a.to_owned();
    r.append(b);
    r.append(c);
    r.append(d);
    r
}

/// Whether two texts have the same characters.
pub fn same(a: &str, b: &str) -> (r: bool)
    ensures
        r == (a@ == b@),
{
    let x = to_chars(a);
    let y = to_chars(b);
    if x.len() != y.len() {
        return false;
    }
    let mut i: usize = 0;
    while i < x.len()
        invariant
            i <= x.len(),
            x@.len() == y@.len(),
            x@ == a@,
            y@ == b@,
            forall|j: int| 0 <= j < i ==> x@[j] == y@[j],
        decreases x.len() - i,
    {
        if x[i] != y[i] {
            return false;
        }
        i = i + 1;
    }
    assert(a@ =~= b@);
    true
}

/// An optional text, abstractly.
pub open spec fn opt_view(o: Option<String>) -> Option<Seq<char>> {
    match o {
        Some(s) => Some(s@),
        None => None,
    }
}

/// An optional borrowed text, abstractly.
pub open spec fn opt_str(s: Option<&str>) -> Option<Seq<char>> {
    match s {
        Some(x) => Some(x@),
        None => None,
    }
}

/// The text, or an empty one where there is none.
pub open spec fn or_empty(t: Option<Seq<char>>) -> Seq<char> {
    match t {
        Some(s) => s,
        None => Seq::empty(),
    }
}

// ── Numbers ────────────────────────────────────────────────────────────────

/// The character of a decimal digit.
pub open spec fn digit_char(d: nat) -> char {
    if d == 0 {
        '0'
    } else if d == 1 {
        '1'
    } else if d == 2 {
        '2'
    } else if d == 3 {
        '3'
    } else if d == 4 {
        '4'
    } else if d == 5 {
        '5'
    } else if d == 6 {
        '6'
    } else if d == 7 {
        '7'
    } else if d == 8 {
        '8'
    } else {
        '9'
    }
}

/// The decimal notation of a number, without leading zeros.
pub open spec fn decimal(n: nat) -> Seq<char>
    decreases n,
{
    if n < 10 {
        seq![digit_char(n)]
    } else {
        decimal(n / 10).push(digit_char(n % 10))
    }
}

fn digit(d: u64) -> (c: char)
    requires
        d < 10,
    ensures
        c == digit_char(d as nat),
{
    match d {
        0 => '0',
        1 => '1',
        2 => '2',
        3 => '3',
        4 => '4',
        5 => '5',
        6 => '6',
        7 => '7',
        8 => '8',
        _ => '9',
    }
}

/// The decimal notation of a number.
pub fn decimal_text(n: u64) -> (r: String)
    ensures
        r@ == decimal(n as nat),
    decreases n,
{
    let mut r = if n < 10 {
        String::new()
    } else {
        decimal_text(n / 10)
    };
    r.push(digit(n % 10));
    assert(r@ =~= decimal(n as nat));
    r
}

// ── Cutting ────────────────────────────────────────────────────────────────

/// The columns of two texts in a row are the sum of the columns of each.
pub proof fn total_columns_add(a: Seq<char>, b: Seq<char>)
    ensures
        total_columns(a + b) == total_columns(a) + total_columns(b),
    decreases b.len(),
{
    if b.len() == 0 {
        assert(a + b =~= a);
    } else {
        assert((a + b).drop_last() =~= a + b.drop_last());
        total_columns_add(a, b.drop_last());
    }
}

/// A text takes no fewer columns than any part of it.
pub proof fn total_columns_part(s: Seq<char>, from: int, to: int)
    requires
        0 <= from <= to <= s.len(),
    ensures
        total_columns(s.subrange(from, to)) <= total_columns(s),
{
    let a = s.subrange(0, from);
    let b = s.subrange(from, to);
    let c = s.subrange(to, s.len() as int);
    assert(s =~= a + b + c);
    total_columns_add(a + b, c);
    total_columns_add(a, b);
}

/// How many leading characters fit into `limit` columns.
pub open spec fn fit_len(s: Seq<char>, limit: nat) -> nat
    decreases s.len(),
{
    if s.len() == 0 || total_columns(s) <= limit {
        s.len()
    } else {
        fit_len(s.drop_last(), limit)
    }
}

/// How many leading characters have to go so that the rest fits into `limit`
/// columns.
pub open spec fn tail_start(s: Seq<char>, limit: nat) -> nat
    decreases s.len(),
{
    if s.len() == 0 || total_columns(s) <= limit {
        0
    } else {
        1 + tail_start(s.drop_first(), limit)
    }
}

/// `fit_len` is the longest prefix that fits.
pub proof fn fit_len_is_longest(s: Seq<char>, limit: nat)
    ensures
        fit_len(s, limit) <= s.len(),
        total_columns(s.take(fit_len(s, limit) as int)) <= limit,
        forall|n: int|
            fit_len(s, limit) < n <= s.len() ==> total_columns(#[trigger] s.take(n)) > limit,
    decreases s.len(),
{
    if s.len() == 0 || total_columns(s) <= limit {
        assert(s.take(s.len() as int) =~= s);
    } else {
        let t = s.drop_last();
        fit_len_is_longest(t, limit);
        let k = fit_len(t, limit) as int;
        assert(s.take(k) =~= t.take(k));
        assert forall|n: int| k < n <= s.len() implies total_columns(#[trigger] s.take(n))
            > limit by {
            if n == s.len() {
                assert(s.take(n) =~= s);
            } else {
                assert(s.take(n) =~= t.take(n));
            }
        }
    }
}

/// A prefix that fits while the next character would not is the longest one.
proof fn fit_len_unique(s: Seq<char>, limit: nat, n: int)
    requires
        0 <= n <= s.len(),
        total_columns(s.take(n)) <= limit,
        n < s.len() ==> total_columns(s.take(n + 1)) > limit,
    ensures
        fit_len(s, limit) == n,
{
    fit_len_is_longest(s, limit);
    let k = fit_len(s, limit) as int;
    if k > n {
        assert(s.take(n + 1) =~= s.take(k).subrange(0, n + 1));
        total_columns_part(s.take(k), 0, n + 1);
    } else if k < n {
        assert(total_columns(s.take(n)) > limit);
    }
}

/// The number of leading characters that fit into `limit` columns.
pub fn fit_prefix(cs: &Vec<char>, limit: usize) -> (n: usize)
    ensures
        n == fit_len(cs@, limit as nat),
        n <= cs@.len(),
{
    let mut n: usize = 0;
    let mut used: usize = 0;
    assert(cs@.take(0) =~= Seq::<char>::empty());
    while n < cs.len()
        invariant_except_break
            n <= cs.len(),
            used == total_columns(cs@.take(n as int)),
            used <= limit,
        ensures
            n <= cs.len(),
            total_columns(cs@.take(n as int)) <= limit,
            n < cs.len() ==> total_columns(cs@.take(n + 1)) > limit,
        decreases cs.len() - n,
    {
        let w: usize = char_columns(cs[n]);
        assert(cs@.take(n + 1).drop_last() =~= cs@.take(n as int));
        if w > limit - used {
            break;
        }
        used = used + w;
        n = n + 1;
    }
    proof {
        fit_len_unique(cs@, limit as nat, n as int);
    }
    n
}

/// The sum of the columns is at most the limit.
pub fn fits(cs: &Vec<char>, limit: usize) -> (b: bool)
    ensures
        b == (total_columns(cs@) <= limit),
{
    let n: usize = fit_prefix(cs, limit);
    proof {
        fit_len_is_longest(cs@, limit as nat);
        assert(cs@.take(cs@.len() as int) =~= cs@);
    }
    n == cs.len()
}

/// A text cut so that it and a closing ellipsis keep within `max_width` columns;
/// unchanged where it is no wider, and nothing where there is no column.
pub open spec fn truncate_str_spec(s: Seq<char>, max_width: nat) -> Seq<char> {
    if str_width_of(s) <= max_width {
        s
    } else if max_width == 0 {
        Seq::empty()
    } else {
        s.take(fit_len(s, (max_width - 1) as nat) as int).push('…')
    }
}

/// Cuts a text to `max_width` displayed columns, ending in an ellipsis where
/// something was cut.
pub fn truncate_str(s: &str, max_width: usize) -> (r: String)
    ensures
        r@ == truncate_str_spec(s@, max_width as nat),
        str_width_of(s@) > max_width ==> total_columns(r@) <= max_width,
{
    if str_width(s) <= max_width {
        return s.to_owned();
    }
    let ellipsis: usize = char_columns('…');
    if max_width < ellipsis {
        let none = String::new();
        assert(none@ =~= Seq::<char>::empty());
        return none;
    }
    let cs = to_chars(s);
    let n: usize = fit_prefix(&cs, max_width - ellipsis);
    let mut r = slice_chars(&cs, 0, n);
    r.push('…');
    assert(cs@.subrange(0, n as int) =~= s@.take(n as int));
    proof {
        truncate_str_keeps_within(s@, max_width as nat);
        assert(r@.drop_last() =~= s@.take(n as int));
    }
    r
}

/// `truncate_str` keeps a text that fits, and else a beginning of it that leaves
/// a column for the ellipsis: with an ellipsis of one column the whole takes no more than
/// `max_width` columns.
pub proof fn truncate_str_keeps_within(s: Seq<char>, max_width: nat)
    ensures
        str_width_of(s) > max_width && max_width > 0 ==> {
            &&& total_columns(truncate_str_spec(s, max_width).drop_last()) < max_width
            &&& truncate_str_spec(s, max_width).last() == '…'
            &&& truncate_str_spec(s, max_width).drop_last().is_prefix_of(s)
        },
        str_width_of(s) <= max_width ==> truncate_str_spec(s, max_width) == s,
        str_width_of(s) > max_width && columns('…') == 1 ==> total_columns(
            truncate_str_spec(s, max_width),
        ) <= max_width,
{
    if max_width > 0 {
        let limit = (max_width - 1) as nat;
        fit_len_is_longest(s, limit);
        let kept = s.take(fit_len(s, limit) as int);
        assert(kept.push('…').drop_last() =~= kept);
    }
}

/// A text cut to a number of columns by the sum of its characters' columns.
pub open spec fn truncate_text_spec(s: Seq<char>, width: nat) -> Seq<char> {
    if total_columns(s) <= width {
        s
    } else if width == 0 {
        Seq::empty()
    } else if width == 1 {
        seq!['…']
    } else {
        s.take(fit_len(s, (width - 1) as nat) as int).push('…')
    }
}

/// `truncate_text` never exceeds the width: what it keeps in front of the
/// ellipsis leaves a column for it.
pub proof fn truncate_text_fits(s: Seq<char>, width: nat)
    ensures
        total_columns(s) <= width ==> truncate_text_spec(s, width) == s,
        total_columns(s) > width && width > 0 ==> {
            &&& truncate_text_spec(s, width).last() == '…'
            &&& truncate_text_spec(s, width).drop_last().is_prefix_of(s)
            &&& total_columns(truncate_text_spec(s, width).drop_last()) < width
        },
        total_columns(s) > width && width == 0 ==> truncate_text_spec(s, width).len() == 0,
        columns('…') == 1 ==> total_columns(truncate_text_spec(s, width)) <= width,
{
    if width == 1 {
        assert(seq!['…'].drop_last() =~= Seq::<char>::empty());
        reveal_with_fuel(total_columns, 2);
    } else if width > 1 {
        let limit = (width - 1) as nat;
        fit_len_is_longest(s, limit);
        let kept = s.take(fit_len(s, limit) as int);
        assert(kept.push('…').drop_last() =~= kept);
    }
}

/// The last characters of a path that fit behind a leading ellipsis.
pub open spec fn path_tail_spec(s: Seq<char>, width: nat) -> Seq<char> {
    if str_width_of(s) <= width {
        s
    } else if width == 0 {
        Seq::empty()
    } else {
        seq!['…'] + s.skip(tail_start(s, (width - 1) as nat) as int)
    }
}

proof fn tail_start_is_least(s: Seq<char>, limit: nat)
    ensures
        tail_start(s, limit) <= s.len(),
        total_columns(s.skip(tail_start(s, limit) as int)) <= limit,
        forall|n: int|
            0 <= n < tail_start(s, limit) ==> total_columns(#[trigger] s.skip(n)) > limit,
    decreases s.len(),
{
    assert(s.skip(0) =~= s);
    if s.len() == 0 || total_columns(s) <= limit {
    } else {
        let t = s.drop_first();
        tail_start_is_least(t, limit);
        let k = tail_start(t, limit) as int;
        assert(s.skip(k + 1) =~= t.skip(k));
        assert forall|n: int| 0 <= n < k + 1 implies total_columns(#[trigger] s.skip(n))
            > limit by {
            if n > 0 {
                assert(s.skip(n) =~= t.skip(n - 1));
            }
        }
    }
}

/// `path_tail` never exceeds the width: what stands behind the ellipsis is a
/// suffix of the path and leaves a column for it.
pub proof fn path_tail_fits(s: Seq<char>, width: nat)
    ensures
        str_width_of(s) > width && width > 0 ==> {
            &&& path_tail_spec(s, width)[0] == '…'
            &&& path_tail_spec(s, width).drop_first().is_suffix_of(s)
            &&& total_columns(path_tail_spec(s, width).drop_first()) < width
        },
        str_width_of(s) <= width ==> path_tail_spec(s, width) == s,
        str_width_of(s) > width && columns('…') == 1 ==> total_columns(path_tail_spec(s, width))
            <= width,
{
    if width > 0 {
        let limit = (width - 1) as nat;
        tail_start_is_least(s, limit);
        let kept = s.skip(tail_start(s, limit) as int);
        let one = seq!['…'];
        assert((one + kept).drop_first() =~= kept);
        total_columns_add(one, kept);
        assert(one.drop_last() =~= Seq::<char>::empty());
        assert(total_columns(one) == columns('…')) by {
            reveal_with_fuel(total_columns, 2);
        }
    }
}

/// The end of a path in at most `width` columns, behind an ellipsis where the
/// front was cut.
pub fn path_tail(path: &str, width: usize) -> (r: String)
    ensures
        r@ == path_tail_spec(path@, width as nat),
        str_width_of(path@) > width ==> total_columns(r@) <= width,
{
    let ellipsis: usize = char_columns('…');
    proof {
        path_tail_fits(path@, width as nat);
    }
    if str_width(path) <= width {
        return path.to_owned();
    }
    if width == 0 {
        return String::new();
    }
    let cs = to_chars(path);
    let limit: usize = width - ellipsis;
    let mut start: usize = cs.len();
    let mut used: usize = 0;
    assert(cs@.skip(start as int) =~= Seq::<char>::empty());
    while start > 0
        invariant_except_break
            start <= cs.len(),
            used == total_columns(cs@.skip(start as int)),
            used <= limit,
        ensures
            start <= cs.len(),
            total_columns(cs@.skip(start as int)) <= limit,
            start > 0 ==> total_columns(cs@.skip(start - 1)) > limit,
        decreases start,
    {
        let w: usize = char_columns(cs[start - 1]);
        proof {
            let one = seq![cs@[start - 1]];
            assert(cs@.skip(start - 1) =~= one + cs@.skip(start as int));
            total_columns_add(one, cs@.skip(start as int));
            assert(one.drop_last() =~= Seq::<char>::empty());
            assert(total_columns(one) == columns(cs@[start - 1])) by {
                reveal_with_fuel(total_columns, 2);
            }
        }
        if w > limit - used {
            break;
        }
        used = used + w;
        start = start - 1;
    }
    proof {
        tail_start_is_least(cs@, limit as nat);
        let k = tail_start(cs@, limit as nat) as int;
        if k > start {
            assert(total_columns(cs@.skip(start as int)) > limit);
        } else if k < start {
            assert(cs@.skip(start - 1) =~= cs@.skip(k).subrange(start - 1 - k, cs@.len() - k));
            total_columns_part(cs@.skip(k), start - 1 - k, cs@.len() - k);
        }
    }
    let tail = slice_chars(&cs, start, cs.len());
    assert(cs@.subrange(start as int, cs@.len() as int) =~= path@.skip(start as int));
    let mut r = String::new();
    r.push('…');
    r.append(tail.as_str());
    assert(r@ =~= seq!['…'] + path@.skip(start as int));
    r
}

/// Cuts a text to a number of columns, ending in an ellipsis where something was
/// cut.
pub fn truncate_text(text: &str, width: usize) -> (r: String)
    ensures
        r@ == truncate_text_spec(text@, width as nat),
        total_columns(r@) <= width,
{
    let ellipsis: usize = char_columns('…');
    proof {
        truncate_text_fits(text@, width as nat);
    }
    let cs = to_chars(text);
    if fits(&cs, width) {
        return text.to_owned();
    }
    if width == 0 {
        return String::new();
    }
    if width == 1 {
        let mut r = String::new();
        r.push('…');
        assert(r@ =~= seq!['…']);
        return r;
    }
    let n: usize = fit_prefix(&cs, width - ellipsis);
    let mut r = slice_chars(&cs, 0, n);
    r.push('…');
    assert(cs@.subrange(0, n as int) =~= text@.take(n as int));
    r
}

/// The first `max` characters, and an ellipsis where there are more.
pub open spec fn clip_spec(s: Seq<char>, max: nat) -> Seq<char> {
    if s.len() <= max {
        s
    } else {
        s.take(max as int).push('…')
    }
}

/// Cuts a text to `max` characters, with an ellipsis behind them where something
/// was cut.
pub fn clip(s: &str, max: usize) -> (r: String)
    ensures
        r@ == clip_spec(s@, max as nat),
{
    let cs = to_chars(s);
    if cs.len() <= max {
        return s.to_owned();
    }
    let mut r = slice_chars(&cs, 0, max);
    r.push('…');
    assert(cs@.subrange(0, max as int) =~= s@.take(max as int));
    r
}

/// `n` times the same character.
pub open spec fn repeated(c: char, n: nat) -> Seq<char> {
    Seq::new(n, |i: int| c)
}

/// `n` times the same character.
pub fn repeat_char(c: char, n: usize) -> (r: String)
    ensures
        r@ == repeated(c, n as nat),
{
    let mut r = String::new();
    let mut i: usize = 0;
    while i < n
        invariant
            i <= n,
            r@ == repeated(c, i as nat),
        decreases n - i,
    {
        r.push(c);
        assert(repeated(c, (i + 1) as nat) =~= repeated(c, i as nat).push(c));
        i = i + 1;
    }
    r
}

// ── Searching ──────────────────────────────────────────────────────────────

/// The pattern stands in the text at position `i`.
pub open spec fn stands_at(s: Seq<char>, pat: Seq<char>, i: int) -> bool {
    0 <= i && i + pat.len() <= s.len() && s.subrange(i, i + pat.len()) == pat
}

/// The pattern stands somewhere in the text.
pub open spec fn contains_spec(s: Seq<char>, pat: Seq<char>) -> bool {
    exists|i: int| stands_at(s, pat, i)
}

fn matches_at(s: &Vec<char>, pat: &Vec<char>, at: usize) -> (b: bool)
    requires
        at + pat@.len() <= s@.len(),
    ensures
        b == stands_at(s@, pat@, at as int),
{
    let n: usize = s.len();
    let mut k: usize = 0;
    while k < pat.len()
        invariant
            n == s@.len(),
            k <= pat@.len(),
            at + pat@.len() <= s@.len(),
            forall|j: int| 0 <= j < k ==> s@[at + j] == pat@[j],
        decreases pat.len() - k,
    {
        if s[at + k] != pat[k] {
            assert(s@.subrange(at as int, at + pat@.len())[k as int] != pat@[k as int]);
            return false;
        }
        k = k + 1;
    }
    assert(s@.subrange(at as int, at + pat@.len()) =~= pat@);
    true
}

/// Whether the pattern stands somewhere in the text.
pub fn contains(text: &str, pattern: &str) -> (b: bool)
    ensures
        b == contains_spec(text@, pattern@),
{
    let s = to_chars(text);
    let p = to_chars(pattern);
    if p.len() > s.len() {
        return false;
    }
    let last: usize = s.len() - p.len();
    let mut i: usize = 0;
    while i < last
        invariant
            i <= last,
            last == s@.len() - p@.len(),
            forall|j: int| 0 <= j < i ==> !stands_at(s@, p@, j),
            s@ == text@,
            p@ == pattern@,
        decreases last - i,
    {
        if matches_at(&s, &p, i) {
            return true;
        }
        i = i + 1;
    }
    let found = matches_at(&s, &p, i);
    assert(!found ==> forall|j: int| !stands_at(s@, p@, j));
    found
}

/// The text ends with the pattern.
pub open spec fn ends_with_spec(s: Seq<char>, pat: Seq<char>) -> bool {
    stands_at(s, pat, s.len() - pat.len())
}

/// Whether the text ends with the pattern.
pub fn ends_with(text: &str, pattern: &str) -> (b: bool)
    ensures
        b == ends_with_spec(text@, pattern@),
{
    let s = to_chars(text);
    let p = to_chars(pattern);
    if p.len() > s.len() {
        return false;
    }
    matches_at(&s, &p, s.len() - p.len())
}

/// The position of the first such character, or the length where there is none.
pub open spec fn first_of(s: Seq<char>, c: char) -> int
    decreases s.len(),
{
    if s.len() == 0 || s[0] == c {
        0
    } else {
        1 + first_of(s.drop_first(), c)
    }
}

/// What stands behind the first such character; nothing where there is none.
pub open spec fn after_first(s: Seq<char>, c: char) -> Seq<char> {
    let i = first_of(s, c);
    if i < s.len() {
        s.skip(i + 1)
    } else {
        Seq::empty()
    }
}

/// What stands before the first such character, or all of it.
pub open spec fn before_first(s: Seq<char>, c: char) -> Seq<char> {
    s.take(first_of(s, c))
}

/// What stands behind the last such character, or all of it.
pub open spec fn after_last(s: Seq<char>, c: char) -> Seq<char>
    decreases s.len(),
{
    if s.len() == 0 || s.last() == c {
        Seq::empty()
    } else {
        after_last(s.drop_last(), c).push(s.last())
    }
}

/// What stands behind the last such character, or all of it.
pub fn text_after_last(s: &str, c: char) -> (r: String)
    ensures
        r@ == after_last(s@, c),
{
    let cs = to_chars(s);
    let mut i: usize = cs.len();
    let ghost all = cs@;
    assert(all.take(i as int) =~= all);
    assert(after_last(all, c) =~= after_last(all.take(i as int), c) + all.skip(i as int));
    while i > 0 && cs[i - 1] != c
        invariant
            i <= cs@.len(),
            all == cs@,
            after_last(all, c) == after_last(all.take(i as int), c) + all.skip(i as int),
        decreases i,
    {
        assert(all.take(i as int).drop_last() =~= all.take(i - 1));
        assert(all.skip(i - 1) =~= seq![all[i - 1]] + all.skip(i as int));
        i = i - 1;
        assert(after_last(all, c) =~= after_last(all.take(i as int), c) + all.skip(i as int));
    }
    assert(after_last(all.take(i as int), c) =~= Seq::empty());
    let r = slice_chars(&cs, i, cs.len());
    assert(r@ =~= all.skip(i as int));
    r
}

/// The position of the first such character, or the length where there is none.
pub fn find_char(cs: &Vec<char>, c: char) -> (i: usize)
    ensures
        i == first_of(cs@, c),
        i <= cs@.len(),
{
    let mut i: usize = 0;
    assert(cs@.skip(0) =~= cs@);
    while i < cs.len()
        invariant
            i <= cs@.len(),
            first_of(cs@, c) == i + first_of(cs@.skip(i as int), c),
        decreases cs.len() - i,
    {
        assert(cs@.skip(i as int).drop_first() =~= cs@.skip(i + 1));
        if cs[i] == c {
            return i;
        }
        i = i + 1;
    }
    assert(cs@.skip(i as int).len() == 0);
    i
}

/// What stands behind the first such character; nothing where there is none.
pub fn text_after(s: &str, c: char) -> (r: String)
    ensures
        r@ == after_first(s@, c),
{
    let cs = to_chars(s);
    let i: usize = find_char(&cs, c);
    if i < cs.len() {
        let r = slice_chars(&cs, i + 1, cs.len());
        assert(r@ =~= s@.skip(i + 1));
        r
    } else {
        String::new()
    }
}

/// What stands before the first such character, or all of it.
pub fn text_before(s: &str, c: char) -> (r: String)
    ensures
        r@ == before_first(s@, c),
{
    let cs = to_chars(s);
    let i: usize = find_char(&cs, c);
    let r = slice_chars(&cs, 0, i);
    assert(r@ =~= s@.take(i as int));
    r
}

/// The first `max` characters.
pub fn head(s: &str, max: usize) -> (r: String)
    ensures
        r@ == head_spec(s@, max as nat),
{
    let cs = to_chars(s);
    let n: usize = if max < cs.len() {
        max
    } else {
        cs.len()
    };
    let r = slice_chars(&cs, 0, n);
    assert(r@ =~= head_spec(s@, max as nat));
    r
}

/// The first `max` characters.
pub open spec fn head_spec(s: Seq<char>, max: nat) -> Seq<char> {
    if s.len() <= max {
        s
    } else {
        s.take(max as int)
    }
}

// ── Lines ──────────────────────────────────────────────────────────────────

/// The text without a carriage return at its end.
pub open spec fn without_return(s: Seq<char>) -> Seq<char> {
    if s.len() > 0 && s.last() == '\r' {
        s.drop_last()
    } else {
        s
    }
}

/// The lines of a text, without what ends them.
pub open spec fn lines_of(s: Seq<char>) -> Seq<Seq<char>>
    decreases s.len(),
{
    if s.len() == 0 {
        Seq::empty()
    } else if first_of(s, '\n') < 0 || first_of(s, '\n') >= s.len() {
        seq![s]
    } else {
        seq![without_return(before_first(s, '\n'))] + lines_of(s.skip(first_of(s, '\n') + 1))
    }
}

/// The texts of a list.
pub open spec fn text_views(v: Seq<String>) -> Seq<Seq<char>> {
    v.map_values(|s: String| s@)
}

/// The lines of a text, without what ends them.
pub fn split_lines(text: &str) -> (r: Vec<String>)
    ensures
        text_views(r@) == lines_of(text@),
{
    let mut cs = to_chars(text);
    let mut r: Vec<String> = Vec::new();
    let ghost all = lines_of(cs@);
    assert(text_views(r@) + lines_of(cs@) =~= all);
    while cs.len() > 0
        invariant
            text_views(r@) + lines_of(cs@) == all,
            all == lines_of(text@),
        decreases cs@.len(),
    {
        let ghost before = text_views(r@);
        let ghost now = cs@;
        let i: usize = find_char(&cs, '\n');
        if i >= cs.len() {
            r.push(from_chars(&cs));
            assert(text_views(r@) =~= before + seq![now]);
            return r;
        }
        let end: usize = if i > 0 && cs[i - 1] == '\r' {
            i - 1
        } else {
            i
        };
        let line = slice_chars(&cs, 0, end);
        assert(line@ =~= without_return(before_first(now, '\n')));
        r.push(line);
        cs = rest_of(&cs, i + 1);
        assert(text_views(r@) =~= before + seq![line@]);
        assert(text_views(r@) + lines_of(cs@) =~= before + (seq![line@] + lines_of(cs@)));
    }
    assert(text_views(r@) =~= all);
    r
}

fn rest_of(cs: &Vec<char>, from: usize) -> (r: Vec<char>)
    requires
        from <= cs@.len(),
    ensures
        r@ == cs@.skip(from as int),
{
    let mut r: Vec<char> = Vec::new();
    let mut i: usize = from;
    while i < cs.len()
        invariant
            from <= i <= cs@.len(),
            r@ == cs@.subrange(from as int, i as int),
        decreases cs.len() - i,
    {
        r.push(cs[i]);
        i = i + 1;
        assert(r@ =~= cs@.subrange(from as int, i as int));
    }
    assert(r@ =~= cs@.skip(from as int));
    r
}

/// The number of characters before the first white space.
pub open spec fn word_len(s: Seq<char>) -> int
    decreases s.len(),
{
    if s.len() == 0 || whitespace_char(s[0]) {
        0
    } else {
        1 + word_len(s.drop_first())
    }
}

/// A word is part of the text, and the text begins with one unless it begins with white
/// space.
pub proof fn word_is_part(s: Seq<char>)
    ensures
        0 <= word_len(s) <= s.len(),
        s.len() > 0 && !whitespace_char(s[0]) ==> word_len(s) > 0,
    decreases s.len(),
{
    if s.len() > 0 {
        word_is_part(s.drop_first());
    }
}

/// The words of a text: what stands between white space.
pub open spec fn words_of(s: Seq<char>) -> Seq<Seq<char>>
    decreases s.len(),
{
    if s.len() == 0 {
        Seq::empty()
    } else if whitespace_char(s[0]) {
        words_of(s.drop_first())
    } else {
        proof {
            word_is_part(s);
        }
        seq![s.take(word_len(s))] + words_of(s.skip(word_len(s)))
    }
}

fn find_space(cs: &Vec<char>) -> (i: usize)
    ensures
        i == word_len(cs@),
        i <= cs@.len(),
{
    let mut i: usize = 0;
    assert(cs@.skip(0) =~= cs@);
    while i < cs.len()
        invariant
            i <= cs@.len(),
            word_len(cs@) == i + word_len(cs@.skip(i as int)),
        decreases cs.len() - i,
    {
        assert(cs@.skip(i as int).drop_first() =~= cs@.skip(i + 1));
        if is_whitespace(cs[i]) {
            return i;
        }
        i = i + 1;
    }
    i
}

/// The words of a text: what stands between white space.
pub fn split_words(text: &str) -> (r: Vec<String>)
    ensures
        text_views(r@) == words_of(text@),
{
    let mut cs = to_chars(text);
    let mut r: Vec<String> = Vec::new();
    let ghost all = words_of(cs@);
    assert(text_views(r@) + words_of(cs@) =~= all);
    while cs.len() > 0
        invariant
            text_views(r@) + words_of(cs@) == all,
            all == words_of(text@),
        decreases cs@.len(),
    {
        let ghost before = text_views(r@);
        let ghost now = cs@;
        let n: usize = find_space(&cs);
        proof {
            word_is_part(now);
        }
        if n == 0 {
            assert(whitespace_char(now[0]));
            cs = rest_of(&cs, 1);
            assert(cs@ =~= now.drop_first());
        } else {
            let word = slice_chars(&cs, 0, n);
            assert(word@ =~= now.take(n as int));
            r.push(word);
            cs = rest_of(&cs, n);
            assert(text_views(r@) =~= before + seq![word@]);
            assert(text_views(r@) + words_of(cs@) =~= before + (seq![word@] + words_of(cs@)));
        }
    }
    assert(text_views(r@) =~= all);
    r
}

} // verus!
