//! The files of the memory.

use crate::doc::{ArgV, WordsV};
use crate::event::{Event, KeyCode, KeyEvent, Rect};
use crate::panels::memory::{ago, in_53_digits, memory_lines, memory_step, rounded, row_line, rows,
    size_number, spacing, unit_key, unit_of, AgoV, EntryV, MemoryEffectV};
use crate::text::decimal;
use crate::time::{written_time, Moment};
use vstd::prelude::*;

verus! {

/// Enter opens the selected file, the arrows lead from file to file, not beyond the first and
/// the last, and Escape closes the panel.
pub proof fn enter_opens_the_selected_file(
    selected: int,
    es: Seq<EntryV>,
    key: KeyEvent,
    area: Option<Rect>,
)
    requires
        key.press,
        0 <= selected < es.len(),
    ensures
        ({
            let (s, r, e) = memory_step(selected, es, Event::Key(key), area);
            &&& r is Consumed
            &&& key.code == KeyCode::Enter ==> s == selected && e == MemoryEffectV::Open(
                es[selected].path,
            )
            &&& key.code == KeyCode::Down ==> e is Nothing && s == (if selected + 1 < es.len() {
                selected + 1
            } else {
                selected
            })
            &&& key.code == KeyCode::Up ==> e is Nothing && s == (if selected > 0 {
                selected - 1
            } else {
                0
            })
            &&& key.code == KeyCode::Esc ==> e is Close && s == selected
        }),
{
}

/// A time is told in the largest unit that it holds whole, up to thirty days; then by its date.
pub proof fn a_time_is_told_in_its_largest_unit(ts: Moment, now: Moment, secs: int)
    requires
        secs == (now.secs - ts.secs) - (if now.nanos < ts.nanos {
            1int
        } else {
            0
        }),
        ts.nanos < 1_000_000_000,
        now.nanos < 1_000_000_000,
    ensures
        secs < 60 <==> ago(ts, now) is JustNow,
        60 <= secs < 3600 <==> ago(ts, now) is Minutes,
        3600 <= secs < 86400 <==> ago(ts, now) is Hours,
        86400 <= secs < 2_592_000 <==> ago(ts, now) is Days,
        2_592_000 <= secs <==> ago(ts, now) is Date,
        ago(ts, now) matches AgoV::Minutes(n) ==> 60 * n <= secs < 60 * (n + 1),
        ago(ts, now) matches AgoV::Hours(n) ==> 3600 * n <= secs < 3600 * (n + 1),
        ago(ts, now) matches AgoV::Days(n) ==> 86400 * n <= secs < 86400 * (n + 1),
        ago(ts, now) matches AgoV::Date(d) ==> (written_time(ts.secs, "%Y-%m-%d"@) matches Some(w)
            ==> d == w),
{
}

/// Rounding comes as near as it can, and to the even one of two that are as near.
pub proof fn rounding_is_to_the_nearest(n: nat, d: nat)
    requires
        d > 0,
    ensures
        2 * (rounded(n, d) * d) <= 2 * n + d,
        2 * n <= 2 * (rounded(n, d) * d) + d,
        2 * (n % d) == d ==> rounded(n, d) % 2 == 0,
{
    let q = (n / d) as int;
    let m = (n % d) as int;
    let n = n as int;
    let d = d as int;
    assert(n == q * d + m && 0 <= m < d) by (nonlinear_arith)
        requires
            d > 0,
            n >= 0,
            q == n / d,
            m == n % d,
    ;
    assert((q + 1) * d == q * d + d) by (nonlinear_arith);
}

/// Sizes of up to fifty-three binary digits are told as they are.
pub proof fn common_sizes_are_exact(bytes: nat)
    requires
        bytes < 0x20_0000_0000_0000,
    ensures
        in_53_digits(bytes) == bytes,
{
    assert(bytes / 1 == bytes);
    assert(spacing(bytes, 1) == 1);
    assert(bytes % 1 == 0);
}

/// A size is told in the largest unit that it holds whole: from ten of the unit on as the nearest
/// whole number, below that with one decimal.
pub proof fn a_size_is_told_in_its_largest_unit(bytes: nat, unit: nat, tenths: nat)
    requires
        0 < bytes < 0x20_0000_0000_0000,
        unit == (if bytes < 1024 {
            1nat
        } else if bytes < 1024 * 1024 {
            1024
        } else if bytes < 1024 * 1024 * 1024 {
            1024 * 1024
        } else {
            1024 * 1024 * 1024
        }),
        2 * (tenths * unit) < 2 * (10 * bytes) + unit,
        2 * (10 * bytes) < 2 * (tenths * unit) + unit,
    ensures
        bytes < 10 * unit ==> size_number(bytes) == decimal(tenths / 10) + "."@ + decimal(
            tenths % 10,
        ),
        unit_key(bytes) == (if unit == 1 {
            "panel-memory-unit-b"@
        } else if unit == 1024 {
            "panel-memory-unit-kb"@
        } else if unit == 1024 * 1024 {
            "panel-memory-unit-mb"@
        } else {
            "panel-memory-unit-gb"@
        }),
{
    common_sizes_are_exact(bytes);
    assert(unit_of(bytes) == unit);
    let r = rounded(10 * bytes, unit);
    rounding_is_to_the_nearest(10 * bytes, unit);
    assert(r == tenths) by (nonlinear_arith)
        requires
            unit > 0,
            2 * (tenths * unit) < 2 * (10 * bytes) + unit,
            2 * (10 * bytes) < 2 * (tenths * unit) + unit,
            2 * (r * unit) <= 2 * (10 * bytes) + unit,
            2 * (10 * bytes) <= 2 * (r * unit) + unit,
    ;
}

/// From ten of its unit on, a size is told as the nearest whole number of the unit.
pub proof fn a_large_size_is_told_whole(bytes: nat, unit: nat, whole: nat)
    requires
        0 < bytes < 0x20_0000_0000_0000,
        unit == (if bytes < 1024 {
            1nat
        } else if bytes < 1024 * 1024 {
            1024
        } else if bytes < 1024 * 1024 * 1024 {
            1024 * 1024
        } else {
            1024 * 1024 * 1024
        }),
        bytes >= 10 * unit,
        2 * (whole * unit) < 2 * bytes + unit,
        2 * bytes < 2 * (whole * unit) + unit,
    ensures
        size_number(bytes) == decimal(whole),
        size_number(0) == "0"@,
{
    common_sizes_are_exact(bytes);
    assert(unit_of(bytes) == unit);
    let r = rounded(bytes, unit);
    rounding_is_to_the_nearest(bytes, unit);
    assert(r == whole) by (nonlinear_arith)
        requires
            unit > 0,
            2 * (whole * unit) < 2 * bytes + unit,
            2 * bytes < 2 * (whole * unit) + unit,
            2 * (r * unit) <= 2 * bytes + unit,
            2 * bytes <= 2 * (r * unit) + unit,
    ;
}

proof fn lemma_rows(es: Seq<EntryV>, selected: int, now: Moment, from: int, to: int, i: int)
    requires
        0 <= from <= to <= es.len(),
    ensures
        rows(es, selected, now, from, to).len() == to - from,
        from <= i < to ==> rows(es, selected, now, from, to)[i - from] == row_line(
            es[i],
            i == selected,
            now,
        ),
    decreases to - from,
{
    if to > from {
        lemma_rows(es, selected, now, from, to - 1, i);
    }
}

/// The number of files is told, and thirteen at a time are shown, each with its path and its
/// size, the selected one among them and marked.
pub proof fn the_selected_file_is_shown(selected: int, es: Seq<EntryV>, now: Moment, i: int)
    requires
        0 <= selected < es.len(),
        0 <= i < es.len(),
        selected < 13 && i < 13 || selected >= 13 && selected - 12 <= i <= selected,
    ensures
        ({
            let start = if selected < 13 {
                0
            } else {
                selected - 12
            };
            let d = memory_lines(selected, es, now);
            &&& d[0][0].words == WordsV::Message(
                "panel-memory-stats"@,
                seq![("count"@, ArgV::Number(es.len()))],
            )
            &&& 3 + i - start < d.len() <= 16
            &&& d[3 + i - start][0].words == WordsV::Literal(
                if i == selected {
                    " > "@
                } else {
                    "   "@
                },
            )
            &&& d[3 + i - start][1].words == WordsV::Literal(es[i].path)
            &&& d[3 + i - start][2].words == WordsV::Literal("   "@ + size_number(es[i].size) + " "@)
            &&& d[3 + i - start][3].words == WordsV::Message(unit_key(es[i].size), Seq::empty())
            &&& es[i].modified is None ==> d[3 + i - start][5].words == WordsV::Message(
                "common-na"@,
                Seq::empty(),
            )
            &&& es[i].modified is Some && ago(es[i].modified->0, now) is Days ==> d[3 + i
                - start][5].words == WordsV::Message(
                "panel-memory-time-day-ago"@,
                seq![("n"@, ArgV::Number(ago(es[i].modified->0, now)->Days_0))],
            )
            &&& es[i].modified is Some && ago(es[i].modified->0, now) is Hours ==> d[3 + i
                - start][5].words == WordsV::Message(
                "panel-memory-time-hour-ago"@,
                seq![("n"@, ArgV::Number(ago(es[i].modified->0, now)->Hours_0))],
            )
            &&& es[i].modified is Some && ago(es[i].modified->0, now) is Minutes ==> d[3 + i
                - start][5].words == WordsV::Message(
                "panel-memory-time-min-ago"@,
                seq![("n"@, ArgV::Number(ago(es[i].modified->0, now)->Minutes_0))],
            )
            &&& es[i].modified is Some && ago(es[i].modified->0, now) is JustNow ==> d[3 + i
                - start][5].words == WordsV::Message("panel-memory-time-just-now"@, Seq::empty())
            &&& es[i].modified is Some && ago(es[i].modified->0, now) is Date ==> d[3 + i
                - start][5].words == WordsV::Literal(ago(es[i].modified->0, now)->Date_0)
        }),
{
    let start = if selected < 13 {
        0
    } else {
        selected - 12
    };
    let end = if start + 13 < es.len() {
        start + 13
    } else {
        es.len() as int
    };
    lemma_rows(es, selected, now, start, end, i);
    let d = memory_lines(selected, es, now);
    assert(d[3 + i - start] == rows(es, selected, now, start, end)[i - start]);
    assert(rows(es, selected, now, start, end)[i - start] == row_line(es[i], i == selected, now));
}

} // verus!
