//! The panel that lists the memory files.

use crate::doc::{blank, bold, fg, italic, lit, msg, msg_num, Color, Doc, Line, Piece, PieceV, Style};
use crate::event::{Event, EventResult, KeyCode, MouseEvent, MouseKind, Rect};
use crate::list_nav::{next_sel, next_selection, prev_sel, previous_selection,
    scroll_start_for_selected, window_start};
use crate::panel_mouse::{a_line_of_an_item_hits_it, clicks, hit, hit_item, is_scrollbar_column,
    on_scrollbar, ListLayout};
use crate::text::{cat3, decimal, decimal_text, split_words, text_views, words_of};
use crate::time::{clock, elapsed, seconds_between, time_text, written_time, Moment};
use vstd::prelude::*;

verus! {

/// A line of the panel.
pub type LineV = Seq<PieceV>;

/// A memory file: its path, its size and when it was last changed.
#[derive(Debug)]
pub struct MemoryEntry {
    pub path: String,
    pub size_bytes: u64,
    pub modified: Option<Moment>,
}

/// A memory file, abstractly.
pub struct EntryV {
    pub path: Seq<char>,
    pub size: nat,
    pub modified: Option<Moment>,
}

impl View for MemoryEntry {
    type V = EntryV;

    open spec fn view(&self) -> EntryV {
        EntryV { path: self.path@, size: self.size_bytes as nat, modified: self.modified }
    }
}

/// The files of a list.
pub open spec fn files(v: Seq<MemoryEntry>) -> Seq<EntryV> {
    v.map_values(|e: MemoryEntry| e@)
}

// ── Sizes ──────────────────────────────────────────────────────────────────

/// The quotient rounded to a whole number, the even one where two are equally near.
pub open spec fn rounded(n: nat, d: nat) -> nat {
    let q = n / d;
    let twice = 2 * (n % d);
    if twice > d || (twice == d && q % 2 == 1) {
        q + 1
    } else {
        q
    }
}

/// The distance between the numbers near `n` that 53 binary digits can tell apart.
pub open spec fn spacing(n: nat, step: nat) -> nat
    decreases n / step,
{
    if step == 0 || n / step < 0x20_0000_0000_0000 {
        step
    } else {
        proof {
            assert(n / (2 * step) < n / step) by (nonlinear_arith)
                requires
                    n / step >= 2,
                    step > 0,
            ;
        }
        spacing(n, 2 * step)
    }
}

/// The number with its first 53 binary digits, rounded.
pub open spec fn in_53_digits(n: nat) -> nat {
    rounded(n, spacing(n, 1)) * spacing(n, 1)
}

/// The unit that a size is given in: its length in bytes.
pub open spec fn unit_of(bytes: nat) -> nat {
    if bytes >= 0x4000_0000 {
        0x4000_0000
    } else if bytes >= 0x10_0000 {
        0x10_0000
    } else if bytes >= 0x400 {
        0x400
    } else {
        1
    }
}

/// The message key of the unit that a size is given in.
pub open spec fn unit_key(bytes: nat) -> Seq<char> {
    if bytes >= 0x4000_0000 {
        "panel-memory-unit-gb"@
    } else if bytes >= 0x10_0000 {
        "panel-memory-unit-mb"@
    } else if bytes >= 0x400 {
        "panel-memory-unit-kb"@
    } else {
        "panel-memory-unit-b"@
    }
}

/// A size as a number of its unit: from ten units on a whole number, below with one
/// digit behind the point. Zero is written as it is.
pub open spec fn size_number(bytes: nat) -> Seq<char> {
    let n = in_53_digits(bytes);
    let unit = unit_of(bytes);
    if bytes == 0 {
        "0"@
    } else if n >= 10 * unit {
        decimal(rounded(n, unit))
    } else {
        let tenths = rounded(10 * n, unit);
        decimal(tenths / 10) + "."@ + decimal(tenths % 10)
    }
}

/// A size to show: a number, and the message key of its unit.
#[derive(Debug)]
pub struct SizeText {
    pub number: String,
    pub unit: &'static str,
}

fn round_div(n: u128, d: u128) -> (r: u128)
    requires
        d > 0,
        n <= 0x1_0000_0000_0000_0000_0000_0000,
        d <= 0x1_0000_0000_0000_0000,
    ensures
        r == rounded(n as nat, d as nat),
{
    let q: u128 = n / d;
    let rest: u128 = n % d;
    assert(q <= n) by (nonlinear_arith)
        requires
            q == n as int / d as int,
            d > 0,
    ;
    if 2 * rest > d || (2 * rest == d && q % 2 == 1) {
        q + 1
    } else {
        q
    }
}

fn spacing_of(n: u64) -> (r: u128)
    ensures
        r == spacing(n as nat, 1),
        1 <= r <= 4096,
{
    let mut step: u128 = 1;
    let n: u128 = n as u128;
    while n / step >= 0x20_0000_0000_0000
        invariant
            1 <= step <= 4096,
            n <= u64::MAX,
            spacing(n as nat, 1) == spacing(n as nat, step as nat),
        decreases n / step,
    {
        assert(step <= 2047) by (nonlinear_arith)
            requires
                n as int / step as int >= 0x20_0000_0000_0000,
                step > 0,
                n <= u64::MAX,
        ;
        assert(n as int / (2 * step) < n as int / step as int) by (nonlinear_arith)
            requires
                n as int / step as int >= 2,
                step > 0,
        ;
        step = 2 * step;
    }
    step
}

/// A size to show.
pub fn format_size(bytes: u64) -> (r: SizeText)
    ensures
        r.number@ == size_number(bytes as nat),
        r.unit@ == unit_key(bytes as nat),
{
    let unit: u128 = if bytes >= 0x4000_0000 {
        0x4000_0000
    } else if bytes >= 0x10_0000 {
        0x10_0000
    } else if bytes >= 0x400 {
        0x400
    } else {
        1
    };
    let key = if bytes >= 0x4000_0000 {
        "panel-memory-unit-gb"
    } else if bytes >= 0x10_0000 {
        "panel-memory-unit-mb"
    } else if bytes >= 0x400 {
        "panel-memory-unit-kb"
    } else {
        "panel-memory-unit-b"
    };
    if bytes == 0 {
        return SizeText { number: "0".to_owned(), unit: key };
    }
    let step: u128 = spacing_of(bytes);
    let parts: u128 = round_div(bytes as u128, step);
    assert(parts * step <= bytes + step) by (nonlinear_arith)
        requires
            parts <= bytes as int / step as int + 1,
            step >= 1,
    ;
    let n: u128 = parts * step;
    let number = if n >= 10 * unit {
        let whole: u128 = round_div(n, unit);
        assert(whole <= u64::MAX);
        decimal_text(whole as u64)
    } else {
        let tenths: u128 = round_div(10 * n, unit);
        assert(tenths <= 100);
        cat3(
            decimal_text((tenths / 10) as u64).as_str(),
            ".",
            decimal_text((tenths % 10) as u64).as_str(),
        )
    };
    SizeText { number, unit: key }
}

// ── Times ──────────────────────────────────────────────────────────────────

/// How long ago a time is, as the panel says it.
pub enum AgoV {
    JustNow,
    Minutes(nat),
    Hours(nat),
    Days(nat),
    Date(Seq<char>),
}

/// How long ago a time is, as the panel says it.
#[derive(Debug)]
pub enum Ago {
    JustNow,
    Minutes(u64),
    Hours(u64),
    Days(u64),
    Date(String),
}

impl View for Ago {
    type V = AgoV;

    open spec fn view(&self) -> AgoV {
        match *self {
            Ago::JustNow => AgoV::JustNow,
            Ago::Minutes(n) => AgoV::Minutes(n as nat),
            Ago::Hours(n) => AgoV::Hours(n as nat),
            Ago::Days(n) => AgoV::Days(n as nat),
            Ago::Date(d) => AgoV::Date(d@),
        }
    }
}

/// The date of a time, nothing for one that has none.
pub open spec fn date_of(ts: Moment) -> Seq<char> {
    match written_time(ts.secs, "%Y-%m-%d"@) {
        Some(d) => d,
        None => Seq::empty(),
    }
}

/// How long ago a time is: in the largest unit that it fills, and from thirty days on
/// its date.
pub open spec fn ago(ts: Moment, now: Moment) -> AgoV {
    let secs = elapsed(ts, now);
    if secs < 60 {
        AgoV::JustNow
    } else if secs < 3600 {
        AgoV::Minutes((secs / 60) as nat)
    } else if secs < 86400 {
        AgoV::Hours((secs / 3600) as nat)
    } else if secs < 30 * 86400 {
        AgoV::Days((secs / 86400) as nat)
    } else {
        AgoV::Date(date_of(ts))
    }
}

/// How long ago a time is, at a given time.
pub fn relative_time(ts: Moment, now: Moment) -> (r: Ago)
    ensures
        r@ == ago(ts, now),
{
    let secs: i128 = seconds_between(ts, now);
    if secs < 60 {
        return Ago::JustNow;
    }
    if secs < 3600 {
        return Ago::Minutes((secs / 60) as u64);
    }
    if secs < 86400 {
        return Ago::Hours((secs / 3600) as u64);
    }
    if secs < 30 * 86400 {
        return Ago::Days((secs / 86400) as u64);
    }
    match time_text(ts.secs, "%Y-%m-%d") {
        Some(d) => Ago::Date(d),
        None => Ago::Date(String::new()),
    }
}

/// How long ago a time is now. What the clock shows is left open: the answer is the
/// one for some time.
pub fn format_relative_time(ts: Moment) -> (r: Ago)
    ensures
        exists|now: Moment| r@ == ago(ts, now),
{
    let now = clock();
    let r = relative_time(ts, now);
    assert(r@ == ago(ts, now));
    r
}

/// The time as words of a line.
pub open spec fn ago_piece(a: AgoV, style: Style) -> PieceV {
    match a {
        AgoV::JustNow => msg("panel-memory-time-just-now"@, style),
        AgoV::Minutes(n) => msg_num("panel-memory-time-min-ago"@, "n"@, n, style),
        AgoV::Hours(n) => msg_num("panel-memory-time-hour-ago"@, "n"@, n, style),
        AgoV::Days(n) => msg_num("panel-memory-time-day-ago"@, "n"@, n, style),
        AgoV::Date(d) => lit(d, style),
    }
}

impl Ago {
    /// The time as words of a line.
    pub fn piece(self, style: Style) -> (p: Piece)
        ensures
            p@ == ago_piece(self@, style),
    {
        match self {
            Ago::JustNow => Piece::msg("panel-memory-time-just-now", style),
            Ago::Minutes(n) => Piece::msg_num("panel-memory-time-min-ago", "n", n, style),
            Ago::Hours(n) => Piece::msg_num("panel-memory-time-hour-ago", "n", n, style),
            Ago::Days(n) => Piece::msg_num("panel-memory-time-day-ago", "n", n, style),
            Ago::Date(d) => Piece::text(d, style),
        }
    }
}

// ── What an input does ─────────────────────────────────────────────────────

/// The number of files on the screen.
pub const VISIBLE_ITEMS: usize = 13;

/// What the program around the panel has to do.
#[derive(Debug)]
pub enum MemoryEffect {
    Nothing,
    Close,
    Open(String),
}

/// What the program has to do, abstractly.
pub enum MemoryEffectV {
    Nothing,
    Close,
    Open(Seq<char>),
}

impl View for MemoryEffect {
    type V = MemoryEffectV;

    open spec fn view(&self) -> MemoryEffectV {
        match *self {
            MemoryEffect::Nothing => MemoryEffectV::Nothing,
            MemoryEffect::Close => MemoryEffectV::Close,
            MemoryEffect::Open(p) => MemoryEffectV::Open(p@),
        }
    }
}

/// The panel: which file is selected.
#[derive(Debug, Clone, Copy, PartialEq, Eq, Structural)]
pub struct MemoryPanel {
    pub selected: usize,
}

impl Default for MemoryPanel {
    fn default() -> (p: MemoryPanel)
        ensures
            p.selected == 0,
    {
        MemoryPanel { selected: 0 }
    }
}

/// Where the files stand in the panel.
pub open spec fn layout(selected: int, count: int) -> ListLayout {
    ListLayout {
        header_rows: 3,
        item_rows: 1,
        footer_rows: 0,
        visible_items: 13,
        scroll_start: window_start(selected, VISIBLE_ITEMS as int) as usize,
        item_count: count as usize,
    }
}

/// Opening the file at a position, nothing where there is none.
pub open spec fn opening(es: Seq<EntryV>, i: int) -> MemoryEffectV {
    if 0 <= i < es.len() {
        MemoryEffectV::Open(es[i].path)
    } else {
        MemoryEffectV::Nothing
    }
}

/// What an input does: the selection after it, whether it is used up, and what is to
/// be done.
pub open spec fn memory_step(selected: int, es: Seq<EntryV>, event: Event, area: Option<Rect>) -> (
    int,
    EventResult,
    MemoryEffectV,
) {
    match event {
        Event::Mouse(m) => match target(selected, es, m, area) {
            Some(i) => (i, EventResult::Consumed, opening(es, i)),
            None => (
                selected,
                if m.kind == MouseKind::LeftDown {
                    EventResult::Consumed
                } else {
                    EventResult::Ignored
                },
                MemoryEffectV::Nothing,
            ),
        },
        Event::Key(key) => if !key.press {
            (selected, EventResult::Ignored, MemoryEffectV::Nothing)
        } else {
            match key.code {
                KeyCode::Esc => (selected, EventResult::Consumed, MemoryEffectV::Close),
                KeyCode::Up => (prev_sel(selected), EventResult::Consumed, MemoryEffectV::Nothing),
                KeyCode::Down => (
                    if es.len() > 0 {
                        next_sel(selected, es.len() as int)
                    } else {
                        selected
                    },
                    EventResult::Consumed,
                    MemoryEffectV::Nothing,
                ),
                KeyCode::Enter => (selected, EventResult::Consumed, opening(es, selected)),
                _ => (selected, EventResult::Consumed, MemoryEffectV::Nothing),
            }
        },
        _ => (selected, EventResult::Ignored, MemoryEffectV::Nothing),
    }
}

/// The file that a click points at.
pub open spec fn target(selected: int, es: Seq<EntryV>, m: MouseEvent, area: Option<Rect>) -> Option<
    int,
> {
    match area {
        Some(a) => if on_scrollbar(m, a) {
            None
        } else {
            hit(m, a, layout(selected, es.len() as int))
        },
        None => None,
    }
}

/// A click on a file does what Enter does with the file selected.
pub proof fn click_is_enter_on_file(
    selected: int,
    es: Seq<EntryV>,
    m: MouseEvent,
    area: Option<Rect>,
    key: crate::event::KeyEvent,
)
    requires
        target(selected, es, m, area) is Some,
        key.press,
        key.code == KeyCode::Enter,
    ensures
        memory_step(selected, es, Event::Mouse(m), area) == memory_step(
            target(selected, es, m, area)->0,
            es,
            Event::Key(key),
            area,
        ),
{
}

impl MemoryPanel {
    fn open_at(&self, entries: &Vec<MemoryEntry>, i: usize) -> (e: MemoryEffect)
        ensures
            e@ == opening(files(entries@), i as int),
    {
        if i < entries.len() {
            assert(files(entries@)[i as int] == entries@[i as int]@);
            MemoryEffect::Open(entries[i].path.clone())
        } else {
            MemoryEffect::Nothing
        }
    }

    fn pointed_at(&self, m: &MouseEvent, count: usize, area: Option<Rect>) -> (r: Option<usize>)
        ensures
            forall|es: Seq<EntryV>|
                es.len() == count ==> match r {
                    Some(i) => #[trigger] target(self.selected as int, es, *m, area) == Some(
                        i as int,
                    ),
                    None => target(self.selected as int, es, *m, area) is None,
                },
    {
        let shape = ListLayout {
            header_rows: 3,
            item_rows: 1,
            footer_rows: 0,
            visible_items: 13,
            scroll_start: scroll_start_for_selected(self.selected, VISIBLE_ITEMS),
            item_count: count,
        };
        assert(shape == layout(self.selected as int, count as int));
        match area {
            Some(a) => if is_scrollbar_column(m, a) {
                None
            } else {
                hit_item(m, a, shape)
            },
            None => None,
        }
    }

    /// Deals with an input.
    pub fn handle_event(
        &mut self,
        event: &Event,
        entries: &Vec<MemoryEntry>,
        area: Option<Rect>,
    ) -> (r: (EventResult, MemoryEffect))
        ensures
            (final(self).selected as int, r.0, r.1@) == memory_step(
                old(self).selected as int,
                files(entries@),
                *event,
                area,
            ),
    {
        match event {
            Event::Mouse(m) => {
                match self.pointed_at(m, entries.len(), area) {
                    Some(i) => {
                        self.selected = i;
                        (EventResult::Consumed, self.open_at(entries, i))
                    },
                    None => if m.kind == MouseKind::LeftDown {
                        (EventResult::Consumed, MemoryEffect::Nothing)
                    } else {
                        (EventResult::Ignored, MemoryEffect::Nothing)
                    },
                }
            },
            Event::Key(key) => {
                if !key.press {
                    return (EventResult::Ignored, MemoryEffect::Nothing);
                }
                let e = match key.code {
                    KeyCode::Esc => MemoryEffect::Close,
                    KeyCode::Up => {
                        self.selected = previous_selection(self.selected);
                        MemoryEffect::Nothing
                    },
                    KeyCode::Down => {
                        if entries.len() > 0 {
                            self.selected = next_selection(self.selected, entries.len());
                        }
                        MemoryEffect::Nothing
                    },
                    KeyCode::Enter => self.open_at(entries, self.selected),
                    _ => MemoryEffect::Nothing,
                };
                (EventResult::Consumed, e)
            },
            _ => (EventResult::Ignored, MemoryEffect::Nothing),
        }
    }
}

// ── What is shown ──────────────────────────────────────────────────────────

/// When a file was changed.
pub open spec fn modified_piece(e: EntryV, now: Moment) -> PieceV {
    match e.modified {
        Some(ts) => ago_piece(ago(ts, now), fg(Color::Dim)),
        None => msg("common-na"@, fg(Color::Dim)),
    }
}

/// The row of a file: a mark, the path, the size and the time.
pub open spec fn row_line(e: EntryV, selected: bool, now: Moment) -> LineV {
    seq![
        lit(
            if selected {
                " > "@
            } else {
                "   "@
            },
            fg(Color::Title),
        ),
        lit(
            e.path,
            if selected {
                bold(Color::Title)
            } else {
                fg(Color::Primary)
            },
        ),
        lit("   "@ + size_number(e.size) + " "@, fg(Color::Dim)),
        msg(unit_key(e.size), fg(Color::Dim)),
        lit("  "@, fg(Color::Dim)),
        modified_piece(e, now),
    ]
}

/// The rows of the files from one position to another.
pub open spec fn rows(es: Seq<EntryV>, selected: int, now: Moment, from: int, to: int) -> Seq<LineV>
    decreases to - from,
{
    if to <= from {
        Seq::empty()
    } else {
        rows(es, selected, now, from, to - 1).push(row_line(es[to - 1], to - 1 == selected, now))
    }
}

/// The end of the part of a list that is shown.
pub open spec fn window_end(start: int, count: int, visible: int) -> int {
    if start + visible < count {
        start + visible
    } else {
        count
    }
}

/// What the panel shows.
pub open spec fn memory_lines(selected: int, es: Seq<EntryV>, now: Moment) -> Seq<LineV> {
    let start = window_start(selected, VISIBLE_ITEMS as int);
    seq![
        seq![msg_num("panel-memory-stats"@, "count"@, es.len(), bold(Color::Primary))],
        seq![msg("panel-memory-nav-hint"@, italic(Color::Muted))],
        blank(),
    ] + (if es.len() == 0 {
        seq![
            seq![msg("panel-memory-empty"@, fg(Color::Muted))],
            seq![msg("panel-memory-empty-hint"@, fg(Color::Muted))],
        ]
    } else {
        rows(es, selected, now, start, window_end(start, es.len() as int, VISIBLE_ITEMS as int))
    })
}

proof fn files_stand(es: Seq<EntryV>, selected: int, now: Moment, from: int, to: int, i: int)
    requires
        from <= i < to,
    ensures
        rows(es, selected, now, from, to).len() == to - from,
        rows(es, selected, now, from, to)[i - from] == row_line(es[i], i == selected, now),
    decreases to - from,
{
    if from < to - 1 {
        files_stand(
            es,
            selected,
            now,
            from,
            to - 1,
            if i < to - 1 {
                i
            } else {
                from
            },
        );
    } else {
        assert(rows(es, selected, now, from, to - 1).len() == 0);
    }
}

/// A click on the row of a file opens that file.
pub proof fn files_are_clicked_where_shown(
    selected: int,
    es: Seq<EntryV>,
    now: Moment,
    m: MouseEvent,
    area: Rect,
    i: int,
)
    requires
        es.len() <= usize::MAX,
        window_start(selected, VISIBLE_ITEMS as int) <= i < window_end(
            window_start(selected, VISIBLE_ITEMS as int),
            es.len() as int,
            VISIBLE_ITEMS as int,
        ),
        clicks(m, area, 3 + i - window_start(selected, VISIBLE_ITEMS as int)),
    ensures
        memory_lines(selected, es, now)[3 + i - window_start(selected, VISIBLE_ITEMS as int)]
            == row_line(es[i], i == selected, now),
        memory_step(selected, es, Event::Mouse(m), Some(area)) == (
            i,
            EventResult::Consumed,
            MemoryEffectV::Open(es[i].path),
        ),
{
    let start = window_start(selected, VISIBLE_ITEMS as int);
    let end = window_end(start, es.len() as int, VISIBLE_ITEMS as int);
    files_stand(es, selected, now, start, end, i);
    let l = layout(selected, es.len() as int);
    assert(l.item_rows == 1);
    a_line_of_an_item_hits_it(m, area, l, i - start, 0);
}

fn entry_row(e: &MemoryEntry, selected: bool, now: Moment) -> (l: Line)
    ensures
        l@ == row_line(e@, selected, now),
{
    let size = format_size(e.size_bytes);
    let mut l = Line::new();
    let dim = Style::fg(Color::Dim);
    l.push(
        Piece::lit(
            if selected {
                " > "
            } else {
                "   "
            },
            Style::fg(Color::Title),
        ),
    );
    l.push(
        Piece::lit(
            e.path.as_str(),
            if selected {
                Style::bold(Color::Title)
            } else {
                Style::fg(Color::Primary)
            },
        ),
    );
    l.push(Piece::text(cat3("   ", size.number.as_str(), " "), dim));
    l.push(Piece::msg(size.unit, dim));
    l.push(Piece::lit("  ", dim));
    l.push(
        match e.modified {
            Some(ts) => relative_time(ts, now).piece(dim),
            None => Piece::msg("common-na", dim),
        },
    );
    assert(l@ =~= row_line(e@, selected, now));
    l
}

impl MemoryPanel {
    /// What the panel shows at a given time.
    pub fn lines(&self, entries: &Vec<MemoryEntry>, now: Moment) -> (d: Doc)
        ensures
            d@ == memory_lines(self.selected as int, files(entries@), now),
    {
        let ghost es = files(entries@);
        let count: usize = entries.len();
        let mut d = Doc::new();
        d.line(
            Piece::msg_num("panel-memory-stats", "count", count as u64, Style::bold(Color::Primary)),
        );
        d.line(Piece::msg("panel-memory-nav-hint", Style::italic(Color::Muted)));
        d.blank();
        if count == 0 {
            d.line(Piece::msg("panel-memory-empty", Style::fg(Color::Muted)));
            d.line(Piece::msg("panel-memory-empty-hint", Style::fg(Color::Muted)));
            assert(d@ =~= memory_lines(self.selected as int, es, now));
            return d;
        }
        let start: usize = scroll_start_for_selected(self.selected, VISIBLE_ITEMS);
        let ghost head = d@;
        let mut shown = Doc::new();
        let mut i: usize = start;
        let ghost end = window_end(start as int, count as int, VISIBLE_ITEMS as int);
        while i < count && i - start < VISIBLE_ITEMS
            invariant
                start <= i,
                count == es.len(),
                es == files(entries@),
                i <= end || i == start,
                end == window_end(start as int, count as int, VISIBLE_ITEMS as int),
                shown@ == rows(es, self.selected as int, now, start as int, i as int),
            decreases count - i,
        {
            assert(es[i as int] == entries@[i as int]@);
            shown.push(entry_row(&entries[i], i == self.selected, now));
            i = i + 1;
        }
        d.extend(shown);
        assert(d@ =~= memory_lines(self.selected as int, es, now));
        d
    }

    /// What the panel shows now, whatever the clock says.
    pub fn show(&self, entries: &Vec<MemoryEntry>) -> (d: Doc)
        ensures
            exists|now: Moment| d@ == memory_lines(self.selected as int, files(entries@), now),
    {
        let now = clock();
        let d = self.lines(entries, now);
        assert(d@ == memory_lines(self.selected as int, files(entries@), now));
        d
    }
}

// ── Editing a file ─────────────────────────────────────────────────────────

/// The program that edits a file, and what it is given.
#[derive(Debug)]
pub struct EditorCommand {
    pub program: String,
    pub args: Vec<String>,
}

/// The command that edits a file: the first word of the setting is the program, the
/// others come before the file. Without a setting it is `vi`; a setting without a word
/// gives no command.
pub fn editor_command(setting: Option<&str>, file: &str) -> (r: Option<EditorCommand>)
    ensures
        ({
            let words = words_of(
                match setting {
                    Some(s) => s@,
                    None => "vi"@,
                },
            );
            match r {
                Some(c) => words.len() > 0 && c.program@ == words[0] && text_views(c.args@)
                    == words.skip(1).push(file@),
                None => words.len() == 0,
            }
        }),
{
    let words = split_words(
        match setting {
            Some(s) => s,
            None => "vi",
        },
    );
    let ghost all = text_views(words@);
    if words.len() == 0 {
        return None;
    }
    let program = words[0].clone();
    assert(program@ == all[0]);
    let mut args: Vec<String> = Vec::new();
    let mut i: usize = 1;
    assert(text_views(args@) =~= all.subrange(1, 1));
    while i < words.len()
        invariant
            1 <= i <= words@.len(),
            all == text_views(words@),
            text_views(args@) == all.subrange(1, i as int),
        decreases words.len() - i,
    {
        let ghost before = text_views(args@);
        args.push(words[i].clone());
        assert(text_views(args@) =~= before.push(all[i as int]));
        i = i + 1;
        assert(text_views(args@) =~= all.subrange(1, i as int));
    }
    let ghost before = text_views(args@);
    args.push(file.to_owned());
    assert(text_views(args@) =~= before.push(file@));
    assert(before =~= all.skip(1));
    Some(EditorCommand { program, args })
}

} // verus!
