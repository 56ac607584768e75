//! The panel that lists the scheduled jobs.

use crate::doc::{blank, bold, fg, lit, msg, msg_text, msg_with, Arg, ArgV, Color, Doc, Line,
    Piece, PieceV, Style};
use crate::event::{Event, EventResult, KeyCode, KeyEvent, MouseEvent, MouseKind, Rect};
use crate::list_nav::{next_sel, next_selection, prev_sel, previous_selection,
    scroll_start_for_selected, window_start};
use crate::panel_mouse::{hit, hit_item, is_scrollbar_column, on_scrollbar, ListLayout};
use crate::panels::memory::window_end;
use crate::text::{cat, cat4, clip, clip_spec, decimal, decimal_text};
use crate::time::{time_text, written_time};
use vstd::prelude::*;

verus! {

/// A line of the panel.
pub type LineV = Seq<PieceV>;

/// A scheduled job. The next time it runs is given in seconds since the epoch, on the
/// clock of the user.
#[derive(Debug)]
pub struct CronJobSummary {
    pub id: String,
    pub expression: String,
    pub prompt: String,
    pub enabled: bool,
    pub next_fire: Option<i64>,
}

/// A scheduled job, abstractly.
pub struct JobV {
    pub id: Seq<char>,
    pub expression: Seq<char>,
    pub prompt: Seq<char>,
    pub enabled: bool,
    pub next_fire: Option<i64>,
}

impl View for CronJobSummary {
    type V = JobV;

    open spec fn view(&self) -> JobV {
        JobV {
            id: self.id@,
            expression: self.expression@,
            prompt: self.prompt@,
            enabled: self.enabled,
            next_fire: self.next_fire,
        }
    }
}

/// The jobs of a list.
pub open spec fn jobs_view(v: Seq<CronJobSummary>) -> Seq<JobV> {
    v.map_values(|j: CronJobSummary| j@)
}

/// The number of jobs on the screen.
pub const VISIBLE_ITEMS: usize = 4;

/// The panel: the selection, and whether it is asked whether to delete.
#[derive(Debug, Clone, Copy, PartialEq, Eq, Structural)]
pub struct CronPanel {
    pub selected: usize,
    pub confirm_delete: bool,
}

impl Default for CronPanel {
    fn default() -> (p: CronPanel)
        ensures
            p == (CronPanel { selected: 0, confirm_delete: false }),
    {
        CronPanel { selected: 0, confirm_delete: false }
    }
}

/// What the program around the panel has to do.
#[derive(Debug)]
pub enum CronEffect {
    Nothing,
    Close,
    Toggle(String),
    Remove(String),
}

/// What the program has to do, abstractly.
pub enum CronEffectV {
    Nothing,
    Close,
    Toggle(Seq<char>),
    Remove(Seq<char>),
}

impl View for CronEffect {
    type V = CronEffectV;

    open spec fn view(&self) -> CronEffectV {
        match *self {
            CronEffect::Nothing => CronEffectV::Nothing,
            CronEffect::Close => CronEffectV::Close,
            CronEffect::Toggle(id) => CronEffectV::Toggle(id@),
            CronEffect::Remove(id) => CronEffectV::Remove(id@),
        }
    }
}

/// Where the jobs stand in the panel. Without a job there is no line of numbers.
pub open spec fn layout(selected: int, count: int) -> ListLayout {
    ListLayout {
        header_rows: if count == 0 {
            2
        } else {
            3
        },
        item_rows: 3,
        footer_rows: 0,
        visible_items: 4,
        scroll_start: window_start(selected, VISIBLE_ITEMS as int) as usize,
        item_count: count as usize,
    }
}

/// The job that a click points at.
pub open spec fn target(p: CronPanel, count: int, m: MouseEvent, area: Option<Rect>) -> Option<
    int,
> {
    match area {
        Some(a) => if p.confirm_delete || on_scrollbar(m, a) {
            None
        } else {
            hit(m, a, layout(p.selected as int, count))
        },
        None => None,
    }
}

/// The job at a position switched over.
pub open spec fn toggling(js: Seq<JobV>, i: int) -> CronEffectV {
    if 0 <= i < js.len() {
        CronEffectV::Toggle(js[i].id)
    } else {
        CronEffectV::Nothing
    }
}

/// What a key does while it is asked whether to delete.
pub open spec fn confirm_key(p: CronPanel, js: Seq<JobV>, key: KeyEvent) -> (
    CronPanel,
    EventResult,
    CronEffectV,
) {
    if key.code == KeyCode::Char('c') && key.mods.ctrl {
        (p, EventResult::Ignored, CronEffectV::Nothing)
    } else {
        (
            CronPanel { confirm_delete: false, ..p },
            EventResult::Consumed,
            if key.code == KeyCode::Enter && p.selected < js.len() {
                CronEffectV::Remove(js[p.selected as int].id)
            } else {
                CronEffectV::Nothing
            },
        )
    }
}

/// What a key does in the list.
pub open spec fn list_key(p: CronPanel, js: Seq<JobV>, key: KeyEvent) -> (
    CronPanel,
    EventResult,
    CronEffectV,
) {
    match key.code {
        KeyCode::Esc => (p, EventResult::Consumed, CronEffectV::Close),
        KeyCode::Up => (
            CronPanel { selected: prev_sel(p.selected as int) as usize, ..p },
            EventResult::Consumed,
            CronEffectV::Nothing,
        ),
        KeyCode::Down => (
            if js.len() > 0 {
                CronPanel { selected: next_sel(p.selected as int, js.len() as int) as usize, ..p }
            } else {
                p
            },
            EventResult::Consumed,
            CronEffectV::Nothing,
        ),
        KeyCode::Enter => (p, EventResult::Consumed, toggling(js, p.selected as int)),
        KeyCode::Char(c) => if c == ' ' {
            (p, EventResult::Consumed, toggling(js, p.selected as int))
        } else if c == 'd' && js.len() > 0 {
            (
                CronPanel { confirm_delete: true, ..p },
                EventResult::Consumed,
                CronEffectV::Nothing,
            )
        } else if c == 'c' && key.mods.ctrl {
            (p, EventResult::Ignored, CronEffectV::Nothing)
        } else {
            (p, EventResult::Consumed, CronEffectV::Nothing)
        },
        _ => (p, EventResult::Consumed, CronEffectV::Nothing),
    }
}

/// What an input does.
pub open spec fn cron_step(p: CronPanel, js: Seq<JobV>, event: Event, area: Option<Rect>) -> (
    CronPanel,
    EventResult,
    CronEffectV,
) {
    match event {
        Event::Mouse(m) => match target(p, js.len() as int, m, area) {
            Some(i) => (
                CronPanel { selected: i as usize, ..p },
                EventResult::Consumed,
                toggling(js, i),
            ),
            None => (
                p,
                if m.kind == MouseKind::LeftDown {
                    EventResult::Consumed
                } else {
                    EventResult::Ignored
                },
                CronEffectV::Nothing,
            ),
        },
        Event::Key(key) => if !key.press {
            (p, EventResult::Ignored, CronEffectV::Nothing)
        } else if p.confirm_delete {
            confirm_key(p, js, key)
        } else {
            list_key(p, js, key)
        },
        _ => (p, EventResult::Ignored, CronEffectV::Nothing),
    }
}

impl CronPanel {
    fn toggle(&self, jobs: &Vec<CronJobSummary>, i: usize) -> (e: CronEffect)
        ensures
            e@ == toggling(jobs_view(jobs@), i as int),
    {
        if i < jobs.len() {
            assert(jobs_view(jobs@)[i as int] == jobs@[i as int]@);
            CronEffect::Toggle(jobs[i].id.clone())
        } else {
            CronEffect::Nothing
        }
    }

    fn pointed_at(&self, m: &MouseEvent, count: usize, area: Option<Rect>) -> (r: Option<usize>)
        ensures
            match r {
                Some(i) => target(*self, count as int, *m, area) == Some(i as int),
                None => target(*self, count as int, *m, area) is None,
            },
    {
        let shape = ListLayout {
            header_rows: if count == 0 {
                2
            } else {
                3
            },
            item_rows: 3,
            footer_rows: 0,
            visible_items: 4,
            scroll_start: scroll_start_for_selected(self.selected, VISIBLE_ITEMS),
            item_count: count,
        };
        assert(shape == layout(self.selected as int, count as int));
        match area {
            Some(a) => if self.confirm_delete || is_scrollbar_column(m, a) {
                None
            } else {
                hit_item(m, a, shape)
            },
            None => None,
        }
    }

    fn confirm_key(&mut self, jobs: &Vec<CronJobSummary>, key: &KeyEvent) -> (r: (
        EventResult,
        CronEffect,
    ))
        ensures
            (*final(self), r.0, r.1@) == confirm_key(*old(self), jobs_view(jobs@), *key),
    {
        if key.code == KeyCode::Char('c') && key.mods.ctrl {
            return (EventResult::Ignored, CronEffect::Nothing);
        }
        self.confirm_delete = false;
        if key.code == KeyCode::Enter && self.selected < jobs.len() {
            assert(jobs_view(jobs@)[self.selected as int] == jobs@[self.selected as int]@);
            (EventResult::Consumed, CronEffect::Remove(jobs[self.selected].id.clone()))
        } else {
            (EventResult::Consumed, CronEffect::Nothing)
        }
    }

    fn list_key(&mut self, jobs: &Vec<CronJobSummary>, key: &KeyEvent) -> (r: (
        EventResult,
        CronEffect,
    ))
        ensures
            (*final(self), r.0, r.1@) == list_key(*old(self), jobs_view(jobs@), *key),
    {
        match key.code {
            KeyCode::Esc => (EventResult::Consumed, CronEffect::Close),
            KeyCode::Up => {
                self.selected = previous_selection(self.selected);
                (EventResult::Consumed, CronEffect::Nothing)
            },
            KeyCode::Down => {
                if jobs.len() > 0 {
                    self.selected = next_selection(self.selected, jobs.len());
                }
                (EventResult::Consumed, CronEffect::Nothing)
            },
            KeyCode::Enter => (EventResult::Consumed, self.toggle(jobs, self.selected)),
            KeyCode::Char(c) => {
                if c == ' ' {
                    (EventResult::Consumed, self.toggle(jobs, self.selected))
                } else if c == 'd' && jobs.len() > 0 {
                    self.confirm_delete = true;
                    (EventResult::Consumed, CronEffect::Nothing)
                } else if c == 'c' && key.mods.ctrl {
                    (EventResult::Ignored, CronEffect::Nothing)
                } else {
                    (EventResult::Consumed, CronEffect::Nothing)
                }
            },
            _ => (EventResult::Consumed, CronEffect::Nothing),
        }
    }

    /// Deals with an input.
    pub fn handle_event(&mut self, event: &Event, jobs: &Vec<CronJobSummary>, area: Option<Rect>)
        -> (r: (EventResult, CronEffect))
        ensures
            (*final(self), r.0, r.1@) == cron_step(*old(self), jobs_view(jobs@), *event, area),
    {
        match event {
            Event::Mouse(m) => {
                match self.pointed_at(m, jobs.len(), area) {
                    Some(i) => {
                        self.selected = i;
                        (EventResult::Consumed, self.toggle(jobs, i))
                    },
                    None => if m.kind == MouseKind::LeftDown {
                        (EventResult::Consumed, CronEffect::Nothing)
                    } else {
                        (EventResult::Ignored, CronEffect::Nothing)
                    },
                }
            },
            Event::Key(key) => if !key.press {
                (EventResult::Ignored, CronEffect::Nothing)
            } else if self.confirm_delete {
                self.confirm_key(jobs, key)
            } else {
                self.list_key(jobs, key)
            },
            _ => (EventResult::Ignored, CronEffect::Nothing),
        }
    }
}

/// A job is removed only on Enter, and only after it was asked whether to.
pub proof fn removal_is_confirmed(p: CronPanel, js: Seq<JobV>, event: Event, area: Option<Rect>)
    ensures
        cron_step(p, js, event, area).2 matches CronEffectV::Remove(id) ==> {
            &&& p.confirm_delete
            &&& event is Key
            &&& event->Key_0.code == KeyCode::Enter
            &&& p.selected < js.len()
            &&& id == js[p.selected as int].id
        },
{
}

/// A click on a job does what Enter does with the job selected.
pub proof fn click_is_enter_on_job(
    p: CronPanel,
    js: Seq<JobV>,
    m: MouseEvent,
    area: Option<Rect>,
    key: KeyEvent,
)
    requires
        target(p, js.len() as int, m, area) is Some,
        js.len() <= usize::MAX,
        key.press,
        key.code == KeyCode::Enter,
    ensures
        cron_step(p, js, Event::Mouse(m), area) == cron_step(
            CronPanel { selected: target(p, js.len() as int, m, area)->0 as usize, ..p },
            js,
            Event::Key(key),
            area,
        ),
{
    crate::panel_mouse::hit_is_shown(m, area->0, layout(p.selected as int, js.len() as int));
}

// ── What is shown ──────────────────────────────────────────────────────────

/// The number of the first jobs that are enabled.
pub open spec fn enabled_count(js: Seq<JobV>, to: int) -> nat
    decreases to,
{
    if to <= 0 {
        0
    } else if js[to - 1].enabled {
        enabled_count(js, to - 1) + 1
    } else {
        enabled_count(js, to - 1)
    }
}

/// The line on the next time a job runs, empty where it is not known.
pub open spec fn next_line(next: Option<i64>) -> LineV {
    match next {
        Some(secs) => match written_time(secs, "%Y-%m-%d %H:%M"@) {
            Some(t) => seq![msg_text("panel-cron-next-fire"@, "time"@, t, fg(Color::Muted))],
            None => blank(),
        },
        None => blank(),
    }
}

/// The first line of a job.
pub open spec fn job_line(j: JobV, i: int, selected: bool) -> LineV {
    seq![
        lit(
            (if selected {
                " > "@
            } else {
                "   "@
            }) + decimal((i + 1) as nat) + ". "@ + (j.expression + " "@),
            if selected {
                bold(Color::Title)
            } else {
                fg(Color::Primary)
            },
        ),
        msg_with(
            "panel-cron-status-format"@,
            seq![
                (
                    "status"@,
                    ArgV::Message(
                        if j.enabled {
                            "panel-cron-status-on"@
                        } else {
                            "panel-cron-status-off"@
                        },
                    ),
                ),
            ],
            if j.enabled {
                fg(Color::Success)
            } else {
                fg(Color::Muted)
            },
        ),
    ]
}

/// The three lines of a job.
pub open spec fn job_lines(j: JobV, i: int, selected: bool) -> Seq<LineV> {
    seq![
        job_line(j, i, selected),
        seq![lit("     "@ + clip_spec(j.prompt, 50), fg(Color::Primary))],
        next_line(j.next_fire),
    ]
}

/// The lines of the jobs from one position to another.
pub open spec fn jobs_lines(js: Seq<JobV>, selected: int, from: int, to: int) -> Seq<LineV>
    decreases to - from,
{
    if to <= from {
        Seq::empty()
    } else {
        jobs_lines(js, selected, from, to - 1) + job_lines(js[to - 1], to - 1, to - 1 == selected)
    }
}

/// What the panel shows.
pub open spec fn cron_lines(p: CronPanel, js: Seq<JobV>) -> Seq<LineV> {
    let start = window_start(p.selected as int, VISIBLE_ITEMS as int);
    (if js.len() > 0 {
        seq![
            seq![
                msg_with(
                    "panel-cron-stats"@,
                    seq![
                        ("configured"@, ArgV::Number(js.len())),
                        ("enabled"@, ArgV::Number(enabled_count(js, js.len() as int))),
                    ],
                    bold(Color::Primary),
                ),
            ],
        ]
    } else {
        Seq::empty()
    }) + seq![
        seq![
            if p.confirm_delete {
                msg("panel-cron-confirm-hint"@, fg(Color::Warning))
            } else {
                msg("panel-cron-nav-hint"@, fg(Color::Muted))
            },
        ],
        blank(),
    ] + (if js.len() == 0 {
        seq![
            seq![msg("panel-cron-empty"@, fg(Color::Muted))],
            seq![msg("panel-cron-empty-hint"@, fg(Color::Muted))],
        ]
    } else {
        jobs_lines(
            js,
            p.selected as int,
            start,
            window_end(start, js.len() as int, VISIBLE_ITEMS as int),
        )
    })
}

proof fn jobs_take_three_lines(js: Seq<JobV>, selected: int, from: int, to: int)
    requires
        from <= to,
    ensures
        jobs_lines(js, selected, from, to).len() == 3 * (to - from),
    decreases to - from,
{
    if from < to {
        jobs_take_three_lines(js, selected, from, to - 1);
    }
}

proof fn job_stands(js: Seq<JobV>, selected: int, from: int, to: int, i: int)
    requires
        from <= i < to,
    ensures
        jobs_lines(js, selected, from, to).len() == 3 * (to - from),
        jobs_lines(js, selected, from, to)[3 * (i - from)] == job_line(js[i], i, i == selected),
    decreases to - from,
{
    jobs_take_three_lines(js, selected, from, to - 1);
    jobs_take_three_lines(js, selected, from, to);
    if i < to - 1 {
        job_stands(js, selected, from, to - 1, i);
    }
}

/// A job on the screen begins in the row in which a click finds it.
pub proof fn jobs_are_clicked_where_shown(p: CronPanel, js: Seq<JobV>, i: int)
    requires
        window_start(p.selected as int, VISIBLE_ITEMS as int) <= i < window_end(
            window_start(p.selected as int, VISIBLE_ITEMS as int),
            js.len() as int,
            VISIBLE_ITEMS as int,
        ),
    ensures
        ({
            let l = layout(p.selected as int, js.len() as int);
            let row = l.header_rows + l.item_rows * (i - window_start(
                p.selected as int,
                VISIBLE_ITEMS as int,
            ));
            cron_lines(p, js)[row] == job_line(js[i], i, i == p.selected)
        }),
{
    let start = window_start(p.selected as int, VISIBLE_ITEMS as int);
    let end = window_end(start, js.len() as int, VISIBLE_ITEMS as int);
    job_stands(js, p.selected as int, start, end, i);
}

fn show_job(j: &CronJobSummary, i: usize, selected: bool) -> (l: Line)
    requires
        i < usize::MAX,
    ensures
        l@ == job_line(j@, i as int, selected),
{
    let tail = cat(j.expression.as_str(), " ");
    let text = cat4(
        if selected {
            " > "
        } else {
            "   "
        },
        decimal_text((i + 1) as u64).as_str(),
        ". ",
        tail.as_str(),
    );
    let status = if j.enabled {
        "panel-cron-status-on"
    } else {
        "panel-cron-status-off"
    };
    Line::of2(
        Piece::text(
            text,
            if selected {
                Style::bold(Color::Title)
            } else {
                Style::fg(Color::Primary)
            },
        ),
        Piece::msg1(
            "panel-cron-status-format",
            Arg::message("status", status),
            if j.enabled {
                Style::fg(Color::Success)
            } else {
                Style::fg(Color::Muted)
            },
        ),
    )
}

fn show_next(next: Option<i64>) -> (l: Line)
    ensures
        l@ == next_line(next),
{
    match next {
        Some(secs) => match time_text(secs, "%Y-%m-%d %H:%M") {
            Some(t) => Line::of(
                Piece::msg_text(
                    "panel-cron-next-fire",
                    "time",
                    t.as_str(),
                    Style::fg(Color::Muted),
                ),
            ),
            None => Line::new(),
        },
        None => Line::new(),
    }
}

fn count_enabled(jobs: &Vec<CronJobSummary>) -> (n: usize)
    ensures
        n == enabled_count(jobs_view(jobs@), jobs@.len() as int),
{
    let ghost js = jobs_view(jobs@);
    let mut n: usize = 0;
    let mut i: usize = 0;
    while i < jobs.len()
        invariant
            i <= jobs@.len(),
            n <= i,
            js == jobs_view(jobs@),
            n == enabled_count(js, i as int),
        decreases jobs.len() - i,
    {
        assert(js[i as int] == jobs@[i as int]@);
        if jobs[i].enabled {
            n = n + 1;
        }
        i = i + 1;
    }
    n
}

impl CronPanel {
    /// What the panel shows.
    pub fn lines(&self, jobs: &Vec<CronJobSummary>) -> (d: Doc)
        ensures
            d@ == cron_lines(*self, jobs_view(jobs@)),
    {
        let ghost js = jobs_view(jobs@);
        let count: usize = jobs.len();
        let mut d = Doc::new();
        if count > 0 {
            d.line(
                Piece::msg2(
                    "panel-cron-stats",
                    Arg::number("configured", count as u64),
                    Arg::number("enabled", count_enabled(jobs) as u64),
                    Style::bold(Color::Primary),
                ),
            );
        }
        if self.confirm_delete {
            d.line(Piece::msg("panel-cron-confirm-hint", Style::fg(Color::Warning)));
        } else {
            d.line(Piece::msg("panel-cron-nav-hint", Style::fg(Color::Muted)));
        }
        d.blank();
        if count == 0 {
            d.line(Piece::msg("panel-cron-empty", Style::fg(Color::Muted)));
            d.line(Piece::msg("panel-cron-empty-hint", Style::fg(Color::Muted)));
            assert(d@ =~= cron_lines(*self, js));
            return d;
        }
        let start: usize = scroll_start_for_selected(self.selected, VISIBLE_ITEMS);
        let ghost end = window_end(start as int, count as int, VISIBLE_ITEMS as int);
        let mut shown = Doc::new();
        let mut i: usize = start;
        while i < count && i - start < VISIBLE_ITEMS
            invariant
                start <= i,
                count == js.len(),
                js == jobs_view(jobs@),
                i <= end || i == start,
                end == window_end(start as int, count as int, VISIBLE_ITEMS as int),
                shown@ == jobs_lines(js, self.selected as int, start as int, i as int),
            decreases count - i,
        {
            let ghost before = shown@;
            let j = &jobs[i];
            assert(js[i as int] == j@);
            shown.push(show_job(j, i, i == self.selected));
            shown.line(
                Piece::text(
                    cat("     ", clip(j.prompt.as_str(), 50).as_str()),
                    Style::fg(Color::Primary),
                ),
            );
            shown.push(show_next(j.next_fire));
            assert(shown@ =~= before + job_lines(j@, i as int, i == self.selected));
            i = i + 1;
        }
        d.extend(shown);
        assert(d@ =~= cron_lines(*self, js));
        d
    }
}

} // verus!
