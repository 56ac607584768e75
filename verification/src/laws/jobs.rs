//! The jobs that run by the clock.

use crate::doc::{ArgV, WordsV};
use crate::event::{Event, KeyCode, KeyEvent, Rect};
use crate::panels::cron::{cron_lines, cron_step, enabled_count, job_lines, jobs_lines, CronEffectV,
    CronPanel, JobV};
use crate::text::decimal;
use vstd::prelude::*;

verus! {

/// Enter and the space bar switch the selected job, the arrows lead from job to job, not beyond
/// the first and the last, and the key for removing asks first.
pub proof fn keys_act_on_the_selected_job(
    p: CronPanel,
    js: Seq<JobV>,
    key: KeyEvent,
    area: Option<Rect>,
)
    requires
        key.press,
        p.selected < js.len() <= usize::MAX,
    ensures
        ({
            let (q, r, e) = cron_step(p, js, Event::Key(key), area);
            &&& !p.confirm_delete ==> {
                &&& key.code == KeyCode::Enter || key.code == KeyCode::Char(' ') ==> q == p
                    && r is Consumed && e == CronEffectV::Toggle(js[p.selected as int].id)
                &&& key.code == KeyCode::Down ==> e is Nothing && !q.confirm_delete && q.selected
                    == (if p.selected + 1 < js.len() {
                    p.selected + 1
                } else {
                    p.selected as int
                })
                &&& key.code == KeyCode::Up ==> e is Nothing && !q.confirm_delete && q.selected == (
                if p.selected > 0 {
                    p.selected - 1
                } else {
                    0
                })
                &&& key.code == KeyCode::Char('d') ==> e is Nothing && q.confirm_delete
                    && q.selected == p.selected
                &&& key.code == KeyCode::Esc ==> e is Close
            }
            &&& p.confirm_delete ==> {
                &&& key.code == KeyCode::Enter ==> e == CronEffectV::Remove(
                    js[p.selected as int].id,
                ) && !q.confirm_delete
                &&& key.code != KeyCode::Enter ==> e is Nothing
                &&& key.code == KeyCode::Esc ==> !q.confirm_delete && q.selected == p.selected
            }
        }),
{
}

/// The jobs that are on are counted, all of them.
pub proof fn jobs_that_are_on_are_counted(js: Seq<JobV>, to: int)
    requires
        0 <= to <= js.len(),
    ensures
        enabled_count(js, to) == js.take(to).filter(|j: JobV| j.enabled).len(),
    decreases to,
{
    reveal(Seq::filter);
    if to > 0 {
        jobs_that_are_on_are_counted(js, to - 1);
        assert(js.take(to).drop_last() =~= js.take(to - 1));
    }
}

proof fn lemma_jobs(js: Seq<JobV>, selected: int, from: int, to: int, i: int)
    requires
        0 <= from <= to <= js.len(),
    ensures
        jobs_lines(js, selected, from, to).len() == 3 * (to - from),
        from <= i < to ==> jobs_lines(js, selected, from, to)[3 * (i - from)] == job_lines(
            js[i],
            i,
            i == selected,
        )[0] && jobs_lines(js, selected, from, to)[3 * (i - from) + 1] == job_lines(
            js[i],
            i,
            i == selected,
        )[1],
    decreases to - from,
{
    if to > from {
        lemma_jobs(js, selected, from, to - 1, i);
        let all = jobs_lines(js, selected, from, to);
        let less = jobs_lines(js, selected, from, to - 1);
        if from <= i < to - 1 {
            assert(all[3 * (i - from)] == less[3 * (i - from)]);
            assert(all[3 * (i - from) + 1] == less[3 * (i - from) + 1]);
        }
    }
}

/// The numbers of jobs and of those that are on are told, and four jobs at a time are shown, each
/// with its number, its expression, its prompt and whether it is on, the selected one among them
/// and marked.
pub proof fn the_selected_job_is_shown(p: CronPanel, js: Seq<JobV>, i: int)
    requires
        p.selected < js.len(),
        0 <= i < js.len(),
        p.selected < 4 && i < 4 || p.selected >= 4 && p.selected - 3 <= i <= p.selected,
    ensures
        ({
            let start: int = if p.selected < 4 {
                0
            } else {
                p.selected - 3
            };
            let d = cron_lines(p, js);
            let at = 3 + 3 * (i - start);
            &&& d[0][0].words == WordsV::Message(
                "panel-cron-stats"@,
                seq![
                    ("configured"@, ArgV::Number(js.len())),
                    ("enabled"@, ArgV::Number(js.filter(|j: JobV| j.enabled).len())),
                ],
            )
            &&& at + 2 < d.len() <= 15
            &&& d[at][0].words == WordsV::Literal(
                (if i == p.selected {
                    " > "@
                } else {
                    "   "@
                }) + decimal((i + 1) as nat) + ". "@ + (js[i].expression + " "@),
            )
            &&& d[at][1].words == WordsV::Message(
                "panel-cron-status-format"@,
                seq![
                    (
                        "status"@,
                        ArgV::Message(
                            if js[i].enabled {
                                "panel-cron-status-on"@
                            } else {
                                "panel-cron-status-off"@
                            },
                        ),
                    ),
                ],
            )
            &&& js[i].prompt.len() <= 50 ==> d[at + 1][0].words == WordsV::Literal(
                "     "@ + js[i].prompt,
            )
        }),
{
    let start: int = if p.selected < 4 {
        0
    } else {
        p.selected - 3
    };
    let end = if start + 4 < js.len() {
        start + 4
    } else {
        js.len() as int
    };
    lemma_jobs(js, p.selected as int, start, end, i);
    jobs_that_are_on_are_counted(js, js.len() as int);
    assert(js.take(js.len() as int) =~= js);
    let d = cron_lines(p, js);
    let rows = jobs_lines(js, p.selected as int, start, end);
    let at = 3 * (i - start);
    let own = job_lines(js[i], i, i == p.selected as int);
    assert(rows[at] == own[0] && rows[at + 1] == own[1]);
    assert(d[3 + at] == rows[at] && d[4 + at] == rows[at + 1]);
}

} // verus!
