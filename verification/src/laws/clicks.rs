//! The mouse over the panels, and selections that nothing stands at.

use crate::event::{Event, KeyCode, KeyEvent, MouseEvent, MouseKind, Rect};
use crate::panels::config::{config_step, SettingsV};
use crate::panels::cron::{cron_step, CronPanel, JobV};
use crate::panels::hooks::hooks_step;
use crate::panels::memory::{memory_step, EntryV};
use crate::panels::theme::panel::{theme_step, ThemePanelV};
use crate::panels::thread_browser::state::{browser_step, BrowserV, ListV};
use crate::popups::oauth_popup::{oauth_step, OauthLink, OauthV, PopupV};
use crate::popups::rewind_popup::{popup_step, MessageV, RewindPopup};
use crate::rewind_action::RewindV;
use vstd::prelude::*;

verus! {

/// A click on the panel is used up, and beside its items it does nothing; other events of the
/// mouse are left to others.
pub proof fn the_memory_uses_clicks_alone(selected: int, es: Seq<EntryV>, m: MouseEvent, area: Rect)
    ensures
        m.kind != MouseKind::LeftDown
            ==> memory_step(selected, es, Event::Mouse(m), Some(area)).1 is Ignored,
        m.kind != MouseKind::LeftDown
            ==> memory_step(selected, es, Event::Mouse(m), Some(area)).2 is Nothing,
        m.kind == MouseKind::LeftDown
            ==> memory_step(selected, es, Event::Mouse(m), Some(area)).1 is Consumed,
        m.kind == MouseKind::LeftDown
            ==> memory_step(selected, es, Event::Mouse(m), None).1 is Consumed,
        memory_step(selected, es, Event::Mouse(m), None).2 is Nothing,
        !area.holds(m.row, m.column)
            ==> memory_step(selected, es, Event::Mouse(m), Some(area)).2 is Nothing,
        !area.holds(m.row, m.column)
            ==> memory_step(selected, es, Event::Mouse(m), Some(area)).0 == selected,
{
}

/// A click on the panel is used up, and beside its items it does nothing; other events of the
/// mouse are left to others.
pub proof fn the_jobs_use_clicks_alone(p: CronPanel, js: Seq<JobV>, m: MouseEvent, area: Rect)
    ensures
        m.kind != MouseKind::LeftDown
            ==> cron_step(p, js, Event::Mouse(m), Some(area)).1 is Ignored,
        m.kind != MouseKind::LeftDown
            ==> cron_step(p, js, Event::Mouse(m), Some(area)).2 is Nothing,
        m.kind == MouseKind::LeftDown
            ==> cron_step(p, js, Event::Mouse(m), Some(area)).1 is Consumed,
        m.kind == MouseKind::LeftDown ==> cron_step(p, js, Event::Mouse(m), None).1 is Consumed,
        cron_step(p, js, Event::Mouse(m), None).2 is Nothing,
        !area.holds(m.row, m.column) ==> cron_step(p, js, Event::Mouse(m), Some(area)).2 is Nothing,
        !area.holds(m.row, m.column) ==> cron_step(p, js, Event::Mouse(m), Some(area)).0 == p,
{
}

/// A click on the panel is used up, and beside its items it does nothing; other events of the
/// mouse are left to others.
pub proof fn the_settings_use_clicks_alone(cursor: int, s: SettingsV, m: MouseEvent, area: Rect)
    ensures
        m.kind != MouseKind::LeftDown
            ==> config_step(cursor, s, Event::Mouse(m), Some(area)).2 is Ignored,
        m.kind != MouseKind::LeftDown
            ==> config_step(cursor, s, Event::Mouse(m), Some(area)).3 is Nothing,
        m.kind == MouseKind::LeftDown
            ==> config_step(cursor, s, Event::Mouse(m), Some(area)).2 is Consumed,
        m.kind == MouseKind::LeftDown
            ==> config_step(cursor, s, Event::Mouse(m), None).2 is Consumed,
        config_step(cursor, s, Event::Mouse(m), None).3 is Nothing,
        !area.holds(m.row, m.column)
            ==> config_step(cursor, s, Event::Mouse(m), Some(area)).3 is Nothing,
        !area.holds(m.row, m.column)
            ==> config_step(cursor, s, Event::Mouse(m), Some(area)).0 == cursor,
{
}

/// A click on the panel is used up, and beside its items it does nothing; other events of the
/// mouse are left to others.
pub proof fn the_themes_use_clicks_alone(
    p: ThemePanelV,
    names: Seq<Seq<char>>,
    rows: int,
    m: MouseEvent,
    area: Rect,
)
    ensures
        m.kind != MouseKind::LeftDown
            ==> theme_step(p, names, Event::Mouse(m), Some(area), rows).1 is Ignored,
        m.kind != MouseKind::LeftDown
            ==> theme_step(p, names, Event::Mouse(m), Some(area), rows).2 is Nothing,
        m.kind == MouseKind::LeftDown
            ==> theme_step(p, names, Event::Mouse(m), Some(area), rows).1 is Consumed,
        m.kind == MouseKind::LeftDown
            ==> theme_step(p, names, Event::Mouse(m), None, rows).1 is Consumed,
        theme_step(p, names, Event::Mouse(m), None, rows).2 is Nothing,
        !area.holds(m.row, m.column)
            ==> theme_step(p, names, Event::Mouse(m), Some(area), rows).2 is Nothing,
        !area.holds(m.row, m.column)
            ==> theme_step(p, names, Event::Mouse(m), Some(area), rows).0 == p,
{
}

/// A click on the panel is used up, and beside its items it does nothing; other events of the
/// mouse are left to others.
pub proof fn the_threads_use_clicks_alone(
    b: BrowserV,
    l: ListV,
    height: u16,
    m: MouseEvent,
    area: Rect,
)
    ensures
        m.kind != MouseKind::LeftDown
            ==> browser_step(b, l, Event::Mouse(m), Some(area), height).2 is Ignored,
        m.kind != MouseKind::LeftDown
            ==> browser_step(b, l, Event::Mouse(m), Some(area), height).3 is Nothing,
        m.kind == MouseKind::LeftDown
            ==> browser_step(b, l, Event::Mouse(m), Some(area), height).2 is Consumed,
        m.kind == MouseKind::LeftDown
            ==> browser_step(b, l, Event::Mouse(m), None, height).2 is Consumed,
        browser_step(b, l, Event::Mouse(m), None, height).3 is Nothing,
        !area.holds(m.row, m.column)
            ==> browser_step(b, l, Event::Mouse(m), Some(area), height).3 is Nothing,
        !area.holds(m.row, m.column)
            ==> browser_step(b, l, Event::Mouse(m), Some(area), height).0 == b,
{
}

/// A click on the panel is used up, and beside its items it does nothing; other events of the
/// mouse are left to others.
pub proof fn going_back_uses_clicks_alone(
    p: RewindPopup,
    s: RewindV,
    ms: Seq<MessageV>,
    m: MouseEvent,
    area: Rect,
)
    ensures
        m.kind != MouseKind::LeftDown
            ==> popup_step(p, s, ms, Event::Mouse(m), Some(area)).2 is Ignored,
        m.kind != MouseKind::LeftDown
            ==> popup_step(p, s, ms, Event::Mouse(m), Some(area)).3 is Nothing,
        m.kind == MouseKind::LeftDown
            ==> popup_step(p, s, ms, Event::Mouse(m), Some(area)).2 is Consumed,
        m.kind == MouseKind::LeftDown ==> popup_step(p, s, ms, Event::Mouse(m), None).2 is Consumed,
        popup_step(p, s, ms, Event::Mouse(m), None).3 is Nothing,
        !area.holds(m.row, m.column)
            ==> popup_step(p, s, ms, Event::Mouse(m), Some(area)).3 is Nothing,
        !area.holds(m.row, m.column) ==> popup_step(p, s, ms, Event::Mouse(m), Some(area)).0 == p,
{
}

/// Where no file stands at the selection, Enter does nothing.
pub proof fn no_file_is_opened_without_one(
    key: KeyEvent,
    selected: int,
    es: Seq<EntryV>,
    area: Option<Rect>,
)
    requires
        key.press,
        key.code == KeyCode::Enter,
        selected >= es.len(),
    ensures
        memory_step(selected, es, Event::Key(key), area).2 is Nothing,
{
}

/// Where no job stands at the selection, none is switched and none is removed.
pub proof fn no_job_is_touched_without_one(
    key: KeyEvent,
    p: CronPanel,
    js: Seq<JobV>,
    area: Option<Rect>,
)
    requires
        key.press,
        key.code == KeyCode::Enter,
        p.selected >= js.len(),
    ensures
        cron_step(p, js, Event::Key(key), area).2 is Nothing,
{
}

/// Where no theme stands at the selection, none is kept.
pub proof fn no_theme_is_kept_without_one(
    key: KeyEvent,
    p: ThemePanelV,
    names: Seq<Seq<char>>,
    area: Option<Rect>,
    rows: int,
)
    requires
        key.press,
        key.code == KeyCode::Enter,
        p.selected >= names.len(),
    ensures
        theme_step(p, names, Event::Key(key), area, rows).2 is Nothing,
{
}

/// Where no message stands at the selection, nothing is asked about and nothing undone.
pub proof fn nothing_is_undone_without_a_message(
    key: KeyEvent,
    p: RewindPopup,
    s: RewindV,
    ms: Seq<MessageV>,
    area: Option<Rect>,
)
    requires
        key.press,
        key.code == KeyCode::Enter,
        p.msg_sel >= ms.len(),
    ensures
        popup_step(p, s, ms, Event::Key(key), area).3 is Nothing,
{
}

/// What interrupts the program is left to it.
pub proof fn interrupting_is_left_alone(
    key: KeyEvent,
    selected: int,
    count: int,
    cron: CronPanel,
    js: Seq<JobV>,
    area: Option<Rect>,
)
    requires
        key.press,
        key.code == KeyCode::Char('c'),
        key.mods.ctrl,
    ensures
        hooks_step(selected, count, Event::Key(key)).1 is Ignored,
        cron_step(cron, js, Event::Key(key), area).1 is Ignored,
        cron_step(cron, js, Event::Key(key), area).0 == cron,
{
}

/// A click on the row of the code leads back into its field.
pub proof fn a_click_leads_into_the_field(
    p: PopupV,
    i: OauthV,
    link: OauthLink,
    m: MouseEvent,
    area: Rect,
    labels: Seq<Seq<char>>,
)
    requires
        m.kind == MouseKind::LeftDown,
        m.row == area.y + 9 + crate::wrap::wrap_text_spec(
            i.url,
            crate::popups::oauth_popup::URL_WIDTH as nat,
        ).len(),
    ensures
        ({
            let (q, r, e) = oauth_step(p, Some(i), link, Event::Mouse(m), Some(area), labels);
            r is Consumed && e is Nothing && q == (PopupV { btn_focus: false, ..p })
        }),
{
}

/// A key that is let go changes none of the settings, the threads and the jobs.
pub proof fn only_presses_count(
    key: KeyEvent,
    cursor: int,
    s: SettingsV,
    b: BrowserV,
    l: ListV,
    height: u16,
    p: CronPanel,
    js: Seq<JobV>,
    area: Option<Rect>,
)
    requires
        !key.press,
    ensures
        config_step(cursor, s, Event::Key(key), area).1 == s,
        browser_step(b, l, Event::Key(key), area, height).0 == b,
        browser_step(b, l, Event::Key(key), area, height).1 == l,
        browser_step(b, l, Event::Key(key), area, height).3 is Nothing,
        cron_step(p, js, Event::Key(key), area).0 == p,
        cron_step(p, js, Event::Key(key), area).2 is Nothing,
{
}

} // verus!
