//! The settings.

use crate::event::{Event, EventResult, KeyCode, KeyEvent, Rect};
use crate::panels::config::{alias_at, config_step, option_at, options_are_found, toggle_value,
    ConfigEffectV, PeriV, ProfileV, SettingsV, TuiV, ROW_1M_CONTEXT, ROW_ACTIVE_ALIAS,
    ROW_CACHE_WARN, ROW_LANGUAGE, ROW_PERMISSION_MODE, ROW_SCROLL_FPS, ROW_SHOW_DIFF,
    ROW_STREAMING};
use crate::permission_mode::PermissionMode;
use crate::text::decimal;
use vstd::prelude::*;

verus! {

/// The arrows lead from row to row, not beyond the first and the last, and change nothing.
pub proof fn arrows_change_nothing(cursor: int, s: SettingsV, key: KeyEvent, area: Option<Rect>)
    requires
        key.press,
        0 <= cursor < 8,
    ensures
        ({
            let (c, t, r, e) = config_step(cursor, s, Event::Key(key), area);
            &&& r is Consumed
            &&& key.code == KeyCode::Down ==> t == s && e is Nothing && c == (if cursor < 7 {
                cursor + 1
            } else {
                7
            })
            &&& key.code == KeyCode::Up ==> t == s && e is Nothing && c == (if cursor > 0 {
                cursor - 1
            } else {
                0
            })
            &&& key.code == KeyCode::Esc ==> t == s && e is Close
            &&& s.peri is None ==> t == s && !(e is Save)
        }),
{
}

/// Enter, Right, Left and the space bar on a row that is on or off switch that row over, and
/// nothing else, and the settings are saved.
pub proof fn a_switch_is_switched_over(
    cursor: int,
    s: SettingsV,
    key: KeyEvent,
    area: Option<Rect>,
    p: PeriV,
    t: TuiV,
)
    requires
        key.press,
        key.code == KeyCode::Enter || key.code == KeyCode::Right || key.code == KeyCode::Left
            || key.code == KeyCode::Char(' '),
        s.peri == Some(p),
        s.tui == Some(t),
    ensures
        cursor == ROW_SHOW_DIFF ==> config_step(cursor, s, Event::Key(key), area) == (
            cursor,
            SettingsV { tui: Some(TuiV { diff: !t.diff, ..t }), ..s },
            EventResult::Consumed,
            ConfigEffectV::Save,
        ),
        cursor == ROW_CACHE_WARN ==> config_step(cursor, s, Event::Key(key), area) == (
            cursor,
            SettingsV {
                peri: Some(PeriV { cache_warning: Some(!(p.cache_warning == Some(true))), ..p }),
                ..s
            },
            EventResult::Consumed,
            ConfigEffectV::Save,
        ),
        toggle_value(s, ROW_SHOW_DIFF as int) == t.diff,
        toggle_value(s, ROW_CACHE_WARN as int) == (p.cache_warning == Some(true)),
{
}

proof fn lemma_profile(ps: Seq<ProfileV>, alias: Seq<char>, i: int, at: int)
    requires
        0 <= i <= at < ps.len(),
        ps[at].alias == alias,
        forall|k: int| i <= k < at ==> (#[trigger] ps[k]).alias != alias,
    ensures
        alias_at(ps, alias, i) == at,
    decreases at - i,
{
    if i < at {
        lemma_profile(ps, alias, i + 1, at);
    }
}

/// The wide context is switched over for the alias in use, and for no other.
pub proof fn the_wide_context_is_of_the_alias_in_use(
    s: SettingsV,
    key: KeyEvent,
    area: Option<Rect>,
    p: PeriV,
    at: int,
    k: int,
)
    requires
        key.press,
        key.code == KeyCode::Enter || key.code == KeyCode::Char(' '),
        s.peri == Some(p),
        0 <= at < p.profiles.len(),
        p.profiles[at].alias == p.alias,
        forall|j: int| 0 <= j < at ==> (#[trigger] p.profiles[j]).alias != p.alias,
        0 <= k < p.profiles.len(),
    ensures
        ({
            let (c, t, r, e) = config_step(ROW_1M_CONTEXT as int, s, Event::Key(key), area);
            &&& e is Save && t.peri is Some
            &&& t.peri->0.profiles.len() == p.profiles.len()
            &&& t.peri->0.profiles[at] == (ProfileV {
                context_1m: !p.profiles[at].context_1m,
                ..p.profiles[at]
            })
            &&& k != at ==> t.peri->0.profiles[k] == p.profiles[k]
            &&& t.peri == Some(PeriV { profiles: t.peri->0.profiles, ..p })
            &&& t.tui == s.tui
            &&& toggle_value(s, ROW_1M_CONTEXT as int) == p.profiles[at].context_1m
        }),
{
    lemma_profile(p.profiles, p.alias, 0, at);
}

/// The language in use is replaced by the other one.
pub proof fn the_language_is_changed(
    s: SettingsV,
    key: KeyEvent,
    area: Option<Rect>,
    p: PeriV,
)
    requires
        key.press,
        key.code == KeyCode::Enter || key.code == KeyCode::Right || key.code == KeyCode::Left,
        s.peri == Some(p),
        p.language is None || p.language == Some("en"@) || p.language == Some("zh-CN"@),
    ensures
        ({
            let other = if p.language == Some("zh-CN"@) {
                "en"@
            } else {
                "zh-CN"@
            };
            config_step(ROW_LANGUAGE as int, s, Event::Key(key), area) == (
                ROW_LANGUAGE as int,
                SettingsV { peri: Some(PeriV { language: Some(other), ..p }), ..s },
                EventResult::Consumed,
                ConfigEffectV::Language(other),
            )
        }),
{
    let row = ROW_LANGUAGE as int;
    options_are_found(row, 0, 0);
    options_are_found(row, 1, 0);
    reveal_strlit("en");
    reveal_strlit("zh-CN");
    assert("en"@.len() == 2 && "zh-CN"@.len() == 5);
}

/// Right goes to the alias that follows and Left to the one before, round the four of them.
pub proof fn the_alias_is_changed(
    s: SettingsV,
    key: KeyEvent,
    area: Option<Rect>,
    p: PeriV,
    all: Seq<Seq<char>>,
    i: int,
)
    requires
        key.press,
        key.code == KeyCode::Right || key.code == KeyCode::Left,
        s.peri == Some(p),
        all == seq!["fable"@, "opus"@, "sonnet"@, "haiku"@],
        0 <= i < 4,
        p.alias == all[i],
    ensures
        ({
            let to = if key.code == KeyCode::Right {
                if i < 3 {
                    i + 1
                } else {
                    0
                }
            } else if i > 0 {
                i - 1
            } else {
                3
            };
            config_step(ROW_ACTIVE_ALIAS as int, s, Event::Key(key), area) == (
                ROW_ACTIVE_ALIAS as int,
                SettingsV { peri: Some(PeriV { alias: all[to], ..p }), ..s },
                EventResult::Consumed,
                ConfigEffectV::Save,
            )
        }),
{
    options_are_found(ROW_ACTIVE_ALIAS as int, i, 2);
}

/// Right goes to the way of streaming that follows and Left to the one before, round the three
/// of them; where none is set, the first is in use.
pub proof fn the_streaming_is_changed(
    s: SettingsV,
    key: KeyEvent,
    area: Option<Rect>,
    t: TuiV,
    all: Seq<Seq<char>>,
    i: int,
)
    requires
        key.press,
        key.code == KeyCode::Right || key.code == KeyCode::Left,
        s.peri is Some,
        s.tui == Some(t),
        all == seq!["streaming"@, "block"@, "none"@],
        0 <= i < 3,
        t.streaming == Some(all[i]) || t.streaming is None && i == 0,
    ensures
        ({
            let to = if key.code == KeyCode::Right {
                if i < 2 {
                    i + 1
                } else {
                    0
                }
            } else if i > 0 {
                i - 1
            } else {
                2
            };
            config_step(ROW_STREAMING as int, s, Event::Key(key), area) == (
                ROW_STREAMING as int,
                SettingsV { tui: Some(TuiV { streaming: Some(all[to]), ..t }), ..s },
                EventResult::Consumed,
                ConfigEffectV::Save,
            )
        }),
{
    options_are_found(ROW_STREAMING as int, i, 0);
}

/// Right goes to the number of frames that follows and Left to the one before, round the three
/// of them; where none is set, twenty are in use.
pub proof fn the_frames_are_changed(
    s: SettingsV,
    key: KeyEvent,
    area: Option<Rect>,
    t: TuiV,
    all: Seq<u32>,
    i: int,
)
    requires
        key.press,
        key.code == KeyCode::Right || key.code == KeyCode::Left,
        s.peri is Some,
        s.tui == Some(t),
        all == seq![60u32, 30u32, 20u32],
        0 <= i < 3,
        t.fps == Some(all[i]) || t.fps is None && i == 2,
    ensures
        ({
            let to = if key.code == KeyCode::Right {
                if i < 2 {
                    i + 1
                } else {
                    0
                }
            } else if i > 0 {
                i - 1
            } else {
                2
            };
            config_step(ROW_SCROLL_FPS as int, s, Event::Key(key), area) == (
                ROW_SCROLL_FPS as int,
                SettingsV { tui: Some(TuiV { fps: Some(all[to]), ..t }), ..s },
                EventResult::Consumed,
                ConfigEffectV::Save,
            )
        }),
{
    let row = ROW_SCROLL_FPS as int;
    options_are_found(row, i, 0);
    reveal_strlit("60");
    reveal_strlit("30");
    reveal_strlit("20");
    reveal_with_fuel(decimal, 3);
    assert("60"@ =~= seq!['6', '0']);
    assert("30"@ =~= seq!['3', '0']);
    assert("20"@ =~= seq!['2', '0']);
    assert(decimal(60) =~= "60"@ && decimal(30) =~= "30"@ && decimal(20) =~= "20"@);
    assert(decimal(all[i] as nat) == option_at(row, i));
}

/// Right asks for the mode that follows the one reported and Left for the one before, round the
/// four of them; where none is reported, the known one counts.
pub proof fn the_mode_is_asked_for(
    s: SettingsV,
    key: KeyEvent,
    area: Option<Rect>,
    all: Seq<Seq<char>>,
    i: int,
)
    requires
        key.press,
        key.code == KeyCode::Right || key.code == KeyCode::Left,
        s.peri is Some,
        all == seq!["default"@, "accept-edit"@, "auto-mode"@, "bypass"@],
        0 <= i < 4,
        s.reported_mode == all[i] || s.reported_mode.len() == 0 && (s.known_mode is None && i == 0
            || s.known_mode == Some(PermissionMode::Default) && i == 0 || s.known_mode == Some(
            PermissionMode::AcceptEdit,
        ) && i == 1 || s.known_mode == Some(PermissionMode::AutoMode) && i == 2 || s.known_mode
            == Some(PermissionMode::Bypass) && i == 3),
    ensures
        ({
            let to = if key.code == KeyCode::Right {
                if i < 3 {
                    i + 1
                } else {
                    0
                }
            } else if i > 0 {
                i - 1
            } else {
                3
            };
            config_step(ROW_PERMISSION_MODE as int, s, Event::Key(key), area) == (
                ROW_PERMISSION_MODE as int,
                s,
                EventResult::Consumed,
                ConfigEffectV::RequestMode(all[to]),
            )
        }),
{
    options_are_found(ROW_PERMISSION_MODE as int, i, 0);
    reveal_strlit("default");
    reveal_strlit("accept-edit");
    reveal_strlit("auto-mode");
    reveal_strlit("bypass");
    assert("default"@.len() > 0 && "accept-edit"@.len() > 0 && "auto-mode"@.len() > 0
        && "bypass"@.len() > 0);
}

} // verus!
