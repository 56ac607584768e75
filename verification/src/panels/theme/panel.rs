//! The panel: choosing among the themes of a tab, with the colours following at once.

use crate::doc::{blank, bold, fg, italic, lit, msg, msg_with, Arg, ArgV, Back, Color, Doc, Line,
    Piece, PieceV, Style};
use crate::event::{Event, EventResult, KeyCode, KeyEvent, MouseEvent, MouseKind, Rect};
use crate::list_nav::{next_sel, next_selection, prev_sel, previous_selection,
    scroll_start_for_selected, window_start};
use crate::panel_mouse::{a_line_of_an_item_hits_it, clicks, hit, hit_item, is_scrollbar_column,
    on_scrollbar, ListLayout};
use crate::panels::memory::window_end;
use crate::text::{cat, cat3, decimal, decimal_text, repeat_char, repeated, same, text_views};
use vstd::prelude::*;

verus! {

/// A line of the panel.
pub type LineV = Seq<PieceV>;

/// The number of themes on the screen.
pub const VISIBLE_ITEMS: usize = 8;

/// The width of the preview.
pub const PREVIEW_WIDTH: usize = 46;

/// Which themes are listed.
#[derive(Debug, Clone, Copy, PartialEq, Eq, Structural)]
pub enum ThemeTab {
    Dark,
    Light,
}

impl ThemeTab {
    /// The other tab.
    pub open spec fn other(self) -> ThemeTab {
        match self {
            ThemeTab::Dark => ThemeTab::Light,
            ThemeTab::Light => ThemeTab::Dark,
        }
    }
}

/// The panel: the theme there was when it opened, the tab, the tab that the selection
/// belongs to, and the selection.
#[derive(Debug)]
pub struct ThemePanel {
    pub original: String,
    pub tab: ThemeTab,
    pub prev_tab: ThemeTab,
    pub selected: usize,
}

/// The panel, abstractly.
pub struct ThemePanelV {
    pub original: Seq<char>,
    pub tab: ThemeTab,
    pub prev_tab: ThemeTab,
    pub selected: int,
}

impl View for ThemePanel {
    type V = ThemePanelV;

    open spec fn view(&self) -> ThemePanelV {
        ThemePanelV {
            original: self.original@,
            tab: self.tab,
            prev_tab: self.prev_tab,
            selected: self.selected as int,
        }
    }
}

/// What the program around the panel has to do. `Switch` shows a theme, `Apply` shows it
/// and keeps it.
#[derive(Debug)]
pub enum ThemeEffect {
    Nothing,
    Switch(String),
    Apply(String),
    ToggleDaily,
    Download,
}

/// What the program has to do, abstractly.
pub enum ThemeEffectV {
    Nothing,
    Switch(Seq<char>),
    Apply(Seq<char>),
    ToggleDaily,
    Download,
}

impl View for ThemeEffect {
    type V = ThemeEffectV;

    open spec fn view(&self) -> ThemeEffectV {
        match *self {
            ThemeEffect::Nothing => ThemeEffectV::Nothing,
            ThemeEffect::Switch(n) => ThemeEffectV::Switch(n@),
            ThemeEffect::Apply(n) => ThemeEffectV::Apply(n@),
            ThemeEffect::ToggleDaily => ThemeEffectV::ToggleDaily,
            ThemeEffect::Download => ThemeEffectV::Download,
        }
    }
}

/// The first position of a name at or behind a position, or the length.
pub open spec fn found_from(names: Seq<Seq<char>>, name: Seq<char>, i: int) -> int
    decreases names.len() - i,
{
    if i < 0 || i >= names.len() || names[i] == name {
        i
    } else {
        found_from(names, name, i + 1)
    }
}

/// The position of a name, 0 where it is not there.
pub open spec fn position(names: Seq<Seq<char>>, name: Seq<char>) -> int {
    if found_from(names, name, 0) < names.len() {
        found_from(names, name, 0)
    } else {
        0
    }
}

/// A list of themes has been read for the tab: another tab selects the current theme in
/// it.
pub open spec fn followed(
    p: ThemePanelV,
    names: Seq<Seq<char>>,
    current: Seq<char>,
) -> ThemePanelV {
    if p.prev_tab != p.tab {
        ThemePanelV { prev_tab: p.tab, selected: position(names, current), ..p }
    } else {
        p
    }
}

/// The theme at a position shown, and kept where it is chosen.
pub open spec fn choice(names: Seq<Seq<char>>, i: int, keep: bool) -> ThemeEffectV {
    if 0 <= i < names.len() {
        if keep {
            ThemeEffectV::Apply(names[i])
        } else {
            ThemeEffectV::Switch(names[i])
        }
    } else {
        ThemeEffectV::Nothing
    }
}

/// The rows above the themes: the tabs, the hint, a blank, the heading of the preview, the
/// preview or that there is none, and the line below it; at most as many as a row can count.
pub open spec fn rows_above(preview_len: int) -> int {
    let rows = 5 + (if preview_len == 0 {
        1
    } else {
        preview_len
    });
    if rows > u16::MAX {
        u16::MAX as int
    } else {
        rows
    }
}

/// Where the themes stand in the panel, below a preview of some lines.
pub open spec fn layout(selected: int, count: int, preview_len: int) -> ListLayout {
    ListLayout {
        header_rows: rows_above(preview_len) as u16,
        item_rows: 1,
        footer_rows: 1,
        visible_items: 8,
        scroll_start: (if count == 0 {
            0
        } else {
            window_start(selected, VISIBLE_ITEMS as int)
        }) as usize,
        item_count: count as usize,
    }
}

/// The theme that a click points at.
pub open spec fn target(
    selected: int,
    count: int,
    preview_len: int,
    m: MouseEvent,
    area: Option<Rect>,
) -> Option<int> {
    match area {
        Some(a) => if on_scrollbar(m, a) {
            None
        } else {
            hit(m, a, layout(selected, count, preview_len))
        },
        None => None,
    }
}

/// One theme up, which is shown.
pub open spec fn moved_up(p: ThemePanelV, names: Seq<Seq<char>>) -> (
    ThemePanelV,
    EventResult,
    ThemeEffectV,
) {
    if names.len() > 0 {
        (
            ThemePanelV { selected: prev_sel(p.selected), ..p },
            EventResult::Consumed,
            choice(names, prev_sel(p.selected), false),
        )
    } else {
        (p, EventResult::Consumed, ThemeEffectV::Nothing)
    }
}

/// One theme down, which is shown.
pub open spec fn moved_down(p: ThemePanelV, names: Seq<Seq<char>>) -> (
    ThemePanelV,
    EventResult,
    ThemeEffectV,
) {
    let next = next_sel(p.selected, names.len() as int);
    if names.len() > 0 {
        (
            ThemePanelV { selected: next, ..p },
            EventResult::Consumed,
            choice(names, next, false),
        )
    } else {
        (p, EventResult::Consumed, ThemeEffectV::Nothing)
    }
}

/// What a key does.
pub open spec fn key_step(p: ThemePanelV, names: Seq<Seq<char>>, key: KeyEvent) -> (
    ThemePanelV,
    EventResult,
    ThemeEffectV,
) {
    match key.code {
        KeyCode::Tab => (
            ThemePanelV { tab: p.tab.other(), ..p },
            EventResult::Consumed,
            ThemeEffectV::Nothing,
        ),
        KeyCode::Up => moved_up(p, names),
        KeyCode::Down => moved_down(p, names),
        KeyCode::Enter => (p, EventResult::Consumed, choice(names, p.selected, true)),
        KeyCode::Esc => (p, EventResult::Ignored, ThemeEffectV::Switch(p.original)),
        KeyCode::Char(c) => if key.mods.only_ctrl() && (c == 't' || c == 'T') {
            (p, EventResult::Consumed, ThemeEffectV::ToggleDaily)
        } else if key.mods.only_ctrl() && (c == 'd' || c == 'D') {
            (p, EventResult::Consumed, ThemeEffectV::Download)
        } else if key.mods.none() && c == 'k' {
            moved_up(p, names)
        } else if key.mods.none() && c == 'j' {
            moved_down(p, names)
        } else {
            (p, EventResult::Ignored, ThemeEffectV::Nothing)
        },
        _ => (p, EventResult::Ignored, ThemeEffectV::Nothing),
    }
}

/// What an input does.
pub open spec fn theme_step(
    p: ThemePanelV,
    names: Seq<Seq<char>>,
    event: Event,
    area: Option<Rect>,
    preview_len: int,
) -> (ThemePanelV, EventResult, ThemeEffectV) {
    match event {
        Event::Mouse(m) => match target(p.selected, names.len() as int, preview_len, m, area) {
            Some(i) => (
                ThemePanelV { selected: i, ..p },
                EventResult::Consumed,
                choice(names, i, true),
            ),
            None => (
                p,
                if m.kind == MouseKind::LeftDown {
                    EventResult::Consumed
                } else {
                    EventResult::Ignored
                },
                ThemeEffectV::Nothing,
            ),
        },
        Event::Key(key) => if key.press || key.repeat {
            key_step(p, names, key)
        } else {
            (p, EventResult::Ignored, ThemeEffectV::Nothing)
        },
        _ => (p, EventResult::Ignored, ThemeEffectV::Nothing),
    }
}

fn find_name(names: &Vec<String>, name: &str) -> (i: usize)
    ensures
        i == position(text_views(names@), name@),
{
    let ghost all = text_views(names@);
    let mut i: usize = 0;
    while i < names.len()
        invariant
            i <= names@.len(),
            all == text_views(names@),
            found_from(all, name@, 0) == found_from(all, name@, i as int),
        decreases names.len() - i,
    {
        assert(all[i as int] == names@[i as int]@);
        if same(names[i].as_str(), name) {
            return i;
        }
        i = i + 1;
    }
    0
}

impl ThemePanel {
    /// Opens the panel. The theme that is kept is shown where it is not the current one.
    pub fn open(current: &str, persisted: &str) -> (r: (ThemePanel, ThemeEffect))
        ensures
            r.0@ == (ThemePanelV {
                original: current@,
                tab: ThemeTab::Dark,
                prev_tab: ThemeTab::Dark,
                selected: 0,
            }),
            r.1@ == (if persisted@ == current@ {
                ThemeEffectV::Nothing
            } else {
                ThemeEffectV::Switch(persisted@)
            }),
    {
        let panel = ThemePanel {
            original: current.to_owned(),
            tab: ThemeTab::Dark,
            prev_tab: ThemeTab::Dark,
            selected: 0,
        };
        let effect = if same(persisted, current) {
            ThemeEffect::Nothing
        } else {
            ThemeEffect::Switch(persisted.to_owned())
        };
        (panel, effect)
    }

    /// Selects the current theme in the list of the first tab.
    pub fn select_current(&mut self, names: &Vec<String>, current: &str)
        ensures
            final(self)@ == (ThemePanelV {
                selected: position(text_views(names@), current@),
                ..old(self)@
            }),
    {
        self.selected = find_name(names, current);
    }

    /// Follows a change of the tab.
    pub fn follow(&mut self, names: &Vec<String>, current: &str)
        ensures
            final(self)@ == followed(old(self)@, text_views(names@), current@),
    {
        if self.prev_tab != self.tab {
            self.prev_tab = self.tab;
            self.selected = find_name(names, current);
        }
    }

    fn choose_theme(&self, names: &Vec<String>, i: usize, keep: bool) -> (e: ThemeEffect)
        ensures
            e@ == choice(text_views(names@), i as int, keep),
    {
        if i < names.len() {
            assert(text_views(names@)[i as int] == names@[i as int]@);
            if keep {
                ThemeEffect::Apply(names[i].clone())
            } else {
                ThemeEffect::Switch(names[i].clone())
            }
        } else {
            ThemeEffect::Nothing
        }
    }

    fn move_up(&mut self, names: &Vec<String>) -> (r: (EventResult, ThemeEffect))
        ensures
            (final(self)@, r.0, r.1@) == moved_up(old(self)@, text_views(names@)),
    {
        if names.len() == 0 {
            return (EventResult::Consumed, ThemeEffect::Nothing);
        }
        self.selected = previous_selection(self.selected);
        (EventResult::Consumed, self.choose_theme(names, self.selected, false))
    }

    fn move_down(&mut self, names: &Vec<String>) -> (r: (EventResult, ThemeEffect))
        ensures
            (final(self)@, r.0, r.1@) == moved_down(old(self)@, text_views(names@)),
    {
        if names.len() == 0 {
            return (EventResult::Consumed, ThemeEffect::Nothing);
        }
        self.selected = next_selection(self.selected, names.len());
        (EventResult::Consumed, self.choose_theme(names, self.selected, false))
    }

    fn handle_key(&mut self, names: &Vec<String>, key: &KeyEvent) -> (r: (
        EventResult,
        ThemeEffect,
    ))
        ensures
            (final(self)@, r.0, r.1@) == key_step(old(self)@, text_views(names@), *key),
    {
        match key.code {
            KeyCode::Tab => {
                self.tab = match self.tab {
                    ThemeTab::Dark => ThemeTab::Light,
                    ThemeTab::Light => ThemeTab::Dark,
                };
                (EventResult::Consumed, ThemeEffect::Nothing)
            },
            KeyCode::Up => self.move_up(names),
            KeyCode::Down => self.move_down(names),
            KeyCode::Enter => (
                EventResult::Consumed,
                self.choose_theme(names, self.selected, true),
            ),
            KeyCode::Esc => (EventResult::Ignored, ThemeEffect::Switch(self.original.clone())),
            KeyCode::Char(c) => {
                if key.mods.is_only_ctrl() && (c == 't' || c == 'T') {
                    (EventResult::Consumed, ThemeEffect::ToggleDaily)
                } else if key.mods.is_only_ctrl() && (c == 'd' || c == 'D') {
                    (EventResult::Consumed, ThemeEffect::Download)
                } else if key.mods.is_none() && c == 'k' {
                    self.move_up(names)
                } else if key.mods.is_none() && c == 'j' {
                    self.move_down(names)
                } else {
                    (EventResult::Ignored, ThemeEffect::Nothing)
                }
            },
            _ => (EventResult::Ignored, ThemeEffect::Nothing),
        }
    }

    /// Deals with an input, below a preview of some lines.
    pub fn handle_event(
        &mut self,
        event: &Event,
        names: &Vec<String>,
        area: Option<Rect>,
        preview_len: usize,
    ) -> (r: (EventResult, ThemeEffect))
        ensures
            (final(self)@, r.0, r.1@) == theme_step(
                old(self)@,
                text_views(names@),
                *event,
                area,
                preview_len as int,
            ),
    {
        match event {
            Event::Mouse(m) => {
                let count: usize = names.len();
                let shape = ListLayout {
                    header_rows: if preview_len == 0 {
                        6
                    } else if preview_len > 65530 {
                        65535
                    } else {
                        (preview_len + 5) as u16
                    },
                    item_rows: 1,
                    footer_rows: 1,
                    visible_items: 8,
                    scroll_start: if count == 0 {
                        0
                    } else {
                        scroll_start_for_selected(self.selected, VISIBLE_ITEMS)
                    },
                    item_count: count,
                };
                assert(shape == layout(self@.selected, count as int, preview_len as int));
                let found = match area {
                    Some(a) => if is_scrollbar_column(m, a) {
                        None
                    } else {
                        hit_item(m, a, shape)
                    },
                    None => None,
                };
                match found {
                    Some(i) => {
                        self.selected = i;
                        (EventResult::Consumed, self.choose_theme(names, i, true))
                    },
                    None => if m.kind == MouseKind::LeftDown {
                        (EventResult::Consumed, ThemeEffect::Nothing)
                    } else {
                        (EventResult::Ignored, ThemeEffect::Nothing)
                    },
                }
            },
            Event::Key(key) => if key.press || key.repeat {
                self.handle_key(names, key)
            } else {
                (EventResult::Ignored, ThemeEffect::Nothing)
            },
            _ => (EventResult::Ignored, ThemeEffect::Nothing),
        }
    }
}

// ── Laws ───────────────────────────────────────────────────────────────────

/// Whatever was looked at, leaving by Escape shows the theme there was at first, and
/// keeps nothing.
pub proof fn escape_restores_the_theme(p: ThemePanelV, names: Seq<Seq<char>>, key: KeyEvent)
    requires
        key.code == KeyCode::Esc,
    ensures
        key_step(p, names, key).2 == ThemeEffectV::Switch(p.original),
{
}

/// No input changes the theme to go back to.
pub proof fn original_is_kept(
    p: ThemePanelV,
    names: Seq<Seq<char>>,
    event: Event,
    area: Option<Rect>,
    preview_len: int,
)
    ensures
        theme_step(p, names, event, area, preview_len).0.original == p.original,
{
}

/// A theme is kept only by Enter or a click, and then it is the one selected.
pub proof fn only_a_choice_is_kept(
    p: ThemePanelV,
    names: Seq<Seq<char>>,
    event: Event,
    area: Option<Rect>,
    preview_len: int,
)
    ensures
        ({
            let (after, _, e) = theme_step(p, names, event, area, preview_len);
            e matches ThemeEffectV::Apply(n) ==> {
                &&& 0 <= after.selected < names.len()
                &&& n == names[after.selected]
                &&& event is Mouse || event->Key_0.code == KeyCode::Enter
            }
        }),
{
}

/// The key moves in the list: an arrow up or down, or `k` and `j` alone.
pub open spec fn moves(key: KeyEvent) -> bool {
    ||| key.code == KeyCode::Up
    ||| key.code == KeyCode::Down
    ||| key.mods.none() && (key.code == KeyCode::Char('j') || key.code == KeyCode::Char('k'))
}

/// `k` does what the arrow up does, and `j` what the arrow down does.
pub proof fn letters_move_like_arrows(
    p: ThemePanelV,
    names: Seq<Seq<char>>,
    letter: KeyEvent,
    arrow: KeyEvent,
)
    requires
        letter.mods.none(),
        letter.code == KeyCode::Char('j') && arrow.code == KeyCode::Down || letter.code
            == KeyCode::Char('k') && arrow.code == KeyCode::Up,
    ensures
        key_step(p, names, letter) == key_step(p, names, arrow),
{
}

/// Moving shows the theme that it selects.
pub proof fn moving_shows_the_selection(p: ThemePanelV, names: Seq<Seq<char>>, key: KeyEvent)
    requires
        0 <= p.selected < names.len(),
        moves(key),
    ensures
        0 <= key_step(p, names, key).0.selected < names.len(),
        key_step(p, names, key).2 == ThemeEffectV::Switch(
            names[key_step(p, names, key).0.selected],
        ),
{
}

/// A click on a theme does what Enter does with the theme selected.
pub proof fn click_is_enter_on_theme(
    p: ThemePanelV,
    names: Seq<Seq<char>>,
    m: MouseEvent,
    area: Option<Rect>,
    preview_len: int,
    key: KeyEvent,
)
    requires
        target(p.selected, names.len() as int, preview_len, m, area) is Some,
        key.code == KeyCode::Enter,
    ensures
        theme_step(p, names, Event::Mouse(m), area, preview_len) == key_step(
            (ThemePanelV {
                selected: target(p.selected, names.len() as int, preview_len, m, area)->0,
                ..p
            }),
            names,
            key,
        ),
{
}

// ── What is shown ──────────────────────────────────────────────────────────

/// The name of a tab in the bar.
pub open spec fn tab_pieces(key: Seq<char>, count: nat, active: bool) -> LineV {
    let style = if active {
        Style { color: Color::Surface, back: Back::Accent, bold: false, italic: false }
    } else {
        fg(Color::Muted)
    };
    seq![
        lit(" "@, style),
        msg(key, style),
        lit(" ("@ + decimal(count) + ") "@, style),
    ]
}

/// The lines above the preview.
pub open spec fn head_lines(tab: ThemeTab, dark: nat, light: nat) -> Seq<LineV> {
    seq![
        tab_pieces("panel-theme-tab-dark"@, dark, tab == ThemeTab::Dark) + seq![
            lit("  "@, fg(Color::Plain)),
        ] + tab_pieces("panel-theme-tab-light"@, light, tab == ThemeTab::Light),
        seq![msg("panel-theme-tab-hint"@, italic(Color::Muted))],
        blank(),
        seq![
            lit("  "@, bold(Color::Primary)),
            msg("panel-theme-preview"@, bold(Color::Primary)),
            lit(" (↑/↓ navigate)"@, bold(Color::Primary)),
        ],
    ]
}

/// The row of a theme.
pub open spec fn theme_row(name: Seq<char>, selected: bool, kept: bool) -> LineV {
    let style = if selected {
        bold(Color::Title)
    } else if kept {
        fg(Color::Success)
    } else {
        fg(Color::Primary)
    };
    seq![
        lit(
            (if selected {
                " > "@
            } else {
                "   "@
            }) + name,
            style,
        ),
    ] + (if kept {
        seq![msg("panel-theme-active-mark"@, style)]
    } else {
        Seq::empty()
    })
}

/// The rows of the themes from one position to another.
pub open spec fn theme_rows(
    names: Seq<Seq<char>>,
    selected: int,
    kept: Seq<char>,
    from: int,
    to: int,
) -> Seq<LineV>
    decreases to - from,
{
    if to <= from {
        Seq::empty()
    } else {
        theme_rows(names, selected, kept, from, to - 1).push(
            theme_row(names[to - 1], to - 1 == selected, names[to - 1] == kept),
        )
    }
}

/// The list, or that it is empty and how many themes the other tab has.
pub open spec fn list_lines(
    names: Seq<Seq<char>>,
    selected: int,
    kept: Seq<char>,
    other_count: nat,
) -> Seq<LineV> {
    let start = window_start(selected, VISIBLE_ITEMS as int);
    if names.len() == 0 {
        seq![seq![msg("panel-theme-empty"@, fg(Color::Muted))]] + (if other_count > 0 {
            seq![
                seq![
                    lit(
                        "  ("@ + decimal(other_count) + " themes in the other tab)"@,
                        italic(Color::Muted),
                    ),
                ],
            ]
        } else {
            Seq::empty()
        })
    } else {
        theme_rows(
            names,
            selected,
            kept,
            start,
            window_end(start, names.len() as int, VISIBLE_ITEMS as int),
        )
    }
}

/// The last line.
pub open spec fn footer_line(daily: bool) -> LineV {
    seq![
        msg_with(
            "panel-theme-footer-hint"@,
            seq![
                (
                    "status"@,
                    ArgV::Message(
                        if daily {
                            "panel-theme-daily-on"@
                        } else {
                            "panel-theme-daily-off"@
                        },
                    ),
                ),
                ("download"@, ArgV::Message("panel-theme-download-label"@)),
            ],
            italic(Color::Muted),
        ),
    ]
}

/// The lines below the preview.
pub open spec fn tail_lines(
    names: Seq<Seq<char>>,
    selected: int,
    kept: Seq<char>,
    other_count: nat,
    daily: bool,
) -> Seq<LineV> {
    seq![seq![lit(repeated('─', PREVIEW_WIDTH as nat), fg(Color::BorderDim))]] + list_lines(
        names,
        selected,
        kept,
        other_count,
    ) + seq![footer_line(daily)]
}

/// A line of the preview, indented.
pub open spec fn preview_row(l: LineV) -> LineV {
    seq![lit("  "@, fg(Color::Dim))] + l
}

/// The lines of the preview, or that there is none.
pub open spec fn preview_block(preview: Seq<LineV>) -> Seq<LineV> {
    if preview.len() == 0 {
        seq![seq![lit("  (no preview)"@, fg(Color::Dim))]]
    } else {
        preview.map_values(|l: LineV| preview_row(l))
    }
}

/// What the panel shows.
pub open spec fn theme_lines(
    p: ThemePanelV,
    names: Seq<Seq<char>>,
    preview: Seq<LineV>,
    counts: (nat, nat),
    kept: Seq<char>,
    other_count: nat,
    daily: bool,
) -> Seq<LineV> {
    head_lines(p.tab, counts.0, counts.1) + preview_block(preview) + tail_lines(
        names,
        p.selected,
        kept,
        other_count,
        daily,
    )
}

proof fn themes_stand(
    names: Seq<Seq<char>>,
    selected: int,
    kept: Seq<char>,
    from: int,
    to: int,
    i: int,
)
    requires
        from <= i < to,
    ensures
        theme_rows(names, selected, kept, from, to).len() == to - from,
        theme_rows(names, selected, kept, from, to)[i - from] == theme_row(
            names[i],
            i == selected,
            names[i] == kept,
        ),
    decreases to - from,
{
    if from < to - 1 {
        themes_stand(
            names,
            selected,
            kept,
            from,
            to - 1,
            if i < to - 1 {
                i
            } else {
                from
            },
        );
    } else {
        assert(theme_rows(names, selected, kept, from, to - 1).len() == 0);
    }
}

/// A click on the row of a theme, above the panel's last row, chooses that theme, however long
/// the preview is.
pub proof fn themes_are_clicked_where_shown(
    p: ThemePanelV,
    names: Seq<Seq<char>>,
    preview: Seq<LineV>,
    counts: (nat, nat),
    kept: Seq<char>,
    other_count: nat,
    daily: bool,
    m: MouseEvent,
    area: Rect,
    i: int,
)
    requires
        names.len() <= usize::MAX,
        window_start(p.selected, VISIBLE_ITEMS as int) <= i < window_end(
            window_start(p.selected, VISIBLE_ITEMS as int),
            names.len() as int,
            VISIBLE_ITEMS as int,
        ),
        ({
            let line = head_lines(p.tab, counts.0, counts.1).len() + preview_block(preview).len() + 1
                + i - window_start(p.selected, VISIBLE_ITEMS as int);
            clicks(m, area, line) && line < area.height - 3
        }),
    ensures
        ({
            let line = head_lines(p.tab, counts.0, counts.1).len() + preview_block(preview).len() + 1
                + i - window_start(p.selected, VISIBLE_ITEMS as int);
            theme_lines(p, names, preview, counts, kept, other_count, daily)[line] == theme_row(
                names[i],
                i == p.selected,
                names[i] == kept,
            )
        }),
        theme_step(p, names, Event::Mouse(m), Some(area), preview.len() as int) == (
            ThemePanelV { selected: i, ..p },
            EventResult::Consumed,
            ThemeEffectV::Apply(names[i]),
        ),
{
    let start = window_start(p.selected, VISIBLE_ITEMS as int);
    let end = window_end(start, names.len() as int, VISIBLE_ITEMS as int);
    themes_stand(names, p.selected, kept, start, end, i);
    let l = layout(p.selected, names.len() as int, preview.len() as int);
    assert(l.item_rows == 1);
    a_line_of_an_item_hits_it(m, area, l, i - start, 0);
}

fn show_tab(key: &str, count: usize, active: bool) -> (l: Line)
    ensures
        l@ == tab_pieces(key@, count as nat, active),
{
    let style = if active {
        Style { color: Color::Surface, back: Back::Accent, bold: false, italic: false }
    } else {
        Style::fg(Color::Muted)
    };
    Line::of3(
        Piece::lit(" ", style),
        Piece::msg(key, style),
        Piece::text(cat3(" (", decimal_text(count as u64).as_str(), ") "), style),
    )
}

fn show_theme(name: &str, selected: bool, kept: bool) -> (l: Line)
    ensures
        l@ == theme_row(name@, selected, kept),
{
    let style = if selected {
        Style::bold(Color::Title)
    } else if kept {
        Style::fg(Color::Success)
    } else {
        Style::fg(Color::Primary)
    };
    let mut l = Line::of(
        Piece::text(
            cat(
                if selected {
                    " > "
                } else {
                    "   "
                },
                name,
            ),
            style,
        ),
    );
    if kept {
        l.push(Piece::msg("panel-theme-active-mark", style));
    }
    assert(l@ =~= theme_row(name@, selected, kept));
    l
}

impl ThemePanel {
    /// What the panel shows: the tabs with the number of themes in each, the preview of a theme,
    /// and the themes of the tab.
    pub fn lines(
        &self,
        names: &Vec<String>,
        preview: Doc,
        counts: (usize, usize),
        kept: &str,
        other_count: usize,
        daily: bool,
    ) -> (d: Doc)
        ensures
            d@ == theme_lines(
                self@,
                text_views(names@),
                preview@,
                (counts.0 as nat, counts.1 as nat),
                kept@,
                other_count as nat,
                daily,
            ),
    {
        let mut d = self.head(counts.0, counts.1);
        d.extend(preview_lines(preview));
        d.extend(self.tail(names, kept, other_count, daily));
        d
    }

    /// The lines above the preview.
    pub fn head(&self, dark_count: usize, light_count: usize) -> (d: Doc)
        ensures
            d@ == head_lines(self@.tab, dark_count as nat, light_count as nat),
    {
        let mut d = Doc::new();
        let mut bar = show_tab("panel-theme-tab-dark", dark_count, self.tab == ThemeTab::Dark);
        bar.push(Piece::lit("  ", Style::fg(Color::Plain)));
        bar.extend(show_tab("panel-theme-tab-light", light_count, self.tab == ThemeTab::Light));
        assert(bar@ =~= head_lines(self@.tab, dark_count as nat, light_count as nat)[0]);
        d.push(bar);
        d.line(Piece::msg("panel-theme-tab-hint", Style::italic(Color::Muted)));
        d.blank();
        let heading = Style::bold(Color::Primary);
        d.push(
            Line::of3(
                Piece::lit("  ", heading),
                Piece::msg("panel-theme-preview", heading),
                Piece::lit(" (↑/↓ navigate)", heading),
            ),
        );
        assert(d@ =~= head_lines(self@.tab, dark_count as nat, light_count as nat));
        d
    }

    /// The lines below the preview.
    pub fn tail(&self, names: &Vec<String>, kept: &str, other_count: usize, daily: bool) -> (d: Doc)
        ensures
            d@ == tail_lines(
                text_views(names@),
                self@.selected,
                kept@,
                other_count as nat,
                daily,
            ),
    {
        let ghost all = text_views(names@);
        let mut d = Doc::new();
        d.line(Piece::text(repeat_char('─', PREVIEW_WIDTH), Style::fg(Color::BorderDim)));
        d.extend(self.list(names, kept, other_count));
        d.line(
            Piece::msg2(
                "panel-theme-footer-hint",
                Arg::message(
                    "status",
                    if daily {
                        "panel-theme-daily-on"
                    } else {
                        "panel-theme-daily-off"
                    },
                ),
                Arg::message("download", "panel-theme-download-label"),
                Style::italic(Color::Muted),
            ),
        );
        assert(d@ =~= tail_lines(all, self@.selected, kept@, other_count as nat, daily));
        d
    }

    fn list(&self, names: &Vec<String>, kept: &str, other_count: usize) -> (d: Doc)
        ensures
            d@ == list_lines(text_views(names@), self@.selected, kept@, other_count as nat),
    {
        let ghost all = text_views(names@);
        let count: usize = names.len();
        let mut d = Doc::new();
        if count == 0 {
            d.line(Piece::msg("panel-theme-empty", Style::fg(Color::Muted)));
            if other_count > 0 {
                d.line(
                    Piece::text(
                        cat3(
                            "  (",
                            decimal_text(other_count as u64).as_str(),
                            " themes in the other tab)",
                        ),
                        Style::italic(Color::Muted),
                    ),
                );
            }
            assert(d@ =~= list_lines(all, self@.selected, kept@, other_count as nat));
            return d;
        }
        let start: usize = scroll_start_for_selected(self.selected, VISIBLE_ITEMS);
        let ghost end = window_end(start as int, count as int, VISIBLE_ITEMS as int);
        let mut i: usize = start;
        while i < count && i - start < VISIBLE_ITEMS
            invariant
                start <= i,
                count == all.len(),
                all == text_views(names@),
                i <= end || i == start,
                end == window_end(start as int, count as int, VISIBLE_ITEMS as int),
                d@ == theme_rows(all, self@.selected, kept@, start as int, i as int),
            decreases count - i,
        {
            assert(all[i as int] == names@[i as int]@);
            let name = names[i].as_str();
            d.push(show_theme(name, i == self.selected, same(name, kept)));
            i = i + 1;
        }
        d
    }
}

/// The lines of the preview, or that there is none.
pub fn preview_lines(preview: Doc) -> (d: Doc)
    ensures
        d@ == preview_block(preview@),
{
    let ghost all = preview_block(preview@);
    let mut d = Doc::new();
    if preview.lines.len() == 0 {
        d.line(Piece::lit("  (no preview)", Style::fg(Color::Dim)));
        assert(d@ =~= all);
        return d;
    }
    for line in it: preview.lines
        invariant
            it.seq() == preview.lines@,
            all == preview_block(preview@),
            preview.lines@.len() > 0,
            d@ == all.take(it.index() as int),
    {
        let ghost n = it.index() as int;
        let mut l = Line::of(Piece::lit("  ", Style::fg(Color::Dim)));
        assert(line@ == preview@[n]);
        l.extend(line);
        assert(l@ =~= preview_row(preview@[n]));
        d.push(l);
        assert(d@ =~= all.take(n + 1));
    }
    assert(all.take(preview@.len() as int) =~= all);
    d
}

} // verus!
