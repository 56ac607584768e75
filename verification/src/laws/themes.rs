//! The themes, and fetching them.

use crate::doc::{PieceV, WordsV};
use crate::event::{Event, KeyCode, KeyEvent, Rect};
use crate::json::{str_field, JsonV};
use crate::panels::theme::catalog::{chosen, daily_toggled, known, persisted, SettingsV, ThemeMode};
use crate::panels::theme::download::{done_count, failed_count, listed_names, listing_of,
    unsettled_count, ItemV, ProgressV, StatusV};
use crate::panels::theme::panel::{followed, found_from, list_lines, theme_lines, theme_row,
    theme_rows, theme_step, ThemeEffectV, ThemePanelV};
use crate::text::{decimal, ends_with_spec};
use vstd::prelude::*;

verus! {

proof fn lemma_chosen(
    names: Seq<Seq<char>>,
    modes: Seq<Option<ThemeMode>>,
    to: int,
)
    requires
        0 <= to <= names.len(),
        names.len() == modes.len(),
    ensures
        chosen(names, modes, true, to) == Seq::new(to as nat, |i: int| i).filter(
            |i: int|
                modes[i] == Some(ThemeMode::Dark) || modes[i] == Some(ThemeMode::HighContrast),
        ).map_values(|i: int| names[i]),
        chosen(names, modes, false, to) == Seq::new(to as nat, |i: int| i).filter(
            |i: int| modes[i] == Some(ThemeMode::Light),
        ).map_values(|i: int| names[i]),
    decreases to,
{
    reveal(Seq::filter);
    if to > 0 {
        lemma_chosen(names, modes, to - 1);
        assert(Seq::new(to as nat, |i: int| i).drop_last() =~= Seq::new(
            (to - 1) as nat,
            |i: int| i,
        ));
    }
}

/// The dark tab lists every theme that is dark or of high contrast and the light tab every theme
/// that is light, each in the order in which the themes are known.
pub proof fn every_theme_is_in_its_tab(names: Seq<Seq<char>>, modes: Seq<Option<ThemeMode>>)
    requires
        names.len() == modes.len(),
    ensures
        chosen(names, modes, true, names.len() as int) == Seq::new(
            names.len(),
            |i: int| i,
        ).filter(
            |i: int|
                modes[i] == Some(ThemeMode::Dark) || modes[i] == Some(ThemeMode::HighContrast),
        ).map_values(|i: int| names[i]),
        chosen(names, modes, false, names.len() as int) == Seq::new(
            names.len(),
            |i: int| i,
        ).filter(|i: int| modes[i] == Some(ThemeMode::Light)).map_values(|i: int| names[i]),
{
    lemma_chosen(names, modes, names.len() as int);
}

/// The themes whose mode is known are counted, all of them.
pub proof fn known_themes_are_counted(modes: Seq<Option<ThemeMode>>, to: int)
    requires
        0 <= to <= modes.len(),
    ensures
        known(modes, to) == modes.take(to).filter(|m: Option<ThemeMode>| m is Some).len(),
    decreases to,
{
    reveal(Seq::filter);
    if to > 0 {
        known_themes_are_counted(modes, to - 1);
        assert(modes.take(to).drop_last() =~= modes.take(to - 1));
    }
}

/// Enter keeps the selected theme, the arrows try the theme that they lead to, Escape goes back
/// to the theme that was there, and Tab shows the other tab.
pub proof fn keys_choose_a_theme(
    p: ThemePanelV,
    names: Seq<Seq<char>>,
    key: KeyEvent,
    area: Option<Rect>,
    preview_len: int,
)
    requires
        key.press,
        0 <= p.selected < names.len(),
    ensures
        ({
            let (q, r, e) = theme_step(p, names, Event::Key(key), area, preview_len);
            &&& key.code == KeyCode::Enter ==> q == p && r is Consumed && e == ThemeEffectV::Apply(
                names[p.selected],
            )
            &&& key.code == KeyCode::Down ==> r is Consumed && q.selected == (if p.selected + 1
                < names.len() {
                p.selected + 1
            } else {
                p.selected
            }) && e == ThemeEffectV::Switch(names[q.selected])
            &&& key.code == KeyCode::Up ==> r is Consumed && q.selected == (if p.selected > 0 {
                p.selected - 1
            } else {
                0
            }) && e == ThemeEffectV::Switch(names[q.selected])
            &&& key.code == KeyCode::Esc ==> e == ThemeEffectV::Switch(p.original)
            &&& key.code == KeyCode::Tab ==> e is Nothing && q.tab != p.tab && q.original
                == p.original
            &&& q.original == p.original
        }),
{
}

/// Where a tab lists no theme, the arrows and Enter change nothing and try none.
pub proof fn an_empty_tab_offers_nothing(
    p: ThemePanelV,
    key: KeyEvent,
    area: Option<Rect>,
    preview_len: int,
)
    requires
        key.press,
        key.code == KeyCode::Up || key.code == KeyCode::Down || key.code == KeyCode::Enter,
    ensures
        theme_step(p, Seq::empty(), Event::Key(key), area, preview_len).0 == p,
        theme_step(p, Seq::empty(), Event::Key(key), area, preview_len).2 is Nothing,
{
}

proof fn lemma_found(names: Seq<Seq<char>>, name: Seq<char>, i: int, at: int)
    requires
        0 <= i <= at <= names.len(),
        at < names.len() ==> names[at] == name,
        forall|k: int| i <= k < at ==> names[k] != name,
    ensures
        found_from(names, name, i) == at,
    decreases at - i,
{
    if i < at {
        lemma_found(names, name, i + 1, at);
    }
}

/// A tab that has just been shown selects the theme in use, or its first where the theme in use
/// is in the other tab; as long as the tab stays, so does the selection.
pub proof fn a_new_tab_selects_the_theme_in_use(
    p: ThemePanelV,
    names: Seq<Seq<char>>,
    current: Seq<char>,
    at: int,
)
    ensures
        p.tab != p.prev_tab && 0 <= at < names.len() && names[at] == current && (forall|k: int|
            0 <= k < at ==> names[k] != current) ==> followed(p, names, current).selected == at,
        p.tab != p.prev_tab && !names.contains(current) ==> followed(p, names, current).selected
            == 0,
        followed(p, names, current).prev_tab == p.tab,
        followed(p, names, current).tab == p.tab,
        followed(p, names, current).original == p.original,
        p.tab == p.prev_tab ==> followed(p, names, current) == p,
{
    if 0 <= at < names.len() && names[at] == current && (forall|k: int|
        0 <= k < at ==> names[k] != current) {
        lemma_found(names, current, 0, at);
    }
    if !names.contains(current) {
        lemma_found(names, current, 0, names.len() as int);
    }
}

proof fn lemma_rows(names: Seq<Seq<char>>, selected: int, kept: Seq<char>, from: int, to: int, i: int)
    requires
        0 <= from <= to <= names.len(),
    ensures
        theme_rows(names, selected, kept, from, to).len() == to - from,
        from <= i < to ==> theme_rows(names, selected, kept, from, to)[i - from] == theme_row(
            names[i],
            i == selected,
            names[i] == kept,
        ),
    decreases to - from,
{
    if to > from {
        lemma_rows(names, selected, kept, from, to - 1, i);
    }
}

/// Eight themes are shown at a time, the selected one among them and marked.
pub proof fn the_selected_theme_is_shown(
    names: Seq<Seq<char>>,
    selected: int,
    kept: Seq<char>,
    other_count: nat,
    i: int,
)
    requires
        0 <= selected < names.len(),
        0 <= i < names.len(),
        selected < 8 && i < 8 || selected >= 8 && selected - 7 <= i <= selected,
    ensures
        ({
            let start = if selected < 8 {
                0
            } else {
                selected - 7
            };
            let lines = list_lines(names, selected, kept, other_count);
            &&& i - start < lines.len() <= 8
            &&& lines[i - start][0].words == WordsV::Literal(
                (if i == selected {
                    " > "@
                } else {
                    "   "@
                }) + names[i],
            )
            &&& lines[i - start].len() == (if names[i] == kept {
                2nat
            } else {
                1nat
            })
        }),
{
    let start = if selected < 8 {
        0
    } else {
        selected - 7
    };
    let end = if start + 8 < names.len() {
        start + 8
    } else {
        names.len() as int
    };
    lemma_rows(names, selected, kept, start, end, i);
    assert(list_lines(names, selected, kept, other_count) == theme_rows(
        names,
        selected,
        kept,
        start,
        end,
    ));
    assert(theme_rows(names, selected, kept, start, end)[i - start] == theme_row(
        names[i],
        i == selected,
        names[i] == kept,
    ));
}

/// The colour of the day is switched over; turned on, its day is forgotten, and the theme stays.
pub proof fn the_daily_colour_is_switched(s: SettingsV)
    ensures
        daily_toggled(s).daily_color == !s.daily_color,
        daily_toggled(s).theme == s.theme,
        !s.daily_color ==> daily_toggled(s).daily_color_date is None,
        s.daily_color ==> daily_toggled(s).daily_color_date == s.daily_color_date,
        s.theme matches Some(t) ==> persisted(s) == t,
        s.theme is None ==> persisted(s) == "peri-dark"@,
{
}

proof fn lemma_listed(entries: Seq<JsonV>)
    ensures
        listed_names(entries) == entries.filter(
            |j: JsonV|
                str_field(j, "name"@) is Some && ends_with_spec(
                    str_field(j, "name"@)->0,
                    ".json"@,
                ),
        ).map_values(|j: JsonV| str_field(j, "name"@)->0),
    decreases entries.len(),
{
    reveal(Seq::filter);
    if entries.len() > 0 {
        lemma_listed(entries.drop_last());
    }
}

/// What is to be fetched are all the files of a listing whose names end in `.json`, in order; a
/// listing that is no list names none.
pub proof fn every_listed_file_is_fetched(entries: Seq<JsonV>, v: Option<JsonV>)
    ensures
        listing_of(Some(JsonV::Array(entries))) == Some(
            entries.filter(
                |j: JsonV|
                    str_field(j, "name"@) is Some && ends_with_spec(
                        str_field(j, "name"@)->0,
                        ".json"@,
                    ),
            ).map_values(|j: JsonV| str_field(j, "name"@)->0),
        ),
        listing_of(v) is Some <==> v is Some && v->0 is Array,
{
    lemma_listed(entries);
}

/// The files are counted by what became of them.
pub proof fn files_are_counted(items: Seq<ItemV>)
    ensures
        done_count(items) == items.filter(|i: ItemV| i.status is Done).len(),
        failed_count(items) == items.filter(|i: ItemV| i.status is Failed).len(),
        unsettled_count(items) == items.filter(
            |i: ItemV| i.status is Pending || i.status is Downloading,
        ).len(),
    decreases items.len(),
{
    reveal(Seq::filter);
    if items.len() > 0 {
        files_are_counted(items.drop_last());
    }
}

/// The files that become known all wait; what becomes of one changes that one alone; and where
/// the download breaks off, every file that was not settled has failed with the reason.
pub proof fn each_file_has_its_fate(
    p: ProgressV,
    filenames: Seq<Seq<char>>,
    i: int,
    k: int,
    error: Seq<char>,
)
    ensures
        p.listed(filenames).items.len() == filenames.len(),
        0 <= k < filenames.len() ==> p.listed(filenames).items[k] == (ItemV {
            filename: filenames[k],
            status: StatusV::Pending,
        }),
        0 <= i < p.items.len() ==> {
            &&& p.recorded(i, None).items[i] == (ItemV {
                filename: p.items[i].filename,
                status: StatusV::Done,
            })
            &&& p.recorded(i, None).success == p.success + 1 && p.recorded(i, None).failed
                == p.failed
            &&& p.recorded(i, Some(error)).items[i] == (ItemV {
                filename: p.items[i].filename,
                status: StatusV::Failed(error),
            })
            &&& p.recorded(i, Some(error)).failed == p.failed + 1 && p.recorded(
                i,
                Some(error),
            ).success == p.success
            &&& p.recorded(i, None).items.len() == p.items.len()
            &&& 0 <= k < p.items.len() && k != i ==> p.recorded(i, None).items[k] == p.items[k]
                && p.recorded(i, Some(error)).items[k] == p.items[k]
        },
        p.ended(None) == (ProgressV { finished: true, ..p }),
        p.ended(Some(error)).finished && p.ended(Some(error)).success == p.success,
        p.ended(Some(error)).items.len() == p.items.len(),
        0 <= k < p.items.len() ==> p.ended(Some(error)).items[k] == (if p.items[k].status is Pending
            || p.items[k].status is Downloading {
            ItemV { filename: p.items[k].filename, status: StatusV::Failed(error) }
        } else {
            p.items[k]
        }),
{
}

/// The panel shows the numbers of dark and light themes, the preview line by line, and below it
/// the themes of the tab.
pub proof fn the_preview_stands_above_the_themes(
    p: ThemePanelV,
    names: Seq<Seq<char>>,
    preview: Seq<Seq<PieceV>>,
    counts: (nat, nat),
    kept: Seq<char>,
    other_count: nat,
    daily: bool,
    i: int,
    k: int,
)
    requires
        preview.len() > 0,
    ensures
        ({
            let d = theme_lines(p, names, preview, counts, kept, other_count, daily);
            let l = list_lines(names, p.selected, kept, other_count);
            &&& d[0][2].words == WordsV::Literal(" ("@ + decimal(counts.0) + ") "@)
            &&& d[0][6].words == WordsV::Literal(" ("@ + decimal(counts.1) + ") "@)
            &&& 0 <= i < preview.len() ==> d[4 + i] == seq![d[4 + i][0]] + preview[i]
            &&& 0 <= k < l.len() ==> d[5 + preview.len() + k] == l[k]
            &&& d.len() == 6 + preview.len() + l.len()
        }),
{
    let d = theme_lines(p, names, preview, counts, kept, other_count, daily);
    if 0 <= i < preview.len() {
        assert(d[4 + i] == crate::panels::theme::panel::preview_row(preview[i]));
    }
}

} // verus!
