//! The themes that can be chosen, dark and light ones, and what is kept of the choice.

use crate::text::{opt_view, text_views};
use vstd::prelude::*;

verus! {

/// What a theme is made for.
#[derive(Debug, Clone, Copy, PartialEq, Eq, Structural)]
pub enum ThemeMode {
    Dark,
    Light,
    HighContrast,
}

/// The theme stands among the dark ones.
pub open spec fn is_dark(m: Option<ThemeMode>) -> bool {
    match m {
        Some(ThemeMode::Dark) | Some(ThemeMode::HighContrast) => true,
        _ => false,
    }
}

/// The theme stands among the light ones.
pub open spec fn is_light(m: Option<ThemeMode>) -> bool {
    match m {
        Some(ThemeMode::Light) => true,
        _ => false,
    }
}

/// The names whose modes are wanted, in their order.
pub open spec fn chosen(
    names: Seq<Seq<char>>,
    modes: Seq<Option<ThemeMode>>,
    dark: bool,
    to: int,
) -> Seq<Seq<char>>
    decreases to,
{
    if to <= 0 {
        Seq::empty()
    } else {
        let rest = chosen(names, modes, dark, to - 1);
        if (dark && is_dark(modes[to - 1])) || (!dark && is_light(modes[to - 1])) {
            rest.push(names[to - 1])
        } else {
            rest
        }
    }
}

/// The number of themes that have a mode.
pub open spec fn known(modes: Seq<Option<ThemeMode>>, to: int) -> nat
    decreases to,
{
    if to <= 0 {
        0
    } else if modes[to - 1] is Some {
        known(modes, to - 1) + 1
    } else {
        known(modes, to - 1)
    }
}

proof fn known_add_up(names: Seq<Seq<char>>, modes: Seq<Option<ThemeMode>>, to: int)
    ensures
        chosen(names, modes, true, to).len() + chosen(names, modes, false, to).len() == known(
            modes,
            to,
        ),
    decreases to,
{
    if to > 0 {
        known_add_up(names, modes, to - 1);
    }
}

/// A theme with a mode is listed once, among the dark or the light ones; one without
/// is not listed.
pub proof fn each_theme_is_listed_once(names: Seq<Seq<char>>, modes: Seq<Option<ThemeMode>>)
    requires
        names.len() == modes.len(),
    ensures
        ({
            let n = names.len() as int;
            &&& chosen(names, modes, true, n).len() + chosen(names, modes, false, n).len() == known(
                modes,
                n,
            )
            &&& forall|i: int|
                0 <= i < n && modes[i] is Some ==> chosen(
                    names,
                    modes,
                    is_dark(#[trigger] modes[i]),
                    n,
                ).contains(names[i])
        }),
{
    let n = names.len() as int;
    known_add_up(names, modes, n);
    assert forall|i: int| 0 <= i < n && modes[i] is Some implies chosen(
        names,
        modes,
        is_dark(#[trigger] modes[i]),
        n,
    ).contains(names[i]) by {
        stays_listed(names, modes, is_dark(modes[i]), i, n);
    }
}

proof fn stays_listed(
    names: Seq<Seq<char>>,
    modes: Seq<Option<ThemeMode>>,
    dark: bool,
    i: int,
    to: int,
)
    requires
        0 <= i < to,
        (dark && is_dark(modes[i])) || (!dark && is_light(modes[i])),
    ensures
        chosen(names, modes, dark, to).contains(names[i]),
    decreases to,
{
    let all = chosen(names, modes, dark, to);
    let rest = chosen(names, modes, dark, to - 1);
    if i == to - 1 {
        assert(all[rest.len() as int] == names[i]);
    } else {
        stays_listed(names, modes, dark, i, to - 1);
        let k = choose|k: int| 0 <= k < rest.len() && rest[k] == names[i];
        assert(all[k] == names[i]);
    }
}

/// The dark and the light themes of a list, by their modes.
pub fn classify(names: &Vec<String>, modes: &Vec<Option<ThemeMode>>) -> (r: (
    Vec<String>,
    Vec<String>,
))
    requires
        names@.len() == modes@.len(),
    ensures
        text_views(r.0@) == chosen(text_views(names@), modes@, true, names@.len() as int),
        text_views(r.1@) == chosen(text_views(names@), modes@, false, names@.len() as int),
{
    let ghost all = text_views(names@);
    let mut dark: Vec<String> = Vec::new();
    let mut light: Vec<String> = Vec::new();
    let mut i: usize = 0;
    assert(text_views(dark@) =~= Seq::empty());
    assert(text_views(light@) =~= Seq::empty());
    while i < names.len()
        invariant
            i <= names@.len(),
            names@.len() == modes@.len(),
            all == text_views(names@),
            text_views(dark@) == chosen(all, modes@, true, i as int),
            text_views(light@) == chosen(all, modes@, false, i as int),
        decreases names.len() - i,
    {
        let ghost d = text_views(dark@);
        let ghost l = text_views(light@);
        match modes[i] {
            Some(ThemeMode::Dark) | Some(ThemeMode::HighContrast) => {
                dark.push(names[i].clone());
                assert(text_views(dark@) =~= d.push(all[i as int]));
            },
            Some(ThemeMode::Light) => {
                light.push(names[i].clone());
                assert(text_views(light@) =~= l.push(all[i as int]));
            },
            None => {},
        }
        i = i + 1;
    }
    (dark, light)
}

/// The dark and the light themes of a list. The modes are asked for one by one, by name.
pub fn classify_theme_catalog(
    catalog: &Vec<String>,
    mode_for_theme: impl Fn(&str) -> Option<ThemeMode>,
) -> (r: (Vec<String>, Vec<String>))
    requires
        forall|name: &str| call_requires(mode_for_theme, (name,)),
    ensures
        exists|modes: Seq<Option<ThemeMode>>| #[trigger]
            answered(catalog@, mode_for_theme, modes, catalog@.len() as int) && text_views(r.0@)
                == chosen(text_views(catalog@), modes, true, catalog@.len() as int) && text_views(
                r.1@,
            ) == chosen(text_views(catalog@), modes, false, catalog@.len() as int),
{
    let mut modes: Vec<Option<ThemeMode>> = Vec::new();
    let mut i: usize = 0;
    while i < catalog.len()
        invariant
            i <= catalog@.len(),
            modes@.len() == i,
            forall|name: &str| call_requires(mode_for_theme, (name,)),
            answered(catalog@, mode_for_theme, modes@, i as int),
        decreases catalog.len() - i,
    {
        let name = catalog[i].as_str();
        let mode = mode_for_theme(name);
        let ghost before = modes@;
        modes.push(mode);
        assert(answer_for(mode_for_theme, catalog@[i as int]@, mode)) by {
            assert(name@ == catalog@[i as int]@);
        }
        assert forall|j: int| 0 <= j < i + 1 implies answer_for(
            mode_for_theme,
            catalog@[j]@,
            #[trigger] modes@[j],
        ) by {
            if j < i {
                assert(modes@[j] == before[j]);
            }
        }
        i = i + 1;
    }
    let r = classify(catalog, &modes);
    assert(answered(catalog@, mode_for_theme, modes@, catalog@.len() as int));
    r
}

/// The modes are what was answered for the first names.
pub open spec fn answered<F: Fn(&str) -> Option<ThemeMode>>(
    names: Seq<String>,
    f: F,
    modes: Seq<Option<ThemeMode>>,
    to: int,
) -> bool {
    &&& modes.len() >= to
    &&& forall|j: int|
        0 <= j < to ==> answer_for(f, names[j]@, #[trigger] modes[j])
}

/// The mode is an answer for the name.
pub open spec fn answer_for<F: Fn(&str) -> Option<ThemeMode>>(
    f: F,
    name: Seq<char>,
    mode: Option<ThemeMode>,
) -> bool {
    exists|s: &str| #![trigger s@] s@ == name && call_ensures(f, (s,), mode)
}

/// After a download that brought something the list is read anew; else it is neither
/// read nor changed.
pub fn refresh_theme_catalog_after_download(
    catalog: &mut Vec<String>,
    success_count: usize,
    scan_catalog: impl FnOnce() -> Vec<String>,
)
    requires
        success_count > 0 ==> call_requires(scan_catalog, ()),
    ensures
        success_count > 0 ==> call_ensures(scan_catalog, (), *final(catalog)),
        success_count == 0 ==> *final(catalog) == *old(catalog),
{
    if success_count > 0 {
        *catalog = scan_catalog();
    }
}

/// What is kept of the choice: the theme, whether the colour changes daily, and the day
/// it was last changed on.
#[derive(Debug)]
pub struct ThemeSettings {
    pub theme: Option<String>,
    pub daily_color: bool,
    pub daily_color_date: Option<String>,
}

/// What is kept of the choice, abstractly.
pub struct SettingsV {
    pub theme: Option<Seq<char>>,
    pub daily_color: bool,
    pub daily_color_date: Option<Seq<char>>,
}

impl View for ThemeSettings {
    type V = SettingsV;

    open spec fn view(&self) -> SettingsV {
        SettingsV {
            theme: opt_view(self.theme),
            daily_color: self.daily_color,
            daily_color_date: opt_view(self.daily_color_date),
        }
    }
}

/// The theme that is kept, `peri-dark` where none is.
pub open spec fn persisted(s: SettingsV) -> Seq<char> {
    match s.theme {
        Some(t) => t,
        None => "peri-dark"@,
    }
}

/// The daily change switched over; switched on, it forgets the day, so that it takes
/// effect at once.
pub open spec fn daily_toggled(s: SettingsV) -> SettingsV {
    SettingsV {
        daily_color: !s.daily_color,
        daily_color_date: if s.daily_color {
            s.daily_color_date
        } else {
            None
        },
        ..s
    }
}

impl ThemeSettings {
    /// The theme that is kept, `peri-dark` where none is.
    pub fn persisted_theme_name(&self) -> (r: String)
        ensures
            r@ == persisted(self@),
    {
        match &self.theme {
            Some(t) => t.clone(),
            None => "peri-dark".to_owned(),
        }
    }

    /// Keeps a theme.
    pub fn persist_theme(&mut self, name: &str)
        ensures
            final(self)@ == (SettingsV { theme: Some(name@), ..old(self)@ }),
            persisted(final(self)@) == name@,
    {
        self.theme = Some(name.to_owned());
    }

    /// Switches the daily change over.
    pub fn toggle_daily_color(&mut self)
        ensures
            final(self)@ == daily_toggled(old(self)@),
    {
        self.daily_color = !self.daily_color;
        if self.daily_color {
            self.daily_color_date = None;
        }
    }
}

} // verus!
