//! The panel of the settings.

use crate::doc::{blank, bold, fg, italic, lit, msg, Color, Doc, Line, Piece, PieceV, Style};
use crate::event::{Event, EventResult, KeyCode, KeyEvent, MouseEvent, MouseKind, Rect};
use crate::list_nav::{next_sel, next_selection, prev_sel, previous_selection};
use crate::panel_mouse::{a_line_of_an_item_hits_it, clicks, hit, hit_item, is_scrollbar_column,
    on_scrollbar, ListLayout};
use crate::permission_mode::{label_of, parse_permission_mode, permission_mode_label,
    PermissionMode};
use crate::text::{cat, count_chars, decimal, decimal_text, opt_view, repeat_char, repeated, same,
    text_views};
use vstd::prelude::*;

verus! {

/// A line of the panel.
pub type LineV = Seq<PieceV>;

pub const ROW_SHOW_DIFF: usize = 0;

pub const ROW_CACHE_WARN: usize = 1;

pub const ROW_STREAMING: usize = 2;

pub const ROW_1M_CONTEXT: usize = 3;

pub const ROW_LANGUAGE: usize = 4;

pub const ROW_ACTIVE_ALIAS: usize = 5;

pub const ROW_PERMISSION_MODE: usize = 6;

pub const ROW_SCROLL_FPS: usize = 7;

pub const ROW_COUNT: usize = 8;

// ── The settings ───────────────────────────────────────────────────────────

/// What is set for a model.
#[derive(Debug)]
pub struct Profile {
    pub alias: String,
    pub provider: String,
    pub model: Option<String>,
    pub effort: String,
    pub context_1m: bool,
}

/// What is set for the models, each under its alias. Where an alias stands twice the first
/// counts.
#[derive(Debug)]
pub struct Profiles {
    pub list: Vec<Profile>,
}

/// What is set for a model, abstractly.
pub struct ProfileV {
    pub alias: Seq<char>,
    pub provider: Seq<char>,
    pub model: Option<Seq<char>>,
    pub effort: Seq<char>,
    pub context_1m: bool,
}

impl View for Profile {
    type V = ProfileV;

    open spec fn view(&self) -> ProfileV {
        ProfileV {
            alias: self.alias@,
            provider: self.provider@,
            model: opt_view(self.model),
            effort: self.effort@,
            context_1m: self.context_1m,
        }
    }
}

impl View for Profiles {
    type V = Seq<ProfileV>;

    open spec fn view(&self) -> Seq<ProfileV> {
        self.list@.map_values(|p: Profile| p@)
    }
}

/// The position of an alias, or the length.
pub open spec fn alias_at(ps: Seq<ProfileV>, alias: Seq<char>, i: int) -> int
    decreases ps.len() - i,
{
    if i < 0 || i >= ps.len() || ps[i].alias == alias {
        i
    } else {
        alias_at(ps, alias, i + 1)
    }
}

/// What is set under an alias.
pub open spec fn profile(ps: Seq<ProfileV>, alias: Seq<char>) -> Option<ProfileV> {
    let i = alias_at(ps, alias, 0);
    if i < ps.len() {
        Some(ps[i])
    } else {
        None
    }
}

/// The wide context of an alias switched over.
pub open spec fn context_toggled(ps: Seq<ProfileV>, alias: Seq<char>) -> Seq<ProfileV> {
    let i = alias_at(ps, alias, 0);
    if i < ps.len() {
        ps.update(i, ProfileV { context_1m: !ps[i].context_1m, ..ps[i] })
    } else {
        ps
    }
}

impl Profile {
    /// What is set for an alias before anything is.
    pub fn fresh(alias: &str) -> (p: Profile)
        ensures
            p@ == fresh_profile(alias@),
    {
        Profile {
            alias: alias.to_owned(),
            provider: "".to_owned(),
            model: None,
            effort: "".to_owned(),
            context_1m: false,
        }
    }

    fn copy(&self) -> (p: Profile)
        ensures
            p@ == self@,
    {
        Profile {
            alias: self.alias.clone(),
            provider: self.provider.clone(),
            model: match &self.model {
                Some(m) => Some(m.clone()),
                None => None,
            },
            effort: self.effort.clone(),
            context_1m: self.context_1m,
        }
    }
}

impl Profiles {
    fn find(&self, alias: &str) -> (i: usize)
        ensures
            i == alias_at(self@, alias@, 0),
            i <= self@.len(),
    {
        let mut i: usize = 0;
        while i < self.list.len()
            invariant
                i <= self.list@.len(),
                alias_at(self@, alias@, 0) == alias_at(self@, alias@, i as int),
            decreases self.list.len() - i,
        {
            assert(self@[i as int] == self.list@[i as int]@);
            if same(self.list[i].alias.as_str(), alias) {
                return i;
            }
            i = i + 1;
        }
        i
    }

    /// What is set under an alias.
    pub fn get(&self, alias: &str) -> (r: Option<&Profile>)
        ensures
            match r {
                Some(p) => profile(self@, alias@) == Some(p@),
                None => profile(self@, alias@) is None,
            },
    {
        let i: usize = self.find(alias);
        if i < self.list.len() {
            assert(self@[i as int] == self.list@[i as int]@);
            Some(&self.list[i])
        } else {
            None
        }
    }

    /// Switches the wide context of an alias over; gives what it is now.
    pub fn toggle_context(&mut self, alias: &str) -> (r: Option<bool>)
        ensures
            final(self)@ == context_toggled(old(self)@, alias@),
            match r {
                Some(b) => profile(final(self)@, alias@) matches Some(p) && p.context_1m == b,
                None => profile(old(self)@, alias@) is None,
            },
    {
        let ghost before = self@;
        let i: usize = self.find(alias);
        if i >= self.list.len() {
            return None;
        }
        assert(before[i as int] == self.list@[i as int]@);
        let now = !self.list[i].context_1m;
        let p = self.list[i].copy();
        self.list.set(i, Profile { context_1m: now, ..p });
        assert(self@ =~= context_toggled(before, alias@));
        proof {
            same_place(before, self@, alias@, 0);
        }
        Some(now)
    }
}

proof fn same_place(a: Seq<ProfileV>, b: Seq<ProfileV>, alias: Seq<char>, i: int)
    requires
        a.len() == b.len(),
        0 <= i <= a.len(),
        forall|j: int| 0 <= j < a.len() ==> a[j].alias == b[j].alias,
    ensures
        alias_at(a, alias, i) == alias_at(b, alias, i),
    decreases a.len() - i,
{
    if i < a.len() && a[i].alias != alias {
        same_place(a, b, alias, i + 1);
    }
}

proof fn alias_is_placed(ps: Seq<ProfileV>, alias: Seq<char>, i: int)
    requires
        0 <= i <= ps.len(),
    ensures
        i <= alias_at(ps, alias, i) <= ps.len(),
    decreases ps.len() - i,
{
    if i < ps.len() && ps[i].alias != alias {
        alias_is_placed(ps, alias, i + 1);
    }
}

proof fn toggling_keeps_places(ps: Seq<ProfileV>, alias: Seq<char>)
    ensures
        alias_at(context_toggled(ps, alias), alias, 0) == alias_at(ps, alias, 0),
        context_toggled(ps, alias).len() == ps.len(),
        0 <= alias_at(ps, alias, 0) <= ps.len(),
{
    alias_is_placed(ps, alias, 0);
    same_place(ps, context_toggled(ps, alias), alias, 0);
}

/// The model that a provider has for each alias.
#[derive(Debug)]
pub struct ProviderModels {
    pub opus: String,
    pub sonnet: String,
    pub haiku: String,
    pub fable: String,
}

/// A provider of models.
#[derive(Debug)]
pub struct ProviderConfig {
    pub id: String,
    pub name: Option<String>,
    pub models: ProviderModels,
}

/// A provider of models, abstractly.
pub struct ProviderV {
    pub id: Seq<char>,
    pub name: Option<Seq<char>>,
    pub opus: Seq<char>,
    pub sonnet: Seq<char>,
    pub haiku: Seq<char>,
    pub fable: Seq<char>,
}

impl View for ProviderConfig {
    type V = ProviderV;

    open spec fn view(&self) -> ProviderV {
        ProviderV {
            id: self.id@,
            name: opt_view(self.name),
            opus: self.models.opus@,
            sonnet: self.models.sonnet@,
            haiku: self.models.haiku@,
            fable: self.models.fable@,
        }
    }
}

/// The providers of a list.
pub open spec fn providers_view(v: Seq<ProviderConfig>) -> Seq<ProviderV> {
    v.map_values(|p: ProviderConfig| p@)
}

/// The model that a provider has for an alias. Without one of its own, `fable` has that of
/// `opus`.
pub open spec fn model_for(p: ProviderV, alias: Seq<char>) -> Option<Seq<char>> {
    if alias == "opus"@ {
        Some(p.opus)
    } else if alias == "sonnet"@ {
        Some(p.sonnet)
    } else if alias == "haiku"@ {
        Some(p.haiku)
    } else if alias == "fable"@ {
        Some(
            if p.fable.len() == 0 {
                p.opus
            } else {
                p.fable
            },
        )
    } else {
        None
    }
}

impl ProviderConfig {
    /// The model that a provider has for an alias.
    pub fn get_model(&self, alias: &str) -> (r: Option<&str>)
        ensures
            match r {
                Some(m) => model_for(self@, alias@) == Some(m@),
                None => model_for(self@, alias@) is None,
            },
    {
        if same(alias, "opus") {
            Some(self.models.opus.as_str())
        } else if same(alias, "sonnet") {
            Some(self.models.sonnet.as_str())
        } else if same(alias, "haiku") {
            Some(self.models.haiku.as_str())
        } else if same(alias, "fable") {
            if count_chars(self.models.fable.as_str()) == 0 {
                Some(self.models.opus.as_str())
            } else {
                Some(self.models.fable.as_str())
            }
        } else {
            None
        }
    }
}

/// The settings that the agent shares.
#[derive(Debug)]
pub struct AppConfig {
    pub show_cache_warning: Option<bool>,
    pub active_alias: String,
    pub language: Option<String>,
    pub profiles: Profiles,
    pub providers: Vec<ProviderConfig>,
}

/// The settings that the agent shares.
#[derive(Debug)]
pub struct PeriConfig {
    pub config: AppConfig,
}

/// The settings of the screen.
#[derive(Debug)]
pub struct TuiConfig {
    pub diff_enabled: bool,
    pub streaming_mode: Option<String>,
    pub scroll_fps: Option<u32>,
}

/// The settings that the agent shares, abstractly.
pub struct PeriV {
    pub cache_warning: Option<bool>,
    pub alias: Seq<char>,
    pub language: Option<Seq<char>>,
    pub profiles: Seq<ProfileV>,
    pub providers: Seq<ProviderV>,
}

/// The settings of the screen, abstractly.
pub struct TuiV {
    pub diff: bool,
    pub streaming: Option<Seq<char>>,
    pub fps: Option<u32>,
}

impl View for PeriConfig {
    type V = PeriV;

    open spec fn view(&self) -> PeriV {
        PeriV {
            cache_warning: self.config.show_cache_warning,
            alias: self.config.active_alias@,
            language: opt_view(self.config.language),
            profiles: self.config.profiles@,
            providers: providers_view(self.config.providers@),
        }
    }
}

impl View for TuiConfig {
    type V = TuiV;

    open spec fn view(&self) -> TuiV {
        TuiV {
            diff: self.diff_enabled,
            streaming: opt_view(self.streaming_mode),
            fps: self.scroll_fps,
        }
    }
}

/// What is set for an alias before anything is.
pub open spec fn fresh_profile(alias: Seq<char>) -> ProfileV {
    ProfileV { alias, provider: ""@, model: None, effort: ""@, context_1m: false }
}

/// The models before anything is set: each with the narrow context.
pub open spec fn fresh_profiles() -> Seq<ProfileV> {
    seq![
        fresh_profile("fable"@),
        fresh_profile("opus"@),
        fresh_profile("sonnet"@),
        fresh_profile("haiku"@),
    ]
}

impl Default for PeriConfig {
    fn default() -> (c: PeriConfig)
        ensures
            c@ == (PeriV {
                cache_warning: None,
                alias: ""@,
                language: None,
                profiles: fresh_profiles(),
                providers: Seq::empty(),
            }),
    {
        let mut list: Vec<Profile> = Vec::new();
        list.push(Profile::fresh("fable"));
        list.push(Profile::fresh("opus"));
        list.push(Profile::fresh("sonnet"));
        list.push(Profile::fresh("haiku"));
        let profiles = Profiles { list };
        assert(profiles@ =~= fresh_profiles());
        let providers: Vec<ProviderConfig> = Vec::new();
        assert(providers_view(providers@) =~= Seq::empty());
        PeriConfig {
            config: AppConfig {
                show_cache_warning: None,
                active_alias: "".to_owned(),
                language: None,
                profiles,
                providers,
            },
        }
    }
}

impl Default for TuiConfig {
    fn default() -> (c: TuiConfig)
        ensures
            c@ == (TuiV { diff: false, streaming: None, fps: None }),
    {
        TuiConfig { diff_enabled: false, streaming_mode: None, scroll_fps: None }
    }
}

// ── The options of a row ───────────────────────────────────────────────────

/// The number of options of a row, 0 for one that is switched on and off.
pub open spec fn option_count(row: int) -> int {
    if row == ROW_STREAMING || row == ROW_SCROLL_FPS {
        3
    } else if row == ROW_LANGUAGE {
        2
    } else if row == ROW_ACTIVE_ALIAS || row == ROW_PERMISSION_MODE {
        4
    } else {
        0
    }
}

/// An option of a row.
pub open spec fn option_at(row: int, i: int) -> Seq<char> {
    if row == ROW_STREAMING {
        if i == 0 {
            "streaming"@
        } else if i == 1 {
            "block"@
        } else {
            "none"@
        }
    } else if row == ROW_LANGUAGE {
        if i == 0 {
            "en"@
        } else {
            "zh-CN"@
        }
    } else if row == ROW_ACTIVE_ALIAS {
        if i == 0 {
            "fable"@
        } else if i == 1 {
            "opus"@
        } else if i == 2 {
            "sonnet"@
        } else {
            "haiku"@
        }
    } else if row == ROW_PERMISSION_MODE {
        if i == 0 {
            "default"@
        } else if i == 1 {
            "accept-edit"@
        } else if i == 2 {
            "auto-mode"@
        } else {
            "bypass"@
        }
    } else {
        if i == 0 {
            "60"@
        } else if i == 1 {
            "30"@
        } else {
            "20"@
        }
    }
}

/// The first position of a value among the options from one on, or their number.
pub open spec fn option_from(row: int, value: Seq<char>, i: int) -> int
    decreases option_count(row) - i,
{
    if i < 0 || i >= option_count(row) || option_at(row, i) == value {
        i
    } else {
        option_from(row, value, i + 1)
    }
}

/// The position of a value among the options, or another where it is none of them.
pub open spec fn option_index(row: int, value: Seq<char>, other: int) -> int {
    if option_from(row, value, 0) < option_count(row) {
        option_from(row, value, 0)
    } else {
        other
    }
}

/// The position one step on or back among the options.
pub open spec fn stepped(row: int, i: int, forward: bool) -> int {
    if forward {
        (i + 1) % option_count(row)
    } else {
        (i + option_count(row) - 1) % option_count(row)
    }
}

fn count_options(row: usize) -> (n: usize)
    ensures
        n == option_count(row as int),
{
    if row == ROW_STREAMING || row == ROW_SCROLL_FPS {
        3
    } else if row == ROW_LANGUAGE {
        2
    } else if row == ROW_ACTIVE_ALIAS || row == ROW_PERMISSION_MODE {
        4
    } else {
        0
    }
}

/// An option of a row.
pub fn option(row: usize, i: usize) -> (r: &'static str)
    ensures
        r@ == option_at(row as int, i as int),
{
    if row == ROW_STREAMING {
        if i == 0 {
            "streaming"
        } else if i == 1 {
            "block"
        } else {
            "none"
        }
    } else if row == ROW_LANGUAGE {
        if i == 0 {
            "en"
        } else {
            "zh-CN"
        }
    } else if row == ROW_ACTIVE_ALIAS {
        if i == 0 {
            "fable"
        } else if i == 1 {
            "opus"
        } else if i == 2 {
            "sonnet"
        } else {
            "haiku"
        }
    } else if row == ROW_PERMISSION_MODE {
        if i == 0 {
            "default"
        } else if i == 1 {
            "accept-edit"
        } else if i == 2 {
            "auto-mode"
        } else {
            "bypass"
        }
    } else {
        if i == 0 {
            "60"
        } else if i == 1 {
            "30"
        } else {
            "20"
        }
    }
}

fn find_option(row: usize, value: &str, other: usize) -> (i: usize)
    ensures
        i == option_index(row as int, value@, other as int),
{
    let n: usize = count_options(row);
    let mut i: usize = 0;
    while i < n
        invariant
            i <= n,
            n == option_count(row as int),
            option_from(row as int, value@, 0) == option_from(row as int, value@, i as int),
        decreases n - i,
    {
        if same(option(row, i), value) {
            return i;
        }
        i = i + 1;
    }
    other
}

fn step(row: usize, i: usize, forward: bool) -> (r: usize)
    requires
        option_count(row as int) > 0,
        i < option_count(row as int),
    ensures
        r == stepped(row as int, i as int, forward),
        r < option_count(row as int),
{
    let n: usize = count_options(row);
    if forward {
        (i + 1) % n
    } else {
        (i + n - 1) % n
    }
}

proof fn found_is_option(row: int, value: Seq<char>, i: int)
    requires
        0 <= i,
    ensures
        i <= option_from(row, value, i),
        option_from(row, value, i) < option_count(row) ==> option_at(
            row,
            option_from(row, value, i),
        ) == value,
    decreases option_count(row) - i,
{
    if i < option_count(row) && option_at(row, i) != value {
        found_is_option(row, value, i + 1);
    }
}

/// The options of a row differ, so that each is found at its own position.
pub proof fn options_are_found(row: int, i: int, other: int)
    requires
        0 <= i < option_count(row),
    ensures
        option_index(row, option_at(row, i), other) == i,
{
    reveal_strlit("streaming");
    reveal_strlit("block");
    reveal_strlit("none");
    reveal_strlit("en");
    reveal_strlit("zh-CN");
    reveal_strlit("fable");
    reveal_strlit("opus");
    reveal_strlit("sonnet");
    reveal_strlit("haiku");
    reveal_strlit("default");
    reveal_strlit("accept-edit");
    reveal_strlit("auto-mode");
    reveal_strlit("bypass");
    reveal_strlit("60");
    reveal_strlit("30");
    reveal_strlit("20");
    assert("streaming"@.len() == 9 && "block"@.len() == 5 && "none"@.len() == 4);
    assert("en"@.len() == 2 && "zh-CN"@.len() == 5);
    assert("fable"@.len() == 5 && "opus"@.len() == 4 && "sonnet"@.len() == 6);
    assert("default"@.len() == 7 && "accept-edit"@.len() == 11);
    assert("auto-mode"@.len() == 9 && "bypass"@.len() == 6);
    assert("fable"@[0] == 'f');
    assert("haiku"@[0] == 'h');
    assert("60"@[0] == '6');
    assert("30"@[0] == '3');
    assert("20"@[0] == '2');
    reveal_with_fuel(option_from, 5);
}

// ── Reading and changing ───────────────────────────────────────────────────

/// What the panel works on: the settings as far as they are loaded, the mode that the
/// session reports, and the mode known otherwise.
#[derive(Debug)]
pub struct Settings {
    pub peri: Option<PeriConfig>,
    pub tui: Option<TuiConfig>,
    pub reported_mode: String,
    pub known_mode: Option<PermissionMode>,
}

/// What the panel works on, abstractly.
pub struct SettingsV {
    pub peri: Option<PeriV>,
    pub tui: Option<TuiV>,
    pub reported_mode: Seq<char>,
    pub known_mode: Option<PermissionMode>,
}

impl View for Settings {
    type V = SettingsV;

    open spec fn view(&self) -> SettingsV {
        SettingsV {
            peri: match self.peri {
                Some(p) => Some(p@),
                None => None,
            },
            tui: match self.tui {
                Some(t) => Some(t@),
                None => None,
            },
            reported_mode: self.reported_mode@,
            known_mode: self.known_mode,
        }
    }
}

/// Whether a row is switched on.
pub open spec fn toggle_value(s: SettingsV, row: int) -> bool {
    if row == ROW_SHOW_DIFF {
        s.tui matches Some(t) && t.diff
    } else if row == ROW_CACHE_WARN {
        s.peri matches Some(p) && p.cache_warning == Some(true)
    } else if row == ROW_1M_CONTEXT {
        s.peri matches Some(p) && (profile(p.profiles, p.alias) matches Some(x) && x.context_1m)
    } else {
        false
    }
}

/// The value that a row is set to.
pub open spec fn cycle_value(s: SettingsV, row: int) -> Seq<char> {
    if row == ROW_STREAMING {
        match s.tui {
            Some(t) => match t.streaming {
                Some(v) => v,
                None => "streaming"@,
            },
            None => "streaming"@,
        }
    } else if row == ROW_LANGUAGE {
        match s.peri {
            Some(p) => match p.language {
                Some(v) => v,
                None => "en"@,
            },
            None => "en"@,
        }
    } else if row == ROW_ACTIVE_ALIAS {
        match s.peri {
            Some(p) => p.alias,
            None => Seq::empty(),
        }
    } else if row == ROW_PERMISSION_MODE {
        if s.reported_mode.len() == 0 {
            match s.known_mode {
                Some(m) => label_of(m),
                None => "default"@,
            }
        } else {
            s.reported_mode
        }
    } else {
        match s.tui {
            Some(t) => match t.fps {
                Some(n) => decimal(n as nat),
                None => "20"@,
            },
            None => "20"@,
        }
    }
}

/// The position that stands for a value that is no option: `sonnet` among the models,
/// else the first.
pub open spec fn fallback(row: int) -> int {
    if row == ROW_ACTIVE_ALIAS {
        2
    } else {
        0
    }
}

/// The position of the option that a row is set to.
pub open spec fn cycle_index(s: SettingsV, row: int) -> int {
    if option_count(row) == 0 {
        0
    } else {
        option_index(row, cycle_value(s, row), fallback(row))
    }
}

/// What the program around the panel has to do. `Save` writes the settings, and `Language`
/// writes them and changes the language.
#[derive(Debug, Clone, Copy)]
pub enum ConfigEffect {
    Nothing,
    Close,
    Save,
    Language(&'static str),
    RequestMode(&'static str),
}

/// What the program has to do, abstractly.
pub enum ConfigEffectV {
    Nothing,
    Close,
    Save,
    Language(Seq<char>),
    RequestMode(Seq<char>),
}

impl View for ConfigEffect {
    type V = ConfigEffectV;

    open spec fn view(&self) -> ConfigEffectV {
        match *self {
            ConfigEffect::Nothing => ConfigEffectV::Nothing,
            ConfigEffect::Close => ConfigEffectV::Close,
            ConfigEffect::Save => ConfigEffectV::Save,
            ConfigEffect::Language(l) => ConfigEffectV::Language(l@),
            ConfigEffect::RequestMode(m) => ConfigEffectV::RequestMode(m@),
        }
    }
}

/// A row that is switched on and off, switched over.
pub open spec fn toggled(s: SettingsV, row: int) -> (SettingsV, ConfigEffectV) {
    let p = s.peri->0;
    if row == ROW_SHOW_DIFF {
        match s.tui {
            Some(t) => (
                SettingsV { tui: Some(TuiV { diff: !t.diff, ..t }), ..s },
                ConfigEffectV::Save,
            ),
            None => (s, ConfigEffectV::Nothing),
        }
    } else if row == ROW_CACHE_WARN {
        (
            SettingsV {
                peri: Some(
                    PeriV { cache_warning: Some(p.cache_warning != Some(true)), ..p },
                ),
                ..s
            },
            ConfigEffectV::Save,
        )
    } else {
        (
            SettingsV {
                peri: Some(PeriV { profiles: context_toggled(p.profiles, p.alias), ..p }),
                ..s
            },
            ConfigEffectV::Save,
        )
    }
}

/// The number of frames that an option stands for.
pub open spec fn fps_of(i: int) -> u32 {
    if i == 0 {
        60
    } else if i == 1 {
        30
    } else {
        20
    }
}

/// A row set to one of its options.
pub open spec fn chosen(s: SettingsV, row: int, i: int) -> (SettingsV, ConfigEffectV) {
    let p = s.peri->0;
    let value = option_at(row, i);
    if row == ROW_STREAMING {
        match s.tui {
            Some(t) => (
                SettingsV { tui: Some(TuiV { streaming: Some(value), ..t }), ..s },
                ConfigEffectV::Save,
            ),
            None => (s, ConfigEffectV::Nothing),
        }
    } else if row == ROW_LANGUAGE {
        (
            SettingsV { peri: Some(PeriV { language: Some(value), ..p }), ..s },
            ConfigEffectV::Language(value),
        )
    } else if row == ROW_ACTIVE_ALIAS {
        (SettingsV { peri: Some(PeriV { alias: value, ..p }), ..s }, ConfigEffectV::Save)
    } else if row == ROW_PERMISSION_MODE {
        (s, ConfigEffectV::RequestMode(value))
    } else {
        match s.tui {
            Some(t) => (
                SettingsV { tui: Some(TuiV { fps: Some(fps_of(i)), ..t }), ..s },
                ConfigEffectV::Save,
            ),
            None => (s, ConfigEffectV::Nothing),
        }
    }
}

/// A row changed: switched over, or set one option on or back. Without the settings
/// nothing is changed.
pub open spec fn activated(s: SettingsV, row: int, forward: bool) -> (SettingsV, ConfigEffectV) {
    if s.peri is None {
        (s, ConfigEffectV::Nothing)
    } else if option_count(row) == 0 {
        toggled(s, row)
    } else {
        chosen(s, row, stepped(row, cycle_index(s, row), forward))
    }
}

proof fn index_is_option(s: SettingsV, row: int)
    requires
        option_count(row) > 0,
    ensures
        0 <= cycle_index(s, row) < option_count(row),
{
    found_is_option(row, cycle_value(s, row), 0);
}

impl Settings {
    /// Whether a row is switched on.
    pub fn read_toggle(&self, row: usize) -> (b: bool)
        ensures
            b == toggle_value(self@, row as int),
    {
        if row == ROW_SHOW_DIFF {
            match &self.tui {
                Some(t) => t.diff_enabled,
                None => false,
            }
        } else if row == ROW_CACHE_WARN {
            match &self.peri {
                Some(p) => match p.config.show_cache_warning {
                    Some(b) => b,
                    None => false,
                },
                None => false,
            }
        } else if row == ROW_1M_CONTEXT {
            match &self.peri {
                Some(p) => match p.config.profiles.get(p.config.active_alias.as_str()) {
                    Some(x) => x.context_1m,
                    None => false,
                },
                None => false,
            }
        } else {
            false
        }
    }

    fn value(&self, row: usize) -> (r: String)
        ensures
            r@ == cycle_value(self@, row as int),
    {
        if row == ROW_STREAMING {
            match &self.tui {
                Some(t) => match &t.streaming_mode {
                    Some(v) => v.clone(),
                    None => "streaming".to_owned(),
                },
                None => "streaming".to_owned(),
            }
        } else if row == ROW_LANGUAGE {
            match &self.peri {
                Some(p) => match &p.config.language {
                    Some(v) => v.clone(),
                    None => "en".to_owned(),
                },
                None => "en".to_owned(),
            }
        } else if row == ROW_ACTIVE_ALIAS {
            match &self.peri {
                Some(p) => p.config.active_alias.clone(),
                None => String::new(),
            }
        } else if row == ROW_PERMISSION_MODE {
            if self.reported_mode.as_str().is_empty() {
                match self.known_mode {
                    Some(m) => permission_mode_label(m).to_owned(),
                    None => "default".to_owned(),
                }
            } else {
                self.reported_mode.clone()
            }
        } else {
            match &self.tui {
                Some(t) => match t.scroll_fps {
                    Some(n) => decimal_text(n as u64),
                    None => "20".to_owned(),
                },
                None => "20".to_owned(),
            }
        }
    }

    /// The position of the option that a row is set to.
    pub fn read_cycle_idx(&self, row: usize) -> (i: usize)
        ensures
            i == cycle_index(self@, row as int),
            option_count(row as int) > 0 ==> i < option_count(row as int),
    {
        if count_options(row) == 0 {
            return 0;
        }
        proof {
            index_is_option(self@, row as int);
        }
        find_option(
            row,
            self.value(row).as_str(),
            if row == ROW_ACTIVE_ALIAS {
                2
            } else {
                0
            },
        )
    }

    fn toggle(&mut self, row: usize) -> (e: ConfigEffect)
        requires
            old(self)@.peri is Some,
            option_count(row as int) == 0,
        ensures
            (final(self)@, e@) == toggled(old(self)@, row as int),
    {
        if row == ROW_SHOW_DIFF {
            let mut tui: Option<TuiConfig> = None;
            std::mem::swap(&mut tui, &mut self.tui);
            match tui {
                Some(mut t) => {
                    t.diff_enabled = !t.diff_enabled;
                    self.tui = Some(t);
                    ConfigEffect::Save
                },
                None => ConfigEffect::Nothing,
            }
        } else {
            let mut peri: Option<PeriConfig> = None;
            std::mem::swap(&mut peri, &mut self.peri);
            match peri {
                Some(mut p) => {
                    if row == ROW_CACHE_WARN {
                        let on = match p.config.show_cache_warning {
                            Some(b) => b,
                            None => false,
                        };
                        p.config.show_cache_warning = Some(!on);
                    } else {
                        let alias = p.config.active_alias.clone();
                        let mut profiles = p.config.profiles;
                        let _now = profiles.toggle_context(alias.as_str());
                        p.config.profiles = profiles;
                    }
                    self.peri = Some(p);
                    ConfigEffect::Save
                },
                None => ConfigEffect::Nothing,
            }
        }
    }

    fn choose_option(&mut self, row: usize, i: usize) -> (e: ConfigEffect)
        requires
            old(self)@.peri is Some,
            i < option_count(row as int),
        ensures
            (final(self)@, e@) == chosen(old(self)@, row as int, i as int),
    {
        let value = option(row, i);
        if row == ROW_PERMISSION_MODE {
            return match parse_permission_mode(value) {
                Some(m) => {
                    proof {
                        crate::permission_mode::only_names_are_read(value@);
                    }
                    ConfigEffect::RequestMode(permission_mode_label(m))
                },
                None => ConfigEffect::RequestMode(value),
            };
        }
        if row == ROW_STREAMING || row == ROW_SCROLL_FPS {
            let mut tui: Option<TuiConfig> = None;
            std::mem::swap(&mut tui, &mut self.tui);
            return match tui {
                Some(mut t) => {
                    if row == ROW_STREAMING {
                        t.streaming_mode = Some(value.to_owned());
                    } else {
                        t.scroll_fps = Some(
                            if i == 0 {
                                60
                            } else if i == 1 {
                                30
                            } else {
                                20
                            },
                        );
                    }
                    self.tui = Some(t);
                    ConfigEffect::Save
                },
                None => ConfigEffect::Nothing,
            };
        }
        let mut peri: Option<PeriConfig> = None;
        std::mem::swap(&mut peri, &mut self.peri);
        match peri {
            Some(mut p) => {
                let e = if row == ROW_LANGUAGE {
                    p.config.language = Some(value.to_owned());
                    ConfigEffect::Language(value)
                } else {
                    p.config.active_alias = value.to_owned();
                    ConfigEffect::Save
                };
                self.peri = Some(p);
                e
            },
            None => ConfigEffect::Nothing,
        }
    }

    /// Changes a row: switches it over, or sets it one option on or back.
    pub fn activate_row(&mut self, row: usize, forward: bool) -> (e: ConfigEffect)
        requires
            row < ROW_COUNT,
        ensures
            (final(self)@, e@) == activated(old(self)@, row as int, forward),
    {
        if self.peri.is_none() {
            return ConfigEffect::Nothing;
        }
        if count_options(row) == 0 {
            return self.toggle(row);
        }
        let i: usize = step(row, self.read_cycle_idx(row), forward);
        self.choose_option(row, i)
    }
}

/// A row set one option on and then one back, or the other way round, is at the option
/// it was at, wherever it can be set.
pub proof fn stepping_is_inverse(s: SettingsV, row: int, forward: bool)
    requires
        row == ROW_LANGUAGE || row == ROW_ACTIVE_ALIAS || row == ROW_STREAMING || row
            == ROW_SCROLL_FPS,
        s.peri is Some,
        s.tui is Some,
    ensures
        ({
            let once = activated(s, row, forward).0;
            let back = activated(once, row, !forward).0;
            &&& cycle_index(once, row) == stepped(row, cycle_index(s, row), forward)
            &&& cycle_index(back, row) == cycle_index(s, row)
        }),
{
    index_is_option(s, row);
    let i = cycle_index(s, row);
    let j = stepped(row, i, forward);
    options_are_found(row, j, fallback(row));
    options_are_found(row, i, fallback(row));
    assert(stepped(row, j, !forward) == i);
    if row == ROW_SCROLL_FPS {
        frames_are_written(j);
        frames_are_written(i);
    }
}

proof fn frames_are_written(i: int)
    ensures
        0 <= i < 3 ==> decimal(fps_of(i) as nat) == option_at(ROW_SCROLL_FPS as int, i),
{
    reveal_strlit("60");
    reveal_strlit("30");
    reveal_strlit("20");
    reveal_with_fuel(decimal, 3);
    assert("60"@ =~= seq!['6', '0']);
    assert("30"@ =~= seq!['3', '0']);
    assert("20"@ =~= seq!['2', '0']);
    assert(0 <= i < 3 ==> decimal(fps_of(i) as nat) =~= option_at(ROW_SCROLL_FPS as int, i));
}

/// A row switched over twice is as it was.
pub proof fn switching_twice_is_neutral(s: SettingsV, row: int, forward: bool)
    requires
        row == ROW_SHOW_DIFF || row == ROW_CACHE_WARN || row == ROW_1M_CONTEXT,
        s.peri is Some,
    ensures
        ({
            let once = activated(s, row, forward).0;
            toggle_value(activated(once, row, forward).0, row) == toggle_value(s, row)
        }),
{
    if row == ROW_1M_CONTEXT {
        let p = s.peri->0;
        let once = context_toggled(p.profiles, p.alias);
        toggling_keeps_places(p.profiles, p.alias);
        toggling_keeps_places(once, p.alias);
    }
}

/// A row switched over is on where it was off, and off where it was on.
pub proof fn switching_changes_the_row(s: SettingsV, row: int, forward: bool)
    requires
        row == ROW_SHOW_DIFF ==> s.tui is Some,
        row == ROW_SHOW_DIFF || row == ROW_CACHE_WARN || row == ROW_1M_CONTEXT,
        s.peri is Some,
        row == ROW_1M_CONTEXT ==> profile(s.peri->0.profiles, s.peri->0.alias) is Some,
    ensures
        toggle_value(activated(s, row, forward).0, row) == !toggle_value(s, row),
{
    if row == ROW_1M_CONTEXT {
        let p = s.peri->0;
        toggling_keeps_places(p.profiles, p.alias);
    }
}

// ── The same on parts of the settings ──────────────────────────────────────

/// Switches a row of the shared settings over; gives what it is now, nothing for a row
/// that is not switched there.
pub fn apply_toggle_row(cfg: &mut PeriConfig, row: usize) -> (r: Option<bool>)
    ensures
        row == ROW_CACHE_WARN ==> final(cfg)@ == (PeriV {
            cache_warning: Some(old(cfg)@.cache_warning != Some(true)),
            ..old(cfg)@
        }) && r == final(cfg)@.cache_warning,
        row == ROW_1M_CONTEXT ==> final(cfg)@ == (PeriV {
            profiles: context_toggled(old(cfg)@.profiles, old(cfg)@.alias),
            ..old(cfg)@
        }) && r == Some(
            profile(final(cfg)@.profiles, old(cfg)@.alias) matches Some(p) && p.context_1m,
        ),
        row != ROW_CACHE_WARN && row != ROW_1M_CONTEXT ==> final(cfg)@ == old(cfg)@ && r is None,
{
    if row == ROW_CACHE_WARN {
        let on = match cfg.config.show_cache_warning {
            Some(b) => b,
            None => false,
        };
        cfg.config.show_cache_warning = Some(!on);
        Some(!on)
    } else if row == ROW_1M_CONTEXT {
        let alias = cfg.config.active_alias.clone();
        let mut profiles = Profiles { list: Vec::new() };
        std::mem::swap(&mut profiles, &mut cfg.config.profiles);
        let now = profiles.toggle_context(alias.as_str());
        cfg.config.profiles = profiles;
        match now {
            Some(b) => Some(b),
            None => Some(false),
        }
    } else {
        None
    }
}

/// The position that a row of the shared settings is set to. The mode is not kept there
/// and counts as the first.
pub open spec fn kept_index(p: PeriV, row: int) -> int {
    if row == ROW_LANGUAGE {
        match p.language {
            Some(l) => option_index(row, l, 0),
            None => 0,
        }
    } else if row == ROW_ACTIVE_ALIAS {
        option_index(row, p.alias, 0)
    } else {
        0
    }
}

/// The shared settings with a row set to one of its options; the mode is not kept there.
pub open spec fn kept_at(p: PeriV, row: int, i: int) -> PeriV {
    if row == ROW_LANGUAGE {
        PeriV { language: Some(option_at(row, i)), ..p }
    } else if row == ROW_ACTIVE_ALIAS {
        PeriV { alias: option_at(row, i), ..p }
    } else {
        p
    }
}

/// The shared settings with a row set one option on or back.
pub open spec fn kept_step(p: PeriV, row: int, forward: bool) -> PeriV {
    kept_at(p, row, stepped(row, kept_index(p, row), forward))
}

/// The shared settings with a row set some options on or back, one after the other.
pub open spec fn kept_steps(p: PeriV, row: int, forward: bool, n: nat) -> PeriV
    decreases n,
{
    if n == 0 {
        p
    } else {
        kept_step(kept_steps(p, row, forward, (n - 1) as nat), row, forward)
    }
}

proof fn kept_options_are_read(p: PeriV, row: int, i: int, forward: bool)
    requires
        row == ROW_LANGUAGE || row == ROW_ACTIVE_ALIAS,
        0 <= i < option_count(row),
    ensures
        kept_index(kept_at(p, row, i), row) == i,
        kept_step(kept_at(p, row, i), row, forward) == kept_at(p, row, stepped(row, i, forward)),
        0 <= stepped(row, i, forward) < option_count(row),
{
    options_are_found(row, i, 0);
}

/// Where a row of the shared settings holds one of its options, as many steps in one direction
/// as it has options lead back to the same settings, and so does one step on and one back. Every
/// step gives the next position.
pub proof fn cycles_come_round(p: PeriV, row: int, forward: bool, i: int)
    requires
        row == ROW_LANGUAGE || row == ROW_ACTIVE_ALIAS,
        0 <= i < option_count(row),
        p == kept_at(p, row, i),
    ensures
        kept_index(p, row) == i,
        kept_index(kept_step(p, row, forward), row) == stepped(row, i, forward),
        kept_step(kept_step(p, row, forward), row, !forward) == p,
        kept_steps(p, row, forward, option_count(row) as nat) == p,
{
    let a = stepped(row, i, forward);
    let b = stepped(row, a, forward);
    let c = stepped(row, b, forward);
    kept_options_are_read(p, row, i, forward);
    kept_options_are_read(p, row, a, forward);
    kept_options_are_read(p, row, a, !forward);
    kept_options_are_read(p, row, b, forward);
    kept_options_are_read(p, row, c, forward);
    assert(kept_steps(p, row, forward, 0) == p);
    assert(kept_steps(p, row, forward, 1) == kept_at(p, row, a));
    assert(kept_steps(p, row, forward, 2) == kept_at(p, row, b));
    assert(kept_steps(p, row, forward, 3) == kept_at(p, row, c));
    assert(kept_steps(p, row, forward, 4) == kept_at(p, row, stepped(row, c, forward)));
}

/// Sets a row of the shared settings one option on or back; gives the position, nothing
/// for a row that is not set there.
pub fn apply_cycle_row(cfg: &mut PeriConfig, row: usize, forward: bool) -> (r: Option<usize>)
    ensures
        ({
            if row == ROW_LANGUAGE || row == ROW_ACTIVE_ALIAS || row == ROW_PERMISSION_MODE {
                &&& r matches Some(i) && i == stepped(
                    row as int,
                    kept_index(old(cfg)@, row as int),
                    forward,
                )
                &&& final(cfg)@ == kept_step(old(cfg)@, row as int, forward)
            } else {
                r is None && final(cfg)@ == old(cfg)@
            }
        }),
{
    if row != ROW_LANGUAGE && row != ROW_ACTIVE_ALIAS && row != ROW_PERMISSION_MODE {
        return None;
    }
    let now: usize = if row == ROW_LANGUAGE {
        match &cfg.config.language {
            Some(l) => {
                proof {
                    found_is_option(row as int, l@, 0);
                }
                find_option(row, l.as_str(), 0)
            },
            None => 0,
        }
    } else if row == ROW_ACTIVE_ALIAS {
        proof {
            found_is_option(row as int, cfg.config.active_alias@, 0);
        }
        find_option(row, cfg.config.active_alias.as_str(), 0)
    } else {
        0
    };
    let next: usize = step(row, now, forward);
    if row == ROW_LANGUAGE {
        cfg.config.language = Some(option(row, next).to_owned());
    } else if row == ROW_ACTIVE_ALIAS {
        cfg.config.active_alias = option(row, next).to_owned();
    }
    Some(next)
}

/// Sets a row of the settings of the screen one option on or back; gives the position,
/// nothing for a row that is not set there.
pub fn apply_cycle_row_tui(cfg: &mut TuiConfig, row: usize, forward: bool) -> (r: Option<usize>)
    ensures
        ({
            let now = match old(cfg)@.streaming {
                Some(v) => option_index(row as int, v, 0),
                None => 0,
            };
            let next = stepped(row as int, now, forward);
            if row == ROW_STREAMING {
                &&& r matches Some(i) && i == next
                &&& final(cfg)@ == (TuiV {
                    streaming: Some(option_at(row as int, next)),
                    ..old(cfg)@
                })
            } else {
                r is None && final(cfg)@ == old(cfg)@
            }
        }),
{
    if row != ROW_STREAMING {
        return None;
    }
    let now: usize = match &cfg.streaming_mode {
        Some(v) => {
            proof {
                found_is_option(row as int, v@, 0);
            }
            find_option(row, v.as_str(), 0)
        },
        None => 0,
    };
    let next: usize = step(row, now, forward);
    cfg.streaming_mode = Some(option(row, next).to_owned());
    Some(next)
}

// ── What an input does ─────────────────────────────────────────────────────

/// The panel: the row of the cursor.
#[derive(Debug, Clone, Copy, PartialEq, Eq, Structural)]
pub struct ConfigPanel {
    pub cursor: usize,
}

impl Default for ConfigPanel {
    fn default() -> (p: ConfigPanel)
        ensures
            p.cursor == 0,
    {
        ConfigPanel { cursor: 0 }
    }
}

/// Where the rows stand in the panel.
pub open spec fn layout() -> ListLayout {
    ListLayout {
        header_rows: 2,
        item_rows: 1,
        footer_rows: 2,
        visible_items: 8,
        scroll_start: 0,
        item_count: 8,
    }
}

/// The row that a click points at.
pub open spec fn target(m: MouseEvent, area: Option<Rect>) -> Option<int> {
    match area {
        Some(a) => if on_scrollbar(m, a) {
            None
        } else {
            hit(m, a, layout())
        },
        None => None,
    }
}

/// What an input does: the cursor and the settings after it, whether it is used up, and
/// what is to be done.
pub open spec fn config_step(cursor: int, s: SettingsV, event: Event, area: Option<Rect>) -> (
    int,
    SettingsV,
    EventResult,
    ConfigEffectV,
) {
    match event {
        Event::Mouse(m) => match target(m, area) {
            Some(i) => (i, activated(s, i, true).0, EventResult::Consumed, activated(s, i, true).1),
            None => (
                cursor,
                s,
                if m.kind == MouseKind::LeftDown {
                    EventResult::Consumed
                } else {
                    EventResult::Ignored
                },
                ConfigEffectV::Nothing,
            ),
        },
        Event::Key(key) => if !key.press {
            (cursor, s, EventResult::Ignored, ConfigEffectV::Nothing)
        } else {
            match key.code {
                KeyCode::Esc => (cursor, s, EventResult::Consumed, ConfigEffectV::Close),
                KeyCode::Up => (
                    prev_sel(cursor),
                    s,
                    EventResult::Consumed,
                    ConfigEffectV::Nothing,
                ),
                KeyCode::Down => (
                    next_sel(cursor, ROW_COUNT as int),
                    s,
                    EventResult::Consumed,
                    ConfigEffectV::Nothing,
                ),
                KeyCode::Enter | KeyCode::Right | KeyCode::Char(' ') => (
                    cursor,
                    activated(s, cursor, true).0,
                    EventResult::Consumed,
                    activated(s, cursor, true).1,
                ),
                KeyCode::Left => (
                    cursor,
                    activated(s, cursor, false).0,
                    EventResult::Consumed,
                    activated(s, cursor, false).1,
                ),
                _ => (cursor, s, EventResult::Consumed, ConfigEffectV::Nothing),
            }
        },
        _ => (cursor, s, EventResult::Ignored, ConfigEffectV::Nothing),
    }
}

/// A click on a row does what Enter does with the cursor there.
pub proof fn click_is_enter_on_row(
    cursor: int,
    s: SettingsV,
    m: MouseEvent,
    area: Option<Rect>,
    key: KeyEvent,
)
    requires
        target(m, area) is Some,
        key.press,
        key.code == KeyCode::Enter,
    ensures
        0 <= target(m, area)->0 < ROW_COUNT,
        config_step(cursor, s, Event::Mouse(m), area) == config_step(
            target(m, area)->0,
            s,
            Event::Key(key),
            area,
        ),
{
    crate::panel_mouse::hit_is_shown(m, area->0, layout());
}

impl ConfigPanel {
    /// The row that a click points at.
    fn pointed_at(&self, m: &MouseEvent, area: Option<Rect>) -> (r: Option<usize>)
        ensures
            match r {
                Some(i) => target(*m, area) == Some(i as int) && i < ROW_COUNT,
                None => target(*m, area) is None,
            },
    {
        let shape = ListLayout {
            header_rows: 2,
            item_rows: 1,
            footer_rows: 2,
            visible_items: 8,
            scroll_start: 0,
            item_count: 8,
        };
        match area {
            Some(a) => {
                if is_scrollbar_column(m, a) {
                    return None;
                }
                let r = hit_item(m, a, shape);
                proof {
                    if hit(*m, a, layout()) is Some {
                        crate::panel_mouse::hit_is_shown(*m, a, layout());
                    }
                }
                r
            },
            None => None,
        }
    }

    /// Deals with an input.
    pub fn handle_event(
        &mut self,
        event: &Event,
        settings: &mut Settings,
        area: Option<Rect>,
    ) -> (r: (EventResult, ConfigEffect))
        requires
            old(self).cursor < ROW_COUNT,
        ensures
            (final(self).cursor as int, final(settings)@, r.0, r.1@) == config_step(
                old(self).cursor as int,
                old(settings)@,
                *event,
                area,
            ),
            final(self).cursor < ROW_COUNT,
    {
        match event {
            Event::Mouse(m) => {
                match self.pointed_at(m, area) {
                    Some(i) => {
                        self.cursor = i;
                        let e = settings.activate_row(i, true);
                        (EventResult::Consumed, e)
                    },
                    None => if m.kind == MouseKind::LeftDown {
                        (EventResult::Consumed, ConfigEffect::Nothing)
                    } else {
                        (EventResult::Ignored, ConfigEffect::Nothing)
                    },
                }
            },
            Event::Key(key) => {
                if !key.press {
                    return (EventResult::Ignored, ConfigEffect::Nothing);
                }
                let e = match key.code {
                    KeyCode::Esc => ConfigEffect::Close,
                    KeyCode::Up => {
                        self.cursor = previous_selection(self.cursor);
                        ConfigEffect::Nothing
                    },
                    KeyCode::Down => {
                        self.cursor = next_selection(self.cursor, ROW_COUNT);
                        ConfigEffect::Nothing
                    },
                    KeyCode::Enter | KeyCode::Right | KeyCode::Char(' ') => settings.activate_row(
                        self.cursor,
                        true,
                    ),
                    KeyCode::Left => settings.activate_row(self.cursor, false),
                    _ => ConfigEffect::Nothing,
                };
                (EventResult::Consumed, e)
            },
            _ => (EventResult::Ignored, ConfigEffect::Nothing),
        }
    }
}

// ── What is shown ──────────────────────────────────────────────────────────

/// The message key of a row.
pub fn row_key(row: usize) -> (r: &'static str)
    ensures
        r@ == key_of_row(row as int),
{
    if row == ROW_SHOW_DIFF {
        "config-field-diff"
    } else if row == ROW_CACHE_WARN {
        "config-field-cache-warning"
    } else if row == ROW_STREAMING {
        "config-field-streaming"
    } else if row == ROW_1M_CONTEXT {
        "config-field-1m-context"
    } else if row == ROW_LANGUAGE {
        "config-field-language"
    } else if row == ROW_ACTIVE_ALIAS {
        "config-field-active-alias"
    } else if row == ROW_PERMISSION_MODE {
        "config-field-permission-mode"
    } else {
        "config-field-scroll-fps"
    }
}

/// The message key of a row.
pub open spec fn key_of_row(row: int) -> Seq<char> {
    if row == ROW_SHOW_DIFF {
        "config-field-diff"@
    } else if row == ROW_CACHE_WARN {
        "config-field-cache-warning"@
    } else if row == ROW_STREAMING {
        "config-field-streaming"@
    } else if row == ROW_1M_CONTEXT {
        "config-field-1m-context"@
    } else if row == ROW_LANGUAGE {
        "config-field-language"@
    } else if row == ROW_ACTIVE_ALIAS {
        "config-field-active-alias"@
    } else if row == ROW_PERMISSION_MODE {
        "config-field-permission-mode"@
    } else {
        "config-field-scroll-fps"@
    }
}

/// An option as it is shown: those of three rows by a message, the others as they are.
pub open spec fn option_piece(row: int, i: int, style: Style) -> PieceV {
    if row == ROW_STREAMING {
        msg(
            if i == 0 {
                "config-streaming-value-streaming"@
            } else if i == 1 {
                "config-streaming-value-block"@
            } else {
                "config-streaming-value-none"@
            },
            style,
        )
    } else if row == ROW_LANGUAGE {
        msg(
            if i == 0 {
                "config-language-value-en"@
            } else {
                "config-language-value-zh"@
            },
            style,
        )
    } else if row == ROW_SCROLL_FPS {
        msg(
            if i == 0 {
                "config-fps-value-60"@
            } else if i == 1 {
                "config-fps-value-30"@
            } else {
                "config-fps-value-20"@
            },
            style,
        )
    } else {
        lit(option_at(row, i), style)
    }
}

/// A text filled up with spaces to a number of characters.
pub open spec fn padded(s: Seq<char>, n: int) -> Seq<char> {
    s + repeated(
        ' ',
        (if s.len() < n {
            n - s.len()
        } else {
            0
        }) as nat,
    )
}

/// A value: in brackets where it is set, behind a space where it is not.
pub open spec fn value_pieces(p: PieceV, set: bool) -> LineV {
    if set {
        seq![lit("["@, p.style), p, lit("]"@, p.style)]
    } else {
        seq![lit(" "@, p.style), p]
    }
}

/// The first options of a row.
pub open spec fn option_pieces(row: int, at: int, to: int) -> LineV
    decreases to,
{
    if to <= 0 {
        Seq::empty()
    } else {
        let i = to - 1;
        option_pieces(row, at, i) + value_pieces(
            option_piece(
                row,
                i,
                if i == at {
                    bold(Color::Success)
                } else {
                    fg(Color::Muted)
                },
            ),
            i == at,
        ) + (if i < option_count(row) - 1 {
            seq![lit(" "@, fg(Color::Plain))]
        } else {
            Seq::empty()
        })
    }
}

/// The two values of a row that is switched on and off.
pub open spec fn toggle_pieces(on: bool) -> LineV {
    value_pieces(
        msg(
            "config-value-on"@,
            if on {
                bold(Color::Success)
            } else {
                fg(Color::Muted)
            },
        ),
        on,
    ) + seq![lit(" "@, fg(Color::Plain))] + value_pieces(
        msg(
            "config-value-off"@,
            if on {
                fg(Color::Muted)
            } else {
                bold(Color::Error)
            },
        ),
        !on,
    )
}

/// A row: the mark of the cursor, the name filled up, and the values.
pub open spec fn row_line(s: SettingsV, row: int, active: bool, label: Seq<char>) -> LineV {
    seq![
        lit(
            if active {
                "> "@
            } else {
                "  "@
            },
            fg(Color::Title),
        ),
        lit(
            padded(label, 22),
            if active {
                bold(Color::Title)
            } else {
                fg(Color::Primary)
            },
        ),
    ] + (if option_count(row) == 0 {
        toggle_pieces(toggle_value(s, row))
    } else {
        option_pieces(row, cycle_index(s, row), option_count(row))
    })
}

/// The first rows.
pub open spec fn row_lines(s: SettingsV, cursor: int, labels: Seq<Seq<char>>, to: int) -> Seq<LineV>
    decreases to,
{
    if to <= 0 {
        Seq::empty()
    } else {
        row_lines(s, cursor, labels, to - 1).push(
            row_line(s, to - 1, to - 1 == cursor, labels[to - 1]),
        )
    }
}

/// What the panel shows.
pub open spec fn config_lines(s: SettingsV, cursor: int, labels: Seq<Seq<char>>) -> Seq<LineV> {
    seq![
        seq![
            lit("  "@, italic(Color::Muted)),
            msg("config-panel-title"@, italic(Color::Muted)),
        ],
        blank(),
    ] + row_lines(s, cursor, labels, ROW_COUNT as int) + seq![
        blank(),
        seq![msg("panel-config-nav-hint"@, fg(Color::Dim))],
    ]
}

proof fn rows_stand(s: SettingsV, cursor: int, labels: Seq<Seq<char>>, to: int, i: int)
    requires
        0 <= i < to,
    ensures
        row_lines(s, cursor, labels, to).len() == to,
        row_lines(s, cursor, labels, to)[i] == row_line(s, i, i == cursor, labels[i]),
    decreases to,
{
    if to > 1 {
        rows_stand(
            s,
            cursor,
            labels,
            to - 1,
            if i < to - 1 {
                i
            } else {
                0
            },
        );
    } else {
        assert(row_lines(s, cursor, labels, 0).len() == 0);
    }
}

/// A click on the row of a setting, above the two last rows of the panel, changes that setting.
pub proof fn rows_are_clicked_where_shown(
    s: SettingsV,
    cursor: int,
    labels: Seq<Seq<char>>,
    m: MouseEvent,
    area: Rect,
    i: int,
)
    requires
        0 <= i < ROW_COUNT,
        clicks(m, area, 2 + i),
        2 + i < area.height - 4,
    ensures
        config_lines(s, cursor, labels)[2 + i] == row_line(s, i, i == cursor, labels[i]),
        config_step(cursor, s, Event::Mouse(m), Some(area)) == (
            i,
            activated(s, i, true).0,
            EventResult::Consumed,
            activated(s, i, true).1,
        ),
{
    rows_stand(s, cursor, labels, ROW_COUNT as int, i);
    let l = layout();
    assert(l.item_rows == 1);
    a_line_of_an_item_hits_it(m, area, l, i, 0);
}

fn push_value(l: &mut Line, p: Piece, set: bool)
    ensures
        final(l)@ == old(l)@ + value_pieces(p@, set),
{
    let ghost before = l@;
    let style = p.style;
    if set {
        l.push(Piece::lit("[", style));
        l.push(p);
        l.push(Piece::lit("]", style));
    } else {
        l.push(Piece::lit(" ", style));
        l.push(p);
    }
    assert(l@ =~= before + value_pieces(p@, set));
}

fn show_option(row: usize, i: usize, style: Style) -> (p: Piece)
    ensures
        p@ == option_piece(row as int, i as int, style),
{
    if row == ROW_STREAMING {
        Piece::msg(
            if i == 0 {
                "config-streaming-value-streaming"
            } else if i == 1 {
                "config-streaming-value-block"
            } else {
                "config-streaming-value-none"
            },
            style,
        )
    } else if row == ROW_LANGUAGE {
        Piece::msg(
            if i == 0 {
                "config-language-value-en"
            } else {
                "config-language-value-zh"
            },
            style,
        )
    } else if row == ROW_SCROLL_FPS {
        Piece::msg(
            if i == 0 {
                "config-fps-value-60"
            } else if i == 1 {
                "config-fps-value-30"
            } else {
                "config-fps-value-20"
            },
            style,
        )
    } else {
        Piece::lit(option(row, i), style)
    }
}

/// A text filled up with spaces to a number of characters.
pub fn pad(s: &str, n: usize) -> (r: String)
    ensures
        r@ == padded(s@, n as int),
{
    let len: usize = count_chars(s);
    let gap: usize = n.saturating_sub(len);
    cat(s, repeat_char(' ', gap).as_str())
}

fn show_row(settings: &Settings, row: usize, active: bool, label: &str) -> (l: Line)
    ensures
        l@ == row_line(settings@, row as int, active, label@),
{
    let mut l = Line::of2(
        Piece::lit(
            if active {
                "> "
            } else {
                "  "
            },
            Style::fg(Color::Title),
        ),
        Piece::text(
            pad(label, 22),
            if active {
                Style::bold(Color::Title)
            } else {
                Style::fg(Color::Primary)
            },
        ),
    );
    let ghost head = l@;
    let n: usize = count_options(row);
    if n == 0 {
        let on = settings.read_toggle(row);
        push_value(
            &mut l,
            Piece::msg(
                "config-value-on",
                if on {
                    Style::bold(Color::Success)
                } else {
                    Style::fg(Color::Muted)
                },
            ),
            on,
        );
        l.push(Piece::lit(" ", Style::fg(Color::Plain)));
        push_value(
            &mut l,
            Piece::msg(
                "config-value-off",
                if on {
                    Style::fg(Color::Muted)
                } else {
                    Style::bold(Color::Error)
                },
            ),
            !on,
        );
        assert(l@ =~= head + toggle_pieces(on));
        return l;
    }
    let at: usize = settings.read_cycle_idx(row);
    let mut i: usize = 0;
    assert(l@ =~= head + option_pieces(row as int, at as int, 0));
    while i < n
        invariant
            i <= n,
            n == option_count(row as int),
            l@ == head + option_pieces(row as int, at as int, i as int),
        decreases n - i,
    {
        let style = if i == at {
            Style::bold(Color::Success)
        } else {
            Style::fg(Color::Muted)
        };
        push_value(&mut l, show_option(row, i, style), i == at);
        if i < n - 1 {
            l.push(Piece::lit(" ", Style::fg(Color::Plain)));
        }
        i = i + 1;
        assert(l@ =~= head + option_pieces(row as int, at as int, i as int));
    }
    l
}

impl ConfigPanel {
    /// What the panel shows, with the names of the rows as they read on the screen.
    pub fn lines(&self, settings: &Settings, labels: &Vec<String>) -> (d: Doc)
        requires
            labels@.len() == ROW_COUNT,
        ensures
            d@ == config_lines(settings@, self.cursor as int, text_views(labels@)),
    {
        let ghost names = text_views(labels@);
        let mut d = Doc::new();
        d.push(
            Line::of2(
                Piece::lit("  ", Style::italic(Color::Muted)),
                Piece::msg("config-panel-title", Style::italic(Color::Muted)),
            ),
        );
        d.blank();
        let ghost head = d@;
        let mut row: usize = 0;
        assert(d@ =~= head + row_lines(settings@, self.cursor as int, names, 0));
        while row < ROW_COUNT
            invariant
                row <= ROW_COUNT,
                labels@.len() == ROW_COUNT,
                names == text_views(labels@),
                d@ == head + row_lines(settings@, self.cursor as int, names, row as int),
            decreases ROW_COUNT - row,
        {
            assert(names[row as int] == labels@[row as int]@);
            d.push(show_row(settings, row, row == self.cursor, labels[row].as_str()));
            row = row + 1;
            assert(d@ =~= head + row_lines(settings@, self.cursor as int, names, row as int));
        }
        d.blank();
        d.line(Piece::msg("panel-config-nav-hint", Style::fg(Color::Dim)));
        assert(d@ =~= config_lines(settings@, self.cursor as int, names));
        d
    }
}

} // verus!
