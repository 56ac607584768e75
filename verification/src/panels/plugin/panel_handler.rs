//! The state of the plugin panel outside the catalog, and what inputs do to it.

use crate::event::{Event, EventResult, KeyCode, KeyEvent, MouseEvent, MouseKind, Rect};
use crate::json::{Json, JsonV, ObjectBuilder};
use crate::list_nav::{next_sel, next_selection, prev_sel, previous_selection,
    scroll_start_for_selected, window_start};
use crate::panel_mouse::{hit, hit_item, is_scrollbar_column, on_scrollbar, ListLayout};
use crate::panels::plugin::discover::{discover_start, DiscoverState, DiscoverV, SearchTicket,
    TicketV};
use crate::panels::plugin::types::{action_list, actions_of, cycle_backward, cycle_forward,
    entries_view, plugin_id_spec, plugins_view, tab_backward, tab_forward, EntryV, ItemV, MsEntry,
    PluginAction, PluginSearchResultItem, PluginSummary, PluginV, PluginViewTab, VISIBLE_ITEMS};
use crate::text::opt_view;
use crate::textarea::{fresh, TextAreaState, TextV};
use vstd::prelude::*;

verus! {

/// What the panel asks to confirm.
#[derive(Debug, Clone, Copy, PartialEq, Eq, Structural)]
pub enum ConfirmAction {
    Uninstall,
    DeleteMarketplace,
}

/// The state of the panel. `operation_loading` names the operation under way, or
/// the marketplace that is to be deleted.
#[derive(Debug)]
pub struct PluginPanel {
    pub selected: usize,
    pub active_tab: PluginViewTab,
    pub discover: DiscoverState,
    pub action_index: usize,
    pub confirm_action: Option<ConfirmAction>,
    pub operation_loading: Option<String>,
    pub detail_plugin_idx: Option<usize>,
    pub marketplace_detail: Option<usize>,
    pub marketplace_detail_action: usize,
    pub marketplace_refreshing: bool,
    pub add_marketplace_input: TextAreaState,
    pub add_marketplace_active: bool,
}

/// The state of the panel, abstractly.
pub struct PanelV {
    pub selected: int,
    pub tab: PluginViewTab,
    pub discover: DiscoverV,
    pub action: int,
    pub confirm: Option<ConfirmAction>,
    pub loading: Option<Seq<char>>,
    pub detail: Option<int>,
    pub market: Option<int>,
    pub market_action: int,
    pub refreshing: bool,
    pub add_input: TextV,
    pub add_active: bool,
}

/// An index, abstractly.
pub open spec fn index_view(o: Option<usize>) -> Option<int> {
    match o {
        Some(i) => Some(i as int),
        None => None,
    }
}

impl View for PluginPanel {
    type V = PanelV;

    open spec fn view(&self) -> PanelV {
        PanelV {
            selected: self.selected as int,
            tab: self.active_tab,
            discover: self.discover@,
            action: self.action_index as int,
            confirm: self.confirm_action,
            loading: opt_view(self.operation_loading),
            detail: index_view(self.detail_plugin_idx),
            market: index_view(self.marketplace_detail),
            market_action: self.marketplace_detail_action as int,
            refreshing: self.marketplace_refreshing,
            add_input: self.add_marketplace_input@,
            add_active: self.add_marketplace_active,
        }
    }
}

/// What the program around the panel has to do.
#[derive(Debug)]
pub enum PluginEffect {
    Nothing,
    ClosePanel,
    Uninstall { plugin_id: String },
    Toggle { plugin_id: String, enable: bool, scope: String },
    Update { plugin_id: String },
    Install { item: PluginSearchResultItem, into: &'static str },
    LaunchSearch(SearchTicket),
    RefreshCatalog,
    RefreshMarketplace { name: String },
    DeleteMarketplace { name: String },
    AddMarketplace { input: String },
}

/// What the program has to do, abstractly.
pub enum EffectV {
    Nothing,
    ClosePanel,
    Uninstall(Seq<char>),
    Toggle(Seq<char>, bool, Seq<char>),
    Update(Seq<char>),
    Install(ItemV, Seq<char>),
    LaunchSearch(TicketV),
    RefreshCatalog,
    RefreshMarketplace(Seq<char>),
    DeleteMarketplace(Seq<char>),
    AddMarketplace(Seq<char>),
}

impl View for PluginEffect {
    type V = EffectV;

    open spec fn view(&self) -> EffectV {
        match *self {
            PluginEffect::Nothing => EffectV::Nothing,
            PluginEffect::ClosePanel => EffectV::ClosePanel,
            PluginEffect::Uninstall { plugin_id } => EffectV::Uninstall(plugin_id@),
            PluginEffect::Toggle { plugin_id, enable, scope } => EffectV::Toggle(
                plugin_id@,
                enable,
                scope@,
            ),
            PluginEffect::Update { plugin_id } => EffectV::Update(plugin_id@),
            PluginEffect::Install { item, into } => EffectV::Install(item@, into@),
            PluginEffect::LaunchSearch(t) => EffectV::LaunchSearch(t@),
            PluginEffect::RefreshCatalog => EffectV::RefreshCatalog,
            PluginEffect::RefreshMarketplace { name } => EffectV::RefreshMarketplace(name@),
            PluginEffect::DeleteMarketplace { name } => EffectV::DeleteMarketplace(name@),
            PluginEffect::AddMarketplace { input } => EffectV::AddMarketplace(input@),
        }
    }
}

/// The method and the parameters of the request that an effect sends in a session.
pub open spec fn request_spec(e: EffectV, session_id: Seq<char>) -> Option<(Seq<char>, JsonV)> {
    match e {
        EffectV::Uninstall(id) => Some(
            (
                "plugin/uninstall"@,
                object(seq![("pluginId"@, JsonV::Str(id)), ("sessionId"@, JsonV::Str(session_id))]),
            ),
        ),
        EffectV::Toggle(id, enable, scope) => Some(
            (
                "plugin/toggle"@,
                object(
                    seq![
                        ("pluginId"@, JsonV::Str(id)),
                        ("enable"@, JsonV::Bool(enable)),
                        ("scope"@, JsonV::Str(scope)),
                        ("sessionId"@, JsonV::Str(session_id)),
                    ],
                ),
            ),
        ),
        EffectV::Update(id) => Some(
            (
                "plugin/update"@,
                object(seq![("pluginId"@, JsonV::Str(id)), ("sessionId"@, JsonV::Str(session_id))]),
            ),
        ),
        EffectV::Install(item, scope) => Some(
            (
                "plugin/install"@,
                object(
                    seq![
                        ("name"@, JsonV::Str(item.name)),
                        ("marketplace"@, JsonV::Str(item.marketplace)),
                        ("scope"@, JsonV::Str(scope)),
                        ("sessionId"@, JsonV::Str(session_id)),
                    ],
                ),
            ),
        ),
        EffectV::LaunchSearch(t) => Some(
            (
                "plugin/search"@,
                object(
                    seq![("query"@, JsonV::Str(t.query)), ("sessionId"@, JsonV::Str(t.session.id))],
                ),
            ),
        ),
        EffectV::RefreshMarketplace(name) => Some(
            (
                "marketplace/refresh"@,
                object(seq![("name"@, JsonV::Str(name)), ("sessionId"@, JsonV::Str(session_id))]),
            ),
        ),
        _ => None,
    }
}

/// An object with these members.
pub open spec fn object(m: Seq<(Seq<char>, JsonV)>) -> JsonV {
    JsonV::Object(m)
}

impl PluginEffect {
    /// The method and the parameters of the request to send in a session, if one
    /// is to be sent.
    pub fn request(&self, session_id: &str) -> (r: Option<(&'static str, Json)>)
        ensures
            match r {
                Some((method, params)) => request_spec(self@, session_id@) == Some(
                    (method@, params@),
                ),
                None => request_spec(self@, session_id@) is None,
            },
    {
        proof {
            reveal_keys();
        }
        let mut o = ObjectBuilder::new();
        let method = match self {
            PluginEffect::Uninstall { plugin_id } => {
                o.put_str("pluginId", plugin_id.as_str());
                o.put_str("sessionId", session_id);
                "plugin/uninstall"
            },
            PluginEffect::Toggle { plugin_id, enable, scope } => {
                o.put_str("pluginId", plugin_id.as_str());
                o.put("enable", Json::Bool(*enable));
                o.put_str("scope", scope.as_str());
                o.put_str("sessionId", session_id);
                "plugin/toggle"
            },
            PluginEffect::Update { plugin_id } => {
                o.put_str("pluginId", plugin_id.as_str());
                o.put_str("sessionId", session_id);
                "plugin/update"
            },
            PluginEffect::Install { item, into } => {
                o.put_str("name", item.name.as_str());
                o.put_str("marketplace", item.marketplace.as_str());
                o.put_str("scope", into);
                o.put_str("sessionId", session_id);
                "plugin/install"
            },
            PluginEffect::LaunchSearch(t) => {
                o.put_str("query", t.query.as_str());
                o.put_str("sessionId", t.session.id.as_str());
                "plugin/search"
            },
            PluginEffect::RefreshMarketplace { name } => {
                o.put_str("name", name.as_str());
                o.put_str("sessionId", session_id);
                "marketplace/refresh"
            },
            _ => {
                return None;
            },
        };
        let params = o.build();
        proof {
            reveal_with_fuel(crate::json::with_member, 5);
            match request_spec(self@, session_id@) {
                Some((m, JsonV::Object(want))) => {
                    assert(params@->Object_0 =~= want);
                },
                _ => {},
            }
        }
        Some((method, params))
    }
}

proof fn reveal_keys()
    ensures
        "pluginId"@ != "sessionId"@,
        "pluginId"@ != "enable"@,
        "pluginId"@ != "scope"@,
        "enable"@ != "scope"@,
        "enable"@ != "sessionId"@,
        "scope"@ != "sessionId"@,
        "name"@ != "marketplace"@,
        "name"@ != "scope"@,
        "name"@ != "sessionId"@,
        "marketplace"@ != "scope"@,
        "marketplace"@ != "sessionId"@,
        "query"@ != "sessionId"@,
{
    reveal_strlit("pluginId");
    reveal_strlit("sessionId");
    reveal_strlit("enable");
    reveal_strlit("scope");
    reveal_strlit("name");
    reveal_strlit("marketplace");
    reveal_strlit("query");
    assert("name"@.len() == 4);
    assert("query"@[0] == 'q');
    assert("scope"@[0] == 's');
    assert("enable"@.len() == 6);
    assert("pluginId"@.len() == 8);
    assert("sessionId"@.len() == 9);
    assert("marketplace"@.len() == 11);
}

/// The state when the panel opens.
pub open spec fn panel_start() -> PanelV {
    PanelV {
        selected: 0,
        tab: PluginViewTab::Installed,
        discover: discover_start(),
        action: 0,
        confirm: None,
        loading: None,
        detail: None,
        market: None,
        market_action: 0,
        refreshing: false,
        add_input: fresh(Seq::empty()),
        add_active: false,
    }
}

// ── What each action does ──────────────────────────────────────────────────

/// The element at an index, if there is one.
pub open spec fn at<T>(s: Seq<T>, i: int) -> Option<T> {
    if 0 <= i < s.len() {
        Some(s[i])
    } else {
        None
    }
}

/// `i - 1`, or 0.
pub open spec fn before(i: int) -> int {
    if i > 0 {
        i - 1
    } else {
        0
    }
}

impl PanelV {
    /// The plugin whose details are shown.
    pub open spec fn detail_plugin(self, plugins: Seq<PluginV>) -> Option<PluginV> {
        match self.detail {
            Some(i) => at(plugins, i),
            None => None,
        }
    }

    /// What is asked has been declined.
    pub open spec fn declined(self) -> PanelV {
        PanelV { confirm: None, loading: None, ..self }
    }

    /// What is asked has been confirmed. The question about a marketplace stays
    /// until the marketplace is gone.
    pub open spec fn confirmed(self, plugins: Seq<PluginV>) -> (PanelV, EffectV) {
        match self.confirm {
            Some(ConfirmAction::Uninstall) => (
                PanelV { detail: None, ..self.declined() },
                match at(plugins, if self.detail is Some { self.detail->0 } else { 0 }) {
                    Some(p) => EffectV::Uninstall(plugin_id_spec(p)),
                    None => EffectV::Nothing,
                },
            ),
            Some(ConfirmAction::DeleteMarketplace) => (
                self,
                EffectV::DeleteMarketplace(
                    match self.loading {
                        Some(name) => name,
                        None => Seq::empty(),
                    },
                ),
            ),
            None => (self, EffectV::Nothing),
        }
    }

    /// Out of the details of a marketplace.
    pub open spec fn market_left(self) -> PanelV {
        PanelV { market: None, market_action: 0, ..self }
    }

    /// An action on the marketplace looked at: the first refreshes it, the other
    /// asks whether to delete it.
    pub open spec fn market_ran(self, which: int, entries: Seq<EntryV>) -> (PanelV, EffectV) {
        let place = if self.market is Some {
            self.market->0
        } else {
            0
        };
        match at(entries, before(place)) {
            Some(entry) => if which == 0 {
                (
                    PanelV { refreshing: true, ..self.market_left() },
                    EffectV::RefreshMarketplace(entry.source_label),
                )
            } else {
                (
                    PanelV {
                        confirm: Some(ConfirmAction::DeleteMarketplace),
                        loading: Some(entry.name),
                        ..self.market_left()
                    },
                    EffectV::Nothing,
                )
            },
            None => (self.market_left(), EffectV::Nothing),
        }
    }

    /// An action on the plugin looked at.
    pub open spec fn action_ran(self, which: int, plugins: Seq<PluginV>) -> (PanelV, EffectV) {
        match self.detail_plugin(plugins) {
            None => (self, EffectV::Nothing),
            Some(p) => match at(actions_of(p.enabled), which) {
                None => (self, EffectV::Nothing),
                Some(PluginAction::Uninstall) => (
                    PanelV { confirm: Some(ConfirmAction::Uninstall), ..self },
                    EffectV::Nothing,
                ),
                Some(PluginAction::Back) => (PanelV { detail: None, ..self }, EffectV::Nothing),
                Some(PluginAction::Enable) => (
                    PanelV { detail: None, loading: Some("enable"@), ..self },
                    EffectV::Toggle(plugin_id_spec(p), true, p.scope),
                ),
                Some(PluginAction::Disable) => (
                    PanelV { detail: None, loading: Some("disable"@), ..self },
                    EffectV::Toggle(plugin_id_spec(p), false, p.scope),
                ),
                Some(PluginAction::Update) => (
                    PanelV { detail: None, loading: Some("update"@), ..self },
                    EffectV::Update(plugin_id_spec(p)),
                ),
            },
        }
    }

    /// On another view, at its top.
    pub open spec fn on_tab(self, tab: PluginViewTab) -> PanelV {
        PanelV { tab, selected: 0, discover: DiscoverV { selected: 0, ..self.discover }, ..self }
    }

    /// At the details of an installed plugin.
    pub open spec fn at_detail(self, i: int) -> PanelV {
        PanelV { detail: Some(i), action: 0, ..self }
    }

    /// At the details of a marketplace.
    pub open spec fn at_market(self, place: int) -> PanelV {
        PanelV { market: Some(place), market_action: 0, ..self }
    }

    /// Asking for the address of a marketplace to add.
    pub open spec fn adding(self) -> PanelV {
        PanelV { add_active: true, add_input: fresh(Seq::empty()), ..self }
    }
}

// ── Layouts ────────────────────────────────────────────────────────────────

/// The actions of a marketplace on the screen.
pub open spec fn market_layout() -> ListLayout {
    ListLayout {
        header_rows: 7,
        item_rows: 1,
        footer_rows: 0,
        visible_items: 2,
        scroll_start: 0,
        item_count: 2,
    }
}

/// The actions of a plugin on the screen, two rows lower below a load error.
pub open spec fn action_layout(p: PluginV) -> ListLayout {
    ListLayout {
        header_rows: if p.load_error is Some {
            19
        } else {
            17
        },
        item_rows: 1,
        footer_rows: 0,
        visible_items: 4,
        scroll_start: 0,
        item_count: 4,
    }
}

/// The installed plugins on the screen.
pub open spec fn installed_layout(selected: int, count: int) -> ListLayout {
    ListLayout {
        header_rows: 3,
        item_rows: 5,
        footer_rows: 0,
        visible_items: 5,
        scroll_start: window_start(selected, VISIBLE_ITEMS as int) as usize,
        item_count: count as usize,
    }
}

/// The line that adds a marketplace on the screen.
pub open spec fn add_layout() -> ListLayout {
    ListLayout {
        header_rows: 3,
        item_rows: 1,
        footer_rows: 0,
        visible_items: 1,
        scroll_start: 0,
        item_count: 1,
    }
}

/// The marketplaces on the screen.
pub open spec fn entries_layout(count: int) -> ListLayout {
    ListLayout {
        header_rows: 5,
        item_rows: 3,
        footer_rows: 0,
        visible_items: if count < u16::MAX {
            count as u16
        } else {
            u16::MAX
        },
        scroll_start: 0,
        item_count: count as usize,
    }
}

// ── Inputs ─────────────────────────────────────────────────────────────────

/// A left click is consumed even where it hits nothing.
pub open spec fn missed(m: MouseEvent) -> EventResult {
    if m.kind == MouseKind::LeftDown {
        EventResult::Consumed
    } else {
        EventResult::Ignored
    }
}

/// What the mouse does in a list.
pub open spec fn list_mouse(
    p: PanelV,
    m: MouseEvent,
    area: Rect,
    plugins: Seq<PluginV>,
    entries: Seq<EntryV>,
) -> (PanelV, EventResult, EffectV) {
    let installed = hit(m, area, installed_layout(p.selected, plugins.len() as int));
    let entry = hit(m, area, entries_layout(entries.len() as int));
    if p.tab == PluginViewTab::Installed && installed is Some {
        (
            PanelV { selected: installed->0, ..p.at_detail(installed->0) },
            EventResult::Consumed,
            EffectV::Nothing,
        )
    } else if p.tab == PluginViewTab::Marketplaces && hit(m, area, add_layout()) is Some {
        (PanelV { selected: 0, ..p.adding() }, EventResult::Consumed, EffectV::Nothing)
    } else if p.tab == PluginViewTab::Marketplaces && entry is Some {
        (
            PanelV { selected: entry->0 + 1, ..p.at_market(entry->0 + 1) },
            EventResult::Consumed,
            EffectV::Nothing,
        )
    } else {
        (p, missed(m), EffectV::Nothing)
    }
}

/// What the mouse does: a click is what Enter is at that place. Where details are shown and none
/// of their actions is clicked, the click goes to the list of the tab.
pub open spec fn mouse_step(
    p: PanelV,
    m: MouseEvent,
    area: Option<Rect>,
    plugins: Seq<PluginV>,
    entries: Seq<EntryV>,
) -> (PanelV, EventResult, EffectV) {
    if area is None || on_scrollbar(m, area->0) {
        (p, missed(m), EffectV::Nothing)
    } else if p.confirm is Some && m.kind == MouseKind::LeftDown {
        let (q, e) = p.confirmed(plugins);
        (q, EventResult::Consumed, e)
    } else if p.market is Some && hit(m, area->0, market_layout()) is Some {
        let (q, e) = p.market_ran(hit(m, area->0, market_layout())->0, entries);
        (q, EventResult::Consumed, e)
    } else if p.detail_plugin(plugins) is Some && hit(
        m,
        area->0,
        action_layout(p.detail_plugin(plugins)->0),
    ) is Some {
        let i = hit(m, area->0, action_layout(p.detail_plugin(plugins)->0))->0;
        let (q, e) = PanelV { action: i, ..p }.action_ran(i, plugins);
        (q, EventResult::Consumed, e)
    } else {
        list_mouse(p, m, area->0, plugins, entries)
    }
}

/// What a key does while the details of a marketplace are shown.
pub open spec fn market_key(p: PanelV, code: KeyCode, entries: Seq<EntryV>) -> (PanelV, EffectV) {
    match code {
        KeyCode::Up => (PanelV { market_action: before(p.market_action), ..p }, EffectV::Nothing),
        KeyCode::Down => (
            PanelV {
                market_action: if p.market_action < 1 {
                    p.market_action + 1
                } else {
                    p.market_action
                },
                ..p
            },
            EffectV::Nothing,
        ),
        KeyCode::Enter => p.market_ran(p.market_action, entries),
        KeyCode::Esc => (p.market_left(), EffectV::Nothing),
        _ => (p, EffectV::Nothing),
    }
}

/// What a key does while the details of a plugin are shown.
pub open spec fn detail_key(p: PanelV, code: KeyCode, plugins: Seq<PluginV>) -> (PanelV, EffectV) {
    match code {
        KeyCode::Enter => p.action_ran(p.action, plugins),
        KeyCode::Up => if p.detail_plugin(plugins) is Some {
            (
                PanelV {
                    action: if p.action == 0 {
                        3
                    } else {
                        p.action - 1
                    },
                    ..p
                },
                EffectV::Nothing,
            )
        } else {
            (p, EffectV::Nothing)
        },
        KeyCode::Down => if p.detail_plugin(plugins) is Some {
            (
                PanelV {
                    action: if p.action + 1 >= 4 {
                        0
                    } else {
                        p.action + 1
                    },
                    ..p
                },
                EffectV::Nothing,
            )
        } else {
            (p, EffectV::Nothing)
        },
        _ => (p, EffectV::Nothing),
    }
}

/// What Enter does in a list.
pub open spec fn list_enter(p: PanelV, plugins: Seq<PluginV>, entries: Seq<EntryV>) -> PanelV {
    match p.tab {
        PluginViewTab::Installed => if plugins.len() > 0 {
            p.at_detail(p.selected)
        } else {
            p
        },
        PluginViewTab::Discover => p,
        PluginViewTab::Marketplaces => if p.selected == 0 {
            p.adding()
        } else if at(entries, p.selected - 1) is Some {
            p.at_market(p.selected)
        } else {
            p
        },
        PluginViewTab::Errors => PanelV { tab: PluginViewTab::Installed, selected: 0, ..p },
    }
}

/// What a key does in a list.
pub open spec fn list_key(
    p: PanelV,
    code: KeyCode,
    plugins: Seq<PluginV>,
    entries: Seq<EntryV>,
) -> PanelV {
    let rows = if p.tab == PluginViewTab::Installed {
        plugins.len() as int
    } else if p.tab == PluginViewTab::Marketplaces {
        entries.len() as int + 1
    } else {
        0
    };
    match code {
        KeyCode::Tab => p.on_tab(tab_forward(p.tab)),
        KeyCode::Right => p.on_tab(tab_forward(p.tab)),
        KeyCode::BackTab => p.on_tab(tab_backward(p.tab)),
        KeyCode::Left => p.on_tab(tab_backward(p.tab)),
        KeyCode::Enter => list_enter(p, plugins, entries),
        KeyCode::Up => if p.tab == PluginViewTab::Installed || p.tab
            == PluginViewTab::Marketplaces {
            PanelV { selected: prev_sel(p.selected), ..p }
        } else {
            p
        },
        KeyCode::Down => if rows > 0 {
            PanelV { selected: next_sel(p.selected, rows), ..p }
        } else {
            p
        },
        _ => p,
    }
}

/// What a key does.
pub open spec fn key_step(
    p: PanelV,
    key: KeyEvent,
    plugins: Seq<PluginV>,
    entries: Seq<EntryV>,
) -> (PanelV, EventResult, EffectV) {
    if !key.press {
        (p, EventResult::Ignored, EffectV::Nothing)
    } else if p.loading is Some && p.confirm is None {
        (PanelV { loading: None, ..p }, EventResult::Consumed, EffectV::RefreshCatalog)
    } else if p.market is Some {
        let (q, e) = market_key(p, key.code, entries);
        (q, EventResult::Consumed, e)
    } else if p.confirm is Some {
        let (q, e) = if key.code == KeyCode::Enter {
            p.confirmed(plugins)
        } else {
            (p.declined(), EffectV::Nothing)
        };
        (q, EventResult::Consumed, e)
    } else if p.detail is Some {
        let (q, e) = detail_key(p, key.code, plugins);
        (q, EventResult::Consumed, e)
    } else {
        (list_key(p, key.code, plugins, entries), EventResult::Consumed, EffectV::Nothing)
    }
}

/// What an input does outside the catalog.
pub open spec fn panel_step(
    p: PanelV,
    event: Event,
    area: Option<Rect>,
    plugins: Seq<PluginV>,
    entries: Seq<EntryV>,
) -> (PanelV, EventResult, EffectV) {
    match event {
        Event::Mouse(m) => mouse_step(p, m, area, plugins, entries),
        Event::Key(key) => key_step(p, key, plugins, entries),
        _ => (p, EventResult::Ignored, EffectV::Nothing),
    }
}

impl Default for PluginPanel {
    fn default() -> (p: PluginPanel)
        ensures
            p@ == panel_start(),
    {
        PluginPanel {
            selected: 0,
            active_tab: PluginViewTab::Installed,
            discover: DiscoverState::default(),
            action_index: 0,
            confirm_action: None,
            operation_loading: None,
            detail_plugin_idx: None,
            marketplace_detail: None,
            marketplace_detail_action: 0,
            marketplace_refreshing: false,
            add_marketplace_input: TextAreaState::default(),
            add_marketplace_active: false,
        }
    }
}

impl PluginPanel {
    /// What was asked is settled: the question and the operation it named go.
    pub fn settle_confirm(&mut self)
        ensures
            final(self)@ == old(self)@.declined(),
    {
        self.confirm_action = None;
        self.operation_loading = None;
    }

    fn confirm(&mut self, plugins: &Vec<PluginSummary>) -> (e: PluginEffect)
        requires
            old(self)@.confirm is Some,
        ensures
            (final(self)@, e@) == old(self)@.confirmed(plugins_view(plugins@)),
    {
        match self.confirm_action {
            Some(ConfirmAction::DeleteMarketplace) => {
                let name = match &self.operation_loading {
                    Some(n) => n.clone(),
                    None => String::new(),
                };
                PluginEffect::DeleteMarketplace { name }
            },
            _ => {
                let idx: usize = match self.detail_plugin_idx {
                    Some(i) => i,
                    None => 0,
                };
                self.detail_plugin_idx = None;
                self.settle_confirm();
                if idx < plugins.len() {
                    PluginEffect::Uninstall { plugin_id: plugins[idx].plugin_id() }
                } else {
                    PluginEffect::Nothing
                }
            },
        }
    }

    fn leave_market(&mut self)
        ensures
            final(self)@ == old(self)@.market_left(),
    {
        self.marketplace_detail = None;
        self.marketplace_detail_action = 0;
    }

    fn run_market(&mut self, which: usize, entries: &Vec<MsEntry>) -> (e: PluginEffect)
        ensures
            (final(self)@, e@) == old(self)@.market_ran(which as int, entries_view(entries@)),
    {
        let place: usize = match self.marketplace_detail {
            Some(s) => s,
            None => 0,
        };
        let i: usize = place.saturating_sub(1);
        self.leave_market();
        if i < entries.len() {
            let entry = &entries[i];
            assert(entries_view(entries@)[i as int] == entry@);
            if which == 0 {
                self.marketplace_refreshing = true;
                PluginEffect::RefreshMarketplace { name: entry.source_label.clone() }
            } else {
                self.confirm_action = Some(ConfirmAction::DeleteMarketplace);
                self.operation_loading = Some(entry.name.clone());
                PluginEffect::Nothing
            }
        } else {
            PluginEffect::Nothing
        }
    }

    fn run_action(&mut self, which: usize, plugins: &Vec<PluginSummary>) -> (e: PluginEffect)
        ensures
            (final(self)@, e@) == old(self)@.action_ran(which as int, plugins_view(plugins@)),
    {
        let idx: usize = match self.detail_plugin_idx {
            Some(i) => i,
            None => {
                return PluginEffect::Nothing;
            },
        };
        if idx >= plugins.len() {
            return PluginEffect::Nothing;
        }
        let p = &plugins[idx];
        assert(plugins_view(plugins@)[idx as int] == p@);
        let actions = action_list(p.enabled);
        if which >= actions.len() {
            return PluginEffect::Nothing;
        }
        match actions[which] {
            PluginAction::Uninstall => {
                self.confirm_action = Some(ConfirmAction::Uninstall);
                PluginEffect::Nothing
            },
            PluginAction::Back => {
                self.detail_plugin_idx = None;
                PluginEffect::Nothing
            },
            PluginAction::Enable => {
                self.operation_loading = Some("enable".to_owned());
                self.detail_plugin_idx = None;
                PluginEffect::Toggle {
                    plugin_id: p.plugin_id(),
                    enable: true,
                    scope: p.install_scope.clone(),
                }
            },
            PluginAction::Disable => {
                self.operation_loading = Some("disable".to_owned());
                self.detail_plugin_idx = None;
                PluginEffect::Toggle {
                    plugin_id: p.plugin_id(),
                    enable: false,
                    scope: p.install_scope.clone(),
                }
            },
            PluginAction::Update => {
                self.operation_loading = Some("update".to_owned());
                self.detail_plugin_idx = None;
                PluginEffect::Update { plugin_id: p.plugin_id() }
            },
        }
    }

    fn switch_tab(&mut self, tab: PluginViewTab)
        ensures
            final(self)@ == old(self)@.on_tab(tab),
    {
        self.active_tab = tab;
        self.selected = 0;
        self.discover.selected = 0;
    }

    fn start_adding(&mut self)
        ensures
            final(self)@ == old(self)@.adding(),
    {
        self.add_marketplace_active = true;
        self.add_marketplace_input = TextAreaState::default();
    }

    fn mouse_in_list(
        &mut self,
        mouse: &MouseEvent,
        area: Rect,
        plugins: &Vec<PluginSummary>,
        entries: &Vec<MsEntry>,
    ) -> (r: EventResult)
        ensures
            (final(self)@, r, EffectV::Nothing) == list_mouse(
                old(self)@,
                *mouse,
                area,
                plugins_view(plugins@),
                entries_view(entries@),
            ),
    {
        match self.active_tab {
            PluginViewTab::Installed => {
                let layout = ListLayout {
                    header_rows: 3,
                    item_rows: 5,
                    footer_rows: 0,
                    visible_items: 5,
                    scroll_start: scroll_start_for_selected(self.selected, VISIBLE_ITEMS),
                    item_count: plugins.len(),
                };
                match hit_item(mouse, area, layout) {
                    Some(i) => {
                        self.selected = i;
                        self.detail_plugin_idx = Some(i);
                        self.action_index = 0;
                        return EventResult::Consumed;
                    },
                    None => {},
                }
            },
            PluginViewTab::Marketplaces => {
                let add = ListLayout {
                    header_rows: 3,
                    item_rows: 1,
                    footer_rows: 0,
                    visible_items: 1,
                    scroll_start: 0,
                    item_count: 1,
                };
                if hit_item(mouse, area, add).is_some() {
                    self.selected = 0;
                    self.start_adding();
                    return EventResult::Consumed;
                }
                let n: usize = entries.len();
                let layout = ListLayout {
                    header_rows: 5,
                    item_rows: 3,
                    footer_rows: 0,
                    visible_items: if n < u16::MAX as usize {
                        n as u16
                    } else {
                        u16::MAX
                    },
                    scroll_start: 0,
                    item_count: n,
                };
                match hit_item(mouse, area, layout) {
                    Some(i) => {
                        proof {
                            crate::panel_mouse::hit_is_shown(*mouse, area, layout);
                        }
                        let place: usize = i + 1;
                        self.selected = place;
                        self.marketplace_detail = Some(place);
                        self.marketplace_detail_action = 0;
                        return EventResult::Consumed;
                    },
                    None => {},
                }
            },
            _ => {},
        }
        if mouse.kind == MouseKind::LeftDown {
            EventResult::Consumed
        } else {
            EventResult::Ignored
        }
    }

    fn handle_mouse(
        &mut self,
        mouse: &MouseEvent,
        area: Option<Rect>,
        plugins: &Vec<PluginSummary>,
        entries: &Vec<MsEntry>,
    ) -> (r: (EventResult, PluginEffect))
        ensures
            (final(self)@, r.0, r.1@) == mouse_step(
                old(self)@,
                *mouse,
                area,
                plugins_view(plugins@),
                entries_view(entries@),
            ),
    {
        let miss = if mouse.kind == MouseKind::LeftDown {
            EventResult::Consumed
        } else {
            EventResult::Ignored
        };
        let area = match area {
            Some(a) => a,
            None => {
                return (miss, PluginEffect::Nothing);
            },
        };
        if is_scrollbar_column(mouse, area) {
            return (miss, PluginEffect::Nothing);
        }
        if self.confirm_action.is_some() && mouse.kind == MouseKind::LeftDown {
            let e = self.confirm(plugins);
            return (EventResult::Consumed, e);
        }
        if self.marketplace_detail.is_some() {
            let layout = ListLayout {
                header_rows: 7,
                item_rows: 1,
                footer_rows: 0,
                visible_items: 2,
                scroll_start: 0,
                item_count: 2,
            };
            match hit_item(mouse, area, layout) {
                Some(i) => {
                    let e = self.run_market(i, entries);
                    return (EventResult::Consumed, e);
                },
                None => {},
            }
        }
        match self.detail_plugin_idx {
            Some(d) => {
                if d < plugins.len() {
                    assert(plugins_view(plugins@)[d as int] == plugins@[d as int]@);
                    let layout = ListLayout {
                        header_rows: if plugins[d].load_error.is_some() {
                            19
                        } else {
                            17
                        },
                        item_rows: 1,
                        footer_rows: 0,
                        visible_items: 4,
                        scroll_start: 0,
                        item_count: 4,
                    };
                    match hit_item(mouse, area, layout) {
                        Some(i) => {
                            self.action_index = i;
                            let e = self.run_action(i, plugins);
                            return (EventResult::Consumed, e);
                        },
                        None => {},
                    }
                }
            },
            None => {},
        }
        let r = self.mouse_in_list(mouse, area, plugins, entries);
        (r, PluginEffect::Nothing)
    }

    fn key_in_market(&mut self, code: KeyCode, entries: &Vec<MsEntry>) -> (e: PluginEffect)
        ensures
            (final(self)@, e@) == market_key(old(self)@, code, entries_view(entries@)),
    {
        match code {
            KeyCode::Up => {
                self.marketplace_detail_action = self.marketplace_detail_action.saturating_sub(1);
            },
            KeyCode::Down => {
                if self.marketplace_detail_action < 1 {
                    self.marketplace_detail_action = self.marketplace_detail_action + 1;
                }
            },
            KeyCode::Enter => {
                return self.run_market(self.marketplace_detail_action, entries);
            },
            KeyCode::Esc => {
                self.leave_market();
            },
            _ => {},
        }
        PluginEffect::Nothing
    }

    fn key_in_detail(&mut self, code: KeyCode, plugins: &Vec<PluginSummary>) -> (e: PluginEffect)
        requires
            old(self)@.detail is Some,
        ensures
            (final(self)@, e@) == detail_key(old(self)@, code, plugins_view(plugins@)),
    {
        let idx: usize = match self.detail_plugin_idx {
            Some(i) => i,
            None => 0,
        };
        match code {
            KeyCode::Enter => {
                return self.run_action(self.action_index, plugins);
            },
            KeyCode::Up => {
                if idx < plugins.len() {
                    self.action_index = if self.action_index == 0 {
                        3
                    } else {
                        self.action_index - 1
                    };
                }
            },
            KeyCode::Down => {
                if idx < plugins.len() {
                    self.action_index = if self.action_index >= 3 {
                        0
                    } else {
                        self.action_index + 1
                    };
                }
            },
            _ => {},
        }
        PluginEffect::Nothing
    }

    fn key_in_list(
        &mut self,
        code: KeyCode,
        plugins: &Vec<PluginSummary>,
        entries: &Vec<MsEntry>,
    )
        ensures
            final(self)@ == list_key(
                old(self)@,
                code,
                plugins_view(plugins@),
                entries_view(entries@),
            ),
    {
        match code {
            KeyCode::Tab | KeyCode::Right => {
                let tab = cycle_forward(self.active_tab);
                self.switch_tab(tab);
            },
            KeyCode::BackTab | KeyCode::Left => {
                let tab = cycle_backward(self.active_tab);
                self.switch_tab(tab);
            },
            KeyCode::Enter => {
                match self.active_tab {
                    PluginViewTab::Installed => {
                        if plugins.len() > 0 {
                            self.detail_plugin_idx = Some(self.selected);
                            self.action_index = 0;
                        }
                    },
                    PluginViewTab::Discover => {},
                    PluginViewTab::Marketplaces => {
                        if self.selected == 0 {
                            self.start_adding();
                        } else if self.selected - 1 < entries.len() {
                            self.marketplace_detail = Some(self.selected);
                            self.marketplace_detail_action = 0;
                        }
                    },
                    PluginViewTab::Errors => {
                        self.active_tab = PluginViewTab::Installed;
                        self.selected = 0;
                    },
                }
            },
            KeyCode::Up => {
                match self.active_tab {
                    PluginViewTab::Installed | PluginViewTab::Marketplaces => {
                        self.selected = previous_selection(self.selected);
                    },
                    _ => {},
                }
            },
            KeyCode::Down => {
                match self.active_tab {
                    PluginViewTab::Installed => {
                        if plugins.len() > 0 {
                            self.selected = next_selection(self.selected, plugins.len());
                        }
                    },
                    PluginViewTab::Marketplaces => {
                        self.selected = if self.selected < entries.len() {
                            self.selected + 1
                        } else {
                            entries.len()
                        };
                    },
                    _ => {},
                }
            },
            _ => {},
        }
    }

    /// Deals with one input that the catalog has left.
    pub fn handle_panel_event(
        &mut self,
        event: &Event,
        area: Option<Rect>,
        plugins: &Vec<PluginSummary>,
        entries: &Vec<MsEntry>,
    ) -> (r: (EventResult, PluginEffect))
        ensures
            (final(self)@, r.0, r.1@) == panel_step(
                old(self)@,
                *event,
                area,
                plugins_view(plugins@),
                entries_view(entries@),
            ),
    {
        let key = match event {
            Event::Mouse(mouse) => {
                return self.handle_mouse(mouse, area, plugins, entries);
            },
            Event::Key(key) => key,
            _ => {
                return (EventResult::Ignored, PluginEffect::Nothing);
            },
        };
        if !key.press {
            return (EventResult::Ignored, PluginEffect::Nothing);
        }
        if self.operation_loading.is_some() && self.confirm_action.is_none() {
            self.operation_loading = None;
            return (EventResult::Consumed, PluginEffect::RefreshCatalog);
        }
        let effect = if self.marketplace_detail.is_some() {
            self.key_in_market(key.code, entries)
        } else if self.confirm_action.is_some() {
            if key.code == KeyCode::Enter {
                self.confirm(plugins)
            } else {
                self.settle_confirm();
                PluginEffect::Nothing
            }
        } else if self.detail_plugin_idx.is_some() {
            self.key_in_detail(key.code, plugins)
        } else {
            self.key_in_list(key.code, plugins, entries);
            PluginEffect::Nothing
        };
        (EventResult::Consumed, effect)
    }
}

// ── Laws ───────────────────────────────────────────────────────────────────

/// Clicking an action of a plugin is choosing it and pressing Enter.
pub proof fn click_is_enter_on_action(
    p: PanelV,
    m: MouseEvent,
    area: Rect,
    key: KeyEvent,
    plugins: Seq<PluginV>,
    entries: Seq<EntryV>,
)
    requires
        !on_scrollbar(m, area),
        p.confirm is None,
        p.loading is None,
        p.market is None,
        p.detail_plugin(plugins) is Some,
        hit(m, area, action_layout(p.detail_plugin(plugins)->0)) is Some,
        key.press,
        key.code == KeyCode::Enter,
    ensures
        ({
            let chosen = hit(m, area, action_layout(p.detail_plugin(plugins)->0))->0;
            mouse_step(p, m, Some(area), plugins, entries) == key_step(
                PanelV { action: chosen, ..p },
                key,
                plugins,
                entries,
            )
        }),
{
}

/// Clicking an action of a marketplace is choosing it and pressing Enter.
pub proof fn click_is_enter_on_market_action(
    p: PanelV,
    m: MouseEvent,
    area: Rect,
    key: KeyEvent,
    plugins: Seq<PluginV>,
    entries: Seq<EntryV>,
)
    requires
        !on_scrollbar(m, area),
        p.confirm is None,
        p.loading is None,
        p.market is Some,
        hit(m, area, market_layout()) is Some,
        key.press,
        key.code == KeyCode::Enter,
    ensures
        mouse_step(p, m, Some(area), plugins, entries) == key_step(
            PanelV { market_action: hit(m, area, market_layout())->0, ..p },
            key,
            plugins,
            entries,
        ),
{
}

/// While something is asked, a click confirms it just as Enter does, and any
/// other key declines it without anything being done.
pub proof fn confirmation_is_explicit(
    p: PanelV,
    m: MouseEvent,
    area: Rect,
    key: KeyEvent,
    plugins: Seq<PluginV>,
    entries: Seq<EntryV>,
)
    requires
        p.confirm is Some,
        p.market is None,
        key.press,
    ensures
        m.kind == MouseKind::LeftDown && !on_scrollbar(m, area) && key.code == KeyCode::Enter
            ==> mouse_step(p, m, Some(area), plugins, entries) == key_step(p, key, plugins, entries),
        key.code != KeyCode::Enter ==> key_step(p, key, plugins, entries) == (
            p.declined(),
            EventResult::Consumed,
            EffectV::Nothing,
        ),
{
}

/// Nothing is uninstalled or deleted unless it has been asked before.
pub proof fn nothing_is_removed_unasked(
    p: PanelV,
    event: Event,
    area: Option<Rect>,
    plugins: Seq<PluginV>,
    entries: Seq<EntryV>,
)
    requires
        p.confirm is None,
    ensures
        panel_step(p, event, area, plugins, entries).2 !is Uninstall,
        panel_step(p, event, area, plugins, entries).2 !is DeleteMarketplace,
{
}

} // verus!
