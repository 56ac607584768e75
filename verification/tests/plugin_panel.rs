//! The panel of the plugins: its views, its actions and the requests that follow.

use peri_kit::doc::{Doc, Words};
use peri_kit::event::{Event, EventResult, KeyCode, KeyEvent, MouseEvent, MouseKind, Rect};
use peri_kit::panels::plugin::discover::{SearchSession, SearchState};
use peri_kit::panels::plugin::panel_handler::{ConfirmAction, PluginEffect, PluginPanel};
use peri_kit::panels::plugin::types::{
    action_label, action_list, cycle_backward, cycle_forward, DiscoverDetailAction, MsEntry,
    MsStatus, PluginAction, PluginSearchResultItem, PluginSummary, PluginViewTab,
};

fn key(code: KeyCode) -> Event {
    Event::Key(KeyEvent::plain(code))
}

fn click(row: u16, column: u16) -> Event {
    Event::Mouse(MouseEvent { kind: MouseKind::LeftDown, row, column })
}

fn plugin(name: &str, marketplace: &str) -> PluginSummary {
    PluginSummary {
        name: name.into(),
        version: "1.0".into(),
        enabled: true,
        root: "/r".into(),
        description: "d".into(),
        marketplace: marketplace.into(),
        author: None,
        skills_count: 1,
        commands_count: 2,
        agents_count: 3,
        mcp_count: 4,
        install_scope: "user".into(),
        load_error: None,
    }
}

fn entry(name: &str) -> MsEntry {
    MsEntry {
        name: name.into(),
        source_label: format!("{name}-label"),
        plugin_count: 1,
        installed_count: 0,
        status: MsStatus::Cached,
        last_updated: None,
        auto_update: false,
    }
}

fn offer(name: &str) -> PluginSearchResultItem {
    PluginSearchResultItem {
        name: name.into(),
        version: "1".into(),
        marketplace: "m".into(),
        description: String::new(),
        author: None,
    }
}

struct Table {
    panel: PluginPanel,
    plugins: Vec<PluginSummary>,
    entries: Vec<MsEntry>,
    local: Vec<PluginSearchResultItem>,
}

impl Table {
    fn new() -> Table {
        Table {
            panel: PluginPanel::default(),
            plugins: vec![plugin("one", "m"), plugin("two", "")],
            entries: vec![entry("x"), entry("y")],
            local: vec![offer("alpha"), offer("beta")],
        }
    }

    fn send(&mut self, event: Event) -> (EventResult, PluginEffect) {
        self.panel.handle(
            &event,
            Some(Rect::new(0, 0, 80, 40)),
            &self.plugins,
            &self.entries,
            &self.local,
            SearchSession::current("s", 0),
        )
    }

    fn press(&mut self, code: KeyCode) -> PluginEffect {
        self.send(key(code)).1
    }
}

#[test]
fn the_views_go_round() {
    let mut t = PluginViewTab::Installed;
    for _ in 0..4 {
        assert_eq!(cycle_backward(cycle_forward(t)), t);
        t = cycle_forward(t);
    }
    assert_eq!(t, PluginViewTab::Installed);
    let mut table = Table::new();
    table.press(KeyCode::Tab);
    assert_eq!(table.panel.active_tab, PluginViewTab::Discover);
}

#[test]
fn a_plugin_is_removed_only_once_confirmed() {
    let mut t = Table::new();
    t.press(KeyCode::Enter);
    assert_eq!(t.panel.detail_plugin_idx, Some(0));
    t.press(KeyCode::Down);
    assert!(matches!(t.press(KeyCode::Enter), PluginEffect::Nothing));
    assert_eq!(t.panel.confirm_action, Some(ConfirmAction::Uninstall));
    assert!(matches!(t.press(KeyCode::Char('x')), PluginEffect::Nothing));
    assert_eq!(t.panel.confirm_action, None);
    t.press(KeyCode::Enter);
    let e = t.press(KeyCode::Enter);
    assert!(matches!(&e, PluginEffect::Uninstall { plugin_id } if plugin_id == "one@m"));
    let (method, params) = e.request("s").unwrap();
    assert_eq!(method, "plugin/uninstall");
    assert_eq!(params.get_str("pluginId"), Some("one@m"));
    assert_eq!(params.get_str("sessionId"), Some("s"));
    assert_eq!(t.panel.detail_plugin_idx, None);
    assert_eq!(t.panel.confirm_action, None);
}

#[test]
fn a_click_on_an_action_is_enter_on_it() {
    let labels: Vec<&str> = action_list(true).iter().map(|a| action_label(*a)).collect();
    assert_eq!(labels.len(), 4);
    assert_eq!(action_list(true)[0], PluginAction::Disable);
    assert_eq!(action_list(false)[0], PluginAction::Enable);
    let mut by_key = Table::new();
    by_key.press(KeyCode::Enter);
    let e = by_key.press(KeyCode::Enter);
    let mut by_click = Table::new();
    by_click.press(KeyCode::Enter);
    assert!(matches!(by_click.send(click(17, 5)).1, PluginEffect::Nothing));
    assert_eq!(by_click.panel.detail_plugin_idx, Some(0));
    let (_, f) = by_click.send(click(18, 5));
    for e in [e, f] {
        assert!(matches!(&e, PluginEffect::Toggle { plugin_id, enable: false, scope }
            if plugin_id == "one@m" && scope == "user"));
        assert_eq!(e.request("s").unwrap().0, "plugin/toggle");
    }
    assert_eq!(by_click.panel.detail_plugin_idx, None);
    assert!(by_key.panel.operation_loading.is_some());
    assert!(matches!(by_key.press(KeyCode::Char('x')), PluginEffect::RefreshCatalog));
    assert!(by_key.panel.operation_loading.is_none());
}

#[test]
fn a_plugin_is_updated() {
    let mut t = Table::new();
    t.press(KeyCode::Down);
    t.press(KeyCode::Enter);
    t.press(KeyCode::Down);
    t.press(KeyCode::Down);
    let e = t.press(KeyCode::Enter);
    assert!(matches!(&e, PluginEffect::Update { plugin_id } if plugin_id == "two"));
    assert_eq!(e.request("s").unwrap().0, "plugin/update");
    t.press(KeyCode::Char('x'));
    t.press(KeyCode::Enter);
    assert!(matches!(t.press(KeyCode::Esc), PluginEffect::Nothing));
    assert_eq!(t.panel.detail_plugin_idx, None);
    assert!(matches!(t.press(KeyCode::Esc), PluginEffect::ClosePanel));
}

#[test]
fn a_marketplace_is_added_refreshed_and_removed() {
    let mut t = Table::new();
    t.panel.active_tab = PluginViewTab::Marketplaces;
    t.press(KeyCode::Enter);
    assert!(t.panel.add_marketplace_active);
    t.press(KeyCode::Char('a'));
    t.press(KeyCode::Char('b'));
    t.press(KeyCode::Backspace);
    let e = t.press(KeyCode::Enter);
    assert!(matches!(e, PluginEffect::AddMarketplace { input } if input == "a"));
    t.press(KeyCode::Down);
    t.press(KeyCode::Down);
    t.press(KeyCode::Enter);
    assert_eq!(t.panel.marketplace_detail, Some(2));
    let e = t.press(KeyCode::Enter);
    assert!(matches!(&e, PluginEffect::RefreshMarketplace { name } if name == "y-label"));
    assert_eq!(e.request("s").unwrap().0, "marketplace/refresh");
    t.press(KeyCode::Enter);
    let (_, e) = t.send(click(9, 5));
    assert!(matches!(e, PluginEffect::Nothing));
    assert_eq!(t.panel.confirm_action, Some(ConfirmAction::DeleteMarketplace));
    let e = t.press(KeyCode::Enter);
    assert!(matches!(&e, PluginEffect::DeleteMarketplace { name } if name == "y"));
    assert!(e.request("s").is_none());
    assert_eq!(t.panel.confirm_action, Some(ConfirmAction::DeleteMarketplace));
    t.panel.settle_confirm();
    assert_eq!(t.panel.confirm_action, None);
}

#[test]
fn an_offer_is_installed_as_shown() {
    assert_eq!(DiscoverDetailAction::at(0), Some(DiscoverDetailAction::InstallUser));
    assert_eq!(DiscoverDetailAction::at(3), None);
    let mut t = Table::new();
    t.press(KeyCode::Tab);
    t.panel.discover.focused = false;
    t.press(KeyCode::Down);
    t.press(KeyCode::Enter);
    assert_eq!(t.panel.discover.detail.as_ref().map(|d| d.name.as_str()), Some("beta"));
    t.press(KeyCode::Down);
    let e = t.press(KeyCode::Enter);
    assert!(matches!(&e, PluginEffect::Install { item, into: "project" } if item.name == "beta"));
    let (method, params) = e.request("s").unwrap();
    assert_eq!(method, "plugin/install");
    assert!(params.get("sessionId").is_some());
}

#[test]
fn a_search_is_sent_with_its_query() {
    let mut t = Table::new();
    t.press(KeyCode::Tab);
    t.press(KeyCode::Char('g'));
    assert!(matches!(t.press(KeyCode::Enter), PluginEffect::Nothing));
    assert_eq!(t.panel.discover.editor.text, "");
    t.press(KeyCode::Char('g'));
    t.press(KeyCode::Char('o'));
    let e = t.press(KeyCode::Enter);
    let (method, params) = e.request("").unwrap();
    assert_eq!(method, "plugin/search");
    assert_eq!(params.get_str("query"), Some("go"));
    assert_eq!(params.get_str("sessionId"), Some("s"));
    assert!(matches!(t.panel.discover.status, SearchState::Loading));
    let PluginEffect::LaunchSearch(ticket) = e else { panic!("a search is launched") };
    assert!(t.panel.discover.complete(&ticket, false, Err("no".into())));
    assert!(matches!(&t.panel.discover.status, SearchState::Error(e) if e == "no"));
}

fn row_of(d: &Doc, text: &str) -> u16 {
    let at = d.lines.iter().position(|l| {
        l.pieces.iter().any(|p| match &p.words {
            Words::Literal(t) => t.contains(text),
            Words::Message { key, .. } => key == text,
        })
    });
    at.unwrap() as u16 + 1
}

#[test]
fn what_is_clicked_is_what_is_shown() {
    let t = Table::new();
    let first = row_of(&t.panel.lines(&t.plugins, &t.entries, &t.local, true), "two");
    for row in first..first + 5 {
        let mut t = Table::new();
        t.send(click(row, 5));
        assert_eq!(t.panel.detail_plugin_idx, Some(1));
    }
    for wrong in [None, Some("bad".to_string())] {
        let mut t = Table::new();
        t.plugins[0].load_error = wrong;
        t.press(KeyCode::Enter);
        let d = t.panel.lines(&t.plugins, &t.entries, &t.local, true);
        let row = row_of(&d, "panel-plugin-action-update");
        let (_, e) = t.send(click(row, 5));
        assert!(matches!(&e, PluginEffect::Update { plugin_id } if plugin_id == "one@m"));
    }
    let mut t = Table::new();
    t.panel.active_tab = PluginViewTab::Marketplaces;
    let d = t.panel.lines(&t.plugins, &t.entries, &t.local, true);
    let row = row_of(&d, "panel-plugin-marketplaces-add");
    let over = Event::Mouse(MouseEvent { kind: MouseKind::Moved, row, column: 5 });
    assert!(matches!(t.send(over), (EventResult::Ignored, PluginEffect::Nothing)));
    assert!(!t.panel.add_marketplace_active);
    t.send(click(row, 5));
    assert!(t.panel.add_marketplace_active);
    let mut t = Table::new();
    t.panel.active_tab = PluginViewTab::Marketplaces;
    let row = row_of(&t.panel.lines(&t.plugins, &t.entries, &t.local, true), "y ");
    t.send(click(row + 2, 5));
    assert_eq!(t.panel.marketplace_detail, Some(2));
    let mut t = Table::new();
    t.press(KeyCode::Tab);
    t.panel.discover.focused = false;
    let row = row_of(&t.panel.lines(&t.plugins, &t.entries, &t.local, true), "beta");
    t.send(click(row + 2, 5));
    assert_eq!(t.panel.discover.detail.as_ref().map(|d| d.name.as_str()), Some("beta"));
    let d = t.panel.lines(&t.plugins, &t.entries, &t.local, true);
    let (_, e) = t.send(click(row_of(&d, "panel-plugin-discover-install-project"), 5));
    assert!(matches!(&e, PluginEffect::Install { into: "project", .. }));
}

#[test]
fn a_click_beside_the_actions_goes_to_the_list() {
    let mut t = Table::new();
    t.press(KeyCode::Enter);
    assert_eq!(t.panel.detail_plugin_idx, Some(0));
    t.send(click(9, 5));
    assert_eq!(t.panel.detail_plugin_idx, Some(1));
    assert_eq!(t.panel.selected, 1);
    let mut t = Table::new();
    t.panel.active_tab = PluginViewTab::Marketplaces;
    t.press(KeyCode::Down);
    t.press(KeyCode::Enter);
    assert_eq!(t.panel.marketplace_detail, Some(1));
    t.send(click(4, 5));
    assert!(t.panel.add_marketplace_active);
    let mut t = Table::new();
    t.panel.active_tab = PluginViewTab::Errors;
    t.panel.detail_plugin_idx = Some(0);
    assert!(matches!(t.send(click(9, 5)), (EventResult::Consumed, PluginEffect::Nothing)));
    assert_eq!(t.panel.detail_plugin_idx, Some(0));
}

#[test]
fn however_many_marketplaces_there_are_the_first_is_clicked() {
    let mut t = Table::new();
    t.panel.active_tab = PluginViewTab::Marketplaces;
    t.entries = (0..65536).map(|_| entry("x")).collect();
    t.send(click(6, 5));
    assert_eq!(t.panel.marketplace_detail, Some(1));
}

#[test]
fn a_late_answer_never_replaces_a_newer_one() {
    let mut t = Table::new();
    t.press(KeyCode::Tab);
    t.panel.discover.reset_session(SearchSession::current("s", 0));
    t.press(KeyCode::Char('g'));
    let mut launch = || match t.press(KeyCode::Enter) {
        PluginEffect::LaunchSearch(ticket) => ticket,
        _ => panic!("a search is launched"),
    };
    let first = launch();
    let second = launch();
    for cancelled in [true, false] {
        assert!(!t.panel.discover.complete(&first, cancelled, Ok(vec![offer("old")])));
    }
    assert!(matches!(t.panel.discover.status, SearchState::Loading));
    assert!(t.panel.discover.complete(&second, false, Ok(vec![offer("new")])));
    assert!(!t.panel.discover.complete(&first, false, Err("late".into())));
    assert!(matches!(t.panel.discover.status, SearchState::Idle));
    assert_eq!(t.panel.discover.visible_items(&t.local)[0].name, "new");
}
