//! The search of the plugin catalog, and what is read of the marketplaces.

use peri_kit::doc::{ArgValue, Words};
use peri_kit::event::{Event, KeyCode, KeyEvent, MouseEvent, MouseKind, Rect};
use peri_kit::json::parse_json;
use peri_kit::panels::plugin::data::{
    add_marketplace, collect_market, decode_results, marketplace_entry_of, ReadManifest, discover_catalog, lacks_official, marketplace_entry,
    may_deliver, official_marketplace, remove_marketplace, repo_name, source_label, KnownMarketplace,
    MarketManifest, MarketplaceSource, SearchFailure, StoredManifest,
};
use peri_kit::panels::plugin::discover::{DiscoverState, SearchSession, SearchState, SearchTicket};
use peri_kit::panels::plugin::discover_handler::{apply, decide, SearchAction, SearchEffect};
use peri_kit::panels::plugin::render::render_discover_list;
use peri_kit::panels::plugin::types::{MsStatus, PluginSearchResultItem};

fn session(id: &str) -> SearchSession {
    SearchSession::current(id, 0)
}

fn item(name: &str) -> PluginSearchResultItem {
    PluginSearchResultItem {
        name: name.into(),
        version: "1".into(),
        marketplace: "remote-market".into(),
        description: "compiler".into(),
        author: None,
    }
}

fn words(w: &Words) -> String {
    match w {
        Words::Literal(s) => s.clone(),
        Words::Message { key, args } => {
            let mut s = key.clone();
            for a in args {
                if let ArgValue::Text(t) = &a.value {
                    s.push(' ');
                    s.push_str(t);
                }
            }
            s
        }
    }
}

fn discover_text(state: &DiscoverState) -> String {
    let local = vec![];
    let entries = state.visible_items(&local);
    let d = render_discover_list(
        &state.editor.text,
        false,
        &state.status,
        &entries,
        &vec![],
        0,
        0,
        5,
    );
    d.lines
        .iter()
        .map(|l| l.pieces.iter().map(|p| words(&p.words)).collect::<String>())
        .collect::<Vec<_>>()
        .join("\n")
}

fn searching() -> (DiscoverState, SearchTicket) {
    let mut state = DiscoverState::default();
    state.reset_session(session("s"));
    state.editor.insert_str("compiler");
    let ticket = state.begin_search(session("s")).unwrap();
    (state, ticket)
}

fn reply(name: &str) -> Result<Vec<PluginSearchResultItem>, String> {
    let text = format!(
        "{{\"results\":[{{\"name\":\"{name}\",\"version\":\"1\",\"description\":\"compiler\",\"marketplace\":\"remote-market\"}}]}}"
    );
    decode_results(&parse_json(&text).unwrap()).map_err(|_| "invalid".to_string())
}

#[test]
fn plugin_search_completion_shows_results_and_search_input() {
    let (mut state, ticket) = searching();
    assert_eq!(ticket.query, "compiler");
    assert!(discover_text(&state).contains("panel-plugin-search-loading"));
    assert!(state.complete(&ticket, false, reply("compiler-helper")));
    let text = discover_text(&state);
    assert!(text.contains("compiler-helper"));
    assert!(text.contains("> compiler"));
    assert!(!text.contains("panel-plugin-search-loading"));
}

#[test]
fn plugin_search_completion_reports_error_and_allows_retry() {
    let (mut state, ticket) = searching();
    assert!(state.complete(&ticket, false, Err("catalog unavailable".into())));
    let text = discover_text(&state);
    assert!(text.contains("catalog unavailable"));
    assert!(text.contains("> compiler"));
    assert!(!text.contains("panel-plugin-search-loading"));
    let retry = state.begin_search(session("s")).unwrap();
    assert!(state.complete(&retry, false, reply("retry-result")));
    assert!(discover_text(&state).contains("retry-result"));
}

#[test]
fn plugin_search_same_query_late_response_cannot_replace_newer_result() {
    let (mut state, first) = searching();
    let second = state.begin_search(session("s")).unwrap();
    assert!(state.complete(&second, false, reply("new-result")));
    assert!(!state.complete(&first, false, reply("old-result")));
    let text = discover_text(&state);
    assert!(text.contains("new-result"));
    assert!(!text.contains("old-result"));
}

#[test]
fn plugin_search_session_switch_and_close_invalidate_pending_response() {
    for reason in ["switch", "reset", "close"] {
        let (mut state, ticket) = searching();
        match reason {
            "close" => state.close(),
            "reset" => state.reset_session(SearchSession::current("s", 1)),
            _ => state.reset_session(session("after")),
        }
        assert!(!state.complete(&ticket, false, reply("stale-result")));
        assert!(!discover_text(&state).contains("stale-result"));
        assert_eq!(state.editor.all_text(), "");
        assert!(matches!(state.status, SearchState::Idle));
    }
}

#[test]
fn plugin_search_busy_projection_retries_once_accepted_or_exits_on_cancel() {
    let (mut state, ticket) = searching();
    assert!(may_deliver(&ticket, false, &session("s")));
    assert!(!may_deliver(&ticket, true, &session("s")));
    assert!(!may_deliver(&ticket, false, &session("other")));
    assert!(!state.complete(&ticket, true, reply("delivered-after-render")));
    assert!(discover_text(&state).contains("panel-plugin-search-loading"));
    assert!(state.complete(&ticket, false, reply("delivered-after-render")));
    assert!(discover_text(&state).contains("delivered-after-render"));
}

#[test]
fn plugin_search_empty_response_does_not_fall_back_to_local_catalog() {
    let (mut state, ticket) = searching();
    let local = vec![item("local-match")];
    assert_eq!(state.visible_items(&local).len(), 1);
    let empty = decode_results(&parse_json("{\"results\":[]}").unwrap()).unwrap();
    state.complete(&ticket, false, Ok(empty));
    assert!(state.visible_items(&local).is_empty());
    assert!(discover_text(&state).contains("panel-plugin-search-no-results"));
}

#[test]
fn plugin_search_invalid_response_leaves_loading_with_editable_input() {
    let (mut state, first) = searching();
    let mut ticket = first;
    for text in ["{}", "{\"results\":[{\"name\":\"incomplete\"}]}"] {
        let result = decode_results(&parse_json(text).unwrap());
        assert!(matches!(result, Err(SearchFailure::InvalidResponse)));
        state.complete(&ticket, false, Err("panel-plugin-search-invalid-response".into()));
        let shown = discover_text(&state);
        assert!(shown.contains("panel-plugin-search-invalid-response"));
        assert!(shown.contains("> compiler"));
        assert!(!shown.contains("panel-plugin-search-loading"));
        ticket = state.begin_search(session("s")).unwrap();
    }
}

#[test]
fn plugin_search_keyboard_and_mouse_reach_the_same_submission_action() {
    let mut state = DiscoverState::default();
    state.reset_session(session("s"));
    let local = vec![];
    let area = Some(Rect::new(0, 0, 80, 20));
    let key = |code| Event::Key(KeyEvent::plain(code));
    for c in "compiler".chars() {
        let action = decide(&key(KeyCode::Char(c)), area, &state, &local);
        assert!(matches!(apply(&mut state, action, &local), SearchEffect::Consumed));
    }
    assert!(state.focused);
    assert_eq!(decide(&key(KeyCode::Enter), area, &state, &local), SearchAction::Submit);
    let click = Event::Mouse(MouseEvent { kind: MouseKind::LeftDown, column: 3, row: 4 });
    state.focused = false;
    assert_eq!(decide(&click, area, &state, &local), SearchAction::FocusInput);
    assert!(matches!(
        apply(&mut state, SearchAction::FocusInput, &local),
        SearchEffect::Consumed
    ));
    assert_eq!(decide(&click, area, &state, &local), SearchAction::Submit);
    assert!(matches!(apply(&mut state, SearchAction::Submit, &local), SearchEffect::Submit));
}

#[test]
fn plugin_search_remote_selection_uses_the_displayed_identity_for_detail_and_install() {
    let local = vec![item("different-local-plugin")];
    for mouse in [false, true] {
        let (mut state, ticket) = searching();
        state.complete(&ticket, false, Ok(vec![item("remote-selection")]));
        state.focused = false;
        let event = if mouse {
            Event::Mouse(MouseEvent { kind: MouseKind::LeftDown, column: 3, row: 6 })
        } else {
            Event::Key(KeyEvent::plain(KeyCode::Enter))
        };
        let action = decide(&event, Some(Rect::new(0, 0, 80, 20)), &state, &local);
        assert!(matches!(apply(&mut state, action, &local), SearchEffect::Consumed));
        assert_eq!(state.detail.as_ref().unwrap().name, "remote-selection");
        match apply(&mut state, SearchAction::DetailAction(1), &local) {
            SearchEffect::Install { item, scope } => {
                assert_eq!(item.name, "remote-selection");
                assert_eq!(item.marketplace, "remote-market");
                assert_eq!(scope, "project");
            }
            _ => panic!("must install"),
        }
        assert!(state.detail.is_none());
    }
}

#[test]
fn the_local_catalog_is_searched_without_regard_to_case() {
    let mut state = DiscoverState::default();
    state.reset_session(session("s"));
    state.editor.insert_str("COMPIL");
    let local = vec![item("one"), PluginSearchResultItem { description: "else".into(), ..item("x") }];
    let shown = state.visible_items(&local);
    assert_eq!(shown.len(), 1);
    assert_eq!(shown[0].name, "one");
}

fn known(name: &str, source: MarketplaceSource) -> KnownMarketplace {
    KnownMarketplace {
        name: name.into(),
        source,
        install_location: "/cache".into(),
        auto_update: true,
        last_updated: String::new(),
    }
}

#[test]
fn a_marketplace_is_as_fresh_as_its_manifest() {
    let k = known("m", MarketplaceSource::GitHub { repo: "a/m".into() });
    let manifest = |age: u64, text: &str| {
        Some(StoredManifest { age_secs: Some(age), content: Some(text.to_string()) })
    };
    let ids = vec!["p@m".to_string(), "q@other".to_string(), "r".to_string()];
    let e = marketplace_entry(&k, &manifest(10, "{\"plugins\": [1, 2, 3]}"), &ids);
    assert_eq!(e.status, MsStatus::Cached);
    assert_eq!((e.plugin_count, e.installed_count), (3, 1));
    assert_eq!(e.source_label, "github:a/m");
    assert!(e.last_updated.is_none());
    assert_eq!(
        marketplace_entry(&k, &manifest(86_401, "{}"), &ids).status,
        MsStatus::Stale
    );
    assert_eq!(
        marketplace_entry(&k, &manifest(86_400, "{}"), &ids).status,
        MsStatus::Cached
    );
    assert_eq!(marketplace_entry(&k, &manifest(1, "{"), &ids).status, MsStatus::Failed);
    assert_eq!(marketplace_entry(&k, &None, &ids).status, MsStatus::NotFound);
    let lost = KnownMarketplace { install_location: String::new(), ..k };
    assert_eq!(marketplace_entry(&lost, &manifest(1, "{}"), &ids).status, MsStatus::NotFound);
}

#[test]
fn sources_are_labelled_by_their_kind() {
    assert_eq!(source_label(&MarketplaceSource::Git { url: "u".into() }), "git:u");
    assert_eq!(source_label(&MarketplaceSource::Url { url: "u".into() }), "u");
    assert_eq!(source_label(&MarketplaceSource::Directory { path: "/d".into() }), "/d");
    assert_eq!(source_label(&MarketplaceSource::File { path: "/f".into() }), "/f");
    assert_eq!(source_label(&MarketplaceSource::Npm { package: "p".into() }), "npm:p");
}

#[test]
fn the_catalog_offers_what_is_not_installed() {
    let text = "{\"plugins\": [
        {\"name\": \"a\", \"version\": \"2\", \"author\": {\"name\": \"ann\"}, \"description\": \"d\"},
        {\"name\": \"b\", \"author\": \"bob\", \"version\": \"\"},
        {\"name\": \"\"},
        {\"name\": \"c\"}
    ]}";
    let markets = vec![
        MarketManifest { name: "m".into(), content: Some(text.to_string()) },
        MarketManifest { name: "n".into(), content: None },
        MarketManifest { name: "o".into(), content: Some("[".into()) },
    ];
    let items = discover_catalog(&markets, &vec!["c@m".to_string()]);
    assert_eq!(items.len(), 2);
    assert_eq!((items[0].name.as_str(), items[0].version.as_str()), ("a", "2"));
    assert_eq!(items[0].author.as_deref(), Some("ann"));
    assert_eq!(items[0].description, "d");
    assert_eq!((items[1].name.as_str(), items[1].version.as_str()), ("b", "—"));
    assert_eq!(items[1].author.as_deref(), Some("bob"));
    assert_eq!(items[1].marketplace, "m");
}

#[test]
fn the_official_marketplace_is_added_once() {
    let mut list = vec![known("m", MarketplaceSource::Git { url: "u".into() })];
    assert!(lacks_official(&list, "team/team-plugins-official"));
    list.push(official_marketplace(
        "team/team-plugins-official",
        "team-plugins-official",
        "/cache/official",
    ));
    assert!(!lacks_official(&list, "team/team-plugins-official"));
    assert!(list[1].auto_update);
    assert!(!add_marketplace(&mut list, "other", MarketplaceSource::Git { url: "u".into() }));
    assert!(add_marketplace(&mut list, "n", MarketplaceSource::Git { url: "v".into() }));
    let list = remove_marketplace(list, "m");
    assert_eq!(list.iter().map(|k| k.name.as_str()).collect::<Vec<_>>(), vec![
        "team-plugins-official",
        "n"
    ]);
}

#[test]
fn a_manifest_that_was_read_is_counted_and_offered() {
    let known = KnownMarketplace {
        name: "m".into(),
        source: MarketplaceSource::Npm { package: "pk".into() },
        install_location: "/m".into(),
        auto_update: false,
        last_updated: String::new(),
    };
    let value = parse_json(
        "{\"plugins\": [{\"name\": \"a\", \"author\": {\"name\": \"x\"}}, {\"name\": \"b\"}, {}]}",
    );
    let ids = vec!["b@m".to_string()];
    let mut out = vec![];
    collect_market(&mut out, &value, "m", &ids);
    assert_eq!(out.len(), 1);
    assert_eq!((out[0].name.as_str(), out[0].author.as_deref()), ("a", Some("x")));
    assert_eq!(out[0].version, "—");
    let read = Some(ReadManifest { age_secs: Some(86_401), value });
    let e = marketplace_entry_of(&known, &read, &ids);
    assert_eq!((e.plugin_count, e.installed_count, e.status), (3, 1, MsStatus::Stale));
    assert_eq!(e.source_label, "npm:pk");
    let read = Some(ReadManifest { age_secs: None, value: None });
    assert_eq!(marketplace_entry_of(&known, &read, &ids).status, MsStatus::Failed);
    assert_eq!(marketplace_entry_of(&known, &None, &ids).status, MsStatus::NotFound);
}

#[test]
fn a_repository_is_named_by_its_last_part() {
    assert_eq!(repo_name("team/team-plugins-official"), "team-plugins-official");
    assert_eq!(repo_name("a/b/c"), "c");
    assert_eq!(repo_name("alone"), "alone");
    assert_eq!(repo_name("a/"), "");
    assert_eq!(repo_name(""), "");
}
