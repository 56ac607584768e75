//! Looking for plugins, and what is done with them.

use crate::event::{Event, KeyCode, KeyEvent, Rect};
use crate::json::{member, JsonV};
use crate::panels::plugin::discover::{matching, DiscoverV, SessionV, StatusV, TicketV};
use crate::panels::plugin::discover_handler::{catalog_step, DiscoverEffectV};
use crate::panels::plugin::panel_handler::{request_spec, ConfirmAction, EffectV, PanelV};
use crate::panels::plugin::search_handler::whole_step;
use crate::panels::plugin::types::{EntryV, ItemV, PluginV, PluginViewTab};
use crate::text::{contains_spec, lowercase_of};
use vstd::prelude::*;

verus! {

proof fn lemma_matching(items: Seq<ItemV>, query: Seq<char>)
    ensures
        matching(items, query) == items.filter(
            |item: ItemV|
                query.len() == 0 || contains_spec(lowercase_of(item.name), query) || contains_spec(
                    lowercase_of(item.description),
                    query,
                ) || contains_spec(lowercase_of(item.marketplace), query),
        ),
    decreases items.len(),
{
    reveal(Seq::filter);
    if items.len() > 0 {
        lemma_matching(items.drop_last(), query);
    }
}

/// Before a search is answered, every plugin of the catalog is shown whose name, description or
/// marketplace holds the query, in the order of the catalog; after it, what it found.
pub proof fn the_query_chooses_what_is_shown(d: DiscoverV, local: Seq<ItemV>)
    ensures
        d.results is None ==> d.visible(local) == local.filter(
            |item: ItemV|
                lowercase_of(d.editor.now.text).len() == 0 || contains_spec(
                    lowercase_of(item.name),
                    lowercase_of(d.editor.now.text),
                ) || contains_spec(
                    lowercase_of(item.description),
                    lowercase_of(d.editor.now.text),
                ) || contains_spec(
                    lowercase_of(item.marketplace),
                    lowercase_of(d.editor.now.text),
                ),
        ),
        d.results matches Some(found) ==> d.visible(local) == found,
{
    let query = lowercase_of(d.editor.now.text);
    lemma_matching(local, query);
    assert(local.filter(
        |item: ItemV|
            query.len() == 0 || contains_spec(lowercase_of(item.name), query) || contains_spec(
                lowercase_of(item.description),
                query,
            ) || contains_spec(lowercase_of(item.marketplace), query),
    ) =~= local.filter(
        |item: ItemV|
            lowercase_of(d.editor.now.text).len() == 0 || contains_spec(
                lowercase_of(item.name),
                lowercase_of(d.editor.now.text),
            ) || contains_spec(
                lowercase_of(item.description),
                lowercase_of(d.editor.now.text),
            ) || contains_spec(lowercase_of(item.marketplace), lowercase_of(d.editor.now.text)),
    )) by {
        lemma_same_filter(local, query, d);
    }
}

proof fn lemma_same_filter(local: Seq<ItemV>, query: Seq<char>, d: DiscoverV)
    requires
        query == lowercase_of(d.editor.now.text),
    ensures
        local.filter(
            |item: ItemV|
                query.len() == 0 || contains_spec(lowercase_of(item.name), query) || contains_spec(
                    lowercase_of(item.description),
                    query,
                ) || contains_spec(lowercase_of(item.marketplace), query),
        ) == local.filter(
            |item: ItemV|
                lowercase_of(d.editor.now.text).len() == 0 || contains_spec(
                    lowercase_of(item.name),
                    lowercase_of(d.editor.now.text),
                ) || contains_spec(
                    lowercase_of(item.description),
                    lowercase_of(d.editor.now.text),
                ) || contains_spec(
                    lowercase_of(item.marketplace),
                    lowercase_of(d.editor.now.text),
                ),
        ),
    decreases local.len(),
{
    reveal(Seq::filter);
    if local.len() > 0 {
        lemma_same_filter(local.drop_last(), query, d);
    }
}

/// Enter in the search field sends the query under the session, and what was found before is no
/// longer shown; without a query nothing is sent.
pub proof fn enter_searches_for_the_query(
    d: DiscoverV,
    key: KeyEvent,
    area: Option<Rect>,
    local: Seq<ItemV>,
    session: SessionV,
)
    requires
        key.press,
        key.code == KeyCode::Enter,
        d.detail is None,
        d.focused,
        d.generation < u64::MAX,
    ensures
        ({
            let (n, r, e) = catalog_step(d, Event::Key(key), area, local, session);
            &&& r is Consumed
            &&& d.editor.now.text.len() > 0 && d.session == session ==> {
                &&& e == DiscoverEffectV::LaunchSearch(
                    TicketV {
                        generation: (d.generation + 1) as u64,
                        session,
                        query: d.editor.now.text,
                    },
                )
                &&& n.generation == d.generation + 1
                &&& n.pending == Some(n.generation)
                &&& n.status is Loading
                &&& n.results is None
                &&& n.editor == d.editor
                &&& n.session == session
            }
            &&& d.editor.now.text.len() == 0 ==> e is Nothing && n == d
            &&& d.session != session ==> e is Nothing
        }),
{
}

/// An answer is taken exactly where it is to the search under way; what it found is shown, and a
/// failure is told.
pub proof fn the_answer_is_shown(
    d: DiscoverV,
    t: TicketV,
    found: Seq<ItemV>,
    why: Seq<char>,
    local: Seq<ItemV>,
)
    ensures
        d.accepts(t, false) <==> t.generation == d.generation && t.session == d.session,
        !d.accepts(t, true),
        d.answered(Ok(found)).visible(local) == found,
        d.answered(Ok(found)).status is Idle,
        d.answered(Ok(found)).selected == 0,
        d.answered(Err(why)).status == StatusV::Error(why),
        d.answered(Err(why)).visible(local).len() == 0,
        d.answered(Ok(found)).pending is None && d.answered(Err(why)).pending is None,
        d.answered(Ok(found)).session == d.session && d.answered(Ok(found)).generation
            == d.generation,
{
}

/// A key that is a character goes into the query, and what was found for another query is no
/// longer shown, nor is its answer waited for.
pub proof fn a_new_query_forgets_the_old_answer(
    d: DiscoverV,
    key: KeyEvent,
    c: char,
    area: Option<Rect>,
    local: Seq<ItemV>,
    session: SessionV,
)
    requires
        key.press,
        key.code == KeyCode::Char(c),
        d.detail is None,
        d.generation < u64::MAX,
        0 <= d.editor.now.cursor <= d.editor.now.text.len(),
    ensures
        ({
            let (n, r, e) = catalog_step(d, Event::Key(key), area, local, session);
            &&& r is Consumed && e is Nothing
            &&& n.editor.now.text == d.editor.now.text.insert(d.editor.now.cursor, c)
            &&& n.editor.now.cursor == d.editor.now.cursor + 1
            &&& n.results is None && n.pending is None && n.generation == d.generation + 1
            &&& n.status is Idle && n.selected == 0 && n.focused
        }),
{
    let (n, r, e) = catalog_step(d, Event::Key(key), area, local, session);
    assert(n.editor.now.text =~= d.editor.now.text.insert(d.editor.now.cursor, c));
}

/// Enter on a plugin that is shown opens that plugin; then the first action installs it for the
/// user, the second for the project, and the third goes back.
pub proof fn the_plugin_that_is_shown_is_installed(
    p: PanelV,
    key: KeyEvent,
    area: Option<Rect>,
    plugins: Seq<PluginV>,
    entries: Seq<EntryV>,
    local: Seq<ItemV>,
    session: SessionV,
    item: ItemV,
)
    requires
        key.press,
        key.code == KeyCode::Enter,
        p.tab == PluginViewTab::Discover,
        p.detail is None && p.market is None && p.confirm is None,
        !p.add_active,
        p.loading is None,
    ensures
        ({
            let d = p.discover;
            let (q, r, e) = whole_step(p, Event::Key(key), area, plugins, entries, local, session);
            &&& d.detail is None && !d.focused && d.status is Idle && 0 <= d.selected < d.visible(
                local,
            ).len() <= usize::MAX ==> q.discover.detail == Some(d.visible(local)[d.selected]) && q.discover.detail_action
                == 0 && e is Nothing
            &&& d.detail == Some(item) && d.detail_action == 0 ==> e == EffectV::Install(
                item,
                "user"@,
            ) && q.discover.detail is None
            &&& d.detail == Some(item) && d.detail_action == 1 ==> e == EffectV::Install(
                item,
                "project"@,
            ) && q.discover.detail is None
            &&& d.detail == Some(item) && d.detail_action == 2 ==> e is Nothing
                && q.discover.detail is None
            &&& r is Consumed
        }),
{
}

/// Enter on an installed plugin opens it; there the first action turns it on or off, the second
/// asks whether to uninstall it, the third updates it and the fourth goes back. Each names that
/// plugin, by its name and its marketplace.
pub proof fn actions_name_the_plugin(
    p: PanelV,
    key: KeyEvent,
    area: Option<Rect>,
    plugins: Seq<PluginV>,
    entries: Seq<EntryV>,
    local: Seq<ItemV>,
    session: SessionV,
    i: int,
)
    requires
        key.press,
        key.code == KeyCode::Enter,
        p.market is None && p.confirm is None,
        !p.add_active,
        p.loading is None,
        0 <= i < plugins.len(),
    ensures
        ({
            let (q, r, e) = whole_step(p, Event::Key(key), area, plugins, entries, local, session);
            let id = if plugins[i].marketplace.len() == 0 {
                plugins[i].name
            } else {
                plugins[i].name + "@"@ + plugins[i].marketplace
            };
            &&& r is Consumed || p.tab == PluginViewTab::Discover
            &&& p.detail is None && p.tab == PluginViewTab::Installed && p.selected == i
                ==> q.detail == Some(i) && q.action == 0 && e is Nothing
            &&& p.detail == Some(i) && p.action == 0 ==> e == EffectV::Toggle(
                id,
                !plugins[i].enabled,
                plugins[i].scope,
            ) && q.detail is None && q.loading is Some
            &&& p.detail == Some(i) && p.action == 1 ==> e is Nothing && q.confirm == Some(
                ConfirmAction::Uninstall,
            ) && q.detail == Some(i)
            &&& p.detail == Some(i) && p.action == 2 ==> e == EffectV::Update(id)
                && q.detail is None && q.loading is Some
            &&& p.detail == Some(i) && p.action == 3 ==> e is Nothing && q.detail is None
                && q.confirm is None
        }),
{
}

/// Only a confirmed question uninstalls a plugin or removes a marketplace, and what it asked
/// about; any other key takes the question back.
pub proof fn only_confirmation_removes(
    p: PanelV,
    key: KeyEvent,
    area: Option<Rect>,
    plugins: Seq<PluginV>,
    entries: Seq<EntryV>,
    local: Seq<ItemV>,
    session: SessionV,
    i: int,
    name: Seq<char>,
)
    requires
        key.press,
    ensures
        ({
            let (q, r, e) = whole_step(p, Event::Key(key), area, plugins, entries, local, session);
            &&& e is Uninstall || e is DeleteMarketplace ==> p.confirm is Some && p.market is None
                && key.code == KeyCode::Enter
            &&& p.confirm == Some(ConfirmAction::Uninstall) && p.market is None && p.detail == Some(
                i,
            ) && 0 <= i < plugins.len() && key.code == KeyCode::Enter ==> q.confirm is None
                && q.detail is None && e == EffectV::Uninstall(
                if plugins[i].marketplace.len() == 0 {
                    plugins[i].name
                } else {
                    plugins[i].name + "@"@ + plugins[i].marketplace
                },
            )
            &&& p.confirm == Some(ConfirmAction::DeleteMarketplace) && p.market is None
                && p.loading == Some(name) && key.code == KeyCode::Enter ==> e
                == EffectV::DeleteMarketplace(name)
            &&& p.confirm is Some && p.market is None && p.detail is None && key.code
                != KeyCode::Enter ==> q.confirm is None && e is Nothing
        }),
{
}

/// Enter on a marketplace opens it; there the first action refreshes it and the second asks
/// whether to remove it. Enter on the row in front of them opens the field for an address.
pub proof fn actions_name_the_marketplace(
    p: PanelV,
    key: KeyEvent,
    area: Option<Rect>,
    plugins: Seq<PluginV>,
    entries: Seq<EntryV>,
    local: Seq<ItemV>,
    session: SessionV,
    i: int,
)
    requires
        key.press,
        key.code == KeyCode::Enter,
        p.detail is None && p.confirm is None,
        !p.add_active,
        p.loading is None,
        p.tab == PluginViewTab::Marketplaces,
        0 <= i < entries.len(),
    ensures
        ({
            let (q, r, e) = whole_step(p, Event::Key(key), area, plugins, entries, local, session);
            &&& r is Consumed
            &&& p.market is None && p.selected == i + 1 ==> q.market == Some(i + 1)
                && q.market_action == 0 && e is Nothing
            &&& p.market is None && p.selected == 0 ==> q.add_active
                && q.add_input.now.text.len() == 0 && e is Nothing
            &&& p.market == Some(i + 1) && p.market_action == 0 ==> e
                == EffectV::RefreshMarketplace(entries[i].source_label) && q.refreshing
                && q.market is None
            &&& p.market == Some(i + 1) && p.market_action == 1 ==> e is Nothing && q.confirm
                == Some(ConfirmAction::DeleteMarketplace) && q.loading == Some(entries[i].name)
                && q.market is None
        }),
{
}

/// Enter in the field for an address adds the marketplace of that address; without an address
/// nothing is added. Characters go into the field.
pub proof fn the_address_is_added(
    p: PanelV,
    key: KeyEvent,
    area: Option<Rect>,
    plugins: Seq<PluginV>,
    entries: Seq<EntryV>,
    local: Seq<ItemV>,
    session: SessionV,
    c: char,
)
    requires
        key.press,
        p.add_active,
        p.detail is None && p.market is None && p.confirm is None,
        0 <= p.add_input.now.cursor <= p.add_input.now.text.len(),
    ensures
        ({
            let (q, r, e) = whole_step(p, Event::Key(key), area, plugins, entries, local, session);
            &&& key.code == KeyCode::Enter ==> !q.add_active && q.add_input.now.text.len() == 0
                && r is Consumed && e == (if p.add_input.now.text.len() > 0 {
                EffectV::AddMarketplace(p.add_input.now.text)
            } else {
                EffectV::Nothing
            })
            &&& key.code == KeyCode::Char(c) ==> q.add_active && e is Nothing
                && q.add_input.now.text == p.add_input.now.text.insert(p.add_input.now.cursor, c)
                && q.add_input.now.cursor == p.add_input.now.cursor + 1
            &&& key.code == KeyCode::Backspace && p.add_input.now.cursor > 0 ==> e is Nothing
                && q.add_input.now.text == p.add_input.now.text.remove(p.add_input.now.cursor - 1)
                && q.add_input.now.cursor == p.add_input.now.cursor - 1
        }),
{
    let t = p.add_input.now;
    if 0 < t.cursor {
        assert(t.text.take(t.cursor - 1) + t.text.skip(t.cursor) =~= t.text.remove(t.cursor - 1));
    }
    assert(t.text.take(t.cursor) + seq![c] + t.text.skip(t.cursor) =~= t.text.insert(t.cursor, c));
}

/// The tabs follow one another in a circle of four, and each begins at its first row; the arrows
/// lead from row to row, not beyond the first and the last.
pub proof fn tabs_and_rows_follow_one_another(
    p: PanelV,
    key: KeyEvent,
    back: KeyEvent,
    area: Option<Rect>,
    plugins: Seq<PluginV>,
    entries: Seq<EntryV>,
    local: Seq<ItemV>,
    session: SessionV,
)
    requires
        key.press && back.press,
        back.code == KeyCode::BackTab,
        p.detail is None && p.market is None && p.confirm is None,
        !p.add_active,
        p.loading is None,
        p.discover.detail is None,
    ensures
        ({
            let q = whole_step(p, Event::Key(key), area, plugins, entries, local, session).0;
            let again = whole_step(q, Event::Key(back), area, plugins, entries, local, session).0;
            &&& key.code == KeyCode::Tab ==> q.tab != p.tab && q.selected == 0
                && q.discover.selected == 0 && again.tab == p.tab
            &&& p.tab == PluginViewTab::Installed && key.code == KeyCode::Tab ==> q.tab
                == PluginViewTab::Discover
            &&& p.tab == PluginViewTab::Discover && key.code == KeyCode::Tab ==> q.tab
                == PluginViewTab::Marketplaces
            &&& p.tab == PluginViewTab::Marketplaces && key.code == KeyCode::Tab ==> q.tab
                == PluginViewTab::Errors
            &&& p.tab == PluginViewTab::Errors && key.code == KeyCode::Tab ==> q.tab
                == PluginViewTab::Installed
            &&& p.tab == PluginViewTab::Installed && 0 <= p.selected < plugins.len() ==> {
                &&& key.code == KeyCode::Down ==> q.selected == (if p.selected + 1 < plugins.len() {
                    p.selected + 1
                } else {
                    p.selected
                })
                &&& key.code == KeyCode::Up ==> q.selected == (if p.selected > 0 {
                    p.selected - 1
                } else {
                    0
                })
            }
            &&& p.tab == PluginViewTab::Marketplaces && 0 <= p.selected <= entries.len() ==> {
                &&& key.code == KeyCode::Down ==> q.selected == (if p.selected < entries.len() {
                    p.selected + 1
                } else {
                    p.selected
                })
                &&& key.code == KeyCode::Up ==> q.selected == (if p.selected > 0 {
                    p.selected - 1
                } else {
                    0
                })
            }
        }),
{
}

/// What is asked of the other side names the plugin, the marketplace or the query, what is to be
/// done with it, and the session.
pub proof fn requests_say_what_is_done(
    id: Seq<char>,
    on: bool,
    scope: Seq<char>,
    item: ItemV,
    t: TicketV,
    session_id: Seq<char>,
)
    ensures
        request_spec(EffectV::Uninstall(id), session_id) matches Some((method, params)) && method
            == "plugin/uninstall"@ && params is Object && member(params->Object_0, "pluginId"@)
            == Some(JsonV::Str(id)) && member(params->Object_0, "sessionId"@) == Some(
            JsonV::Str(session_id),
        ),
        request_spec(EffectV::Toggle(id, on, scope), session_id) matches Some((method, params))
            && method == "plugin/toggle"@ && params is Object && member(
            params->Object_0,
            "pluginId"@,
        ) == Some(JsonV::Str(id)) && member(params->Object_0, "enable"@) == Some(JsonV::Bool(on))
            && member(params->Object_0, "scope"@) == Some(JsonV::Str(scope)) && member(
            params->Object_0,
            "sessionId"@,
        ) == Some(JsonV::Str(session_id)),
        request_spec(EffectV::Update(id), session_id) matches Some((method, params)) && method
            == "plugin/update"@ && params is Object && member(params->Object_0, "pluginId"@)
            == Some(JsonV::Str(id)) && member(params->Object_0, "sessionId"@) == Some(
            JsonV::Str(session_id),
        ),
        request_spec(EffectV::Install(item, scope), session_id) matches Some((method, params))
            && method == "plugin/install"@ && params is Object && member(params->Object_0, "name"@)
            == Some(JsonV::Str(item.name)) && member(params->Object_0, "marketplace"@) == Some(
            JsonV::Str(item.marketplace),
        ) && member(params->Object_0, "scope"@) == Some(JsonV::Str(scope)) && member(
            params->Object_0,
            "sessionId"@,
        ) == Some(JsonV::Str(session_id)),
        request_spec(EffectV::LaunchSearch(t), session_id) matches Some((method, params)) && method
            == "plugin/search"@ && params is Object && member(params->Object_0, "query"@) == Some(
            JsonV::Str(t.query),
        ) && member(params->Object_0, "sessionId"@) == Some(JsonV::Str(t.session.id)),
        request_spec(EffectV::RefreshMarketplace(id), session_id) matches Some((method, params))
            && method == "marketplace/refresh"@ && params is Object && member(
            params->Object_0,
            "name"@,
        ) == Some(JsonV::Str(id)) && member(params->Object_0, "sessionId"@) == Some(
            JsonV::Str(session_id),
        ),
{
    reveal_with_fuel(member, 5);
    reveal_strlit("pluginId");
    reveal_strlit("sessionId");
    reveal_strlit("enable");
    reveal_strlit("scope");
    reveal_strlit("name");
    reveal_strlit("marketplace");
    reveal_strlit("query");
    assert("pluginId"@.len() == 8 && "sessionId"@.len() == 9 && "enable"@.len() == 6
        && "scope"@.len() == 5 && "name"@.len() == 4 && "marketplace"@.len() == 11
        && "query"@.len() == 5);
    assert("scope"@[0] == 's' && "query"@[0] == 'q');
}

/// The arrows lead through the plugins shown, from the first one up into the search field and from
/// the field down to the plugins; where a plugin is open, they lead through its actions.
pub proof fn arrows_lead_through_the_catalog(
    d: DiscoverV,
    key: KeyEvent,
    area: Option<Rect>,
    local: Seq<ItemV>,
    session: SessionV,
)
    requires
        key.press,
        key.code == KeyCode::Up || key.code == KeyCode::Down,
        0 <= d.selected < d.visible(local).len(),
        0 <= d.detail_action < 3,
    ensures
        ({
            let (n, r, e) = catalog_step(d, Event::Key(key), area, local, session);
            &&& r is Consumed && e is Nothing
            &&& n.editor == d.editor && n.results == d.results && n.generation == d.generation
            &&& d.detail is None && key.code == KeyCode::Up && d.selected > 0 ==> n.selected
                == d.selected - 1
            &&& d.detail is None && key.code == KeyCode::Up && d.selected == 0 ==> n.focused
                && n.selected == 0
            &&& d.detail is None && key.code == KeyCode::Down && d.focused ==> !n.focused
                && n.selected == d.selected
            &&& d.detail is None && key.code == KeyCode::Down && !d.focused ==> n.selected == (
            if d.selected + 1 < d.visible(local).len() {
                d.selected + 1
            } else {
                d.selected
            })
            &&& d.detail is Some ==> n.detail == d.detail && n.selected == d.selected
            &&& d.detail is Some && key.code == KeyCode::Down ==> n.detail_action == (
            if d.detail_action < 2 {
                d.detail_action + 1
            } else {
                2
            })
            &&& d.detail is Some && key.code == KeyCode::Up ==> n.detail_action == (
            if d.detail_action > 0 {
                d.detail_action - 1
            } else {
                0
            })
        }),
{
}

/// Escape leads one step back: from a plugin to the list, from a query to none, from the field to
/// the list, and from the list out of the panel.
pub proof fn escape_leads_back_in_the_catalog(
    d: DiscoverV,
    key: KeyEvent,
    area: Option<Rect>,
    local: Seq<ItemV>,
    session: SessionV,
)
    requires
        key.press,
        key.code == KeyCode::Esc,
    ensures
        ({
            let (n, r, e) = catalog_step(d, Event::Key(key), area, local, session);
            &&& r is Consumed
            &&& d.detail is Some ==> n.detail is None && e is Nothing && n.editor == d.editor
                && n.selected == d.selected && n.results == d.results
            &&& d.detail is None && d.editor.now.text.len() > 0 ==> n.editor.now.text.len() == 0
                && n.results is None && e is Nothing
            &&& d.detail is None && d.editor.now.text.len() == 0 && d.focused ==> e is Nothing && n
                == (DiscoverV { focused: false, ..d })
            &&& d.detail is None && d.editor.now.text.len() == 0 && !d.focused ==> e is ClosePanel
                && n.results is None && n.pending is None && n.selected == 0 && n.session
                == d.session
        }),
{
}

/// Another session begins with an empty catalog search; the same session changes nothing.
pub proof fn another_session_starts_anew(d: DiscoverV, session: SessionV)
    requires
        d.generation < u64::MAX,
    ensures
        d.session == session ==> d.reset_to(session) == d,
        d.session != session ==> {
            let n = d.reset_to(session);
            &&& n.session == session && n.editor.now.text.len() == 0 && n.results is None
            &&& n.pending is None && n.detail is None && !n.focused && n.status is Idle
            &&& n.generation == d.generation + 1 && n.selected == 0
        },
{
}

/// The arrows lead through the actions of a plugin in a circle, and through those of a marketplace
/// from one to the other.
pub proof fn arrows_lead_through_the_actions(
    p: PanelV,
    key: KeyEvent,
    area: Option<Rect>,
    plugins: Seq<PluginV>,
    entries: Seq<EntryV>,
    local: Seq<ItemV>,
    session: SessionV,
    i: int,
)
    requires
        key.press,
        key.code == KeyCode::Up || key.code == KeyCode::Down,
        p.loading is None && p.confirm is None,
        0 <= p.action < 4,
        0 <= i < plugins.len(),
        !p.add_active,
    ensures
        ({
            let (q, r, e) = whole_step(p, Event::Key(key), area, plugins, entries, local, session);
            &&& p.market is None && p.detail == Some(i) ==> r is Consumed && e is Nothing
                && q.detail == p.detail && q.action == (if key.code == KeyCode::Down {
                if p.action < 3 {
                    p.action + 1
                } else {
                    0
                }
            } else if p.action > 0 {
                p.action - 1
            } else {
                3
            })
            &&& p.market is Some && (p.market_action == 0 || p.market_action == 1)
                ==> r is Consumed && e is Nothing && q.market == p.market && q.market_action == (
            if key.code == KeyCode::Down {
                1int
            } else {
                0
            })
        }),
{
}

} // verus!
