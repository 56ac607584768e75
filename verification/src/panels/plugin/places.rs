//! What the plugin panel shows in a row is what a click on that row reaches.

use crate::event::{Event, EventResult, MouseEvent, MouseKind, Rect};
use crate::list_nav::window_start;
use crate::panel_mouse::{a_line_of_an_item_hits_it, clicks, content_row, hit, ListLayout};
use crate::panels::plugin::discover::{DiscoverV, SessionV, StatusV};
use crate::panels::plugin::discover_handler::{detail_layout, field_layout, install_scope,
    items_layout};
use crate::panels::plugin::panel_handler::{action_layout, add_layout, at, before, entries_layout,
    installed_layout, market_layout, EffectV, PanelV};
use crate::panels::plugin::render::{action_rows, add_rows, catalog_block, catalog_rows, discover_rows,
    field_row, has_name, installed_block, installed_rows, market_block, market_rows, menu_line,
    panel_view, window_end};
use crate::panels::plugin::search_handler::{in_front, whole_step};
use crate::panels::plugin::types::{action_key, actions_of, discover_action_key, discover_actions,
    EntryV, ItemV, PluginAction, PluginV, PluginViewTab, VISIBLE_ITEMS};
use vstd::prelude::*;

verus! {

/// A list is in front: no details, no question and no address field.
pub open spec fn shows_list(p: PanelV) -> bool {
    !in_front(p) && !p.add_active && p.discover.detail is None
}

/// The first item of a list on the screen.
pub open spec fn first_shown(selected: int) -> int {
    window_start(selected, VISIBLE_ITEMS as int)
}

/// The item is on the screen.
pub open spec fn on_screen(selected: int, count: nat, i: int) -> bool {
    first_shown(selected) <= i < window_end(first_shown(selected), VISIBLE_ITEMS as int, count as int)
}

/// The mouse does nothing in the panel but by a left click.
pub proof fn only_a_click_acts(
    p: PanelV,
    m: MouseEvent,
    area: Option<Rect>,
    plugins: Seq<PluginV>,
    entries: Seq<EntryV>,
    local: Seq<ItemV>,
    session: SessionV,
)
    requires
        m.kind != MouseKind::LeftDown,
    ensures
        whole_step(p, Event::Mouse(m), area, plugins, entries, local, session) == (
            p,
            EventResult::Ignored,
            EffectV::Nothing,
        ),
{
}

proof fn the_only_row_is_missed(m: MouseEvent, area: Rect, layout: ListLayout)
    requires
        layout.item_rows == 1,
        layout.visible_items == 1,
        content_row(m.row, area) > layout.header_rows,
    ensures
        hit(m, area, layout) is None,
{
    let d = content_row(m.row, area) - layout.header_rows;
    assert(d / 1 == d) by (nonlinear_arith);
    assert(d / (layout.item_rows as int) == d);
}

proof fn installed_stand(plugins: Seq<PluginV>, sel: int, from: int, to: int, i: int, j: int)
    requires
        from <= i < to,
        0 <= j < 5,
    ensures
        installed_rows(plugins, sel, from, to).len() == 5 * (to - from),
        installed_rows(plugins, sel, from, to)[5 * (i - from) + j] == installed_block(
            plugins[i],
            i == sel,
        )[j],
    decreases to - from,
{
    if from < to - 1 {
        installed_stand(
            plugins,
            sel,
            from,
            to - 1,
            if i < to - 1 {
                i
            } else {
                from
            },
            j,
        );
    } else {
        assert(installed_rows(plugins, sel, from, to - 1).len() == 0);
    }
}

/// A click on any of the lines of an installed plugin opens that plugin.
pub proof fn installed_are_clicked_where_shown(
    p: PanelV,
    m: MouseEvent,
    area: Rect,
    plugins: Seq<PluginV>,
    entries: Seq<EntryV>,
    local: Seq<ItemV>,
    session: SessionV,
    show_cursor: bool,
    i: int,
    j: int,
)
    requires
        p.tab == PluginViewTab::Installed,
        shows_list(p),
        plugins.len() <= usize::MAX,
        on_screen(p.selected, plugins.len(), i),
        0 <= j < 5,
        clicks(m, area, 3 + 5 * (i - first_shown(p.selected)) + j),
    ensures
        panel_view(p, plugins, entries, local, show_cursor)[3 + 5 * (i - first_shown(p.selected)) + j]
            == installed_block(plugins[i], i == p.selected)[j],
        whole_step(p, Event::Mouse(m), Some(area), plugins, entries, local, session) == (
            PanelV { selected: i, ..p.at_detail(i) },
            EventResult::Consumed,
            EffectV::Nothing,
        ),
{
    let start = first_shown(p.selected);
    let end = window_end(start, VISIBLE_ITEMS as int, plugins.len() as int);
    installed_stand(plugins, p.selected, start, end, i, j);
    a_line_of_an_item_hits_it(
        m,
        area,
        installed_layout(p.selected, plugins.len() as int),
        i - start,
        j,
    );
}

proof fn actions_stand(actions: Seq<PluginAction>, chosen: int, to: int, i: int)
    requires
        0 <= i < to,
    ensures
        action_rows(actions, chosen, to).len() == to,
        action_rows(actions, chosen, to)[i] == menu_line(
            "  "@,
            action_key(actions[i]),
            i == chosen,
        ),
    decreases to,
{
    if to > 1 {
        actions_stand(
            actions,
            chosen,
            to - 1,
            if i < to - 1 {
                i
            } else {
                0
            },
        );
    } else {
        assert(action_rows(actions, chosen, 0).len() == 0);
    }
}

/// A click on an action of an installed plugin runs that action.
pub proof fn actions_are_clicked_where_shown(
    p: PanelV,
    m: MouseEvent,
    area: Rect,
    plugins: Seq<PluginV>,
    entries: Seq<EntryV>,
    local: Seq<ItemV>,
    session: SessionV,
    show_cursor: bool,
    i: int,
)
    requires
        p.detail is Some,
        at(plugins, p.detail->0) is Some,
        p.market is None,
        p.confirm is None,
        p.discover.detail is None,
        0 <= i < 4,
        clicks(m, area, action_layout(plugins[p.detail->0]).header_rows + i),
    ensures
        panel_view(p, plugins, entries, local, show_cursor)[action_layout(
            plugins[p.detail->0],
        ).header_rows + i] == menu_line(
            "  "@,
            action_key(actions_of(plugins[p.detail->0].enabled)[i]),
            i == p.action,
        ),
        ({
            let ran = PanelV { action: i, ..p }.action_ran(i, plugins);
            whole_step(p, Event::Mouse(m), Some(area), plugins, entries, local, session) == (
                ran.0,
                EventResult::Consumed,
                ran.1,
            )
        }),
{
    let plugin = plugins[p.detail->0];
    let layout = action_layout(plugin);
    actions_stand(actions_of(plugin.enabled), p.action, 4, i);
    assert(layout.item_rows == 1);
    a_line_of_an_item_hits_it(m, area, layout, i, 0);
}

proof fn markets_stand(entries: Seq<EntryV>, sel: int, to: int, i: int, j: int)
    requires
        0 <= i < to,
        0 <= j < 3,
    ensures
        market_rows(entries, sel, to).len() == 3 * to,
        market_rows(entries, sel, to)[3 * i + j] == market_block(entries[i], i + 1 == sel)[j],
    decreases to,
{
    if to > 1 {
        markets_stand(
            entries,
            sel,
            to - 1,
            if i < to - 1 {
                i
            } else {
                0
            },
            j,
        );
    } else {
        assert(market_rows(entries, sel, 0).len() == 0);
    }
}

/// A click on any of the lines of a marketplace opens that marketplace.
pub proof fn markets_are_clicked_where_shown(
    p: PanelV,
    m: MouseEvent,
    area: Rect,
    plugins: Seq<PluginV>,
    entries: Seq<EntryV>,
    local: Seq<ItemV>,
    session: SessionV,
    show_cursor: bool,
    i: int,
    j: int,
)
    requires
        p.tab == PluginViewTab::Marketplaces,
        shows_list(p),
        0 <= i < entries.len() <= usize::MAX,
        i < u16::MAX,
        0 <= j < 3,
        clicks(m, area, 5 + 3 * i + j),
    ensures
        panel_view(p, plugins, entries, local, show_cursor)[5 + 3 * i + j] == market_block(
            entries[i],
            i + 1 == p.selected,
        )[j],
        whole_step(p, Event::Mouse(m), Some(area), plugins, entries, local, session) == (
            PanelV { selected: i + 1, ..p.at_market(i + 1) },
            EventResult::Consumed,
            EffectV::Nothing,
        ),
{
    let count = entries.len() as int;
    markets_stand(entries, p.selected, count, i, j);
    a_line_of_an_item_hits_it(m, area, entries_layout(count), i, j);
    the_only_row_is_missed(m, area, add_layout());
}

/// A click on the line that adds a marketplace asks for its address.
pub proof fn adding_is_clicked_where_shown(
    p: PanelV,
    m: MouseEvent,
    area: Rect,
    plugins: Seq<PluginV>,
    entries: Seq<EntryV>,
    local: Seq<ItemV>,
    session: SessionV,
    show_cursor: bool,
)
    requires
        p.tab == PluginViewTab::Marketplaces,
        shows_list(p),
        clicks(m, area, 3),
    ensures
        panel_view(p, plugins, entries, local, show_cursor)[3] == add_rows(
            p.selected,
            false,
            p.add_input.now.text,
        )[0],
        whole_step(p, Event::Mouse(m), Some(area), plugins, entries, local, session) == (
            PanelV { selected: 0, ..p.adding() },
            EventResult::Consumed,
            EffectV::Nothing,
        ),
{
    a_line_of_an_item_hits_it(m, area, add_layout(), 0, 0);
}

/// A click on an action of a marketplace runs that action.
pub proof fn market_actions_are_clicked_where_shown(
    p: PanelV,
    m: MouseEvent,
    area: Rect,
    plugins: Seq<PluginV>,
    entries: Seq<EntryV>,
    local: Seq<ItemV>,
    session: SessionV,
    show_cursor: bool,
    i: int,
)
    requires
        p.market is Some,
        at(entries, before(p.market->0)) is Some,
        p.confirm is None,
        p.discover.detail is None,
        0 <= i < 2,
        clicks(m, area, 7 + i),
    ensures
        panel_view(p, plugins, entries, local, show_cursor)[7 + i] == menu_line(
            ""@,
            if i == 0 {
                "panel-plugin-marketplace-action-refresh"@
            } else {
                "panel-plugin-marketplace-action-delete"@
            },
            i == p.market_action,
        ),
        ({
            let ran = p.market_ran(i, entries);
            whole_step(p, Event::Mouse(m), Some(area), plugins, entries, local, session) == (
                ran.0,
                EventResult::Consumed,
                ran.1,
            )
        }),
{
    a_line_of_an_item_hits_it(m, area, market_layout(), i, 0);
}

proof fn catalog_stands(
    items: Seq<ItemV>,
    plugins: Seq<PluginV>,
    sel: int,
    from: int,
    to: int,
    i: int,
    j: int,
)
    requires
        from <= i < to,
        0 <= j < 3,
    ensures
        catalog_rows(items, plugins, sel, from, to).len() == 3 * (to - from),
        catalog_rows(items, plugins, sel, from, to)[3 * (i - from) + j] == catalog_block(
            items[i],
            i == sel,
            has_name(plugins, items[i].name),
        )[j],
    decreases to - from,
{
    if from < to - 1 {
        catalog_stands(
            items,
            plugins,
            sel,
            from,
            to - 1,
            if i < to - 1 {
                i
            } else {
                from
            },
            j,
        );
    } else {
        assert(catalog_rows(items, plugins, sel, from, to - 1).len() == 0);
    }
}

/// A click on any of the lines of a plugin of the catalog opens that plugin.
pub proof fn catalog_is_clicked_where_shown(
    p: PanelV,
    m: MouseEvent,
    area: Rect,
    plugins: Seq<PluginV>,
    entries: Seq<EntryV>,
    local: Seq<ItemV>,
    session: SessionV,
    show_cursor: bool,
    i: int,
    j: int,
)
    requires
        p.tab == PluginViewTab::Discover,
        shows_list(p),
        p.discover.status is Idle,
        p.discover.visible(local).len() <= usize::MAX,
        on_screen(p.discover.selected, p.discover.visible(local).len(), i),
        0 <= j < 3,
        clicks(m, area, 5 + 3 * (i - first_shown(p.discover.selected)) + j),
    ensures
        ({
            let items = p.discover.visible(local);
            panel_view(p, plugins, entries, local, show_cursor)[5 + 3 * (i - first_shown(
                p.discover.selected,
            )) + j] == catalog_block(
                items[i],
                i == p.discover.selected,
                has_name(plugins, items[i].name),
            )[j]
        }),
        whole_step(p, Event::Mouse(m), Some(area), plugins, entries, local, session) == (
            PanelV { discover: p.discover.opened(i, local), ..p },
            EventResult::Consumed,
            EffectV::Nothing,
        ),
{
    let items = p.discover.visible(local);
    let start = first_shown(p.discover.selected);
    let end = window_end(start, VISIBLE_ITEMS as int, items.len() as int);
    catalog_stands(items, plugins, p.discover.selected, start, end, i, j);
    a_line_of_an_item_hits_it(
        m,
        area,
        items_layout(p.discover, items.len() as int),
        i - start,
        j,
    );
    the_only_row_is_missed(m, area, field_layout());
}

/// A click on the search field takes the cursor there.
pub proof fn search_field_is_clicked_where_shown(
    p: PanelV,
    m: MouseEvent,
    area: Rect,
    plugins: Seq<PluginV>,
    entries: Seq<EntryV>,
    local: Seq<ItemV>,
    session: SessionV,
    show_cursor: bool,
)
    requires
        p.tab == PluginViewTab::Discover,
        shows_list(p),
        !p.discover.focused,
        clicks(m, area, 3),
    ensures
        panel_view(p, plugins, entries, local, show_cursor)[3] == field_row(
            p.discover.editor.now.text,
            false,
        ),
        whole_step(p, Event::Mouse(m), Some(area), plugins, entries, local, session) == (
            PanelV { discover: DiscoverV { focused: true, ..p.discover }, ..p },
            EventResult::Consumed,
            EffectV::Nothing,
        ),
{
    a_line_of_an_item_hits_it(m, area, field_layout(), 0, 0);
}

proof fn installs_stand(chosen: int, to: int, i: int)
    requires
        0 <= i < to,
    ensures
        discover_rows(chosen, to).len() == to,
        discover_rows(chosen, to)[i] == menu_line(
            ""@,
            discover_action_key(discover_actions()[i]),
            i == chosen,
        ),
    decreases to,
{
    if to > 1 {
        installs_stand(
            chosen,
            to - 1,
            if i < to - 1 {
                i
            } else {
                0
            },
        );
    } else {
        assert(discover_rows(chosen, 0).len() == 0);
    }
}

/// A click on an action of a plugin of the catalog leaves the details, and installs the plugin
/// in the scope that the action names.
pub proof fn installs_are_clicked_where_shown(
    p: PanelV,
    m: MouseEvent,
    area: Rect,
    plugins: Seq<PluginV>,
    entries: Seq<EntryV>,
    local: Seq<ItemV>,
    session: SessionV,
    show_cursor: bool,
    i: int,
)
    requires
        p.tab == PluginViewTab::Discover,
        !in_front(p),
        !p.add_active,
        p.discover.detail is Some,
        0 <= i < 3,
        clicks(m, area, 10 + i),
    ensures
        panel_view(p, plugins, entries, local, show_cursor)[10 + i] == menu_line(
            ""@,
            discover_action_key(discover_actions()[i]),
            i == p.discover.detail_action,
        ),
        ({
            let (q, r, e) = whole_step(
                p,
                Event::Mouse(m),
                Some(area),
                plugins,
                entries,
                local,
                session,
            );
            &&& q.discover == p.discover.detail_closed()
            &&& r == EventResult::Consumed
            &&& e == match install_scope(discover_actions()[i]) {
                Some(scope) => EffectV::Install(p.discover.detail->0, scope),
                None => EffectV::Nothing,
            }
        }),
{
    installs_stand(p.discover.detail_action, 3, i);
    a_line_of_an_item_hits_it(m, area, detail_layout(), i, 0);
}

} // verus!
