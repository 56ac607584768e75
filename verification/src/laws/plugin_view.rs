//! What is shown of plugins and marketplaces.

use crate::doc::{ArgV, WordsV};
use crate::panels::plugin::discover::StatusV;
use crate::panels::plugin::panel_handler::{ConfirmAction, PanelV};
use crate::panels::plugin::render::{action_rows, body_view, catalog_block, catalog_rows,
    detail_view, discover_detail_view, discover_rows, error_count, error_rows, errors_view,
    installed_block, installed_rows, market_block, market_rows, menu_line, panel_view};
use crate::panels::plugin::types::{action_key, actions_of, EntryV, ItemV, PluginAction, PluginV,
    PluginViewTab};
use crate::text::decimal;
use vstd::prelude::*;

verus! {

proof fn lemma_installed(plugins: Seq<PluginV>, sel: int, from: int, to: int, i: int)
    requires
        0 <= from <= to <= plugins.len(),
    ensures
        installed_rows(plugins, sel, from, to).len() == 5 * (to - from),
        from <= i < to ==> installed_rows(plugins, sel, from, to)[5 * (i - from)]
            == installed_block(plugins[i], i == sel)[0],
    decreases to - from,
{
    if to > from {
        lemma_installed(plugins, sel, from, to - 1, i);
        if from <= i < to - 1 {
            assert(installed_rows(plugins, sel, from, to)[5 * (i - from)] == installed_rows(
                plugins,
                sel,
                from,
                to - 1,
            )[5 * (i - from)]);
        }
    }
}

/// The number of installed plugins is told, and five at a time are shown by their names, the
/// selected one among them and marked; the mark of each says whether it is on, off or broken.
pub proof fn the_selected_plugin_is_shown(
    p: PanelV,
    plugins: Seq<PluginV>,
    entries: Seq<EntryV>,
    local: Seq<ItemV>,
    show_cursor: bool,
    i: int,
)
    requires
        p.discover.detail is None && p.market is None && p.detail is None,
        p.tab == PluginViewTab::Installed,
        0 <= p.selected < plugins.len(),
        0 <= i < plugins.len(),
        p.selected < 5 && i < 5 || p.selected >= 5 && p.selected - 4 <= i <= p.selected,
    ensures
        ({
            let d = body_view(p, plugins, entries, local, show_cursor);
            let start = if p.selected < 5 {
                0
            } else {
                p.selected - 4
            };
            let at = 2 + 5 * (i - start);
            &&& d[0][0].words == WordsV::Message(
                "panel-plugin-stats"@,
                seq![("count"@, ArgV::Number(plugins.len()))],
            )
            &&& d[at][0].words == WordsV::Literal(
                " "@ + (if i == p.selected {
                    ">"@
                } else {
                    " "@
                }) + " "@,
            )
            &&& d[at][1].words == WordsV::Literal(
                (if plugins[i].load_error is Some {
                    "✗"@
                } else if plugins[i].enabled {
                    "✓"@
                } else {
                    "◯"@
                }) + " "@,
            )
            &&& d[at][2].words == WordsV::Literal(plugins[i].name)
            &&& plugins[i].version.len() > 0 ==> d[at][4].words == WordsV::Literal(
                plugins[i].version,
            )
        }),
{
    let start = if p.selected < 5 {
        0
    } else {
        p.selected - 4
    };
    let end = if start + 5 < plugins.len() {
        start + 5
    } else {
        plugins.len() as int
    };
    lemma_installed(plugins, p.selected, start, end, i);
    let d = body_view(p, plugins, entries, local, show_cursor);
    let k = 5 * (i - start);
    assert(d[2 + k] == installed_rows(plugins, p.selected, start, end)[k]);
}

proof fn lemma_catalog(
    items: Seq<ItemV>,
    plugins: Seq<PluginV>,
    sel: int,
    from: int,
    to: int,
    i: int,
)
    requires
        0 <= from <= to <= items.len(),
    ensures
        catalog_rows(items, plugins, sel, from, to).len() == 3 * (to - from),
        from <= i < to ==> catalog_rows(items, plugins, sel, from, to)[3 * (i - from)]
            == catalog_block(
            items[i],
            i == sel,
            crate::panels::plugin::render::has_name(plugins, items[i].name),
        )[0],
    decreases to - from,
{
    if to > from {
        lemma_catalog(items, plugins, sel, from, to - 1, i);
        if from <= i < to - 1 {
            assert(catalog_rows(items, plugins, sel, from, to)[3 * (i - from)] == catalog_rows(
                items,
                plugins,
                sel,
                from,
                to - 1,
            )[3 * (i - from)]);
        }
    }
}

/// Five at a time, what was found or matches the query is shown by name, version and marketplace,
/// the selected one among them and marked; one whose name is installed bears a sign.
pub proof fn the_selected_item_is_shown(
    p: PanelV,
    plugins: Seq<PluginV>,
    entries: Seq<EntryV>,
    local: Seq<ItemV>,
    show_cursor: bool,
    i: int,
)
    requires
        p.discover.detail is None && p.market is None && p.detail is None,
        p.tab == PluginViewTab::Discover,
        p.discover.status is Idle,
        0 <= p.discover.selected < p.discover.visible(local).len(),
        0 <= i < p.discover.visible(local).len(),
        p.discover.selected < 5 && i < 5 || p.discover.selected >= 5 && p.discover.selected - 4
            <= i <= p.discover.selected,
    ensures
        ({
            let d = body_view(p, plugins, entries, local, show_cursor);
            let item = p.discover.visible(local)[i];
            let start = if p.discover.selected < 5 {
                0
            } else {
                p.discover.selected - 4
            };
            let at = 4 + 3 * (i - start);
            &&& d[at][0].words == WordsV::Literal(
                (if i == p.discover.selected {
                    ">"@
                } else {
                    " "@
                }) + " "@,
            )
            &&& d[at][1].words == WordsV::Literal(item.name + " v"@ + item.version + "  "@)
            &&& d[at][2].words == WordsV::Literal(
                "("@ + item.marketplace + ")"@ + (if exists|k: int|
                    0 <= k < plugins.len() && (#[trigger] plugins[k]).name == item.name {
                    " ✓"@
                } else {
                    ""@
                }),
            )
        }),
{
    let sel = p.discover.selected;
    let items = p.discover.visible(local);
    let start = if sel < 5 {
        0
    } else {
        sel - 4
    };
    let end = if start + 5 < items.len() {
        start + 5
    } else {
        items.len() as int
    };
    lemma_catalog(items, plugins, sel, start, end, i);
    let d = body_view(p, plugins, entries, local, show_cursor);
    let k = 3 * (i - start);
    assert(d[4 + k] == catalog_rows(items, plugins, sel, start, end)[k]);
}

/// While a search is under way that is said, and where it failed, why.
pub proof fn the_state_of_the_search_is_told(
    p: PanelV,
    plugins: Seq<PluginV>,
    entries: Seq<EntryV>,
    local: Seq<ItemV>,
    show_cursor: bool,
    why: Seq<char>,
)
    requires
        p.discover.detail is None && p.market is None && p.detail is None,
        p.tab == PluginViewTab::Discover,
    ensures
        p.discover.status is Loading ==> body_view(
            p,
            plugins,
            entries,
            local,
            show_cursor,
        )[4][0].words == WordsV::Message("panel-plugin-search-loading"@, Seq::empty()),
        p.discover.status == StatusV::Error(why) ==> body_view(
            p,
            plugins,
            entries,
            local,
            show_cursor,
        )[4][0].words == WordsV::Message(
            "panel-plugin-search-error"@,
            seq![("error"@, ArgV::Text(why))],
        ),
{
}

proof fn lemma_markets(entries: Seq<EntryV>, sel: int, to: int, i: int)
    requires
        0 <= to <= entries.len(),
    ensures
        market_rows(entries, sel, to).len() == 3 * to,
        0 <= i < to ==> market_rows(entries, sel, to)[3 * i] == market_block(
            entries[i],
            i + 1 == sel,
        )[0] && market_rows(entries, sel, to)[3 * i + 1] == market_block(
            entries[i],
            i + 1 == sel,
        )[1],
    decreases to,
{
    if to > 0 {
        lemma_markets(entries, sel, to - 1, i);
        if 0 <= i < to - 1 {
            let all = market_rows(entries, sel, to);
            let less = market_rows(entries, sel, to - 1);
            assert(all[3 * i] == less[3 * i] && all[3 * i + 1] == less[3 * i + 1]);
        }
    }
}

/// Every marketplace is shown by its name, with the numbers of its plugins and of those that are
/// installed, and the selected one is marked.
pub proof fn every_marketplace_is_shown(
    p: PanelV,
    plugins: Seq<PluginV>,
    entries: Seq<EntryV>,
    local: Seq<ItemV>,
    show_cursor: bool,
    i: int,
)
    requires
        p.discover.detail is None && p.market is None && p.detail is None,
        p.tab == PluginViewTab::Marketplaces,
        p.confirm != Some(ConfirmAction::DeleteMarketplace),
        !p.add_active,
        0 <= i < entries.len(),
        entries[i].source_label.len() <= 30,
    ensures
        ({
            let d = body_view(p, plugins, entries, local, show_cursor);
            let at = 4 + 3 * i;
            &&& d[at][0].words == WordsV::Literal(
                " "@ + (if p.selected == i + 1 {
                    ">"@
                } else {
                    " "@
                }) + " "@,
            )
            &&& d[at][2].words == WordsV::Literal(entries[i].name + " "@)
            &&& d[at + 1][0].words == WordsV::Literal(
                "     "@ + (if entries[i].auto_update {
                    "auto"@
                } else {
                    "manual"@
                }) + ": "@ + entries[i].source_label + "  |  plugins: "@ + decimal(
                    entries[i].plugin_count,
                ) + "  |  installed: "@ + decimal(entries[i].installed_count),
            )
        }),
{
    lemma_markets(entries, p.selected, entries.len() as int, i);
    let d = body_view(p, plugins, entries, local, show_cursor);
    let rows = market_rows(entries, p.selected, entries.len() as int);
    assert(d[4 + 3 * i] == rows[3 * i]);
    assert(d[4 + 3 * i + 1] == rows[3 * i + 1]);
}

proof fn lemma_errors(plugins: Seq<PluginV>)
    ensures
        error_count(plugins) == plugins.filter(|x: PluginV| x.load_error is Some).len(),
        error_rows(plugins).len() == 3 * error_count(plugins),
    decreases plugins.len(),
{
    reveal(Seq::filter);
    if plugins.len() > 0 {
        lemma_errors(plugins.drop_last());
    }
}

proof fn lemma_error_row(plugins: Seq<PluginV>, i: int) -> (at: int)
    requires
        0 <= i < plugins.len(),
        plugins[i].load_error is Some,
        plugins[i].load_error->0.len() <= 72,
    ensures
        0 <= at,
        at + 1 < error_rows(plugins).len(),
        error_rows(plugins)[at][0].words == WordsV::Literal(
            "  ✗ "@ + plugins[i].name + " v"@ + plugins[i].version,
        ),
        error_rows(plugins)[at + 1][0].words == WordsV::Literal(
            "      "@ + plugins[i].load_error->0,
        ),
    decreases plugins.len(),
{
    let before = error_rows(plugins.drop_last());
    let all = error_rows(plugins);
    if i == plugins.len() - 1 {
        before.len() as int
    } else {
        let at = lemma_error_row(plugins.drop_last(), i);
        assert(all[at] == before[at] && all[at + 1] == before[at + 1]);
        at
    }
}

/// Every plugin that could not be loaded is listed, with the reason, and all are counted.
pub proof fn every_broken_plugin_is_listed(plugins: Seq<PluginV>, i: int) -> (at: int)
    requires
        0 <= i < plugins.len(),
        plugins[i].load_error is Some,
        plugins[i].load_error->0.len() <= 72,
    ensures
        errors_view(plugins)[0][2].words == WordsV::Literal(
            " ("@ + decimal(plugins.filter(|x: PluginV| x.load_error is Some).len()) + ")"@,
        ),
        2 <= at,
        at + 1 < errors_view(plugins).len(),
        errors_view(plugins)[at][0].words == WordsV::Literal(
            "  ✗ "@ + plugins[i].name + " v"@ + plugins[i].version,
        ),
        errors_view(plugins)[at + 1][0].words == WordsV::Literal(
            "      "@ + plugins[i].load_error->0,
        ),
{
    lemma_errors(plugins);
    let at = lemma_error_row(plugins, i);
    let d = errors_view(plugins);
    assert(d[2 + at] == error_rows(plugins)[at]);
    assert(d[2 + at + 1] == error_rows(plugins)[at + 1]);
    2 + at
}

/// The page of a plugin tells where it comes from, who wrote it, where it lies and what it holds.
pub proof fn the_page_of_a_plugin_tells_of_it(p: PluginV, chosen: int, confirm: Option<ConfirmAction>)
    ensures
        ({
            let d = detail_view(p, chosen, confirm);
            &&& d[0][0].words == WordsV::Message(
                "panel-plugin-detail-title"@,
                seq![("name"@, ArgV::Text(p.name))],
            )
            &&& d[4][3].words == WordsV::Literal(p.marketplace)
            &&& p.author is Some ==> d[5][3].words == WordsV::Literal(p.author->0)
            &&& d[6][3].words == WordsV::Literal(p.root)
            &&& d[7][3].words == WordsV::Literal(p.scope)
            &&& p.skills > 0 ==> d[9][3].words == WordsV::Literal(decimal(p.skills))
            &&& p.commands > 0 ==> d[10][3].words == WordsV::Literal(decimal(p.commands))
            &&& p.agents > 0 ==> d[11][3].words == WordsV::Literal(decimal(p.agents))
            &&& p.mcp > 0 ==> d[12][3].words == WordsV::Literal(decimal(p.mcp))
        }),
{
}

/// The page of a plugin of the catalog tells of that plugin.
pub proof fn the_page_of_an_item_tells_of_it(item: ItemV, chosen: int)
    ensures
        ({
            let d = discover_detail_view(item, chosen);
            &&& d[0][0].words == WordsV::Message(
                "panel-plugin-detail-title"@,
                seq![("name"@, ArgV::Text(item.name))],
            )
            &&& item.version.len() <= 60 ==> d[2][3].words == WordsV::Literal(item.version)
            &&& item.marketplace.len() <= 60 ==> d[3][3].words == WordsV::Literal(item.marketplace)
            &&& item.author is Some && item.author->0.len() <= 60 ==> d[4][3].words
                == WordsV::Literal(item.author->0)
            &&& 0 < item.description.len() <= 60 ==> d[5][3].words == WordsV::Literal(
                item.description,
            )
        }),
{
}

proof fn lemma_actions(actions: Seq<PluginAction>, chosen: int, to: int, i: int)
    ensures
        to >= 0 ==> action_rows(actions, chosen, to).len() == to,
        0 <= i < to ==> action_rows(actions, chosen, to)[i] == menu_line(
            "  "@,
            action_key(actions[i]),
            i == chosen,
        ),
    decreases to,
{
    if to > 0 {
        lemma_actions(actions, chosen, to - 1, i);
    }
}

/// The page of a plugin offers, at its end, to turn it off or on, to uninstall it, to update it and
/// to go back, and the chosen action is marked.
pub proof fn the_actions_are_shown(p: PluginV, chosen: int)
    ensures
        ({
            let d = detail_view(p, chosen, None);
            let n = d.len();
            &&& n >= 20
            &&& d[n - 4][2].words == WordsV::Message(
                if p.enabled {
                    "panel-plugin-action-disable"@
                } else {
                    "panel-plugin-action-enable"@
                },
                Seq::empty(),
            )
            &&& d[n - 3][2].words == WordsV::Message("panel-plugin-action-uninstall"@, Seq::empty())
            &&& d[n - 2][2].words == WordsV::Message("panel-plugin-action-update"@, Seq::empty())
            &&& d[n - 1][2].words == WordsV::Message("panel-plugin-action-back"@, Seq::empty())
            &&& 0 <= chosen < 4 ==> d[n - 4 + chosen][0].words == WordsV::Literal(
                "  "@ + ">"@ + " "@,
            )
        }),
{
    let actions = actions_of(p.enabled);
    lemma_actions(actions, chosen, 4, 0);
    lemma_actions(actions, chosen, 4, 1);
    lemma_actions(actions, chosen, 4, 2);
    lemma_actions(actions, chosen, 4, 3);
    let d = detail_view(p, chosen, None);
    let rows = action_rows(actions, chosen, 4);
    assert(d[d.len() - 4] == rows[0] && d[d.len() - 3] == rows[1] && d[d.len() - 2] == rows[2]
        && d[d.len() - 1] == rows[3]);
}

/// The page of a plugin of the catalog offers to install it for the user, for the project, and to
/// go back.
pub proof fn the_installs_are_shown(item: ItemV, chosen: int)
    ensures
        ({
            let d = discover_detail_view(item, chosen);
            &&& d.len() == 12
            &&& d[9][2].words == WordsV::Message("panel-plugin-discover-install-user"@, Seq::empty())
            &&& d[10][2].words == WordsV::Message(
                "panel-plugin-discover-install-project"@,
                Seq::empty(),
            )
            &&& d[11][2].words == WordsV::Message("panel-plugin-action-back"@, Seq::empty())
            &&& 0 <= chosen < 3 ==> d[9 + chosen][0].words == WordsV::Literal(""@ + ">"@ + " "@)
        }),
{
    reveal_with_fuel(discover_rows, 4);
}

/// The query is shown as it is typed, and the address as far as forty characters.
pub proof fn what_is_typed_is_shown(
    p: PanelV,
    plugins: Seq<PluginV>,
    entries: Seq<EntryV>,
    local: Seq<ItemV>,
    show_cursor: bool,
)
    requires
        p.discover.detail is None && p.market is None && p.detail is None,
        p.confirm is None,
    ensures
        p.tab == PluginViewTab::Discover && show_cursor && p.discover.focused ==> body_view(
            p,
            plugins,
            entries,
            local,
            show_cursor,
        )[2][0].words == WordsV::Literal("  > "@ + p.discover.editor.now.text + "▌"@),
        p.tab == PluginViewTab::Marketplaces && p.add_active && p.add_input.now.text.len() <= 40
            ==> body_view(p, plugins, entries, local, show_cursor)[2][2].words == WordsV::Literal(
            " "@ + p.add_input.now.text,
        ),
{
}

/// The row of an installed plugin tells how many skills it has where it has no other parts, and a
/// dash where it has none at all.
pub proof fn the_parts_of_a_plugin_are_counted(p: PluginV, selected: bool)
    ensures
        p.commands == 0 && p.agents == 0 && p.mcp == 0 && p.skills > 0 ==> installed_block(
            p,
            selected,
        )[3].len() == 3 && installed_block(p, selected)[3][2].words == WordsV::Literal(
            ":"@ + decimal(p.skills),
        ),
        p.commands == 0 && p.agents == 0 && p.mcp == 0 && p.skills == 0 ==> installed_block(
            p,
            selected,
        )[3][1].words == WordsV::Literal("—"@),
        p.commands > 0 && p.agents > 0 && p.mcp > 0 && p.skills > 0 ==> {
            let l = installed_block(p, selected)[3];
            &&& l.len() == 12
            &&& l[2].words == WordsV::Literal(":"@ + decimal(p.skills))
            &&& l[5].words == WordsV::Literal(":"@ + decimal(p.commands))
            &&& l[8].words == WordsV::Literal(":"@ + decimal(p.agents))
            &&& l[11].words == WordsV::Literal(":"@ + decimal(p.mcp))
        },
        p.description.len() > 0 ==> installed_block(p, selected)[1][0].words == WordsV::Literal(
            "     "@ + p.description,
        ),
        p.root.len() <= 72 ==> installed_block(p, selected)[2][0].words == WordsV::Literal(
            "     "@ + p.root,
        ),
{
}

/// The panel shows its tabs above and what can be done below.
pub proof fn the_panel_stands_between_tabs_and_footer(
    p: PanelV,
    plugins: Seq<PluginV>,
    entries: Seq<EntryV>,
    local: Seq<ItemV>,
    show_cursor: bool,
    i: int,
)
    ensures
        ({
            let d = panel_view(p, plugins, entries, local, show_cursor);
            let b = body_view(p, plugins, entries, local, show_cursor);
            &&& d.len() == b.len() + 2
            &&& 0 <= i < b.len() ==> d[1 + i] == b[i]
            &&& d[0][1].words == WordsV::Message("panel-plugin-tab-installed"@, Seq::empty())
            &&& d[0][4].words == WordsV::Message("panel-plugin-tab-discover"@, Seq::empty())
            &&& d[0][7].words == WordsV::Message("panel-plugin-tab-marketplaces"@, Seq::empty())
            &&& d[0][10].words == WordsV::Message("panel-plugin-tab-errors"@, Seq::empty())
        }),
{
}

} // verus!
