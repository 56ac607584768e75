//! What the plugin panel shows.

use crate::text::{cat3, opt_view};
use vstd::prelude::*;

verus! {

/// The views of the panel.
#[derive(Debug, Clone, Copy, PartialEq, Eq, Structural)]
pub enum PluginViewTab {
    Installed,
    Discover,
    Marketplaces,
    Errors,
}

/// How many items a list shows at once.
pub const VISIBLE_ITEMS: usize = 5;

/// An installed plugin.
#[derive(Debug)]
pub struct PluginSummary {
    pub name: String,
    pub version: String,
    pub enabled: bool,
    pub root: String,
    pub description: String,
    pub marketplace: String,
    pub author: Option<String>,
    pub skills_count: usize,
    pub commands_count: usize,
    pub agents_count: usize,
    pub mcp_count: usize,
    pub install_scope: String,
    pub load_error: Option<String>,
}

/// An installed plugin, abstractly.
pub struct PluginV {
    pub name: Seq<char>,
    pub version: Seq<char>,
    pub enabled: bool,
    pub root: Seq<char>,
    pub description: Seq<char>,
    pub marketplace: Seq<char>,
    pub author: Option<Seq<char>>,
    pub skills: nat,
    pub commands: nat,
    pub agents: nat,
    pub mcp: nat,
    pub scope: Seq<char>,
    pub load_error: Option<Seq<char>>,
}

impl View for PluginSummary {
    type V = PluginV;

    open spec fn view(&self) -> PluginV {
        PluginV {
            name: self.name@,
            version: self.version@,
            enabled: self.enabled,
            root: self.root@,
            description: self.description@,
            marketplace: self.marketplace@,
            author: opt_view(self.author),
            skills: self.skills_count as nat,
            commands: self.commands_count as nat,
            agents: self.agents_count as nat,
            mcp: self.mcp_count as nat,
            scope: self.install_scope@,
            load_error: opt_view(self.load_error),
        }
    }
}

/// The plugins, abstractly.
pub open spec fn plugins_view(v: Seq<PluginSummary>) -> Seq<PluginV> {
    v.map_values(|p: PluginSummary| p@)
}

/// The identity of a plugin: its name, and the marketplace it is from if any.
pub open spec fn plugin_id_spec(p: PluginV) -> Seq<char> {
    if p.marketplace.len() == 0 {
        p.name
    } else {
        p.name + "@"@ + p.marketplace
    }
}

impl PluginSummary {
    /// The identity of the plugin.
    pub fn plugin_id(&self) -> (r: String)
        ensures
            r@ == plugin_id_spec(self@),
    {
        if self.marketplace.as_str().is_empty() {
            self.name.clone()
        } else {
            cat3(self.name.as_str(), "@", self.marketplace.as_str())
        }
    }
}

/// A plugin of the catalog or of a search result.
#[derive(Debug)]
pub struct PluginSearchResultItem {
    pub name: String,
    pub version: String,
    pub marketplace: String,
    pub description: String,
    pub author: Option<String>,
}

/// A plugin of the catalog, abstractly.
pub struct ItemV {
    pub name: Seq<char>,
    pub version: Seq<char>,
    pub marketplace: Seq<char>,
    pub description: Seq<char>,
    pub author: Option<Seq<char>>,
}

impl View for PluginSearchResultItem {
    type V = ItemV;

    open spec fn view(&self) -> ItemV {
        ItemV {
            name: self.name@,
            version: self.version@,
            marketplace: self.marketplace@,
            description: self.description@,
            author: opt_view(self.author),
        }
    }
}

/// The items, abstractly.
pub open spec fn items_view(v: Seq<PluginSearchResultItem>) -> Seq<ItemV> {
    v.map_values(|p: PluginSearchResultItem| p@)
}

impl PluginSearchResultItem {
    /// The same item once more.
    pub fn copy(&self) -> (r: PluginSearchResultItem)
        ensures
            r@ == self@,
    {
        PluginSearchResultItem {
            name: self.name.clone(),
            version: self.version.clone(),
            marketplace: self.marketplace.clone(),
            description: self.description.clone(),
            author: match &self.author {
                Some(a) => Some(a.clone()),
                None => None,
            },
        }
    }
}

/// How fresh what is known of a marketplace is.
#[derive(Debug, Clone, Copy, PartialEq, Eq, Structural)]
pub enum MsStatus {
    Fresh,
    Cached,
    Fetching,
    Stale,
    Failed,
    NotFound,
}

/// A known marketplace.
#[derive(Debug)]
pub struct MsEntry {
    pub name: String,
    pub source_label: String,
    pub plugin_count: usize,
    pub installed_count: usize,
    pub status: MsStatus,
    pub last_updated: Option<String>,
    pub auto_update: bool,
}

/// A known marketplace, abstractly.
pub struct EntryV {
    pub name: Seq<char>,
    pub source_label: Seq<char>,
    pub plugin_count: nat,
    pub installed_count: nat,
    pub status: MsStatus,
    pub last_updated: Option<Seq<char>>,
    pub auto_update: bool,
}

impl View for MsEntry {
    type V = EntryV;

    open spec fn view(&self) -> EntryV {
        EntryV {
            name: self.name@,
            source_label: self.source_label@,
            plugin_count: self.plugin_count as nat,
            installed_count: self.installed_count as nat,
            status: self.status,
            last_updated: opt_view(self.last_updated),
            auto_update: self.auto_update,
        }
    }
}

/// The marketplaces, abstractly.
pub open spec fn entries_view(v: Seq<MsEntry>) -> Seq<EntryV> {
    v.map_values(|e: MsEntry| e@)
}

/// The view to the right, the first behind the last.
pub open spec fn tab_forward(t: PluginViewTab) -> PluginViewTab {
    match t {
        PluginViewTab::Installed => PluginViewTab::Discover,
        PluginViewTab::Discover => PluginViewTab::Marketplaces,
        PluginViewTab::Marketplaces => PluginViewTab::Errors,
        PluginViewTab::Errors => PluginViewTab::Installed,
    }
}

/// The view to the left, the last before the first.
pub open spec fn tab_backward(t: PluginViewTab) -> PluginViewTab {
    match t {
        PluginViewTab::Installed => PluginViewTab::Errors,
        PluginViewTab::Errors => PluginViewTab::Marketplaces,
        PluginViewTab::Marketplaces => PluginViewTab::Discover,
        PluginViewTab::Discover => PluginViewTab::Installed,
    }
}

pub fn cycle_forward(t: PluginViewTab) -> (r: PluginViewTab)
    ensures
        r == tab_forward(t),
{
    match t {
        PluginViewTab::Installed => PluginViewTab::Discover,
        PluginViewTab::Discover => PluginViewTab::Marketplaces,
        PluginViewTab::Marketplaces => PluginViewTab::Errors,
        PluginViewTab::Errors => PluginViewTab::Installed,
    }
}

pub fn cycle_backward(t: PluginViewTab) -> (r: PluginViewTab)
    ensures
        r == tab_backward(t),
{
    match t {
        PluginViewTab::Installed => PluginViewTab::Errors,
        PluginViewTab::Errors => PluginViewTab::Marketplaces,
        PluginViewTab::Marketplaces => PluginViewTab::Discover,
        PluginViewTab::Discover => PluginViewTab::Installed,
    }
}

/// Going forward and back are inverse, and four steps lead round.
pub proof fn tabs_cycle(t: PluginViewTab)
    ensures
        tab_backward(tab_forward(t)) == t,
        tab_forward(tab_backward(t)) == t,
        tab_forward(tab_forward(tab_forward(tab_forward(t)))) == t,
{
}

/// What can be done with an installed plugin.
#[derive(Debug, Clone, Copy, PartialEq, Eq, Structural)]
pub enum PluginAction {
    Disable,
    Enable,
    Uninstall,
    Update,
    Back,
}

/// The actions offered, in order.
pub open spec fn actions_of(enabled: bool) -> Seq<PluginAction> {
    seq![
        if enabled {
            PluginAction::Disable
        } else {
            PluginAction::Enable
        },
        PluginAction::Uninstall,
        PluginAction::Update,
        PluginAction::Back,
    ]
}

/// The actions offered for a plugin.
pub fn action_list(enabled: bool) -> (r: Vec<PluginAction>)
    ensures
        r@ == actions_of(enabled),
{
    let mut actions: Vec<PluginAction> = Vec::new();
    if enabled {
        actions.push(PluginAction::Disable);
    } else {
        actions.push(PluginAction::Enable);
    }
    actions.push(PluginAction::Uninstall);
    actions.push(PluginAction::Update);
    actions.push(PluginAction::Back);
    assert(actions@ =~= actions_of(enabled));
    actions
}

/// The message key of an action's label.
pub open spec fn action_key(a: PluginAction) -> Seq<char> {
    match a {
        PluginAction::Disable => "panel-plugin-action-disable"@,
        PluginAction::Enable => "panel-plugin-action-enable"@,
        PluginAction::Uninstall => "panel-plugin-action-uninstall"@,
        PluginAction::Update => "panel-plugin-action-update"@,
        PluginAction::Back => "panel-plugin-action-back"@,
    }
}

/// The message key of an action's label.
pub fn action_label(a: PluginAction) -> (r: &'static str)
    ensures
        r@ == action_key(a),
{
    match a {
        PluginAction::Disable => "panel-plugin-action-disable",
        PluginAction::Enable => "panel-plugin-action-enable",
        PluginAction::Uninstall => "panel-plugin-action-uninstall",
        PluginAction::Update => "panel-plugin-action-update",
        PluginAction::Back => "panel-plugin-action-back",
    }
}

/// What can be done with a plugin of the catalog.
#[derive(Debug, Clone, Copy, PartialEq, Eq, Structural)]
pub enum DiscoverDetailAction {
    InstallUser,
    InstallProject,
    BackToList,
}

/// The actions of the catalog detail, in order.
pub open spec fn discover_actions() -> Seq<DiscoverDetailAction> {
    seq![
        DiscoverDetailAction::InstallUser,
        DiscoverDetailAction::InstallProject,
        DiscoverDetailAction::BackToList,
    ]
}

/// The message key of a catalog action's label.
pub open spec fn discover_action_key(a: DiscoverDetailAction) -> Seq<char> {
    match a {
        DiscoverDetailAction::InstallUser => "panel-plugin-discover-install-user"@,
        DiscoverDetailAction::InstallProject => "panel-plugin-discover-install-project"@,
        DiscoverDetailAction::BackToList => "panel-plugin-action-back"@,
    }
}

impl DiscoverDetailAction {
    /// The action at a place of the menu.
    pub fn at(i: usize) -> (r: Option<DiscoverDetailAction>)
        ensures
            r == (if i < 3 {
                Some(discover_actions()[i as int])
            } else {
                None
            }),
    {
        if i == 0 {
            Some(DiscoverDetailAction::InstallUser)
        } else if i == 1 {
            Some(DiscoverDetailAction::InstallProject)
        } else if i == 2 {
            Some(DiscoverDetailAction::BackToList)
        } else {
            None
        }
    }

    /// The message key of the label.
    pub fn label(self) -> (r: &'static str)
        ensures
            r@ == discover_action_key(self),
    {
        match self {
            DiscoverDetailAction::InstallUser => "panel-plugin-discover-install-user",
            DiscoverDetailAction::InstallProject => "panel-plugin-discover-install-project",
            DiscoverDetailAction::BackToList => "panel-plugin-action-back",
        }
    }
}

} // verus!
