//! The values that contracts speak of hold all that the data holds.

use crate::background::{displays_view, tasks_view, BgDisplayEntry, BgTaskEntry};
use crate::json::{json_view, members_view, values_view, Json, JsonV, Member};
use crate::panels::ask_user::form::{answers_view, custom_view};
use crate::panels::config::{providers_view, ProviderConfig};
use crate::panels::cron::{jobs_view, CronJobSummary};
use crate::panels::hooks::{hooks_view, HookSummary};
use crate::panels::mcp::{servers_view, McpServerSummary};
use crate::panels::memory::{files, MemoryEntry};
use crate::panels::plugin::data::{known_view, markets_view, KnownMarketplace, MarketManifest};
use crate::panels::plugin::discover::item_refs;
use crate::panels::plugin::types::{entries_view, plugins_view, MsEntry, PluginSearchResultItem,
    PluginSummary};
use crate::panels::theme::download::DownloadItem;
use crate::popups::model_quick_switch::{rows_view, QuickSwitchRow};
use crate::popups::rewind_popup::{candidates, known, messages_view, RewindMessage, RewindPreview};
use crate::rewind_action::{changes_view, RewindFileChange};
use crate::text::text_views;
use crate::view_models::{referents, TuiSubAgentGroup};
use vstd::prelude::*;

verus! {

/// Every element is there, at its place.
pub proof fn all_rows_are_there(v: Seq<QuickSwitchRow>, i: int)
    ensures
        rows_view(v).len() == v.len(),
        0 <= i < v.len() ==> rows_view(v)[i] == v[i]@,
{
}

/// Every element is there, at its place.
pub proof fn all_changes_are_there(v: Seq<RewindFileChange>, i: int)
    ensures
        changes_view(v).len() == v.len(),
        0 <= i < v.len() ==> changes_view(v)[i] == v[i]@,
{
}

/// Every element is there, at its place.
pub proof fn all_messages_are_there(v: Seq<RewindMessage>, i: int)
    ensures
        messages_view(v).len() == v.len(),
        0 <= i < v.len() ==> messages_view(v)[i] == v[i]@,
{
}

/// Every element is there, at its place.
pub proof fn all_tasks_are_there(v: Seq<BgTaskEntry>, i: int)
    ensures
        tasks_view(v).len() == v.len(),
        0 <= i < v.len() ==> tasks_view(v)[i] == v[i]@,
{
}

/// Every element is there, at its place.
pub proof fn all_displays_are_there(v: Seq<BgDisplayEntry>, i: int)
    ensures
        displays_view(v).len() == v.len(),
        0 <= i < v.len() ==> displays_view(v)[i] == v[i]@,
{
}

/// Every element is there, at its place.
pub proof fn all_jobs_are_there(v: Seq<CronJobSummary>, i: int)
    ensures
        jobs_view(v).len() == v.len(),
        0 <= i < v.len() ==> jobs_view(v)[i] == v[i]@,
{
}

/// Every element is there, at its place.
pub proof fn all_servers_are_there(v: Seq<McpServerSummary>, i: int)
    ensures
        servers_view(v).len() == v.len(),
        0 <= i < v.len() ==> servers_view(v)[i] == v[i]@,
{
}

/// Every element is there, at its place.
pub proof fn all_files_are_there(v: Seq<MemoryEntry>, i: int)
    ensures
        files(v).len() == v.len(),
        0 <= i < v.len() ==> files(v)[i] == v[i]@,
{
}

/// Every element is there, at its place.
pub proof fn all_downloads_are_there(v: Seq<DownloadItem>, i: int)
    ensures
        crate::panels::theme::download::items_view(v).len() == v.len(),
        0 <= i < v.len() ==> crate::panels::theme::download::items_view(v)[i] == v[i]@,
{
}

/// Every element is there, at its place.
pub proof fn all_hooks_are_there(v: Seq<HookSummary>, i: int)
    ensures
        hooks_view(v).len() == v.len(),
        0 <= i < v.len() ==> hooks_view(v)[i] == v[i]@,
{
}

/// Every element is there, at its place.
pub proof fn all_known_are_there(v: Seq<KnownMarketplace>, i: int)
    ensures
        known_view(v).len() == v.len(),
        0 <= i < v.len() ==> known_view(v)[i] == v[i]@,
{
}

/// Every element is there, at its place.
pub proof fn all_plugins_are_there(v: Seq<PluginSummary>, i: int)
    ensures
        plugins_view(v).len() == v.len(),
        0 <= i < v.len() ==> plugins_view(v)[i] == v[i]@,
{
}

/// Every element is there, at its place.
pub proof fn all_found_are_there(v: Seq<PluginSearchResultItem>, i: int)
    ensures
        crate::panels::plugin::types::items_view(v).len() == v.len(),
        0 <= i < v.len() ==> crate::panels::plugin::types::items_view(v)[i] == v[i]@,
{
}

/// Every element is there, at its place.
pub proof fn all_entries_are_there(v: Seq<MsEntry>, i: int)
    ensures
        entries_view(v).len() == v.len(),
        0 <= i < v.len() ==> entries_view(v)[i] == v[i]@,
{
}

/// Every element is there, at its place.
pub proof fn all_providers_are_there(v: Seq<ProviderConfig>, i: int)
    ensures
        providers_view(v).len() == v.len(),
        0 <= i < v.len() ==> providers_view(v)[i] == v[i]@,
{
}

/// Every element is there, at its place.
pub proof fn all_answers_are_there(v: Seq<Vec<usize>>, i: int)
    ensures
        answers_view(v).len() == v.len(),
        0 <= i < v.len() ==> answers_view(v)[i] == v[i]@,
{
}

/// Every element is there, at its place.
pub proof fn all_texts_are_there(v: Seq<String>, i: int)
    ensures
        text_views(v).len() == v.len(),
        0 <= i < v.len() ==> text_views(v)[i] == v[i]@,
{
}

/// Every element is there, at its place.
pub proof fn all_values_are_there(v: Seq<Json>, i: int)
    ensures
        values_view(v).len() == v.len(),
        0 <= i < v.len() ==> values_view(v)[i] == v[i]@,
{
}

/// Every text that was typed is there, at its place.
pub proof fn all_typed_texts_are_there(v: Seq<Option<String>>, i: int, s: String)
    ensures
        custom_view(v).len() == v.len(),
        0 <= i < v.len() && v[i] == Some(s) ==> custom_view(v)[i] == Some(s@),
        0 <= i < v.len() && v[i] is None ==> custom_view(v)[i] is None,
{
}

/// Every manifest is there, at its place, with its name and its text.
pub proof fn all_manifests_are_there(v: Seq<MarketManifest>, i: int, text: String)
    ensures
        markets_view(v).len() == v.len(),
        0 <= i < v.len() ==> markets_view(v)[i].0 == v[i].name@,
        0 <= i < v.len() && v[i].content == Some(text) ==> markets_view(v)[i].1 == Some(text@),
        0 <= i < v.len() && v[i].content is None ==> markets_view(v)[i].1 is None,
{
}

/// A value holds what it was made of, at any depth and in order.
pub proof fn a_value_holds_its_parts(
    s: String,
    b: bool,
    list: Vec<Json>,
    members: Vec<Member>,
    i: int,
)
    ensures
        Json::Null@ == JsonV::Null,
        Json::Bool(b)@ == JsonV::Bool(b),
        Json::Number(s)@ == JsonV::Number(s@),
        Json::Str(s)@ == JsonV::Str(s@),
        Json::Array(list)@ is Array && Json::Array(list)@->Array_0.len() == list@.len(),
        0 <= i < list@.len() ==> Json::Array(list)@->Array_0[i] == list@[i]@,
        Json::Object(members)@ is Object && Json::Object(members)@->Object_0.len() == members@.len(),
        0 <= i < members@.len() ==> Json::Object(members)@->Object_0[i] == (
            members@[i].key@,
            members@[i].value@,
        ),
        members_view(members@).len() == members@.len(),
        0 <= i < members@.len() ==> members_view(members@)[i] == (
            members@[i].key@,
            members@[i].value@,
        ),
{
    reveal_with_fuel(json_view, 2);
}

/// References to items stand for the items.
pub proof fn references_stand_for_items(
    v: Seq<&PluginSearchResultItem>,
    g: Seq<&TuiSubAgentGroup>,
    i: int,
)
    ensures
        item_refs(v).len() == v.len(),
        0 <= i < v.len() ==> item_refs(v)[i] == v[i]@,
        referents(g).len() == g.len(),
        0 <= i < g.len() ==> referents(g)[i] == *g[i],
{
}

/// The messages that can be gone back to are those of the preview, all of them.
pub proof fn all_candidates_are_known(p: RewindPreview, i: int)
    ensures
        candidates(Some(p)) == Some(messages_view(p.messages@)),
        candidates(None) is None,
        known(candidates(Some(p))).len() == p.messages@.len(),
        0 <= i < p.messages@.len() ==> known(candidates(Some(p)))[i] == p.messages@[i]@,
        known(None).len() == 0,
{
}

} // verus!
