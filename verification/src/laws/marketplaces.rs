//! What is known of a marketplace.

use crate::json::{field, parsed, JsonV};
use crate::panels::plugin::data::{entry_of, manifest_view, reading, KnownV, ReadV, SourceV,
    StoredManifest};
use crate::panels::plugin::types::MsStatus;
use crate::text::after_first;
use vstd::prelude::*;

verus! {

/// The entry of a marketplace counts all the plugins that its manifest lists and all the installed
/// ids that name it.
pub proof fn an_entry_counts_its_plugins(
    k: KnownV,
    age: Option<u64>,
    manifest: JsonV,
    list: Seq<JsonV>,
    ids: Seq<Seq<char>>,
)
    ensures
        field(manifest, "plugins"@) == Some(JsonV::Array(list)) ==> entry_of(
            k,
            Some(ReadV { age, value: Some(manifest) }),
            ids,
        ).plugin_count == list.len(),
        field(manifest, "plugins"@) is None ==> entry_of(
            k,
            Some(ReadV { age, value: Some(manifest) }),
            ids,
        ).plugin_count == 0,
        entry_of(k, None, ids).plugin_count == 0,
        entry_of(k, Some(ReadV { age, value: Some(manifest) }), ids).installed_count == ids.filter(
            |id: Seq<char>| after_first(id, '@') == k.name,
        ).len(),
        entry_of(k, None, ids).name == k.name,
        entry_of(k, None, ids).auto_update == k.auto_update,
        k.last_updated.len() > 0 ==> entry_of(k, None, ids).last_updated == Some(k.last_updated),
        k.last_updated.len() == 0 ==> entry_of(k, None, ids).last_updated is None,
{
    crate::laws::plugins::all_installed_are_counted(ids, k.name);
    lemma_same(ids, k);
}

proof fn lemma_same(ids: Seq<Seq<char>>, k: KnownV)
    ensures
        crate::panels::plugin::data::installed_from(ids, k.name) == ids.filter(
            |id: Seq<char>| after_first(id, '@') == k.name,
        ).len(),
    decreases ids.len(),
{
    reveal(Seq::filter);
    if ids.len() > 0 {
        lemma_same(ids.drop_last(), k);
    }
}

/// A manifest that is no JSON is a failure; one that was never fetched is not found; one older than
/// a day is stale, and any other is at hand.
pub proof fn an_entry_tells_how_fresh_it_is(
    k: KnownV,
    age: Option<u64>,
    manifest: JsonV,
    ids: Seq<Seq<char>>,
)
    ensures
        entry_of(k, Some(ReadV { age, value: None }), ids).status == MsStatus::Failed,
        entry_of(k, None, ids).status == MsStatus::NotFound,
        k.install_location.len() == 0 ==> entry_of(
            k,
            Some(ReadV { age, value: Some(manifest) }),
            ids,
        ).status == MsStatus::NotFound,
        k.install_location.len() > 0 && age is Some && age->0 > 86_400 ==> entry_of(
            k,
            Some(ReadV { age, value: Some(manifest) }),
            ids,
        ).status == MsStatus::Stale,
        k.install_location.len() > 0 && (age is None || age->0 <= 86_400) ==> entry_of(
            k,
            Some(ReadV { age, value: Some(manifest) }),
            ids,
        ).status == MsStatus::Cached,
{
}

/// A source is told by where it lies; those of one sort are told apart.
pub proof fn a_source_is_told_by_its_place(
    k: KnownV,
    other: KnownV,
    place: Seq<char>,
    ids: Seq<Seq<char>>,
)
    ensures
        k.source == SourceV::GitHub(place) ==> entry_of(k, None, ids).source_label == "github:"@
            + place,
        k.source == SourceV::Git(place) ==> entry_of(k, None, ids).source_label == "git:"@ + place,
        k.source == SourceV::Npm(place) ==> entry_of(k, None, ids).source_label == "npm:"@ + place,
        k.source == SourceV::Url(place) || k.source == SourceV::Directory(place) || k.source
            == SourceV::File(place) ==> entry_of(k, None, ids).source_label == place,
{
}

/// A manifest is read as the value that its text denotes, with its age.
pub proof fn a_manifest_is_read(m: StoredManifest, text: String)
    ensures
        m.content == Some(text) ==> reading(manifest_view(Some(m))) == Some(
            ReadV { age: m.age_secs, value: parsed(text@) },
        ),
        m.content is None ==> reading(manifest_view(Some(m))) == Some(
            ReadV { age: m.age_secs, value: None },
        ),
        reading(manifest_view(None)) is None,
{
}

} // verus!
