//! What is known of marketplaces and their plugins, from what is stored of them.

use crate::json::{field, parse_json, parsed, str_field, str_of, values_view, Json, JsonV};
use crate::panels::plugin::discover::{SearchSession, SearchTicket};
use crate::panels::plugin::types::{items_view, EntryV, ItemV, MsEntry, MsStatus,
    PluginSearchResultItem};
use crate::text::{after_first, cat, cat3, opt_view, same, slice_chars, text_after, text_views,
    to_chars};
use vstd::prelude::*;

verus! {

/// Where a marketplace is fetched from.
#[derive(Debug)]
pub enum MarketplaceSource {
    GitHub { repo: String },
    Git { url: String },
    Url { url: String },
    Directory { path: String },
    File { path: String },
    Npm { package: String },
}

/// Where a marketplace is fetched from, abstractly.
pub enum SourceV {
    GitHub(Seq<char>),
    Git(Seq<char>),
    Url(Seq<char>),
    Directory(Seq<char>),
    File(Seq<char>),
    Npm(Seq<char>),
}

impl View for MarketplaceSource {
    type V = SourceV;

    open spec fn view(&self) -> SourceV {
        match *self {
            MarketplaceSource::GitHub { repo } => SourceV::GitHub(repo@),
            MarketplaceSource::Git { url } => SourceV::Git(url@),
            MarketplaceSource::Url { url } => SourceV::Url(url@),
            MarketplaceSource::Directory { path } => SourceV::Directory(path@),
            MarketplaceSource::File { path } => SourceV::File(path@),
            MarketplaceSource::Npm { package } => SourceV::Npm(package@),
        }
    }
}

/// A registered marketplace. `name` is what it is called in ids and paths.
#[derive(Debug)]
pub struct KnownMarketplace {
    pub name: String,
    pub source: MarketplaceSource,
    pub install_location: String,
    pub auto_update: bool,
    pub last_updated: String,
}

/// A registered marketplace, abstractly.
pub struct KnownV {
    pub name: Seq<char>,
    pub source: SourceV,
    pub install_location: Seq<char>,
    pub auto_update: bool,
    pub last_updated: Seq<char>,
}

impl View for KnownMarketplace {
    type V = KnownV;

    open spec fn view(&self) -> KnownV {
        KnownV {
            name: self.name@,
            source: self.source@,
            install_location: self.install_location@,
            auto_update: self.auto_update,
            last_updated: self.last_updated@,
        }
    }
}

/// The marketplaces, abstractly.
pub open spec fn known_view(v: Seq<KnownMarketplace>) -> Seq<KnownV> {
    v.map_values(|k: KnownMarketplace| k@)
}

/// What the disk holds of a marketplace's manifest: its age in seconds and its
/// text, as far as they could be read.
#[derive(Debug)]
pub struct StoredManifest {
    pub age_secs: Option<u64>,
    pub content: Option<String>,
}

/// A stored manifest, abstractly.
pub struct ManifestV {
    pub age: Option<u64>,
    pub content: Option<Seq<char>>,
}

impl View for StoredManifest {
    type V = ManifestV;

    open spec fn view(&self) -> ManifestV {
        ManifestV { age: self.age_secs, content: opt_view(self.content) }
    }
}

/// A manifest that may be absent, abstractly.
pub open spec fn manifest_view(m: Option<StoredManifest>) -> Option<ManifestV> {
    match m {
        Some(m) => Some(m@),
        None => None,
    }
}

/// A manifest older than this many seconds is stale.
pub const STALE_AFTER_SECS: u64 = 86_400;

// ── Marketplaces ───────────────────────────────────────────────────────────

/// How a source is labelled.
pub open spec fn source_label_spec(s: SourceV) -> Seq<char> {
    match s {
        SourceV::GitHub(repo) => "github:"@ + repo,
        SourceV::Git(url) => "git:"@ + url,
        SourceV::Url(url) => url,
        SourceV::Directory(path) => path,
        SourceV::File(path) => path,
        SourceV::Npm(package) => "npm:"@ + package,
    }
}

/// How a source is labelled.
pub fn source_label(s: &MarketplaceSource) -> (r: String)
    ensures
        r@ == source_label_spec(s@),
{
    match s {
        MarketplaceSource::GitHub { repo } => cat("github:", repo.as_str()),
        MarketplaceSource::Git { url } => cat("git:", url.as_str()),
        MarketplaceSource::Url { url } => url.clone(),
        MarketplaceSource::Directory { path } => path.clone(),
        MarketplaceSource::File { path } => path.clone(),
        MarketplaceSource::Npm { package } => cat("npm:", package.as_str()),
    }
}

/// The plugins that a manifest lists.
pub open spec fn listed(manifest: JsonV) -> Option<Seq<JsonV>> {
    match field(manifest, "plugins"@) {
        Some(JsonV::Array(v)) => Some(v),
        _ => None,
    }
}

/// The value that a text denotes, if it could be read and is JSON.
pub open spec fn content_value(content: Option<Seq<char>>) -> Option<JsonV> {
    match content {
        Some(text) => parsed(text),
        None => None,
    }
}

/// A manifest whose text has been taken as JSON: its age, and the value, if there is one.
#[derive(Debug)]
pub struct ReadManifest {
    pub age_secs: Option<u64>,
    pub value: Option<Json>,
}

/// A manifest whose text has been taken as JSON, abstractly.
pub struct ReadV {
    pub age: Option<u64>,
    pub value: Option<JsonV>,
}

/// A value that may be absent, abstractly.
pub open spec fn value_view(v: Option<Json>) -> Option<JsonV> {
    match v {
        Some(j) => Some(j@),
        None => None,
    }
}

/// A manifest that may be absent, abstractly.
pub open spec fn read_view(m: Option<ReadManifest>) -> Option<ReadV> {
    match m {
        Some(m) => Some(ReadV { age: m.age_secs, value: value_view(m.value) }),
        None => None,
    }
}

/// What is read of a manifest.
pub open spec fn reading(m: Option<ManifestV>) -> Option<ReadV> {
    match m {
        Some(m) => Some(ReadV { age: m.age, value: content_value(m.content) }),
        None => None,
    }
}

/// How fresh what is known of a marketplace is.
pub open spec fn status_of(k: KnownV, m: Option<ReadV>) -> MsStatus {
    if m is Some && m->0.value is None {
        MsStatus::Failed
    } else if k.install_location.len() == 0 || m is None {
        MsStatus::NotFound
    } else if m->0.age is Some && m->0.age->0 > STALE_AFTER_SECS {
        MsStatus::Stale
    } else {
        MsStatus::Cached
    }
}

/// How many plugins a manifest lists.
pub open spec fn listed_count(m: Option<ReadV>) -> nat {
    match m {
        Some(ReadV { age: _, value: Some(value) }) => match listed(value) {
            Some(v) => v.len(),
            None => 0,
        },
        _ => 0,
    }
}

/// How many of the installed ids name the marketplace behind their first `@`.
pub open spec fn installed_from(ids: Seq<Seq<char>>, name: Seq<char>) -> nat
    decreases ids.len(),
{
    if ids.len() == 0 {
        0
    } else {
        installed_from(ids.drop_last(), name) + if after_first(ids.last(), '@') == name {
            1nat
        } else {
            0nat
        }
    }
}

/// What the list of marketplaces shows of one.
pub open spec fn entry_of(k: KnownV, m: Option<ReadV>, ids: Seq<Seq<char>>) -> EntryV {
    EntryV {
        name: k.name,
        source_label: source_label_spec(k.source),
        plugin_count: listed_count(m),
        installed_count: installed_from(ids, k.name),
        status: status_of(k, m),
        last_updated: if k.last_updated.len() == 0 {
            None
        } else {
            Some(k.last_updated)
        },
        auto_update: k.auto_update,
    }
}

fn count_installed(ids: &Vec<String>, name: &str) -> (n: usize)
    ensures
        n == installed_from(text_views(ids@), name@),
{
    let ghost all = text_views(ids@);
    let mut n: usize = 0;
    let mut i: usize = 0;
    while i < ids.len()
        invariant
            i <= ids@.len(),
            all == text_views(ids@),
            n == installed_from(all.take(i as int), name@),
            n <= i,
        decreases ids.len() - i,
    {
        assert(all.take(i + 1).drop_last() =~= all.take(i as int));
        let market = text_after(ids[i].as_str(), '@');
        if same(market.as_str(), name) {
            n = n + 1;
        }
        i = i + 1;
    }
    assert(all.take(i as int) =~= all);
    n
}

/// The plugins that a manifest's value lists.
fn plugin_list(manifest: &Json) -> (r: Option<&Vec<Json>>)
    ensures
        match r {
            Some(v) => listed(manifest@) == Some(values_view(v@)),
            None => listed(manifest@) is None,
        },
{
    match manifest.get("plugins") {
        Some(v) => v.as_array(),
        None => None,
    }
}

/// What the list of marketplaces shows of one whose manifest has been read.
pub fn marketplace_entry_of(
    known: &KnownMarketplace,
    manifest: &Option<ReadManifest>,
    installed_ids: &Vec<String>,
) -> (e: MsEntry)
    ensures
        e@ == entry_of(known@, read_view(*manifest), text_views(installed_ids@)),
{
    let mut status = MsStatus::NotFound;
    let mut plugin_count: usize = 0;
    match manifest {
        Some(m) => {
            if !known.install_location.as_str().is_empty() {
                status = MsStatus::Cached;
                match m.age_secs {
                    Some(age) => {
                        if age > STALE_AFTER_SECS {
                            status = MsStatus::Stale;
                        }
                    },
                    None => {},
                }
            }
            match &m.value {
                Some(v) => {
                    plugin_count = match plugin_list(v) {
                        Some(list) => list.len(),
                        None => 0,
                    };
                },
                None => {
                    status = MsStatus::Failed;
                },
            }
        },
        None => {},
    }
    MsEntry {
        name: known.name.clone(),
        source_label: source_label(&known.source),
        plugin_count,
        installed_count: count_installed(installed_ids, known.name.as_str()),
        status,
        last_updated: if known.last_updated.as_str().is_empty() {
            None
        } else {
            Some(known.last_updated.clone())
        },
        auto_update: known.auto_update,
    }
}

fn read_content(content: &Option<String>) -> (v: Option<Json>)
    ensures
        value_view(v) == content_value(opt_view(*content)),
{
    match content {
        Some(text) => parse_json(text.as_str()),
        None => None,
    }
}

/// What the list of marketplaces shows of one.
pub fn marketplace_entry(
    known: &KnownMarketplace,
    manifest: &Option<StoredManifest>,
    installed_ids: &Vec<String>,
) -> (e: MsEntry)
    ensures
        e@ == entry_of(known@, reading(manifest_view(*manifest)), text_views(installed_ids@)),
{
    let read = match manifest {
        Some(m) => Some(ReadManifest { age_secs: m.age_secs, value: read_content(&m.content) }),
        None => None,
    };
    marketplace_entry_of(known, &read, installed_ids)
}

/// Registers a marketplace that has not been fetched yet, unless its source is
/// registered already.
pub fn add_marketplace(known: &mut Vec<KnownMarketplace>, name: &str, source: MarketplaceSource) -> (added: bool)
    ensures
        added == !(exists|i: int|
            0 <= i < old(known)@.len() && (#[trigger] old(known)@[i])@.source == source@),
        known_view(final(known)@) == (if added {
            known_view(old(known)@).push(
                KnownV {
                    name: name@,
                    source: source@,
                    install_location: Seq::empty(),
                    auto_update: false,
                    last_updated: Seq::empty(),
                },
            )
        } else {
            known_view(old(known)@)
        }),
{
    let ghost before = known@;
    let mut i: usize = 0;
    while i < known.len()
        invariant
            i <= known@.len(),
            known@ == before,
            forall|j: int| 0 <= j < i ==> (#[trigger] before[j])@.source != source@,
        decreases known.len() - i,
    {
        if same_source(&known[i].source, &source) {
            assert(before[i as int]@.source == source@);
            return false;
        }
        i = i + 1;
    }
    let added = KnownMarketplace {
        name: name.to_owned(),
        source,
        install_location: String::new(),
        auto_update: false,
        last_updated: String::new(),
    };
    known.push(added);
    assert(known_view(known@) =~= known_view(before).push(added@));
    true
}

fn same_source(a: &MarketplaceSource, b: &MarketplaceSource) -> (r: bool)
    ensures
        r == (a@ == b@),
{
    match (a, b) {
        (MarketplaceSource::GitHub { repo: x }, MarketplaceSource::GitHub { repo: y }) => same(
            x.as_str(),
            y.as_str(),
        ),
        (MarketplaceSource::Git { url: x }, MarketplaceSource::Git { url: y }) => same(
            x.as_str(),
            y.as_str(),
        ),
        (MarketplaceSource::Url { url: x }, MarketplaceSource::Url { url: y }) => same(
            x.as_str(),
            y.as_str(),
        ),
        (MarketplaceSource::Directory { path: x }, MarketplaceSource::Directory { path: y }) => same(
            x.as_str(),
            y.as_str(),
        ),
        (MarketplaceSource::File { path: x }, MarketplaceSource::File { path: y }) => same(
            x.as_str(),
            y.as_str(),
        ),
        (MarketplaceSource::Npm { package: x }, MarketplaceSource::Npm { package: y }) => same(
            x.as_str(),
            y.as_str(),
        ),
        _ => false,
    }
}

/// The marketplaces that do not bear the name, in order.
pub open spec fn without_name(known: Seq<KnownV>, name: Seq<char>) -> Seq<KnownV>
    decreases known.len(),
{
    if known.len() == 0 {
        known
    } else if known.last().name != name {
        without_name(known.drop_last(), name).push(known.last())
    } else {
        without_name(known.drop_last(), name)
    }
}

/// Takes every marketplace of a name off the register.
pub fn remove_marketplace(known: Vec<KnownMarketplace>, name: &str) -> (r: Vec<KnownMarketplace>)
    ensures
        known_view(r@) == without_name(known_view(known@), name@),
{
    let ghost all = known_view(known@);
    let ghost items = known@;
    let mut kept: Vec<KnownMarketplace> = Vec::new();
    assert(known_view(kept@) =~= without_name(all.take(0), name@));
    for k in it: known
        invariant
            it.seq() == items,
            all == known_view(items),
            known_view(kept@) == without_name(all.take(it.index() as int), name@),
    {
        let ghost i = it.index() as int;
        let ghost before = known_view(kept@);
        assert(all.take(i + 1).drop_last() =~= all.take(i));
        if !same(k.name.as_str(), name) {
            let ghost v = k@;
            kept.push(k);
            assert(known_view(kept@) =~= before.push(v));
        }
    }
    assert(all.take(all.len() as int) =~= all);
    kept
}

/// No marketplace of the register is the official one, that of a repository.
pub fn lacks_official(known: &Vec<KnownMarketplace>, official_repo: &str) -> (b: bool)
    ensures
        b == (forall|i: int|
            0 <= i < known@.len() ==> (#[trigger] known@[i])@.source != SourceV::GitHub(
                official_repo@,
            )),
{
    let mut i: usize = 0;
    while i < known.len()
        invariant
            i <= known@.len(),
            forall|j: int|
                0 <= j < i ==> (#[trigger] known@[j])@.source != SourceV::GitHub(official_repo@),
        decreases known.len() - i,
    {
        match &known[i].source {
            MarketplaceSource::GitHub { repo } => {
                if same(repo.as_str(), official_repo) {
                    assert(known@[i as int]@.source == SourceV::GitHub(official_repo@));
                    return false;
                }
            },
            _ => {},
        }
        i = i + 1;
    }
    true
}

/// The official marketplace as it is registered where it is missing.
pub fn official_marketplace(official_repo: &str, name: &str, install_location: &str) -> (k:
    KnownMarketplace)
    ensures
        k@ == (KnownV {
            name: name@,
            source: SourceV::GitHub(official_repo@),
            install_location: install_location@,
            auto_update: true,
            last_updated: Seq::empty(),
        }),
{
    KnownMarketplace {
        name: name.to_owned(),
        source: MarketplaceSource::GitHub { repo: official_repo.to_owned() },
        install_location: install_location.to_owned(),
        auto_update: true,
        last_updated: String::new(),
    }
}

/// What stands behind the last slash of a text, all of it where there is none.
pub open spec fn last_part(s: Seq<char>) -> Seq<char>
    decreases s.len(),
{
    if s.len() == 0 || s.last() == '/' {
        Seq::empty()
    } else {
        last_part(s.drop_last()).push(s.last())
    }
}

/// The name of a repository: what stands behind the last slash of its place.
pub fn repo_name(repo: &str) -> (r: String)
    ensures
        r@ == last_part(repo@),
{
    let cs = to_chars(repo);
    let n: usize = cs.len();
    let mut i: usize = n;
    assert(cs@.take(n as int) =~= repo@);
    assert(cs@.subrange(n as int, n as int) =~= Seq::empty());
    assert(last_part(repo@) =~= last_part(cs@.take(i as int)) + cs@.subrange(i as int, n as int));
    while i > 0 && cs[i - 1] != '/'
        invariant
            i <= n,
            n == cs@.len(),
            last_part(repo@) == last_part(cs@.take(i as int)) + cs@.subrange(i as int, n as int),
        decreases i,
    {
        let ghost here = cs@.take(i as int);
        assert(here.drop_last() =~= cs@.take(i - 1));
        i = i - 1;
        assert(last_part(repo@) =~= last_part(cs@.take(i as int)) + cs@.subrange(
            i as int,
            n as int,
        ));
    }
    assert(last_part(repo@) =~= cs@.subrange(i as int, n as int));
    slice_chars(&cs, i, n)
}

/// The name of a repository ends its place and holds no slash.
pub proof fn a_repo_name_holds_no_slash(repo: Seq<char>)
    ensures
        last_part(repo).is_suffix_of(repo),
        !last_part(repo).contains('/'),
    decreases repo.len(),
{
    if repo.len() > 0 && repo.last() != '/' {
        a_repo_name_holds_no_slash(repo.drop_last());
        let name = last_part(repo.drop_last());
        assert forall|i: int| 0 <= i < last_part(repo).len() implies last_part(repo)[i] != '/' by {
            if i < name.len() {
                assert(name.contains(name[i]));
            }
        }
    }
}

// ── The catalog ────────────────────────────────────────────────────────────

/// The author of a listed plugin: a text, or the name of an object.
pub open spec fn author_of(p: JsonV) -> Option<Seq<char>> {
    match field(p, "author"@) {
        Some(v) => match str_of(v) {
            Some(s) => Some(s),
            None => str_field(v, "name"@),
        },
        None => None,
    }
}

/// The name of a listed plugin, empty where it has none.
pub open spec fn name_of(p: JsonV) -> Seq<char> {
    match str_field(p, "name"@) {
        Some(s) => s,
        None => Seq::empty(),
    }
}

/// The catalog's item for a listed plugin of a marketplace.
pub open spec fn item_of(p: JsonV, market: Seq<char>) -> ItemV {
    ItemV {
        name: name_of(p),
        version: match str_field(p, "version"@) {
            Some(s) => if s.len() > 0 {
                s
            } else {
                "—"@
            },
            None => "—"@,
        },
        marketplace: market,
        description: match str_field(p, "description"@) {
            Some(s) => s,
            None => Seq::empty(),
        },
        author: author_of(p),
    }
}

/// A listed plugin that the catalog offers: it has a name and is not installed.
pub open spec fn offered(p: JsonV, market: Seq<char>, installed: Seq<Seq<char>>) -> bool {
    name_of(p).len() > 0 && !installed.contains(name_of(p) + "@"@ + market)
}

/// The items that the catalog offers of a list.
pub open spec fn offers(list: Seq<JsonV>, market: Seq<char>, installed: Seq<Seq<char>>) -> Seq<ItemV>
    decreases list.len(),
{
    if list.len() == 0 {
        Seq::empty()
    } else if offered(list.last(), market, installed) {
        offers(list.drop_last(), market, installed).push(item_of(list.last(), market))
    } else {
        offers(list.drop_last(), market, installed)
    }
}

/// The items that the catalog offers of the value of one marketplace's manifest.
pub open spec fn market_offers(
    value: Option<JsonV>,
    market: Seq<char>,
    installed: Seq<Seq<char>>,
) -> Seq<ItemV> {
    match value {
        Some(value) => match listed(value) {
            Some(list) => offers(list, market, installed),
            None => Seq::empty(),
        },
        None => Seq::empty(),
    }
}

/// The items of all marketplaces, one behind the other.
pub open spec fn catalog(
    markets: Seq<(Seq<char>, Option<Seq<char>>)>,
    installed: Seq<Seq<char>>,
) -> Seq<ItemV>
    decreases markets.len(),
{
    if markets.len() == 0 {
        Seq::empty()
    } else {
        catalog(markets.drop_last(), installed) + market_offers(
            content_value(markets.last().1),
            markets.last().0,
            installed,
        )
    }
}

/// The name of a marketplace and the text of its manifest, if it could be read.
#[derive(Debug)]
pub struct MarketManifest {
    pub name: String,
    pub content: Option<String>,
}

/// The manifests, abstractly.
pub open spec fn markets_view(v: Seq<MarketManifest>) -> Seq<(Seq<char>, Option<Seq<char>>)> {
    v.map_values(|m: MarketManifest| (m.name@, opt_view(m.content)))
}

fn is_installed(ids: &Vec<String>, id: &str) -> (b: bool)
    ensures
        b == text_views(ids@).contains(id@),
{
    let ghost all = text_views(ids@);
    let mut i: usize = 0;
    while i < ids.len()
        invariant
            i <= ids@.len(),
            all == text_views(ids@),
            forall|j: int| 0 <= j < i ==> all[j] != id@,
        decreases ids.len() - i,
    {
        if same(ids[i].as_str(), id) {
            assert(all[i as int] == id@);
            return true;
        }
        i = i + 1;
    }
    false
}

fn own(s: Option<&str>) -> (r: String)
    ensures
        r@ == (match s {
            Some(t) => t@,
            None => Seq::empty(),
        }),
{
    match s {
        Some(t) => t.to_owned(),
        None => String::new(),
    }
}

fn read_item(p: &Json, market: &str) -> (r: PluginSearchResultItem)
    ensures
        r@ == item_of(p@, market@),
{
    let author: Option<String> = match p.get("author") {
        Some(v) => match v.as_str() {
            Some(s) => Some(s.to_owned()),
            None => match v.get_str("name") {
                Some(s) => Some(s.to_owned()),
                None => None,
            },
        },
        None => None,
    };
    let version = match p.get_str("version") {
        Some(s) => if s.is_empty() {
            "—".to_owned()
        } else {
            s.to_owned()
        },
        None => "—".to_owned(),
    };
    PluginSearchResultItem {
        name: own(p.get_str("name")),
        version,
        marketplace: market.to_owned(),
        description: own(p.get_str("description")),
        author,
    }
}

fn collect_offers(
    out: &mut Vec<PluginSearchResultItem>,
    list: &Vec<Json>,
    market: &str,
    installed_ids: &Vec<String>,
)
    ensures
        items_view(final(out)@) == items_view(old(out)@) + offers(
            values_view(list@),
            market@,
            text_views(installed_ids@),
        ),
{
    let ghost start = items_view(out@);
    let ghost all = values_view(list@);
    let ghost ids = text_views(installed_ids@);
    let mut i: usize = 0;
    assert(items_view(out@) =~= start + offers(all.take(0), market@, ids));
    while i < list.len()
        invariant
            i <= list@.len(),
            all == values_view(list@),
            ids == text_views(installed_ids@),
            items_view(out@) == start + offers(all.take(i as int), market@, ids),
        decreases list.len() - i,
    {
        assert(all.take(i + 1).drop_last() =~= all.take(i as int));
        let ghost before = items_view(out@);
        let item = read_item(&list[i], market);
        if !item.name.as_str().is_empty() {
            let id = cat3(item.name.as_str(), "@", market);
            if !is_installed(installed_ids, id.as_str()) {
                let ghost v = item@;
                out.push(item);
                assert(items_view(out@) =~= before.push(v));
            }
        }
        i = i + 1;
        assert(items_view(out@) =~= start + offers(all.take(i as int), market@, ids));
    }
    assert(all.take(i as int) =~= all);
}

/// Adds what the value of a marketplace's manifest lists and is not installed yet.
pub fn collect_market(
    out: &mut Vec<PluginSearchResultItem>,
    value: &Option<Json>,
    market: &str,
    installed_ids: &Vec<String>,
)
    ensures
        items_view(final(out)@) == items_view(old(out)@) + market_offers(
            value_view(*value),
            market@,
            text_views(installed_ids@),
        ),
{
    let ghost before = items_view(out@);
    assert(before + Seq::<ItemV>::empty() =~= before);
    match value {
        Some(v) => {
            match plugin_list(v) {
                Some(list) => {
                    collect_offers(out, list, market, installed_ids);
                },
                None => {},
            }
        },
        None => {},
    }
}

/// The catalog: what the manifests list and is not installed yet.
pub fn discover_catalog(markets: &Vec<MarketManifest>, installed_ids: &Vec<String>) -> (r: Vec<
    PluginSearchResultItem,
>)
    ensures
        items_view(r@) == catalog(markets_view(markets@), text_views(installed_ids@)),
{
    let ghost all = markets_view(markets@);
    let ghost ids = text_views(installed_ids@);
    let mut out: Vec<PluginSearchResultItem> = Vec::new();
    let mut i: usize = 0;
    assert(items_view(out@) =~= catalog(all.take(0), ids));
    while i < markets.len()
        invariant
            i <= markets@.len(),
            all == markets_view(markets@),
            ids == text_views(installed_ids@),
            items_view(out@) == catalog(all.take(i as int), ids),
        decreases markets.len() - i,
    {
        assert(all.take(i + 1).drop_last() =~= all.take(i as int));
        let m = &markets[i];
        let value = read_content(&m.content);
        collect_market(&mut out, &value, m.name.as_str(), installed_ids);
        i = i + 1;
    }
    assert(all.take(i as int) =~= all);
    out
}

/// Nothing that is installed, and nothing without a name, is offered.
pub proof fn offers_are_new(
    list: Seq<JsonV>,
    market: Seq<char>,
    installed: Seq<Seq<char>>,
    k: int,
)
    requires
        0 <= k < offers(list, market, installed).len(),
    ensures
        offers(list, market, installed)[k].name.len() > 0,
        offers(list, market, installed)[k].marketplace == market,
        !installed.contains(offers(list, market, installed)[k].name + "@"@ + market),
    decreases list.len(),
{
    if offered(list.last(), market, installed) && k == offers(
        list.drop_last(),
        market,
        installed,
    ).len() {
    } else {
        offers_are_new(list.drop_last(), market, installed, k);
    }
}

// ── Search replies ─────────────────────────────────────────────────────────

/// A field that holds a text or nothing: absent and `null` are nothing, and any
/// other value is no answer.
pub open spec fn optional_text(v: Option<JsonV>) -> Option<Option<Seq<char>>> {
    match v {
        None => Some(None),
        Some(JsonV::Null) => Some(None),
        Some(JsonV::Str(s)) => Some(Some(s)),
        _ => None,
    }
}

/// The plugin that a value of a reply describes: an object by its keys, or a list
/// of its five values in order.
pub open spec fn result_item(j: JsonV) -> Option<ItemV> {
    match j {
        JsonV::Object(_) => match (
            str_field(j, "name"@),
            str_field(j, "version"@),
            str_field(j, "marketplace"@),
            str_field(j, "description"@),
            optional_text(field(j, "author"@)),
        ) {
            (Some(name), Some(version), Some(marketplace), Some(description), Some(author)) => Some(
                ItemV { name, version, marketplace, description, author },
            ),
            _ => None,
        },
        JsonV::Array(v) => if v.len() == 5 {
            match (
                str_of(v[0]),
                str_of(v[1]),
                str_of(v[2]),
                str_of(v[3]),
                optional_text(Some(v[4])),
            ) {
                (Some(name), Some(version), Some(marketplace), Some(description), Some(author)) => Some(
                    ItemV { name, version, marketplace, description, author },
                ),
                _ => None,
            }
        } else {
            None
        },
        _ => None,
    }
}

/// Every value of a list describes a plugin.
pub open spec fn all_items(list: Seq<JsonV>) -> bool {
    forall|i: int| 0 <= i < list.len() ==> result_item(#[trigger] list[i]) is Some
}

/// The results of a reply: a list under `results` of values that all describe a
/// plugin.
pub open spec fn decoded(value: JsonV) -> Option<Seq<ItemV>> {
    match field(value, "results"@) {
        Some(JsonV::Array(list)) => if all_items(list) {
            Some(list.map_values(|j: JsonV| result_item(j)->0))
        } else {
            None
        },
        _ => None,
    }
}

/// Why a search failed.
#[derive(Debug)]
pub enum SearchFailure {
    /// There is no connection to search over.
    NoClient,
    /// The request was refused.
    Refused(String),
    /// The reply does not hold results.
    InvalidResponse,
}

fn read_optional(v: Option<&Json>) -> (r: Option<Option<String>>)
    ensures
        match r {
            Some(o) => optional_text(
                match v {
                    Some(j) => Some(j@),
                    None => None,
                },
            ) == Some(opt_view(o)),
            None => optional_text(
                match v {
                    Some(j) => Some(j@),
                    None => None,
                },
            ) is None,
        },
{
    match v {
        None => Some(None),
        Some(j) => match j {
            Json::Null => Some(None),
            Json::Str(s) => Some(Some(s.clone())),
            _ => None,
        },
    }
}

fn make_item(
    name: Option<&str>,
    version: Option<&str>,
    marketplace: Option<&str>,
    description: Option<&str>,
    author: Option<Option<String>>,
) -> (r: Option<PluginSearchResultItem>)
    ensures
        match r {
            Some(i) => {
                &&& name is Some && version is Some && marketplace is Some && description is Some
                    && author is Some
                &&& i@ == (ItemV {
                    name: name->0@,
                    version: version->0@,
                    marketplace: marketplace->0@,
                    description: description->0@,
                    author: opt_view(author->0),
                })
            },
            None => name is None || version is None || marketplace is None || description is None
                || author is None,
        },
{
    match (name, version, marketplace, description, author) {
        (Some(n), Some(v), Some(m), Some(d), Some(a)) => Some(
            PluginSearchResultItem {
                name: n.to_owned(),
                version: v.to_owned(),
                marketplace: m.to_owned(),
                description: d.to_owned(),
                author: a,
            },
        ),
        _ => None,
    }
}

fn read_result(j: &Json) -> (r: Option<PluginSearchResultItem>)
    ensures
        match r {
            Some(i) => result_item(j@) == Some(i@),
            None => result_item(j@) is None,
        },
{
    match j {
        Json::Object(_) => make_item(
            j.get_str("name"),
            j.get_str("version"),
            j.get_str("marketplace"),
            j.get_str("description"),
            read_optional(j.get("author")),
        ),
        Json::Array(v) => {
            assert(j@->Array_0 =~= values_view(v@));
            if v.len() == 5 {
                make_item(
                    v[0].as_str(),
                    v[1].as_str(),
                    v[2].as_str(),
                    v[3].as_str(),
                    read_optional(Some(&v[4])),
                )
            } else {
                None
            }
        },
        _ => None,
    }
}

/// The results that a reply holds.
pub fn decode_results(value: &Json) -> (r: Result<Vec<PluginSearchResultItem>, SearchFailure>)
    ensures
        match r {
            Ok(items) => decoded(value@) == Some(items_view(items@)),
            Err(e) => decoded(value@) is None && e is InvalidResponse,
        },
{
    let list = match value.get("results") {
        Some(v) => match v.as_array() {
            Some(list) => list,
            None => {
                return Err(SearchFailure::InvalidResponse);
            },
        },
        None => {
            return Err(SearchFailure::InvalidResponse);
        },
    };
    let ghost all = values_view(list@);
    let mut out: Vec<PluginSearchResultItem> = Vec::new();
    let mut i: usize = 0;
    while i < list.len()
        invariant
            i <= list@.len(),
            all == values_view(list@),
            field(value@, "results"@) == Some(JsonV::Array(all)),
            out@.len() == i,
            forall|j: int| 0 <= j < i ==> result_item(#[trigger] all[j]) == Some(out@[j]@),
        decreases list.len() - i,
    {
        match read_result(&list[i]) {
            Some(item) => {
                out.push(item);
            },
            None => {
                assert(result_item(all[i as int]) is None);
                return Err(SearchFailure::InvalidResponse);
            },
        }
        i = i + 1;
    }
    assert(items_view(out@) =~= all.map_values(|j: JsonV| result_item(j)->0));
    Ok(out)
}

/// The answer to a search is still to be delivered: it has not been cancelled and
/// the session has not changed since.
pub fn may_deliver(ticket: &SearchTicket, cancelled: bool, current: &SearchSession) -> (b: bool)
    ensures
        b == (!cancelled && current@ == ticket@.session),
{
    !cancelled && current.is(&ticket.session)
}

} // verus!
