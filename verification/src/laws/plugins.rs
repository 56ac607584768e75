//! The catalog of plugins and the marketplaces they come from.

use crate::json::{field, parsed, str_field, JsonV};
use crate::panels::plugin::data::{catalog, decoded, installed_from, last_part, market_offers,
    offers, without_name, KnownV};
use crate::panels::plugin::types::ItemV;
use crate::text::{after_first, first_of};
use vstd::prelude::*;

verus! {

proof fn lemma_offers(list: Seq<JsonV>, market: Seq<char>, installed: Seq<Seq<char>>)
    ensures
        offers(list, market, installed) == list.filter(
            |p: JsonV|
                {
                    &&& str_field(p, "name"@) is Some
                    &&& str_field(p, "name"@)->0.len() > 0
                    &&& !installed.contains(str_field(p, "name"@)->0 + "@"@ + market)
                },
        ).map_values(
            |p: JsonV|
                ItemV {
                    name: str_field(p, "name"@)->0,
                    version: match str_field(p, "version"@) {
                        Some(s) => if s.len() > 0 {
                            s
                        } else {
                            "—"@
                        },
                        None => "—"@,
                    },
                    marketplace: market,
                    description: match str_field(p, "description"@) {
                        Some(s) => s,
                        None => Seq::empty(),
                    },
                    author: match field(p, "author"@) {
                        Some(JsonV::Str(s)) => Some(s),
                        Some(v) => str_field(v, "name"@),
                        None => None,
                    },
                },
        ),
    decreases list.len(),
{
    reveal(Seq::filter);
    if list.len() > 0 {
        lemma_offers(list.drop_last(), market, installed);
    }
}

/// The catalog offers of a manifest exactly the plugins that have a name and are not installed
/// under `name@marketplace`, in the order of the manifest, each as it is described there.
pub proof fn every_new_plugin_is_offered(
    manifest: JsonV,
    list: Seq<JsonV>,
    market: Seq<char>,
    installed: Seq<Seq<char>>,
)
    requires
        field(manifest, "plugins"@) == Some(JsonV::Array(list)),
    ensures
        market_offers(Some(manifest), market, installed) == list.filter(
            |p: JsonV|
                {
                    &&& str_field(p, "name"@) is Some
                    &&& str_field(p, "name"@)->0.len() > 0
                    &&& !installed.contains(str_field(p, "name"@)->0 + "@"@ + market)
                },
        ).map_values(
            |p: JsonV|
                ItemV {
                    name: str_field(p, "name"@)->0,
                    version: match str_field(p, "version"@) {
                        Some(s) => if s.len() > 0 {
                            s
                        } else {
                            "—"@
                        },
                        None => "—"@,
                    },
                    marketplace: market,
                    description: match str_field(p, "description"@) {
                        Some(s) => s,
                        None => Seq::empty(),
                    },
                    author: match field(p, "author"@) {
                        Some(JsonV::Str(s)) => Some(s),
                        Some(v) => str_field(v, "name"@),
                        None => None,
                    },
                },
        ),
{
    lemma_offers(list, market, installed);
}

/// Every element of the list that has a name and is not installed has its item among the offers,
/// and of two such elements the earlier one is offered earlier.
pub proof fn offers_keep_the_order(
    list: Seq<JsonV>,
    market: Seq<char>,
    installed: Seq<Seq<char>>,
    i: int,
    j: int,
)
    requires
        0 <= i < j < list.len(),
        str_field(list[i], "name"@) is Some,
        str_field(list[i], "name"@)->0.len() > 0,
        !installed.contains(str_field(list[i], "name"@)->0 + "@"@ + market),
        str_field(list[j], "name"@) is Some,
        str_field(list[j], "name"@)->0.len() > 0,
        !installed.contains(str_field(list[j], "name"@)->0 + "@"@ + market),
    ensures
        exists|k: int, l: int|
            {
                &&& 0 <= k < l < offers(list, market, installed).len()
                &&& Some((#[trigger] offers(list, market, installed)[k]).name) == str_field(
                    list[i],
                    "name"@,
                )
                &&& Some((#[trigger] offers(list, market, installed)[l]).name) == str_field(
                    list[j],
                    "name"@,
                )
            },
    decreases list.len(),
{
    let rest = list.drop_last();
    let all = offers(list, market, installed);
    let before = offers(rest, market, installed);
    if j == list.len() - 1 {
        let k = an_offer_is_there(rest, market, installed, i);
        assert(all == before.push(
            crate::panels::plugin::data::item_of(list.last(), market),
        ));
        assert(all[k] == before[k]);
        assert(Some(all[k].name) == str_field(list[i], "name"@));
        assert(Some(all[before.len() as int].name) == str_field(list[j], "name"@));
    } else {
        offers_keep_the_order(rest, market, installed, i, j);
        let (k, l) = choose|k: int, l: int|
            {
                &&& 0 <= k < l < before.len()
                &&& Some((#[trigger] before[k]).name) == str_field(rest[i], "name"@)
                &&& Some((#[trigger] before[l]).name) == str_field(rest[j], "name"@)
            };
        assert(all[k] == before[k] && all[l] == before[l]);
    }
}

/// An element that has a name and is not installed is offered at some place.
pub proof fn an_offer_is_there(
    list: Seq<JsonV>,
    market: Seq<char>,
    installed: Seq<Seq<char>>,
    i: int,
) -> (k: int)
    requires
        0 <= i < list.len(),
        str_field(list[i], "name"@) is Some,
        str_field(list[i], "name"@)->0.len() > 0,
        !installed.contains(str_field(list[i], "name"@)->0 + "@"@ + market),
    ensures
        0 <= k < offers(list, market, installed).len(),
        Some(offers(list, market, installed)[k].name) == str_field(list[i], "name"@),
        offers(list, market, installed)[k].marketplace == market,
        str_field(list[i], "description"@) is Some ==> Some(
            offers(list, market, installed)[k].description,
        ) == str_field(list[i], "description"@),
    decreases list.len(),
{
    if i == list.len() - 1 {
        offers(list.drop_last(), market, installed).len() as int
    } else {
        let k = an_offer_is_there(list.drop_last(), market, installed, i);
        assert(offers(list, market, installed)[k] == offers(
            list.drop_last(),
            market,
            installed,
        )[k]);
        k
    }
}

/// A manifest that lists nothing offers nothing, and so does one that could not be read.
pub proof fn no_list_offers_nothing(manifest: JsonV, market: Seq<char>, installed: Seq<Seq<char>>)
    ensures
        market_offers(None, market, installed).len() == 0,
        field(manifest, "plugins"@) is None || !(field(manifest, "plugins"@)->0 is Array)
            ==> market_offers(Some(manifest), market, installed).len() == 0,
{
}

proof fn lemma_catalog(
    markets: Seq<(Seq<char>, Option<Seq<char>>)>,
    installed: Seq<Seq<char>>,
)
    ensures
        catalog(markets, installed) == markets.map_values(
            |m: (Seq<char>, Option<Seq<char>>)|
                market_offers(
                    match m.1 {
                        Some(text) => parsed(text),
                        None => None,
                    },
                    m.0,
                    installed,
                ),
        ).flatten_alt(),
    decreases markets.len(),
{
    let parts = markets.map_values(
        |m: (Seq<char>, Option<Seq<char>>)|
            market_offers(
                match m.1 {
                    Some(text) => parsed(text),
                    None => None,
                },
                m.0,
                installed,
            ),
    );
    if markets.len() > 0 {
        lemma_catalog(markets.drop_last(), installed);
        assert(parts.drop_last() =~= markets.drop_last().map_values(
            |m: (Seq<char>, Option<Seq<char>>)|
                market_offers(
                    match m.1 {
                        Some(text) => parsed(text),
                        None => None,
                    },
                    m.0,
                    installed,
                ),
        ));
    }
}

/// The catalog holds what every marketplace offers, one behind the other.
pub proof fn every_marketplace_is_in_the_catalog(
    markets: Seq<(Seq<char>, Option<Seq<char>>)>,
    installed: Seq<Seq<char>>,
)
    ensures
        catalog(markets, installed) == markets.map_values(
            |m: (Seq<char>, Option<Seq<char>>)|
                market_offers(
                    match m.1 {
                        Some(text) => parsed(text),
                        None => None,
                    },
                    m.0,
                    installed,
                ),
        ).flatten(),
{
    lemma_catalog(markets, installed);
    markets.map_values(
        |m: (Seq<char>, Option<Seq<char>>)|
            market_offers(
                match m.1 {
                    Some(text) => parsed(text),
                    None => None,
                },
                m.0,
                installed,
            ),
    ).lemma_flatten_and_flatten_alt_are_equivalent();
}

/// What a marketplace offers is in the catalog, whatever the others offer.
pub proof fn an_offer_is_in_the_catalog(
    markets: Seq<(Seq<char>, Option<Seq<char>>)>,
    installed: Seq<Seq<char>>,
    i: int,
    text: Seq<char>,
    manifest: JsonV,
    k: int,
)
    requires
        0 <= i < markets.len(),
        markets[i].1 == Some(text),
        parsed(text) == Some(manifest),
        0 <= k < market_offers(Some(manifest), markets[i].0, installed).len(),
    ensures
        catalog(markets, installed).contains(
            market_offers(Some(manifest), markets[i].0, installed)[k],
        ),
    decreases markets.len(),
{
    let all = catalog(markets, installed);
    let before = catalog(markets.drop_last(), installed);
    let item = market_offers(Some(manifest), markets[i].0, installed)[k];
    if i == markets.len() - 1 {
        assert(all[before.len() + k] == item);
    } else {
        an_offer_is_in_the_catalog(markets.drop_last(), installed, i, text, manifest, k);
        let at = choose|at: int| 0 <= at < before.len() && before[at] == item;
        assert(all[at] == item);
    }
}

/// Taking a marketplace off the register keeps all others, in their order.
pub proof fn only_the_named_marketplace_goes(known: Seq<KnownV>, name: Seq<char>)
    ensures
        without_name(known, name) == known.filter(|k: KnownV| k.name != name),
    decreases known.len(),
{
    reveal(Seq::filter);
    if known.len() > 0 {
        only_the_named_marketplace_goes(known.drop_last(), name);
    }
}

/// What is counted as installed of a marketplace are all the ids that name it.
pub proof fn all_installed_are_counted(ids: Seq<Seq<char>>, name: Seq<char>)
    ensures
        installed_from(ids, name) == ids.filter(|id: Seq<char>| after_first(id, '@') == name).len(),
    decreases ids.len(),
{
    reveal(Seq::filter);
    if ids.len() > 0 {
        all_installed_are_counted(ids.drop_last(), name);
    }
}

/// The marketplace of an id is what stands behind its first `@`.
pub proof fn an_id_names_its_marketplace(name: Seq<char>, market: Seq<char>, c: char)
    requires
        !name.contains(c),
    ensures
        after_first(name.push(c) + market, c) == market,
        after_first(name, c).len() == 0,
{
    let s = name.push(c) + market;
    lemma_first_of(s, c, name.len() as int);
    assert(s.skip(name.len() as int + 1) =~= market);
    lemma_first_of(name, c, name.len() as int);
}

proof fn lemma_first_of(s: Seq<char>, c: char, at: int)
    requires
        0 <= at <= s.len(),
        at < s.len() ==> s[at] == c,
        forall|k: int| 0 <= k < at ==> s[k] != c,
    ensures
        first_of(s, c) == at,
    decreases s.len(),
{
    if at > 0 {
        let rest = s.drop_first();
        assert(forall|k: int| 0 <= k < rest.len() ==> rest[k] == s[k + 1]);
        lemma_first_of(rest, c, at - 1);
    }
}

/// The last part of a path is what stands behind its last slash, and a path without a slash is
/// its own last part.
pub proof fn the_last_part_is_behind_the_last_slash(front: Seq<char>, tail: Seq<char>)
    requires
        !tail.contains('/'),
    ensures
        last_part(front.push('/') + tail) == tail,
        last_part(tail) == tail,
    decreases tail.len(),
{
    let s = front.push('/') + tail;
    if tail.len() == 0 {
        assert(s.last() == '/');
    } else {
        let less = tail.drop_last();
        assert(tail.contains(tail.last()));
        assert forall|x: char| less.contains(x) implies tail.contains(x) by {
            let k = choose|k: int| 0 <= k < less.len() && less[k] == x;
            assert(tail[k] == x);
        }
        the_last_part_is_behind_the_last_slash(front, less);
        assert(s.drop_last() =~= front.push('/') + less);
        assert(less.push(tail.last()) =~= tail);
    }
}

/// The results of a reply are as many as its list holds, and each has the texts of the element
/// at its place, whether the element gives them under their keys or in order.
pub proof fn every_result_is_decoded(value: JsonV, list: Seq<JsonV>, i: int)
    requires
        field(value, "results"@) == Some(JsonV::Array(list)),
        0 <= i < list.len(),
    ensures
        decoded(value) matches Some(items) ==> {
            &&& items.len() == list.len()
            &&& list[i] is Object ==> {
                &&& Some(items[i].name) == str_field(list[i], "name"@)
                &&& Some(items[i].version) == str_field(list[i], "version"@)
                &&& Some(items[i].marketplace) == str_field(list[i], "marketplace"@)
                &&& Some(items[i].description) == str_field(list[i], "description"@)
                &&& items[i].author == str_field(list[i], "author"@)
            }
            &&& list[i] is Array ==> list[i]->Array_0 == seq![
                JsonV::Str(items[i].name),
                JsonV::Str(items[i].version),
                JsonV::Str(items[i].marketplace),
                JsonV::Str(items[i].description),
                match items[i].author {
                    Some(a) => JsonV::Str(a),
                    None => JsonV::Null,
                },
            ]
            &&& list[i] is Object || list[i] is Array
        },
        decoded(value) is None <==> exists|k: int|
            0 <= k < list.len() && !{
                let j = #[trigger] list[k];
                ||| j is Object && str_field(j, "name"@) is Some && str_field(j, "version"@) is Some
                    && str_field(j, "marketplace"@) is Some && str_field(j, "description"@) is Some
                    && (field(j, "author"@) is None || field(j, "author"@)->0 is Null || field(
                    j,
                    "author"@,
                )->0 is Str)
                ||| j is Array && j->Array_0.len() == 5 && j->Array_0[0] is Str
                    && j->Array_0[1] is Str && j->Array_0[2] is Str && j->Array_0[3] is Str && (
                j->Array_0[4] is Str || j->Array_0[4] is Null)
            },
{
    assert(crate::panels::plugin::data::all_items(list) ==>
        crate::panels::plugin::data::result_item(list[i]) is Some);
    assert forall|j: JsonV|
        (#[trigger] crate::panels::plugin::data::result_item(j)) is Some <==> {
            ||| j is Object && str_field(j, "name"@) is Some && str_field(j, "version"@) is Some
                && str_field(j, "marketplace"@) is Some && str_field(j, "description"@) is Some && (
            field(j, "author"@) is None || field(j, "author"@)->0 is Null || field(
                j,
                "author"@,
            )->0 is Str)
            ||| j is Array && j->Array_0.len() == 5 && j->Array_0[0] is Str && j->Array_0[1] is Str
                && j->Array_0[2] is Str && j->Array_0[3] is Str && (j->Array_0[4] is Str
                || j->Array_0[4] is Null)
        } by {
    }
}

/// A reply that holds no list of results is no answer.
pub proof fn no_results_are_no_answer(value: JsonV)
    requires
        field(value, "results"@) is None || !(field(value, "results"@)->0 is Array),
    ensures
        decoded(value) is None,
{
}

} // verus!
