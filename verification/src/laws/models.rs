//! The models that the user changes between.

use crate::event::{Event, EventResult, KeyCode, KeyEvent, Rect};
use crate::panels::config::{alias_at, PeriV, ProfileV, ProviderV};
use crate::popups::model_quick_switch::{bare_rows, first_row, key_of, provider_from, row_from,
    rows_in_use, rows_of, switch_step, ModelQuickSwitchPopup, RowV, SwitchEffect};
use crate::wrap::trim_spec;
use vstd::prelude::*;

verus! {

proof fn lemma_profile(ps: Seq<ProfileV>, alias: Seq<char>, i: int, at: int)
    requires
        0 <= i <= at < ps.len(),
        ps[at].alias == alias,
        forall|k: int| i <= k < at ==> (#[trigger] ps[k]).alias != alias,
    ensures
        alias_at(ps, alias, i) == at,
    decreases at - i,
{
    if i < at {
        lemma_profile(ps, alias, i + 1, at);
    }
}

proof fn lemma_no_profile(ps: Seq<ProfileV>, alias: Seq<char>, i: int)
    requires
        0 <= i <= ps.len(),
        forall|k: int| i <= k < ps.len() ==> (#[trigger] ps[k]).alias != alias,
    ensures
        alias_at(ps, alias, i) == ps.len(),
    decreases ps.len() - i,
{
    if i < ps.len() {
        lemma_no_profile(ps, alias, i + 1);
    }
}

proof fn lemma_provider(ps: Seq<ProviderV>, id: Seq<char>, i: int, at: int)
    requires
        0 <= i <= at < ps.len(),
        ps[at].id == id,
        forall|k: int| i <= k < at ==> (#[trigger] ps[k]).id != id,
    ensures
        provider_from(ps, id, i) == Some(ps[at]),
    decreases at - i,
{
    if i < at {
        lemma_provider(ps, id, i + 1, at);
    }
}

proof fn lemma_no_provider(ps: Seq<ProviderV>, id: Seq<char>, i: int)
    requires
        0 <= i <= ps.len(),
        forall|k: int| i <= k < ps.len() ==> (#[trigger] ps[k]).id != id,
    ensures
        provider_from(ps, id, i) is None,
    decreases ps.len() - i,
{
    if i < ps.len() {
        lemma_no_provider(ps, id, i + 1);
    }
}

proof fn lemma_aliases_differ()
    ensures
        "fable"@ != "opus"@,
        "fable"@ != "sonnet"@,
        "fable"@ != "haiku"@,
        "opus"@ != "sonnet"@,
        "opus"@ != "haiku"@,
        "sonnet"@ != "haiku"@,
{
    reveal_strlit("fable");
    reveal_strlit("opus");
    reveal_strlit("sonnet");
    reveal_strlit("haiku");
    assert("fable"@[0] == 'f' && "haiku"@[0] == 'h');
    assert("opus"@.len() == 4 && "sonnet"@.len() == 6 && "fable"@.len() == 5 && "haiku"@.len()
        == 5);
}

proof fn lemma_rows(c: Option<PeriV>)
    ensures
        rows_of(c->0, 4).len() == 4,
        bare_rows(4).len() == 4,
        forall|k: int|
            0 <= k < 4 ==> {
                &&& (#[trigger] rows_of(c->0, 4)[k]) == (RowV {
                    alias: key_of(k),
                    model: crate::popups::model_quick_switch::model_of(c->0, key_of(k)),
                })
            },
        forall|k: int|
            0 <= k < 4 ==> (#[trigger] bare_rows(4)[k]) == (RowV { alias: key_of(k), model: key_of(k) }),
{
    reveal_with_fuel(rows_of, 5);
    reveal_with_fuel(bare_rows, 5);
}

proof fn lemma_session_row(rows: Seq<RowV>, alias: Seq<char>)
    requires
        rows.len() == 4,
    ensures
        0 <= row_from(rows, alias, 0) <= 4,
        row_from(rows, alias, 0) < 4 ==> rows[row_from(rows, alias, 0)].alias == alias,
        forall|k: int| 0 <= k < row_from(rows, alias, 0) ==> (#[trigger] rows[k]).alias != alias,
{
    reveal_with_fuel(row_from, 6);
}

/// There is a row for each of the four aliases, in their order, whatever the settings and the
/// session are.
pub proof fn each_alias_has_its_row(c: Option<PeriV>, session: Option<(Seq<char>, Seq<char>)>)
    requires
        c is Some || session is Some,
    ensures
        rows_in_use(c, session).len() == 4,
        rows_in_use(c, session)[0].alias == "fable"@,
        rows_in_use(c, session)[1].alias == "opus"@,
        rows_in_use(c, session)[2].alias == "sonnet"@,
        rows_in_use(c, session)[3].alias == "haiku"@,
{
    lemma_rows(c);
    if session is Some {
        lemma_session_row(bare_rows(4), (session->0).0);
        lemma_session_row(rows_of(c->0, 4), (session->0).0);
    }
}

/// Where the profile of an alias sets a model that is not empty, the row of the alias shows that
/// model, whatever the providers offer, unless the session has another model under the alias.
pub proof fn the_profile_comes_first(
    c: PeriV,
    session: Option<(Seq<char>, Seq<char>)>,
    row: int,
    at: int,
    model: Seq<char>,
)
    requires
        0 <= row < 4,
        0 <= at < c.profiles.len(),
        c.profiles[at].alias == rows_in_use(Some(c), session)[row].alias,
        forall|k: int|
            0 <= k < at ==> (#[trigger] c.profiles[k]).alias != c.profiles[at].alias,
        c.profiles[at].model == Some(model),
        model.len() > 0,
        session is None || (session->0).0 != c.profiles[at].alias || trim_spec((session->0).1).len()
            == 0,
    ensures
        rows_in_use(Some(c), session)[row].model == model,
{
    lemma_rows(Some(c));
    lemma_aliases_differ();
    if session is Some {
        lemma_session_row(rows_of(c, 4), (session->0).0);
    }
    assert(rows_in_use(Some(c), session)[row].alias == key_of(row));
    lemma_profile(c.profiles, c.profiles[at].alias, 0, at);
}

/// Where the profile of an alias sets no model, the row of the alias shows the one that the
/// provider of the profile has for the alias; that is the first provider of the name, or the
/// first of all where the profile names none.
pub proof fn the_provider_comes_second(
    c: PeriV,
    row: int,
    at: int,
    from: int,
)
    requires
        0 <= row < 4,
        0 <= at < c.profiles.len(),
        c.profiles[at].alias == rows_in_use(Some(c), None)[row].alias,
        forall|k: int|
            0 <= k < at ==> (#[trigger] c.profiles[k]).alias != c.profiles[at].alias,
        c.profiles[at].model is None || c.profiles[at].model->0.len() == 0,
        0 <= from < c.providers.len(),
        c.profiles[at].provider.len() == 0 ==> from == 0,
        c.profiles[at].provider.len() > 0 ==> c.providers[from].id == c.profiles[at].provider
            && forall|k: int|
            0 <= k < from ==> (#[trigger] c.providers[k]).id != c.profiles[at].provider,
    ensures
        ({
            let p = c.providers[from];
            let offered = if row == 0 {
                if p.fable.len() > 0 {
                    p.fable
                } else {
                    p.opus
                }
            } else if row == 1 {
                p.opus
            } else if row == 2 {
                p.sonnet
            } else {
                p.haiku
            };
            &&& offered.len() > 0 ==> rows_in_use(Some(c), None)[row].model == offered
            &&& offered.len() == 0 ==> rows_in_use(Some(c), None)[row].model == rows_in_use(
                Some(c),
                None,
            )[row].alias
        }),
{
    lemma_rows(Some(c));
    lemma_aliases_differ();
    assert(rows_in_use(Some(c), None)[row].alias == key_of(row));
    lemma_profile(c.profiles, c.profiles[at].alias, 0, at);
    if c.profiles[at].provider.len() > 0 {
        lemma_provider(c.providers, c.profiles[at].provider, 0, from);
    }
}

/// Where nothing is set for an alias, its row shows the alias: where there are no settings, no
/// profile of the alias, or no provider of the name that the profile gives and no model.
pub proof fn the_alias_comes_last(c: PeriV, alias: Seq<char>, model: Seq<char>, row: int, at: int)
    requires
        0 <= row < 4,
    ensures
        (forall|k: int|
            0 <= k < c.profiles.len() ==> (#[trigger] c.profiles[k]).alias != rows_in_use(
                Some(c),
                None,
            )[row].alias) ==> rows_in_use(Some(c), None)[row].model == rows_in_use(
            Some(c),
            None,
        )[row].alias,
        0 <= at < c.profiles.len() && c.profiles[at].alias == rows_in_use(Some(c), None)[row].alias
            && (forall|k: int|
            0 <= k < at ==> (#[trigger] c.profiles[k]).alias != c.profiles[at].alias)
            && c.profiles[at].model is None && (forall|k: int|
            0 <= k < c.providers.len() ==> (#[trigger] c.providers[k]).id
                != c.profiles[at].provider) && (c.profiles[at].provider.len() > 0
            || c.providers.len() == 0) ==> rows_in_use(Some(c), None)[row].model == rows_in_use(
            Some(c),
            None,
        )[row].alias,
        rows_in_use(None, Some((alias, model)))[row].alias != alias || trim_spec(model).len() == 0
            ==> rows_in_use(None, Some((alias, model)))[row].model == rows_in_use(
            None,
            Some((alias, model)),
        )[row].alias,
{
    lemma_rows(Some(c));
    lemma_rows(None);
    lemma_aliases_differ();
    lemma_session_row(bare_rows(4), alias);
    let key = rows_in_use(Some(c), None)[row].alias;
    assert(key == key_of(row));
    if forall|k: int| 0 <= k < c.profiles.len() ==> (#[trigger] c.profiles[k]).alias != key {
        lemma_no_profile(c.profiles, key, 0);
    }
    if 0 <= at < c.profiles.len() && c.profiles[at].alias == key && (forall|k: int|
        0 <= k < at ==> (#[trigger] c.profiles[k]).alias != c.profiles[at].alias) {
        lemma_profile(c.profiles, key, 0, at);
        if forall|k: int|
            0 <= k < c.providers.len() ==> (#[trigger] c.providers[k]).id
                != c.profiles[at].provider {
            lemma_no_provider(c.providers, c.profiles[at].provider, 0);
        }
    }
}

/// The model of the session is shown in the row of its alias, and the other rows are those of
/// the settings.
pub proof fn the_session_has_its_row(c: PeriV, alias: Seq<char>, model: Seq<char>, row: int)
    requires
        0 <= row < 4,
    ensures
        trim_spec(model).len() > 0 && rows_in_use(Some(c), None)[row].alias == alias
            ==> rows_in_use(Some(c), Some((alias, model)))[row].model == model,
        trim_spec(model).len() == 0 || rows_in_use(Some(c), None)[row].alias != alias
            ==> rows_in_use(Some(c), Some((alias, model)))[row] == rows_in_use(Some(c), None)[row],
        trim_spec(model).len() > 0 && rows_in_use(None, Some((alias, model)))[row].alias == alias
            ==> rows_in_use(None, Some((alias, model)))[row].model == model,
{
    lemma_rows(Some(c));
    lemma_rows(None);
    lemma_aliases_differ();
    lemma_session_row(rows_of(c, 4), alias);
    lemma_session_row(bare_rows(4), alias);
    assert(rows_of(c, 4)[row].alias == key_of(row));
    assert(bare_rows(4)[row].alias == key_of(row));
    let i = row_from(rows_of(c, 4), alias, 0);
    let j = row_from(bare_rows(4), alias, 0);
    assert(i < 4 ==> rows_of(c, 4)[i].alias == key_of(i));
    assert(j < 4 ==> bare_rows(4)[j].alias == key_of(j));
    if alias == key_of(row) {
        assert(i == row && j == row);
    } else {
        assert(i != row && j != row);
    }
}

/// The popup opens on the row of the alias in use; Enter changes to the selected row and the
/// arrows lead from row to row, not beyond the first and the last.
pub proof fn enter_changes_to_the_selected_row(
    p: ModelQuickSwitchPopup,
    key: KeyEvent,
    area: Rect,
    occluded: bool,
)
    requires
        key.press,
        p.selected < 4,
    ensures
        key.code == KeyCode::Enter ==> switch_step(p, Event::Key(key), area, occluded) == (
            p,
            EventResult::Consumed,
            SwitchEffect::Switch(p.selected),
        ),
        key.code == KeyCode::Esc ==> switch_step(p, Event::Key(key), area, occluded) == (
            p,
            EventResult::Consumed,
            SwitchEffect::Close,
        ),
        key.code == KeyCode::Down ==> ({
            let (q, r, e) = switch_step(p, Event::Key(key), area, occluded);
            &&& e is Nothing && r is Consumed
            &&& p.selected < 3 ==> q.selected == p.selected + 1
            &&& p.selected == 3 ==> q.selected == 3
        }),
        key.code == KeyCode::Up ==> ({
            let (q, r, e) = switch_step(p, Event::Key(key), area, occluded);
            &&& e is Nothing && r is Consumed
            &&& p.selected > 0 ==> q.selected == p.selected - 1
            &&& p.selected == 0 ==> q.selected == 0
        }),
{
}

/// The popup opens on the row of the alias in use, and on the second row for any other alias.
pub proof fn the_popup_opens_on_the_alias(c: PeriV, row: int, other: Seq<char>)
    requires
        0 <= row < 4,
        forall|k: int| 0 <= k < 4 ==> (#[trigger] rows_in_use(Some(c), None)[k]).alias != other,
    ensures
        first_row(rows_in_use(Some(c), None)[row].alias) == row,
        first_row(other) == 1,
{
    lemma_rows(Some(c));
    lemma_aliases_differ();
    assert forall|k: int| 0 <= k < 4 implies other != #[trigger] key_of(k) by {
        assert(rows_in_use(Some(c), None)[k].alias == key_of(k));
    }
    assert(other != key_of(0) && other != key_of(1) && other != key_of(2) && other != key_of(3));
}

/// What is set for an alias is the first profile of that alias.
pub proof fn the_first_profile_counts(ps: Seq<ProfileV>, alias: Seq<char>, at: int)
    requires
        0 <= at < ps.len(),
        ps[at].alias == alias,
        forall|k: int| 0 <= k < at ==> (#[trigger] ps[k]).alias != alias,
    ensures
        crate::panels::config::profile(ps, alias) == Some(ps[at]),
{
    lemma_profile(ps, alias, 0, at);
}

} // verus!
