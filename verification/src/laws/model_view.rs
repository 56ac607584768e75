//! What is shown of the models.

use crate::doc::WordsV;
use crate::panels::config::{fresh_profiles, PeriConfig, PeriV};
use crate::popups::model_quick_switch::{alias_in_use, session_view, settings_view, switch_line,
    switch_lines, RowV};
use crate::text::truncate_str_spec;
use vstd::prelude::*;

verus! {

proof fn lemma_lines(rows: Seq<RowV>, active: Seq<char>, selected: int, to: int, i: int)
    requires
        0 <= to <= rows.len(),
    ensures
        switch_lines(rows, active, selected, to).len() == to,
        0 <= i < to ==> switch_lines(rows, active, selected, to)[i] == switch_line(
            rows[i],
            i == selected,
            rows[i].alias == active,
        ),
    decreases to,
{
    if to > 0 {
        lemma_lines(rows, active, selected, to - 1, i);
    }
}

/// Each row shows its alias and its model; the selected row and the one in use are marked.
pub proof fn each_row_shows_its_model(rows: Seq<RowV>, active: Seq<char>, selected: int, i: int)
    requires
        0 <= i < rows.len(),
    ensures
        ({
            let d = switch_lines(rows, active, selected, rows.len() as int);
            &&& d.len() == rows.len()
            &&& d[i][0].words == WordsV::Literal(
                (if i == selected {
                    " ❯ "@
                } else if rows[i].alias == active {
                    " ● "@
                } else {
                    " ○ "@
                }) + rows[i].alias,
            )
            &&& d[i][1].words == WordsV::Literal(" "@ + truncate_str_spec(rows[i].model, 36))
        }),
{
    lemma_lines(rows, active, selected, rows.len() as int, i);
}

/// The alias in use is that of the session, else that of the settings.
pub proof fn the_session_decides_the_alias(c: PeriV, alias: Seq<char>, model: Seq<char>)
    ensures
        alias_in_use(Some(c), Some((alias, model))) == alias,
        alias_in_use(None, Some((alias, model))) == alias,
        alias_in_use(Some(c), None) == c.alias,
        alias_in_use(None, None) == "opus"@,
{
}

/// The settings and the session are those given.
pub proof fn settings_and_session_are_those_given(c: &PeriConfig, alias: &str, model: &str)
    ensures
        settings_view(Some(c)) == Some(c@),
        settings_view(None) is None,
        session_view(Some((alias, model))) == Some((alias@, model@)),
        session_view(None) is None,
{
}

/// Before anything is set, each alias has a profile that sets nothing.
pub proof fn fresh_profiles_set_nothing(i: int)
    ensures
        fresh_profiles().len() == 4,
        fresh_profiles()[0].alias == "fable"@,
        fresh_profiles()[1].alias == "opus"@,
        fresh_profiles()[2].alias == "sonnet"@,
        fresh_profiles()[3].alias == "haiku"@,
        0 <= i < 4 ==> fresh_profiles()[i].model is None && !fresh_profiles()[i].context_1m,
{
}

} // verus!
