//! What is shown of the settings.

use crate::doc::WordsV;
use crate::panels::config::{config_lines, cycle_index, option_count, option_piece, option_pieces,
    row_line, row_lines, toggle_value, SettingsV, ROW_1M_CONTEXT, ROW_CACHE_WARN, ROW_SHOW_DIFF};
use vstd::prelude::*;

verus! {

proof fn lemma_rows(s: SettingsV, cursor: int, labels: Seq<Seq<char>>, to: int, i: int)
    ensures
        to >= 0 ==> row_lines(s, cursor, labels, to).len() == to,
        0 <= i < to ==> row_lines(s, cursor, labels, to)[i] == row_line(
            s,
            i,
            i == cursor,
            labels[i],
        ),
    decreases to,
{
    if to > 0 {
        lemma_rows(s, cursor, labels, to - 1, i);
    }
}

/// Every setting has its row, with its label filled up with blanks, and the row of the cursor is
/// marked; a row that is on or off shows which in brackets.
pub proof fn every_setting_has_its_row(s: SettingsV, cursor: int, labels: Seq<Seq<char>>, i: int)
    requires
        0 <= i < 8,
        labels[i].len() <= 22,
    ensures
        ({
            let d = config_lines(s, cursor, labels);
            &&& d.len() == 12
            &&& d[2 + i][0].words == WordsV::Literal(
                if i == cursor {
                    "> "@
                } else {
                    "  "@
                },
            )
            &&& d[2 + i][1].words is Literal
            &&& d[2 + i][1].words->Literal_0.len() == 22
            &&& d[2 + i][1].words->Literal_0.take(labels[i].len() as int) == labels[i]
            &&& i == ROW_SHOW_DIFF || i == ROW_CACHE_WARN || i == ROW_1M_CONTEXT ==> if toggle_value(
                s,
                i,
            ) {
                d[2 + i][2].words == WordsV::Literal("["@) && d[2 + i][3].words == WordsV::Message(
                    "config-value-on"@,
                    Seq::empty(),
                )
            } else {
                d[2 + i][5].words == WordsV::Literal("["@) && d[2 + i][6].words == WordsV::Message(
                    "config-value-off"@,
                    Seq::empty(),
                )
            }
        }),
{
    lemma_rows(s, cursor, labels, 8, i);
    let d = config_lines(s, cursor, labels);
    assert(d[2 + i] == row_lines(s, cursor, labels, 8)[i]);
    assert(d[2 + i] == row_line(s, i, i == cursor, labels[i]));
    assert(d[2 + i][1].words->Literal_0.take(labels[i].len() as int) =~= labels[i]);
}

proof fn lemma_options(row: int, at: int, to: int) -> (k: int)
    requires
        0 <= at < to <= option_count(row),
    ensures
        0 <= k,
        k + 2 < option_pieces(row, at, to).len(),
        option_pieces(row, at, to)[k].words == WordsV::Literal("["@),
        option_pieces(row, at, to)[k + 1].words == option_piece(
            row,
            at,
            option_pieces(row, at, to)[k + 1].style,
        ).words,
        option_pieces(row, at, to)[k + 2].words == WordsV::Literal("]"@),
    decreases to,
{
    let before = option_pieces(row, at, to - 1);
    let all = option_pieces(row, at, to);
    if at == to - 1 {
        before.len() as int
    } else {
        let k = lemma_options(row, at, to - 1);
        assert(all[k] == before[k] && all[k + 1] == before[k + 1] && all[k + 2] == before[k + 2]);
        k
    }
}

/// A row that holds one of several values shows the one in use in brackets.
pub proof fn the_value_in_use_is_in_brackets(
    s: SettingsV,
    cursor: int,
    labels: Seq<Seq<char>>,
    i: int,
) -> (k: int)
    requires
        0 <= i < 8,
        option_count(i) > 0,
        0 <= cycle_index(s, i) < option_count(i),
    ensures
        2 <= k,
        k + 2 < config_lines(s, cursor, labels)[2 + i].len(),
        config_lines(s, cursor, labels)[2 + i][k].words == WordsV::Literal("["@),
        config_lines(s, cursor, labels)[2 + i][k + 1].words == option_piece(
            i,
            cycle_index(s, i),
            config_lines(s, cursor, labels)[2 + i][k + 1].style,
        ).words,
        config_lines(s, cursor, labels)[2 + i][k + 2].words == WordsV::Literal("]"@),
{
    lemma_rows(s, cursor, labels, 8, i);
    let k = lemma_options(i, cycle_index(s, i), option_count(i));
    let l = config_lines(s, cursor, labels)[2 + i];
    assert(l == row_lines(s, cursor, labels, 8)[i]);
    let pieces = option_pieces(i, cycle_index(s, i), option_count(i));
    assert(l[2 + k] == pieces[k] && l[2 + k + 1] == pieces[k + 1] && l[2 + k + 2] == pieces[k + 2]);
    2 + k
}

} // verus!
