//! The runs and the table of the panel of the workflows.

use crate::text::{cat, repeat_char, repeated, same, str_width, str_width_of, total_columns,
    truncate_str, truncate_str_spec};
use vstd::prelude::*;

verus! {

/// A run of a workflow.
#[derive(Debug)]
pub struct TuiRunProgress {
    pub run_id: String,
}

/// The first run of a name, from a place on.
pub open spec fn run_from(runs: Seq<TuiRunProgress>, id: Seq<char>, i: int) -> Option<int>
    decreases runs.len() - i,
{
    if i < 0 || i >= runs.len() {
        None
    } else if runs[i].run_id@ == id {
        Some(i)
    } else {
        run_from(runs, id, i + 1)
    }
}

/// The place of a run.
pub fn index_for_run_id(runs: &Vec<TuiRunProgress>, run_id: &str) -> (r: Option<usize>)
    ensures
        run_from(runs@, run_id@, 0) == (match r {
            Some(i) => Some(i as int),
            None => None,
        }),
{
    let mut i: usize = 0;
    while i < runs.len()
        invariant
            i <= runs@.len(),
            run_from(runs@, run_id@, 0) == run_from(runs@, run_id@, i as int),
        decreases runs.len() - i,
    {
        if same(runs[i].run_id.as_str(), run_id) {
            return Some(i);
        }
        i = i + 1;
    }
    None
}

/// A selection that is still one of the runs, where there are any.
pub open spec fn clamped(selected: int, count: int) -> int {
    if count == 0 {
        0
    } else if selected < count {
        selected
    } else {
        count - 1
    }
}

/// A selection that is still one of the runs.
pub fn clamp_run_selection(selected: usize, count: usize) -> (r: usize)
    ensures
        r == clamped(selected as int, count as int),
{
    if count == 0 {
        0
    } else if selected < count {
        selected
    } else {
        count - 1
    }
}

/// However the runs become fewer, the selection is one of them.
pub proof fn selection_is_a_run(selected: int, count: int)
    requires
        0 <= selected,
        0 < count,
    ensures
        0 <= clamped(selected, count) < count,
        selected < count ==> clamped(selected, count) == selected,
{
}

/// The columns before the name of an agent.
pub const AGENT_ROW_LEADING_COLS: usize = 4;

/// The columns of the name of an agent.
pub const AGENT_NAME_COL_WIDTH: usize = 24;

/// The columns of a model.
pub const AGENT_MODEL_COL_WIDTH: usize = 12;

/// The head of the table: the model stands where the rows have it.
pub fn agent_table_header(model: &str) -> (r: String)
    ensures
        r@ == repeated(' ', (AGENT_ROW_LEADING_COLS + AGENT_NAME_COL_WIDTH) as nat) + model@,
{
    let space = repeat_char(' ', AGENT_ROW_LEADING_COLS + AGENT_NAME_COL_WIDTH);
    cat(space.as_str(), model)
}

/// A text cut to a number of displayed columns.
pub fn truncate_to_width(s: &str, width: usize) -> (r: String)
    ensures
        r@ == truncate_str_spec(s@, width as nat),
        str_width_of(s@) > width ==> total_columns(r@) <= width,
{
    truncate_str(s, width)
}

/// The cell of a model: a dash where there is none, filled up to the width, and cut where it
/// is wider.
pub open spec fn cell_of(model: Option<&str>, width: usize) -> Seq<char> {
    let text = match model {
        Some(m) => m@,
        None => "-"@,
    };
    if str_width_of(text) <= width {
        text + repeated(' ', (width - str_width_of(text)) as nat)
    } else {
        truncate_str_spec(text, width as nat)
    }
}

/// The cell of a model.
pub fn model_cell(model: Option<&str>, width: usize) -> (r: String)
    ensures
        r@ == cell_of(model, width),
{
    let text = match model {
        Some(m) => m,
        None => "-",
    };
    let w: usize = str_width(text);
    if w <= width {
        let space = repeat_char(' ', width - w);
        cat(text, space.as_str())
    } else {
        truncate_to_width(text, width)
    }
}

} // verus!
