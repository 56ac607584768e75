//! The helpers of the panels of the workflows and of the models, and the message of a thread
//! that broke down.

use peri_kit::panels::model::right_align_col;
use peri_kit::panels::workflow::{
    agent_table_header, clamp_run_selection, index_for_run_id, model_cell, truncate_to_width,
    TuiRunProgress, AGENT_NAME_COL_WIDTH, AGENT_ROW_LEADING_COLS,
};
use peri_kit::panic_message::{format_panic_message, PanicLocation};

fn run(id: &str) -> TuiRunProgress {
    TuiRunProgress { run_id: id.into() }
}

#[test]
fn right_align_col_keeps_wide_screen_value() {
    assert_eq!(right_align_col(100), 40);
    assert_eq!(right_align_col(120), 40);
}

#[test]
fn right_align_col_shrinks_on_narrow_screen() {
    assert_eq!(right_align_col(80), 39);
    assert_eq!(right_align_col(60), 28);
    assert_eq!(right_align_col(50), 23);
    assert_eq!(right_align_col(40), 17);
}

#[test]
fn right_align_col_never_underflows() {
    assert_eq!(right_align_col(10), 1);
    assert_eq!(right_align_col(0), 0);
}

#[test]
fn pad_fits_align_column() {
    let align = right_align_col(60);
    let key_len = 9;
    let value_len = 12;
    let pad = align.saturating_sub(key_len + value_len);
    assert_eq!(pad + key_len + value_len, align);
    assert!(pad < 32);
}

#[test]
fn test_index_for_run_id_selects_matching_run() {
    let runs = vec![run("a"), run("b")];
    assert_eq!(index_for_run_id(&runs, "b"), Some(1));
    assert_eq!(index_for_run_id(&runs, "missing"), None);
}

#[test]
fn test_index_for_run_id_missing_clamps_zero() {
    let runs = vec![run("only")];
    assert!(index_for_run_id(&runs, "gone").is_none());
    assert_eq!(clamp_run_selection(0, runs.len()), 0);
}

#[test]
fn test_clamp_run_selection_after_snapshot_shrinks() {
    assert_eq!(clamp_run_selection(1, 1), 0);
    assert_eq!(clamp_run_selection(2, 3), 2);
    assert_eq!(clamp_run_selection(0, 0), 0);
}

#[test]
fn test_agent_table_header_model_column_aligns_with_row_prefix() {
    let header = agent_table_header("Model");
    let model_start = header.find("Model").expect("model header");
    assert_eq!(model_start, AGENT_ROW_LEADING_COLS + AGENT_NAME_COL_WIDTH);
}

#[test]
fn test_truncate_to_width_unicode_safe() {
    assert_eq!(truncate_to_width("short", 12), "short");
    assert_eq!(truncate_to_width("sample-sonnet-4-5", 12), "sample-sonn…");
    assert_eq!(truncate_to_width("中文模型名", 6), "中文…");
    assert_eq!(truncate_to_width("ab", 1), "…");
}

#[test]
fn test_model_cell_missing_padding_and_truncate() {
    assert_eq!(model_cell(None, 12), format!("-{}", " ".repeat(11)));
    assert_eq!(model_cell(Some("sample-haiku"), 12), "sample-haiku");
    assert_eq!(model_cell(Some("haiku"), 12), format!("haiku{}", " ".repeat(7)));
    assert_eq!(model_cell(Some("sample-sonnet-4-5"), 12), "sample-sonn…");
}

#[test]
fn the_message_of_a_thread_names_place_and_calls() {
    assert_eq!(
        format_panic_message(
            Some("oops"),
            Some(PanicLocation { file: "a.rs".into(), line: 3, column: 14 }),
            Some("0: f")
        ),
        "'oops'\n  at a.rs:3:14\n0: f"
    );
    assert_eq!(
        format_panic_message(None, None, None),
        "'unknown panic payload'\n  at unknown location"
    );
}
