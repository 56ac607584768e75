//! The panels with the details of shells and helpers, and the small panels.

use peri_kit::background::{
    BgDisplayEntry, BgLiveDetail, BgLiveStatus, BgTaskEntry, LiveDetails, LiveEntry,
};
use peri_kit::panels::goal::{status_label, GoalStatus};
use peri_kit::panels::mcp::{cache_status_label_key, detail_btn_row, McpServerSummary};
use peri_kit::panels::shell_detail::{
    build_shell_detail_lines, output_section, resolve_shell_detail_context, resolve_shell_task,
    OutputSection,
};
use peri_kit::panels::subagent_detail::{
    find_live_detail_subagent, find_selected_subagent, scroll_content_height,
};
use peri_kit::view_models::{
    TuiCollapsedGroup, TuiRenderUnit, TuiSubAgentGroup, TuiUserBubble, ViewModelsSnapshot,
};

fn shell_task(id: &str) -> BgTaskEntry {
    BgTaskEntry {
        task_id: id.to_string(),
        kind: "shell".to_string(),
        summary: "echo hi".to_string(),
        started_at: "2026-01-01T00:00:00Z".to_string(),
        pid: Some(42),
    }
}

fn live_of(id: &str, detail: BgLiveDetail) -> LiveDetails {
    LiveDetails { list: vec![LiveEntry { task_id: id.to_string(), detail }] }
}

#[test]
fn test_resolve_shell_task_matches_kind_shell() {
    let tasks = vec![
        shell_task("s1"),
        BgTaskEntry {
            task_id: "a1".to_string(),
            kind: "agent".to_string(),
            summary: "agent".to_string(),
            started_at: String::new(),
            pid: None,
        },
    ];
    let t = resolve_shell_task(&tasks, Some("s1")).expect("shell row");
    assert_eq!(t.summary, "echo hi");
    assert!(resolve_shell_task(&tasks, Some("a1")).is_none());
}

#[test]
fn test_resolve_shell_task_none_when_no_selection() {
    assert!(resolve_shell_task(&vec![], None).is_none());
}

#[test]
fn test_output_section_uses_preview_when_present() {
    let live = BgLiveDetail {
        status: BgLiveStatus::Succeeded,
        output_preview: Some("done".to_string()),
        ..Default::default()
    };
    match output_section(Some(&live), None) {
        OutputSection::Preview(p) => assert_eq!(p, "done"),
        _ => panic!("expected preview"),
    }
}

#[test]
fn test_resolve_shell_detail_context_after_removed_from_bg_tasks() {
    let live = live_of(
        "s-done",
        BgLiveDetail {
            status: BgLiveStatus::Succeeded,
            kind: "shell".to_string(),
            summary: "echo done".to_string(),
            output_preview: Some("ok".to_string()),
            ..Default::default()
        },
    );
    let display = vec![BgDisplayEntry {
        id: "s-done".into(),
        linked_agent_id: None,
        agent_type: "shell".into(),
        desc: "echo done".into(),
        is_active: false,
        is_error: false,
    }];
    let ctx = resolve_shell_detail_context(&vec![], &display, &live, Some("s-done"))
        .expect("completed shell still resolvable");
    assert_eq!(ctx.summary, "echo done");
    assert!(resolve_shell_task(&vec![], Some("s-done")).is_none());
}

#[test]
fn test_build_shell_lines_non_empty_when_only_live_projection() {
    let live = live_of(
        "s1",
        BgLiveDetail {
            status: BgLiveStatus::Succeeded,
            kind: "shell".to_string(),
            summary: "curl example".to_string(),
            output_preview: Some("200 OK".to_string()),
            ..Default::default()
        },
    );
    let d = build_shell_detail_lines(Some("s1"), &vec![], &vec![], &live);
    assert!(!d.lines.is_empty());
    assert!(build_shell_detail_lines(Some("s2"), &vec![], &vec![], &live).lines.is_empty());
}

#[test]
fn test_output_section_running_without_preview() {
    let live = BgLiveDetail { status: BgLiveStatus::Running, ..Default::default() };
    assert!(matches!(output_section(Some(&live), None), OutputSection::RunningNoStream));
}

fn make_subagent(id: &str, name: &str) -> TuiSubAgentGroup {
    TuiSubAgentGroup {
        instance_id: format!("instance-{id}"),
        agent_id: id.to_string(),
        agent_name: name.to_string(),
        view_models: vec![],
        collapsed: false,
        is_running: false,
        is_error: false,
        error_reason: None,
    }
}

fn snap(items: Vec<TuiRenderUnit>) -> ViewModelsSnapshot {
    ViewModelsSnapshot { items }
}

#[test]
fn test_subagent_detail_content_height_exposes_scroll_overflow() {
    let viewport_height = 20u16;
    let content_height = scroll_content_height(80);
    let bottom_offset = content_height.saturating_sub(viewport_height);
    assert_eq!(content_height, 80);
    assert!(content_height > viewport_height);
    assert_eq!(bottom_offset + viewport_height, content_height);
}

#[test]
fn test_subagent_detail_content_height_is_non_zero_and_saturating() {
    assert_eq!(scroll_content_height(0), 1);
    assert_eq!(scroll_content_height(usize::MAX), u16::MAX);
}

#[test]
fn test_find_selected_subagent_none_when_no_selection() {
    let s = snap(vec![TuiRenderUnit::TuiSubAgentGroup(make_subagent("alpha", "Alpha"))]);
    assert!(find_selected_subagent(&s, None).is_none());
}

#[test]
fn test_find_selected_subagent_matches_by_id() {
    let s = snap(vec![
        TuiRenderUnit::TuiSubAgentGroup(make_subagent("alpha", "Alpha")),
        TuiRenderUnit::TuiSubAgentGroup(make_subagent("beta", "Beta")),
    ]);
    let g = find_selected_subagent(&s, Some("beta")).expect("beta");
    assert_eq!(g.agent_id, "beta");
    assert_eq!(g.agent_name, "Beta");
}

#[test]
fn test_find_selected_subagent_uses_instance_id_for_resumed_occurrence() {
    let mut first = make_subagent("shared", "First");
    first.instance_id = "occurrence-1".into();
    let mut resumed = make_subagent("shared", "Resumed");
    resumed.instance_id = "occurrence-2".into();
    let s = snap(vec![
        TuiRenderUnit::TuiSubAgentGroup(first),
        TuiRenderUnit::TuiSubAgentGroup(resumed),
    ]);
    let found = find_selected_subagent(&s, Some("occurrence-2")).expect("resumed occurrence");
    assert_eq!(found.agent_name, "Resumed");
}

#[test]
fn test_find_selected_subagent_unknown_id_returns_none() {
    let s = snap(vec![TuiRenderUnit::TuiSubAgentGroup(make_subagent("alpha", "Alpha"))]);
    assert!(find_selected_subagent(&s, Some("nope")).is_none());
}

#[test]
fn test_find_selected_subagent_recurses_into_collapsed_group() {
    let collapsed = TuiCollapsedGroup {
        title: "batch".to_string(),
        count: 1,
        failed_count: 0,
        view_models: vec![TuiRenderUnit::TuiSubAgentGroup(make_subagent("hidden", "Hidden"))],
    };
    let s = snap(vec![TuiRenderUnit::TuiCollapsedGroup(collapsed)]);
    let g = find_selected_subagent(&s, Some("hidden")).expect("hidden");
    assert_eq!(g.agent_id, "hidden");
}

#[test]
fn test_find_selected_subagent_recurses_into_nested_subagent() {
    let mut outer = make_subagent("outer", "Outer");
    outer.view_models = vec![TuiRenderUnit::TuiSubAgentGroup(make_subagent("inner", "Inner"))];
    let s = snap(vec![TuiRenderUnit::TuiSubAgentGroup(outer)]);
    let g = find_selected_subagent(&s, Some("inner")).expect("inner");
    assert_eq!(g.agent_id, "inner");
    let outer_match = find_selected_subagent(&s, Some("outer")).expect("outer");
    assert_eq!(outer_match.agent_id, "outer");
}

#[test]
fn test_find_live_detail_subagent_prefers_latest_resumed_task() {
    let named = |name: &str| BgLiveDetail {
        agent_id: Some("shared-agent".into()),
        agent_name: Some(name.into()),
        ..Default::default()
    };
    let live = LiveDetails {
        list: vec![
            LiveEntry { task_id: "task-z-old".to_string(), detail: named("Older") },
            LiveEntry { task_id: "task-a-latest".to_string(), detail: named("Latest") },
        ],
    };
    let shown = |id: &str, desc: &str, is_active: bool| BgDisplayEntry {
        id: id.into(),
        linked_agent_id: Some("shared-agent".into()),
        agent_type: "agent".into(),
        desc: desc.into(),
        is_active,
        is_error: false,
    };
    let display = vec![shown("task-z-old", "Older", false), shown("task-a-latest", "Latest", true)];
    let found =
        find_live_detail_subagent(&live, &display, Some("shared-agent")).expect("latest task");
    assert_eq!(found.instance_id, "task-a-latest");
    assert_eq!(found.agent_name, "Latest");
}

#[test]
fn test_find_selected_subagent_skips_non_subagent_vms() {
    let s = snap(vec![TuiRenderUnit::TuiUserBubble(TuiUserBubble { text: "hi".to_string() })]);
    assert!(find_selected_subagent(&s, Some("alpha")).is_none());
}

#[test]
fn status_labels_cover_all_states() {
    assert_eq!(status_label(Some(GoalStatus::Active)), "goal-status-active");
    assert_eq!(status_label(Some(GoalStatus::Complete)), "goal-status-complete");
    assert_eq!(status_label(Some(GoalStatus::Blocked)), "goal-status-blocked");
}

#[test]
fn detail_button_row_counts_empty_url_value_line() {
    assert_eq!(detail_btn_row(&McpServerSummary::default()), 7);
}

#[test]
fn cache_status_labels_are_explicit() {
    assert_eq!(cache_status_label_key(Some("cache_ready")), Some("panel-mcp-cache-ready"));
    assert_eq!(cache_status_label_key(Some("stored_after_fetch")), Some("panel-mcp-cache-saved"));
    assert_eq!(cache_status_label_key(Some("cached")), Some("panel-mcp-cache-hit"));
    assert_eq!(cache_status_label_key(Some("cache_disabled")), Some("panel-mcp-cache-disabled"));
    assert_eq!(cache_status_label_key(Some("live_fetch")), Some("panel-mcp-cache-live-fetch"));
}
