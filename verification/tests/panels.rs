//! The small panels: what their keys and clicks do, and what they show.

use peri_kit::doc::{ArgValue, Color, Doc, Words};
use peri_kit::event::{Event, EventResult, KeyCode, KeyEvent, MouseEvent, MouseKind, Rect};
use peri_kit::json::{parse_json, Json, ObjectBuilder};
use peri_kit::list_nav::{
    classify_list_nav, cycle_next, cycle_previous, next_selection, previous_selection,
    scroll_start_for_selected, ListNavAction,
};
use peri_kit::panel_mouse::{find_button, is_scrollbar_column};
use peri_kit::panels::agent::{
    active_profile, collect_subagents, content_height, AgentPanel, SessionInfo,
};
use peri_kit::panels::betas::{beta, BetasPanel, BETA_COUNT};
use peri_kit::panels::config::PeriConfig;
use peri_kit::panels::cron::{CronEffect, CronJobSummary, CronPanel};
use peri_kit::panels::goal::{GoalPanel, GoalSnapshot, GoalStatus};
use peri_kit::panels::hooks::{event_description, HookSummary, HooksPanel};
use peri_kit::panels::mcp::{
    build_detail_lines, count_skills, derive_status_style, oauth_start_params, McpEffect,
    McpInitPhase, McpPanel, McpPool, McpServerSummary, McpView,
};
use peri_kit::panels::status::{derive_vm_stats, ServiceInfo, StatusPanel, StatusTab, VmStats};
use peri_kit::panels::subagent_detail::{find_detail, SubAgentDetailPanel};
use peri_kit::background::LiveDetails;
use peri_kit::paragraph::wrapped_content_height;
use peri_kit::text::{is_control, text_after, text_after_last, text_before};
use peri_kit::view_models::{
    TuiCollapsedGroup, TuiRenderUnit, TuiSubAgentGroup, TuiUserBubble, ViewModelsSnapshot,
};

fn key(code: KeyCode) -> Event {
    Event::Key(KeyEvent::plain(code))
}

fn click(row: u16, column: u16) -> Event {
    Event::Mouse(MouseEvent { kind: MouseKind::LeftDown, row, column })
}

/// The text of each line; a message is written as its key with its values.
fn lines(d: &Doc) -> Vec<String> {
    d.lines
        .iter()
        .map(|l| {
            l.pieces
                .iter()
                .map(|p| match &p.words {
                    Words::Literal(t) => t.clone(),
                    Words::Message { key, args } => {
                        let mut s = key.clone();
                        for a in args {
                            s.push_str(&match &a.value {
                                ArgValue::Number(n) => format!(" {}={n}", a.name),
                                ArgValue::Text(t) => format!(" {}={t}", a.name),
                                ArgValue::Message(k) => format!(" {}={k}", a.name),
                            });
                        }
                        s
                    }
                })
                .collect()
        })
        .collect()
}

fn job(id: &str) -> CronJobSummary {
    CronJobSummary {
        id: id.into(),
        expression: "0 9 * * *".into(),
        prompt: "p".repeat(51),
        enabled: id == "a",
        next_fire: if id == "a" { Some(0) } else { None },
    }
}

#[test]
fn a_job_is_removed_only_once_confirmed() {
    let jobs = vec![job("a"), job("b")];
    let mut p = CronPanel::default();
    assert!(matches!(p.handle_event(&key(KeyCode::Down), &jobs, None).1, CronEffect::Nothing));
    assert_eq!(p.selected, 1);
    assert!(matches!(p.handle_event(&key(KeyCode::Char('d')), &jobs, None).1, CronEffect::Nothing));
    assert!(p.confirm_delete);
    assert!(matches!(p.handle_event(&key(KeyCode::Esc), &jobs, None).1, CronEffect::Nothing));
    assert!(!p.confirm_delete);
    p.handle_event(&key(KeyCode::Char('d')), &jobs, None);
    let (r, e) = p.handle_event(&key(KeyCode::Enter), &jobs, None);
    assert_eq!(r, EventResult::Consumed);
    assert!(matches!(e, CronEffect::Remove(id) if id == "b"));
    assert!(!p.confirm_delete);
    let none = vec![];
    let mut q = CronPanel::default();
    q.handle_event(&key(KeyCode::Char('d')), &none, None);
    assert!(!q.confirm_delete);
}

#[test]
fn a_click_on_a_job_is_enter_on_it() {
    let jobs = vec![job("a"), job("b"), job("c")];
    let area = Rect::new(0, 0, 60, 20);
    let mut p = CronPanel::default();
    let (r, e) = p.handle_event(&click(7, 5), &jobs, Some(area));
    assert_eq!(r, EventResult::Consumed);
    assert!(matches!(e, CronEffect::Toggle(id) if id == "b"));
    assert_eq!(p.selected, 1);
    assert!(matches!(p.handle_event(&key(KeyCode::Enter), &jobs, Some(area)).1,
        CronEffect::Toggle(id) if id == "b"));
    let (r, e) = p.handle_event(&click(2, 5), &jobs, Some(area));
    assert_eq!(r, EventResult::Consumed);
    assert!(matches!(e, CronEffect::Nothing));
    p.handle_event(&key(KeyCode::Char('d')), &jobs, Some(area));
    let (_, e) = p.handle_event(&click(4, 5), &jobs, Some(area));
    assert!(matches!(e, CronEffect::Nothing));
    assert_eq!(p.selected, 1);
}

#[test]
fn jobs_are_shown_in_three_rows_each() {
    let p = CronPanel::default();
    let shown = lines(&p.lines(&vec![job("a"), job("b")]));
    assert_eq!(shown[0], "panel-cron-stats configured=2 enabled=1");
    assert_eq!(shown[1], "panel-cron-nav-hint");
    assert_eq!(shown[2], "");
    assert_eq!(shown[3], " > 1. 0 9 * * * panel-cron-status-format status=panel-cron-status-on");
    assert_eq!(shown[4], format!("     {}…", "p".repeat(50)));
    assert_eq!(shown[5], "panel-cron-next-fire time=1970-01-01 00:00");
    assert_eq!(shown[6], "   2. 0 9 * * * panel-cron-status-format status=panel-cron-status-off");
    assert_eq!(shown[8], "");
    assert_eq!(
        lines(&p.lines(&vec![])),
        vec!["panel-cron-nav-hint", "", "panel-cron-empty", "panel-cron-empty-hint"]
    );
}

#[test]
fn hooks_are_listed_with_what_they_mean() {
    assert_eq!(event_description("pretooluse"), Some("hook-event-before-tool"));
    assert_eq!(event_description("notification"), Some("hook-event-needs-input"));
    assert_eq!(event_description("other"), None);
    let hook = |n: usize| HookSummary {
        event: "stop".into(),
        plugin_name: format!("p{n}"),
        matcher: if n == 0 { Some("Bash".into()) } else { None },
        command: "x".repeat(71),
    };
    let hooks = vec![hook(0), hook(1), hook(2), hook(3)];
    let mut p = HooksPanel::default();
    let shown = lines(&p.lines(&hooks));
    assert_eq!(shown[0], "hooks-configured-count count=4");
    assert_eq!(shown[3], " > 1. stop   via p0  hook-event-agent-stop");
    assert_eq!(shown[4], "     matcher: Bash");
    assert_eq!(shown[5], format!("     {}…", "x".repeat(70)));
    assert_eq!(shown[7], "");
    assert_eq!(shown.len(), 3 + 9 + 2);
    for _ in 0..3 {
        p.handle_event(&key(KeyCode::Down), 4);
    }
    assert_eq!(p.selected, 3);
    assert_eq!(lines(&p.lines(&hooks))[3], "   2. stop   via p1  hook-event-agent-stop");
    assert_eq!(p.handle_event(&key(KeyCode::Enter), 4), (EventResult::Consumed, true));
    assert_eq!(
        p.handle_event(&Event::Key(KeyEvent::with_ctrl(KeyCode::Char('c'))), 4),
        (EventResult::Ignored, false)
    );
    assert_eq!(
        lines(&HooksPanel::default().lines(&vec![]))[3..5],
        ["hooks-no-hooks".to_string(), "hooks-no-hooks-hint".to_string()]
    );
}

#[test]
fn betas_are_listed_and_read_only() {
    assert_eq!(BETA_COUNT, 4);
    assert_eq!(beta(3).label, "ui_v2");
    assert!(beta(0).enabled && !beta(1).enabled);
    let mut p = BetasPanel::default();
    for _ in 0..9 {
        assert_eq!(p.handle_event(&key(KeyCode::Down)), (EventResult::Consumed, false));
    }
    assert_eq!(p.selected, 3);
    assert_eq!(p.handle_event(&key(KeyCode::Esc)), (EventResult::Consumed, true));
    assert_eq!(p.handle_event(&key(KeyCode::Char('x'))), (EventResult::Ignored, false));
    let shown = lines(&BetasPanel::default().lines());
    assert_eq!(shown[0], "panel-betas-readonly-hint");
    assert_eq!(shown[2], "> subagent_v2           common-on");
    assert_eq!(shown[3], "      New sub-agent dispatch engine");
}

fn group(id: &str, agent: &str, inner: Vec<TuiRenderUnit>) -> TuiSubAgentGroup {
    TuiSubAgentGroup {
        instance_id: id.into(),
        agent_id: agent.into(),
        agent_name: agent.to_uppercase(),
        view_models: inner,
        collapsed: false,
        is_running: false,
        is_error: false,
        error_reason: None,
    }
}

fn timeline() -> ViewModelsSnapshot {
    ViewModelsSnapshot {
        items: vec![
            TuiRenderUnit::TuiUserBubble(TuiUserBubble { text: "hi".into() }),
            TuiRenderUnit::TuiSubAgentGroup(group(
                "1",
                "a",
                vec![TuiRenderUnit::TuiSubAgentGroup(group("2", "b", vec![]))],
            )),
            TuiRenderUnit::TuiSubAgentGroup(group("3", "a", vec![])),
            TuiRenderUnit::TuiCollapsedGroup(TuiCollapsedGroup {
                title: "t".into(),
                count: 1,
                failed_count: 0,
                view_models: vec![TuiRenderUnit::TuiSubAgentGroup(group("4", "c", vec![]))],
            }),
        ],
    }
}

#[test]
fn each_helper_is_listed_once_in_order() {
    let t = timeline();
    let ids: Vec<&str> = collect_subagents(&t).iter().map(|g| g.agent_id.as_str()).collect();
    assert_eq!(ids, vec!["a", "b", "c"]);
}

#[test]
fn the_agent_panel_shows_session_and_helpers() {
    let t = timeline();
    let info = SessionInfo {
        provider_name: "prov".into(),
        model_alias: "opus".into(),
        permission_mode: "default".into(),
        cwd: "/w".into(),
        total_messages: 4,
    };
    let labels: Vec<String> =
        ["Provider", "Model", "Mode", "Cwd", "Messages", "Total"].map(String::from).to_vec();
    let mut p = AgentPanel::default();
    let shown = lines(&p.lines(&info, "id", "opus", &collect_subagents(&t), &labels));
    assert_eq!(shown[0], "agent-panel-title-session");
    assert_eq!(shown[1], "  ----------------------");
    assert_eq!(shown[3], " > Provider:         prov (id)");
    assert_eq!(shown[4], "   Model:            opus (alias: opus)");
    assert_eq!(shown[7], "   Messages:         4");
    assert_eq!(shown[10], "agent-subagents-count count=3");
    assert_eq!(shown[11], "   A  [a]agent-expandedagent-message-count count=1");
    for _ in 0..99 {
        p.handle_event(&key(KeyCode::Down), 3);
    }
    assert_eq!(p.cursor, 10);
    assert_eq!(p.handle_event(&key(KeyCode::Enter), 3), (EventResult::Consumed, true));
    assert_eq!(active_profile(None), ("?".to_string(), "?".to_string()));
    let cfg = PeriConfig::default();
    assert_eq!(active_profile(Some(&cfg)).1, cfg.config.active_alias);
}

#[test]
fn wrapped_text_is_as_high_as_its_rows() {
    let text = vec![vec!["Hello World".to_string()], vec![]];
    assert_eq!(wrapped_content_height(&text, 20), 2);
    assert_eq!(wrapped_content_height(&text, 10), 3);
    assert_eq!(wrapped_content_height(&vec![], 10), 1);
    assert_eq!(wrapped_content_height(&vec![vec!["ab".to_string()]], 0), 2);
    assert_eq!(content_height(&text, 12), 3);
    assert_eq!(content_height(&text, 22), 2);
    let two = vec![vec!["Hello ".to_string(), "World".to_string()]];
    assert_eq!(wrapped_content_height(&two, 10), 2);
}

#[test]
fn what_the_timeline_holds_is_counted() {
    let s = derive_vm_stats(&timeline());
    assert_eq!(s.total, s.user_bubbles + s.assistant_bubbles + s.tool_cards + s.subagent_groups
        + s.system_notes);
    assert_eq!(s.user_bubbles, 1);
    assert_eq!(s.subagent_groups, 4);
}

#[test]
fn the_status_has_two_tabs() {
    let mut p = StatusPanel::default();
    assert_eq!(p.tab, StatusTab::Service);
    assert_eq!(p.handle_event(&key(KeyCode::Right)), (EventResult::Consumed, false));
    assert_eq!(p.tab, StatusTab::Context);
    p.handle_event(&key(KeyCode::Left));
    assert_eq!(p.tab, StatusTab::Service);
    assert_eq!(p.handle_event(&key(KeyCode::Esc)), (EventResult::Consumed, true));
    let info = ServiceInfo {
        provider_name: String::new(),
        model_alias: "opus".into(),
        permission_mode: String::new(),
        cpu_percent: "1.5".into(),
        memory_mb: 7,
        mcp: McpPool { init_phase: McpInitPhase::Ready, connected: 1, total: 2 },
        cron_total: 3,
        cron_enabled: 2,
        cwd: "/w".into(),
    };
    let stats = VmStats {
        total: 0,
        user_bubbles: 0,
        assistant_bubbles: 0,
        tool_cards: 0,
        subagent_groups: 0,
        system_notes: 0,
    };
    let shown = lines(&p.lines(&info, &stats));
    assert!(shown.contains(&"status-label-providerapp-not-configured".to_string()));
    assert!(shown.contains(&"status-label-permissiondefault".to_string()));
    assert!(shown.contains(&"status-label-cpu1.5%".to_string()));
    assert!(shown.contains(&"status-label-memory7 MB".to_string()));
    assert!(shown.contains(&"status-label-mcp1/2 connected  [ready]".to_string()));
    assert!(shown.contains(&"status-label-cron3 (2 enabled)".to_string()));
}

#[test]
fn the_goal_is_shown() {
    assert_eq!(GoalPanel {}.handle_event(&key(KeyCode::Esc)), (EventResult::Consumed, true));
    let goal = GoalSnapshot {
        objective: Some("ship".into()),
        status: Some(GoalStatus::Blocked),
        continuation_count: 2,
        blocked_reason: Some("tests".into()),
    };
    let shown = lines(&GoalPanel {}.lines(Some(&goal))).join("\n");
    assert!(shown.contains("ship") && shown.contains("tests") && shown.contains('2'));
    assert_ne!(lines(&GoalPanel {}.lines(None)), lines(&GoalPanel {}.lines(Some(&goal))));
}

#[test]
fn a_helper_is_found_in_the_timeline_first() {
    let t = timeline();
    let live = LiveDetails { list: vec![] };
    let display = vec![];
    let d = find_detail(&t, &live, &display, Some("4")).unwrap();
    assert_eq!(d.agent_id, "c");
    let shown = lines(&SubAgentDetailPanel {}.head_lines(Some(&d))).join("\n");
    assert!(shown.contains('C'));
    assert!(find_detail(&t, &live, &display, Some("9")).is_none());
    assert_eq!(
        SubAgentDetailPanel {}.handle_event(&key(KeyCode::Esc)),
        (EventResult::Consumed, true)
    );
}

fn server(name: &str, needs_auth: bool) -> McpServerSummary {
    McpServerSummary {
        name: name.into(),
        status: "connected".into(),
        transport: "http".into(),
        tools_count: 2,
        needs_auth,
        url: Some("https://x".into()),
        ..Default::default()
    }
}

#[test]
fn authorisation_is_asked_for_by_its_button_alone() {
    let servers = vec![server("open", false), server("closed", true)];
    let mut p = McpPanel::default();
    let go = |p: &mut McpPanel, c: KeyCode| p.handle_event(&key(c), &servers, None, "Auth", "Back").1;
    go(&mut p, KeyCode::Down);
    assert!(matches!(go(&mut p, KeyCode::Enter), McpEffect::Nothing));
    assert_eq!((p.view, p.detail_idx, p.detail_btn), (McpView::Detail, 1, 1));
    assert!(matches!(go(&mut p, KeyCode::Enter), McpEffect::Nothing));
    assert_eq!(p.view, McpView::List);
    go(&mut p, KeyCode::Enter);
    go(&mut p, KeyCode::Left);
    assert!(matches!(go(&mut p, KeyCode::Enter), McpEffect::StartOauth(s) if s == "closed"));
    assert_eq!(p.view, McpView::List);
    go(&mut p, KeyCode::Up);
    go(&mut p, KeyCode::Enter);
    go(&mut p, KeyCode::Right);
    assert_eq!(p.detail_btn, 0);
    assert!(matches!(go(&mut p, KeyCode::Esc), McpEffect::Nothing));
    assert!(matches!(go(&mut p, KeyCode::Esc), McpEffect::Close));
}

#[test]
fn the_buttons_of_a_server_are_clicked_where_shown() {
    let servers = vec![server("closed", true)];
    let area = Rect::new(2, 3, 60, 20);
    let mut p = McpPanel { selected: 0, view: McpView::Detail, detail_idx: 0, detail_btn: 1 };
    let shown = lines(&build_detail_lines(&servers[0], 1));
    let row = shown.iter().position(|l| l.contains("panel-mcp-detail-btn-auth")).unwrap();
    assert_eq!(row, 7);
    let (r, e) = p.handle_event(&click(11, 2), &servers, Some(area), "Auth", "Back");
    assert_eq!(r, EventResult::Consumed);
    assert!(matches!(e, McpEffect::StartOauth(s) if s == "closed"));
    p.view = McpView::Detail;
    let (_, e) = p.handle_event(&click(11, 12), &servers, Some(area), "Auth", "Back");
    assert!(matches!(e, McpEffect::Nothing));
    assert_eq!(p.view, McpView::List);
    p.view = McpView::Detail;
    p.follow(&vec![]);
    assert_eq!(p.view, McpView::List);
}

#[test]
fn servers_are_listed_with_their_skills() {
    let commands = ["closed:a", "closed:b", "other:c", "plain"].map(String::from).to_vec();
    assert_eq!(count_skills(&commands, "plugin:CLOSED"), 2);
    assert_eq!(count_skills(&commands, "none"), 0);
    let pool = McpPool { init_phase: McpInitPhase::Ready, connected: 1, total: 2 };
    let shown = lines(&McpPanel::default().lines(&vec![server("closed", true)], pool, &commands));
    assert_eq!(
        shown[0],
        "panel-mcp-pool-labelpanel-mcp-phase-readypanel-mcp-connected connected=1 total=2"
    );
    assert!(shown[2].contains("closed") && shown[2].contains("panel-mcp-needs-auth"));
    assert_eq!(shown[3], "panel-mcp-server-detail transport=http count=2 skills=2");
    let params = oauth_start_params("closed", "s");
    assert_eq!(params.get_str("server_name"), Some("closed"));
    assert_eq!(params.get_str("sessionId"), Some("s"));
    assert_ne!(derive_status_style("connected").1, Color::Error);
}

#[test]
fn moving_stays_in_the_list() {
    assert_eq!(previous_selection(0), 0);
    assert_eq!(next_selection(2, 3), 2);
    assert_eq!(cycle_next(2, 3), 0);
    assert_eq!(cycle_previous(0, 3), 2);
    assert_eq!(cycle_previous(cycle_next(1, 3), 3), 1);
    assert_eq!(scroll_start_for_selected(2, 3), 0);
    assert_eq!(scroll_start_for_selected(5, 3), 3);
    assert_eq!(classify_list_nav(&KeyEvent::plain(KeyCode::Up)), Some(ListNavAction::MoveUp));
    assert_eq!(classify_list_nav(&KeyEvent::plain(KeyCode::Esc)), Some(ListNavAction::Cancel));
}

#[test]
fn buttons_are_found_by_their_column() {
    assert_eq!(find_button(2, &vec![4, 4], 2), Some(0));
    assert_eq!(find_button(2, &vec![4, 4], 9), Some(0));
    assert_eq!(find_button(2, &vec![4, 4], 10), None);
    assert_eq!(find_button(2, &vec![4, 4], 12), Some(1));
    let m = MouseEvent { kind: MouseKind::LeftDown, row: 1, column: 9 };
    assert!(is_scrollbar_column(&m, Rect::new(0, 0, 10, 5)));
    assert!(!is_scrollbar_column(&m, Rect::new(0, 0, 12, 5)));
}

#[test]
fn values_are_read_by_their_key() {
    let j = parse_json("{\"a\": [1, \"x\", null], \"b\": \"t\"}").unwrap();
    assert_eq!(j.get_str("b"), Some("t"));
    assert_eq!(j.get("a").and_then(|a| a.as_array()).map(|a| a.len()), Some(3));
    assert!(matches!(&j.get("a").unwrap().as_array().unwrap()[0], Json::Number(n) if n == "1"));
    assert!(j.get("c").is_none());
    assert!(parse_json("{").is_none());
    let mut o = ObjectBuilder::new();
    o.put_str("k", "v");
    assert_eq!(o.build().get_str("k"), Some("v"));
}

#[test]
fn texts_are_cut_at_a_character() {
    assert_eq!(text_after("a:b:c", ':'), "b:c");
    assert_eq!(text_before("a:b:c", ':'), "a");
    assert_eq!(text_after_last("a:b:c", ':'), "c");
    assert!(is_control('\u{1b}') && is_control('\u{85}') && is_control('\n'));
    assert!(!is_control('a') && !is_control('\u{a0}'));
}
