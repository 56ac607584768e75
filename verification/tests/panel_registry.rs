//! The panels that are registered and open.

use peri_kit::event::KeyCode;
use peri_kit::panel_registry::{
    apply_bg_task_click_route, from_key_code, from_shortcut, meta, panel_description, panel_title,
    panels, BgTaskClickRoute, MutexGroup, OpenPanels, PanelKind, PanelScope, Selection,
};
use peri_kit::panels::ask_user::types::{AskUser, InteractionOwner, PendingInteraction};

const ALL_PANEL_KINDS: [PanelKind; 19] = [
    PanelKind::Model,
    PanelKind::Login,
    PanelKind::Agent,
    PanelKind::Hooks,
    PanelKind::Config,
    PanelKind::ThreadBrowser,
    PanelKind::Mcp,
    PanelKind::Plugin,
    PanelKind::Cron,
    PanelKind::Status,
    PanelKind::Memory,
    PanelKind::Tasks,
    PanelKind::Betas,
    PanelKind::Workflow,
    PanelKind::AskUser,
    PanelKind::Theme,
    PanelKind::SubAgentDetail,
    PanelKind::ShellDetail,
    PanelKind::Goal,
];

fn open(kinds: &[PanelKind]) -> OpenPanels {
    let mut p = OpenPanels::default();
    for k in kinds {
        p.open_panel(*k);
    }
    p
}

#[test]
fn test_meta_all_panels_present() {
    for kind in ALL_PANEL_KINDS {
        assert!(meta(kind).is_some(), "PanelKind {:?} missing from PANELS", kind);
        assert_eq!(meta(kind).unwrap().kind, kind);
    }
    assert_eq!(panels().len(), ALL_PANEL_KINDS.len());
}

#[test]
fn test_shortcuts_unique() {
    let mut seen = std::collections::HashSet::new();
    for m in panels() {
        if m.shortcut_letter == '\0' {
            continue;
        }
        assert!(
            seen.insert(m.shortcut_letter),
            "duplicate shortcut letter {} for {:?}",
            m.shortcut_letter,
            m.kind
        );
    }
}

#[test]
fn test_open_panel_pushes_to_stack() {
    let p = open(&[PanelKind::Model]);
    assert_eq!(p.stack, vec![PanelKind::Model]);
    assert_eq!(p.active(), Some(PanelKind::Model));
}

#[test]
fn test_open_two_panels_different_groups() {
    let p = open(&[PanelKind::Model, PanelKind::Cron]);
    assert_eq!(p.stack, vec![PanelKind::Model, PanelKind::Cron]);
    assert_eq!(p.active(), Some(PanelKind::Cron));
}

#[test]
fn test_open_same_mutex_group_replaces() {
    let p = open(&[PanelKind::Model, PanelKind::Config]);
    assert_eq!(p.stack, vec![PanelKind::Config]);
    assert_eq!(p.active(), Some(PanelKind::Config));
}

#[test]
fn test_open_already_open_brings_to_top() {
    let p = open(&[PanelKind::Model, PanelKind::Cron, PanelKind::Model]);
    assert_eq!(p.stack, vec![PanelKind::Cron, PanelKind::Model]);
    assert_eq!(p.active(), Some(PanelKind::Model));
}

#[test]
fn test_close_active_panel() {
    let mut p = open(&[PanelKind::Model, PanelKind::Cron]);
    let closed = p.close_active_panel();
    assert_eq!(closed, Some(PanelKind::Cron));
    assert_eq!(p.stack, vec![PanelKind::Model]);
    assert_eq!(p.active(), Some(PanelKind::Model));
}

#[test]
fn test_close_active_when_empty_returns_none() {
    let mut p = open(&[]);
    assert_eq!(p.close_active_panel(), None);
}

#[test]
fn test_close_panel_specific() {
    let mut p = open(&[PanelKind::Model, PanelKind::Cron]);
    let removed = p.close_panel(PanelKind::Model);
    assert!(removed);
    assert_eq!(p.stack, vec![PanelKind::Cron]);
    assert_eq!(p.active(), Some(PanelKind::Cron));
}

#[test]
fn test_close_panel_not_present_returns_false() {
    let mut p = open(&[]);
    assert!(!p.close_panel(PanelKind::Model));
}

#[test]
fn test_toggle_panel() {
    let mut p = open(&[]);
    let opened = p.toggle_panel(PanelKind::Model);
    assert!(opened);
    assert_eq!(p.active(), Some(PanelKind::Model));

    let closed = p.toggle_panel(PanelKind::Model);
    assert!(!closed);
    assert!(p.stack.is_empty());
    assert_eq!(p.active(), None);
}

#[test]
fn test_close_all_panels() {
    let mut p = open(&[PanelKind::Model, PanelKind::Cron]);
    p.close_all_panels();
    assert!(p.stack.is_empty());
    assert_eq!(p.active(), None);
}

#[test]
fn test_subagent_detail_panel_registered() {
    let m = meta(PanelKind::SubAgentDetail).expect("SubAgentDetail");
    assert_eq!(m.shortcut_letter, '\0');
    assert!(!panel_title(PanelKind::SubAgentDetail).trim().is_empty());
    assert!(!panel_description(PanelKind::SubAgentDetail).is_empty());
    assert_eq!(m.mutex_group, MutexGroup::Agent);
}

#[test]
fn test_subagent_detail_opens_and_replaces_agent_group() {
    let mut p = open(&[PanelKind::Agent, PanelKind::SubAgentDetail]);
    assert_eq!(p.stack, vec![PanelKind::SubAgentDetail]);
    assert_eq!(p.active(), Some(PanelKind::SubAgentDetail));
    assert_eq!(p.close_active_panel(), Some(PanelKind::SubAgentDetail));
    assert!(p.stack.is_empty());
}

#[test]
fn test_shell_detail_registered_tools_mutex() {
    let m = meta(PanelKind::ShellDetail).expect("ShellDetail");
    assert_eq!(m.shortcut_letter, '\0');
    assert_eq!(m.slash_command, "");
    assert_eq!(m.mutex_group, MutexGroup::Tools);
    assert!(!panel_title(PanelKind::ShellDetail).trim().is_empty());
    assert!(!panel_description(PanelKind::ShellDetail).is_empty());
}

#[test]
fn test_open_shell_detail_closes_tasks() {
    let p = open(&[PanelKind::Tasks, PanelKind::ShellDetail]);
    assert_eq!(p.stack, vec![PanelKind::ShellDetail]);
    assert_eq!(p.active(), Some(PanelKind::ShellDetail));
}

#[test]
fn test_bg_task_click_route_tools_mutex_shell_then_workflow() {
    let mut p = open(&[]);
    let mut sel = Selection::default();
    apply_bg_task_click_route(
        &mut p,
        &mut sel,
        BgTaskClickRoute::Shell { task_id: "shell-1".into() },
    );
    assert_eq!(p.active(), Some(PanelKind::ShellDetail));
    assert_eq!(sel.bg_task_id.as_deref(), Some("shell-1"));
    apply_bg_task_click_route(
        &mut p,
        &mut sel,
        BgTaskClickRoute::Workflow { run_id: "run-a".into() },
    );
    assert_eq!(p.stack, vec![PanelKind::Workflow]);
    assert_eq!(sel.workflow_run_id, Some("run-a".into()));
}

#[test]
fn test_bg_task_click_route_subagent_agent_mutex() {
    let mut p = open(&[PanelKind::Agent]);
    let mut sel = Selection::default();
    apply_bg_task_click_route(
        &mut p,
        &mut sel,
        BgTaskClickRoute::SubAgent { subagent_id: "sub-1".into() },
    );
    assert_eq!(p.stack, vec![PanelKind::SubAgentDetail]);
    assert_eq!(sel.subagent_id.as_deref(), Some("sub-1"));
}

#[test]
fn test_shell_detail_esc_closes() {
    let mut p = open(&[PanelKind::ShellDetail]);
    assert_eq!(p.close_active_panel(), Some(PanelKind::ShellDetail));
    assert!(p.stack.is_empty());
}

#[test]
fn test_from_key_code_ctrl_m_maps_to_model() {
    assert_eq!(from_key_code(KeyCode::Char('m')), Some(PanelKind::Model));
    assert_eq!(from_key_code(KeyCode::Char('M')), Some(PanelKind::Model));
}

#[test]
fn test_from_key_code_unmapped_letter_returns_none() {
    assert_eq!(from_key_code(KeyCode::Char('c')), None);
    assert_eq!(from_key_code(KeyCode::Char('k')), None);
    assert_eq!(from_key_code(KeyCode::Enter), None);
}

#[test]
fn test_slash_commands_unique() {
    let mut seen = std::collections::HashSet::new();
    let all = panels();
    for m in &all {
        if m.slash_command.is_empty() {
            continue;
        }
        assert!(
            seen.insert(m.slash_command),
            "duplicate slash command {} for {:?}",
            m.slash_command,
            m.kind
        );
        assert_eq!(
            all.iter().find(|x| x.slash_command == m.slash_command).map(|x| x.kind),
            Some(m.kind)
        );
    }
}

#[test]
fn test_panels_slash_command_table_pure() {
    let all = panels();
    let threads = all.iter().find(|m| m.slash_command == "threads").expect("threads");
    assert_eq!(threads.kind, PanelKind::ThreadBrowser);
    assert!(all.iter().all(|m| m.slash_command != "history" && m.slash_command != "his"));
    let cron = all.iter().find(|m| m.kind == PanelKind::Cron).expect("Cron");
    assert_eq!(cron.slash_command, "cron-list");
    assert!(all.iter().all(|m| m.slash_command != "cron"));
    assert!(all.iter().all(|m| m.slash_command != "unknown"));
}

#[test]
fn test_registry_metadata_has_expected_shape() {
    let all = panels();
    for m in &all {
        assert!(m.priority < all.len() as u8);
    }
    assert_eq!(meta(PanelKind::Model).map(|m| m.mutex_group), Some(MutexGroup::Settings));
    assert_eq!(meta(PanelKind::ThreadBrowser).map(|m| m.scope), Some(PanelScope::Session));
    assert_eq!(meta(PanelKind::Workflow).map(|m| m.scope), Some(PanelScope::Global));
}

#[test]
fn test_from_shortcut_round_trip() {
    for m in panels() {
        if m.shortcut_letter == '\0' {
            continue;
        }
        assert_eq!(from_shortcut(m.shortcut_letter), Some(m.kind));
    }
}

fn needs_partial_eq<T: PartialEq>() {}

#[test]
fn test_mutex_group_partial_eq() {
    needs_partial_eq::<MutexGroup>();
}

#[test]
fn a_panel_of_every_kind_can_be_open_once() {
    let p = open(&ALL_PANEL_KINDS);
    let mut groups: Vec<MutexGroup> = Vec::new();
    for k in &p.stack {
        let g = meta(*k).unwrap().mutex_group;
        assert!(!groups.contains(&g));
        groups.push(g);
    }
    assert_eq!(groups.len(), 6);
    assert_eq!(p.active(), Some(PanelKind::Goal));
}

fn owner(token: u64) -> InteractionOwner {
    InteractionOwner {
        client_instance_id: 0,
        token,
        session_id: String::new(),
        generation: 0,
        prompt_epoch: 0,
    }
}

#[test]
fn a_request_ends_with_its_own_owner() {
    let mut p = open(&[PanelKind::Model, PanelKind::AskUser]);
    let mut pending = Some(PendingInteraction {
        owner: owner(7),
        request_id_json: "r".into(),
        payload: AskUser { questions: vec![] },
    });
    p.close_ask_user_panel_for_owner(&mut pending, &owner(8));
    assert_eq!(p.active(), Some(PanelKind::AskUser));
    assert!(pending.is_some());
    p.close_ask_user_panel_for_owner(&mut pending, &owner(7));
    assert_eq!(p.stack, vec![PanelKind::Model]);
    assert!(pending.is_none());
}
