//! The panels.

pub mod agent;
pub mod ask_user;
pub mod betas;
pub mod config;
pub mod cron;
pub mod goal;
pub mod hooks;
pub mod mcp;
pub mod memory;
pub mod model;
pub mod plugin;
pub mod shell_detail;
pub mod status;
pub mod subagent_detail;
pub mod theme;
pub mod thread_browser;
pub mod workflow;
