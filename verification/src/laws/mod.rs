//! What the operations are for, said of their inputs and results alone.

pub mod clicks;
pub mod confirming;
pub mod files;
pub mod helpers;
pub mod history;
pub mod information;
pub mod jobs;
pub mod marketplaces;
pub mod model_view;
pub mod models;
pub mod notices;
pub mod open_panels;
pub mod plugin_panel;
pub mod plugin_view;
pub mod plugins;
pub mod question_panel;
pub mod question_popup;
pub mod questions;
pub mod requests;
pub mod rewind;
pub mod scrolling;
pub mod servers;
pub mod settings;
pub mod settings_view;
pub mod tasks;
pub mod texts;
pub mod themes;
pub mod threads;
pub mod typing;
pub mod values;
pub mod views;
