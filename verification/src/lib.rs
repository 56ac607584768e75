//! Terminal panels and popups of a coding assistant: the decisions, layouts and
//! text of each surface, with the terminal, the network and the disk left to the
//! program around it.

pub mod background;
pub mod doc;
pub mod event;
pub mod json;
pub mod laws;
pub mod list_nav;
pub mod notification;
pub mod panel_mouse;
pub mod panel_registry;
pub mod panel_scroll;
pub mod panels;
pub mod panic_message;
pub mod paragraph;
pub mod permission_mode;
pub mod popup_overlay;
pub mod popups;
pub mod rewind_action;
pub mod scroll_view;
pub mod text;
pub mod textarea;
pub mod time;
pub mod view_models;
pub mod wrap;
