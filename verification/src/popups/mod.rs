//! The popups.

pub mod ask_user_popup;
pub mod confirm_popup;
pub mod download_progress;
pub mod model_quick_switch;
pub mod oauth_popup;
pub mod rewind_popup;
