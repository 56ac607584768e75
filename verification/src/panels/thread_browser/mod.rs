//! The panel that lists the threads: choosing, previewing and deleting one.

pub mod history_preview;
pub mod state;
pub mod view;
