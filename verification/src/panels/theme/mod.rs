//! The panel that chooses the theme, and the download of themes.

pub mod catalog;
pub mod download;
pub mod panel;
