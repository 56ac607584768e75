//! The plugin panel: installed plugins, the searchable catalog, marketplaces and
//! load errors.

pub mod data;
pub mod discover;
pub mod discover_handler;
pub mod panel_handler;
pub mod places;
pub mod render;
pub mod search_handler;
pub mod types;
