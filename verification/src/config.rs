//! The configuration: where the bookmarks are, and where downloads go.

pub mod app_config;
pub mod config;
