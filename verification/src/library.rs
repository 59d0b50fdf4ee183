//! The browsers' bookmark stores.

pub mod chromium_library;
