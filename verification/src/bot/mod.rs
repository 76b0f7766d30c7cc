//! The periodic jobs around the dashboard, and the settings they run with.

pub mod config;
pub mod tasks;
