//! Synchronisation core of a score-keeping assistant: it reads a shared
//! spreadsheet block by block, turns the rows into per-person score tables,
//! publishes them as one dashboard value and decides when the periodic jobs
//! around that dashboard may run.

pub mod api;
pub mod bot;
pub mod calendar;
pub mod dashboard;
pub mod helpers;
pub mod number;
pub mod sheets;
pub mod text;
