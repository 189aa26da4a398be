//! Core of a metered-usage dashboard: a TTL-guarded cache layer, a usage
//! aggregator, the modal UI state machine with its event handling, and the
//! decision logic of the adaptive render loop. Quantities are whole billing
//! units, percentages are hundredths of a percent, and costs are cents, so
//! every computation is exact integer arithmetic.

pub mod api;
pub mod cache;
pub mod cli;
pub mod clock;
pub mod config;
pub mod models;
pub mod text;
pub mod ui;
pub mod waybar;
