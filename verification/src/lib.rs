//! Attendance tracking and certification for club events.

pub mod contract;
pub mod decisions;
pub mod digest;
pub mod effects;
pub mod error;
pub mod footprint;
pub mod history;
pub mod laws;
pub mod ledger;
pub mod rules;
pub mod table;
pub mod types;
