//! The vesting ledger.

pub mod errors;
pub mod ledger;
pub mod model;
pub mod outstanding;
pub mod recipient;
pub mod schedule;
