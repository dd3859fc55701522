//! Accounting core of a token distribution: a vesting ledger that releases
//! each recipient's entitlement over time, the sale that feeds it, and the
//! events of the token it keeps in custody.

pub mod az_airdrop;
pub mod az_button;
pub mod errors;
pub mod host;
pub mod primitives;
pub mod registry;
pub mod sale;
pub mod wide;
