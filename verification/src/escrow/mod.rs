//! The escrow contract: two-party escrows with disputes and reputation,
//! multi-party escrows, vesting escrows and multi-signature administration.
pub mod types;
pub mod state;
pub mod reputation;
pub mod lifecycle;
pub mod disputes;
pub mod multi_party;
pub mod vesting;
pub mod multisig;
pub mod laws;
