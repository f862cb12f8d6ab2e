//! The payment contract: one-off and escrowed payments, subscriptions with
//! dunning, and per-address rate limits.
pub mod types;
pub mod state;
pub mod rate_limit;
pub mod payments;
pub mod subscriptions;
pub mod dunning;
pub mod laws;
