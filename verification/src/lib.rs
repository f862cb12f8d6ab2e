//! Verified core of a payment and escrow system: the decisions and state
//! changes of an escrow contract and a payment contract, as plain values.
pub mod ledger;
pub mod index;
pub mod arith;
pub mod escrow;
pub mod encoding;
pub mod payment;
