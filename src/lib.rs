//! A credit and subscription ledger for pay-per-use and pay-per-period billing.
//!
//! The host supplies the caller's identity, the value attached to a call, the
//! current time and the contract's liquid holdings as plain values, and carries
//! out the value transfers that the ledger asks for.
pub mod error;
pub mod store;
pub mod ledger;
pub mod boilerplate;
pub mod laws;
