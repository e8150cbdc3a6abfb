//! Verified core of a registry of redeemable "utility" offers: creation of
//! offer templates, raffle progression, at-most-once reward claims with
//! funded-pool accounting, an advisory eligibility ledger, and per-asset
//! usage/expiry instances.
//!
//! The contract state is an explicit value ([`contract::UtilityContract`]);
//! every operation is a function from that state, the caller's identity and
//! the current time to a new state and a result.  Durable storage, caller
//! authentication, token transfers, event publication and the clock are the
//! host's business: a host passes plain values in and performs the returned
//! actions.

pub mod contract;
pub mod laws;
pub mod model;
pub mod types;
