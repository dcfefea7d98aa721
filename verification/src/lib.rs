//! A conditional fund-release escrow.
//!
//! A neutral arbiter holds value that a creator put up and either releases
//! it to a recipient or, once the escrow has expired, returns it to the
//! creator. The crate holds the escrow record, the rules that gate each
//! operation, and the transfer instructions that the operations emit. The
//! ledger that moves the value and the store that keeps the record are
//! handed in as plain values.

pub mod coin;
pub mod env;
pub mod expiration;
pub mod error;
pub mod response;
pub mod msg;
pub mod state;
pub mod contract;
pub mod guarantees;
