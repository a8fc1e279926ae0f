//! Hashed timelock escrow: the escrow state machine, the factory that asks
//! for new escrows, and the payments and records that both hand to the host
//! ledger.
//!
//! Nothing here talks to a ledger. Each entry point takes what the host
//! knows (the caller, the block height, the value attached) as plain
//! arguments and returns the next state together with the payments to make
//! and the records to emit; the host performs them and reports back.

pub mod amount;
pub mod book;
pub mod hash;
pub mod types;
pub mod escrow;
pub mod factory;
pub mod token;
