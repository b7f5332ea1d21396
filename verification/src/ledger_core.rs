//! Deterministic double-entry ledger engine.

pub mod account;
pub mod amount;
pub mod codec;
pub mod error;
pub mod id;
pub mod journal;
pub mod laws;
pub mod limits;
pub mod ledger;
pub mod message;
pub mod model;
pub mod proofs;
pub mod sums;
pub mod text;
pub mod transfer;
pub mod undo;
