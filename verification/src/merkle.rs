//! Append-only Merkle Mountain Range commitments for settlement proofs.

pub mod error;
pub mod event_hasher;
pub mod hash;
pub mod mmr;
pub mod inclusion;
pub mod mountains;
