//! Requests replicated through consensus and how each is applied to the ledger.

pub mod cluster;
pub mod log;
pub mod network;
pub mod state_machine;
pub mod storage;
pub mod types;
