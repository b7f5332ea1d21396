//! TrustLedger: a verified double-entry ledger core with settlement
//! commitments, ingestion decisions, metrics and payment workflows.

pub mod ledger_core;
pub mod observability;
pub mod ingest;
pub mod raft;
pub mod merkle;
pub mod demo;
