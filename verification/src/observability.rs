//! Metric primitives for the ledger services.

pub mod counter;
pub mod exposition;
pub mod gauge;
