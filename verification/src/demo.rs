//! Payment workflows on top of the ledger: the payment lifecycle, account
//! setup, webhook authentication, idempotency, settlement rails and
//! reconciliation.

pub mod dashboard;
pub mod error;
pub mod idempotency;
pub mod payment;
pub mod rail;
pub mod reconciliation;
pub mod service;
pub mod webhook;
