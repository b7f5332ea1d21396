//! Ingestion: request conversion, timestamp allocation and error mapping.

pub mod batch;
pub mod engine;
pub mod error;
pub mod queue;
pub mod requests;
pub mod wire;
