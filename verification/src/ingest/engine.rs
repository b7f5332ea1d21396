//! Configuration of the single-writer micro-batch engine.

use std::time::Duration;

use vstd::prelude::*;

verus! {

/// A span of `ms` milliseconds.
///
/// Calls `Duration::from_millis`; the duration is opaque here, so nothing
/// is stated of it.
#[verifier::external_body]
fn millis(ms: u64) -> Duration {
    Duration::from_millis(ms)
}

/// Runtime configuration for the single-writer micro-batch engine.
#[derive(Clone, Copy, Debug)]
pub struct EngineConfig {
    /// Maximum number of commands collected into one micro-batch.
    pub max_batch_size: usize,
    /// Maximum time a micro-batch waits for more commands.
    pub max_batch_delay: Duration,
}

impl Default for EngineConfig {
    fn default() -> (r: Self)
        ensures
            r.max_batch_size == 512,
    {
        EngineConfig { max_batch_size: 512, max_batch_delay: millis(2) }
    }
}

/// Whether the engine keeps collecting commands into the current batch:
/// only while the batch is below its size limit and its deadline has not
/// passed. A batch that stops collecting is processed at once.
pub fn keep_collecting(batch_len: usize, config: &EngineConfig, deadline_passed: bool) -> (r: bool)
    ensures
        r == (batch_len < config.max_batch_size && !deadline_passed),
{
    batch_len < config.max_batch_size && !deadline_passed
}

} // verus!
