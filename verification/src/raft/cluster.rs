//! How a proposal to the cluster proceeds: after each attempt to reach the
//! leader, either wait and try again or finish with an answer.
//!
//! The cluster driver performs the attempts and the waits; the decisions
//! are taken here.

use vstd::prelude::*;

use crate::raft::types::{RaftClientError, RaftResponse};

verus! {

/// How many attempts a proposal makes before it gives up.
pub const PROPOSE_ATTEMPTS: u32 = 10;

/// What one attempt to propose through the leader came to.
#[derive(Debug)]
pub enum AttemptOutcome {
    /// No node was the leader.
    NoLeader,
    /// The leader answered.
    Answered(Result<RaftResponse, RaftClientError>),
}

/// What the driver does next.
#[derive(Debug)]
pub enum ProposeDecision {
    /// Wait, then make another attempt; `retries` attempts have been made.
    Retry {
        /// Attempts made so far.
        retries: u32,
    },
    /// Stop with this answer.
    Finish(Result<RaftResponse, RaftClientError>),
}

/// The decision after an attempt, `retries` attempts having been made
/// before it: an answer other than "not the leader" finishes the proposal;
/// a missing leader or a leadership change leads to another attempt, unless
/// this was the last one, when the proposal fails with no known leader.
pub open spec fn spec_propose_step(retries: u32, outcome: AttemptOutcome) -> ProposeDecision {
    match outcome {
        AttemptOutcome::Answered(Ok(resp)) => ProposeDecision::Finish(Ok(resp)),
        AttemptOutcome::Answered(Err(e)) if !(e is NotLeader) => ProposeDecision::Finish(Err(e)),
        _ => if retries + 1 < PROPOSE_ATTEMPTS {
            ProposeDecision::Retry { retries: (retries + 1) as u32 }
        } else {
            ProposeDecision::Finish(Err(RaftClientError::NotLeader { leader_id: None }))
        },
    }
}

/// Decide what follows an attempt; see [`spec_propose_step`].
pub fn propose_step(retries: u32, outcome: AttemptOutcome) -> (r: ProposeDecision)
    requires
        retries < PROPOSE_ATTEMPTS,
    ensures
        r == spec_propose_step(retries, outcome),
{
    let give_up = retries + 1 >= PROPOSE_ATTEMPTS;
    match outcome {
        AttemptOutcome::Answered(Ok(resp)) => ProposeDecision::Finish(Ok(resp)),
        AttemptOutcome::Answered(Err(RaftClientError::NotLeader { .. })) | AttemptOutcome::NoLeader => {
            if give_up {
                ProposeDecision::Finish(Err(RaftClientError::NotLeader { leader_id: None }))
            } else {
                ProposeDecision::Retry { retries: retries + 1 }
            }
        },
        AttemptOutcome::Answered(Err(e)) => ProposeDecision::Finish(Err(e)),
    }
}

/// Every retry counts one more attempt and stays under the limit, so a
/// proposal finishes after at most [`PROPOSE_ATTEMPTS`] attempts.
pub proof fn law_proposal_is_bounded(retries: u32, outcome: AttemptOutcome)
    requires
        retries < PROPOSE_ATTEMPTS,
    ensures
        spec_propose_step(retries, outcome) matches ProposeDecision::Retry { retries: next } ==> next == retries + 1
            && next < PROPOSE_ATTEMPTS,
{
}

} // verus!
