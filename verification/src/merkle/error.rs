//! Errors of Merkle Mountain Range operations and proof verification.

use vstd::prelude::*;

verus! {

/// Errors that can occur during Merkle Mountain Range construction,
/// appending, or proof generation.
#[derive(Clone, Debug, PartialEq, Eq)]
pub enum MmrError {
    /// Requested leaf index exceeds current leaf count.
    LeafIndexOutOfBounds {
        /// Requested leaf index.
        index: usize,
        /// Total number of leaves in the MMR.
        count: usize,
    },
    /// MMR has no leaves.
    EmptyMmr,
    /// Node position out of bounds in MMR node array.
    NodeIndexOutOfBounds(usize),
    /// Proof verification failed.
    Proof(ProofError),
    /// Serialization or deserialization failure.
    Serialization(String),
    /// Corrupted tree state detected during traversal.
    CorruptedTree(String),
}

/// Errors that can occur during Merkle inclusion proof verification.
#[derive(Clone, Debug, PartialEq, Eq)]
pub enum ProofError {
    /// The computed Merkle root does not match the expected commitment.
    RootMismatch {
        /// Expected root hash (hex string).
        expected: String,
        /// Computed candidate root hash (hex string).
        computed: String,
    },
    /// Candidate peak derived from leaf and sibling path does not match the peak in proof.
    PeakMismatch {
        /// Expected peak hash from the proof peaks array.
        expected: String,
        /// Computed peak hash from leaf + sibling hashes.
        computed: String,
        /// Index of the peak in the MMR peaks array.
        peak_index: usize,
    },
    /// Leaf index in proof is out of bounds for the tree size.
    LeafIndexOutOfBounds {
        /// Proof leaf index.
        index: usize,
        /// Total leaves declared in proof.
        count: usize,
    },
    /// Number of sibling hashes provided does not match the mountain height.
    SiblingCountMismatch {
        /// Expected sibling path count.
        expected: usize,
        /// Actual sibling path count.
        actual: usize,
    },
    /// The list of peaks in the proof does not match the peak count for the leaf count.
    PeakCountMismatch {
        /// Expected number of mountain peaks.
        expected: usize,
        /// Actual number of mountain peaks.
        actual: usize,
    },
    /// Proof cannot verify against an empty tree.
    EmptyTree,
    /// Serialization or deserialization failure for proof bytes.
    Serialization(String),
}

impl From<ProofError> for MmrError {
    fn from(err: ProofError) -> (r: Self) {
        MmrError::Proof(err)
    }
}

impl vstd::std_specs::convert::FromSpecImpl<ProofError> for MmrError {
    open spec fn obeys_from_spec() -> bool {
        true
    }

    open spec fn from_spec(err: ProofError) -> MmrError {
        MmrError::Proof(err)
    }
}

} // verus!
