//! Positions, votes, memberships and entries of the replicated log.

use vstd::prelude::*;

use crate::raft::types::RaftRequest;

verus! {

/// The position of an entry in the replicated log: the term and node of the
/// leader that wrote it, and its index.
#[derive(Copy, Clone, Debug, PartialEq, Eq, Structural)]
pub struct LogPosition {
    /// Term of the leader that wrote the entry.
    pub term: u64,
    /// Node ID of the leader that wrote the entry.
    pub node_id: u64,
    /// Index of the entry in the log.
    pub index: u64,
}

/// A vote cast for a leader candidate in a term.
#[derive(Copy, Clone, Debug, PartialEq, Eq, Structural)]
pub struct Vote {
    /// Term of the vote.
    pub term: u64,
    /// Node the vote was cast for.
    pub node_id: u64,
    /// Whether a quorum granted the vote.
    pub committed: bool,
}

/// Cluster membership: the IDs of the voting nodes.
#[derive(Debug)]
pub struct Membership {
    /// Voting node IDs.
    pub voters: Vec<u64>,
}

impl View for Membership {
    type V = Seq<u64>;

    open spec fn view(&self) -> Seq<u64> {
        self.voters@
    }
}

impl Clone for Membership {
    fn clone(&self) -> (r: Self)
        ensures
            r@ == self@,
    {
        let mut voters: Vec<u64> = Vec::new();
        let mut i: usize = 0;
        while i < self.voters.len()
            invariant
                0 <= i <= self.voters@.len(),
                voters@ == self.voters@.take(i as int),
            decreases self.voters@.len() - i,
        {
            voters.push(self.voters[i]);
            i = i + 1;
            assert(voters@ =~= self.voters@.take(i as int));
        }
        assert(voters@ =~= self.voters@);
        Membership { voters }
    }
}

/// A membership together with the log position that introduced it.
#[derive(Debug)]
pub struct StoredMembership {
    /// Position of the entry that introduced the membership, if any.
    pub log_id: Option<LogPosition>,
    /// The membership itself.
    pub membership: Membership,
}

/// What a stored membership holds.
pub struct StoredMembershipView {
    /// Position of the entry that introduced the membership, if any.
    pub log_id: Option<LogPosition>,
    /// Voting node IDs.
    pub voters: Seq<u64>,
}

impl View for StoredMembership {
    type V = StoredMembershipView;

    open spec fn view(&self) -> StoredMembershipView {
        StoredMembershipView { log_id: self.log_id, voters: self.membership@ }
    }
}

impl Clone for StoredMembership {
    fn clone(&self) -> (r: Self)
        ensures
            r@ == self@,
    {
        StoredMembership { log_id: self.log_id, membership: self.membership.clone() }
    }
}

impl StoredMembership {
    /// The membership before any configuration was committed: no voters.
    pub fn empty() -> (r: Self)
        ensures
            r@ == (StoredMembershipView { log_id: None, voters: Seq::empty() }),
    {
        StoredMembership { log_id: None, membership: Membership { voters: Vec::new() } }
    }
}

/// What a replicated log entry carries.
#[derive(Clone, Debug)]
pub enum EntryPayload {
    /// An empty entry a new leader writes to commit its term.
    Blank,
    /// A membership change.
    Membership(Membership),
    /// A client request for the ledger.
    Normal(RaftRequest),
}

/// A replicated log entry: its position and what it carries.
#[derive(Debug)]
pub struct LogEntry<P> {
    /// Position of the entry in the log.
    pub log_id: LogPosition,
    /// What the entry carries.
    pub payload: P,
}

impl<P: Clone> Clone for LogEntry<P> {
    fn clone(&self) -> (r: Self)
        ensures
            r.log_id == self.log_id,
            cloned(self.payload, r.payload),
    {
        LogEntry { log_id: self.log_id, payload: self.payload.clone() }
    }
}

} // verus!
