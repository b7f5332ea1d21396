//! Client requests, responses and errors of the replicated ledger.

use vstd::prelude::*;

use crate::ledger_core::account::{AccountFlags, AccountType};
use crate::ledger_core::amount::{Amount, Scale};
use crate::ledger_core::error::LedgerError;
use crate::ledger_core::id::{AccountId, TransferId};
use crate::ledger_core::journal::LedgerEvent;
use crate::ledger_core::ledger::BatchOp;
use crate::ledger_core::message::ledger_error_message;
use crate::ledger_core::transfer::Transfer;

verus! {

/// Client mutation request proposed through the consensus log.
#[derive(Clone, Debug, PartialEq, Eq)]
pub enum RaftRequest {
    /// Create a new double-entry ledger account.
    CreateAccount {
        /// Unique account ID.
        id: AccountId,
        /// Account classification.
        account_type: AccountType,
        /// Invariant constraints and overdraft flags.
        flags: AccountFlags,
        /// Currency decimal scale.
        scale: Scale,
        /// Wall-clock or monotonic timestamp.
        timestamp: u64,
    },
    /// Create and settle an immediate two-legged transfer.
    CreateTransfer(Transfer),
    /// Reserve funds in a two-phase pending transfer hold.
    CreatePending(Transfer),
    /// Post a pending hold, settling held funds.
    PostPending {
        /// ID of the pending transfer being settled.
        pending_id: TransferId,
        /// New transfer ID for the posted settlement record.
        post_transfer_id: TransferId,
        /// Settlement amount.
        amount: Amount,
        /// Wall-clock or sequential timestamp.
        timestamp: u64,
    },
    /// Void a pending hold, releasing reserved funds.
    VoidPending {
        /// ID of the pending transfer being voided.
        pending_id: TransferId,
        /// Cancellation timestamp.
        timestamp: u64,
    },
    /// Close an account, preventing further transactions.
    CloseAccount {
        /// ID of the account to close.
        id: AccountId,
        /// Closure timestamp.
        timestamp: u64,
    },
    /// Atomically execute a batch of operations.
    ApplyBatch(Vec<BatchOp>),
}

/// Successful response from applying a committed request to the ledger.
#[derive(Debug, PartialEq, Eq)]
pub enum RaftResponse {
    /// Blank or no-op entry.
    Blank,
    /// Account created successfully.
    AccountCreated(AccountId),
    /// Transfer created and settled successfully.
    TransferCreated(TransferId),
    /// Pending transfer hold reserved successfully.
    PendingCreated(TransferId),
    /// Pending hold posted successfully.
    PendingPosted(TransferId),
    /// Pending hold voided successfully.
    PendingVoided(TransferId),
    /// Account closed successfully.
    AccountClosed(AccountId),
    /// Batch applied successfully, returning the journal events produced.
    BatchApplied(Vec<LedgerEvent>),
}

/// Error returned when proposing or applying a client request.
#[derive(Clone, Debug, PartialEq, Eq)]
pub enum RaftClientError {
    /// Domain ledger validation or balance invariant failure.
    Ledger(String),
    /// Proposal rejected because the node is not the cluster leader.
    NotLeader {
        /// Current leader node ID if known.
        leader_id: Option<u64>,
    },
    /// Consensus cluster was shut down or encountered a fatal error.
    Fatal(String),
}

/// The batch operations a request stands for.
pub open spec fn request_ops(req: RaftRequest) -> Seq<BatchOp> {
    match req {
        RaftRequest::CreateAccount { id, account_type, flags, scale, timestamp } => seq![
            BatchOp::CreateAccount { id, account_type, flags, scale, timestamp },
        ],
        RaftRequest::CreateTransfer(t) => seq![BatchOp::Transfer(t)],
        RaftRequest::CreatePending(t) => seq![BatchOp::Pending(t)],
        RaftRequest::PostPending { pending_id, post_transfer_id, amount, timestamp } => seq![
            BatchOp::PostPending { pending_id, post_transfer_id, amount, timestamp },
        ],
        RaftRequest::VoidPending { pending_id, timestamp } => seq![BatchOp::VoidPending { pending_id, timestamp }],
        RaftRequest::CloseAccount { id, timestamp } => seq![BatchOp::CloseAccount { id, timestamp }],
        RaftRequest::ApplyBatch(ops) => ops@,
    }
}

impl RaftRequest {
    /// The batch operations this request stands for.
    pub fn into_ops(self) -> (r: Vec<BatchOp>)
        ensures
            r@ == request_ops(self),
    {
        match self {
            RaftRequest::CreateAccount { id, account_type, flags, scale, timestamp } => vec![
                BatchOp::CreateAccount { id, account_type, flags, scale, timestamp },
            ],
            RaftRequest::CreateTransfer(t) => vec![BatchOp::Transfer(t)],
            RaftRequest::CreatePending(t) => vec![BatchOp::Pending(t)],
            RaftRequest::PostPending { pending_id, post_transfer_id, amount, timestamp } => vec![
                BatchOp::PostPending { pending_id, post_transfer_id, amount, timestamp },
            ],
            RaftRequest::VoidPending { pending_id, timestamp } => vec![BatchOp::VoidPending { pending_id, timestamp }],
            RaftRequest::CloseAccount { id, timestamp } => vec![BatchOp::CloseAccount { id, timestamp }],
            RaftRequest::ApplyBatch(ops) => ops,
        }
    }
}

impl RaftClientError {
    /// The error reporting a ledger failure, carrying the ledger's message.
    pub fn from_ledger(err: LedgerError) -> (r: Self)
        ensures
            r matches RaftClientError::Ledger(m) && m@ == ledger_error_message(err),
    {
        RaftClientError::Ledger(err.to_string())
    }
}

} // verus!
