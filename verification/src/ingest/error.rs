//! Ingress errors and their gRPC status mapping.

use vstd::prelude::*;

use crate::ledger_core::codec::{CodecError, codec_error_message};
use crate::ledger_core::error::LedgerError;
use crate::ledger_core::message::{ledger_error_message, push_str};

verus! {

/// Errors produced during request ingestion, micro-batch accumulation, or execution.
#[derive(Debug)]
pub enum IngestError {
    /// Domain error reported by the ledger state machine.
    Ledger(LedgerError),
    /// Disk I/O or checksum error from the write-ahead log.
    Wal(String),
    /// Serialization error when encoding journal events for persistence.
    Codec(String),
    /// Ingress queue reached maximum capacity; requests are shed immediately.
    QueueSaturated,
    /// Engine channel disconnected or background writer task terminated.
    ChannelClosed,
    /// Client request payload violates protocol shape or invariant constraints.
    InvalidInput(String),
    /// Internal server error during batch processing or persistence.
    Internal(String),
}

/// The canonical gRPC status codes that ingestion errors map to.
#[derive(Clone, Copy, Debug, PartialEq, Eq, Structural)]
pub enum StatusCode {
    /// The system is not in a state required for the operation.
    FailedPrecondition,
    /// A requested entity was not found.
    NotFound,
    /// The entity a client attempted to create already exists.
    AlreadyExists,
    /// The client specified an invalid argument.
    InvalidArgument,
    /// The operation was attempted past the valid range.
    OutOfRange,
    /// An internal invariant was broken.
    Internal,
    /// A resource has been exhausted.
    ResourceExhausted,
    /// The service is currently unavailable.
    Unavailable,
}

/// The message describing an ingestion error.
pub open spec fn ingest_error_message(e: IngestError) -> Seq<char> {
    match e {
        IngestError::Ledger(l) => "ledger error: "@ + ledger_error_message(l),
        IngestError::Wal(s) => "write-ahead log error: "@ + s@,
        IngestError::Codec(s) => "codec error: "@ + s@,
        IngestError::QueueSaturated => "ingress queue saturated: backpressure shedding load"@,
        IngestError::ChannelClosed => "engine channel closed"@,
        IngestError::InvalidInput(s) => "invalid request input: "@ + s@,
        IngestError::Internal(s) => "internal server error: "@ + s@,
    }
}

/// The status code a ledger error is reported with.
pub open spec fn ledger_status_code(e: LedgerError) -> StatusCode {
    match e {
        LedgerError::InsufficientFunds { .. }
        | LedgerError::AccountClosed(_)
        | LedgerError::InvalidTransferState { .. }
        | LedgerError::PartialAmountExceedsPending { .. } => StatusCode::FailedPrecondition,
        LedgerError::AccountNotFound(_) | LedgerError::TransferNotFound(_) => StatusCode::NotFound,
        LedgerError::AccountAlreadyExists(_) | LedgerError::TransferAlreadyExists(_) => StatusCode::AlreadyExists,
        LedgerError::DebitCreditAccountSame(_)
        | LedgerError::ZeroAmountTransfer(_)
        | LedgerError::ScaleMismatch { .. }
        | LedgerError::InvalidScale(_)
        | LedgerError::InvalidIdentifier(_)
        | LedgerError::TimestampBehindPrior { .. }
        | LedgerError::InvalidPendingLink { .. }
        | LedgerError::PendingLinkMissing { .. } => StatusCode::InvalidArgument,
        LedgerError::ArithmeticOverflow | LedgerError::SignedBalanceOverflow => StatusCode::OutOfRange,
        LedgerError::ConservationViolation { .. }
        | LedgerError::JournalVoidedAmountMismatch { .. }
        | LedgerError::PendingBalanceMismatch { .. }
        | LedgerError::DivisionByZero => StatusCode::Internal,
    }
}

/// The status an ingestion error is reported with: its code and message.
pub open spec fn spec_status(e: IngestError) -> (StatusCode, Seq<char>) {
    match e {
        IngestError::QueueSaturated => (
            StatusCode::ResourceExhausted,
            "ingress queue saturated: backpressure shedding load"@,
        ),
        IngestError::ChannelClosed => (StatusCode::Unavailable, "ingress engine queue closed"@),
        IngestError::InvalidInput(msg) => (StatusCode::InvalidArgument, msg@),
        IngestError::Wal(msg) => (StatusCode::Internal, msg@),
        IngestError::Codec(msg) => (StatusCode::Internal, msg@),
        IngestError::Internal(msg) => (StatusCode::Internal, msg@),
        IngestError::Ledger(l) => (ledger_status_code(l), ledger_error_message(l)),
    }
}

impl IngestError {
    /// The message describing this error.
    pub fn to_string(&self) -> (r: String)
        ensures
            r@ == ingest_error_message(*self),
    {
        let mut out = String::new();
        match self {
            IngestError::Ledger(l) => {
                push_str(&mut out, "ledger error: ");
                let m = l.to_string();
                push_str(&mut out, m.as_str());
            },
            IngestError::Wal(s) => {
                push_str(&mut out, "write-ahead log error: ");
                push_str(&mut out, s.as_str());
            },
            IngestError::Codec(s) => {
                push_str(&mut out, "codec error: ");
                push_str(&mut out, s.as_str());
            },
            IngestError::QueueSaturated => {
                push_str(&mut out, "ingress queue saturated: backpressure shedding load");
            },
            IngestError::ChannelClosed => {
                push_str(&mut out, "engine channel closed");
            },
            IngestError::InvalidInput(s) => {
                push_str(&mut out, "invalid request input: ");
                push_str(&mut out, s.as_str());
            },
            IngestError::Internal(s) => {
                push_str(&mut out, "internal server error: ");
                push_str(&mut out, s.as_str());
            },
        }
        proof {
            assert(out@ =~= ingest_error_message(*self));
        }
        out
    }

    /// The gRPC status this error is reported with: its code and message.
    pub fn status(&self) -> (r: (StatusCode, String))
        ensures
            (r.0, r.1@) == spec_status(*self),
    {
        match self {
            IngestError::QueueSaturated => (
                StatusCode::ResourceExhausted,
                "ingress queue saturated: backpressure shedding load".to_owned(),
            ),
            IngestError::ChannelClosed => (StatusCode::Unavailable, "ingress engine queue closed".to_owned()),
            IngestError::InvalidInput(msg) => (StatusCode::InvalidArgument, msg.clone()),
            IngestError::Wal(msg) => (StatusCode::Internal, msg.clone()),
            IngestError::Codec(msg) => (StatusCode::Internal, msg.clone()),
            IngestError::Internal(msg) => (StatusCode::Internal, msg.clone()),
            IngestError::Ledger(l) => {
                let code = match l {
                    LedgerError::InsufficientFunds { .. }
                    | LedgerError::AccountClosed(_)
                    | LedgerError::InvalidTransferState { .. }
                    | LedgerError::PartialAmountExceedsPending { .. } => StatusCode::FailedPrecondition,
                    LedgerError::AccountNotFound(_) | LedgerError::TransferNotFound(_) => StatusCode::NotFound,
                    LedgerError::AccountAlreadyExists(_) | LedgerError::TransferAlreadyExists(_) =>
                        StatusCode::AlreadyExists,
                    LedgerError::DebitCreditAccountSame(_)
                    | LedgerError::ZeroAmountTransfer(_)
                    | LedgerError::ScaleMismatch { .. }
                    | LedgerError::InvalidScale(_)
                    | LedgerError::InvalidIdentifier(_)
                    | LedgerError::TimestampBehindPrior { .. }
                    | LedgerError::InvalidPendingLink { .. }
                    | LedgerError::PendingLinkMissing { .. } => StatusCode::InvalidArgument,
                    LedgerError::ArithmeticOverflow | LedgerError::SignedBalanceOverflow => StatusCode::OutOfRange,
                    LedgerError::ConservationViolation { .. }
                    | LedgerError::JournalVoidedAmountMismatch { .. }
                    | LedgerError::PendingBalanceMismatch { .. }
                    | LedgerError::DivisionByZero => StatusCode::Internal,
                };
                (code, l.to_string())
            },
        }
    }
}

impl From<LedgerError> for IngestError {
    fn from(err: LedgerError) -> (r: Self) {
        IngestError::Ledger(err)
    }
}

impl vstd::std_specs::convert::FromSpecImpl<LedgerError> for IngestError {
    open spec fn obeys_from_spec() -> bool {
        true
    }

    open spec fn from_spec(err: LedgerError) -> IngestError {
        IngestError::Ledger(err)
    }
}

impl Clone for IngestError {
    fn clone(&self) -> (r: Self)
        ensures
            r == *self,
    {
        match self {
            IngestError::Ledger(e) => IngestError::Ledger(e.clone()),
            IngestError::Wal(s) => IngestError::Wal(s.clone()),
            IngestError::Codec(s) => IngestError::Codec(s.clone()),
            IngestError::QueueSaturated => IngestError::QueueSaturated,
            IngestError::ChannelClosed => IngestError::ChannelClosed,
            IngestError::InvalidInput(s) => IngestError::InvalidInput(s.clone()),
            IngestError::Internal(s) => IngestError::Internal(s.clone()),
        }
    }
}

impl IngestError {
    /// The ingestion error reporting a codec failure, carrying its message.
    pub fn from_codec(err: CodecError) -> (r: Self)
        ensures
            r matches IngestError::Codec(s) && s@ == codec_error_message(err),
    {
        IngestError::Codec(err.to_string())
    }
}

} // verus!
