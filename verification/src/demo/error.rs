//! Errors of the payment workflows.

use vstd::prelude::*;

use crate::ledger_core::error::LedgerError;
use crate::merkle::error::MmrError;

verus! {

/// Errors originating from payment state machine operations.
#[derive(Clone, Debug, PartialEq, Eq)]
pub enum PaymentError {
    /// Requested transition is illegal according to the payment lifecycle.
    InvalidStateTransition {
        /// Payment identifier.
        payment_id: u128,
        /// Current lifecycle state.
        from: String,
        /// Attempted target state.
        to: String,
    },
    /// The requested payment identifier was not found.
    PaymentNotFound(u128),
    /// An error returned by the underlying double-entry ledger.
    Ledger(LedgerError),
    /// Transfer amount arithmetic overflowed.
    AmountOverflow,
}

/// Errors originating from webhook ingestion and verification.
#[derive(Clone, Debug, PartialEq, Eq)]
pub enum WebhookError {
    /// The required HMAC signature header was missing from the request.
    MissingSignature,
    /// The computed HMAC-SHA256 signature does not match the provided header.
    InvalidSignature,
    /// Webhook timestamp is outside the allowed replay tolerance window.
    ExpiredTimestamp {
        /// Calculated age of the webhook in seconds.
        age_seconds: u64,
        /// Maximum allowed window in seconds.
        max_allowed: u64,
    },
    /// A webhook with this `event_id` has already been ingested.
    DuplicateEventId(String),
    /// Webhook payload serialization or deserialization failed.
    PayloadError(String),
}

/// Errors originating from idempotency locking.
#[derive(Clone, Debug, PartialEq, Eq)]
pub enum IdempotencyError {
    /// A concurrent operation with the same idempotency key is currently in-flight.
    ConcurrentRequest(String),
}

/// Errors originating from settlement rail adapters.
#[derive(Clone, Debug, PartialEq, Eq)]
pub enum RailError {
    /// Batch submission to the settlement rail failed.
    SubmissionFailed(String),
    /// Merkle inclusion proof generation failed.
    Merkle(MmrError),
}

/// Errors originating from three-way reconciliation audits.
#[derive(Clone, Debug, PartialEq, Eq)]
pub enum ReconciliationError {
    /// A discrepancy was found between app events, ledger journal, and on-chain roots.
    DriftDetected {
        /// Total settled amount according to app payment records.
        app_amount: u128,
        /// Total settled amount according to double-entry ledger balances.
        ledger_amount: u128,
        /// Total settled amount committed on chain.
        chain_amount: u128,
        /// Calculated discrepancy (drift != 0).
        drift: i128,
    },
    /// Account not found in ledger during reconciliation audit.
    AccountNotFound(u128),
}

/// Root error type of the payment workflows.
#[derive(Clone, Debug, PartialEq, Eq)]
pub enum DemoError {
    /// Errors originating from payment state machine operations.
    Payment(PaymentError),
    /// Errors originating from webhook ingestion and signature validation.
    Webhook(WebhookError),
    /// Errors originating from idempotency key management.
    Idempotency(IdempotencyError),
    /// Errors originating from settlement rail adapters.
    Rail(RailError),
    /// Errors originating from three-way reconciliation audits.
    Reconciliation(ReconciliationError),
}

impl From<LedgerError> for PaymentError {
    fn from(err: LedgerError) -> (r: Self) {
        PaymentError::Ledger(err)
    }
}

impl vstd::std_specs::convert::FromSpecImpl<LedgerError> for PaymentError {
    open spec fn obeys_from_spec() -> bool {
        true
    }

    open spec fn from_spec(err: LedgerError) -> PaymentError {
        PaymentError::Ledger(err)
    }
}

impl From<MmrError> for RailError {
    fn from(err: MmrError) -> (r: Self) {
        RailError::Merkle(err)
    }
}

impl vstd::std_specs::convert::FromSpecImpl<MmrError> for RailError {
    open spec fn obeys_from_spec() -> bool {
        true
    }

    open spec fn from_spec(err: MmrError) -> RailError {
        RailError::Merkle(err)
    }
}

impl From<PaymentError> for DemoError {
    fn from(err: PaymentError) -> (r: Self) {
        DemoError::Payment(err)
    }
}

impl vstd::std_specs::convert::FromSpecImpl<PaymentError> for DemoError {
    open spec fn obeys_from_spec() -> bool {
        true
    }

    open spec fn from_spec(err: PaymentError) -> DemoError {
        DemoError::Payment(err)
    }
}

impl From<WebhookError> for DemoError {
    fn from(err: WebhookError) -> (r: Self) {
        DemoError::Webhook(err)
    }
}

impl vstd::std_specs::convert::FromSpecImpl<WebhookError> for DemoError {
    open spec fn obeys_from_spec() -> bool {
        true
    }

    open spec fn from_spec(err: WebhookError) -> DemoError {
        DemoError::Webhook(err)
    }
}

impl From<IdempotencyError> for DemoError {
    fn from(err: IdempotencyError) -> (r: Self) {
        DemoError::Idempotency(err)
    }
}

impl vstd::std_specs::convert::FromSpecImpl<IdempotencyError> for DemoError {
    open spec fn obeys_from_spec() -> bool {
        true
    }

    open spec fn from_spec(err: IdempotencyError) -> DemoError {
        DemoError::Idempotency(err)
    }
}

impl From<RailError> for DemoError {
    fn from(err: RailError) -> (r: Self) {
        DemoError::Rail(err)
    }
}

impl vstd::std_specs::convert::FromSpecImpl<RailError> for DemoError {
    open spec fn obeys_from_spec() -> bool {
        true
    }

    open spec fn from_spec(err: RailError) -> DemoError {
        DemoError::Rail(err)
    }
}

impl From<ReconciliationError> for DemoError {
    fn from(err: ReconciliationError) -> (r: Self) {
        DemoError::Reconciliation(err)
    }
}

impl vstd::std_specs::convert::FromSpecImpl<ReconciliationError> for DemoError {
    open spec fn obeys_from_spec() -> bool {
        true
    }

    open spec fn from_spec(err: ReconciliationError) -> DemoError {
        DemoError::Reconciliation(err)
    }
}

} // verus!
