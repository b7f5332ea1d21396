//! Ingress operations and their conversion into ledger batch operations.

use vstd::prelude::*;

use crate::ingest::error::IngestError;
use crate::ledger_core::account::{AccountFlags, AccountType};
use crate::ledger_core::amount::{Amount, Scale};
use crate::ledger_core::id::{AccountId, TransferId};
use crate::ledger_core::ledger::BatchOp;
use crate::ledger_core::transfer::{Transfer, TransferState, spec_new_transfer};

verus! {

/// Target entity referenced by a mutation operation.
#[derive(Clone, Copy, Debug, PartialEq, Eq, Structural)]
pub enum TargetEntity {
    /// An account.
    Account(AccountId),
    /// A transfer.
    Transfer(TransferId),
}

/// A single ledger mutation operation as it arrives at the ingress.
#[derive(Clone, Copy, Debug, PartialEq, Eq, Structural)]
pub enum IngestOp {
    /// Create an account.
    CreateAccount {
        /// Account ID.
        id: AccountId,
        /// Account type.
        account_type: AccountType,
        /// Account rules and limits.
        flags: AccountFlags,
        /// Currency scale.
        scale: Scale,
        /// Requested timestamp; zero asks the engine to allocate one.
        timestamp: u64,
    },
    /// Create and settle a transfer.
    CreateTransfer {
        /// Transfer ID.
        id: TransferId,
        /// Account debited.
        debit_account_id: AccountId,
        /// Account credited.
        credit_account_id: AccountId,
        /// Amount moved.
        amount: Amount,
        /// Requested timestamp; zero asks the engine to allocate one.
        timestamp: u64,
    },
    /// Create a pending hold.
    CreatePending {
        /// Transfer ID.
        id: TransferId,
        /// Account debited.
        debit_account_id: AccountId,
        /// Account credited.
        credit_account_id: AccountId,
        /// Amount held.
        amount: Amount,
        /// Requested timestamp; zero asks the engine to allocate one.
        timestamp: u64,
    },
    /// Post a pending hold.
    PostPending {
        /// The hold.
        pending_id: TransferId,
        /// ID of the settlement transfer.
        post_transfer_id: TransferId,
        /// Amount settled.
        amount: Amount,
        /// Requested timestamp; zero asks the engine to allocate one.
        timestamp: u64,
    },
    /// Void a pending hold.
    VoidPending {
        /// The hold.
        pending_id: TransferId,
        /// Requested timestamp; zero asks the engine to allocate one.
        timestamp: u64,
    },
}

/// The entity an operation creates or changes.
pub open spec fn spec_target(op: IngestOp) -> TargetEntity {
    match op {
        IngestOp::CreateAccount { id, .. } => TargetEntity::Account(id),
        IngestOp::CreateTransfer { id, .. } => TargetEntity::Transfer(id),
        IngestOp::CreatePending { id, .. } => TargetEntity::Transfer(id),
        IngestOp::PostPending { post_transfer_id, .. } => TargetEntity::Transfer(post_transfer_id),
        IngestOp::VoidPending { pending_id, .. } => TargetEntity::Transfer(pending_id),
    }
}

/// The timestamp an operation asks for.
pub open spec fn requested_timestamp(op: IngestOp) -> u64 {
    match op {
        IngestOp::CreateAccount { timestamp, .. } => timestamp,
        IngestOp::CreateTransfer { timestamp, .. } => timestamp,
        IngestOp::CreatePending { timestamp, .. } => timestamp,
        IngestOp::PostPending { timestamp, .. } => timestamp,
        IngestOp::VoidPending { timestamp, .. } => timestamp,
    }
}

/// The timestamp allocated for a request, given the clock reading `now`
/// (nanoseconds) and the watermark: a non-zero request is kept and raises
/// the watermark; a zero request gets the later of `now` and one past the
/// watermark, which becomes the new watermark.
pub open spec fn spec_allocate(requested: u64, now: u64, watermark: u64) -> (u64, u64) {
    if requested == 0 {
        let floor = if watermark == u64::MAX { u64::MAX } else { (watermark + 1) as u64 };
        let ts = if now > floor { now } else { floor };
        (ts, ts)
    } else {
        (requested, if watermark > requested { watermark } else { requested })
    }
}

/// The batch operation an ingress operation becomes with timestamp `ts`.
pub open spec fn spec_batch_op(op: IngestOp, ts: u64) -> Result<BatchOp, IngestError> {
    match op {
        IngestOp::CreateAccount { id, account_type, flags, scale, .. } => Ok(
            BatchOp::CreateAccount { id, account_type, flags, scale, timestamp: ts },
        ),
        IngestOp::CreateTransfer { id, debit_account_id, credit_account_id, amount, .. } => match spec_new_transfer(
            id,
            debit_account_id,
            credit_account_id,
            amount,
            TransferState::Posted,
            None,
            ts,
        ) {
            Ok(t) => Ok(BatchOp::Transfer(t)),
            Err(e) => Err(IngestError::Ledger(e)),
        },
        IngestOp::CreatePending { id, debit_account_id, credit_account_id, amount, .. } => match spec_new_transfer(
            id,
            debit_account_id,
            credit_account_id,
            amount,
            TransferState::Pending,
            None,
            ts,
        ) {
            Ok(t) => Ok(BatchOp::Pending(t)),
            Err(e) => Err(IngestError::Ledger(e)),
        },
        IngestOp::PostPending { pending_id, post_transfer_id, amount, .. } => Ok(
            BatchOp::PostPending { pending_id, post_transfer_id, amount, timestamp: ts },
        ),
        IngestOp::VoidPending { pending_id, .. } => Ok(BatchOp::VoidPending { pending_id, timestamp: ts }),
    }
}

/// A reading of the system clock.
#[verifier::external_type_specification]
#[verifier::external_body]
pub struct ExSystemTime(std::time::SystemTime);

/// The system clock's current reading.
///
/// Calls `SystemTime::now`; the reading depends on the machine's clock, so
/// nothing is stated of it.
#[verifier::external_body]
fn system_now() -> std::time::SystemTime {
    std::time::SystemTime::now()
}

/// The time elapsed from the Unix epoch to `t`, or `None` when `t` is
/// before the epoch.
///
/// Calls `SystemTime::duration_since` with `UNIX_EPOCH`; the duration is
/// opaque here, so nothing is stated of it.
#[verifier::external_body]
fn since_unix_epoch(t: std::time::SystemTime) -> Option<std::time::Duration> {
    match t.duration_since(std::time::UNIX_EPOCH) {
        Ok(elapsed) => Some(elapsed),
        Err(_) => None,
    }
}

/// The whole nanoseconds of a duration.
///
/// Calls `Duration::as_nanos`; the duration is opaque here, so nothing is
/// stated of the count.
#[verifier::external_body]
fn duration_nanos(d: std::time::Duration) -> u128 {
    d.as_nanos()
}

/// The wall clock's reading: nanoseconds since the Unix epoch, or `None`
/// when the clock reads before the epoch.
pub(crate) fn clock_reading() -> Option<u128> {
    match since_unix_epoch(system_now()) {
        Some(elapsed) => Some(duration_nanos(elapsed)),
        None => None,
    }
}

/// The timestamp a clock reading gives: its nanoseconds cut to their low
/// 64 bits, or `1` when the clock reads before the epoch.
pub fn nanos_timestamp(reading: Option<u128>) -> (r: u64)
    ensures
        r == match reading {
            Some(n) => n as u64,
            None => 1u64,
        },
{
    match reading {
        Some(n) => n as u64,
        None => 1,
    }
}

/// The wall clock as a timestamp: nanoseconds since the Unix epoch, cut to
/// 64 bits, or `1` when the clock reads before the epoch.
pub(crate) fn clock_nanos() -> u64 {
    nanos_timestamp(clock_reading())
}

/// Allocate a timestamp for a request, given the clock reading `now`.
///
/// Monotonic timestamps guarantee event causality even under backward
/// wall-clock adjustments.
pub fn allocate_timestamp_at(requested: u64, now: u64, watermark: &mut u64) -> (r: u64)
    ensures
        (r, *final(watermark)) == spec_allocate(requested, now, *old(watermark)),
{
    if requested == 0 {
        let floor = watermark.saturating_add(1);
        let ts = if now > floor { now } else { floor };
        *watermark = ts;
        ts
    } else {
        if requested > *watermark {
            *watermark = requested;
        }
        requested
    }
}

/// Allocate a timestamp for a request, reading the wall clock when the
/// request asks for one.
pub fn allocate_timestamp(requested: u64, watermark: &mut u64) -> (r: u64)
    ensures
        exists|now: u64| #[trigger] spec_allocate(requested, now, *old(watermark)) == (r, *final(watermark)),
        requested != 0 ==> r == requested,
        requested == 0 ==> r > *old(watermark) || *old(watermark) == u64::MAX,
        r <= *final(watermark),
{
    let now = if requested == 0 {
        clock_nanos()
    } else {
        0
    };
    let r = allocate_timestamp_at(requested, now, watermark);
    proof {
        assert(spec_allocate(requested, now, *old(watermark)) == (r, *watermark));
    }
    r
}

impl IngestOp {
    /// The entity this operation creates or changes.
    pub fn target(&self) -> (r: TargetEntity)
        ensures
            r == spec_target(*self),
    {
        match self {
            IngestOp::CreateAccount { id, .. } => TargetEntity::Account(*id),
            IngestOp::CreateTransfer { id, .. } | IngestOp::CreatePending { id, .. } => TargetEntity::Transfer(
                *id,
            ),
            IngestOp::PostPending { post_transfer_id, .. } => TargetEntity::Transfer(*post_transfer_id),
            IngestOp::VoidPending { pending_id, .. } => TargetEntity::Transfer(*pending_id),
        }
    }

    /// Convert into a batch operation with the given timestamp.
    pub fn to_batch_op_at(self, ts: u64) -> (r: Result<BatchOp, IngestError>)
        ensures
            r == spec_batch_op(self, ts),
    {
        match self {
            IngestOp::CreateAccount { id, account_type, flags, scale, .. } => Ok(
                BatchOp::CreateAccount { id, account_type, flags, scale, timestamp: ts },
            ),
            IngestOp::CreateTransfer { id, debit_account_id, credit_account_id, amount, .. } => {
                match Transfer::new_immediate(id, debit_account_id, credit_account_id, amount, ts) {
                    Ok(t) => Ok(BatchOp::Transfer(t)),
                    Err(e) => Err(IngestError::Ledger(e)),
                }
            },
            IngestOp::CreatePending { id, debit_account_id, credit_account_id, amount, .. } => {
                match Transfer::new_pending(id, debit_account_id, credit_account_id, amount, ts) {
                    Ok(t) => Ok(BatchOp::Pending(t)),
                    Err(e) => Err(IngestError::Ledger(e)),
                }
            },
            IngestOp::PostPending { pending_id, post_transfer_id, amount, .. } => Ok(
                BatchOp::PostPending { pending_id, post_transfer_id, amount, timestamp: ts },
            ),
            IngestOp::VoidPending { pending_id, .. } => Ok(BatchOp::VoidPending { pending_id, timestamp: ts }),
        }
    }

    /// Convert into a batch operation, allocating its timestamp against the
    /// engine's watermark.
    pub fn into_batch_op(self, watermark: &mut u64) -> (r: Result<BatchOp, IngestError>)
        ensures
            exists|now: u64|
                #[trigger] spec_allocate(requested_timestamp(self), now, *old(watermark)).1 == *final(watermark) && r
                    == spec_batch_op(self, spec_allocate(requested_timestamp(self), now, *old(watermark)).0),
    {
        let requested = match self {
            IngestOp::CreateAccount { timestamp, .. } => timestamp,
            IngestOp::CreateTransfer { timestamp, .. } => timestamp,
            IngestOp::CreatePending { timestamp, .. } => timestamp,
            IngestOp::PostPending { timestamp, .. } => timestamp,
            IngestOp::VoidPending { timestamp, .. } => timestamp,
        };
        let now = if requested == 0 {
            clock_nanos()
        } else {
            0
        };
        let ts = allocate_timestamp_at(requested, now, watermark);
        proof {
            assert(requested == requested_timestamp(self));
            assert(spec_allocate(requested_timestamp(self), now, *old(watermark)).1 == *watermark);
        }
        self.to_batch_op_at(ts)
    }
}

} // verus!
