//! Ledger errors.

use vstd::prelude::*;

use crate::ledger_core::amount::{Amount, Scale};
use crate::ledger_core::id::{AccountId, TransferId};
use crate::ledger_core::transfer::TransferState;

verus! {

/// Errors returned by the ledger.
#[allow(inconsistent_fields)]
#[derive(Debug, PartialEq, Eq)]
pub enum LedgerError {
    /// Invalid ID string.
    InvalidIdentifier(String),
    /// Scale exceeds maximum allowed (18).
    InvalidScale(u8),
    /// Math overflow.
    ArithmeticOverflow,
    /// Division by zero.
    DivisionByZero,
    /// Balance is too large to convert to signed integer.
    SignedBalanceOverflow,
    /// Account does not have enough funds.
    InsufficientFunds {
        /// Account ID.
        account_id: AccountId,
        /// Requested amount.
        requested: Amount,
        /// Available balance.
        available: Amount,
    },
    /// Account already exists.
    AccountAlreadyExists(AccountId),
    /// Account not found.
    AccountNotFound(AccountId),
    /// Account is closed.
    AccountClosed(AccountId),
    /// Transfer already exists.
    TransferAlreadyExists(TransferId),
    /// Transfer not found.
    TransferNotFound(TransferId),
    /// Transfer is in the wrong state for this action.
    InvalidTransferState {
        /// Transfer ID.
        id: TransferId,
        /// Expected state.
        expected: TransferState,
        /// Actual state.
        actual: TransferState,
    },
    /// Debit and credit accounts cannot be the same.
    DebitCreditAccountSame(AccountId),
    /// Transfer amount must be greater than zero.
    ZeroAmountTransfer(TransferId),
    /// Currency scale does not match.
    ScaleMismatch {
        /// Expected scale.
        expected: Scale,
        /// Given scale.
        actual: Scale,
    },
    /// Total debits do not equal total credits.
    ConservationViolation {
        /// Total debits.
        total_debits: Amount,
        /// Total credits.
        total_credits: Amount,
    },
    /// Posted amount is greater than the pending hold.
    PartialAmountExceedsPending {
        /// Pending transfer ID.
        transfer_id: TransferId,
        /// Amount to post.
        requested: Amount,
        /// Amount held.
        pending: Amount,
    },
    /// An event timestamp is older than a previously recorded one.
    TimestampBehindPrior {
        /// Offending timestamp.
        timestamp: u64,
        /// Highest timestamp recorded so far.
        last: u64,
    },
    /// A journal event contradicts the state it is meant to reproduce.
    JournalVoidedAmountMismatch {
        /// Pending transfer ID.
        pending_id: TransferId,
        /// Pending reservation derived from ledger state.
        pending: Amount,
        /// Amount recorded on the void event.
        amount: Amount,
    },
    /// An account's pending balance disagrees with the transfers holding it.
    PendingBalanceMismatch {
        /// Account ID.
        account_id: AccountId,
        /// Balance field on the account.
        balance_pending: Amount,
        /// Sum of transfers that should back the field.
        transfers_pending: Amount,
    },
    /// A transfer carries a reference to a pending hold that cannot back it.
    InvalidPendingLink {
        /// Transfer carrying the reference.
        transfer_id: TransferId,
        /// Referenced pending hold.
        pending_id: TransferId,
        /// State of the referenced hold.
        actual: TransferState,
    },
    /// A transfer carries a reference to a pending hold that does not exist.
    PendingLinkMissing {
        /// Transfer carrying the reference.
        transfer_id: TransferId,
        /// Referenced pending hold.
        pending_id: TransferId,
    },
}

impl Clone for LedgerError {
    fn clone(&self) -> (r: Self)
        ensures
            r == *self,
    {
        match self {
            LedgerError::InvalidIdentifier(s) => LedgerError::InvalidIdentifier(s.clone()),
            LedgerError::InvalidScale(n) => LedgerError::InvalidScale(*n),
            LedgerError::ArithmeticOverflow => LedgerError::ArithmeticOverflow,
            LedgerError::DivisionByZero => LedgerError::DivisionByZero,
            LedgerError::SignedBalanceOverflow => LedgerError::SignedBalanceOverflow,
            LedgerError::InsufficientFunds { account_id, requested, available } => LedgerError::InsufficientFunds {
                account_id: *account_id,
                requested: *requested,
                available: *available,
            },
            LedgerError::AccountAlreadyExists(id) => LedgerError::AccountAlreadyExists(*id),
            LedgerError::AccountNotFound(id) => LedgerError::AccountNotFound(*id),
            LedgerError::AccountClosed(id) => LedgerError::AccountClosed(*id),
            LedgerError::TransferAlreadyExists(id) => LedgerError::TransferAlreadyExists(*id),
            LedgerError::TransferNotFound(id) => LedgerError::TransferNotFound(*id),
            LedgerError::InvalidTransferState { id, expected, actual } => LedgerError::InvalidTransferState {
                id: *id,
                expected: *expected,
                actual: *actual,
            },
            LedgerError::DebitCreditAccountSame(id) => LedgerError::DebitCreditAccountSame(*id),
            LedgerError::ZeroAmountTransfer(id) => LedgerError::ZeroAmountTransfer(*id),
            LedgerError::ScaleMismatch { expected, actual } => LedgerError::ScaleMismatch {
                expected: *expected,
                actual: *actual,
            },
            LedgerError::ConservationViolation { total_debits, total_credits } => LedgerError::ConservationViolation {
                total_debits: *total_debits,
                total_credits: *total_credits,
            },
            LedgerError::PartialAmountExceedsPending { transfer_id, requested, pending } => LedgerError::PartialAmountExceedsPending {
                transfer_id: *transfer_id,
                requested: *requested,
                pending: *pending,
            },
            LedgerError::TimestampBehindPrior { timestamp, last } => LedgerError::TimestampBehindPrior {
                timestamp: *timestamp,
                last: *last,
            },
            LedgerError::JournalVoidedAmountMismatch { pending_id, pending, amount } => LedgerError::JournalVoidedAmountMismatch {
                pending_id: *pending_id,
                pending: *pending,
                amount: *amount,
            },
            LedgerError::PendingBalanceMismatch { account_id, balance_pending, transfers_pending } => LedgerError::PendingBalanceMismatch {
                account_id: *account_id,
                balance_pending: *balance_pending,
                transfers_pending: *transfers_pending,
            },
            LedgerError::InvalidPendingLink { transfer_id, pending_id, actual } => LedgerError::InvalidPendingLink {
                transfer_id: *transfer_id,
                pending_id: *pending_id,
                actual: *actual,
            },
            LedgerError::PendingLinkMissing { transfer_id, pending_id } => LedgerError::PendingLinkMissing {
                transfer_id: *transfer_id,
                pending_id: *pending_id,
            },
        }
    }
}

} // verus!
