//! Human-readable messages for ledger errors.

use vstd::prelude::*;

use crate::ledger_core::amount::group_amount;
use crate::ledger_core::error::LedgerError;
use crate::ledger_core::id::group_id;
use crate::ledger_core::text::{push_decimal, spec_decimal};
use crate::ledger_core::transfer::TransferState;

verus! {

broadcast use {group_amount, group_id};

/// Appends a string slice to a string.
pub(crate) fn push_str(s: &mut String, t: &str)
    ensures
        final(s)@ == old(s)@ + t@,
{
    s.append(t);
}

/// The name of a transfer state, as it is printed.
pub open spec fn state_name(s: TransferState) -> &'static str {
    match s {
        TransferState::Pending => "Pending",
        TransferState::Posted => "Posted",
        TransferState::Voided => "Voided",
    }
}

/// The name of a transfer state, as it is printed.
pub fn transfer_state_name(s: TransferState) -> (r: &'static str)
    ensures
        r == state_name(s),
{
    match s {
        TransferState::Pending => "Pending",
        TransferState::Posted => "Posted",
        TransferState::Voided => "Voided",
    }
}

/// The message describing a ledger error.
pub open spec fn ledger_error_message(e: LedgerError) -> Seq<char> {
    match e {
        LedgerError::InvalidIdentifier(s) => "invalid identifier: "@ + s@,
        LedgerError::InvalidScale(n) => "scale factor "@ + spec_decimal(n as nat) + " exceeds maximum precision limit"@,
        LedgerError::ArithmeticOverflow => "arithmetic overflow encountered during monetary calculation"@,
        LedgerError::DivisionByZero => "division by zero attempted"@,
        LedgerError::SignedBalanceOverflow => "balance component exceeds i128::MAX and cannot be represented as a signed net balance"@,
        LedgerError::InsufficientFunds { account_id, requested, available } => "account "@ + spec_decimal(account_id@ as nat) + " has insufficient funds: requested "@ + spec_decimal(requested@ as nat) + ", available "@ + spec_decimal(available@ as nat),
        LedgerError::AccountAlreadyExists(id) => "account already exists: "@ + spec_decimal(id@ as nat),
        LedgerError::AccountNotFound(id) => "account not found: "@ + spec_decimal(id@ as nat),
        LedgerError::AccountClosed(id) => "account "@ + spec_decimal(id@ as nat) + " is closed"@,
        LedgerError::TransferAlreadyExists(id) => "transfer already exists: "@ + spec_decimal(id@ as nat),
        LedgerError::TransferNotFound(id) => "transfer not found: "@ + spec_decimal(id@ as nat),
        LedgerError::InvalidTransferState { id, expected, actual } => "transfer "@ + spec_decimal(id@ as nat) + " is in invalid state: expected "@ + state_name(expected)@ + ", actual "@ + state_name(actual)@,
        LedgerError::DebitCreditAccountSame(id) => "debit and credit accounts must be distinct: "@ + spec_decimal(id@ as nat),
        LedgerError::ZeroAmountTransfer(id) => "transfer "@ + spec_decimal(id@ as nat) + " amount must be greater than zero"@,
        LedgerError::ScaleMismatch { expected, actual } => "scale mismatch: expected 10^-"@ + spec_decimal(expected@ as nat) + ", actual 10^-"@ + spec_decimal(actual@ as nat),
        LedgerError::ConservationViolation { total_debits, total_credits } => "financial conservation violation: total debits "@ + spec_decimal(total_debits@ as nat) + " != total credits "@ + spec_decimal(total_credits@ as nat),
        LedgerError::PartialAmountExceedsPending { transfer_id, requested, pending } => "posted amount "@ + spec_decimal(requested@ as nat) + " exceeds pending reservation "@ + spec_decimal(pending@ as nat) + " for transfer "@ + spec_decimal(transfer_id@ as nat),
        LedgerError::TimestampBehindPrior { timestamp, last } => "timestamp "@ + spec_decimal(timestamp as nat) + " is behind the prior event timestamp "@ + spec_decimal(last as nat),
        LedgerError::JournalVoidedAmountMismatch { pending_id, pending, amount } => "journal corruption: voided amount "@ + spec_decimal(amount@ as nat) + " does not match pending reservation "@ + spec_decimal(pending@ as nat) + " for transfer "@ + spec_decimal(pending_id@ as nat),
        LedgerError::PendingBalanceMismatch { account_id, balance_pending, transfers_pending } => "account "@ + spec_decimal(account_id@ as nat) + " pending balance "@ + spec_decimal(balance_pending@ as nat) + " does not match pending transfers "@ + spec_decimal(transfers_pending@ as nat),
        LedgerError::InvalidPendingLink { transfer_id, pending_id, actual } => "transfer "@ + spec_decimal(transfer_id@ as nat) + " references pending hold "@ + spec_decimal(pending_id@ as nat) + " in state "@ + state_name(actual)@ + ", which cannot back the reference"@,
        LedgerError::PendingLinkMissing { transfer_id, pending_id } => "transfer "@ + spec_decimal(transfer_id@ as nat) + " references missing pending hold "@ + spec_decimal(pending_id@ as nat),
    }
}

impl LedgerError {
    /// The message describing this error.
    pub fn to_string(&self) -> (r: String)
        ensures
            r@ == ledger_error_message(*self),
    {
        let mut out = String::new();
        match self {
            LedgerError::InvalidIdentifier(s) => {
                push_str(&mut out, "invalid identifier: ");
                push_str(&mut out, s.as_str());
            },
            LedgerError::InvalidScale(n) => {
                push_str(&mut out, "scale factor ");
                push_decimal(&mut out, *n as u128);
                push_str(&mut out, " exceeds maximum precision limit");
            },
            LedgerError::ArithmeticOverflow => {
                push_str(&mut out, "arithmetic overflow encountered during monetary calculation");
            },
            LedgerError::DivisionByZero => {
                push_str(&mut out, "division by zero attempted");
            },
            LedgerError::SignedBalanceOverflow => {
                push_str(&mut out, "balance component exceeds i128::MAX and cannot be represented as a signed net balance");
            },
            LedgerError::InsufficientFunds { account_id, requested, available } => {
                push_str(&mut out, "account ");
                push_decimal(&mut out, account_id.as_u128());
                push_str(&mut out, " has insufficient funds: requested ");
                push_decimal(&mut out, requested.as_u128());
                push_str(&mut out, ", available ");
                push_decimal(&mut out, available.as_u128());
            },
            LedgerError::AccountAlreadyExists(id) => {
                push_str(&mut out, "account already exists: ");
                push_decimal(&mut out, id.as_u128());
            },
            LedgerError::AccountNotFound(id) => {
                push_str(&mut out, "account not found: ");
                push_decimal(&mut out, id.as_u128());
            },
            LedgerError::AccountClosed(id) => {
                push_str(&mut out, "account ");
                push_decimal(&mut out, id.as_u128());
                push_str(&mut out, " is closed");
            },
            LedgerError::TransferAlreadyExists(id) => {
                push_str(&mut out, "transfer already exists: ");
                push_decimal(&mut out, id.as_u128());
            },
            LedgerError::TransferNotFound(id) => {
                push_str(&mut out, "transfer not found: ");
                push_decimal(&mut out, id.as_u128());
            },
            LedgerError::InvalidTransferState { id, expected, actual } => {
                push_str(&mut out, "transfer ");
                push_decimal(&mut out, id.as_u128());
                push_str(&mut out, " is in invalid state: expected ");
                push_str(&mut out, transfer_state_name(*expected));
                push_str(&mut out, ", actual ");
                push_str(&mut out, transfer_state_name(*actual));
            },
            LedgerError::DebitCreditAccountSame(id) => {
                push_str(&mut out, "debit and credit accounts must be distinct: ");
                push_decimal(&mut out, id.as_u128());
            },
            LedgerError::ZeroAmountTransfer(id) => {
                push_str(&mut out, "transfer ");
                push_decimal(&mut out, id.as_u128());
                push_str(&mut out, " amount must be greater than zero");
            },
            LedgerError::ScaleMismatch { expected, actual } => {
                push_str(&mut out, "scale mismatch: expected 10^-");
                push_decimal(&mut out, expected.as_u8() as u128);
                push_str(&mut out, ", actual 10^-");
                push_decimal(&mut out, actual.as_u8() as u128);
            },
            LedgerError::ConservationViolation { total_debits, total_credits } => {
                push_str(&mut out, "financial conservation violation: total debits ");
                push_decimal(&mut out, total_debits.as_u128());
                push_str(&mut out, " != total credits ");
                push_decimal(&mut out, total_credits.as_u128());
            },
            LedgerError::PartialAmountExceedsPending { transfer_id, requested, pending } => {
                push_str(&mut out, "posted amount ");
                push_decimal(&mut out, requested.as_u128());
                push_str(&mut out, " exceeds pending reservation ");
                push_decimal(&mut out, pending.as_u128());
                push_str(&mut out, " for transfer ");
                push_decimal(&mut out, transfer_id.as_u128());
            },
            LedgerError::TimestampBehindPrior { timestamp, last } => {
                push_str(&mut out, "timestamp ");
                push_decimal(&mut out, *timestamp as u128);
                push_str(&mut out, " is behind the prior event timestamp ");
                push_decimal(&mut out, *last as u128);
            },
            LedgerError::JournalVoidedAmountMismatch { pending_id, pending, amount } => {
                push_str(&mut out, "journal corruption: voided amount ");
                push_decimal(&mut out, amount.as_u128());
                push_str(&mut out, " does not match pending reservation ");
                push_decimal(&mut out, pending.as_u128());
                push_str(&mut out, " for transfer ");
                push_decimal(&mut out, pending_id.as_u128());
            },
            LedgerError::PendingBalanceMismatch { account_id, balance_pending, transfers_pending } => {
                push_str(&mut out, "account ");
                push_decimal(&mut out, account_id.as_u128());
                push_str(&mut out, " pending balance ");
                push_decimal(&mut out, balance_pending.as_u128());
                push_str(&mut out, " does not match pending transfers ");
                push_decimal(&mut out, transfers_pending.as_u128());
            },
            LedgerError::InvalidPendingLink { transfer_id, pending_id, actual } => {
                push_str(&mut out, "transfer ");
                push_decimal(&mut out, transfer_id.as_u128());
                push_str(&mut out, " references pending hold ");
                push_decimal(&mut out, pending_id.as_u128());
                push_str(&mut out, " in state ");
                push_str(&mut out, transfer_state_name(*actual));
                push_str(&mut out, ", which cannot back the reference");
            },
            LedgerError::PendingLinkMissing { transfer_id, pending_id } => {
                push_str(&mut out, "transfer ");
                push_decimal(&mut out, transfer_id.as_u128());
                push_str(&mut out, " references missing pending hold ");
                push_decimal(&mut out, pending_id.as_u128());
            },
        }
        proof {
            assert(out@ =~= ledger_error_message(*self));
        }
        out
    }
}

} // verus!
