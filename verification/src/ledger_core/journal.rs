//! Journal events recorded by the ledger.

use vstd::prelude::*;

use crate::ledger_core::account::{AccountFlags, AccountType};
use crate::ledger_core::amount::{Amount, Scale};
use crate::ledger_core::id::{AccountId, TransferId};
use crate::ledger_core::transfer::Transfer;

verus! {

/// An event recorded in the ledger journal.
#[derive(Debug, PartialEq, Eq)]
pub enum LedgerEvent {
    /// An account was created.
    AccountCreated {
        /// Account ID.
        id: AccountId,
        /// Account type.
        account_type: AccountType,
        /// Account rules and limits.
        flags: AccountFlags,
        /// Currency decimal scale.
        scale: Scale,
        /// Creation timestamp.
        timestamp: u64,
    },
    /// An account was closed and rejects all new transfers.
    AccountClosed {
        /// Account ID.
        id: AccountId,
        /// Closure timestamp.
        timestamp: u64,
    },
    /// A transfer was posted.
    TransferPosted {
        /// The posted transfer.
        transfer: Transfer,
    },
    /// A pending transfer was created to hold funds.
    TransferPendingCreated {
        /// The pending transfer.
        transfer: Transfer,
    },
    /// A pending transfer was posted.
    TransferPendingPosted {
        /// ID of the pending transfer.
        pending_id: TransferId,
        /// ID of the new posted transfer.
        post_transfer_id: TransferId,
        /// Amount to post.
        amount: Amount,
        /// When this was posted.
        timestamp: u64,
    },
    /// A pending transfer was cancelled.
    TransferPendingVoided {
        /// ID of the cancelled pending transfer.
        pending_id: TransferId,
        /// Amount released back to the account.
        amount: Amount,
        /// When this was cancelled.
        timestamp: u64,
    },
}

impl Clone for LedgerEvent {
    fn clone(&self) -> (r: Self)
        ensures
            r == *self,
    {
        match self {
            LedgerEvent::AccountCreated { id, account_type, flags, scale, timestamp } => LedgerEvent::AccountCreated {
                id: *id,
                account_type: *account_type,
                flags: *flags,
                scale: *scale,
                timestamp: *timestamp,
            },
            LedgerEvent::AccountClosed { id, timestamp } => LedgerEvent::AccountClosed { id: *id, timestamp: *timestamp },
            LedgerEvent::TransferPosted { transfer } => LedgerEvent::TransferPosted { transfer: transfer.clone() },
            LedgerEvent::TransferPendingCreated { transfer } => LedgerEvent::TransferPendingCreated {
                transfer: transfer.clone(),
            },
            LedgerEvent::TransferPendingPosted { pending_id, post_transfer_id, amount, timestamp } =>
                LedgerEvent::TransferPendingPosted {
                pending_id: *pending_id,
                post_transfer_id: *post_transfer_id,
                amount: *amount,
                timestamp: *timestamp,
            },
            LedgerEvent::TransferPendingVoided { pending_id, amount, timestamp } => LedgerEvent::TransferPendingVoided {
                pending_id: *pending_id,
                amount: *amount,
                timestamp: *timestamp,
            },
        }
    }
}

} // verus!
