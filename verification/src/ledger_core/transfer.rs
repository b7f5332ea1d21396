//! Transfers and their states.

use vstd::prelude::*;

use crate::ledger_core::amount::Amount;
use crate::ledger_core::error::LedgerError;
use crate::ledger_core::id::{AccountId, TransferId};

verus! {

/// State of a transfer.
#[derive(Copy, Clone, Debug, PartialEq, Eq, Hash, Structural)]
pub enum TransferState {
    /// Funds are reserved, waiting to be posted or cancelled.
    Pending,
    /// Completed transfer; balances have been updated.
    Posted,
    /// Cancelled transfer; held funds are released.
    Voided,
}

/// The plain contents of a transfer.
pub struct TransferView {
    /// Transfer ID.
    pub id: TransferId,
    /// Account being debited.
    pub debit_account_id: AccountId,
    /// Account being credited.
    pub credit_account_id: AccountId,
    /// Transfer amount.
    pub amount: Amount,
    /// Lifecycle state.
    pub state: TransferState,
    /// Hold settled by this transfer, if any.
    pub pending_id: Option<TransferId>,
    /// Timestamp of the transfer.
    pub timestamp: u64,
}

/// A transfer between two accounts.
///
/// Fields are private: a transfer is built through the validated
/// constructors, or through [`Transfer::from_parts`] when it is read back from
/// storage, in which case the ledger re-checks its shape before applying it.
#[derive(Debug, PartialEq, Eq)]
pub struct Transfer {
    id: TransferId,
    debit_account_id: AccountId,
    credit_account_id: AccountId,
    amount: Amount,
    state: TransferState,
    pending_id: Option<TransferId>,
    timestamp: u64,
}

impl View for Transfer {
    type V = TransferView;

    closed spec fn view(&self) -> TransferView {
        TransferView {
            id: self.id,
            debit_account_id: self.debit_account_id,
            credit_account_id: self.credit_account_id,
            amount: self.amount,
            state: self.state,
            pending_id: self.pending_id,
            timestamp: self.timestamp,
        }
    }
}

/// A transfer is determined by its contents.
pub broadcast proof fn lemma_transfer_from_view(v: TransferView)
    ensures
        #[trigger] Transfer::from_view(v)@ == v,
{
}

/// A transfer is determined by its contents.
pub broadcast proof fn lemma_transfer_view_from(t: Transfer)
    ensures
        #[trigger] Transfer::from_view(t@) == t,
{
}

/// The facts that relate a transfer to its contents.
pub broadcast group group_transfer {
    lemma_transfer_from_view,
    lemma_transfer_view_from,
}

/// The shape check applied to every transfer: a pending hold cannot itself
/// carry a hold link.
pub open spec fn spec_validate_shape(t: TransferView) -> Result<(), LedgerError> {
    if t.state == TransferState::Pending && t.pending_id is Some {
        Err(LedgerError::InvalidPendingLink {
            transfer_id: t.id,
            pending_id: t.pending_id->0,
            actual: TransferState::Pending,
        })
    } else {
        Ok(())
    }
}

/// The checks shared by all transfer constructors.
pub open spec fn spec_validate_invariants(
    id: TransferId,
    debit_account_id: AccountId,
    credit_account_id: AccountId,
    amount: Amount,
) -> Result<(), LedgerError> {
    if debit_account_id@ == credit_account_id@ {
        Err(LedgerError::DebitCreditAccountSame(debit_account_id))
    } else if amount@ == 0 {
        Err(LedgerError::ZeroAmountTransfer(id))
    } else {
        Ok(())
    }
}

/// The transfer built from its parts.
pub open spec fn spec_transfer(
    id: TransferId,
    debit_account_id: AccountId,
    credit_account_id: AccountId,
    amount: Amount,
    state: TransferState,
    pending_id: Option<TransferId>,
    timestamp: u64,
) -> Transfer {
    Transfer::from_view(
        TransferView { id, debit_account_id, credit_account_id, amount, state, pending_id, timestamp },
    )
}

/// The result of a constructor: the checks, then the transfer.
pub open spec fn spec_new_transfer(
    id: TransferId,
    debit_account_id: AccountId,
    credit_account_id: AccountId,
    amount: Amount,
    state: TransferState,
    pending_id: Option<TransferId>,
    timestamp: u64,
) -> Result<Transfer, LedgerError> {
    match spec_validate_invariants(id, debit_account_id, credit_account_id, amount) {
        Err(e) => Err(e),
        Ok(_) => Ok(
            spec_transfer(id, debit_account_id, credit_account_id, amount, state, pending_id, timestamp),
        ),
    }
}

/// Whether the lifecycle allows moving from `from` to `to`.
pub open spec fn legal_transition(from: TransferState, to: TransferState) -> bool {
    from == TransferState::Pending && (to == TransferState::Posted || to == TransferState::Voided)
}

/// The transfer with its state replaced.
pub open spec fn with_state(t: Transfer, state: TransferState) -> Transfer {
    Transfer::from_view(TransferView { state, ..t@ })
}

impl Clone for Transfer {
    fn clone(&self) -> (r: Self)
        ensures
            r == *self,
    {
        Transfer {
            id: self.id,
            debit_account_id: self.debit_account_id,
            credit_account_id: self.credit_account_id,
            amount: self.amount,
            state: self.state,
            pending_id: self.pending_id,
            timestamp: self.timestamp,
        }
    }
}

impl Transfer {
    /// The transfer with the given contents.
    pub closed spec fn from_view(v: TransferView) -> Transfer {
        Transfer {
            id: v.id,
            debit_account_id: v.debit_account_id,
            credit_account_id: v.credit_account_id,
            amount: v.amount,
            state: v.state,
            pending_id: v.pending_id,
            timestamp: v.timestamp,
        }
    }

    /// Rebuild a transfer from stored parts, without any check.
    ///
    /// This is how a transfer read back from storage comes in; the ledger
    /// validates its shape before applying it.
    pub fn from_parts(
        id: TransferId,
        debit_account_id: AccountId,
        credit_account_id: AccountId,
        amount: Amount,
        state: TransferState,
        pending_id: Option<TransferId>,
        timestamp: u64,
    ) -> (r: Self)
        ensures
            r == spec_transfer(id, debit_account_id, credit_account_id, amount, state, pending_id, timestamp),
    {
        Transfer { id, debit_account_id, credit_account_id, amount, state, pending_id, timestamp }
    }

    /// Create a transfer that settles immediately.
    pub fn new_immediate(
        id: TransferId,
        debit_account_id: AccountId,
        credit_account_id: AccountId,
        amount: Amount,
        timestamp: u64,
    ) -> (r: Result<Self, LedgerError>)
        ensures
            r == spec_new_transfer(id, debit_account_id, credit_account_id, amount, TransferState::Posted, None, timestamp),
    {
        if let Err(e) = Self::validate_invariants(id, debit_account_id, credit_account_id, amount) {
            return Err(e);
        }
        Ok(Self {
            id,
            debit_account_id,
            credit_account_id,
            amount,
            state: TransferState::Posted,
            pending_id: None,
            timestamp,
        })
    }

    /// Create a pending transfer that holds funds.
    pub fn new_pending(
        id: TransferId,
        debit_account_id: AccountId,
        credit_account_id: AccountId,
        amount: Amount,
        timestamp: u64,
    ) -> (r: Result<Self, LedgerError>)
        ensures
            r == spec_new_transfer(id, debit_account_id, credit_account_id, amount, TransferState::Pending, None, timestamp),
    {
        if let Err(e) = Self::validate_invariants(id, debit_account_id, credit_account_id, amount) {
            return Err(e);
        }
        Ok(Self {
            id,
            debit_account_id,
            credit_account_id,
            amount,
            state: TransferState::Pending,
            pending_id: None,
            timestamp,
        })
    }

    /// Create a posted transfer that settles a pending hold.
    pub fn new_settlement(
        id: TransferId,
        debit_account_id: AccountId,
        credit_account_id: AccountId,
        amount: Amount,
        pending_id: TransferId,
        timestamp: u64,
    ) -> (r: Result<Self, LedgerError>)
        ensures
            r == spec_new_transfer(id, debit_account_id, credit_account_id, amount, TransferState::Posted, Some(pending_id), timestamp),
    {
        if let Err(e) = Self::validate_invariants(id, debit_account_id, credit_account_id, amount) {
            return Err(e);
        }
        Ok(Self {
            id,
            debit_account_id,
            credit_account_id,
            amount,
            state: TransferState::Posted,
            pending_id: Some(pending_id),
            timestamp,
        })
    }

    /// Unique transfer ID.
    pub fn id(&self) -> (r: TransferId)
        ensures
            r == self@.id,
    {
        self.id
    }

    /// Account being debited.
    pub fn debit_account_id(&self) -> (r: AccountId)
        ensures
            r == self@.debit_account_id,
    {
        self.debit_account_id
    }

    /// Account being credited.
    pub fn credit_account_id(&self) -> (r: AccountId)
        ensures
            r == self@.credit_account_id,
    {
        self.credit_account_id
    }

    /// Transfer amount.
    pub fn amount(&self) -> (r: Amount)
        ensures
            r == self@.amount,
    {
        self.amount
    }

    /// The transfer's current state.
    pub fn state(&self) -> (r: TransferState)
        ensures
            r == self@.state,
    {
        self.state
    }

    /// Original pending transfer ID, if this posts a hold.
    pub fn pending_id(&self) -> (r: Option<TransferId>)
        ensures
            r == self@.pending_id,
    {
        self.pending_id
    }

    /// Timestamp of the transfer.
    pub fn timestamp(&self) -> (r: u64)
        ensures
            r == self@.timestamp,
    {
        self.timestamp
    }

    /// Check that the cross-field shape is legal regardless of how this
    /// transfer was produced: a fresh `Pending` hold cannot carry a hold link.
    pub fn validate_shape(&self) -> (r: Result<(), LedgerError>)
        ensures
            r == spec_validate_shape(self@),
    {
        if let (TransferState::Pending, Some(pending_id)) = (self.state, self.pending_id) {
            return Err(LedgerError::InvalidPendingLink {
                transfer_id: self.id,
                pending_id,
                actual: TransferState::Pending,
            });
        }
        Ok(())
    }

    /// Advance this transfer to `target`, encoding the legal lifecycle:
    /// only `Pending` moves on, to `Posted` or `Voided`, both terminal.
    pub fn transition_to(&mut self, target: TransferState) -> (r: Result<(), LedgerError>)
        ensures
            legal_transition(old(self)@.state, target) ==> r is Ok && *final(self) == with_state(*old(self), target),
            !legal_transition(old(self)@.state, target) ==> *final(self) == *old(self) && r == Err::<(), LedgerError>(
                LedgerError::InvalidTransferState {
                    id: old(self)@.id,
                    expected: TransferState::Pending,
                    actual: old(self)@.state,
                },
            ),
    {
        let legal = match (self.state, target) {
            (TransferState::Pending, TransferState::Posted) => true,
            (TransferState::Pending, TransferState::Voided) => true,
            _ => false,
        };
        if !legal {
            return Err(LedgerError::InvalidTransferState {
                id: self.id,
                expected: TransferState::Pending,
                actual: self.state,
            });
        }
        self.state = target;
        Ok(())
    }

    /// Put back a state captured before a speculative change.
    pub(crate) fn restore_state(&mut self, state: TransferState)
        ensures
            *final(self) == with_state(*old(self), state),
    {
        self.state = state;
    }

    fn validate_invariants(
        id: TransferId,
        debit_account_id: AccountId,
        credit_account_id: AccountId,
        amount: Amount,
    ) -> (r: Result<(), LedgerError>)
        ensures
            r == spec_validate_invariants(id, debit_account_id, credit_account_id, amount),
    {
        if debit_account_id.as_u128() == credit_account_id.as_u128() {
            return Err(LedgerError::DebitCreditAccountSame(debit_account_id));
        }
        if amount.is_zero() {
            return Err(LedgerError::ZeroAmountTransfer(id));
        }
        Ok(())
    }
}

} // verus!
