//! In-memory double-entry ledger.

use std::collections::BTreeMap;

use vstd::prelude::*;

use crate::ledger_core::account::{Account, AccountFlags, AccountType, Balance, zero_balance, spec_ensure_can_debit, spec_ensure_can_credit};
use crate::ledger_core::amount::{Amount, Scale, group_amount, lemma_amount_eq};
use crate::ledger_core::error::LedgerError;
use crate::ledger_core::id::{AccountId, TransferId, group_id};
use crate::ledger_core::journal::LedgerEvent;
use crate::ledger_core::model::{empty_state, timestamp_behind, timestamp_error, with_balance, spec_create_account, spec_close_account, spec_validate_new_transfer, spec_validate_pending_link, spec_create_transfer, spec_create_pending, spec_post_pending, spec_void_pending, spec_apply_event, spec_replay, accounts_missing, spec_event_lookups, spec_commit_event, spec_commit, spec_op_lookups, spec_op_event, spec_op_effect, spec_apply_op, spec_run_ops, spec_prepare, spec_prepare_transactions, debits_posted_fn, credits_posted_fn, debits_pending_fn, credits_pending_fn, total_debits_posted, total_credits_posted, total_debits_pending, total_credits_pending, held_debit, held_credit, held_debit_fn, held_credit_fn, held_debits, held_credits, state_wf, LedgerState};
use crate::ledger_core::undo::{UndoOp, tables, undo_one, undo_all, lemma_undo_all_append, spec_event_pre, spec_op_pre, balances_pre, hold_pre, lemma_event_undo, lemma_op_undo};
use crate::ledger_core::proofs::lemma_replay_wf;
use crate::ledger_core::sums::{seq_sum, lemma_seq_sum_set_sum, lemma_seq_sum_prefix_le, lemma_seq_sum_take_step};
use crate::ledger_core::transfer::{Transfer, TransferState, TransferView, group_transfer, spec_validate_shape, spec_validate_invariants, spec_transfer, with_state};

verus! {

broadcast use {group_amount, group_id, group_transfer, vstd::std_specs::btree::group_btree_axioms};

/// An operation in a multi-operation batch submitted to the ledger engine.
///
/// Batch operations are validated speculatively by [`Ledger::prepare_batch`].
/// Each operation maps directly to the corresponding state-machine mutation.
#[derive(Debug, PartialEq, Eq)]
pub enum BatchOp {
    /// Create a new account with its initial parameters and limits.
    CreateAccount {
        /// Account ID.
        id: AccountId,
        /// Account type (asset, liability, equity, revenue, expense).
        account_type: AccountType,
        /// Account rules and balance constraints.
        flags: AccountFlags,
        /// Currency decimal scale.
        scale: Scale,
        /// Sequence/wall-clock timestamp of account creation.
        timestamp: u64,
    },
    /// An immediate transfer settling funds between two accounts.
    Transfer(Transfer),
    /// A pending transfer that reserves/holds funds without settling.
    Pending(Transfer),
    /// Post (settle) a previously created pending hold.
    PostPending {
        /// The ID of the pending transfer being settled.
        pending_id: TransferId,
        /// The new transfer ID assigned to the posted settlement transfer.
        post_transfer_id: TransferId,
        /// The amount to settle (must match or be within pending reservation).
        amount: Amount,
        /// Sequence/wall-clock timestamp of this settlement.
        timestamp: u64,
    },
    /// Void (cancel) a previously created pending hold, returning reserved funds.
    VoidPending {
        /// The ID of the pending transfer being voided.
        pending_id: TransferId,
        /// Sequence/wall-clock timestamp of this cancellation.
        timestamp: u64,
    },
    /// Close an account, preventing any future debits or credits.
    CloseAccount {
        /// The ID of the account to close.
        id: AccountId,
        /// Sequence/wall-clock timestamp of the closure.
        timestamp: u64,
    },
}

impl Clone for BatchOp {
    fn clone(&self) -> (r: Self)
        ensures
            r == *self,
    {
        match self {
            BatchOp::CreateAccount { id, account_type, flags, scale, timestamp } => BatchOp::CreateAccount {
                id: *id,
                account_type: *account_type,
                flags: *flags,
                scale: *scale,
                timestamp: *timestamp,
            },
            BatchOp::Transfer(t) => BatchOp::Transfer(t.clone()),
            BatchOp::Pending(t) => BatchOp::Pending(t.clone()),
            BatchOp::PostPending { pending_id, post_transfer_id, amount, timestamp } => BatchOp::PostPending {
                pending_id: *pending_id,
                post_transfer_id: *post_transfer_id,
                amount: *amount,
                timestamp: *timestamp,
            },
            BatchOp::VoidPending { pending_id, timestamp } => BatchOp::VoidPending {
                pending_id: *pending_id,
                timestamp: *timestamp,
            },
            BatchOp::CloseAccount { id, timestamp } => BatchOp::CloseAccount { id: *id, timestamp: *timestamp },
        }
    }
}

/// The batch operation a transfer stands for: a hold when it is pending, an
/// immediate transfer otherwise.
pub open spec fn batch_op_of(t: Transfer) -> BatchOp {
    if t@.state == TransferState::Pending {
        BatchOp::Pending(t)
    } else {
        BatchOp::Transfer(t)
    }
}

impl From<Transfer> for BatchOp {
    fn from(transfer: Transfer) -> (r: Self) {
        if transfer.state() == TransferState::Pending {
            BatchOp::Pending(transfer)
        } else {
            BatchOp::Transfer(transfer)
        }
    }
}

impl vstd::std_specs::convert::FromSpecImpl<Transfer> for BatchOp {
    open spec fn obeys_from_spec() -> bool {
        true
    }

    open spec fn from_spec(transfer: Transfer) -> BatchOp {
        batch_op_of(transfer)
    }
}

/// What a ledger is, mathematically: its scale, its state and its journal.
pub struct LedgerView {
    /// The ledger's currency scale.
    pub scale: Scale,
    /// Accounts, transfers and the timestamp watermark.
    pub state: LedgerState,
    /// Every event recorded so far, in order.
    pub journal: Seq<LedgerEvent>,
}

impl LedgerView {
    /// A ledger is well formed when replaying its journal from an empty
    /// ledger rebuilds exactly its state.
    pub open spec fn wf(self) -> bool {
        spec_replay(self.scale, self.journal) == Ok::<LedgerState, LedgerError>(self.state)
    }

    /// The ledger after an operation that records `event` when it succeeds
    /// with state `res`, paired with what the operation returns.
    pub open spec fn after(self, res: Result<LedgerState, LedgerError>, event: LedgerEvent) -> (
        Result<(), LedgerError>,
        LedgerView,
    ) {
        match res {
            Ok(st) => (Ok(()), LedgerView { state: st, journal: self.journal.push(event), ..self }),
            Err(e) => (Err(e), self),
        }
    }
}

/// In-memory ledger holding accounts, transfers, and the event journal.
#[derive(Clone, Debug, PartialEq, Eq)]
pub struct Ledger {
    scale: Scale,
    accounts: BTreeMap<u128, Account>,
    transfers: BTreeMap<u128, Transfer>,
    journal: Vec<LedgerEvent>,
    last_timestamp: u64,
}

impl View for Ledger {
    type V = LedgerView;

    closed spec fn view(&self) -> LedgerView {
        LedgerView {
            scale: self.scale,
            state: LedgerState {
                accounts: self.accounts@,
                transfers: self.transfers@,
                last_timestamp: self.last_timestamp,
            },
            journal: self.journal@,
        }
    }
}

impl Ledger {
    /// Every ledger handed out by this module is well formed.
    pub closed spec fn wf(&self) -> bool {
        self@.wf()
    }

    /// A well-formed ledger's view is well formed.
    pub proof fn lemma_view_wf(&self)
        requires
            self.wf(),
        ensures
            self@.wf(),
    {
    }

    /// Create an empty ledger with the given decimal scale.
    pub fn new(scale: Scale) -> (r: Self)
        ensures
            r.wf(),
            r@ == (LedgerView { scale, state: empty_state(), journal: Seq::empty() }),
    {
        let r = Ledger {
            scale,
            accounts: BTreeMap::new(),
            transfers: BTreeMap::new(),
            journal: Vec::new(),
            last_timestamp: 0,
        };
        assert(r@.state == empty_state());
        r
    }

    /// The currency scale for this ledger.
    pub fn scale(&self) -> (r: Scale)
        ensures
            r == self@.scale,
    {
        self.scale
    }

    /// Highest timestamp recorded so far.
    pub fn last_timestamp(&self) -> (r: u64)
        ensures
            r == self@.state.last_timestamp,
    {
        self.last_timestamp
    }

    /// Get an account by ID.
    pub fn get_account(&self, id: AccountId) -> (r: Result<&Account, LedgerError>)
        ensures
            self@.state.accounts.contains_key(id@) ==> r == Ok::<&Account, LedgerError>(
                &self@.state.accounts[id@],
            ),
            !self@.state.accounts.contains_key(id@) ==> r == Err::<&Account, LedgerError>(
                LedgerError::AccountNotFound(id),
            ),
    {
        match self.accounts.get(&id.as_u128()) {
            Some(a) => Ok(a),
            None => Err(LedgerError::AccountNotFound(id)),
        }
    }

    /// Get a transfer by ID.
    pub fn get_transfer(&self, id: TransferId) -> (r: Result<&Transfer, LedgerError>)
        ensures
            self@.state.transfers.contains_key(id@) ==> r == Ok::<&Transfer, LedgerError>(
                &self@.state.transfers[id@],
            ),
            !self@.state.transfers.contains_key(id@) ==> r == Err::<&Transfer, LedgerError>(
                LedgerError::TransferNotFound(id),
            ),
    {
        match self.transfers.get(&id.as_u128()) {
            Some(t) => Ok(t),
            None => Err(LedgerError::TransferNotFound(id)),
        }
    }

    /// Get the full journal of events.
    pub fn journal(&self) -> (r: &[LedgerEvent])
        ensures
            r@ == self@.journal,
    {
        self.journal.as_slice()
    }
}


impl Ledger {
    /// Reject timestamps behind the previous recorded event so the journal
    /// stays chronologically consistent. Equal timestamps are allowed.
    fn check_timestamp(&self, timestamp: u64) -> (r: Result<(), LedgerError>)
        ensures
            timestamp_behind(self@.state, timestamp) ==> r == Err::<(), LedgerError>(
                timestamp_error(self@.state, timestamp),
            ),
            !timestamp_behind(self@.state, timestamp) ==> r is Ok,
    {
        if timestamp < self.last_timestamp {
            Err(LedgerError::TimestampBehindPrior { timestamp, last: self.last_timestamp })
        } else {
            Ok(())
        }
    }

    /// Advance the watermark after a timestamp has passed the check.
    fn advance_timestamp(&mut self, timestamp: u64)
        ensures
            final(self).last_timestamp == if timestamp > old(self).last_timestamp {
                timestamp
            } else {
                old(self).last_timestamp
            },
            final(self).scale == old(self).scale,
            final(self).accounts@ == old(self).accounts@,
            final(self).transfers@ == old(self).transfers@,
            final(self).journal@ == old(self).journal@,
    {
        if timestamp > self.last_timestamp {
            self.last_timestamp = timestamp;
        }
    }

    /// Record an event after the state has been changed to what it describes.
    proof fn lemma_record(&self, before: LedgerView, event: LedgerEvent, res: Result<LedgerState, LedgerError>)
        requires
            before.wf(),
            spec_apply_event(before.scale, before.state, event) == res,
            res is Ok,
            self@ == (LedgerView { state: res->Ok_0, journal: before.journal.push(event), ..before }),
        ensures
            self.wf(),
    {
        assert(self@.journal.drop_last() == before.journal);
    }

    /// Create a new account with zero balance.
    ///
    /// Fails with `TimestampBehindPrior`, `AccountAlreadyExists` or
    /// `ScaleMismatch`, checked in that order; on failure nothing changes.
    pub fn create_account(
        &mut self,
        id: AccountId,
        account_type: AccountType,
        flags: AccountFlags,
        scale: Scale,
        timestamp: u64,
    ) -> (r: Result<(), LedgerError>)
        requires
            old(self).wf(),
        ensures
            final(self).wf(),
            (r, final(self)@) == old(self)@.after(
                spec_create_account(old(self)@.scale, old(self)@.state, id, account_type, flags, scale, timestamp),
                LedgerEvent::AccountCreated { id, account_type, flags, scale, timestamp },
            ),
    {
        let ghost before = self@;
        if let Err(e) = self.check_timestamp(timestamp) {
            return Err(e);
        }
        if self.accounts.contains_key(&id.as_u128()) {
            return Err(LedgerError::AccountAlreadyExists(id));
        }
        if scale.as_u8() != self.scale.as_u8() {
            return Err(LedgerError::ScaleMismatch { expected: self.scale, actual: scale });
        }
        let account = Account::new(id, account_type, flags, scale);
        self.accounts.insert(id.as_u128(), account);
        self.advance_timestamp(timestamp);
        let event = LedgerEvent::AccountCreated { id, account_type, flags, scale, timestamp };
        self.journal.push(event);
        proof {
            let res = spec_create_account(before.scale, before.state, id, account_type, flags, scale, timestamp);
            assert(self@.state == res->Ok_0);
            self.lemma_record(before, event, res);
        }
        Ok(())
    }

    /// Close an account. Closed accounts reject all new transfers.
    ///
    /// Fails with `TimestampBehindPrior`, `AccountNotFound` or
    /// `AccountClosed`, checked in that order; on failure nothing changes.
    pub fn close_account(&mut self, id: AccountId, timestamp: u64) -> (r: Result<(), LedgerError>)
        requires
            old(self).wf(),
        ensures
            final(self).wf(),
            (r, final(self)@) == old(self)@.after(
                spec_close_account(old(self)@.state, id, timestamp),
                LedgerEvent::AccountClosed { id, timestamp },
            ),
    {
        let ghost before = self@;
        if let Err(e) = self.check_timestamp(timestamp) {
            return Err(e);
        }
        let mut account = match self.accounts.get(&id.as_u128()) {
            Some(a) => *a,
            None => return Err(LedgerError::AccountNotFound(id)),
        };
        if account.flags.is_closed {
            return Err(LedgerError::AccountClosed(id));
        }
        account.flags.is_closed = true;
        self.accounts.insert(id.as_u128(), account);
        self.advance_timestamp(timestamp);
        let event = LedgerEvent::AccountClosed { id, timestamp };
        self.journal.push(event);
        proof {
            let res = spec_close_account(before.state, id, timestamp);
            assert(self@.state == res->Ok_0);
            self.lemma_record(before, event, res);
        }
        Ok(())
    }

    /// Check that a new transfer's identity and shape are legal: ID unused,
    /// accounts distinct, amount non-zero, and the pending-link shape valid.
    fn validate_new_transfer(&self, transfer: &Transfer) -> (r: Result<(), LedgerError>)
        ensures
            r == spec_validate_new_transfer(self@.state, *transfer),
    {
        if self.transfers.contains_key(&transfer.id().as_u128()) {
            return Err(LedgerError::TransferAlreadyExists(transfer.id()));
        }
        if transfer.debit_account_id().as_u128() == transfer.credit_account_id().as_u128() {
            return Err(LedgerError::DebitCreditAccountSame(transfer.debit_account_id()));
        }
        if transfer.amount().is_zero() {
            return Err(LedgerError::ZeroAmountTransfer(transfer.id()));
        }
        transfer.validate_shape()
    }

    /// Check a posted transfer's hold link: if it names a `pending_id`, the
    /// hold must exist and already be posted.
    fn validate_pending_link(&self, transfer: &Transfer) -> (r: Result<(), LedgerError>)
        ensures
            r == spec_validate_pending_link(self@.state, *transfer),
    {
        let pending_id = match transfer.pending_id() {
            None => return Ok(()),
            Some(p) => p,
        };
        let hold = match self.transfers.get(&pending_id.as_u128()) {
            Some(h) => h,
            None => return Err(LedgerError::PendingLinkMissing { transfer_id: transfer.id(), pending_id }),
        };
        if hold.state() != TransferState::Posted {
            return Err(
                LedgerError::InvalidPendingLink { transfer_id: transfer.id(), pending_id, actual: hold.state() },
            );
        }
        Ok(())
    }
}


impl Ledger {
    /// Create and immediately settle a transfer between two accounts.
    ///
    /// Read-only checks run first, then the balance updates, so a failure
    /// never leaves a half-applied change. The checks, in order: the
    /// timestamp, the posted state, the identity and shape, the hold link,
    /// then the debit account (existence, closure and limits, overflow) and
    /// the credit account likewise.
    pub fn create_transfer(&mut self, transfer: Transfer) -> (r: Result<(), LedgerError>)
        requires
            old(self).wf(),
        ensures
            final(self).wf(),
            (r, final(self)@) == old(self)@.after(
                spec_create_transfer(old(self)@.state, transfer),
                LedgerEvent::TransferPosted { transfer },
            ),
    {
        let ghost before = self@;
        if let Err(e) = self.check_timestamp(transfer.timestamp()) {
            return Err(e);
        }
        if transfer.state() != TransferState::Posted {
            return Err(
                LedgerError::InvalidTransferState {
                    id: transfer.id(),
                    expected: TransferState::Posted,
                    actual: transfer.state(),
                },
            );
        }
        if let Err(e) = self.validate_new_transfer(&transfer) {
            return Err(e);
        }
        if let Err(e) = self.validate_pending_link(&transfer) {
            return Err(e);
        }
        let d = transfer.debit_account_id();
        let c = transfer.credit_account_id();
        let mut debit_acc = match self.accounts.get(&d.as_u128()) {
            Some(a) => *a,
            None => return Err(LedgerError::AccountNotFound(d)),
        };
        if let Err(e) = debit_acc.ensure_can_debit(transfer.amount()) {
            return Err(e);
        }
        let new_debits = match debit_acc.balance.debits_posted.checked_add(transfer.amount()) {
            Ok(v) => v,
            Err(e) => return Err(e),
        };
        let credit_acc = match self.accounts.get(&c.as_u128()) {
            Some(a) => *a,
            None => return Err(LedgerError::AccountNotFound(c)),
        };
        if let Err(e) = credit_acc.ensure_can_credit(transfer.amount()) {
            return Err(e);
        }
        let new_credits = match credit_acc.balance.credits_posted.checked_add(transfer.amount()) {
            Ok(v) => v,
            Err(e) => return Err(e),
        };
        debit_acc.balance.debits_posted = new_debits;
        self.accounts.insert(d.as_u128(), debit_acc);
        let mut credit_now = match self.accounts.get(&c.as_u128()) {
            Some(a) => *a,
            None => return Err(LedgerError::AccountNotFound(c)),
        };
        credit_now.balance.credits_posted = new_credits;
        self.accounts.insert(c.as_u128(), credit_now);
        self.advance_timestamp(transfer.timestamp());
        self.transfers.insert(transfer.id().as_u128(), transfer.clone());
        let ghost event = LedgerEvent::TransferPosted { transfer };
        self.journal.push(LedgerEvent::TransferPosted { transfer });
        proof {
            let res = spec_create_transfer(before.state, transfer);
            assert(self@.state == res->Ok_0);
            self.lemma_record(before, event, res);
        }
        Ok(())
    }

    /// Create a pending transfer that holds funds without settling yet.
    ///
    /// The checks, in order: the timestamp, the pending state, the identity
    /// and shape, then the debit account (existence, closure and limits,
    /// overflow of its pending debits) and the credit account likewise.
    pub fn create_pending(&mut self, transfer: Transfer) -> (r: Result<(), LedgerError>)
        requires
            old(self).wf(),
        ensures
            final(self).wf(),
            (r, final(self)@) == old(self)@.after(
                spec_create_pending(old(self)@.state, transfer),
                LedgerEvent::TransferPendingCreated { transfer },
            ),
    {
        let ghost before = self@;
        if let Err(e) = self.check_timestamp(transfer.timestamp()) {
            return Err(e);
        }
        if transfer.state() != TransferState::Pending {
            return Err(
                LedgerError::InvalidTransferState {
                    id: transfer.id(),
                    expected: TransferState::Pending,
                    actual: transfer.state(),
                },
            );
        }
        if let Err(e) = self.validate_new_transfer(&transfer) {
            return Err(e);
        }
        let d = transfer.debit_account_id();
        let c = transfer.credit_account_id();
        let mut debit_acc = match self.accounts.get(&d.as_u128()) {
            Some(a) => *a,
            None => return Err(LedgerError::AccountNotFound(d)),
        };
        if let Err(e) = debit_acc.ensure_can_debit(transfer.amount()) {
            return Err(e);
        }
        let new_debits = match debit_acc.balance.debits_pending.checked_add(transfer.amount()) {
            Ok(v) => v,
            Err(e) => return Err(e),
        };
        let credit_acc = match self.accounts.get(&c.as_u128()) {
            Some(a) => *a,
            None => return Err(LedgerError::AccountNotFound(c)),
        };
        if let Err(e) = credit_acc.ensure_can_credit(transfer.amount()) {
            return Err(e);
        }
        let new_credits = match credit_acc.balance.credits_pending.checked_add(transfer.amount()) {
            Ok(v) => v,
            Err(e) => return Err(e),
        };
        debit_acc.balance.debits_pending = new_debits;
        self.accounts.insert(d.as_u128(), debit_acc);
        let mut credit_now = match self.accounts.get(&c.as_u128()) {
            Some(a) => *a,
            None => return Err(LedgerError::AccountNotFound(c)),
        };
        credit_now.balance.credits_pending = new_credits;
        self.accounts.insert(c.as_u128(), credit_now);
        self.advance_timestamp(transfer.timestamp());
        self.transfers.insert(transfer.id().as_u128(), transfer.clone());
        let ghost event = LedgerEvent::TransferPendingCreated { transfer };
        self.journal.push(LedgerEvent::TransferPendingCreated { transfer });
        proof {
            let res = spec_create_pending(before.state, transfer);
            assert(self@.state == res->Ok_0);
            self.lemma_record(before, event, res);
        }
        Ok(())
    }
}


impl Ledger {
    /// Post a pending transfer. If `amount` is less than the hold, the rest is
    /// released.
    ///
    /// The checks, in order: the timestamp, that `post_transfer_id` is
    /// unused, that the hold exists, is pending, covers `amount` and that
    /// `amount` is not zero, then the balance arithmetic of the debit and the
    /// credit account, then the settlement's own shape.
    pub fn post_pending(
        &mut self,
        pending_id: TransferId,
        post_transfer_id: TransferId,
        amount: Amount,
        timestamp: u64,
    ) -> (r: Result<(), LedgerError>)
        requires
            old(self).wf(),
        ensures
            final(self).wf(),
            (r, final(self)@) == old(self)@.after(
                spec_post_pending(old(self)@.state, pending_id, post_transfer_id, amount, timestamp),
                LedgerEvent::TransferPendingPosted { pending_id, post_transfer_id, amount, timestamp },
            ),
    {
        let ghost before = self@;
        if let Err(e) = self.check_timestamp(timestamp) {
            return Err(e);
        }
        if self.transfers.contains_key(&post_transfer_id.as_u128()) {
            return Err(LedgerError::TransferAlreadyExists(post_transfer_id));
        }
        let mut pending_transfer = match self.transfers.get(&pending_id.as_u128()) {
            Some(t) => t.clone(),
            None => return Err(LedgerError::TransferNotFound(pending_id)),
        };
        if pending_transfer.state() != TransferState::Pending {
            return Err(
                LedgerError::InvalidTransferState {
                    id: pending_id,
                    expected: TransferState::Pending,
                    actual: pending_transfer.state(),
                },
            );
        }
        let pending_amount = pending_transfer.amount();
        if amount.as_u128() > pending_amount.as_u128() {
            return Err(
                LedgerError::PartialAmountExceedsPending {
                    transfer_id: pending_id,
                    requested: amount,
                    pending: pending_amount,
                },
            );
        }
        if amount.is_zero() {
            return Err(LedgerError::ZeroAmountTransfer(post_transfer_id));
        }
        let d = pending_transfer.debit_account_id();
        let c = pending_transfer.credit_account_id();
        let mut debit_acc = match self.accounts.get(&d.as_u128()) {
            Some(a) => *a,
            None => return Err(LedgerError::AccountNotFound(d)),
        };
        let new_debits_pending = match debit_acc.balance.debits_pending.checked_sub(pending_amount) {
            Ok(v) => v,
            Err(e) => return Err(e),
        };
        let new_debits_posted = match debit_acc.balance.debits_posted.checked_add(amount) {
            Ok(v) => v,
            Err(e) => return Err(e),
        };
        let credit_acc = match self.accounts.get(&c.as_u128()) {
            Some(a) => *a,
            None => return Err(LedgerError::AccountNotFound(c)),
        };
        let new_credits_pending = match credit_acc.balance.credits_pending.checked_sub(pending_amount) {
            Ok(v) => v,
            Err(e) => return Err(e),
        };
        let new_credits_posted = match credit_acc.balance.credits_posted.checked_add(amount) {
            Ok(v) => v,
            Err(e) => return Err(e),
        };
        let posted_transfer = match Transfer::new_settlement(post_transfer_id, d, c, amount, pending_id, timestamp) {
            Ok(t) => t,
            Err(e) => return Err(e),
        };
        debit_acc.balance.debits_pending = new_debits_pending;
        debit_acc.balance.debits_posted = new_debits_posted;
        self.accounts.insert(d.as_u128(), debit_acc);
        let mut credit_now = match self.accounts.get(&c.as_u128()) {
            Some(a) => *a,
            None => return Err(LedgerError::AccountNotFound(c)),
        };
        credit_now.balance.credits_pending = new_credits_pending;
        credit_now.balance.credits_posted = new_credits_posted;
        self.accounts.insert(c.as_u128(), credit_now);
        if let Err(e) = pending_transfer.transition_to(TransferState::Posted) {
            return Err(e);
        }
        self.transfers.insert(pending_id.as_u128(), pending_transfer);
        self.advance_timestamp(timestamp);
        self.transfers.insert(post_transfer_id.as_u128(), posted_transfer);
        let event = LedgerEvent::TransferPendingPosted { pending_id, post_transfer_id, amount, timestamp };
        self.journal.push(event);
        proof {
            let res = spec_post_pending(before.state, pending_id, post_transfer_id, amount, timestamp);
            assert(self@.state == res->Ok_0);
            self.lemma_record(before, event, res);
        }
        Ok(())
    }

    /// Cancel a pending transfer and release the held funds.
    ///
    /// The checks, in order: the timestamp, that the hold exists and is
    /// pending, then the pending balances of the debit and the credit account.
    pub fn void_pending(&mut self, pending_id: TransferId, timestamp: u64) -> (r: Result<(), LedgerError>)
        requires
            old(self).wf(),
        ensures
            final(self).wf(),
            (r, final(self)@) == old(self)@.after(
                spec_void_pending(old(self)@.state, pending_id, timestamp),
                LedgerEvent::TransferPendingVoided {
                    pending_id,
                    amount: old(self)@.state.transfers[pending_id@]@.amount,
                    timestamp,
                },
            ),
    {
        let ghost before = self@;
        if let Err(e) = self.check_timestamp(timestamp) {
            return Err(e);
        }
        let mut pending_transfer = match self.transfers.get(&pending_id.as_u128()) {
            Some(t) => t.clone(),
            None => return Err(LedgerError::TransferNotFound(pending_id)),
        };
        if pending_transfer.state() != TransferState::Pending {
            return Err(
                LedgerError::InvalidTransferState {
                    id: pending_id,
                    expected: TransferState::Pending,
                    actual: pending_transfer.state(),
                },
            );
        }
        let pending_amount = pending_transfer.amount();
        let d = pending_transfer.debit_account_id();
        let c = pending_transfer.credit_account_id();
        let mut debit_acc = match self.accounts.get(&d.as_u128()) {
            Some(a) => *a,
            None => return Err(LedgerError::AccountNotFound(d)),
        };
        let new_debits_pending = match debit_acc.balance.debits_pending.checked_sub(pending_amount) {
            Ok(v) => v,
            Err(e) => return Err(e),
        };
        let credit_acc = match self.accounts.get(&c.as_u128()) {
            Some(a) => *a,
            None => return Err(LedgerError::AccountNotFound(c)),
        };
        let new_credits_pending = match credit_acc.balance.credits_pending.checked_sub(pending_amount) {
            Ok(v) => v,
            Err(e) => return Err(e),
        };
        debit_acc.balance.debits_pending = new_debits_pending;
        self.accounts.insert(d.as_u128(), debit_acc);
        let mut credit_now = match self.accounts.get(&c.as_u128()) {
            Some(a) => *a,
            None => return Err(LedgerError::AccountNotFound(c)),
        };
        credit_now.balance.credits_pending = new_credits_pending;
        self.accounts.insert(c.as_u128(), credit_now);
        if let Err(e) = pending_transfer.transition_to(TransferState::Voided) {
            return Err(e);
        }
        self.transfers.insert(pending_id.as_u128(), pending_transfer);
        self.advance_timestamp(timestamp);
        let event = LedgerEvent::TransferPendingVoided { pending_id, amount: pending_amount, timestamp };
        self.journal.push(event);
        proof {
            let res = spec_void_pending(before.state, pending_id, timestamp);
            assert(self@.state == res->Ok_0);
            self.lemma_record(before, event, res);
        }
        Ok(())
    }
}


/// A replay that fails on a prefix fails with the same error.
proof fn lemma_replay_err_extends(scale: Scale, evs: Seq<LedgerEvent>, n: int)
    requires
        0 <= n <= evs.len(),
        spec_replay(scale, evs.take(n)) is Err,
    ensures
        spec_replay(scale, evs) == spec_replay(scale, evs.take(n)),
    decreases evs.len() - n,
{
    if n < evs.len() {
        assert(evs.take(n + 1).drop_last() =~= evs.take(n));
        lemma_replay_err_extends(scale, evs, n + 1);
    } else {
        assert(evs.take(n) =~= evs);
    }
}

/// A commit that fails on a prefix fails with the same error.
proof fn lemma_commit_err_extends(scale: Scale, st: LedgerState, evs: Seq<LedgerEvent>, n: int)
    requires
        0 <= n <= evs.len(),
        spec_commit(scale, st, evs.take(n)) is Err,
    ensures
        spec_commit(scale, st, evs) == spec_commit(scale, st, evs.take(n)),
    decreases evs.len() - n,
{
    if n < evs.len() {
        assert(evs.take(n + 1).drop_last() =~= evs.take(n));
        lemma_commit_err_extends(scale, st, evs, n + 1);
    } else {
        assert(evs.take(n) =~= evs);
    }
}

/// A run of batch operations that fails on a prefix fails with the same error.
proof fn lemma_run_err_extends(scale: Scale, st: LedgerState, ops: Seq<BatchOp>, n: int)
    requires
        0 <= n <= ops.len(),
        spec_run_ops(scale, st, ops.take(n)) is Err,
    ensures
        spec_run_ops(scale, st, ops) == spec_run_ops(scale, st, ops.take(n)),
    decreases ops.len() - n,
{
    if n < ops.len() {
        assert(ops.take(n + 1).drop_last() =~= ops.take(n));
        lemma_run_err_extends(scale, st, ops, n + 1);
    } else {
        assert(ops.take(n) =~= ops);
    }
}

/// Capture the pre-image of an account's balances.
fn push_balance_before(ledger: &Ledger, id: AccountId, undo: &mut Vec<UndoOp>) -> (r: Result<(), LedgerError>)
    ensures
        ledger@.state.accounts.contains_key(id@) ==> r is Ok && final(undo)@ == old(undo)@.push(
            UndoOp::AccountBalanceBefore { id, balance: ledger@.state.accounts[id@].balance },
        ),
        !ledger@.state.accounts.contains_key(id@) ==> r == Err::<(), LedgerError>(LedgerError::AccountNotFound(id)),
{
    let account = match ledger.accounts.get(&id.as_u128()) {
        Some(a) => a,
        None => return Err(LedgerError::AccountNotFound(id)),
    };
    undo.push(UndoOp::AccountBalanceBefore { id, balance: account.balance });
    Ok(())
}

/// Capture the pre-images of a settlement or a void of the hold `pending_id`.
fn push_hold_before(ledger: &Ledger, pending_id: TransferId, undo: &mut Vec<UndoOp>) -> (r: Result<(), LedgerError>)
    ensures
        match spec_event_lookups(ledger@.state, LedgerEvent::TransferPendingVoided { pending_id, amount: Amount::from_spec(0), timestamp: 0 }) {
            Some(err) => r == Err::<(), LedgerError>(err),
            None => r is Ok && final(undo)@ == old(undo)@ + hold_pre(ledger@.state, pending_id),
        },
{
    let pending = match ledger.transfers.get(&pending_id.as_u128()) {
        Some(t) => t,
        None => return Err(LedgerError::TransferNotFound(pending_id)),
    };
    if let Err(e) = push_balance_before(ledger, pending.debit_account_id(), undo) {
        return Err(e);
    }
    if let Err(e) = push_balance_before(ledger, pending.credit_account_id(), undo) {
        return Err(e);
    }
    undo.push(UndoOp::TransferStateBefore { id: pending_id, state: pending.state() });
    proof {
        let st = ledger@.state;
        let p = st.transfers[pending_id@]@;
        assert(final(undo)@ =~= old(undo)@ + hold_pre(st, pending_id));
    }
    Ok(())
}

/// Capture the pre-images of every side effect `event` will make.
fn pre_images(event: &LedgerEvent, ledger: &Ledger, undo: &mut Vec<UndoOp>) -> (r: Result<(), LedgerError>)
    ensures
        match spec_event_lookups(ledger@.state, *event) {
            Some(err) => r == Err::<(), LedgerError>(err),
            None => r is Ok && final(undo)@ == old(undo)@ + spec_event_pre(ledger@.state, *event),
        },
{
    let ghost st = ledger@.state;
    match event {
        LedgerEvent::AccountCreated { id, .. } => {
            undo.push(UndoOp::RemoveAccount { id: *id });
            assert(final(undo)@ =~= old(undo)@ + spec_event_pre(st, *event));
        },
        LedgerEvent::AccountClosed { id, .. } => {
            let account = match ledger.accounts.get(&id.as_u128()) {
                Some(a) => a,
                None => return Err(LedgerError::AccountNotFound(*id)),
            };
            undo.push(UndoOp::AccountFlagsBefore { id: *id, flags: account.flags });
            assert(final(undo)@ =~= old(undo)@ + spec_event_pre(st, *event));
        },
        LedgerEvent::TransferPosted { transfer } | LedgerEvent::TransferPendingCreated { transfer } => {
            if let Err(e) = push_balance_before(ledger, transfer.debit_account_id(), undo) {
                return Err(e);
            }
            if let Err(e) = push_balance_before(ledger, transfer.credit_account_id(), undo) {
                return Err(e);
            }
            undo.push(UndoOp::RemoveTransfer { id: transfer.id() });
            assert(final(undo)@ =~= old(undo)@ + spec_event_pre(st, *event));
        },
        LedgerEvent::TransferPendingPosted { pending_id, post_transfer_id, .. } => {
            if let Err(e) = push_hold_before(ledger, *pending_id, undo) {
                return Err(e);
            }
            undo.push(UndoOp::RemoveTransfer { id: *post_transfer_id });
            assert(final(undo)@ =~= old(undo)@ + spec_event_pre(st, *event));
        },
        LedgerEvent::TransferPendingVoided { pending_id, .. } => {
            if let Err(e) = push_hold_before(ledger, *pending_id, undo) {
                return Err(e);
            }
        },
    }
    Ok(())
}

/// Capture the pre-images of every side effect `op` will make during
/// speculative batch execution.
fn op_pre_images(op: &BatchOp, ledger: &Ledger, undo: &mut Vec<UndoOp>) -> (r: Result<(), LedgerError>)
    ensures
        match spec_op_lookups(ledger@.state, *op) {
            Some(err) => r == Err::<(), LedgerError>(err),
            None => r is Ok && final(undo)@ == old(undo)@ + spec_op_pre(ledger@.state, *op),
        },
{
    let ghost st = ledger@.state;
    match op {
        BatchOp::CreateAccount { id, .. } => {
            if ledger.accounts.contains_key(&id.as_u128()) {
                return Err(LedgerError::AccountAlreadyExists(*id));
            }
            undo.push(UndoOp::RemoveAccount { id: *id });
            assert(final(undo)@ =~= old(undo)@ + spec_op_pre(st, *op));
        },
        BatchOp::CloseAccount { id, .. } => {
            let account = match ledger.accounts.get(&id.as_u128()) {
                Some(a) => a,
                None => return Err(LedgerError::AccountNotFound(*id)),
            };
            undo.push(UndoOp::AccountFlagsBefore { id: *id, flags: account.flags });
            assert(final(undo)@ =~= old(undo)@ + spec_op_pre(st, *op));
        },
        BatchOp::Transfer(transfer) | BatchOp::Pending(transfer) => {
            if let Err(e) = push_balance_before(ledger, transfer.debit_account_id(), undo) {
                return Err(e);
            }
            if let Err(e) = push_balance_before(ledger, transfer.credit_account_id(), undo) {
                return Err(e);
            }
            undo.push(UndoOp::RemoveTransfer { id: transfer.id() });
            assert(final(undo)@ =~= old(undo)@ + spec_op_pre(st, *op));
        },
        BatchOp::PostPending { pending_id, post_transfer_id, .. } => {
            if let Err(e) = push_hold_before(ledger, *pending_id, undo) {
                return Err(e);
            }
            undo.push(UndoOp::RemoveTransfer { id: *post_transfer_id });
            assert(final(undo)@ =~= old(undo)@ + spec_op_pre(st, *op));
        },
        BatchOp::VoidPending { pending_id, .. } => {
            if let Err(e) = push_hold_before(ledger, *pending_id, undo) {
                return Err(e);
            }
        },
    }
    Ok(())
}


impl Ledger {
    /// Apply one journal event against the live ledger; every event is
    /// re-validated instead of trusting its claims about balances.
    fn apply_event(&mut self, event: &LedgerEvent) -> (r: Result<(), LedgerError>)
        requires
            old(self).wf(),
        ensures
            final(self).wf(),
            (r, final(self)@) == old(self)@.after(spec_apply_event(old(self)@.scale, old(self)@.state, *event), *event),
    {
        match event {
            LedgerEvent::AccountCreated { id, account_type, flags, scale, timestamp } => self.create_account(
                *id,
                *account_type,
                *flags,
                *scale,
                *timestamp,
            ),
            LedgerEvent::AccountClosed { id, timestamp } => self.close_account(*id, *timestamp),
            LedgerEvent::TransferPosted { transfer } => self.create_transfer(transfer.clone()),
            LedgerEvent::TransferPendingCreated { transfer } => self.create_pending(transfer.clone()),
            LedgerEvent::TransferPendingPosted { pending_id, post_transfer_id, amount, timestamp } => self.post_pending(
                *pending_id,
                *post_transfer_id,
                *amount,
                *timestamp,
            ),
            LedgerEvent::TransferPendingVoided { pending_id, amount, timestamp } => {
                let pending = match self.transfers.get(&pending_id.as_u128()) {
                    Some(t) => t.amount(),
                    None => return Err(LedgerError::TransferNotFound(*pending_id)),
                };
                if pending.as_u128() != amount.as_u128() {
                    return Err(
                        LedgerError::JournalVoidedAmountMismatch { pending_id: *pending_id, pending, amount: *amount },
                    );
                }
                proof {
                    lemma_amount_eq(pending, *amount);
                }
                self.void_pending(*pending_id, *timestamp)
            },
        }
    }

    /// Apply one batch operation against live ledger state during
    /// speculative batch execution.
    fn apply_batch_op(&mut self, op: &BatchOp) -> (r: Result<(), LedgerError>)
        requires
            old(self).wf(),
        ensures
            final(self).wf(),
            (r, final(self)@) == old(self)@.after(
                spec_op_effect(old(self)@.scale, old(self)@.state, *op),
                spec_op_event(old(self)@.state, *op),
            ),
    {
        match op {
            BatchOp::CreateAccount { id, account_type, flags, scale, timestamp } => self.create_account(
                *id,
                *account_type,
                *flags,
                *scale,
                *timestamp,
            ),
            BatchOp::Transfer(transfer) => self.create_transfer(transfer.clone()),
            BatchOp::Pending(transfer) => self.create_pending(transfer.clone()),
            BatchOp::PostPending { pending_id, post_transfer_id, amount, timestamp } => self.post_pending(
                *pending_id,
                *post_transfer_id,
                *amount,
                *timestamp,
            ),
            BatchOp::VoidPending { pending_id, timestamp } => self.void_pending(*pending_id, *timestamp),
            BatchOp::CloseAccount { id, timestamp } => self.close_account(*id, *timestamp),
        }
    }

    /// Rebuild ledger state by replaying a list of journal events.
    ///
    /// Fails with the error of the first event that does not apply.
    pub fn replay(scale: Scale, events: &[LedgerEvent]) -> (r: Result<Self, LedgerError>)
        ensures
            match spec_replay(scale, events@) {
                Ok(st) => r is Ok && r->Ok_0.wf() && r->Ok_0@ == (LedgerView { scale, state: st, journal: events@ }),
                Err(e) => r == Err::<Self, LedgerError>(e),
            },
    {
        let mut ledger = Self::new(scale);
        let mut i: usize = 0;
        while i < events.len()
            invariant
                0 <= i <= events@.len(),
                ledger.wf(),
                ledger@.scale == scale,
                ledger@.journal == events@.take(i as int),
            decreases events@.len() - i,
        {
            proof {
                assert(events@.take(i as int + 1).drop_last() =~= events@.take(i as int));
            }
            if let Err(e) = ledger.apply_event(&events[i]) {
                proof {
                    lemma_replay_err_extends(scale, events@, i as int + 1);
                }
                return Err(e);
            }
            proof {
                assert(ledger@.journal =~= events@.take(i as int + 1));
            }
            i += 1;
        }
        proof {
            assert(events@.take(i as int) =~= events@);
        }
        Ok(ledger)
    }

    /// Revert every recorded pre-image in reverse order, then restore the
    /// journal length and timestamp watermark captured before the batch.
    ///
    /// Reads are guarded: a missing entry is left as it is rather than
    /// panicking during recovery of an error path.
    fn rollback(&mut self, undo: &Vec<UndoOp>, base_journal_len: usize, base_timestamp: u64)
        requires
            base_journal_len <= old(self)@.journal.len(),
        ensures
            final(self)@.scale == old(self)@.scale,
            tables(final(self)@.state) == undo_all(tables(old(self)@.state), undo@),
            final(self)@.state.last_timestamp == base_timestamp,
            final(self)@.journal == old(self)@.journal.take(base_journal_len as int),
    {
        let mut i = undo.len();
        proof {
            assert(undo@.take(i as int) =~= undo@);
        }
        while i > 0
            invariant
                i <= undo@.len(),
                self.scale == old(self).scale,
                self.journal@ == old(self).journal@,
                undo_all(tables(self@.state), undo@.take(i as int)) == undo_all(tables(old(self)@.state), undo@),
            decreases i,
        {
            let ghost before = tables(self@.state);
            i -= 1;
            proof {
                assert(undo@.take(i as int + 1).drop_last() =~= undo@.take(i as int));
                assert(undo@.take(i as int + 1).last() == undo@[i as int]);
            }
            match &undo[i] {
                UndoOp::RemoveAccount { id } => {
                    self.accounts.remove(&id.as_u128());
                },
                UndoOp::AccountFlagsBefore { id, flags } => {
                    if let Some(account) = self.accounts.get(&id.as_u128()) {
                        let mut a = *account;
                        a.flags = *flags;
                        self.accounts.insert(id.as_u128(), a);
                    }
                },
                UndoOp::AccountBalanceBefore { id, balance } => {
                    if let Some(account) = self.accounts.get(&id.as_u128()) {
                        let mut a = *account;
                        a.balance = *balance;
                        self.accounts.insert(id.as_u128(), a);
                    }
                },
                UndoOp::RemoveTransfer { id } => {
                    self.transfers.remove(&id.as_u128());
                },
                UndoOp::TransferStateBefore { id, state } => {
                    if let Some(transfer) = self.transfers.get(&id.as_u128()) {
                        let mut t = transfer.clone();
                        t.restore_state(*state);
                        self.transfers.insert(id.as_u128(), t);
                    }
                },
            }
            proof {
                assert(tables(self@.state) == undo_one(before, undo@[i as int]));
            }
        }
        self.journal.truncate(base_journal_len);
        self.last_timestamp = base_timestamp;
        proof {
            assert(undo@.take(0) =~= Seq::<UndoOp>::empty());
        }
    }
}


/// The journal events that posting each transfer records.
pub open spec fn posted_events(transfers: Seq<Transfer>) -> Seq<LedgerEvent> {
    transfers.map_values(|t: Transfer| LedgerEvent::TransferPosted { transfer: t })
}

/// The batch operations of immediate transfers.
pub open spec fn transfer_ops(transfers: Seq<Transfer>) -> Seq<BatchOp> {
    transfers.map_values(|t: Transfer| BatchOp::Transfer(t))
}

/// Transactions as sequences of operations.
pub open spec fn txs_view(txs: Seq<Vec<BatchOp>>) -> Seq<Seq<BatchOp>> {
    txs.map_values(|v: Vec<BatchOp>| v@)
}

/// Per-transaction results with their event lists as sequences.
pub open spec fn results_view(rs: Seq<Result<Vec<LedgerEvent>, LedgerError>>) -> Seq<Result<Seq<LedgerEvent>, LedgerError>> {
    rs.map_values(
        |r: Result<Vec<LedgerEvent>, LedgerError>|
            match r {
                Ok(v) => Ok(v@),
                Err(e) => Err(e),
            },
    )
}

/// Each operation as a transaction of its own.
pub open spec fn singleton_txs(ops: Seq<BatchOp>) -> Seq<Seq<BatchOp>> {
    ops.map_values(|op: BatchOp| seq![op])
}

impl Ledger {
    /// A copy of the journal from `start` on.
    fn journal_from(&self, start: usize) -> (r: Vec<LedgerEvent>)
        requires
            start <= self@.journal.len(),
        ensures
            r@ == self@.journal.skip(start as int),
    {
        let mut out: Vec<LedgerEvent> = Vec::new();
        let mut j = start;
        while j < self.journal.len()
            invariant
                start <= j <= self.journal@.len(),
                out@ == self.journal@.subrange(start as int, j as int),
            decreases self.journal@.len() - j,
        {
            out.push(self.journal[j].clone());
            proof {
                assert(out@ =~= self.journal@.subrange(start as int, j as int + 1));
            }
            j += 1;
        }
        proof {
            assert(out@ =~= self@.journal.skip(start as int));
        }
        out
    }

    /// Apply each event, recording its pre-images so the application can be
    /// reverted. On the first failure the events applied so far are rolled
    /// back and the error is returned.
    fn apply_with_undo(
        &mut self,
        events: &[LedgerEvent],
        base_journal_len: usize,
        base_timestamp: u64,
    ) -> (r: Result<Vec<UndoOp>, LedgerError>)
        requires
            old(self).wf(),
            base_journal_len == old(self)@.journal.len(),
            base_timestamp == old(self)@.state.last_timestamp,
        ensures
            final(self).wf(),
            match spec_commit(old(self)@.scale, old(self)@.state, events@) {
                Ok(s) => {
                    &&& r is Ok
                    &&& final(self)@ == (LedgerView { state: s, journal: old(self)@.journal + events@, ..old(self)@ })
                    &&& undo_all(tables(s), r->Ok_0@) == tables(old(self)@.state)
                },
                Err(e) => r == Err::<Vec<UndoOp>, LedgerError>(e) && final(self)@ == old(self)@,
            },
    {
        let ghost start = self@;
        let mut undo: Vec<UndoOp> = Vec::new();
        let mut i: usize = 0;
        proof {
            assert(events@.take(0) =~= Seq::<LedgerEvent>::empty());
            assert(start.journal + events@.take(0) =~= start.journal);
        }
        while i < events.len()
            invariant
                0 <= i <= events@.len(),
                self.wf(),
                self@.scale == start.scale,
                self@.journal == start.journal + events@.take(i as int),
                spec_commit(start.scale, start.state, events@.take(i as int)) == Ok::<LedgerState, LedgerError>(
                    self@.state,
                ),
                undo_all(tables(self@.state), undo@) == tables(start.state),
                base_journal_len == start.journal.len(),
                base_timestamp == start.state.last_timestamp,
                start == old(self)@,
                start.wf(),
            decreases events@.len() - i,
        {
            let ghost cur = self@;
            let event = &events[i];
            proof {
                assert(events@.take(i as int + 1).drop_last() =~= events@.take(i as int));
                assert(events@.take(i as int + 1).last() == events@[i as int]);
            }
            let mut pre: Vec<UndoOp> = Vec::new();
            if let Err(err) = pre_images(event, self, &mut pre) {
                self.rollback(&undo, base_journal_len, base_timestamp);
                proof {
                    lemma_commit_err_extends(start.scale, start.state, events@, i as int + 1);
                    assert(self@.journal =~= start.journal);
                    assert(self@.state == start.state);
                    assert(self@ == start);
                }
                return Err(err);
            }
            if let Err(err) = self.apply_event(event) {
                self.rollback(&undo, base_journal_len, base_timestamp);
                proof {
                    lemma_commit_err_extends(start.scale, start.state, events@, i as int + 1);
                    assert(self@.journal =~= start.journal);
                    assert(self@.state == start.state);
                    assert(self@ == start);
                }
                return Err(err);
            }
            proof {
                lemma_event_undo(cur.scale, cur.state, *event);
                lemma_undo_all_append(tables(self@.state), undo@, pre@);
                assert(self@.journal =~= start.journal + events@.take(i as int + 1));
            }
            undo.append(&mut pre);
            i += 1;
        }
        proof {
            assert(events@.take(i as int) =~= events@);
        }
        Ok(undo)
    }

    /// Apply a batch of journal events previously produced by
    /// [`Self::prepare_batch`].
    ///
    /// Each event is re-validated against live state (the same checks replay
    /// performs), so a stale or duplicated batch cannot be applied twice.
    /// The whole batch is atomic: a failure leaves the ledger as it was.
    pub fn commit_events(&mut self, events: &[LedgerEvent]) -> (r: Result<(), LedgerError>)
        requires
            old(self).wf(),
        ensures
            final(self).wf(),
            match spec_commit(old(self)@.scale, old(self)@.state, events@) {
                Ok(s) => r is Ok && final(self)@ == (LedgerView {
                    state: s,
                    journal: old(self)@.journal + events@,
                    ..old(self)@
                }),
                Err(e) => r == Err::<(), LedgerError>(e) && final(self)@ == old(self)@,
            },
    {
        let base_journal_len = self.journal.len();
        let base_timestamp = self.last_timestamp;
        match self.apply_with_undo(events, base_journal_len, base_timestamp) {
            Ok(_) => Ok(()),
            Err(e) => Err(e),
        }
    }

    /// Apply a batch of posted transfers atomically in sequence.
    ///
    /// Either all transfers succeed, or the ledger is left as it was on the
    /// first failure.
    pub fn apply_batch(&mut self, transfers: &[Transfer]) -> (r: Result<(), LedgerError>)
        requires
            old(self).wf(),
        ensures
            final(self).wf(),
            match spec_commit(old(self)@.scale, old(self)@.state, posted_events(transfers@)) {
                Ok(s) => r is Ok && final(self)@ == (LedgerView {
                    state: s,
                    journal: old(self)@.journal + posted_events(transfers@),
                    ..old(self)@
                }),
                Err(e) => r == Err::<(), LedgerError>(e) && final(self)@ == old(self)@,
            },
    {
        let mut events: Vec<LedgerEvent> = Vec::new();
        let mut i: usize = 0;
        while i < transfers.len()
            invariant
                0 <= i <= transfers@.len(),
                events@ == posted_events(transfers@.take(i as int)),
            decreases transfers@.len() - i,
        {
            events.push(LedgerEvent::TransferPosted { transfer: transfers[i].clone() });
            proof {
                assert(events@ =~= posted_events(transfers@.take(i as int + 1)));
            }
            i += 1;
        }
        proof {
            assert(transfers@.take(i as int) =~= transfers@);
        }
        let base_journal_len = self.journal.len();
        let base_timestamp = self.last_timestamp;
        match self.apply_with_undo(events.as_slice(), base_journal_len, base_timestamp) {
            Ok(_) => Ok(()),
            Err(e) => Err(e),
        }
    }
}


impl Ledger {
    /// Apply the operations of one transaction speculatively, recording the
    /// pre-images of their side effects. On the first failure the operations
    /// applied so far are rolled back and the error is returned.
    fn run_ops(&mut self, ops: &[BatchOp]) -> (r: Result<Vec<UndoOp>, LedgerError>)
        requires
            old(self).wf(),
        ensures
            final(self).wf(),
            match spec_run_ops(old(self)@.scale, old(self)@.state, ops@) {
                Ok((s, evs)) => {
                    &&& r is Ok
                    &&& final(self)@ == (LedgerView { state: s, journal: old(self)@.journal + evs, ..old(self)@ })
                    &&& undo_all(tables(s), r->Ok_0@) == tables(old(self)@.state)
                },
                Err(e) => r == Err::<Vec<UndoOp>, LedgerError>(e) && final(self)@ == old(self)@,
            },
    {
        let ghost start = self@;
        let base_journal_len = self.journal.len();
        let base_timestamp = self.last_timestamp;
        let mut undo: Vec<UndoOp> = Vec::new();
        let mut i: usize = 0;
        proof {
            assert(ops@.take(0) =~= Seq::<BatchOp>::empty());
            assert(start.journal + Seq::<LedgerEvent>::empty() =~= start.journal);
        }
        while i < ops.len()
            invariant
                0 <= i <= ops@.len(),
                self.wf(),
                self@.scale == start.scale,
                spec_run_ops(start.scale, start.state, ops@.take(i as int)) matches Ok((s, evs)) && s == self@.state
                    && self@.journal == start.journal + evs,
                undo_all(tables(self@.state), undo@) == tables(start.state),
                base_journal_len == start.journal.len(),
                base_timestamp == start.state.last_timestamp,
                start == old(self)@,
                start.wf(),
            decreases ops@.len() - i,
        {
            let ghost cur = self@;
            let op = &ops[i];
            proof {
                assert(ops@.take(i as int + 1).drop_last() =~= ops@.take(i as int));
                assert(ops@.take(i as int + 1).last() == ops@[i as int]);
            }
            let mut pre: Vec<UndoOp> = Vec::new();
            if let Err(err) = op_pre_images(op, self, &mut pre) {
                self.rollback(&undo, base_journal_len, base_timestamp);
                proof {
                    lemma_run_err_extends(start.scale, start.state, ops@, i as int + 1);
                    assert(self@.journal =~= start.journal);
                    assert(self@.state == start.state);
                    assert(self@ == start);
                }
                return Err(err);
            }
            if let Err(err) = self.apply_batch_op(op) {
                self.rollback(&undo, base_journal_len, base_timestamp);
                proof {
                    lemma_run_err_extends(start.scale, start.state, ops@, i as int + 1);
                    assert(self@.journal =~= start.journal);
                    assert(self@.state == start.state);
                    assert(self@ == start);
                }
                return Err(err);
            }
            proof {
                lemma_op_undo(cur.scale, cur.state, *op);
                lemma_undo_all_append(tables(self@.state), undo@, pre@);
                let evs = spec_run_ops(start.scale, start.state, ops@.take(i as int))->Ok_0.1;
                assert(self@.journal =~= start.journal + evs.push(spec_op_event(cur.state, *op)));
            }
            undo.append(&mut pre);
            i += 1;
        }
        proof {
            assert(ops@.take(i as int) =~= ops@);
        }
        Ok(undo)
    }

    /// Validate a batch of operations and return the journal events it would
    /// emit, without persisting any change to this ledger.
    ///
    /// Validation runs speculatively against live state and is then rolled
    /// back; on success the returned events are exactly what a later
    /// [`Self::commit_events`] will apply. On error, this ledger is unchanged.
    pub fn prepare_batch(&mut self, ops: &[BatchOp]) -> (r: Result<Vec<LedgerEvent>, LedgerError>)
        requires
            old(self).wf(),
        ensures
            final(self).wf(),
            final(self)@ == old(self)@,
            match spec_prepare(old(self)@.scale, old(self)@.state, ops@) {
                Ok(evs) => r is Ok && r->Ok_0@ == evs,
                Err(e) => r == Err::<Vec<LedgerEvent>, LedgerError>(e),
            },
    {
        let ghost start = self@;
        let base_journal_len = self.journal.len();
        let base_timestamp = self.last_timestamp;
        let undo = match self.run_ops(ops) {
            Ok(u) => u,
            Err(e) => return Err(e),
        };
        let produced = self.journal_from(base_journal_len);
        self.rollback(&undo, base_journal_len, base_timestamp);
        proof {
            let evs = spec_run_ops(start.scale, start.state, ops@)->Ok_0.1;
            assert(produced@ =~= evs);
            assert(self@.journal =~= start.journal);
            assert(self@.state == start.state);
            assert(self@ == start);
        }
        Ok(produced)
    }

    /// Speculatively prepare a sequence of transactions, each a sequence of
    /// [`BatchOp`]s that must succeed atomically.
    ///
    /// A transaction that succeeds stays visible to the later ones and yields
    /// `Ok(events)`; one that fails is rolled back and yields its error. At
    /// the end every speculative change is rolled back: this ledger is
    /// unchanged.
    pub fn prepare_transactions(&mut self, txs: &[Vec<BatchOp>]) -> (r: Vec<Result<Vec<LedgerEvent>, LedgerError>>)
        requires
            old(self).wf(),
        ensures
            final(self).wf(),
            final(self)@ == old(self)@,
            results_view(r@) == spec_prepare_transactions(old(self)@.scale, old(self)@.state, txs_view(txs@)).1,
    {
        let ghost start = self@;
        let base_journal_len = self.journal.len();
        let base_timestamp = self.last_timestamp;
        let mut all_undo: Vec<UndoOp> = Vec::new();
        let mut results: Vec<Result<Vec<LedgerEvent>, LedgerError>> = Vec::new();
        let mut i: usize = 0;
        proof {
            assert(txs_view(txs@).take(0) =~= Seq::<Seq<BatchOp>>::empty());
            assert(results_view(results@) =~= Seq::<Result<Seq<LedgerEvent>, LedgerError>>::empty());
            assert(start.journal.take(start.journal.len() as int) =~= start.journal);
        }
        while i < txs.len()
            invariant
                0 <= i <= txs@.len(),
                self.wf(),
                self@.scale == start.scale,
                spec_prepare_transactions(start.scale, start.state, txs_view(txs@).take(i as int)) == (
                    self@.state,
                    results_view(results@),
                ),
                self@.journal.len() >= start.journal.len(),
                self@.journal.take(start.journal.len() as int) == start.journal,
                undo_all(tables(self@.state), all_undo@) == tables(start.state),
                base_journal_len == start.journal.len(),
                base_timestamp == start.state.last_timestamp,
                start == old(self)@,
                start.wf(),
            decreases txs@.len() - i,
        {
            let ghost cur = self@;
            let ghost results_before = results@;
            let tx_journal_len = self.journal.len();
            proof {
                assert(txs_view(txs@).take(i as int + 1).drop_last() =~= txs_view(txs@).take(i as int));
                assert(txs_view(txs@).take(i as int + 1).last() == txs@[i as int]@);
            }
            match self.run_ops(txs[i].as_slice()) {
                Err(err) => {
                    results.push(Err(err));
                    proof {
                        assert(results_view(results@) =~= results_view(results_before).push(Err(err)));
                    }
                },
                Ok(mut tx_undo) => {
                    let events = self.journal_from(tx_journal_len);
                    proof {
                        let evs = spec_run_ops(cur.scale, cur.state, txs@[i as int]@)->Ok_0.1;
                        assert(events@ =~= evs);
                        lemma_undo_all_append(tables(self@.state), all_undo@, tx_undo@);
                        assert(self@.journal.take(start.journal.len() as int) =~= start.journal);
                    }
                    all_undo.append(&mut tx_undo);
                    results.push(Ok(events));
                    proof {
                        assert(results_view(results@) =~= results_view(results_before).push(Ok(events@)));
                    }
                },
            }
            proof {
                assert(results_view(results@) == spec_prepare_transactions(
                    start.scale,
                    start.state,
                    txs_view(txs@).take(i as int + 1),
                ).1);
            }
            i += 1;
        }
        self.rollback(&all_undo, base_journal_len, base_timestamp);
        proof {
            assert(txs_view(txs@).take(i as int) =~= txs_view(txs@));
            assert(self@.state == start.state);
            assert(self@ == start);
        }
        results
    }
}


impl Ledger {
    /// Speculatively prepare a batch of operations individually, returning a
    /// per-operation result without aborting the batch on individual
    /// failures: each operation is a transaction of its own (see
    /// [`Self::prepare_transactions`]). This ledger is left unchanged.
    pub fn prepare_batch_results(&mut self, ops: &[BatchOp]) -> (r: Vec<Result<Vec<LedgerEvent>, LedgerError>>)
        requires
            old(self).wf(),
        ensures
            final(self).wf(),
            final(self)@ == old(self)@,
            results_view(r@) == spec_prepare_transactions(old(self)@.scale, old(self)@.state, singleton_txs(ops@)).1,
    {
        let mut txs: Vec<Vec<BatchOp>> = Vec::new();
        let mut i: usize = 0;
        while i < ops.len()
            invariant
                0 <= i <= ops@.len(),
                txs@.len() == i,
                txs_view(txs@) == singleton_txs(ops@.take(i as int)),
            decreases ops@.len() - i,
        {
            let ghost before = txs@;
            let mut tx: Vec<BatchOp> = Vec::new();
            tx.push(ops[i].clone());
            assert(tx@ =~= seq![ops@[i as int]]);
            txs.push(tx);
            proof {
                assert forall|k: int| 0 <= k < i + 1 implies #[trigger] txs_view(txs@)[k] == singleton_txs(
                    ops@.take(i as int + 1),
                )[k] by {
                    if k < i {
                        assert(txs@[k] == before[k]);
                        assert(txs_view(before)[k] == singleton_txs(ops@.take(i as int))[k]);
                    }
                }
                assert(txs_view(txs@) =~= singleton_txs(ops@.take(i as int + 1)));
            }
            i += 1;
        }
        proof {
            assert(ops@.take(i as int) =~= ops@);
        }
        self.prepare_transactions(txs.as_slice())
    }

    /// Convenience wrapper around [`Self::prepare_batch`] for immediate
    /// transfers.
    pub fn prepare_transfers(&mut self, transfers: &[Transfer]) -> (r: Result<Vec<LedgerEvent>, LedgerError>)
        requires
            old(self).wf(),
        ensures
            final(self).wf(),
            final(self)@ == old(self)@,
            match spec_prepare(old(self)@.scale, old(self)@.state, transfer_ops(transfers@)) {
                Ok(evs) => r is Ok && r->Ok_0@ == evs,
                Err(e) => r == Err::<Vec<LedgerEvent>, LedgerError>(e),
            },
    {
        let mut ops: Vec<BatchOp> = Vec::new();
        let mut i: usize = 0;
        while i < transfers.len()
            invariant
                0 <= i <= transfers@.len(),
                ops@ == transfer_ops(transfers@.take(i as int)),
            decreases transfers@.len() - i,
        {
            ops.push(BatchOp::Transfer(transfers[i].clone()));
            proof {
                assert(ops@ =~= transfer_ops(transfers@.take(i as int + 1)));
            }
            i += 1;
        }
        proof {
            assert(transfers@.take(i as int) =~= transfers@);
        }
        self.prepare_batch(ops.as_slice())
    }

    /// All recorded transfers, in increasing order of their IDs.
    pub fn transfers(&self) -> (r: Vec<Transfer>)
        requires
            self.wf(),
        ensures
            r@.len() == self@.state.transfers.dom().len(),
            forall|i: int|
                0 <= i < r@.len() ==> #[trigger] self@.state.transfers.contains_key(r@[i]@.id@)
                    && self@.state.transfers[r@[i]@.id@] == r@[i],
            forall|i: int, j: int| 0 <= i < j < r@.len() ==> r@[i]@.id@ < r@[j]@.id@,
            forall|k: u128| #[trigger] self@.state.transfers.contains_key(k) ==> exists|i: int| 0 <= i < r@.len() && r@[i]@.id@ == k,
    {
        proof {
            lemma_replay_wf(self@.scale, self@.journal);
        }
        let values = self.transfers.values();
        let ghost keys = choose|keys: Seq<u128>|
            {
                &&& vstd::std_specs::btree::increasing_seq(keys)
                &&& keys.to_set() == self.transfers@.dom()
                &&& keys.no_duplicates()
                &&& vstd::std_specs::iter::IteratorSpec::remaining(&values) == keys.map(|i: int, k: u128| &self.transfers@[k])
            };
        let mut out: Vec<Transfer> = Vec::new();
        for t in it: values
            invariant
                out@.len() == it.index(),
                forall|i: int| 0 <= i < out@.len() ==> out@[i] == *it.seq()[i],
        {
            out.push(t.clone());
        }
        proof {
            lemma_sorted_keys(keys);
            assert forall|i: int| 0 <= i < out@.len() implies out@[i] == self.transfers@[keys[i]] && keys.to_set().contains(keys[i]) by {}
            assert forall|k: u128| #[trigger] self@.state.transfers.contains_key(k) implies exists|i: int|
                0 <= i < out@.len() && out@[i]@.id@ == k by {
                assert(keys.to_set().contains(k));
                let i = choose|i: int| 0 <= i < keys.len() && keys[i] == k;
                assert(out@[i] == self.transfers@[keys[i]]);
            }
        }
        out
    }
}


impl Ledger {
    /// Check total-debits-equal-total-credits conservation and that the
    /// transfer index structurally backs the account balances.
    ///
    /// Every ledger satisfies these invariants (see the conservation law), so
    /// the only failure left is an overflow while summing balances across
    /// accounts.
    pub fn verify_invariants(&self) -> (r: Result<(), LedgerError>)
        requires
            self.wf(),
        ensures
            r == if total_debits_posted(self@.state.accounts) > u128::MAX || total_debits_pending(
                self@.state.accounts,
            ) > u128::MAX {
                Err::<(), LedgerError>(LedgerError::ArithmeticOverflow)
            } else {
                Ok::<(), LedgerError>(())
            },
    {
        proof {
            lemma_replay_wf(self@.scale, self@.journal);
        }
        let ghost m = self.accounts@;
        let values = self.accounts.values();
        let ghost keys = choose|keys: Seq<u128>|
            {
                &&& vstd::std_specs::btree::increasing_seq(keys)
                &&& keys.to_set() == self.accounts@.dom()
                &&& keys.no_duplicates()
                &&& vstd::std_specs::iter::IteratorSpec::remaining(&values) == keys.map(
                    |i: int, k: u128| &self.accounts@[k],
                )
            };
        proof {
            lemma_seq_sum_set_sum(keys, debits_posted_fn(m));
            lemma_seq_sum_set_sum(keys, credits_posted_fn(m));
            lemma_seq_sum_set_sum(keys, debits_pending_fn(m));
            lemma_seq_sum_set_sum(keys, credits_pending_fn(m));
            assert(keys.take(0) =~= Seq::<u128>::empty());
        }
        let mut sum_debits_posted = Amount::zero();
        let mut sum_credits_posted = Amount::zero();
        let mut sum_debits_pending = Amount::zero();
        let mut sum_credits_pending = Amount::zero();
        let ghost mut seen: int = 0;
        for account in it: values
            invariant
                seen == it.index(),
                it.seq() == keys.map(|i: int, k: u128| &m[k]),
                keys.no_duplicates(),
                keys.to_set() == m.dom(),
                it.index() <= keys.len(),
                m == self.accounts@,
                sum_debits_posted@ == seq_sum(keys.take(it.index() as int), debits_posted_fn(m)),
                sum_credits_posted@ == seq_sum(keys.take(it.index() as int), credits_posted_fn(m)),
                sum_debits_pending@ == seq_sum(keys.take(it.index() as int), debits_pending_fn(m)),
                sum_credits_pending@ == seq_sum(keys.take(it.index() as int), credits_pending_fn(m)),
                state_wf(self@.scale, self@.state),
        {
            let ghost n = it.index() as int;
            proof {
                assert(*account == m[keys[n]]);
                lemma_all_totals_step(m, keys, n);
            }
            sum_debits_posted = match sum_debits_posted.checked_add(account.balance.debits_posted) {
                Ok(v) => v,
                Err(e) => return Err(e),
            };
            sum_credits_posted = match sum_credits_posted.checked_add(account.balance.credits_posted) {
                Ok(v) => v,
                Err(e) => return Err(e),
            };
            sum_debits_pending = match sum_debits_pending.checked_add(account.balance.debits_pending) {
                Ok(v) => v,
                Err(e) => return Err(e),
            };
            sum_credits_pending = match sum_credits_pending.checked_add(account.balance.credits_pending) {
                Ok(v) => v,
                Err(e) => return Err(e),
            };
            proof {
                seen = seen + 1;
            }
        }
        proof {
            assert(seen == keys.len());
            assert(keys.take(keys.len() as int) =~= keys);
            assert(sum_debits_posted@ == total_debits_posted(m));
            assert(sum_debits_pending@ == total_debits_pending(m));
        }
        proof {
            lemma_amount_eq(sum_debits_posted, sum_credits_posted);
            lemma_amount_eq(sum_debits_pending, sum_credits_pending);
        }
        if sum_debits_posted != sum_credits_posted {
            return Err(
                LedgerError::ConservationViolation {
                    total_debits: sum_debits_posted,
                    total_credits: sum_credits_posted,
                },
            );
        }
        if sum_debits_pending != sum_credits_pending {
            return Err(
                LedgerError::ConservationViolation {
                    total_debits: sum_debits_pending,
                    total_credits: sum_credits_pending,
                },
            );
        }
        self.verify_structure()
    }
}

impl Ledger {
    /// Verify the transfer index is consistent with account balances: every
    /// account's pending reservations are exactly the sum of its pending
    /// transfers, and posted or voided transfers link to holds in a legal
    /// state.
    fn verify_structure(&self) -> (r: Result<(), LedgerError>)
        requires
            state_wf(self@.scale, self@.state),
        ensures
            r == Ok::<(), LedgerError>(()),
    {
        let ghost ts = self.transfers@;
        let ghost accts = self.accounts@;
        let mut held_debits: BTreeMap<u128, Amount> = BTreeMap::new();
        let mut held_credits: BTreeMap<u128, Amount> = BTreeMap::new();
        let values = self.transfers.values();
        let ghost keys = choose|keys: Seq<u128>|
            {
                &&& vstd::std_specs::btree::increasing_seq(keys)
                &&& keys.to_set() == self.transfers@.dom()
                &&& keys.no_duplicates()
                &&& vstd::std_specs::iter::IteratorSpec::remaining(&values) == keys.map(
                    |i: int, k: u128| &self.transfers@[k],
                )
            };
        proof {
            assert(keys.take(0) =~= Seq::<u128>::empty());
        }
        for transfer in it: values
            invariant
                it.seq() == keys.map(|i: int, k: u128| &ts[k]),
                keys.no_duplicates(),
                keys.to_set() == ts.dom(),
                it.index() <= keys.len(),
                ts == self.transfers@,
                accts == self.accounts@,
                state_wf(self@.scale, self@.state),
                forall|a: u128| #[trigger]
                    held_sum(held_debits@, a) == seq_sum(keys.take(it.index() as int), held_debit_fn(ts, a)),
                forall|a: u128| #[trigger]
                    held_sum(held_credits@, a) == seq_sum(keys.take(it.index() as int), held_credit_fn(ts, a)),
        {
            let ghost n = it.index() as int;
            let ghost k = keys[n];
            let ghost hd0 = held_debits@;
            let ghost hc0 = held_credits@;
            proof {
                assert(*transfer == ts[k]);
                assert(keys.to_set().contains(k));
                lemma_held_step(ts, keys, n);
            }
            let d = transfer.debit_account_id();
            let c = transfer.credit_account_id();
            if !self.accounts.contains_key(&d.as_u128()) {
                return Err(LedgerError::AccountNotFound(d));
            }
            if !self.accounts.contains_key(&c.as_u128()) {
                return Err(LedgerError::AccountNotFound(c));
            }
            match transfer.state() {
                TransferState::Pending => {
                    proof {
                        assert(held_debit(ts[k], d@) == transfer@.amount@);
                        assert(held_credit(ts[k], c@) == transfer@.amount@);
                        assert(accts[d@].balance.debits_pending@ == crate::ledger_core::model::held_debits(ts, d@));
                        assert(accts[c@].balance.credits_pending@ == crate::ledger_core::model::held_credits(ts, c@));
                    }
                    assert(held_sum(held_debits@, d@) == seq_sum(keys.take(n), held_debit_fn(ts, d@)));
                    assert(held_sum(held_credits@, c@) == seq_sum(keys.take(n), held_credit_fn(ts, c@)));
                    assert(seq_sum(keys.take(n + 1), held_debit_fn(ts, d@)) == seq_sum(keys.take(n), held_debit_fn(ts, d@))
                        + held_debit(ts[keys[n]], d@));
                    assert(seq_sum(keys.take(n + 1), held_credit_fn(ts, c@)) == seq_sum(keys.take(n), held_credit_fn(ts, c@))
                        + held_credit(ts[keys[n]], c@));
                    let debit_total = match held_debits.get(&d.as_u128()) {
                        Some(v) => *v,
                        None => Amount::zero(),
                    };
                    let new_debit = match debit_total.checked_add(transfer.amount()) {
                        Ok(v) => v,
                        Err(e) => return Err(e),
                    };
                    held_debits.insert(d.as_u128(), new_debit);
                    let credit_total = match held_credits.get(&c.as_u128()) {
                        Some(v) => *v,
                        None => Amount::zero(),
                    };
                    let new_credit = match credit_total.checked_add(transfer.amount()) {
                        Ok(v) => v,
                        Err(e) => return Err(e),
                    };
                    held_credits.insert(c.as_u128(), new_credit);
                },
                TransferState::Posted => {
                    if let Err(e) = self.validate_pending_link(transfer) {
                        return Err(e);
                    }
                },
                TransferState::Voided => {
                    if let Some(pending_id) = transfer.pending_id() {
                        return Err(
                            LedgerError::InvalidPendingLink {
                                transfer_id: transfer.id(),
                                pending_id,
                                actual: transfer.state(),
                            },
                        );
                    }
                },
            }
            proof {
                assert forall|a: u128| #[trigger]
                    held_sum(held_debits@, a) == seq_sum(keys.take(n + 1), held_debit_fn(ts, a)) by {
                    assert(held_sum(hd0, a) == seq_sum(keys.take(n), held_debit_fn(ts, a)));
                }
                assert forall|a: u128| #[trigger]
                    held_sum(held_credits@, a) == seq_sum(keys.take(n + 1), held_credit_fn(ts, a)) by {
                    assert(held_sum(hc0, a) == seq_sum(keys.take(n), held_credit_fn(ts, a)));
                }
            }
        }
        proof {
            assert(keys.take(keys.len() as int) =~= keys);
            assert forall|a: u128| accts.contains_key(a) implies held_sum(held_debits@, a)
                == accts[a].balance.debits_pending@ && held_sum(held_credits@, a)
                == accts[a].balance.credits_pending@ by {
                lemma_seq_sum_set_sum(keys, held_debit_fn(ts, a));
                lemma_seq_sum_set_sum(keys, held_credit_fn(ts, a));
            }
        }
        let account_values = self.accounts.values();
        let ghost akeys = choose|keys: Seq<u128>|
            {
                &&& vstd::std_specs::btree::increasing_seq(keys)
                &&& keys.to_set() == self.accounts@.dom()
                &&& keys.no_duplicates()
                &&& vstd::std_specs::iter::IteratorSpec::remaining(&account_values) == keys.map(
                    |i: int, k: u128| &self.accounts@[k],
                )
            };
        for account in ait: account_values
            invariant
                ait.seq() == akeys.map(|i: int, k: u128| &accts[k]),
                akeys.to_set() == accts.dom(),
                ait.index() <= akeys.len(),
                accts == self.accounts@,
                state_wf(self@.scale, self@.state),
                forall|a: u128| #[trigger]
                    accts.contains_key(a) ==> held_sum(held_debits@, a) == accts[a].balance.debits_pending@
                        && held_sum(held_credits@, a) == accts[a].balance.credits_pending@,
        {
            let ghost n = ait.index() as int;
            proof {
                assert(*account == accts[akeys[n]]);
                assert(akeys.to_set().contains(akeys[n]));
                assert(accts.contains_key(akeys[n]));
                assert(account.id@ == akeys[n]);
            }
            let id = account.id.as_u128();
            let held = match held_debits.get(&id) {
                Some(v) => *v,
                None => Amount::zero(),
            };
            proof {
                lemma_amount_eq(account.balance.debits_pending, held);
            }
            if account.balance.debits_pending != held {
                return Err(
                    LedgerError::PendingBalanceMismatch {
                        account_id: account.id,
                        balance_pending: account.balance.debits_pending,
                        transfers_pending: held,
                    },
                );
            }
            let held = match held_credits.get(&id) {
                Some(v) => *v,
                None => Amount::zero(),
            };
            proof {
                lemma_amount_eq(account.balance.credits_pending, held);
            }
            if account.balance.credits_pending != held {
                return Err(
                    LedgerError::PendingBalanceMismatch {
                        account_id: account.id,
                        balance_pending: account.balance.credits_pending,
                        transfers_pending: held,
                    },
                );
            }
        }
        Ok(())
    }
}

/// What a running map of held sums holds for `a`: its entry, or zero.
pub open spec fn held_sum(m: Map<u128, Amount>, a: u128) -> int {
    if m.contains_key(a) {
        m[a]@ as int
    } else {
        0
    }
}

/// One more transfer in each account's running held sums, and the bound
/// the final sums put on them.
proof fn lemma_held_step(ts: Map<u128, Transfer>, keys: Seq<u128>, n: int)
    requires
        0 <= n < keys.len(),
        keys.no_duplicates(),
        keys.to_set() == ts.dom(),
    ensures
        forall|a: u128| #[trigger]
            seq_sum(keys.take(n + 1), held_debit_fn(ts, a)) == seq_sum(keys.take(n), held_debit_fn(ts, a))
                + held_debit(ts[keys[n]], a) && seq_sum(keys.take(n + 1), held_debit_fn(ts, a)) <= held_debits(
                ts,
                a,
            ),
        forall|a: u128| #[trigger]
            seq_sum(keys.take(n + 1), held_credit_fn(ts, a)) == seq_sum(keys.take(n), held_credit_fn(ts, a))
                + held_credit(ts[keys[n]], a) && seq_sum(keys.take(n + 1), held_credit_fn(ts, a)) <= held_credits(
                ts,
                a,
            ),
{
    assert forall|a: u128| #[trigger]
        seq_sum(keys.take(n + 1), held_debit_fn(ts, a)) == seq_sum(keys.take(n), held_debit_fn(ts, a))
            + held_debit(ts[keys[n]], a) && seq_sum(keys.take(n + 1), held_debit_fn(ts, a)) <= held_debits(
            ts,
            a,
        ) by {
        lemma_seq_sum_take_step(keys, n, held_debit_fn(ts, a));
        lemma_seq_sum_prefix_le(keys, n + 1, held_debit_fn(ts, a));
        lemma_seq_sum_set_sum(keys, held_debit_fn(ts, a));
    }
    assert forall|a: u128| #[trigger]
        seq_sum(keys.take(n + 1), held_credit_fn(ts, a)) == seq_sum(keys.take(n), held_credit_fn(ts, a))
            + held_credit(ts[keys[n]], a) && seq_sum(keys.take(n + 1), held_credit_fn(ts, a)) <= held_credits(
            ts,
            a,
        ) by {
        lemma_seq_sum_take_step(keys, n, held_credit_fn(ts, a));
        lemma_seq_sum_prefix_le(keys, n + 1, held_credit_fn(ts, a));
        lemma_seq_sum_set_sum(keys, held_credit_fn(ts, a));
    }
}

/// One more account's balances in each running total, and what an overflow
/// there says of the final totals.
proof fn lemma_all_totals_step(m: Map<u128, Account>, keys: Seq<u128>, n: int)
    requires
        0 <= n < keys.len(),
        keys.no_duplicates(),
        keys.to_set() == m.dom(),
    ensures
        seq_sum(keys.take(n + 1), debits_posted_fn(m)) == seq_sum(keys.take(n), debits_posted_fn(m))
            + m[keys[n]].balance.debits_posted@,
        seq_sum(keys.take(n + 1), credits_posted_fn(m)) == seq_sum(keys.take(n), credits_posted_fn(m))
            + m[keys[n]].balance.credits_posted@,
        seq_sum(keys.take(n + 1), debits_pending_fn(m)) == seq_sum(keys.take(n), debits_pending_fn(m))
            + m[keys[n]].balance.debits_pending@,
        seq_sum(keys.take(n + 1), credits_pending_fn(m)) == seq_sum(keys.take(n), credits_pending_fn(m))
            + m[keys[n]].balance.credits_pending@,
        seq_sum(keys.take(n + 1), debits_posted_fn(m)) <= total_debits_posted(m),
        seq_sum(keys.take(n + 1), credits_posted_fn(m)) <= total_credits_posted(m),
        seq_sum(keys.take(n + 1), debits_pending_fn(m)) <= total_debits_pending(m),
        seq_sum(keys.take(n + 1), credits_pending_fn(m)) <= total_credits_pending(m),
{
    lemma_seq_sum_take_step(keys, n, debits_posted_fn(m));
    lemma_seq_sum_take_step(keys, n, credits_posted_fn(m));
    lemma_seq_sum_take_step(keys, n, debits_pending_fn(m));
    lemma_seq_sum_take_step(keys, n, credits_pending_fn(m));
    lemma_seq_sum_prefix_le(keys, n + 1, debits_posted_fn(m));
    lemma_seq_sum_prefix_le(keys, n + 1, credits_posted_fn(m));
    lemma_seq_sum_prefix_le(keys, n + 1, debits_pending_fn(m));
    lemma_seq_sum_prefix_le(keys, n + 1, credits_pending_fn(m));
    lemma_seq_sum_set_sum(keys, debits_posted_fn(m));
    lemma_seq_sum_set_sum(keys, credits_posted_fn(m));
    lemma_seq_sum_set_sum(keys, debits_pending_fn(m));
    lemma_seq_sum_set_sum(keys, credits_pending_fn(m));
}

/// A key sequence that a map walk yields in increasing order is sorted.
pub proof fn lemma_sorted_keys(keys: Seq<u128>)
    requires
        vstd::std_specs::btree::increasing_seq(keys),
    ensures
        forall|i: int, j: int| 0 <= i < j < keys.len() ==> keys[i] < keys[j],
{
    broadcast use vstd::laws_cmp::group_laws_cmp;

    assert(vstd::laws_cmp::obeys_cmp::<u128>());
    assert forall|i: int, j: int| 0 <= i < j < keys.len() implies keys[i] < keys[j] by {
        assert(vstd::std_specs::cmp::OrdSpec::cmp_spec(&keys[i], &keys[j]) is Less);
    }
}

} // verus!
