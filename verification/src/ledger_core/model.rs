//! The mathematical model of the ledger: its state, and what each operation
//! and each journal event does to it.

use vstd::prelude::*;

use crate::ledger_core::account::{Account, AccountFlags, AccountType, Balance, zero_balance, spec_ensure_can_debit, spec_ensure_can_credit};
use crate::ledger_core::amount::{Amount, Scale, group_amount};
use crate::ledger_core::error::LedgerError;
use crate::ledger_core::id::{AccountId, TransferId, group_id};
use crate::ledger_core::journal::LedgerEvent;
use crate::ledger_core::ledger::BatchOp;
use crate::ledger_core::sums::{set_sum, lemma_set_sum_update, lemma_set_sum_insert_new, lemma_set_sum_remove, lemma_set_sum_insert, lemma_set_sum_congr, lemma_set_sum_ge_term, lemma_set_sum_nonneg};
use crate::ledger_core::transfer::{Transfer, TransferState, TransferView, group_transfer, spec_validate_shape, spec_validate_invariants, spec_transfer, with_state};

verus! {

/// The state that ledger operations act on: accounts and transfers keyed by
/// their raw IDs, and the timestamp watermark.
pub struct LedgerState {
    /// Accounts by raw account ID.
    pub accounts: Map<u128, Account>,
    /// Transfers by raw transfer ID.
    pub transfers: Map<u128, Transfer>,
    /// Highest timestamp recorded so far.
    pub last_timestamp: u64,
}

/// The state of a fresh ledger.
pub open spec fn empty_state() -> LedgerState {
    LedgerState { accounts: Map::empty(), transfers: Map::empty(), last_timestamp: 0 }
}

/// The error for a timestamp behind the watermark, if it is behind.
pub open spec fn timestamp_behind(st: LedgerState, ts: u64) -> bool {
    ts < st.last_timestamp
}

/// The timestamp error.
pub open spec fn timestamp_error(st: LedgerState, ts: u64) -> LedgerError {
    LedgerError::TimestampBehindPrior { timestamp: ts, last: st.last_timestamp }
}

/// `a` with its balance replaced.
pub open spec fn with_balance(a: Account, b: Balance) -> Account {
    Account { balance: b, ..a }
}

/// Creating an account.
pub open spec fn spec_create_account(
    ledger_scale: Scale,
    st: LedgerState,
    id: AccountId,
    account_type: AccountType,
    flags: AccountFlags,
    scale: Scale,
    ts: u64,
) -> Result<LedgerState, LedgerError> {
    if timestamp_behind(st, ts) {
        Err(timestamp_error(st, ts))
    } else if st.accounts.contains_key(id@) {
        Err(LedgerError::AccountAlreadyExists(id))
    } else if scale@ != ledger_scale@ {
        Err(LedgerError::ScaleMismatch { expected: ledger_scale, actual: scale })
    } else {
        Ok(
            LedgerState {
                accounts: st.accounts.insert(
                    id@,
                    Account { id, account_type, flags, scale, balance: zero_balance() },
                ),
                last_timestamp: ts,
                ..st
            },
        )
    }
}

/// Closing an account.
pub open spec fn spec_close_account(st: LedgerState, id: AccountId, ts: u64) -> Result<LedgerState, LedgerError> {
    if timestamp_behind(st, ts) {
        Err(timestamp_error(st, ts))
    } else if !st.accounts.contains_key(id@) {
        Err(LedgerError::AccountNotFound(id))
    } else if st.accounts[id@].flags.is_closed {
        Err(LedgerError::AccountClosed(id))
    } else {
        let a = st.accounts[id@];
        Ok(
            LedgerState {
                accounts: st.accounts.insert(
                    id@,
                    Account { flags: AccountFlags { is_closed: true, ..a.flags }, ..a },
                ),
                last_timestamp: ts,
                ..st
            },
        )
    }
}

/// The identity and shape checks every new transfer passes.
pub open spec fn spec_validate_new_transfer(st: LedgerState, t: Transfer) -> Result<(), LedgerError> {
    if st.transfers.contains_key(t@.id@) {
        Err(LedgerError::TransferAlreadyExists(t@.id))
    } else if t@.debit_account_id@ == t@.credit_account_id@ {
        Err(LedgerError::DebitCreditAccountSame(t@.debit_account_id))
    } else if t@.amount@ == 0 {
        Err(LedgerError::ZeroAmountTransfer(t@.id))
    } else {
        spec_validate_shape(t@)
    }
}

/// A posted transfer's hold link must name an existing, posted hold.
pub open spec fn spec_validate_pending_link(st: LedgerState, t: Transfer) -> Result<(), LedgerError> {
    match t@.pending_id {
        None => Ok(()),
        Some(p) => if !st.transfers.contains_key(p@) {
            Err(LedgerError::PendingLinkMissing { transfer_id: t@.id, pending_id: p })
        } else if st.transfers[p@]@.state != TransferState::Posted {
            Err(
                LedgerError::InvalidPendingLink {
                    transfer_id: t@.id,
                    pending_id: p,
                    actual: st.transfers[p@]@.state,
                },
            )
        } else {
            Ok(())
        },
    }
}

/// Creating and settling a transfer at once.
pub open spec fn spec_create_transfer(st: LedgerState, t: Transfer) -> Result<LedgerState, LedgerError> {
    let tv = t@;
    let d = tv.debit_account_id;
    let c = tv.credit_account_id;
    if timestamp_behind(st, tv.timestamp) {
        Err(timestamp_error(st, tv.timestamp))
    } else if tv.state != TransferState::Posted {
        Err(
            LedgerError::InvalidTransferState {
                id: tv.id,
                expected: TransferState::Posted,
                actual: tv.state,
            },
        )
    } else if spec_validate_new_transfer(st, t) is Err {
        Err(spec_validate_new_transfer(st, t)->Err_0)
    } else if spec_validate_pending_link(st, t) is Err {
        Err(spec_validate_pending_link(st, t)->Err_0)
    } else if !st.accounts.contains_key(d@) {
        Err(LedgerError::AccountNotFound(d))
    } else if spec_ensure_can_debit(st.accounts[d@], tv.amount) is Err {
        Err(spec_ensure_can_debit(st.accounts[d@], tv.amount)->Err_0)
    } else if st.accounts[d@].balance.debits_posted@ + tv.amount@ > u128::MAX {
        Err(LedgerError::ArithmeticOverflow)
    } else if !st.accounts.contains_key(c@) {
        Err(LedgerError::AccountNotFound(c))
    } else if spec_ensure_can_credit(st.accounts[c@], tv.amount) is Err {
        Err(spec_ensure_can_credit(st.accounts[c@], tv.amount)->Err_0)
    } else if st.accounts[c@].balance.credits_posted@ + tv.amount@ > u128::MAX {
        Err(LedgerError::ArithmeticOverflow)
    } else {
        let da = st.accounts[d@];
        let ca = st.accounts[c@];
        let accounts1 = st.accounts.insert(
            d@,
            with_balance(
                da,
                Balance {
                    debits_posted: Amount::from_spec((da.balance.debits_posted@ + tv.amount@) as u128),
                    ..da.balance
                },
            ),
        );
        let ca1 = accounts1[c@];
        let accounts2 = accounts1.insert(
            c@,
            with_balance(
                ca1,
                Balance {
                    credits_posted: Amount::from_spec((ca.balance.credits_posted@ + tv.amount@) as u128),
                    ..ca1.balance
                },
            ),
        );
        Ok(
            LedgerState {
                accounts: accounts2,
                transfers: st.transfers.insert(tv.id@, t),
                last_timestamp: tv.timestamp,
            },
        )
    }
}

/// Creating a pending hold.
pub open spec fn spec_create_pending(st: LedgerState, t: Transfer) -> Result<LedgerState, LedgerError> {
    let tv = t@;
    let d = tv.debit_account_id;
    let c = tv.credit_account_id;
    if timestamp_behind(st, tv.timestamp) {
        Err(timestamp_error(st, tv.timestamp))
    } else if tv.state != TransferState::Pending {
        Err(
            LedgerError::InvalidTransferState {
                id: tv.id,
                expected: TransferState::Pending,
                actual: tv.state,
            },
        )
    } else if spec_validate_new_transfer(st, t) is Err {
        Err(spec_validate_new_transfer(st, t)->Err_0)
    } else if !st.accounts.contains_key(d@) {
        Err(LedgerError::AccountNotFound(d))
    } else if spec_ensure_can_debit(st.accounts[d@], tv.amount) is Err {
        Err(spec_ensure_can_debit(st.accounts[d@], tv.amount)->Err_0)
    } else if st.accounts[d@].balance.debits_pending@ + tv.amount@ > u128::MAX {
        Err(LedgerError::ArithmeticOverflow)
    } else if !st.accounts.contains_key(c@) {
        Err(LedgerError::AccountNotFound(c))
    } else if spec_ensure_can_credit(st.accounts[c@], tv.amount) is Err {
        Err(spec_ensure_can_credit(st.accounts[c@], tv.amount)->Err_0)
    } else if st.accounts[c@].balance.credits_pending@ + tv.amount@ > u128::MAX {
        Err(LedgerError::ArithmeticOverflow)
    } else {
        let da = st.accounts[d@];
        let ca = st.accounts[c@];
        let accounts1 = st.accounts.insert(
            d@,
            with_balance(
                da,
                Balance {
                    debits_pending: Amount::from_spec((da.balance.debits_pending@ + tv.amount@) as u128),
                    ..da.balance
                },
            ),
        );
        let ca1 = accounts1[c@];
        let accounts2 = accounts1.insert(
            c@,
            with_balance(
                ca1,
                Balance {
                    credits_pending: Amount::from_spec((ca.balance.credits_pending@ + tv.amount@) as u128),
                    ..ca1.balance
                },
            ),
        );
        Ok(
            LedgerState {
                accounts: accounts2,
                transfers: st.transfers.insert(tv.id@, t),
                last_timestamp: tv.timestamp,
            },
        )
    }
}

/// Posting (settling) a pending hold, in full or in part.
pub open spec fn spec_post_pending(
    st: LedgerState,
    pending_id: TransferId,
    post_transfer_id: TransferId,
    amount: Amount,
    ts: u64,
) -> Result<LedgerState, LedgerError> {
    if timestamp_behind(st, ts) {
        Err(timestamp_error(st, ts))
    } else if st.transfers.contains_key(post_transfer_id@) {
        Err(LedgerError::TransferAlreadyExists(post_transfer_id))
    } else if !st.transfers.contains_key(pending_id@) {
        Err(LedgerError::TransferNotFound(pending_id))
    } else {
        let p = st.transfers[pending_id@];
        let pv = p@;
        let d = pv.debit_account_id;
        let c = pv.credit_account_id;
        if pv.state != TransferState::Pending {
            Err(
                LedgerError::InvalidTransferState {
                    id: pending_id,
                    expected: TransferState::Pending,
                    actual: pv.state,
                },
            )
        } else if amount@ > pv.amount@ {
            Err(
                LedgerError::PartialAmountExceedsPending {
                    transfer_id: pending_id,
                    requested: amount,
                    pending: pv.amount,
                },
            )
        } else if amount@ == 0 {
            Err(LedgerError::ZeroAmountTransfer(post_transfer_id))
        } else if !st.accounts.contains_key(d@) {
            Err(LedgerError::AccountNotFound(d))
        } else if st.accounts[d@].balance.debits_pending@ < pv.amount@ {
            Err(LedgerError::ArithmeticOverflow)
        } else if st.accounts[d@].balance.debits_posted@ + amount@ > u128::MAX {
            Err(LedgerError::ArithmeticOverflow)
        } else if !st.accounts.contains_key(c@) {
            Err(LedgerError::AccountNotFound(c))
        } else if st.accounts[c@].balance.credits_pending@ < pv.amount@ {
            Err(LedgerError::ArithmeticOverflow)
        } else if st.accounts[c@].balance.credits_posted@ + amount@ > u128::MAX {
            Err(LedgerError::ArithmeticOverflow)
        } else if spec_validate_invariants(post_transfer_id, d, c, amount) is Err {
            Err(spec_validate_invariants(post_transfer_id, d, c, amount)->Err_0)
        } else {
            let da = st.accounts[d@];
            let ca = st.accounts[c@];
            let accounts1 = st.accounts.insert(
                d@,
                with_balance(
                    da,
                    Balance {
                        debits_pending: Amount::from_spec((da.balance.debits_pending@ - pv.amount@) as u128),
                        debits_posted: Amount::from_spec((da.balance.debits_posted@ + amount@) as u128),
                        ..da.balance
                    },
                ),
            );
            let ca1 = accounts1[c@];
            let accounts2 = accounts1.insert(
                c@,
                with_balance(
                    ca1,
                    Balance {
                        credits_pending: Amount::from_spec((ca.balance.credits_pending@ - pv.amount@) as u128),
                        credits_posted: Amount::from_spec((ca.balance.credits_posted@ + amount@) as u128),
                        ..ca1.balance
                    },
                ),
            );
            let settlement = spec_transfer(
                post_transfer_id,
                d,
                c,
                amount,
                TransferState::Posted,
                Some(pending_id),
                ts,
            );
            Ok(
                LedgerState {
                    accounts: accounts2,
                    transfers: st.transfers.insert(pending_id@, with_state(p, TransferState::Posted)).insert(
                        post_transfer_id@,
                        settlement,
                    ),
                    last_timestamp: ts,
                },
            )
        }
    }
}

/// Voiding a pending hold and releasing the held funds.
pub open spec fn spec_void_pending(st: LedgerState, pending_id: TransferId, ts: u64) -> Result<LedgerState, LedgerError> {
    if timestamp_behind(st, ts) {
        Err(timestamp_error(st, ts))
    } else if !st.transfers.contains_key(pending_id@) {
        Err(LedgerError::TransferNotFound(pending_id))
    } else {
        let p = st.transfers[pending_id@];
        let pv = p@;
        let d = pv.debit_account_id;
        let c = pv.credit_account_id;
        if pv.state != TransferState::Pending {
            Err(
                LedgerError::InvalidTransferState {
                    id: pending_id,
                    expected: TransferState::Pending,
                    actual: pv.state,
                },
            )
        } else if !st.accounts.contains_key(d@) {
            Err(LedgerError::AccountNotFound(d))
        } else if st.accounts[d@].balance.debits_pending@ < pv.amount@ {
            Err(LedgerError::ArithmeticOverflow)
        } else if !st.accounts.contains_key(c@) {
            Err(LedgerError::AccountNotFound(c))
        } else if st.accounts[c@].balance.credits_pending@ < pv.amount@ {
            Err(LedgerError::ArithmeticOverflow)
        } else {
            let da = st.accounts[d@];
            let ca = st.accounts[c@];
            let accounts1 = st.accounts.insert(
                d@,
                with_balance(
                    da,
                    Balance {
                        debits_pending: Amount::from_spec((da.balance.debits_pending@ - pv.amount@) as u128),
                        ..da.balance
                    },
                ),
            );
            let ca1 = accounts1[c@];
            let accounts2 = accounts1.insert(
                c@,
                with_balance(
                    ca1,
                    Balance {
                        credits_pending: Amount::from_spec((ca.balance.credits_pending@ - pv.amount@) as u128),
                        ..ca1.balance
                    },
                ),
            );
            Ok(
                LedgerState {
                    accounts: accounts2,
                    transfers: st.transfers.insert(pending_id@, with_state(p, TransferState::Voided)),
                    last_timestamp: ts,
                },
            )
        }
    }
}

/// Applying one journal event, re-validating it against the state.
pub open spec fn spec_apply_event(scale: Scale, st: LedgerState, e: LedgerEvent) -> Result<LedgerState, LedgerError> {
    match e {
        LedgerEvent::AccountCreated { id, account_type, flags, scale: s, timestamp } => spec_create_account(
            scale,
            st,
            id,
            account_type,
            flags,
            s,
            timestamp,
        ),
        LedgerEvent::AccountClosed { id, timestamp } => spec_close_account(st, id, timestamp),
        LedgerEvent::TransferPosted { transfer } => spec_create_transfer(st, transfer),
        LedgerEvent::TransferPendingCreated { transfer } => spec_create_pending(st, transfer),
        LedgerEvent::TransferPendingPosted { pending_id, post_transfer_id, amount, timestamp } =>
            spec_post_pending(st, pending_id, post_transfer_id, amount, timestamp),
        LedgerEvent::TransferPendingVoided { pending_id, amount, timestamp } => if !st.transfers.contains_key(
            pending_id@,
        ) {
            Err(LedgerError::TransferNotFound(pending_id))
        } else if st.transfers[pending_id@]@.amount@ != amount@ {
            Err(
                LedgerError::JournalVoidedAmountMismatch {
                    pending_id,
                    pending: st.transfers[pending_id@]@.amount,
                    amount,
                },
            )
        } else {
            spec_void_pending(st, pending_id, timestamp)
        },
    }
}

/// Rebuilding a state by applying events in order from the empty ledger.
pub open spec fn spec_replay(scale: Scale, events: Seq<LedgerEvent>) -> Result<LedgerState, LedgerError>
    decreases events.len(),
{
    if events.len() == 0 {
        Ok(empty_state())
    } else {
        match spec_replay(scale, events.drop_last()) {
            Ok(st) => spec_apply_event(scale, st, events.last()),
            Err(e) => Err(e),
        }
    }
}

/// The error raised when looking up the accounts of a transfer fails.
pub open spec fn accounts_missing(st: LedgerState, d: AccountId, c: AccountId) -> Option<LedgerError> {
    if !st.accounts.contains_key(d@) {
        Some(LedgerError::AccountNotFound(d))
    } else if !st.accounts.contains_key(c@) {
        Some(LedgerError::AccountNotFound(c))
    } else {
        None
    }
}

/// The lookups made before an event is applied during a commit.
pub open spec fn spec_event_lookups(st: LedgerState, e: LedgerEvent) -> Option<LedgerError> {
    match e {
        LedgerEvent::AccountCreated { .. } => None,
        LedgerEvent::AccountClosed { id, .. } => if !st.accounts.contains_key(id@) {
            Some(LedgerError::AccountNotFound(id))
        } else {
            None
        },
        LedgerEvent::TransferPosted { transfer } => accounts_missing(
            st,
            transfer@.debit_account_id,
            transfer@.credit_account_id,
        ),
        LedgerEvent::TransferPendingCreated { transfer } => accounts_missing(
            st,
            transfer@.debit_account_id,
            transfer@.credit_account_id,
        ),
        LedgerEvent::TransferPendingPosted { pending_id, .. } => if !st.transfers.contains_key(pending_id@) {
            Some(LedgerError::TransferNotFound(pending_id))
        } else {
            accounts_missing(
                st,
                st.transfers[pending_id@]@.debit_account_id,
                st.transfers[pending_id@]@.credit_account_id,
            )
        },
        LedgerEvent::TransferPendingVoided { pending_id, .. } => if !st.transfers.contains_key(pending_id@) {
            Some(LedgerError::TransferNotFound(pending_id))
        } else {
            accounts_missing(
                st,
                st.transfers[pending_id@]@.debit_account_id,
                st.transfers[pending_id@]@.credit_account_id,
            )
        },
    }
}

/// One step of a commit: the lookups, then the event.
pub open spec fn spec_commit_event(scale: Scale, st: LedgerState, e: LedgerEvent) -> Result<LedgerState, LedgerError> {
    match spec_event_lookups(st, e) {
        Some(err) => Err(err),
        None => spec_apply_event(scale, st, e),
    }
}

/// Committing a sequence of events atomically.
pub open spec fn spec_commit(scale: Scale, st: LedgerState, events: Seq<LedgerEvent>) -> Result<LedgerState, LedgerError>
    decreases events.len(),
{
    if events.len() == 0 {
        Ok(st)
    } else {
        match spec_commit(scale, st, events.drop_last()) {
            Ok(s) => spec_commit_event(scale, s, events.last()),
            Err(e) => Err(e),
        }
    }
}

/// The lookups made before a batch operation is applied.
pub open spec fn spec_op_lookups(st: LedgerState, op: BatchOp) -> Option<LedgerError> {
    match op {
        BatchOp::CreateAccount { id, .. } => if st.accounts.contains_key(id@) {
            Some(LedgerError::AccountAlreadyExists(id))
        } else {
            None
        },
        BatchOp::CloseAccount { id, .. } => if !st.accounts.contains_key(id@) {
            Some(LedgerError::AccountNotFound(id))
        } else {
            None
        },
        BatchOp::Transfer(t) => accounts_missing(st, t@.debit_account_id, t@.credit_account_id),
        BatchOp::Pending(t) => accounts_missing(st, t@.debit_account_id, t@.credit_account_id),
        BatchOp::PostPending { pending_id, .. } => if !st.transfers.contains_key(pending_id@) {
            Some(LedgerError::TransferNotFound(pending_id))
        } else {
            accounts_missing(
                st,
                st.transfers[pending_id@]@.debit_account_id,
                st.transfers[pending_id@]@.credit_account_id,
            )
        },
        BatchOp::VoidPending { pending_id, .. } => if !st.transfers.contains_key(pending_id@) {
            Some(LedgerError::TransferNotFound(pending_id))
        } else {
            accounts_missing(
                st,
                st.transfers[pending_id@]@.debit_account_id,
                st.transfers[pending_id@]@.credit_account_id,
            )
        },
    }
}

/// The journal event a batch operation records when it succeeds on `st`.
pub open spec fn spec_op_event(st: LedgerState, op: BatchOp) -> LedgerEvent {
    match op {
        BatchOp::CreateAccount { id, account_type, flags, scale, timestamp } => LedgerEvent::AccountCreated {
            id,
            account_type,
            flags,
            scale,
            timestamp,
        },
        BatchOp::CloseAccount { id, timestamp } => LedgerEvent::AccountClosed { id, timestamp },
        BatchOp::Transfer(t) => LedgerEvent::TransferPosted { transfer: t },
        BatchOp::Pending(t) => LedgerEvent::TransferPendingCreated { transfer: t },
        BatchOp::PostPending { pending_id, post_transfer_id, amount, timestamp } =>
            LedgerEvent::TransferPendingPosted { pending_id, post_transfer_id, amount, timestamp },
        BatchOp::VoidPending { pending_id, timestamp } => LedgerEvent::TransferPendingVoided {
            pending_id,
            amount: st.transfers[pending_id@]@.amount,
            timestamp,
        },
    }
}

/// What a batch operation does to the state, without its lookups.
pub open spec fn spec_op_effect(scale: Scale, st: LedgerState, op: BatchOp) -> Result<LedgerState, LedgerError> {
    match op {
        BatchOp::CreateAccount { id, account_type, flags, scale: s, timestamp } => spec_create_account(
            scale,
            st,
            id,
            account_type,
            flags,
            s,
            timestamp,
        ),
        BatchOp::CloseAccount { id, timestamp } => spec_close_account(st, id, timestamp),
        BatchOp::Transfer(t) => spec_create_transfer(st, t),
        BatchOp::Pending(t) => spec_create_pending(st, t),
        BatchOp::PostPending { pending_id, post_transfer_id, amount, timestamp } => spec_post_pending(
            st,
            pending_id,
            post_transfer_id,
            amount,
            timestamp,
        ),
        BatchOp::VoidPending { pending_id, timestamp } => spec_void_pending(st, pending_id, timestamp),
    }
}

/// One speculative batch operation: the lookups, then the operation.
pub open spec fn spec_apply_op(scale: Scale, st: LedgerState, op: BatchOp) -> Result<LedgerState, LedgerError> {
    match spec_op_lookups(st, op) {
        Some(err) => Err(err),
        None => spec_op_effect(scale, st, op),
    }
}

/// Running a sequence of batch operations as one atomic transaction: the
/// final state and the events recorded, or the first error.
pub open spec fn spec_run_ops(scale: Scale, st: LedgerState, ops: Seq<BatchOp>) -> Result<(LedgerState, Seq<LedgerEvent>), LedgerError>
    decreases ops.len(),
{
    if ops.len() == 0 {
        Ok((st, Seq::empty()))
    } else {
        match spec_run_ops(scale, st, ops.drop_last()) {
            Ok((s, evs)) => match spec_apply_op(scale, s, ops.last()) {
                Ok(s2) => Ok((s2, evs.push(spec_op_event(s, ops.last())))),
                Err(e) => Err(e),
            },
            Err(e) => Err(e),
        }
    }
}

/// The events a transaction of batch operations would record, or its error.
pub open spec fn spec_prepare(scale: Scale, st: LedgerState, ops: Seq<BatchOp>) -> Result<Seq<LedgerEvent>, LedgerError> {
    match spec_run_ops(scale, st, ops) {
        Ok((s, evs)) => Ok(evs),
        Err(e) => Err(e),
    }
}

/// Preparing several transactions in order: each sees the effects of the
/// earlier successful ones, a failed one leaves no effect.
pub open spec fn spec_prepare_transactions(scale: Scale, st: LedgerState, txs: Seq<Seq<BatchOp>>) -> (LedgerState, Seq<Result<Seq<LedgerEvent>, LedgerError>>)
    decreases txs.len(),
{
    if txs.len() == 0 {
        (st, Seq::empty())
    } else {
        let (s, results) = spec_prepare_transactions(scale, st, txs.drop_last());
        match spec_run_ops(scale, s, txs.last()) {
            Ok((s2, evs)) => (s2, results.push(Ok(evs))),
            Err(e) => (s, results.push(Err(e))),
        }
    }
}

// Conservation sums.

/// Posted debits of each account.
pub open spec fn debits_posted_fn(a: Map<u128, Account>) -> spec_fn(u128) -> int {
    |k: u128| a[k].balance.debits_posted@ as int
}

/// Posted credits of each account.
pub open spec fn credits_posted_fn(a: Map<u128, Account>) -> spec_fn(u128) -> int {
    |k: u128| a[k].balance.credits_posted@ as int
}

/// Pending debits of each account.
pub open spec fn debits_pending_fn(a: Map<u128, Account>) -> spec_fn(u128) -> int {
    |k: u128| a[k].balance.debits_pending@ as int
}

/// Pending credits of each account.
pub open spec fn credits_pending_fn(a: Map<u128, Account>) -> spec_fn(u128) -> int {
    |k: u128| a[k].balance.credits_pending@ as int
}

/// Sum of posted debits over all accounts.
pub open spec fn total_debits_posted(a: Map<u128, Account>) -> int {
    set_sum(a.dom(), debits_posted_fn(a))
}

/// Sum of posted credits over all accounts.
pub open spec fn total_credits_posted(a: Map<u128, Account>) -> int {
    set_sum(a.dom(), credits_posted_fn(a))
}

/// Sum of pending debits over all accounts.
pub open spec fn total_debits_pending(a: Map<u128, Account>) -> int {
    set_sum(a.dom(), debits_pending_fn(a))
}

/// Sum of pending credits over all accounts.
pub open spec fn total_credits_pending(a: Map<u128, Account>) -> int {
    set_sum(a.dom(), credits_pending_fn(a))
}

/// The amount that a transfer holds against `acct` as debit account.
pub open spec fn held_debit(t: Transfer, acct: u128) -> int {
    if t@.state == TransferState::Pending && t@.debit_account_id@ == acct {
        t@.amount@ as int
    } else {
        0
    }
}

/// The amount that a transfer holds for `acct` as credit account.
pub open spec fn held_credit(t: Transfer, acct: u128) -> int {
    if t@.state == TransferState::Pending && t@.credit_account_id@ == acct {
        t@.amount@ as int
    } else {
        0
    }
}

/// What each transfer holds against `acct` as debit account.
pub open spec fn held_debit_fn(ts: Map<u128, Transfer>, acct: u128) -> spec_fn(u128) -> int {
    |k: u128| held_debit(ts[k], acct)
}

/// What each transfer holds for `acct` as credit account.
pub open spec fn held_credit_fn(ts: Map<u128, Transfer>, acct: u128) -> spec_fn(u128) -> int {
    |k: u128| held_credit(ts[k], acct)
}

/// Sum of pending holds debiting `acct`.
pub open spec fn held_debits(ts: Map<u128, Transfer>, acct: u128) -> int {
    set_sum(ts.dom(), held_debit_fn(ts, acct))
}

/// Sum of pending holds crediting `acct`.
pub open spec fn held_credits(ts: Map<u128, Transfer>, acct: u128) -> int {
    set_sum(ts.dom(), held_credit_fn(ts, acct))
}

/// The well-formedness of a ledger state: keys match IDs, every transfer
/// names existing and distinct accounts and a non-zero amount, hold links are
/// legal, each account's pending balances are exactly its pending holds, and
/// total debits equal total credits, posted and pending.
pub open spec fn state_wf(scale: Scale, st: LedgerState) -> bool {
    &&& st.accounts.dom().finite()
    &&& st.transfers.dom().finite()
    &&& forall|k: u128| #[trigger]
        st.accounts.contains_key(k) ==> st.accounts[k].id@ == k && st.accounts[k].scale == scale
    &&& forall|k: u128| #[trigger]
        st.transfers.contains_key(k) ==> {
            let t = st.transfers[k]@;
            &&& t.id@ == k
            &&& st.accounts.contains_key(t.debit_account_id@)
            &&& st.accounts.contains_key(t.credit_account_id@)
            &&& t.debit_account_id@ != t.credit_account_id@
            &&& t.amount@ > 0
            &&& (t.state != TransferState::Posted ==> t.pending_id is None)
            &&& (t.state == TransferState::Posted && t.pending_id is Some) ==> {
                &&& st.transfers.contains_key(t.pending_id->0@)
                &&& st.transfers[t.pending_id->0@]@.state == TransferState::Posted
            }
        }
    &&& forall|a: u128| #[trigger]
        st.accounts.contains_key(a) ==> {
            &&& st.accounts[a].balance.debits_pending@ == held_debits(st.transfers, a)
            &&& st.accounts[a].balance.credits_pending@ == held_credits(st.transfers, a)
        }
    &&& total_debits_posted(st.accounts) == total_credits_posted(st.accounts)
    &&& total_debits_pending(st.accounts) == total_credits_pending(st.accounts)
}

} // verus!
