//! Pre-images of ledger side effects, and the proof that replaying them
//! backwards reverts a successful operation exactly.

use vstd::prelude::*;

use crate::ledger_core::account::{Account, AccountFlags, Balance};
use crate::ledger_core::amount::group_amount;
use crate::ledger_core::id::{AccountId, TransferId, group_id};
use crate::ledger_core::journal::LedgerEvent;
use crate::ledger_core::ledger::BatchOp;
use crate::ledger_core::model::{
    LedgerState,
    spec_apply_event,
    spec_close_account,
    spec_create_account,
    spec_create_pending,
    spec_create_transfer,
    spec_event_lookups,
    spec_op_effect,
    spec_op_lookups,
    spec_post_pending,
    spec_void_pending,
};
use crate::ledger_core::transfer::{Transfer, TransferState, group_transfer, with_state};

verus! {

broadcast use {group_amount, group_id, group_transfer};

/// A pre-image of one side effect, recorded before its event applies so the
/// application can be reverted exactly.
#[derive(Debug, PartialEq, Eq)]
pub enum UndoOp {
    /// The event created an account; rollback removes it.
    RemoveAccount {
        /// Account inserted by the event.
        id: AccountId,
    },
    /// The event changed an account's flags; rollback restores them.
    AccountFlagsBefore {
        /// Account whose flags changed.
        id: AccountId,
        /// Flags captured before the event.
        flags: AccountFlags,
    },
    /// The event changed an account's balances; rollback restores them.
    AccountBalanceBefore {
        /// Account whose balances changed.
        id: AccountId,
        /// Balances captured before the event.
        balance: Balance,
    },
    /// The event inserted a transfer; rollback removes it.
    RemoveTransfer {
        /// Transfer inserted by the event.
        id: TransferId,
    },
    /// The event transitioned a transfer; rollback restores its prior state.
    TransferStateBefore {
        /// Transfer whose state changed.
        id: TransferId,
        /// State captured before the event.
        state: TransferState,
    },
}

/// The two tables that side effects touch: accounts and transfers.
pub open spec fn tables(st: LedgerState) -> (Map<u128, Account>, Map<u128, Transfer>) {
    (st.accounts, st.transfers)
}

/// Reverting one side effect. An entry that is missing is left as it is.
pub open spec fn undo_one(t: (Map<u128, Account>, Map<u128, Transfer>), u: UndoOp) -> (
    Map<u128, Account>,
    Map<u128, Transfer>,
) {
    let (accounts, transfers) = t;
    match u {
        UndoOp::RemoveAccount { id } => (accounts.remove(id@), transfers),
        UndoOp::AccountFlagsBefore { id, flags } => if accounts.contains_key(id@) {
            (accounts.insert(id@, Account { flags, ..accounts[id@] }), transfers)
        } else {
            t
        },
        UndoOp::AccountBalanceBefore { id, balance } => if accounts.contains_key(id@) {
            (accounts.insert(id@, Account { balance, ..accounts[id@] }), transfers)
        } else {
            t
        },
        UndoOp::RemoveTransfer { id } => (accounts, transfers.remove(id@)),
        UndoOp::TransferStateBefore { id, state } => if transfers.contains_key(id@) {
            (accounts, transfers.insert(id@, with_state(transfers[id@], state)))
        } else {
            t
        },
    }
}

/// Reverting a list of side effects, last first.
pub open spec fn undo_all(t: (Map<u128, Account>, Map<u128, Transfer>), us: Seq<UndoOp>) -> (
    Map<u128, Account>,
    Map<u128, Transfer>,
)
    decreases us.len(),
{
    if us.len() == 0 {
        t
    } else {
        undo_all(undo_one(t, us.last()), us.drop_last())
    }
}

/// Reverting `a + b` reverts `b` first, then `a`.
pub proof fn lemma_undo_all_append(t: (Map<u128, Account>, Map<u128, Transfer>), a: Seq<UndoOp>, b: Seq<UndoOp>)
    ensures
        undo_all(t, a + b) == undo_all(undo_all(t, b), a),
    decreases b.len(),
{
    if b.len() == 0 {
        assert(a + b =~= a);
    } else {
        assert((a + b).drop_last() =~= a + b.drop_last());
        assert((a + b).last() == b.last());
        lemma_undo_all_append(undo_one(t, b.last()), a, b.drop_last());
    }
}

/// The pre-images of a balance change on accounts `d` and `c`.
pub open spec fn balances_pre(st: LedgerState, d: AccountId, c: AccountId) -> Seq<UndoOp> {
    seq![
        UndoOp::AccountBalanceBefore { id: d, balance: st.accounts[d@].balance },
        UndoOp::AccountBalanceBefore { id: c, balance: st.accounts[c@].balance },
    ]
}

/// The pre-images of settling or voiding the hold `pending_id`.
pub open spec fn hold_pre(st: LedgerState, pending_id: TransferId) -> Seq<UndoOp> {
    let p = st.transfers[pending_id@]@;
    balances_pre(st, p.debit_account_id, p.credit_account_id).push(
        UndoOp::TransferStateBefore { id: pending_id, state: p.state },
    )
}

/// The pre-images of every side effect a journal event makes.
pub open spec fn spec_event_pre(st: LedgerState, e: LedgerEvent) -> Seq<UndoOp> {
    match e {
        LedgerEvent::AccountCreated { id, .. } => seq![UndoOp::RemoveAccount { id }],
        LedgerEvent::AccountClosed { id, .. } => seq![
            UndoOp::AccountFlagsBefore { id, flags: st.accounts[id@].flags },
        ],
        LedgerEvent::TransferPosted { transfer } => balances_pre(
            st,
            transfer@.debit_account_id,
            transfer@.credit_account_id,
        ).push(UndoOp::RemoveTransfer { id: transfer@.id }),
        LedgerEvent::TransferPendingCreated { transfer } => balances_pre(
            st,
            transfer@.debit_account_id,
            transfer@.credit_account_id,
        ).push(UndoOp::RemoveTransfer { id: transfer@.id }),
        LedgerEvent::TransferPendingPosted { pending_id, post_transfer_id, .. } => hold_pre(st, pending_id).push(
            UndoOp::RemoveTransfer { id: post_transfer_id },
        ),
        LedgerEvent::TransferPendingVoided { pending_id, .. } => hold_pre(st, pending_id),
    }
}

/// The pre-images of every side effect a batch operation makes.
pub open spec fn spec_op_pre(st: LedgerState, op: BatchOp) -> Seq<UndoOp> {
    match op {
        BatchOp::CreateAccount { id, .. } => seq![UndoOp::RemoveAccount { id }],
        BatchOp::CloseAccount { id, .. } => seq![
            UndoOp::AccountFlagsBefore { id, flags: st.accounts[id@].flags },
        ],
        BatchOp::Transfer(transfer) => balances_pre(
            st,
            transfer@.debit_account_id,
            transfer@.credit_account_id,
        ).push(UndoOp::RemoveTransfer { id: transfer@.id }),
        BatchOp::Pending(transfer) => balances_pre(
            st,
            transfer@.debit_account_id,
            transfer@.credit_account_id,
        ).push(UndoOp::RemoveTransfer { id: transfer@.id }),
        BatchOp::PostPending { pending_id, post_transfer_id, .. } => hold_pre(st, pending_id).push(
            UndoOp::RemoveTransfer { id: post_transfer_id },
        ),
        BatchOp::VoidPending { pending_id, .. } => hold_pre(st, pending_id),
    }
}

/// Restoring the balances of `d` and `c`, `c` first, puts back the accounts
/// that only had their balances changed.
proof fn lemma_balances_restore(st: LedgerState, a: Map<u128, Account>, tr: Map<u128, Transfer>, d: AccountId, c: AccountId)
    requires
        st.accounts.contains_key(d@),
        st.accounts.contains_key(c@),
        a.dom() =~= st.accounts.dom(),
        forall|k: u128| #[trigger] a.contains_key(k) && k != d@ && k != c@ ==> a[k] == st.accounts[k],
        a[d@] == (Account { balance: a[d@].balance, ..st.accounts[d@] }),
        a[c@] == (Account { balance: a[c@].balance, ..st.accounts[c@] }),
    ensures
        undo_all((a, tr), balances_pre(st, d, c)) == (st.accounts, tr),
{
    let us = balances_pre(st, d, c);
    reveal_with_fuel(undo_all, 3);
    assert(us.drop_last().drop_last() =~= Seq::<UndoOp>::empty());
    assert(us.last() == UndoOp::AccountBalanceBefore { id: c, balance: st.accounts[c@].balance });
    assert(us.drop_last().last() == UndoOp::AccountBalanceBefore { id: d, balance: st.accounts[d@].balance });
    let a1 = a.insert(c@, Account { balance: st.accounts[c@].balance, ..a[c@] });
    assert(undo_one((a, tr), us.last()) == (a1, tr));
    let a2 = a1.insert(d@, Account { balance: st.accounts[d@].balance, ..a1[d@] });
    assert(undo_one((a1, tr), us.drop_last().last()) == (a2, tr));
    assert(a2 =~= st.accounts);
}

/// Reverting the pre-images of a successful event restores the tables the
/// event started from.
pub proof fn lemma_event_undo(scale: crate::ledger_core::amount::Scale, st: LedgerState, e: LedgerEvent)
    requires
        spec_event_lookups(st, e) is None,
        spec_apply_event(scale, st, e) is Ok,
    ensures
        undo_all(tables(spec_apply_event(scale, st, e)->Ok_0), spec_event_pre(st, e)) == tables(st),
{
    let st2 = spec_apply_event(scale, st, e)->Ok_0;
    let us = spec_event_pre(st, e);
    reveal_with_fuel(undo_all, 2);
    match e {
        LedgerEvent::AccountCreated { id, .. } => {
            assert(us.drop_last() =~= Seq::<UndoOp>::empty());
            assert(st2.accounts.remove(id@) =~= st.accounts);
        },
        LedgerEvent::AccountClosed { id, .. } => {
            assert(us.drop_last() =~= Seq::<UndoOp>::empty());
            assert(st2.accounts.insert(id@, Account { flags: st.accounts[id@].flags, ..st2.accounts[id@] })
                =~= st.accounts);
        },
        LedgerEvent::TransferPosted { transfer } => {
            let tv = transfer@;
            assert(us.drop_last() == balances_pre(st, tv.debit_account_id, tv.credit_account_id));
            assert(st2.transfers.remove(tv.id@) =~= st.transfers);
            assert(st2.accounts.dom() =~= st.accounts.dom());
            lemma_balances_restore(st, st2.accounts, st.transfers, tv.debit_account_id, tv.credit_account_id);
            assert(undo_one(tables(st2), us.last()) == (st2.accounts, st.transfers));
        },
        LedgerEvent::TransferPendingCreated { transfer } => {
            let tv = transfer@;
            assert(us.drop_last() == balances_pre(st, tv.debit_account_id, tv.credit_account_id));
            assert(st2.transfers.remove(tv.id@) =~= st.transfers);
            assert(st2.accounts.dom() =~= st.accounts.dom());
            lemma_balances_restore(st, st2.accounts, st.transfers, tv.debit_account_id, tv.credit_account_id);
            assert(undo_one(tables(st2), us.last()) == (st2.accounts, st.transfers));
        },
        LedgerEvent::TransferPendingPosted { pending_id, post_transfer_id, amount, timestamp } => {
            lemma_hold_undo_posted(st, pending_id, post_transfer_id, amount, timestamp);
        },
        LedgerEvent::TransferPendingVoided { pending_id, amount, timestamp } => {
            lemma_hold_undo_voided(st, pending_id, timestamp);
        },
    }
}

/// Reverting a settlement of a hold.
proof fn lemma_hold_undo_posted(
    st: LedgerState,
    pending_id: TransferId,
    post_transfer_id: TransferId,
    amount: crate::ledger_core::amount::Amount,
    ts: u64,
)
    requires
        spec_post_pending(st, pending_id, post_transfer_id, amount, ts) is Ok,
    ensures
        undo_all(
            tables(spec_post_pending(st, pending_id, post_transfer_id, amount, ts)->Ok_0),
            hold_pre(st, pending_id).push(UndoOp::RemoveTransfer { id: post_transfer_id }),
        ) == tables(st),
{
    let st2 = spec_post_pending(st, pending_id, post_transfer_id, amount, ts)->Ok_0;
    let us = hold_pre(st, pending_id).push(UndoOp::RemoveTransfer { id: post_transfer_id });
    let p = st.transfers[pending_id@];
    let pv = p@;
    let t1 = st2.transfers.remove(post_transfer_id@);
    assert(t1 =~= st.transfers.insert(pending_id@, with_state(p, TransferState::Posted)));
    let t2 = t1.insert(pending_id@, with_state(t1[pending_id@], pv.state));
    assert(with_state(with_state(p, TransferState::Posted), pv.state) == p);
    assert(t2 =~= st.transfers);
    assert(us.drop_last() == hold_pre(st, pending_id));
    assert(hold_pre(st, pending_id).drop_last() == balances_pre(st, pv.debit_account_id, pv.credit_account_id));
    assert(st2.accounts.dom() =~= st.accounts.dom());
    lemma_balances_restore(st, st2.accounts, t2, pv.debit_account_id, pv.credit_account_id);
    assert(undo_one(tables(st2), us.last()) == (st2.accounts, t1));
    assert(undo_one((st2.accounts, t1), hold_pre(st, pending_id).last()) == (st2.accounts, t2));
    assert(undo_all((st2.accounts, t1), hold_pre(st, pending_id)) == undo_all(
        (st2.accounts, t2),
        balances_pre(st, pv.debit_account_id, pv.credit_account_id),
    ));
    assert(undo_all(tables(st2), us) == undo_all((st2.accounts, t1), hold_pre(st, pending_id)));
}

/// Reverting a void of a hold.
proof fn lemma_hold_undo_voided(st: LedgerState, pending_id: TransferId, ts: u64)
    requires
        spec_void_pending(st, pending_id, ts) is Ok,
    ensures
        undo_all(tables(spec_void_pending(st, pending_id, ts)->Ok_0), hold_pre(st, pending_id)) == tables(st),
{
    let st2 = spec_void_pending(st, pending_id, ts)->Ok_0;
    let us = hold_pre(st, pending_id);
    let p = st.transfers[pending_id@];
    let pv = p@;
    let t2 = st2.transfers.insert(pending_id@, with_state(st2.transfers[pending_id@], pv.state));
    assert(with_state(with_state(p, TransferState::Voided), pv.state) == p);
    assert(t2 =~= st.transfers);
    assert(us.drop_last() == balances_pre(st, pv.debit_account_id, pv.credit_account_id));
    assert(st2.accounts.dom() =~= st.accounts.dom());
    lemma_balances_restore(st, st2.accounts, t2, pv.debit_account_id, pv.credit_account_id);
    assert(undo_one(tables(st2), us.last()) == (st2.accounts, t2));
}

/// Reverting the pre-images of a successful batch operation restores the
/// tables it started from.
pub proof fn lemma_op_undo(scale: crate::ledger_core::amount::Scale, st: LedgerState, op: BatchOp)
    requires
        spec_op_lookups(st, op) is None,
        spec_op_effect(scale, st, op) is Ok,
    ensures
        undo_all(tables(spec_op_effect(scale, st, op)->Ok_0), spec_op_pre(st, op)) == tables(st),
{
    let st2 = spec_op_effect(scale, st, op)->Ok_0;
    let us = spec_op_pre(st, op);
    reveal_with_fuel(undo_all, 2);
    match op {
        BatchOp::CreateAccount { id, .. } => {
            assert(us.drop_last() =~= Seq::<UndoOp>::empty());
            assert(st2.accounts.remove(id@) =~= st.accounts);
        },
        BatchOp::CloseAccount { id, .. } => {
            assert(us.drop_last() =~= Seq::<UndoOp>::empty());
            assert(st2.accounts.insert(id@, Account { flags: st.accounts[id@].flags, ..st2.accounts[id@] })
                =~= st.accounts);
        },
        BatchOp::Transfer(transfer) => {
            let tv = transfer@;
            assert(us.drop_last() == balances_pre(st, tv.debit_account_id, tv.credit_account_id));
            assert(st2.transfers.remove(tv.id@) =~= st.transfers);
            assert(st2.accounts.dom() =~= st.accounts.dom());
            lemma_balances_restore(st, st2.accounts, st.transfers, tv.debit_account_id, tv.credit_account_id);
            assert(undo_one(tables(st2), us.last()) == (st2.accounts, st.transfers));
        },
        BatchOp::Pending(transfer) => {
            let tv = transfer@;
            assert(us.drop_last() == balances_pre(st, tv.debit_account_id, tv.credit_account_id));
            assert(st2.transfers.remove(tv.id@) =~= st.transfers);
            assert(st2.accounts.dom() =~= st.accounts.dom());
            lemma_balances_restore(st, st2.accounts, st.transfers, tv.debit_account_id, tv.credit_account_id);
            assert(undo_one(tables(st2), us.last()) == (st2.accounts, st.transfers));
        },
        BatchOp::PostPending { pending_id, post_transfer_id, amount, timestamp } => {
            lemma_hold_undo_posted(st, pending_id, post_transfer_id, amount, timestamp);
        },
        BatchOp::VoidPending { pending_id, timestamp } => {
            lemma_hold_undo_voided(st, pending_id, timestamp);
        },
    }
}

} // verus!
