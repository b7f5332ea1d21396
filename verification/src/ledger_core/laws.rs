//! Properties of the ledger as a whole: what its journal, its prepare step
//! and its commit step promise together.

use vstd::prelude::*;

use crate::ledger_core::amount::{Scale, group_amount, lemma_amount_eq};
use crate::ledger_core::id::group_id;
use crate::ledger_core::journal::LedgerEvent;
use crate::ledger_core::ledger::{BatchOp, Ledger, singleton_txs};
use crate::ledger_core::model::{
    LedgerState,
    spec_apply_op,
    spec_commit,
    spec_commit_event,
    spec_op_event,
    spec_prepare,
    spec_replay,
    spec_run_ops,
    state_wf,
};
use crate::ledger_core::proofs::{lemma_pending_covered, lemma_replay_wf};
use crate::ledger_core::amount::Amount;
use crate::ledger_core::id::TransferId;
use crate::ledger_core::model::{spec_post_pending, spec_prepare_transactions, spec_void_pending};
use crate::ledger_core::transfer::{TransferState, group_transfer, with_state};

verus! {

broadcast use {group_amount, group_id, group_transfer};

/// Replaying a ledger's journal from an empty ledger of its scale rebuilds
/// exactly its state: accounts, transfers and timestamp watermark.
pub proof fn law_journal_rebuilds_ledger(ledger: &Ledger)
    requires
        ledger.wf(),
    ensures
        spec_replay(ledger@.scale, ledger@.journal) == Ok::<LedgerState, crate::ledger_core::error::LedgerError>(
            ledger@.state,
        ),
{
    ledger.lemma_view_wf();
}

/// Every ledger conserves value: total debits equal total credits, posted
/// and pending alike; each account's pending balances are exactly what its
/// pending holds reserve; and every transfer names existing, distinct
/// accounts.
pub proof fn law_conservation(ledger: &Ledger)
    requires
        ledger.wf(),
    ensures
        state_wf(ledger@.scale, ledger@.state),
{
    ledger.lemma_view_wf();
    lemma_replay_wf(ledger@.scale, ledger@.journal);
}

/// A pending hold is covered by its accounts: the debit account's pending
/// debits and the credit account's pending credits each include its amount.
pub proof fn law_pending_holds_are_covered(ledger: &Ledger, id: u128)
    requires
        ledger.wf(),
        ledger@.state.transfers.contains_key(id),
        ledger@.state.transfers[id]@.state == crate::ledger_core::transfer::TransferState::Pending,
    ensures
        ({
            let t = ledger@.state.transfers[id]@;
            &&& ledger@.state.accounts[t.debit_account_id@].balance.debits_pending@ >= t.amount@
            &&& ledger@.state.accounts[t.credit_account_id@].balance.credits_pending@ >= t.amount@
        }),
{
    law_conservation(ledger);
    lemma_pending_covered(ledger@.scale, ledger@.state, id);
}

/// A transfer that is posted or voided is final: neither posting nor voiding
/// it again succeeds, and the ledger state stays as it was.
pub proof fn law_terminal_transfers_are_final(
    st: LedgerState,
    pending_id: TransferId,
    post_transfer_id: TransferId,
    amount: Amount,
    timestamp: u64,
)
    requires
        st.transfers.contains_key(pending_id@),
        st.transfers[pending_id@]@.state != TransferState::Pending,
    ensures
        spec_post_pending(st, pending_id, post_transfer_id, amount, timestamp) is Err,
        spec_void_pending(st, pending_id, timestamp) is Err,
{
}

/// The event a successful batch operation records commits to the same
/// state the operation produced.
proof fn lemma_op_event_commits(scale: Scale, st: LedgerState, op: BatchOp)
    requires
        spec_apply_op(scale, st, op) is Ok,
    ensures
        spec_commit_event(scale, st, spec_op_event(st, op)) == spec_apply_op(scale, st, op),
{
    match op {
        BatchOp::VoidPending { pending_id, timestamp } => {
            let a = st.transfers[pending_id@]@.amount;
            lemma_amount_eq(a, a);
        },
        _ => {},
    }
}

/// The events that preparing a batch returns commit, on the state they
/// were prepared against, to exactly the state the batch produced when it
/// ran speculatively.
pub proof fn law_prepared_events_commit(scale: Scale, st: LedgerState, ops: Seq<BatchOp>)
    requires
        spec_prepare(scale, st, ops) is Ok,
    ensures
        spec_commit(scale, st, spec_prepare(scale, st, ops)->Ok_0) == Ok::<
            LedgerState,
            crate::ledger_core::error::LedgerError,
        >(spec_run_ops(scale, st, ops)->Ok_0.0),
    decreases ops.len(),
{
    if ops.len() > 0 {
        let prefix = ops.drop_last();
        assert(spec_run_ops(scale, st, prefix) is Ok);
        law_prepared_events_commit(scale, st, prefix);
        let (s1, evs1) = spec_run_ops(scale, st, prefix)->Ok_0;
        lemma_op_event_commits(scale, s1, ops.last());
        let evs = spec_prepare(scale, st, ops)->Ok_0;
        assert(evs.drop_last() =~= evs1);
    }
}

/// The events of the transactions that succeeded, in order.
pub open spec fn successful_events(results: Seq<Result<Seq<LedgerEvent>, crate::ledger_core::error::LedgerError>>) -> Seq<LedgerEvent>
    decreases results.len(),
{
    if results.len() == 0 {
        Seq::empty()
    } else {
        successful_events(results.drop_last()) + match results.last() {
            Ok(evs) => evs,
            Err(_) => Seq::<LedgerEvent>::empty(),
        }
    }
}

/// Committing two runs of events one after the other is committing them
/// together.
proof fn lemma_commit_append(scale: Scale, st: LedgerState, a: Seq<LedgerEvent>, b: Seq<LedgerEvent>)
    ensures
        spec_commit(scale, st, a + b) == match spec_commit(scale, st, a) {
            Ok(s) => spec_commit(scale, s, b),
            Err(e) => Err(e),
        },
    decreases b.len(),
{
    if b.len() == 0 {
        assert(a + b =~= a);
    } else {
        lemma_commit_append(scale, st, a, b.drop_last());
        assert((a + b).drop_last() =~= a + b.drop_last());
        assert((a + b).last() == b.last());
    }
}

/// Preparing several transactions (as `Ledger::prepare_transactions` and
/// `Ledger::prepare_batch_results` do) and then committing the events of
/// every one that succeeded, in order, succeeds and reaches the state the
/// speculative run ended in.
pub proof fn law_successful_events_commit_together(scale: Scale, st: LedgerState, txs: Seq<Seq<BatchOp>>)
    ensures
        spec_commit(scale, st, successful_events(spec_prepare_transactions(scale, st, txs).1)) == Ok::<
            LedgerState,
            crate::ledger_core::error::LedgerError,
        >(spec_prepare_transactions(scale, st, txs).0),
    decreases txs.len(),
{
    if txs.len() > 0 {
        let prefix = txs.drop_last();
        law_successful_events_commit_together(scale, st, prefix);
        let (s, results) = spec_prepare_transactions(scale, st, prefix);
        let before = successful_events(results);
        match spec_run_ops(scale, s, txs.last()) {
            Ok((s2, evs)) => {
                let all = spec_prepare_transactions(scale, st, txs).1;
                assert(all == results.push(Ok(evs)));
                assert(all.drop_last() =~= results);
                assert(successful_events(all) == before + evs);
                lemma_commit_append(scale, st, before, evs);
                law_prepared_events_commit(scale, s, txs.last());
            },
            Err(e) => {
                let all = spec_prepare_transactions(scale, st, txs).1;
                assert(all.drop_last() =~= results);
                assert(successful_events(all) =~= before);
            },
        }
    }
}

/// What stays true of a state once the event has been committed to it: the
/// account or transfer it made exists, a closed account stays closed, and a
/// hold it settled or voided is no longer pending.
spec fn event_mark(st: LedgerState, e: LedgerEvent) -> bool {
    match e {
        LedgerEvent::AccountCreated { id, .. } => st.accounts.contains_key(id@),
        LedgerEvent::AccountClosed { id, .. } => st.accounts.contains_key(id@) && st.accounts[id@].flags.is_closed,
        LedgerEvent::TransferPosted { transfer } => st.transfers.contains_key(transfer@.id@),
        LedgerEvent::TransferPendingCreated { transfer } => st.transfers.contains_key(transfer@.id@),
        LedgerEvent::TransferPendingPosted { post_transfer_id, .. } => st.transfers.contains_key(post_transfer_id@),
        LedgerEvent::TransferPendingVoided { pending_id, .. } => st.transfers.contains_key(pending_id@)
            && st.transfers[pending_id@]@.state != TransferState::Pending,
    }
}

/// `st2` keeps what `st` holds for good: its accounts, their closures, its
/// transfers, and the transfers that are no longer pending.
spec fn keeps(st: LedgerState, st2: LedgerState) -> bool {
    &&& forall|k: u128| #[trigger] st.accounts.contains_key(k) ==> st2.accounts.contains_key(k)
    &&& forall|k: u128|
        st.accounts.contains_key(k) && #[trigger] st.accounts[k].flags.is_closed ==> st2.accounts[k].flags.is_closed
    &&& forall|k: u128| #[trigger] st.transfers.contains_key(k) ==> st2.transfers.contains_key(k)
    &&& forall|k: u128|
        st.transfers.contains_key(k) && #[trigger] st.transfers[k]@.state != TransferState::Pending
            ==> st2.transfers[k]@.state != TransferState::Pending
}

/// A committed event keeps what the state held and leaves its mark.
proof fn lemma_event_keeps(scale: Scale, st: LedgerState, e: LedgerEvent)
    requires
        spec_commit_event(scale, st, e) is Ok,
    ensures
        keeps(st, spec_commit_event(scale, st, e)->Ok_0),
        event_mark(spec_commit_event(scale, st, e)->Ok_0, e),
{
    let st2 = spec_commit_event(scale, st, e)->Ok_0;
    match e {
        LedgerEvent::TransferPendingPosted { pending_id, post_transfer_id, .. } => {
            let p = st.transfers[pending_id@];
            assert(with_state(p, TransferState::Posted)@.state == TransferState::Posted);
            assert(keeps(st, st2));
        },
        LedgerEvent::TransferPendingVoided { pending_id, .. } => {
            let p = st.transfers[pending_id@];
            assert(with_state(p, TransferState::Voided)@.state == TransferState::Voided);
            assert(keeps(st, st2));
        },
        _ => {
            assert(keeps(st, st2));
        },
    }
}

/// A committed run of events keeps what the state held and leaves the mark
/// of each of its events.
proof fn lemma_commit_keeps(scale: Scale, st: LedgerState, evs: Seq<LedgerEvent>)
    requires
        spec_commit(scale, st, evs) is Ok,
    ensures
        keeps(st, spec_commit(scale, st, evs)->Ok_0),
    decreases evs.len(),
{
    if evs.len() > 0 {
        lemma_commit_keeps(scale, st, evs.drop_last());
        let s1 = spec_commit(scale, st, evs.drop_last())->Ok_0;
        lemma_event_keeps(scale, s1, evs.last());
    }
}

/// An event cannot be committed again where its mark is already left.
proof fn lemma_mark_blocks(scale: Scale, st: LedgerState, e: LedgerEvent)
    requires
        event_mark(st, e),
    ensures
        spec_commit_event(scale, st, e) is Err,
{
}

/// Committing a run of events succeeds only if committing its first event
/// does.
proof fn lemma_commit_first(scale: Scale, st: LedgerState, evs: Seq<LedgerEvent>)
    requires
        evs.len() > 0,
    ensures
        spec_commit(scale, st, evs) is Ok ==> {
            &&& spec_commit_event(scale, st, evs[0]) is Ok
            &&& spec_commit(scale, spec_commit_event(scale, st, evs[0])->Ok_0, evs.skip(1)) == spec_commit(scale, st, evs)
        },
{
    lemma_commit_append(scale, st, evs.take(1), evs.skip(1));
    assert(evs.take(1) + evs.skip(1) =~= evs);
    let first = evs.take(1);
    assert(first.drop_last() =~= Seq::<LedgerEvent>::empty());
    assert(first.last() == evs[0]);
    assert(spec_commit(scale, st, first.drop_last()) == Ok::<LedgerState, crate::ledger_core::error::LedgerError>(st));
    assert(spec_commit(scale, st, first) == spec_commit_event(scale, st, evs[0]));
}

/// Events that committed cannot be committed a second time: the second
/// attempt fails (and `Ledger::commit_events` then leaves the ledger as it
/// was).
pub proof fn law_events_commit_once(scale: Scale, st: LedgerState, evs: Seq<LedgerEvent>)
    requires
        evs.len() > 0,
        spec_commit(scale, st, evs) is Ok,
    ensures
        spec_commit(scale, spec_commit(scale, st, evs)->Ok_0, evs) is Err,
{
    let s = spec_commit(scale, st, evs)->Ok_0;
    lemma_commit_first(scale, st, evs);
    let s1 = spec_commit_event(scale, st, evs[0])->Ok_0;
    lemma_event_keeps(scale, st, evs[0]);
    lemma_commit_keeps(scale, s1, evs.skip(1));
    assert(event_mark(s, evs[0]));
    lemma_mark_blocks(scale, s, evs[0]);
    lemma_commit_first(scale, s, evs);
}

/// Preparing a longer list of transactions does not change the results of
/// the earlier ones.
proof fn lemma_prepare_prefix(scale: Scale, st: LedgerState, txs: Seq<Seq<BatchOp>>, k: int)
    requires
        0 <= k <= txs.len(),
    ensures
        spec_prepare_transactions(scale, st, txs).1.len() == txs.len(),
        spec_prepare_transactions(scale, st, txs.take(k)).1 == spec_prepare_transactions(scale, st, txs).1.take(k),
    decreases txs.len(),
{
    if txs.len() > 0 {
        lemma_prepare_prefix(scale, st, txs.drop_last(), if k < txs.len() { k } else { txs.len() - 1 });
        if k == txs.len() {
            assert(txs.take(k) =~= txs);
            assert(spec_prepare_transactions(scale, st, txs).1.take(k) =~= spec_prepare_transactions(scale, st, txs).1);
        } else {
            assert(txs.drop_last().take(k) =~= txs.take(k));
            assert(spec_prepare_transactions(scale, st, txs.drop_last()).1.take(k) =~= spec_prepare_transactions(
                scale,
                st,
                txs,
            ).1.take(k));
        }
    } else {
        assert(txs.take(k) =~= txs);
    }
}

/// Each prepared transaction (as `Ledger::prepare_transactions` and, one
/// operation each, `Ledger::prepare_batch_results` prepare them) is run on
/// the state the earlier successful ones reached: its result is its events
/// when it succeeds there and its error when it fails there.
pub proof fn law_transaction_sees_earlier_successes(scale: Scale, st: LedgerState, txs: Seq<Seq<BatchOp>>, i: int)
    requires
        0 <= i < txs.len(),
    ensures
        spec_prepare_transactions(scale, st, txs).1[i] == match spec_run_ops(
            scale,
            spec_prepare_transactions(scale, st, txs.take(i)).0,
            txs[i],
        ) {
            Ok((s2, evs)) => Ok::<Seq<LedgerEvent>, crate::ledger_core::error::LedgerError>(evs),
            Err(e) => Err(e),
        },
{
    lemma_prepare_prefix(scale, st, txs, i + 1);
    let upto = txs.take(i + 1);
    assert(upto.drop_last() =~= txs.take(i));
    assert(upto.last() == txs[i]);
    lemma_prepare_prefix(scale, st, upto, i);
    assert(spec_prepare_transactions(scale, st, txs).1.take(i + 1)[i] == spec_prepare_transactions(scale, st, txs).1[i]);
}

/// Once a journal prefix fails to replay, the whole journal fails with the
/// same error.
proof fn lemma_replay_fault_sticks(scale: Scale, a: Seq<LedgerEvent>, b: Seq<LedgerEvent>)
    requires
        spec_replay(scale, a) is Err,
    ensures
        spec_replay(scale, a + b) == spec_replay(scale, a),
    decreases b.len(),
{
    if b.len() == 0 {
        assert(a + b =~= a);
    } else {
        lemma_replay_fault_sticks(scale, a, b.drop_last());
        assert((a + b).drop_last() =~= a + b.drop_last());
    }
}

/// A journal whose void of a hold names an amount other than the hold's
/// does not replay: it fails with `JournalVoidedAmountMismatch` at that
/// event, whatever follows it.
pub proof fn law_replay_rejects_altered_void(
    scale: Scale,
    before: Seq<LedgerEvent>,
    pending_id: TransferId,
    amount: Amount,
    timestamp: u64,
    after: Seq<LedgerEvent>,
)
    requires
        spec_replay(scale, before) is Ok,
        spec_replay(scale, before)->Ok_0.transfers.contains_key(pending_id@),
        spec_replay(scale, before)->Ok_0.transfers[pending_id@]@.amount@ != amount@,
    ensures
        spec_replay(
            scale,
            before.push(LedgerEvent::TransferPendingVoided { pending_id, amount, timestamp }) + after,
        ) == Err::<LedgerState, crate::ledger_core::error::LedgerError>(
            crate::ledger_core::error::LedgerError::JournalVoidedAmountMismatch {
                pending_id,
                pending: spec_replay(scale, before)->Ok_0.transfers[pending_id@]@.amount,
                amount,
            },
        ),
{
    let altered = before.push(LedgerEvent::TransferPendingVoided { pending_id, amount, timestamp });
    assert(altered.drop_last() =~= before);
    lemma_replay_fault_sticks(scale, altered, after);
}

/// Preparing a transaction records one event per operation.
pub proof fn law_one_event_per_operation(scale: Scale, st: LedgerState, ops: Seq<BatchOp>)
    requires
        spec_prepare(scale, st, ops) is Ok,
    ensures
        spec_prepare(scale, st, ops)->Ok_0.len() == ops.len(),
    decreases ops.len(),
{
    if ops.len() > 0 {
        assert(spec_run_ops(scale, st, ops.drop_last()) is Ok);
        law_one_event_per_operation(scale, st, ops.drop_last());
    }
}

/// Preparing operations one transaction each (as
/// `Ledger::prepare_batch_results` does) gives one result per operation, and
/// each success records exactly one event.
pub proof fn law_one_result_per_operation(scale: Scale, st: LedgerState, ops: Seq<BatchOp>)
    ensures
        spec_prepare_transactions(scale, st, singleton_txs(ops)).1.len() == ops.len(),
        forall|i: int|
            0 <= i < ops.len() && (#[trigger] spec_prepare_transactions(scale, st, singleton_txs(ops)).1[i]) is Ok
                ==> spec_prepare_transactions(scale, st, singleton_txs(ops)).1[i]->Ok_0.len() == 1,
{
    let txs = singleton_txs(ops);
    lemma_prepare_prefix(scale, st, txs, 0);
    assert forall|i: int|
        0 <= i < ops.len() && (#[trigger] spec_prepare_transactions(scale, st, txs).1[i]) is Ok implies spec_prepare_transactions(
        scale,
        st,
        txs,
    ).1[i]->Ok_0.len() == 1 by {
        law_transaction_sees_earlier_successes(scale, st, txs, i);
        let s = spec_prepare_transactions(scale, st, txs.take(i)).0;
        assert(txs[i] == seq![ops[i]]);
        law_one_event_per_operation(scale, s, txs[i]);
    }
}

/// Whether operation `op`, run on `st`, names account `id`: creates or
/// closes it, or moves funds to or from it (for a hold, through the hold's
/// accounts).
pub open spec fn op_touches_account(st: LedgerState, op: BatchOp, id: u128) -> bool {
    match op {
        BatchOp::CreateAccount { id: a, .. } => a@ == id,
        BatchOp::CloseAccount { id: a, .. } => a@ == id,
        BatchOp::Transfer(t) => t@.debit_account_id@ == id || t@.credit_account_id@ == id,
        BatchOp::Pending(t) => t@.debit_account_id@ == id || t@.credit_account_id@ == id,
        BatchOp::PostPending { pending_id, .. } => st.transfers.contains_key(pending_id@) && (
        st.transfers[pending_id@]@.debit_account_id@ == id || st.transfers[pending_id@]@.credit_account_id@ == id),
        BatchOp::VoidPending { pending_id, .. } => st.transfers.contains_key(pending_id@) && (
        st.transfers[pending_id@]@.debit_account_id@ == id || st.transfers[pending_id@]@.credit_account_id@ == id),
    }
}

/// An operation that does not name an account leaves it as it was: it
/// exists afterwards exactly when it existed before, with the same type,
/// flags, scale and balances.
pub proof fn law_other_operations_leave_account(scale: Scale, st: LedgerState, op: BatchOp, id: u128)
    requires
        spec_apply_op(scale, st, op) is Ok,
        !op_touches_account(st, op, id),
    ensures
        spec_apply_op(scale, st, op)->Ok_0.accounts.contains_key(id) == st.accounts.contains_key(id),
        st.accounts.contains_key(id) ==> spec_apply_op(scale, st, op)->Ok_0.accounts[id] == st.accounts[id],
{
}

/// Posting a hold, in full or in part, records a settlement transfer of
/// exactly the posted amount: it is stored under the new ID, between the
/// hold's accounts, posted and linked to the hold, at the posting's time.
/// The hold becomes posted; its debit account's posted debits and its
/// credit account's posted credits grow by the posted amount, and the whole
/// hold is released from their pending balances.
pub proof fn law_settlement_records_posted_amount(
    st: LedgerState,
    pending_id: TransferId,
    post_transfer_id: TransferId,
    amount: Amount,
    timestamp: u64,
)
    requires
        spec_post_pending(st, pending_id, post_transfer_id, amount, timestamp) is Ok,
    ensures
        ({
            let st2 = spec_post_pending(st, pending_id, post_transfer_id, amount, timestamp)->Ok_0;
            let hold = st.transfers[pending_id@]@;
            let d = hold.debit_account_id@;
            let c = hold.credit_account_id@;
            let settled = st2.transfers[post_transfer_id@]@;
            &&& hold.state == TransferState::Pending
            &&& amount@ <= hold.amount@
            &&& st2.transfers.contains_key(post_transfer_id@)
            &&& settled.amount == amount
            &&& settled.debit_account_id == hold.debit_account_id
            &&& settled.credit_account_id == hold.credit_account_id
            &&& settled.state == TransferState::Posted
            &&& settled.pending_id == Some(pending_id)
            &&& settled.timestamp == timestamp
            &&& st2.transfers[pending_id@]@.state == TransferState::Posted
            &&& st2.accounts[d].balance.debits_posted@ == st.accounts[d].balance.debits_posted@ + amount@
            &&& st2.accounts[c].balance.credits_posted@ == st.accounts[c].balance.credits_posted@ + amount@
            &&& st2.accounts[d].balance.debits_pending@ == st.accounts[d].balance.debits_pending@ - hold.amount@
            &&& st2.accounts[c].balance.credits_pending@ == st.accounts[c].balance.credits_pending@ - hold.amount@
        }),
{
}

} // verus!
