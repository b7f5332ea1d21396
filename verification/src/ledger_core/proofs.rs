//! Proofs that every ledger operation keeps the state well formed.

use vstd::prelude::*;

use crate::ledger_core::account::{Account, AccountFlags, AccountType, Balance, zero_balance, spec_ensure_can_debit, spec_ensure_can_credit};
use crate::ledger_core::amount::{Amount, Scale, group_amount};
use crate::ledger_core::id::{AccountId, TransferId, group_id};
use crate::ledger_core::journal::LedgerEvent;
use crate::ledger_core::model::{empty_state, timestamp_behind, timestamp_error, with_balance, spec_create_account, spec_close_account, spec_validate_new_transfer, spec_validate_pending_link, spec_create_transfer, spec_create_pending, spec_post_pending, spec_void_pending, spec_apply_event, spec_replay, accounts_missing, spec_event_lookups, spec_commit_event, spec_commit, spec_op_lookups, spec_op_event, spec_op_effect, spec_apply_op, spec_run_ops, spec_prepare, spec_prepare_transactions, debits_posted_fn, credits_posted_fn, debits_pending_fn, credits_pending_fn, total_debits_posted, total_credits_posted, total_debits_pending, total_credits_pending, held_debit, held_credit, held_debit_fn, held_credit_fn, held_debits, held_credits, state_wf, LedgerState};
use crate::ledger_core::sums::{set_sum, lemma_nonempty_choose, lemma_set_sum_update, lemma_set_sum_insert_new, lemma_set_sum_remove, lemma_set_sum_insert, lemma_set_sum_congr, lemma_set_sum_ge_term, lemma_set_sum_nonneg};
use crate::ledger_core::transfer::{Transfer, TransferState, TransferView, group_transfer, spec_validate_shape, spec_validate_invariants, spec_transfer, with_state};

verus! {

broadcast use {group_amount, group_id, group_transfer};

/// Replacing one account changes each total by the difference of that account's component.
pub proof fn lemma_account_update(m: Map<u128, Account>, k: u128, a: Account)
    requires
        m.dom().finite(),
        m.contains_key(k),
    ensures
        m.insert(k, a).dom() == m.dom(),
        total_debits_posted(m.insert(k, a)) == total_debits_posted(m) - m[k].balance.debits_posted@
            + a.balance.debits_posted@,
        total_credits_posted(m.insert(k, a)) == total_credits_posted(m) - m[k].balance.credits_posted@
            + a.balance.credits_posted@,
        total_debits_pending(m.insert(k, a)) == total_debits_pending(m) - m[k].balance.debits_pending@
            + a.balance.debits_pending@,
        total_credits_pending(m.insert(k, a)) == total_credits_pending(m) - m[k].balance.credits_pending@
            + a.balance.credits_pending@,
{
    let m2 = m.insert(k, a);
    assert(m2.dom() =~= m.dom());
    lemma_set_sum_update(m.dom(), k, debits_posted_fn(m), debits_posted_fn(m2));
    lemma_set_sum_update(m.dom(), k, credits_posted_fn(m), credits_posted_fn(m2));
    lemma_set_sum_update(m.dom(), k, debits_pending_fn(m), debits_pending_fn(m2));
    lemma_set_sum_update(m.dom(), k, credits_pending_fn(m), credits_pending_fn(m2));
}

/// Adding a new account adds its components to each total.
pub proof fn lemma_account_insert(m: Map<u128, Account>, k: u128, a: Account)
    requires
        m.dom().finite(),
        !m.contains_key(k),
    ensures
        m.insert(k, a).dom() == m.dom().insert(k),
        total_debits_posted(m.insert(k, a)) == total_debits_posted(m) + a.balance.debits_posted@,
        total_credits_posted(m.insert(k, a)) == total_credits_posted(m) + a.balance.credits_posted@,
        total_debits_pending(m.insert(k, a)) == total_debits_pending(m) + a.balance.debits_pending@,
        total_credits_pending(m.insert(k, a)) == total_credits_pending(m) + a.balance.credits_pending@,
{
    let m2 = m.insert(k, a);
    assert(m2.dom() =~= m.dom().insert(k));
    lemma_set_sum_insert_new(m.dom(), k, debits_posted_fn(m), debits_posted_fn(m2));
    lemma_set_sum_insert_new(m.dom(), k, credits_posted_fn(m), credits_posted_fn(m2));
    lemma_set_sum_insert_new(m.dom(), k, debits_pending_fn(m), debits_pending_fn(m2));
    lemma_set_sum_insert_new(m.dom(), k, credits_pending_fn(m), credits_pending_fn(m2));
}

/// Adding a new transfer adds what it holds to each account's held sums.
pub proof fn lemma_transfer_insert(ts: Map<u128, Transfer>, k: u128, t: Transfer, acct: u128)
    requires
        ts.dom().finite(),
        !ts.contains_key(k),
    ensures
        ts.insert(k, t).dom() == ts.dom().insert(k),
        held_debits(ts.insert(k, t), acct) == held_debits(ts, acct) + held_debit(t, acct),
        held_credits(ts.insert(k, t), acct) == held_credits(ts, acct) + held_credit(t, acct),
{
    let ts2 = ts.insert(k, t);
    assert(ts2.dom() =~= ts.dom().insert(k));
    lemma_set_sum_insert_new(ts.dom(), k, held_debit_fn(ts, acct), held_debit_fn(ts2, acct));
    lemma_set_sum_insert_new(ts.dom(), k, held_credit_fn(ts, acct), held_credit_fn(ts2, acct));
}

/// Replacing a transfer changes each account's held sums by the difference.
pub proof fn lemma_transfer_update(ts: Map<u128, Transfer>, k: u128, t: Transfer, acct: u128)
    requires
        ts.dom().finite(),
        ts.contains_key(k),
    ensures
        ts.insert(k, t).dom() == ts.dom(),
        held_debits(ts.insert(k, t), acct) == held_debits(ts, acct) - held_debit(ts[k], acct) + held_debit(t, acct),
        held_credits(ts.insert(k, t), acct) == held_credits(ts, acct) - held_credit(ts[k], acct) + held_credit(
            t,
            acct,
        ),
{
    let ts2 = ts.insert(k, t);
    assert(ts2.dom() =~= ts.dom());
    lemma_set_sum_update(ts.dom(), k, held_debit_fn(ts, acct), held_debit_fn(ts2, acct));
    lemma_set_sum_update(ts.dom(), k, held_credit_fn(ts, acct), held_credit_fn(ts2, acct));
}

/// An account that no transfer names holds nothing.
pub proof fn lemma_held_unnamed(ts: Map<u128, Transfer>, acct: u128)
    requires
        ts.dom().finite(),
        forall|k: u128| #[trigger]
            ts.contains_key(k) ==> ts[k]@.debit_account_id@ != acct && ts[k]@.credit_account_id@ != acct,
    ensures
        held_debits(ts, acct) == 0,
        held_credits(ts, acct) == 0,
{
    let z = |k: u128| 0int;
    lemma_set_sum_congr(ts.dom(), held_debit_fn(ts, acct), z);
    lemma_set_sum_congr(ts.dom(), held_credit_fn(ts, acct), z);
    lemma_set_sum_zero(ts.dom());
}

/// The sum of zeros is zero.
pub proof fn lemma_set_sum_zero(s: Set<u128>)
    requires
        s.finite(),
    ensures
        set_sum(s, |k: u128| 0int) == 0,
    decreases s.len(),
{
    if s.len() > 0 {
        lemma_nonempty_choose(s);
        lemma_set_sum_zero(s.remove(s.choose()));
    }
}

/// A pending hold is covered by its accounts' pending balances.
pub proof fn lemma_pending_covered(scale: Scale, st: LedgerState, k: u128)
    requires
        state_wf(scale, st),
        st.transfers.contains_key(k),
        st.transfers[k]@.state == TransferState::Pending,
    ensures
        st.accounts[st.transfers[k]@.debit_account_id@].balance.debits_pending@ >= st.transfers[k]@.amount@,
        st.accounts[st.transfers[k]@.credit_account_id@].balance.credits_pending@ >= st.transfers[k]@.amount@,
{
    let t = st.transfers[k]@;
    let d = t.debit_account_id@;
    let c = t.credit_account_id@;
    assert(st.accounts.contains_key(d));
    assert(st.accounts.contains_key(c));
    assert forall|x: u128| st.transfers.dom().contains(x) implies #[trigger] held_debit_fn(st.transfers, d)(x) >= 0 by {}
    assert forall|x: u128| st.transfers.dom().contains(x) implies #[trigger] held_credit_fn(st.transfers, c)(x) >= 0 by {}
    lemma_set_sum_ge_term(st.transfers.dom(), k, held_debit_fn(st.transfers, d));
    lemma_set_sum_ge_term(st.transfers.dom(), k, held_credit_fn(st.transfers, c));
}

/// Creating an account keeps the state well formed.
pub proof fn lemma_create_account_wf(
    scale: Scale,
    st: LedgerState,
    id: AccountId,
    account_type: AccountType,
    flags: AccountFlags,
    s: Scale,
    ts: u64,
)
    requires
        state_wf(scale, st),
        spec_create_account(scale, st, id, account_type, flags, s, ts) is Ok,
    ensures
        state_wf(scale, spec_create_account(scale, st, id, account_type, flags, s, ts)->Ok_0),
{
    let st2 = spec_create_account(scale, st, id, account_type, flags, s, ts)->Ok_0;
    let a = Account { id, account_type, flags, scale: s, balance: zero_balance() };
    lemma_account_insert(st.accounts, id@, a);
    assert(s == scale) by {
        assert(Scale::from_spec(s@) == s);
        assert(Scale::from_spec(scale@) == scale);
    }
    assert(st2.accounts.dom().finite());
    assert forall|k: u128| #[trigger] st.transfers.contains_key(k) implies st.transfers[k]@.debit_account_id@ != id@
        && st.transfers[k]@.credit_account_id@ != id@ by {}
    lemma_held_unnamed(st.transfers, id@);
    assert forall|k: u128| #[trigger] st2.accounts.contains_key(k) implies st2.accounts[k].id@ == k && st2.accounts[k].scale == scale by {}
}

/// Closing an account keeps the state well formed.
pub proof fn lemma_close_account_wf(scale: Scale, st: LedgerState, id: AccountId, ts: u64)
    requires
        state_wf(scale, st),
        spec_close_account(st, id, ts) is Ok,
    ensures
        state_wf(scale, spec_close_account(st, id, ts)->Ok_0),
{
    let st2 = spec_close_account(st, id, ts)->Ok_0;
    lemma_account_update(st.accounts, id@, st2.accounts[id@]);
}

/// Creating a transfer keeps the state well formed.
#[verifier::rlimit(60)]
#[verifier::spinoff_prover]
pub proof fn lemma_create_transfer_wf(scale: Scale, st: LedgerState, t: Transfer)
    requires
        state_wf(scale, st),
        spec_create_transfer(st, t) is Ok,
    ensures
        state_wf(scale, spec_create_transfer(st, t)->Ok_0),
{
    let st2 = spec_create_transfer(st, t)->Ok_0;
    let tv = t@;
    let d = tv.debit_account_id@;
    let c = tv.credit_account_id@;
    let da = st.accounts[d];
    let a1 = st.accounts.insert(d, st2.accounts[d]);
    lemma_account_update(st.accounts, d, st2.accounts[d]);
    assert(a1[c] == st.accounts[c]);
    lemma_account_update(a1, c, st2.accounts[c]);
    assert(st2.accounts =~= a1.insert(c, st2.accounts[c]));
    assert forall|acct: u128| #[trigger] st2.accounts.contains_key(acct) implies {
        &&& st2.accounts[acct].balance.debits_pending@ == held_debits(st2.transfers, acct)
        &&& st2.accounts[acct].balance.credits_pending@ == held_credits(st2.transfers, acct)
    } by {
        lemma_transfer_insert(st.transfers, tv.id@, t, acct);
    }
    assert forall|k: u128| #[trigger] st2.transfers.contains_key(k) implies {
        let x = st2.transfers[k]@;
        &&& x.id@ == k
        &&& st2.accounts.contains_key(x.debit_account_id@)
        &&& st2.accounts.contains_key(x.credit_account_id@)
        &&& x.debit_account_id@ != x.credit_account_id@
        &&& x.amount@ > 0
        &&& (x.state != TransferState::Posted ==> x.pending_id is None)
        &&& (x.state == TransferState::Posted && x.pending_id is Some) ==> {
            &&& st2.transfers.contains_key(x.pending_id->0@)
            &&& st2.transfers[x.pending_id->0@]@.state == TransferState::Posted
        }
    } by {
        if k != tv.id@ {
            let x = st.transfers[k]@;
            if x.state == TransferState::Posted && x.pending_id is Some {
                assert(st.transfers.contains_key(x.pending_id->0@));
            }
        } else if tv.pending_id is Some {
            assert(spec_validate_pending_link(st, t) is Ok);
            assert(st.transfers.contains_key(tv.pending_id->0@));
        }
    }
    lemma_transfer_insert(st.transfers, tv.id@, t, 0);
}

/// Creating a pending hold keeps the state well formed.
pub proof fn lemma_create_pending_wf(scale: Scale, st: LedgerState, t: Transfer)
    requires
        state_wf(scale, st),
        spec_create_pending(st, t) is Ok,
    ensures
        state_wf(scale, spec_create_pending(st, t)->Ok_0),
{
    let st2 = spec_create_pending(st, t)->Ok_0;
    let tv = t@;
    let d = tv.debit_account_id@;
    let c = tv.credit_account_id@;
    let a1 = st.accounts.insert(d, st2.accounts[d]);
    lemma_account_update(st.accounts, d, st2.accounts[d]);
    assert(a1[c] == st.accounts[c]);
    lemma_account_update(a1, c, st2.accounts[c]);
    assert(st2.accounts =~= a1.insert(c, st2.accounts[c]));
    assert forall|acct: u128| #[trigger] st2.accounts.contains_key(acct) implies {
        &&& st2.accounts[acct].balance.debits_pending@ == held_debits(st2.transfers, acct)
        &&& st2.accounts[acct].balance.credits_pending@ == held_credits(st2.transfers, acct)
    } by {
        lemma_transfer_insert(st.transfers, tv.id@, t, acct);
    }
    assert forall|k: u128| #[trigger] st2.transfers.contains_key(k) implies {
        let x = st2.transfers[k]@;
        &&& x.id@ == k
        &&& st2.accounts.contains_key(x.debit_account_id@)
        &&& st2.accounts.contains_key(x.credit_account_id@)
        &&& x.debit_account_id@ != x.credit_account_id@
        &&& x.amount@ > 0
        &&& (x.state != TransferState::Posted ==> x.pending_id is None)
        &&& (x.state == TransferState::Posted && x.pending_id is Some) ==> {
            &&& st2.transfers.contains_key(x.pending_id->0@)
            &&& st2.transfers[x.pending_id->0@]@.state == TransferState::Posted
        }
    } by {
        if k != tv.id@ {
            let x = st.transfers[k]@;
            if x.state == TransferState::Posted && x.pending_id is Some {
                assert(st.transfers.contains_key(x.pending_id->0@));
            }
        }
    }
    lemma_transfer_insert(st.transfers, tv.id@, t, 0);
}

/// Posting a hold keeps the state well formed.
#[verifier::rlimit(50)]
pub proof fn lemma_post_pending_wf(
    scale: Scale,
    st: LedgerState,
    pending_id: TransferId,
    post_transfer_id: TransferId,
    amount: Amount,
    ts: u64,
)
    requires
        state_wf(scale, st),
        spec_post_pending(st, pending_id, post_transfer_id, amount, ts) is Ok,
    ensures
        state_wf(scale, spec_post_pending(st, pending_id, post_transfer_id, amount, ts)->Ok_0),
{
    let st2 = spec_post_pending(st, pending_id, post_transfer_id, amount, ts)->Ok_0;
    let p = st.transfers[pending_id@];
    let pv = p@;
    let d = pv.debit_account_id@;
    let c = pv.credit_account_id@;
    let a1 = st.accounts.insert(d, st2.accounts[d]);
    lemma_account_update(st.accounts, d, st2.accounts[d]);
    assert(a1[c] == st.accounts[c]);
    lemma_account_update(a1, c, st2.accounts[c]);
    assert(st2.accounts =~= a1.insert(c, st2.accounts[c]));
    let t1 = st.transfers.insert(pending_id@, with_state(p, TransferState::Posted));
    let settlement = st2.transfers[post_transfer_id@];
    assert(st2.transfers =~= t1.insert(post_transfer_id@, settlement));
    assert forall|acct: u128| #[trigger] st2.accounts.contains_key(acct) implies {
        &&& st2.accounts[acct].balance.debits_pending@ == held_debits(st2.transfers, acct)
        &&& st2.accounts[acct].balance.credits_pending@ == held_credits(st2.transfers, acct)
    } by {
        lemma_transfer_update(st.transfers, pending_id@, with_state(p, TransferState::Posted), acct);
        lemma_transfer_insert(t1, post_transfer_id@, settlement, acct);
    }
    assert forall|k: u128| #[trigger] st2.transfers.contains_key(k) implies {
        let x = st2.transfers[k]@;
        &&& x.id@ == k
        &&& st2.accounts.contains_key(x.debit_account_id@)
        &&& st2.accounts.contains_key(x.credit_account_id@)
        &&& x.debit_account_id@ != x.credit_account_id@
        &&& x.amount@ > 0
        &&& (x.state != TransferState::Posted ==> x.pending_id is None)
        &&& (x.state == TransferState::Posted && x.pending_id is Some) ==> {
            &&& st2.transfers.contains_key(x.pending_id->0@)
            &&& st2.transfers[x.pending_id->0@]@.state == TransferState::Posted
        }
    } by {
        if k != post_transfer_id@ && k != pending_id@ {
            let x = st.transfers[k]@;
            if x.state == TransferState::Posted && x.pending_id is Some {
                assert(st.transfers.contains_key(x.pending_id->0@));
            }
        }
    }
    lemma_transfer_update(st.transfers, pending_id@, with_state(p, TransferState::Posted), 0);
    lemma_transfer_insert(t1, post_transfer_id@, settlement, 0);
}

/// Voiding a hold keeps the state well formed.
#[verifier::rlimit(50)]
pub proof fn lemma_void_pending_wf(scale: Scale, st: LedgerState, pending_id: TransferId, ts: u64)
    requires
        state_wf(scale, st),
        spec_void_pending(st, pending_id, ts) is Ok,
    ensures
        state_wf(scale, spec_void_pending(st, pending_id, ts)->Ok_0),
{
    let st2 = spec_void_pending(st, pending_id, ts)->Ok_0;
    let p = st.transfers[pending_id@];
    let pv = p@;
    let d = pv.debit_account_id@;
    let c = pv.credit_account_id@;
    let a1 = st.accounts.insert(d, st2.accounts[d]);
    lemma_account_update(st.accounts, d, st2.accounts[d]);
    assert(a1[c] == st.accounts[c]);
    lemma_account_update(a1, c, st2.accounts[c]);
    assert(st2.accounts =~= a1.insert(c, st2.accounts[c]));
    assert forall|acct: u128| #[trigger] st2.accounts.contains_key(acct) implies {
        &&& st2.accounts[acct].balance.debits_pending@ == held_debits(st2.transfers, acct)
        &&& st2.accounts[acct].balance.credits_pending@ == held_credits(st2.transfers, acct)
    } by {
        lemma_transfer_update(st.transfers, pending_id@, with_state(p, TransferState::Voided), acct);
    }
    assert forall|k: u128| #[trigger] st2.transfers.contains_key(k) implies {
        let x = st2.transfers[k]@;
        &&& x.id@ == k
        &&& st2.accounts.contains_key(x.debit_account_id@)
        &&& st2.accounts.contains_key(x.credit_account_id@)
        &&& x.debit_account_id@ != x.credit_account_id@
        &&& x.amount@ > 0
        &&& (x.state != TransferState::Posted ==> x.pending_id is None)
        &&& (x.state == TransferState::Posted && x.pending_id is Some) ==> {
            &&& st2.transfers.contains_key(x.pending_id->0@)
            &&& st2.transfers[x.pending_id->0@]@.state == TransferState::Posted
        }
    } by {
        if k != pending_id@ {
            let x = st.transfers[k]@;
            if x.state == TransferState::Posted && x.pending_id is Some {
                assert(st.transfers.contains_key(x.pending_id->0@));
            }
        }
    }
    lemma_transfer_update(st.transfers, pending_id@, with_state(p, TransferState::Voided), 0);
}

/// Applying any journal event to a well-formed state gives a well-formed state.
pub proof fn lemma_apply_event_wf(scale: Scale, st: LedgerState, e: LedgerEvent)
    requires
        state_wf(scale, st),
        spec_apply_event(scale, st, e) is Ok,
    ensures
        state_wf(scale, spec_apply_event(scale, st, e)->Ok_0),
{
    match e {
        LedgerEvent::AccountCreated { id, account_type, flags, scale: s, timestamp } => {
            lemma_create_account_wf(scale, st, id, account_type, flags, s, timestamp);
        },
        LedgerEvent::AccountClosed { id, timestamp } => {
            lemma_close_account_wf(scale, st, id, timestamp);
        },
        LedgerEvent::TransferPosted { transfer } => {
            lemma_create_transfer_wf(scale, st, transfer);
        },
        LedgerEvent::TransferPendingCreated { transfer } => {
            lemma_create_pending_wf(scale, st, transfer);
        },
        LedgerEvent::TransferPendingPosted { pending_id, post_transfer_id, amount, timestamp } => {
            lemma_post_pending_wf(scale, st, pending_id, post_transfer_id, amount, timestamp);
        },
        LedgerEvent::TransferPendingVoided { pending_id, amount, timestamp } => {
            lemma_void_pending_wf(scale, st, pending_id, timestamp);
        },
    }
}


/// Every state that replaying a journal produces is well formed: each
/// transfer names existing, distinct accounts, each account's pending
/// balances are exactly its pending holds, and total debits equal total
/// credits, posted and pending alike.
pub proof fn lemma_replay_wf(scale: Scale, events: Seq<LedgerEvent>)
    requires
        spec_replay(scale, events) is Ok,
    ensures
        state_wf(scale, spec_replay(scale, events)->Ok_0),
    decreases events.len(),
{
    if events.len() == 0 {
        let st = empty_state();
        assert(st.accounts.dom() =~= Set::<u128>::empty());
        assert(st.transfers.dom() =~= Set::<u128>::empty());
    } else {
        lemma_replay_wf(scale, events.drop_last());
        lemma_apply_event_wf(scale, spec_replay(scale, events.drop_last())->Ok_0, events.last());
    }
}

} // verus!
