//! The balance limits that account flags impose, and why every ledger keeps
//! them.

use vstd::prelude::*;

use crate::ledger_core::account::Account;
use crate::ledger_core::amount::{Scale, group_amount};
use crate::ledger_core::id::group_id;
use crate::ledger_core::journal::LedgerEvent;
use crate::ledger_core::ledger::Ledger;
use crate::ledger_core::model::{
    LedgerState,
    empty_state,
    spec_apply_event,
    spec_close_account,
    spec_create_account,
    spec_create_pending,
    spec_create_transfer,
    spec_post_pending,
    spec_replay,
    spec_void_pending,
};
use crate::ledger_core::transfer::group_transfer;

verus! {

broadcast use {group_amount, group_id, group_transfer};

/// An account keeps the limits its flags set: with
/// `credits_must_not_exceed_debits`, its posted and held credits together
/// stay within its posted debits; with `debits_must_not_exceed_credits`, its
/// posted and held debits together stay within its posted credits.
pub open spec fn within_limits(a: Account) -> bool {
    &&& a.flags.credits_must_not_exceed_debits ==> a.balance.credits_posted@ + a.balance.credits_pending@
        <= a.balance.debits_posted@
    &&& a.flags.debits_must_not_exceed_credits ==> a.balance.debits_posted@ + a.balance.debits_pending@
        <= a.balance.credits_posted@
}

/// Every account of the state keeps its limits.
pub open spec fn limits_hold(st: LedgerState) -> bool {
    forall|k: u128| #[trigger] st.accounts.contains_key(k) ==> within_limits(st.accounts[k])
}

/// Every operation that a journal records keeps the limits.
proof fn lemma_event_keeps_limits(scale: Scale, st: LedgerState, e: LedgerEvent)
    requires
        limits_hold(st),
        spec_apply_event(scale, st, e) is Ok,
    ensures
        limits_hold(spec_apply_event(scale, st, e)->Ok_0),
{
    let st2 = spec_apply_event(scale, st, e)->Ok_0;
    match e {
        LedgerEvent::AccountCreated { id, account_type, flags, scale: s, timestamp } => {
            assert(spec_create_account(scale, st, id, account_type, flags, s, timestamp) is Ok);
            assert forall|k: u128| #[trigger] st2.accounts.contains_key(k) implies within_limits(st2.accounts[k]) by {
                if k != id@ {
                    assert(st.accounts.contains_key(k));
                }
            }
        },
        LedgerEvent::AccountClosed { id, timestamp } => {
            assert(spec_close_account(st, id, timestamp) is Ok);
            assert forall|k: u128| #[trigger] st2.accounts.contains_key(k) implies within_limits(st2.accounts[k]) by {
                assert(st.accounts.contains_key(k));
            }
        },
        LedgerEvent::TransferPosted { transfer } => {
            assert(spec_create_transfer(st, transfer) is Ok);
            let d = transfer@.debit_account_id@;
            let c = transfer@.credit_account_id@;
            assert forall|k: u128| #[trigger] st2.accounts.contains_key(k) implies within_limits(st2.accounts[k]) by {
                assert(st.accounts.contains_key(k));
                assert(within_limits(st.accounts[k]));
            }
        },
        LedgerEvent::TransferPendingCreated { transfer } => {
            assert(spec_create_pending(st, transfer) is Ok);
            assert forall|k: u128| #[trigger] st2.accounts.contains_key(k) implies within_limits(st2.accounts[k]) by {
                assert(st.accounts.contains_key(k));
                assert(within_limits(st.accounts[k]));
            }
        },
        LedgerEvent::TransferPendingPosted { pending_id, post_transfer_id, amount, timestamp } => {
            assert(spec_post_pending(st, pending_id, post_transfer_id, amount, timestamp) is Ok);
            assert forall|k: u128| #[trigger] st2.accounts.contains_key(k) implies within_limits(st2.accounts[k]) by {
                assert(st.accounts.contains_key(k));
                assert(within_limits(st.accounts[k]));
            }
        },
        LedgerEvent::TransferPendingVoided { pending_id, amount, timestamp } => {
            assert(spec_void_pending(st, pending_id, timestamp) is Ok);
            assert forall|k: u128| #[trigger] st2.accounts.contains_key(k) implies within_limits(st2.accounts[k]) by {
                assert(st.accounts.contains_key(k));
                assert(within_limits(st.accounts[k]));
            }
        },
    }
}

/// Every state that a journal replays to keeps the limits.
proof fn lemma_replay_keeps_limits(scale: Scale, events: Seq<LedgerEvent>)
    requires
        spec_replay(scale, events) is Ok,
    ensures
        limits_hold(spec_replay(scale, events)->Ok_0),
    decreases events.len(),
{
    if events.len() == 0 {
        assert(limits_hold(empty_state()));
    } else {
        lemma_replay_keeps_limits(scale, events.drop_last());
        lemma_event_keeps_limits(scale, spec_replay(scale, events.drop_last())->Ok_0, events.last());
    }
}

/// Every ledger keeps each account within the limits its flags set: an
/// account whose credits must not exceed its debits has posted plus held
/// credits at most its posted debits, and one whose debits must not exceed
/// its credits has posted plus held debits at most its posted credits.
/// A transfer or hold that would break a limit is refused, so once the
/// holds post, credits (or debits) still do not exceed the other side.
pub proof fn law_balance_limits_hold(ledger: &Ledger)
    requires
        ledger.wf(),
    ensures
        forall|k: u128| #[trigger] ledger@.state.accounts.contains_key(k) ==> within_limits(ledger@.state.accounts[k]),
{
    ledger.lemma_view_wf();
    lemma_replay_keeps_limits(ledger@.scale, ledger@.journal);
}

} // verus!
