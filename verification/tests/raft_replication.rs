//! The replicated log store, the ledger state machine and the proposal
//! retry decisions.

use trustledger::ledger_core::account::{AccountFlags, AccountType};
use trustledger::ledger_core::amount::{Amount, Scale};
use trustledger::ledger_core::id::{AccountId, TransferId};
use trustledger::ledger_core::journal::LedgerEvent;
use trustledger::ledger_core::transfer::Transfer;
use trustledger::raft::cluster::{propose_step, AttemptOutcome, ProposeDecision};
use trustledger::raft::log::{EntryPayload, LogEntry, LogPosition, Membership, Vote};
use trustledger::raft::state_machine::{millis_of_reading, LedgerStateMachine, SnapshotError, SnapshotMeta, SnapshotPayload};
use trustledger::raft::storage::{IndexBound, MemLogStore};
use trustledger::raft::types::{RaftClientError, RaftRequest, RaftResponse};

fn pos(term: u64, index: u64) -> LogPosition {
    LogPosition { term, node_id: 1, index }
}

fn entry(term: u64, index: u64, tag: u32) -> LogEntry<u32> {
    LogEntry { log_id: pos(term, index), payload: tag }
}

fn indices(entries: &[LogEntry<u32>]) -> Vec<u64> {
    entries.iter().map(|e| e.log_id.index).collect()
}

#[test]
fn log_store_appends_and_reads_ranges_in_order() {
    let mut store: MemLogStore<u32> = MemLogStore::new();
    let state = store.get_log_state();
    assert_eq!(state.last_log_id, None);
    assert_eq!(state.last_purged_log_id, None);

    store.append(vec![entry(1, 3, 30), entry(1, 1, 10), entry(1, 2, 20)]);
    let all = store.entries_in_range(IndexBound::Unbounded, IndexBound::Unbounded);
    assert_eq!(indices(&all), vec![1, 2, 3]);
    assert_eq!(all[0].payload, 10);
    assert_eq!(store.get_log_state().last_log_id, Some(pos(1, 3)));

    let middle = store.entries_in_range(IndexBound::Excluded(1), IndexBound::Included(2));
    assert_eq!(indices(&middle), vec![2]);
    let tail = store.entries_in_range(IndexBound::Included(2), IndexBound::Excluded(10));
    assert_eq!(indices(&tail), vec![2, 3]);

    // A later entry at an index replaces the earlier one.
    store.append(vec![entry(2, 2, 99)]);
    let replaced = store.entries_in_range(IndexBound::Included(2), IndexBound::Included(2));
    assert_eq!(replaced[0].payload, 99);
    assert_eq!(replaced[0].log_id, pos(2, 2));
}

#[test]
fn log_store_truncates_and_purges() {
    let mut store: MemLogStore<u32> = MemLogStore::default();
    store.append(vec![entry(1, 1, 1), entry(1, 2, 2), entry(1, 3, 3), entry(1, 4, 4)]);

    store.truncate(pos(1, 3));
    let left = store.entries_in_range(IndexBound::Unbounded, IndexBound::Unbounded);
    assert_eq!(indices(&left), vec![1, 2]);
    assert_eq!(store.get_log_state().last_log_id, Some(pos(1, 2)));

    store.purge(pos(1, 1));
    let left = store.entries_in_range(IndexBound::Unbounded, IndexBound::Unbounded);
    assert_eq!(indices(&left), vec![2]);
    let state = store.get_log_state();
    assert_eq!(state.last_purged_log_id, Some(pos(1, 1)));
    assert_eq!(state.last_log_id, Some(pos(1, 2)));

    // With every entry purged, the log ends where the purge ended.
    store.purge(pos(1, 2));
    let state = store.get_log_state();
    assert_eq!(state.last_log_id, Some(pos(1, 2)));
    assert!(store.entries_in_range(IndexBound::Unbounded, IndexBound::Unbounded).is_empty());
}

#[test]
fn log_store_keeps_vote_and_committed_position() {
    let mut store: MemLogStore<u32> = MemLogStore::new();
    assert_eq!(store.read_vote(), None);
    let vote = Vote { term: 4, node_id: 2, committed: true };
    store.save_vote(vote);
    assert_eq!(store.read_vote(), Some(vote));
    store.save_committed(Some(pos(4, 7)));
    assert_eq!(store.read_committed(), Some(pos(4, 7)));
}

fn account_request(id: u128, account_type: AccountType, flags: AccountFlags) -> RaftRequest {
    RaftRequest::CreateAccount {
        id: AccountId::new(id),
        account_type,
        flags,
        scale: Scale::usdc(),
        timestamp: 1,
    }
}

fn normal(index: u64, request: RaftRequest) -> LogEntry<EntryPayload> {
    LogEntry { log_id: pos(1, index), payload: EntryPayload::Normal(request) }
}

fn funded_machine() -> LedgerStateMachine {
    let mut machine = LedgerStateMachine::new(Scale::usdc());
    let deposit = Transfer::new_immediate(
        TransferId::new(10),
        AccountId::new(1),
        AccountId::new(2),
        Amount::new(500),
        2,
    )
    .unwrap();
    let responses = machine.apply(vec![
        LogEntry { log_id: pos(1, 1), payload: EntryPayload::Blank },
        normal(2, account_request(1, AccountType::Asset, AccountFlags::bank_asset())),
        normal(3, account_request(2, AccountType::Liability, AccountFlags::customer())),
        LogEntry {
            log_id: pos(1, 4),
            payload: EntryPayload::Membership(Membership { voters: vec![1, 2, 3] }),
        },
        normal(5, RaftRequest::CreateTransfer(deposit)),
    ]);
    assert_eq!(responses.len(), 5);
    assert_eq!(responses[0], Ok(RaftResponse::Blank));
    assert_eq!(responses[1], Ok(RaftResponse::AccountCreated(AccountId::new(1))));
    assert_eq!(responses[2], Ok(RaftResponse::AccountCreated(AccountId::new(2))));
    assert_eq!(responses[3], Ok(RaftResponse::Blank));
    assert_eq!(responses[4], Ok(RaftResponse::TransferCreated(TransferId::new(10))));
    machine
}

#[test]
fn state_machine_applies_entries_in_order() {
    let mut machine = funded_machine();
    assert_eq!(machine.last_applied_log_id(), Some(pos(1, 5)));
    let (applied, membership) = machine.applied_state();
    assert_eq!(applied, Some(pos(1, 5)));
    assert_eq!(membership.log_id, Some(pos(1, 4)));
    assert_eq!(membership.membership.voters, vec![1, 2, 3]);
    let customer = machine.read_ledger().get_account(AccountId::new(2)).unwrap();
    assert_eq!(customer.balance.credits_posted, Amount::new(500));

    // A duplicate account is refused with the ledger's message; the entry
    // still counts as applied.
    let responses = machine.apply(vec![normal(6, account_request(1, AccountType::Asset, AccountFlags::bank_asset()))]);
    assert_eq!(responses, vec![Err(RaftClientError::Ledger("account already exists: 1".to_string()))]);
    assert_eq!(machine.last_applied_log_id(), Some(pos(1, 6)));
    assert_eq!(machine.read_ledger().journal().len(), 3);
}

#[test]
fn snapshot_rebuilds_the_ledger_elsewhere() {
    let machine = funded_machine();
    let builder = machine.snapshot_builder_at(1_700_000_000_123);
    assert_eq!(builder.meta.snapshot_id, "5-1700000000123");
    assert_eq!(builder.meta.last_log_id, Some(pos(1, 5)));
    assert_eq!(builder.payload.journal.len(), 3);

    let mut replica = LedgerStateMachine::new(Scale::usdc());
    let LedgerSnapshot { meta, payload } = split(builder);
    replica.install_snapshot(meta, vec![1, 2, 3], payload).unwrap();
    assert_eq!(replica.last_applied_log_id(), Some(pos(1, 5)));
    assert_eq!(replica.read_ledger().journal(), machine.read_ledger().journal());
    let customer = replica.read_ledger().get_account(AccountId::new(2)).unwrap();
    assert_eq!(customer.balance.credits_posted, Amount::new(500));
    let stored = replica.get_current_snapshot().unwrap();
    assert_eq!(stored.data, vec![1, 2, 3]);
    assert_eq!(stored.meta.snapshot_id, "5-1700000000123");
}

struct LedgerSnapshot {
    meta: SnapshotMeta,
    payload: SnapshotPayload,
}

fn split(builder: trustledger::raft::state_machine::LedgerSnapshotBuilder) -> LedgerSnapshot {
    LedgerSnapshot { meta: builder.meta, payload: builder.payload }
}

#[test]
fn snapshot_name_of_an_empty_machine_starts_at_zero() {
    let machine = LedgerStateMachine::new(Scale::usdc());
    assert_eq!(machine.snapshot_builder_at(42).meta.snapshot_id, "0-42");
    let live = machine.get_snapshot_builder();
    assert!(live.meta.snapshot_id.starts_with("0-"));
}

#[test]
fn snapshot_with_a_broken_journal_is_refused() {
    let mut machine = funded_machine();
    let created = LedgerEvent::AccountCreated {
        id: AccountId::new(1),
        account_type: AccountType::Asset,
        flags: AccountFlags::bank_asset(),
        scale: Scale::usdc(),
        timestamp: 1,
    };
    let payload = SnapshotPayload { scale: Scale::usdc(), journal: vec![created.clone(), created] };
    let meta = machine.snapshot_builder_at(0).meta;
    let err = machine.install_snapshot(meta, Vec::new(), payload).unwrap_err();
    assert_eq!(
        err,
        SnapshotError::Replay("failed to replay snapshot journal: account already exists: 1".to_string())
    );
    assert!(machine.get_current_snapshot().is_none());
    assert_eq!(machine.read_ledger().journal().len(), 3);
}

#[test]
fn proposals_retry_on_leadership_changes_and_give_up_after_ten_attempts() {
    assert!(matches!(propose_step(0, AttemptOutcome::NoLeader), ProposeDecision::Retry { retries: 1 }));
    let not_leader = AttemptOutcome::Answered(Err(RaftClientError::NotLeader { leader_id: Some(2) }));
    assert!(matches!(propose_step(3, not_leader), ProposeDecision::Retry { retries: 4 }));
    match propose_step(9, AttemptOutcome::NoLeader) {
        ProposeDecision::Finish(Err(RaftClientError::NotLeader { leader_id })) => assert_eq!(leader_id, None),
        other => panic!("unexpected {other:?}"),
    }
    let fatal = AttemptOutcome::Answered(Err(RaftClientError::Fatal("stopped".to_string())));
    assert!(matches!(propose_step(0, fatal), ProposeDecision::Finish(Err(RaftClientError::Fatal(_)))));
    let ok = AttemptOutcome::Answered(Ok(RaftResponse::Blank));
    assert!(matches!(propose_step(5, ok), ProposeDecision::Finish(Ok(RaftResponse::Blank))));
}

#[test]
fn clock_readings_become_timestamps_and_milliseconds() {
    assert_eq!(trustledger::ingest::queue::nanos_timestamp(Some((1u128 << 64) + 5)), 5);
    assert_eq!(trustledger::ingest::queue::nanos_timestamp(Some(42)), 42);
    assert_eq!(trustledger::ingest::queue::nanos_timestamp(None), 1);
    assert_eq!(millis_of_reading(Some(1_234_567_890)), 1_234);
    assert_eq!(millis_of_reading(None), 0);
}
