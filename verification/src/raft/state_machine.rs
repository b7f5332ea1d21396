//! Applying committed client requests to the ledger.

use vstd::prelude::*;

use crate::ledger_core::journal::LedgerEvent;
use crate::ledger_core::laws::law_prepared_events_commit;
use crate::ledger_core::ledger::{Ledger, LedgerView};
use crate::ledger_core::message::ledger_error_message;
use crate::ledger_core::amount::Scale;
use crate::ledger_core::model::{
    LedgerState,
    spec_close_account,
    spec_create_account,
    spec_create_pending,
    spec_create_transfer,
    spec_post_pending,
    spec_prepare,
    spec_replay,
    spec_run_ops,
    spec_void_pending,
};
use crate::ledger_core::error::LedgerError;
use crate::ledger_core::text::{push_char, push_decimal, spec_decimal};
use crate::ledger_core::message::push_str;
use crate::ingest::queue::clock_reading;
use crate::raft::log::{EntryPayload, LogEntry, LogPosition, StoredMembership, StoredMembershipView};
use crate::raft::types::{RaftClientError, RaftRequest, RaftResponse, request_ops};

verus! {

/// The response a successfully applied request gets, given the events its
/// batch recorded.
pub open spec fn spec_response(req: RaftRequest, events: Seq<LedgerEvent>) -> RaftResponse {
    match req {
        RaftRequest::CreateAccount { id, .. } => RaftResponse::AccountCreated(id),
        RaftRequest::CreateTransfer(t) => RaftResponse::TransferCreated(t@.id),
        RaftRequest::CreatePending(t) => RaftResponse::PendingCreated(t@.id),
        RaftRequest::PostPending { post_transfer_id, .. } => RaftResponse::PendingPosted(post_transfer_id),
        RaftRequest::VoidPending { pending_id, .. } => RaftResponse::PendingVoided(pending_id),
        RaftRequest::CloseAccount { id, .. } => RaftResponse::AccountClosed(id),
        RaftRequest::ApplyBatch(_) => RaftResponse::Blank,
    }
}

/// The ledger after a committed request: the state its operations produce,
/// with their events journaled, or unchanged when they fail.
pub open spec fn spec_after_request(v: LedgerView, req: RaftRequest) -> LedgerView {
    match spec_prepare(v.scale, v.state, request_ops(req)) {
        Ok(evs) => LedgerView {
            state: spec_run_ops(v.scale, v.state, request_ops(req))->Ok_0.0,
            journal: v.journal + evs,
            ..v
        },
        Err(_) => v,
    }
}

/// Whether `r` is the answer to applying `req` to a ledger with view `v`:
/// the response naming what was created or changed (for a batch, the events
/// it recorded), or the ledger's error message.
pub open spec fn is_request_outcome(v: LedgerView, req: RaftRequest, r: Result<RaftResponse, RaftClientError>) -> bool {
    match spec_prepare(v.scale, v.state, request_ops(req)) {
        Ok(evs) => {
            &&& r is Ok
            &&& match r->Ok_0 {
                RaftResponse::BatchApplied(recorded) => req is ApplyBatch && recorded@ == evs,
                resp => !(req is ApplyBatch) && resp == spec_response(req, evs),
            }
        },
        Err(e) => r matches Err(RaftClientError::Ledger(m)) && m@ == ledger_error_message(e),
    }
}

/// Apply one committed request: prepare its operations, then commit the
/// events they produce.
///
/// On success the ledger holds the state the operations produce and the
/// response names what was created or changed (for a batch, the events it
/// recorded); on failure the ledger is unchanged and the error carries the
/// ledger's message.
pub fn apply_single_request(ledger: &mut Ledger, request: RaftRequest) -> (r: Result<RaftResponse, RaftClientError>)
    requires
        old(ledger).wf(),
    ensures
        final(ledger).wf(),
        final(ledger)@ == spec_after_request(old(ledger)@, request),
        is_request_outcome(old(ledger)@, request, r),
{
    let ghost start = ledger@;
    let ghost ops = request_ops(request);
    let is_batch = match &request {
        RaftRequest::ApplyBatch(_) => true,
        _ => false,
    };
    let response = match &request {
        RaftRequest::CreateAccount { id, .. } => RaftResponse::AccountCreated(*id),
        RaftRequest::CreateTransfer(t) => RaftResponse::TransferCreated(t.id()),
        RaftRequest::CreatePending(t) => RaftResponse::PendingCreated(t.id()),
        RaftRequest::PostPending { post_transfer_id, .. } => RaftResponse::PendingPosted(*post_transfer_id),
        RaftRequest::VoidPending { pending_id, .. } => RaftResponse::PendingVoided(*pending_id),
        RaftRequest::CloseAccount { id, .. } => RaftResponse::AccountClosed(*id),
        RaftRequest::ApplyBatch(_) => RaftResponse::Blank,
    };
    let ghost req = request;
    let batch = request.into_ops();
    let events = match ledger.prepare_batch(batch.as_slice()) {
        Ok(evs) => evs,
        Err(e) => return Err(RaftClientError::from_ledger(e)),
    };
    proof {
        law_prepared_events_commit(start.scale, start.state, ops);
    }
    if let Err(e) = ledger.commit_events(events.as_slice()) {
        return Err(RaftClientError::from_ledger(e));
    }
    if is_batch {
        Ok(RaftResponse::BatchApplied(events))
    } else {
        Ok(response)
    }
}

/// The ledger after an entry: a client request is applied; blank and
/// membership entries leave it as it is.
pub open spec fn ledger_after_entry(v: LedgerView, e: LogEntry<EntryPayload>) -> LedgerView {
    match e.payload {
        EntryPayload::Normal(req) => spec_after_request(v, req),
        _ => v,
    }
}

/// The ledger after the entries, applied in order.
pub open spec fn ledger_after_entries(v: LedgerView, s: Seq<LogEntry<EntryPayload>>) -> LedgerView
    decreases s.len(),
{
    if s.len() == 0 {
        v
    } else {
        ledger_after_entry(ledger_after_entries(v, s.drop_last()), s.last())
    }
}

/// Whether `r` answers entry `e` applied to a ledger with view `v`: a client
/// request gets its request's answer, any other entry a blank response.
pub open spec fn is_entry_outcome(
    v: LedgerView,
    e: LogEntry<EntryPayload>,
    r: Result<RaftResponse, RaftClientError>,
) -> bool {
    match e.payload {
        EntryPayload::Normal(req) => is_request_outcome(v, req, r),
        _ => r == Ok::<RaftResponse, RaftClientError>(RaftResponse::Blank),
    }
}

/// The membership in force after the entries: the last membership entry
/// among them, with its position, or `m` when there is none.
pub open spec fn membership_after_entries(m: StoredMembershipView, s: Seq<LogEntry<EntryPayload>>) -> StoredMembershipView
    decreases s.len(),
{
    if s.len() == 0 {
        m
    } else {
        match s.last().payload {
            EntryPayload::Membership(mm) => StoredMembershipView { log_id: Some(s.last().log_id), voters: mm@ },
            _ => membership_after_entries(m, s.drop_last()),
        }
    }
}

/// The milliseconds a clock reading gives: its nanoseconds divided by a
/// million, or `0` when the clock reads before the epoch.
pub fn millis_of_reading(reading: Option<u128>) -> (r: u128)
    ensures
        r == match reading {
            Some(n) => n / 1_000_000,
            None => 0,
        },
{
    match reading {
        Some(n) => n / 1_000_000,
        None => 0,
    }
}

/// The name a snapshot gets: the index of the last applied entry (`0` when
/// none was applied), a hyphen, and the time in milliseconds.
pub open spec fn spec_snapshot_id(last: Option<LogPosition>, millis: u128) -> Seq<char> {
    let index: u64 = match last {
        Some(p) => p.index,
        None => 0,
    };
    spec_decimal(index as nat) + seq!['-'] + spec_decimal(millis as nat)
}

/// What describes a snapshot: the last entry it covers, the membership in
/// force there, and its name.
#[derive(Debug)]
pub struct SnapshotMeta {
    /// Position of the last entry the snapshot covers.
    pub last_log_id: Option<LogPosition>,
    /// Membership in force at that entry.
    pub last_membership: StoredMembership,
    /// Name of the snapshot.
    pub snapshot_id: String,
}

/// What snapshot metadata holds.
pub struct SnapshotMetaView {
    /// Position of the last entry the snapshot covers.
    pub last_log_id: Option<LogPosition>,
    /// Membership in force at that entry.
    pub last_membership: StoredMembershipView,
    /// Name of the snapshot.
    pub snapshot_id: Seq<char>,
}

impl View for SnapshotMeta {
    type V = SnapshotMetaView;

    open spec fn view(&self) -> SnapshotMetaView {
        SnapshotMetaView {
            last_log_id: self.last_log_id,
            last_membership: self.last_membership@,
            snapshot_id: self.snapshot_id@,
        }
    }
}

impl Clone for SnapshotMeta {
    fn clone(&self) -> (r: Self)
        ensures
            r@ == self@,
    {
        SnapshotMeta {
            last_log_id: self.last_log_id,
            last_membership: self.last_membership.clone(),
            snapshot_id: self.snapshot_id.clone(),
        }
    }
}

/// What a snapshot carries: the currency scale and the journal, from which
/// the ledger is rebuilt.
#[derive(Debug)]
pub struct SnapshotPayload {
    /// Currency decimal scale of the ledger.
    pub scale: Scale,
    /// The ledger's journal.
    pub journal: Vec<LedgerEvent>,
}

/// A snapshot in progress: its metadata and its payload.
#[derive(Debug)]
pub struct LedgerSnapshotBuilder {
    /// What describes the snapshot.
    pub meta: SnapshotMeta,
    /// What the snapshot carries.
    pub payload: SnapshotPayload,
}

/// A snapshot the state machine holds: its metadata and its encoded bytes.
#[derive(Debug)]
pub struct StoredSnapshot {
    /// What describes the snapshot.
    pub meta: SnapshotMeta,
    /// The encoded payload.
    pub data: Vec<u8>,
}

/// Why a snapshot could not be installed.
#[derive(Clone, Debug, PartialEq, Eq)]
pub enum SnapshotError {
    /// The snapshot's journal does not replay.
    Replay(String),
}

/// The message of a failed journal replay.
pub open spec fn replay_failure_message(e: crate::ledger_core::error::LedgerError) -> Seq<char> {
    "failed to replay snapshot journal: "@ + ledger_error_message(e)
}

/// The replicated state machine: the ledger, the last applied position, the
/// membership in force and the snapshot installed last.
#[derive(Debug)]
pub struct LedgerStateMachine {
    ledger: Ledger,
    last_applied_log_id: Option<LogPosition>,
    last_membership: StoredMembership,
    current_snapshot: Option<StoredSnapshot>,
}

/// What the state machine holds.
pub struct MachineView {
    /// The ledger.
    pub ledger: LedgerView,
    /// Position of the last applied entry.
    pub last_applied_log_id: Option<LogPosition>,
    /// Membership in force.
    pub last_membership: StoredMembershipView,
    /// Metadata and bytes of the snapshot installed last.
    pub current_snapshot: Option<(SnapshotMetaView, Seq<u8>)>,
}

impl View for LedgerStateMachine {
    type V = MachineView;

    closed spec fn view(&self) -> MachineView {
        MachineView {
            ledger: self.ledger@,
            last_applied_log_id: self.last_applied_log_id,
            last_membership: self.last_membership@,
            current_snapshot: match self.current_snapshot {
                Some(s) => Some((s.meta@, s.data@)),
                None => None,
            },
        }
    }
}

impl LedgerStateMachine {
    /// The ledger inside is well formed.
    pub closed spec fn wf(&self) -> bool {
        self.ledger.wf()
    }

    /// A state machine with an empty ledger of the given scale, nothing
    /// applied, no membership and no snapshot.
    pub fn new(scale: Scale) -> (r: Self)
        ensures
            r.wf(),
            r@.ledger == (LedgerView { scale, state: crate::ledger_core::model::empty_state(), journal: Seq::empty() }),
            r@.last_applied_log_id == None::<LogPosition>,
            r@.last_membership == (StoredMembershipView { log_id: None, voters: Seq::empty() }),
            r@.current_snapshot is None,
    {
        LedgerStateMachine {
            ledger: Ledger::new(scale),
            last_applied_log_id: None,
            last_membership: StoredMembership::empty(),
            current_snapshot: None,
        }
    }

    /// The ledger, for reading.
    pub fn read_ledger(&self) -> (r: &Ledger)
        requires
            self.wf(),
        ensures
            r.wf(),
            r@ == self@.ledger,
    {
        &self.ledger
    }

    /// Position of the last applied entry.
    pub fn last_applied_log_id(&self) -> (r: Option<LogPosition>)
        ensures
            r == self@.last_applied_log_id,
    {
        self.last_applied_log_id
    }

    /// Position of the last applied entry and the membership in force.
    pub fn applied_state(&self) -> (r: (Option<LogPosition>, StoredMembership))
        ensures
            r.0 == self@.last_applied_log_id,
            r.1@ == self@.last_membership,
    {
        (self.last_applied_log_id, self.last_membership.clone())
    }

    /// Apply committed entries in order, answering each: a client request is
    /// applied to the ledger, a membership entry becomes the membership in
    /// force, and every entry becomes the last applied one.
    pub fn apply(&mut self, entries: Vec<LogEntry<EntryPayload>>) -> (r: Vec<Result<RaftResponse, RaftClientError>>)
        requires
            old(self).wf(),
        ensures
            final(self).wf(),
            final(self)@.ledger == ledger_after_entries(old(self)@.ledger, entries@),
            r@.len() == entries@.len(),
            forall|i: int|
                0 <= i < entries@.len() ==> is_entry_outcome(
                    ledger_after_entries(old(self)@.ledger, entries@.take(i)),
                    entries@[i],
                    #[trigger] r@[i],
                ),
            final(self)@.last_applied_log_id == (if entries@.len() == 0 {
                old(self)@.last_applied_log_id
            } else {
                Some(entries@.last().log_id)
            }),
            final(self)@.last_membership == membership_after_entries(old(self)@.last_membership, entries@),
            final(self)@.current_snapshot == old(self)@.current_snapshot,
    {
        let ghost all = entries@;
        let ghost start = self@;
        let mut responses: Vec<Result<RaftResponse, RaftClientError>> = Vec::new();
        for entry in it: entries
            invariant
                self.wf(),
                it.seq() == all,
                self@.ledger == ledger_after_entries(start.ledger, all.take(it.index() as int)),
                responses@.len() == it.index(),
                forall|i: int|
                    0 <= i < responses@.len() ==> is_entry_outcome(
                        ledger_after_entries(start.ledger, all.take(i)),
                        all[i],
                        #[trigger] responses@[i],
                    ),
                self@.last_applied_log_id == (if it.index() == 0 {
                    start.last_applied_log_id
                } else {
                    Some(all[it.index() - 1].log_id)
                }),
                self@.last_membership == membership_after_entries(start.last_membership, all.take(it.index() as int)),
                self@.current_snapshot == start.current_snapshot,
        {
            let ghost j = it.index() as int;
            let ghost before = self@.ledger;
            proof {
                assert(all.take(j + 1).drop_last() == all.take(j));
                assert(all.take(j + 1).last() == all[j]);
            }
            self.last_applied_log_id = Some(entry.log_id);
            match entry.payload {
                EntryPayload::Blank => {
                    responses.push(Ok(RaftResponse::Blank));
                },
                EntryPayload::Membership(membership) => {
                    self.last_membership = StoredMembership { log_id: Some(entry.log_id), membership };
                    responses.push(Ok(RaftResponse::Blank));
                },
                EntryPayload::Normal(request) => {
                    let result = apply_single_request(&mut self.ledger, request);
                    responses.push(result);
                },
            }
            proof {
                assert(responses@[j] == responses@.last());
            }
        }
        proof {
            assert(all.take(all.len() as int) == all);
        }
        responses
    }

    /// A snapshot of the applied state taken at time `now_millis`: its
    /// metadata names the last applied entry and the membership in force,
    /// its payload carries the ledger's scale and journal.
    pub fn snapshot_builder_at(&self, now_millis: u128) -> (r: LedgerSnapshotBuilder)
        requires
            self.wf(),
        ensures
            r.meta@.last_log_id == self@.last_applied_log_id,
            r.meta@.last_membership == self@.last_membership,
            r.meta@.snapshot_id == spec_snapshot_id(self@.last_applied_log_id, now_millis),
            r.payload.scale == self@.ledger.scale,
            r.payload.journal@ == self@.ledger.journal,
    {
        let index: u64 = match self.last_applied_log_id {
            Some(p) => p.index,
            None => 0,
        };
        let mut snapshot_id = String::new();
        push_decimal(&mut snapshot_id, index as u128);
        push_char(&mut snapshot_id, '-');
        push_decimal(&mut snapshot_id, now_millis);
        let source = self.ledger.journal();
        let mut journal: Vec<LedgerEvent> = Vec::new();
        let mut i: usize = 0;
        while i < source.len()
            invariant
                0 <= i <= source@.len(),
                journal@ == source@.take(i as int),
            decreases source@.len() - i,
        {
            journal.push(source[i].clone());
            i = i + 1;
            assert(journal@ =~= source@.take(i as int));
        }
        assert(journal@ =~= source@);
        LedgerSnapshotBuilder {
            meta: SnapshotMeta {
                last_log_id: self.last_applied_log_id,
                last_membership: self.last_membership.clone(),
                snapshot_id,
            },
            payload: SnapshotPayload { scale: self.ledger.scale(), journal },
        }
    }

    /// A snapshot of the applied state, named with the wall clock's reading
    /// in milliseconds; otherwise as [`Self::snapshot_builder_at`].
    pub fn get_snapshot_builder(&self) -> (r: LedgerSnapshotBuilder)
        requires
            self.wf(),
        ensures
            r.meta@.last_log_id == self@.last_applied_log_id,
            r.meta@.last_membership == self@.last_membership,
            exists|millis: u128| r.meta@.snapshot_id == spec_snapshot_id(self@.last_applied_log_id, millis),
            r.payload.scale == self@.ledger.scale,
            r.payload.journal@ == self@.ledger.journal,
    {
        let millis = millis_of_reading(clock_reading());
        self.snapshot_builder_at(millis)
    }

    /// Replace the state with a snapshot: the ledger is rebuilt by replaying
    /// the payload's journal, and the snapshot's metadata gives the last
    /// applied entry and the membership. When the journal does not replay,
    /// nothing changes and the replay error is reported.
    pub fn install_snapshot(&mut self, meta: SnapshotMeta, data: Vec<u8>, payload: SnapshotPayload) -> (r: Result<(), SnapshotError>)
        requires
            old(self).wf(),
        ensures
            final(self).wf(),
            match spec_replay(payload.scale, payload.journal@) {
                Ok(st) => {
                    &&& r is Ok
                    &&& final(self)@ == (MachineView {
                        ledger: LedgerView { scale: payload.scale, state: st, journal: payload.journal@ },
                        last_applied_log_id: meta@.last_log_id,
                        last_membership: meta@.last_membership,
                        current_snapshot: Some((meta@, data@)),
                    })
                },
                Err(e) => {
                    &&& final(self)@ == old(self)@
                    &&& r matches Err(SnapshotError::Replay(m)) && m@ == replay_failure_message(e)
                },
            },
    {
        match Ledger::replay(payload.scale, payload.journal.as_slice()) {
            Ok(ledger) => {
                self.ledger = ledger;
                self.last_applied_log_id = meta.last_log_id;
                self.last_membership = meta.last_membership.clone();
                self.current_snapshot = Some(StoredSnapshot { meta, data });
                Ok(())
            },
            Err(e) => {
                let mut message = String::new();
                push_str(&mut message, "failed to replay snapshot journal: ");
                let detail = e.to_string();
                push_str(&mut message, detail.as_str());
                Err(SnapshotError::Replay(message))
            },
        }
    }

    /// The snapshot installed last, if any.
    pub fn get_current_snapshot(&self) -> (r: Option<&StoredSnapshot>)
        ensures
            match r {
                Some(s) => self@.current_snapshot == Some((s.meta@, s.data@)),
                None => self@.current_snapshot is None,
            },
    {
        match &self.current_snapshot {
            Some(s) => Some(s),
            None => None,
        }
    }
}

/// Applying committed entries in two rounds leaves the ledger and the
/// membership as applying them all at once.
pub proof fn law_apply_in_rounds(
    v: LedgerView,
    m: StoredMembershipView,
    first: Seq<LogEntry<EntryPayload>>,
    second: Seq<LogEntry<EntryPayload>>,
)
    ensures
        ledger_after_entries(v, first + second) == ledger_after_entries(ledger_after_entries(v, first), second),
        membership_after_entries(m, first + second) == membership_after_entries(
            membership_after_entries(m, first),
            second,
        ),
    decreases second.len(),
{
    if second.len() == 0 {
        assert(first + second == first);
    } else {
        law_apply_in_rounds(v, m, first, second.drop_last());
        assert((first + second).drop_last() == first + second.drop_last());
        assert((first + second).last() == second.last());
    }
}

/// A snapshot carries the journal of the ledger it was taken from, and that
/// journal replays to the ledger's state: installing it rebuilds the ledger.
pub proof fn law_snapshot_journal_replays(machine: &LedgerStateMachine)
    requires
        machine.wf(),
    ensures
        spec_replay(machine@.ledger.scale, machine@.ledger.journal) == Ok::<
            crate::ledger_core::model::LedgerState,
            crate::ledger_core::error::LedgerError,
        >(machine@.ledger.state),
{
    machine.ledger.lemma_view_wf();
}

/// What the direct ledger call of the same kind and fields does to a state:
/// creating or closing an account, creating a transfer or a hold, posting
/// or voiding a hold. A batch request has no single direct call.
pub open spec fn direct_call(scale: Scale, st: LedgerState, req: RaftRequest) -> Option<Result<LedgerState, LedgerError>> {
    match req {
        RaftRequest::CreateAccount { id, account_type, flags, scale: s, timestamp } => Some(
            spec_create_account(scale, st, id, account_type, flags, s, timestamp),
        ),
        RaftRequest::CreateTransfer(t) => Some(spec_create_transfer(st, t)),
        RaftRequest::CreatePending(t) => Some(spec_create_pending(st, t)),
        RaftRequest::PostPending { pending_id, post_transfer_id, amount, timestamp } => Some(
            spec_post_pending(st, pending_id, post_transfer_id, amount, timestamp),
        ),
        RaftRequest::VoidPending { pending_id, timestamp } => Some(spec_void_pending(st, pending_id, timestamp)),
        RaftRequest::CloseAccount { id, timestamp } => Some(spec_close_account(st, id, timestamp)),
        RaftRequest::ApplyBatch(_) => None,
    }
}

/// A replicated request changes the ledger exactly as the direct ledger
/// call of the same kind and fields does: when that call succeeds, the
/// replicated ledger reaches the same state and journals one event; when it
/// fails, the replicated ledger is unchanged.
pub proof fn law_request_matches_direct_call(v: LedgerView, req: RaftRequest)
    requires
        !(req is ApplyBatch),
    ensures
        match direct_call(v.scale, v.state, req) {
            Some(Ok(st)) => {
                &&& spec_after_request(v, req).state == st
                &&& spec_after_request(v, req).scale == v.scale
                &&& spec_after_request(v, req).journal.len() == v.journal.len() + 1
                &&& spec_after_request(v, req).journal.take(v.journal.len() as int) == v.journal
            },
            Some(Err(_)) => spec_after_request(v, req) == v,
            None => false,
        },
{
    let ops = request_ops(req);
    assert(ops.len() == 1);
    assert(ops.drop_last() =~= Seq::<crate::ledger_core::ledger::BatchOp>::empty());
    let op = ops.last();
    assert(spec_run_ops(v.scale, v.state, ops.drop_last()) == Ok::<
        (LedgerState, Seq<LedgerEvent>),
        LedgerError,
    >((v.state, Seq::empty())));
    let direct = direct_call(v.scale, v.state, req)->0;
    assert(direct is Ok ==> crate::ledger_core::model::spec_op_lookups(v.state, op) is None);
    assert(crate::ledger_core::model::spec_op_effect(v.scale, v.state, op) == direct);
    if let Ok(evs) = spec_prepare(v.scale, v.state, ops) {
        assert((v.journal + evs).take(v.journal.len() as int) =~= v.journal);
    }
}

} // verus!
