//! The decisions of one micro-batch of the single-writer engine: converting
//! the drained commands, preparing them speculatively against the ledger,
//! committing what succeeded, and answering each command.
//!
//! The engine around it drains the queue, persists the prepared events to the
//! write-ahead log between preparing and committing, and sends the answers.

use vstd::prelude::*;

use crate::ingest::error::IngestError;
use crate::ingest::queue::{IngestOp, TargetEntity, requested_timestamp, spec_allocate, spec_batch_op};
use crate::ledger_core::account::Account;
use crate::ledger_core::error::LedgerError;
use crate::ledger_core::id::{AccountId, TransferId};
use crate::ledger_core::journal::LedgerEvent;
use crate::ledger_core::ledger::{BatchOp, Ledger, LedgerView, results_view, txs_view};
use crate::ledger_core::model::{spec_commit, spec_prepare_transactions};
use crate::ledger_core::transfer::Transfer;

verus! {

/// A command drained from the ingress queue, without the channel that its
/// answer goes back on.
#[derive(Clone, Debug)]
pub enum IngestCommand {
    /// A single mutation, answered with the entity it created or changed.
    Mutate(IngestOp),
    /// Mutations applied atomically, answered with their count.
    ApplyBatch(Vec<IngestOp>),
    /// Read an account.
    GetAccount(AccountId),
    /// Read a transfer.
    GetTransfer(TransferId),
}

/// Result returned to the caller upon successful execution of a single mutation.
#[derive(Clone, Debug)]
pub enum MutationResult {
    /// The account created.
    Account(Account),
    /// The transfer created or changed.
    Transfer(Transfer),
}

/// What became of a command while the batch was converted.
#[derive(Clone, Debug)]
pub enum CommandSlot {
    /// It became the transaction at this position.
    Transaction(usize),
    /// It was rejected before reaching the ledger.
    Rejected(IngestError),
    /// It only reads, after the batch is committed.
    Query,
}

/// A converted batch: a slot per command and the transactions to prepare.
pub struct ConvertedBatch {
    /// One slot per command, in order.
    pub slots: Vec<CommandSlot>,
    /// The transactions, in order.
    pub txs: Vec<Vec<BatchOp>>,
}

/// A prepared batch: a slot per command and, per transaction, its events or
/// the ledger's rejection.
pub struct BatchPlan {
    /// One slot per command, in order.
    pub slots: Vec<CommandSlot>,
    /// One result per transaction, in order.
    pub results: Vec<Result<Vec<LedgerEvent>, LedgerError>>,
}

/// Converting operations in order with the clock readings `nows`, stopping at
/// the first one that fails: the batch operations or that failure, and the
/// watermark afterwards.
pub open spec fn spec_convert_ops(ops: Seq<IngestOp>, nows: Seq<u64>, watermark: u64) -> (
    Result<Seq<BatchOp>, IngestError>,
    u64,
)
    decreases ops.len(),
{
    if ops.len() == 0 {
        (Ok(Seq::empty()), watermark)
    } else {
        let (r, w) = spec_convert_ops(ops.drop_last(), nows.take(ops.len() - 1), watermark);
        match r {
            Err(e) => (Err(e), w),
            Ok(bs) => {
                let (ts, w2) = spec_allocate(requested_timestamp(ops.last()), nows[ops.len() - 1], w);
                match spec_batch_op(ops.last(), ts) {
                    Ok(b) => (Ok(bs.push(b)), w2),
                    Err(e) => (Err(e), w2),
                }
            },
        }
    }
}

/// Converting commands in order, command `i` reading the clock values
/// `clocks[i]`: the slots, the transactions and the watermark afterwards.
pub open spec fn spec_convert_commands(cmds: Seq<IngestCommand>, clocks: Seq<Seq<u64>>, watermark: u64) -> (
    Seq<CommandSlot>,
    Seq<Seq<BatchOp>>,
    u64,
)
    decreases cmds.len(),
{
    if cmds.len() == 0 {
        (Seq::empty(), Seq::empty(), watermark)
    } else {
        let (slots, txs, w) = spec_convert_commands(cmds.drop_last(), clocks.take(cmds.len() - 1), watermark);
        let nows = clocks[cmds.len() - 1];
        match cmds.last() {
            IngestCommand::Mutate(op) => {
                let (ts, w2) = spec_allocate(requested_timestamp(op), nows[0], w);
                match spec_batch_op(op, ts) {
                    Ok(b) => (slots.push(CommandSlot::Transaction(txs.len() as usize)), txs.push(seq![b]), w2),
                    Err(e) => (slots.push(CommandSlot::Rejected(e)), txs, w2),
                }
            },
            IngestCommand::ApplyBatch(ops) => {
                let (r, w2) = spec_convert_ops(ops@, nows, w);
                match r {
                    Ok(bs) => (slots.push(CommandSlot::Transaction(txs.len() as usize)), txs.push(bs), w2),
                    Err(e) => (slots.push(CommandSlot::Rejected(e)), txs, w2),
                }
            },
            _ => (slots.push(CommandSlot::Query), txs, w),
        }
    }
}

/// Convert operations in order, allocating their timestamps against the
/// watermark and stopping at the first one that fails.
pub fn convert_ops(ops: &[IngestOp], watermark: &mut u64) -> (r: Result<Vec<BatchOp>, IngestError>)
    ensures
        exists|nows: Seq<u64>|
            nows.len() == ops@.len() && #[trigger] spec_convert_ops(ops@, nows, *old(watermark)) == (
                match r {
                    Ok(v) => Ok(v@),
                    Err(e) => Err(e),
                },
                *final(watermark),
            ),
{
    let ghost start = *watermark;
    let ghost mut nows: Seq<u64> = Seq::empty();
    let mut out: Vec<BatchOp> = Vec::new();
    let mut i: usize = 0;
    while i < ops.len()
        invariant
            i <= ops@.len(),
            nows.len() == i,
            start == *old(watermark),
            spec_convert_ops(ops@.take(i as int), nows, start) == (Ok::<Seq<BatchOp>, IngestError>(out@), *watermark),
        decreases ops@.len() - i,
    {
        let ghost w = *watermark;
        let op = ops[i];
        let converted = op.into_batch_op(watermark);
        let ghost now = choose|now: u64|
            #[trigger] spec_allocate(requested_timestamp(op), now, w).1 == *watermark && converted
                == spec_batch_op(op, spec_allocate(requested_timestamp(op), now, w).0);
        proof {
            let prefix = ops@.take(i as int + 1);
            assert(prefix.drop_last() =~= ops@.take(i as int));
            assert(nows.push(now).take(i as int) =~= nows);
            nows = nows.push(now);
        }
        match converted {
            Ok(b) => out.push(b),
            Err(e) => {
                proof {
                    lemma_convert_ops_stops(ops@, nows, start, i as int + 1);
                    let more = nows + Seq::new((ops@.len() - (i + 1)) as nat, |j: int| 0u64);
                    assert(more.take(i as int + 1) =~= nows);
                    assert(more.len() == ops@.len());
                    assert(spec_convert_ops(ops@, more, start) == (Err::<Seq<BatchOp>, IngestError>(e), *watermark));
                }
                return Err(e);
            },
        }
        i += 1;
    }
    proof {
        assert(ops@.take(ops@.len() as int) =~= ops@);
    }
    Ok(out)
}

/// Convert the commands of a batch in order, allocating timestamps against
/// the watermark: each mutation becomes a transaction unless its conversion
/// fails, which rejects it; reads wait for the commit.
pub fn convert_commands(commands: &[IngestCommand], watermark: &mut u64) -> (r: ConvertedBatch)
    ensures
        exists|clocks: Seq<Seq<u64>>|
            clocks.len() == commands@.len() && #[trigger] spec_convert_commands(commands@, clocks, *old(watermark)) == (
                r.slots@,
                txs_view(r.txs@),
                *final(watermark),
            ),
{
    let ghost start = *watermark;
    let ghost mut clocks: Seq<Seq<u64>> = Seq::empty();
    let mut slots: Vec<CommandSlot> = Vec::new();
    let mut txs: Vec<Vec<BatchOp>> = Vec::new();
    let mut i: usize = 0;
    while i < commands.len()
        invariant
            i <= commands@.len(),
            clocks.len() == i,
            start == *old(watermark),
            spec_convert_commands(commands@.take(i as int), clocks, start) == (slots@, txs_view(txs@), *watermark),
        decreases commands@.len() - i,
    {
        let ghost w = *watermark;
        let ghost before_slots = slots@;
        let ghost before_txs = txs@;
        let ghost mut nows: Seq<u64> = Seq::empty();
        match &commands[i] {
            IngestCommand::Mutate(op) => {
                let op = *op;
                let converted = op.into_batch_op(watermark);
                let ghost now = choose|now: u64|
                    #[trigger] spec_allocate(requested_timestamp(op), now, w).1 == *watermark && converted
                        == spec_batch_op(op, spec_allocate(requested_timestamp(op), now, w).0);
                proof {
                    nows = seq![now];
                }
                match converted {
                    Ok(b) => {
                        slots.push(CommandSlot::Transaction(txs.len()));
                        let mut tx: Vec<BatchOp> = Vec::new();
                        tx.push(b);
                        txs.push(tx);
                    },
                    Err(e) => {
                        slots.push(CommandSlot::Rejected(e));
                    },
                }
            },
            IngestCommand::ApplyBatch(ops) => {
                let converted = convert_ops(ops.as_slice(), watermark);
                proof {
                    nows = choose|nows: Seq<u64>|
                        nows.len() == ops@.len() && #[trigger] spec_convert_ops(ops@, nows, w) == (
                            match converted {
                                Ok(v) => Ok(v@),
                                Err(e) => Err(e),
                            },
                            *watermark,
                        );
                }
                match converted {
                    Ok(bs) => {
                        slots.push(CommandSlot::Transaction(txs.len()));
                        txs.push(bs);
                    },
                    Err(e) => {
                        slots.push(CommandSlot::Rejected(e));
                    },
                }
            },
            IngestCommand::GetAccount(_) => {
                slots.push(CommandSlot::Query);
            },
            IngestCommand::GetTransfer(_) => {
                slots.push(CommandSlot::Query);
            },
        }
        proof {
            let prefix = commands@.take(i as int + 1);
            assert(prefix.drop_last() =~= commands@.take(i as int));
            assert(clocks.push(nows).take(i as int) =~= clocks);
            assert(txs_view(before_txs.push(txs@.last())) =~= txs_view(before_txs).push(txs@.last()@)) by {
                if txs@.len() > before_txs.len() {
                    assert(before_txs.push(txs@.last()) =~= txs@);
                }
            }
            clocks = clocks.push(nows);
        }
        i += 1;
    }
    proof {
        assert(commands@.take(commands@.len() as int) =~= commands@);
    }
    ConvertedBatch { slots, txs }
}

/// Preparing a converted batch: the slots and, per transaction, its events
/// or the ledger's rejection.
pub open spec fn spec_plan(view: LedgerView, cmds: Seq<IngestCommand>, clocks: Seq<Seq<u64>>) -> (
    Seq<CommandSlot>,
    Seq<Result<Seq<LedgerEvent>, LedgerError>>,
) {
    let (slots, txs, w) = spec_convert_commands(cmds, clocks, view.state.last_timestamp);
    (slots, spec_prepare_transactions(view.scale, view.state, txs).1)
}

/// The events of the successful transactions, in order.
pub open spec fn prepared_events(results: Seq<Result<Seq<LedgerEvent>, LedgerError>>) -> Seq<LedgerEvent>
    decreases results.len(),
{
    if results.len() == 0 {
        Seq::empty()
    } else {
        prepared_events(results.drop_last()) + match results.last() {
            Ok(evs) => evs,
            Err(_) => Seq::empty(),
        }
    }
}

/// Convert the commands of a micro-batch and prepare their transactions
/// speculatively; the ledger is left unchanged.
///
/// Timestamps are allocated against the ledger's last timestamp, reading
/// the clock for commands that ask for one.
pub fn plan_batch(ledger: &mut Ledger, commands: &[IngestCommand]) -> (r: BatchPlan)
    requires
        old(ledger).wf(),
    ensures
        final(ledger).wf(),
        final(ledger)@ == old(ledger)@,
        exists|clocks: Seq<Seq<u64>>|
            clocks.len() == commands@.len() && #[trigger] spec_plan(old(ledger)@, commands@, clocks) == (
                r.slots@,
                results_view(r.results@),
            ),
{
    let mut watermark = ledger.last_timestamp();
    let ghost start = watermark;
    let converted = convert_commands(commands, &mut watermark);
    let ghost clocks = choose|clocks: Seq<Seq<u64>>|
        clocks.len() == commands@.len() && #[trigger] spec_convert_commands(commands@, clocks, start) == (
            converted.slots@,
            txs_view(converted.txs@),
            watermark,
        );
    let results = ledger.prepare_transactions(&converted.txs);
    let plan = BatchPlan { slots: converted.slots, results };
    proof {
        assert(spec_plan(old(ledger)@, commands@, clocks) == (plan.slots@, results_view(plan.results@)));
    }
    plan
}

/// Commit the events of every successful transaction of a plan, as one
/// atomic step.
///
/// Fails with the ledger's error, leaving the ledger as it was, when the
/// events no longer apply.
pub fn commit_plan(ledger: &mut Ledger, results: &[Result<Vec<LedgerEvent>, LedgerError>]) -> (r: Result<(), IngestError>)
    requires
        old(ledger).wf(),
    ensures
        final(ledger).wf(),
        match spec_commit(old(ledger)@.scale, old(ledger)@.state, prepared_events(results_view(results@))) {
            Ok(s) => r is Ok && final(ledger)@ == (LedgerView {
                state: s,
                journal: old(ledger)@.journal + prepared_events(results_view(results@)),
                ..old(ledger)@
            }),
            Err(e) => r == Err::<(), IngestError>(IngestError::Ledger(e)) && final(ledger)@ == old(ledger)@,
        },
{
    let mut events: Vec<LedgerEvent> = Vec::new();
    let mut i: usize = 0;
    while i < results.len()
        invariant
            i <= results@.len(),
            events@ == prepared_events(results_view(results@.take(i as int))),
        decreases results@.len() - i,
    {
        proof {
            assert(results_view(results@.take(i as int + 1)).drop_last() =~= results_view(results@.take(i as int)));
        }
        if let Ok(evs) = &results[i] {
            let ghost before = events@;
            let mut j: usize = 0;
            while j < evs.len()
                invariant
                    j <= evs@.len(),
                    events@ == before + evs@.take(j as int),
                decreases evs@.len() - j,
            {
                events.push(evs[j].clone());
                proof {
                    assert(evs@.take(j as int + 1) =~= evs@.take(j as int).push(evs@[j as int]));
                }
                j += 1;
            }
            proof {
                assert(evs@.take(evs@.len() as int) =~= evs@);
            }
        }
        proof {
            assert(events@ =~= prepared_events(results_view(results@.take(i as int + 1))));
        }
        i += 1;
    }
    proof {
        assert(results@.take(results@.len() as int) =~= results@);
    }
    match ledger.commit_events(&events) {
        Ok(()) => Ok(()),
        Err(e) => Err(IngestError::Ledger(e)),
    }
}

/// The answer sent back for a command.
#[derive(Debug)]
pub enum CommandAnswer {
    /// The answer to a single mutation.
    Mutation(Result<MutationResult, IngestError>),
    /// The answer to a batch of mutations: how many there were.
    Count(Result<u32, IngestError>),
    /// The answer to an account read.
    Account(Result<Account, IngestError>),
    /// The answer to a transfer read.
    Transfer(Result<Transfer, IngestError>),
}

/// Reading an account from the ledger.
pub open spec fn spec_read_account(view: LedgerView, id: AccountId) -> Result<Account, IngestError> {
    if view.state.accounts.contains_key(id@) {
        Ok(view.state.accounts[id@])
    } else {
        Err(IngestError::Ledger(LedgerError::AccountNotFound(id)))
    }
}

/// Reading a transfer from the ledger.
pub open spec fn spec_read_transfer(view: LedgerView, id: TransferId) -> Result<Transfer, IngestError> {
    if view.state.transfers.contains_key(id@) {
        Ok(view.state.transfers[id@])
    } else {
        Err(IngestError::Ledger(LedgerError::TransferNotFound(id)))
    }
}

/// Reading the entity a mutation targeted.
pub open spec fn spec_read_target(view: LedgerView, target: TargetEntity) -> Result<MutationResult, IngestError> {
    match target {
        TargetEntity::Account(id) => match spec_read_account(view, id) {
            Ok(a) => Ok(MutationResult::Account(a)),
            Err(e) => Err(e),
        },
        TargetEntity::Transfer(id) => match spec_read_transfer(view, id) {
            Ok(t) => Ok(MutationResult::Transfer(t)),
            Err(e) => Err(e),
        },
    }
}

/// How a mutation fared: rejected before the ledger, rejected by it, failed
/// to persist or commit with the batch, or committed.
pub open spec fn spec_outcome(
    slot: CommandSlot,
    results: Seq<Result<Seq<LedgerEvent>, LedgerError>>,
    committed: Result<(), IngestError>,
) -> Result<(), IngestError> {
    match slot {
        CommandSlot::Rejected(e) => Err(e),
        CommandSlot::Transaction(k) => match results[k as int] {
            Err(le) => Err(IngestError::Ledger(le)),
            Ok(_) => committed,
        },
        CommandSlot::Query => Ok(()),
    }
}

/// The answer to a command, given its slot, the prepared results, how the
/// batch's persistence and commit went, and the ledger afterwards.
pub open spec fn spec_answer(
    view: LedgerView,
    cmd: IngestCommand,
    slot: CommandSlot,
    results: Seq<Result<Seq<LedgerEvent>, LedgerError>>,
    committed: Result<(), IngestError>,
) -> CommandAnswer {
    match cmd {
        IngestCommand::Mutate(op) => CommandAnswer::Mutation(
            match spec_outcome(slot, results, committed) {
                Err(e) => Err(e),
                Ok(_) => spec_read_target(view, crate::ingest::queue::spec_target(op)),
            },
        ),
        IngestCommand::ApplyBatch(ops) => CommandAnswer::Count(
            match spec_outcome(slot, results, committed) {
                Err(e) => Err(e),
                Ok(_) => Ok(ops@.len() as u32),
            },
        ),
        IngestCommand::GetAccount(id) => CommandAnswer::Account(spec_read_account(view, id)),
        IngestCommand::GetTransfer(id) => CommandAnswer::Transfer(spec_read_transfer(view, id)),
    }
}

/// Read an account, as the engine answers a read.
pub fn read_account(ledger: &Ledger, id: AccountId) -> (r: Result<Account, IngestError>)
    ensures
        r == spec_read_account(ledger@, id),
{
    match ledger.get_account(id) {
        Ok(a) => Ok(*a),
        Err(e) => Err(IngestError::Ledger(e)),
    }
}

/// Read a transfer, as the engine answers a read.
pub fn read_transfer(ledger: &Ledger, id: TransferId) -> (r: Result<Transfer, IngestError>)
    ensures
        r == spec_read_transfer(ledger@, id),
{
    match ledger.get_transfer(id) {
        Ok(t) => Ok(t.clone()),
        Err(e) => Err(IngestError::Ledger(e)),
    }
}

/// The answer to a command once its batch has been persisted and committed
/// (`committed` is how that went).
pub fn answer(
    ledger: &Ledger,
    command: &IngestCommand,
    slot: &CommandSlot,
    results: &[Result<Vec<LedgerEvent>, LedgerError>],
    committed: &Result<(), IngestError>,
) -> (r: CommandAnswer)
    requires
        (*slot is Query) == (*command is GetAccount || *command is GetTransfer),
        *slot matches CommandSlot::Transaction(k) ==> k < results@.len(),
    ensures
        r == spec_answer(ledger@, *command, *slot, results_view(results@), *committed),
{
    let ghost expected = spec_outcome(*slot, results_view(results@), *committed);
    let outcome: Result<(), IngestError> = match slot {
        CommandSlot::Rejected(e) => {
            let r = Err(e.clone());
            assert(r == expected);
            r
        },
        CommandSlot::Transaction(k) => {
            let kk: usize = *k;
            assert(results_view(results@)[kk as int] == match results@[kk as int] {
                Ok(v) => Ok(v@),
                Err(e) => Err(e),
            });
            match &results[kk] {
                Err(le) => {
                    let r = Err(IngestError::Ledger(le.clone()));
                    assert(r == expected);
                    r
                },
                Ok(_) => match committed {
                    Ok(u) => {
                        let r = Ok(*u);
                        assert(r == expected);
                        r
                    },
                    Err(e) => {
                        let r = Err(e.clone());
                        assert(r == expected);
                        r
                    },
                },
            }
        },
        CommandSlot::Query => {
            let r = Ok(());
            assert(r == expected);
            r
        },
    };
    assert(outcome == spec_outcome(*slot, results_view(results@), *committed));
    match command {
        IngestCommand::Mutate(op) => CommandAnswer::Mutation(
            match outcome {
                Err(e) => Err(e),
                Ok(()) => match op.target() {
                    TargetEntity::Account(id) => match read_account(ledger, id) {
                        Ok(a) => Ok(MutationResult::Account(a)),
                        Err(e) => Err(e),
                    },
                    TargetEntity::Transfer(id) => match read_transfer(ledger, id) {
                        Ok(t) => Ok(MutationResult::Transfer(t)),
                        Err(e) => Err(e),
                    },
                },
            },
        ),
        IngestCommand::ApplyBatch(ops) => CommandAnswer::Count(
            match outcome {
                Err(e) => Err(e),
                Ok(()) => Ok(#[verifier::truncate] (ops.len() as u32)),
            },
        ),
        IngestCommand::GetAccount(id) => CommandAnswer::Account(read_account(ledger, *id)),
        IngestCommand::GetTransfer(id) => CommandAnswer::Transfer(read_transfer(ledger, *id)),
    }
}

/// Once a conversion has failed, converting more operations changes nothing.
proof fn lemma_convert_ops_stops(ops: Seq<IngestOp>, nows: Seq<u64>, watermark: u64, k: int)
    requires
        0 <= k <= ops.len(),
        nows.len() == k,
        spec_convert_ops(ops.take(k), nows, watermark).0 is Err,
    ensures
        forall|more: Seq<u64>|
            more.len() == ops.len() && more.take(k) == nows ==> #[trigger] spec_convert_ops(ops, more, watermark)
                == spec_convert_ops(ops.take(k), nows, watermark),
    decreases ops.len(),
{
    assert forall|more: Seq<u64>|
        more.len() == ops.len() && more.take(k) == nows implies #[trigger] spec_convert_ops(ops, more, watermark)
        == spec_convert_ops(ops.take(k), nows, watermark) by {
        if k == ops.len() {
            assert(ops.take(k) =~= ops);
            assert(more =~= nows);
        } else {
            assert(ops.drop_last().take(k) =~= ops.take(k));
            lemma_convert_ops_stops(ops.drop_last(), nows, watermark, k);
            let shorter = more.take(ops.len() - 1);
            assert(shorter.take(k) =~= nows);
            assert(spec_convert_ops(ops.drop_last(), shorter, watermark) == spec_convert_ops(ops.take(k), nows, watermark));
        }
    }
}

} // verus!
