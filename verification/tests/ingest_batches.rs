//! Micro-batch decisions of the ingestion engine: conversion, speculative
//! preparation, commit and answers.

use trustledger::ingest::batch::{
    answer, commit_plan, convert_ops, plan_batch, CommandAnswer, CommandSlot, IngestCommand,
    MutationResult,
};
use trustledger::ingest::error::IngestError;
use trustledger::ingest::queue::IngestOp;
use trustledger::ledger_core::account::{AccountFlags, AccountType};
use trustledger::ledger_core::amount::{Amount, Scale};
use trustledger::ledger_core::codec::{ensure_fully_consumed, CodecError};
use trustledger::ledger_core::error::LedgerError;
use trustledger::ledger_core::id::{AccountId, TransferId};
use trustledger::ledger_core::ledger::{BatchOp, Ledger};

fn create_account(id: u128, ts: u64) -> IngestOp {
    IngestOp::CreateAccount {
        id: AccountId::new(id),
        account_type: AccountType::Asset,
        flags: AccountFlags::unrestricted(),
        scale: Scale::usdc(),
        timestamp: ts,
    }
}

fn transfer(id: u128, from: u128, to: u128, amount: u128, ts: u64) -> IngestOp {
    IngestOp::CreateTransfer {
        id: TransferId::new(id),
        debit_account_id: AccountId::new(from),
        credit_account_id: AccountId::new(to),
        amount: Amount::new(amount),
        timestamp: ts,
    }
}

#[test]
fn convert_ops_stops_at_first_invalid_operation() {
    let mut watermark = 5;
    let ops = [create_account(1, 7), transfer(9, 1, 1, 10, 8), create_account(2, 20)];
    let err = convert_ops(&ops, &mut watermark).unwrap_err();
    assert!(matches!(
        err,
        IngestError::Ledger(LedgerError::DebitCreditAccountSame(_))
    ));
    // The failing operation allocated its timestamp; the one after it did not.
    assert_eq!(watermark, 8);

    let mut watermark = 5;
    let ops = [create_account(1, 7), create_account(2, 3)];
    let converted = convert_ops(&ops, &mut watermark).unwrap();
    assert_eq!(converted.len(), 2);
    assert_eq!(watermark, 7);
    assert!(matches!(converted[1], BatchOp::CreateAccount { timestamp: 3, .. }));
}

#[test]
fn batch_plan_prepares_commits_and_answers() {
    let mut ledger = Ledger::new(Scale::usdc());
    let commands = vec![
        IngestCommand::Mutate(create_account(1, 10)),
        IngestCommand::ApplyBatch(vec![create_account(2, 11), transfer(100, 1, 2, 50, 12)]),
        IngestCommand::Mutate(create_account(1, 13)),
        IngestCommand::Mutate(transfer(101, 2, 2, 5, 14)),
        IngestCommand::GetAccount(AccountId::new(2)),
        IngestCommand::GetTransfer(TransferId::new(100)),
    ];
    let plan = plan_batch(&mut ledger, &commands);
    // Preparation leaves the ledger untouched.
    assert!(ledger.journal().is_empty());
    assert_eq!(plan.slots.len(), commands.len());
    assert!(matches!(plan.slots[0], CommandSlot::Transaction(0)));
    assert!(matches!(plan.slots[1], CommandSlot::Transaction(1)));
    assert!(matches!(plan.slots[2], CommandSlot::Transaction(2)));
    assert!(matches!(
        plan.slots[3],
        CommandSlot::Rejected(IngestError::Ledger(LedgerError::DebitCreditAccountSame(_)))
    ));
    assert!(matches!(plan.slots[4], CommandSlot::Query));
    assert_eq!(plan.results.len(), 3);
    assert_eq!(plan.results[0].as_ref().unwrap().len(), 1);
    assert_eq!(plan.results[1].as_ref().unwrap().len(), 2);
    assert!(matches!(
        plan.results[2],
        Err(LedgerError::AccountAlreadyExists(_))
    ));

    let committed = commit_plan(&mut ledger, &plan.results);
    assert!(committed.is_ok());
    assert_eq!(ledger.journal().len(), 3);

    let answers: Vec<CommandAnswer> = commands
        .iter()
        .zip(plan.slots.iter())
        .map(|(c, s)| answer(&ledger, c, s, &plan.results, &committed))
        .collect();
    match &answers[0] {
        CommandAnswer::Mutation(Ok(MutationResult::Account(a))) => {
            assert_eq!(a.id, AccountId::new(1));
            assert_eq!(a.balance.debits_posted.as_u128(), 50);
        }
        other => panic!("unexpected answer {other:?}"),
    }
    assert!(matches!(answers[1], CommandAnswer::Count(Ok(2))));
    assert!(matches!(
        answers[2],
        CommandAnswer::Mutation(Err(IngestError::Ledger(LedgerError::AccountAlreadyExists(_))))
    ));
    assert!(matches!(
        answers[3],
        CommandAnswer::Mutation(Err(IngestError::Ledger(LedgerError::DebitCreditAccountSame(_))))
    ));
    match &answers[4] {
        CommandAnswer::Account(Ok(a)) => assert_eq!(a.balance.credits_posted.as_u128(), 50),
        other => panic!("unexpected answer {other:?}"),
    }
    match &answers[5] {
        CommandAnswer::Transfer(Ok(t)) => assert_eq!(t.amount().as_u128(), 50),
        other => panic!("unexpected answer {other:?}"),
    }
}

#[test]
fn failed_persistence_is_reported_to_prepared_commands() {
    let mut ledger = Ledger::new(Scale::usdc());
    let commands = vec![IngestCommand::Mutate(create_account(1, 10))];
    let plan = plan_batch(&mut ledger, &commands);
    let failed: Result<(), IngestError> = Err(IngestError::Wal("disk full".to_string()));
    match answer(&ledger, &commands[0], &plan.slots[0], &plan.results, &failed) {
        CommandAnswer::Mutation(Err(IngestError::Wal(msg))) => assert_eq!(msg, "disk full"),
        other => panic!("unexpected answer {other:?}"),
    }
}

#[test]
fn stale_plan_is_refused_on_commit() {
    let mut ledger = Ledger::new(Scale::usdc());
    let commands = vec![IngestCommand::Mutate(create_account(1, 10))];
    let plan = plan_batch(&mut ledger, &commands);
    commit_plan(&mut ledger, &plan.results).unwrap();
    let again = commit_plan(&mut ledger, &plan.results).unwrap_err();
    assert!(matches!(
        again,
        IngestError::Ledger(LedgerError::AccountAlreadyExists(_))
    ));
    assert_eq!(ledger.journal().len(), 1);
}

#[test]
fn reads_of_missing_entities_fail() {
    let mut ledger = Ledger::new(Scale::usdc());
    let commands = vec![
        IngestCommand::GetAccount(AccountId::new(4)),
        IngestCommand::GetTransfer(TransferId::new(5)),
    ];
    let plan = plan_batch(&mut ledger, &commands);
    let ok: Result<(), IngestError> = Ok(());
    assert!(matches!(
        answer(&ledger, &commands[0], &plan.slots[0], &plan.results, &ok),
        CommandAnswer::Account(Err(IngestError::Ledger(LedgerError::AccountNotFound(_))))
    ));
    assert!(matches!(
        answer(&ledger, &commands[1], &plan.slots[1], &plan.results, &ok),
        CommandAnswer::Transfer(Err(IngestError::Ledger(LedgerError::TransferNotFound(_))))
    ));
}

#[test]
fn codec_rejects_trailing_bytes() {
    assert_eq!(ensure_fully_consumed(0), Ok(()));
    let err = ensure_fully_consumed(3).unwrap_err();
    assert_eq!(
        err,
        CodecError::Decode("unexpected trailing leftover bytes (3 bytes)".to_string())
    );
    assert_eq!(
        err.to_string(),
        "journal event bytes failed to decode: unexpected trailing leftover bytes (3 bytes)"
    );
    let wrapped = IngestError::from_codec(CodecError::Encode("boom".to_string()));
    assert_eq!(
        wrapped.to_string(),
        "codec error: journal event batch failed to encode: boom"
    );
}
