//! Converting ingress requests from the wire and replies back onto it.

use trustledger::ingest::batch::MutationResult;
use trustledger::ingest::engine::{keep_collecting, EngineConfig};
use trustledger::ingest::error::IngestError;
use trustledger::ingest::queue::IngestOp;
use trustledger::ingest::requests::{
    account_reply, account_type_from_wire, batch_ops_from_wire, create_account_op, move_funds_op, scale_from_wire,
    transfer_reply, void_pending_op, WireAccountFlags, WireAccountType, WireCreateAccount, WireMoveFunds,
    WireOperation, WireTransferState, WireVoidPending,
};
use trustledger::ingest::wire::WireAmount;
use trustledger::ledger_core::account::{Account, AccountFlags, AccountType};
use trustledger::ledger_core::amount::{Amount, Scale};
use trustledger::ledger_core::error::LedgerError;
use trustledger::ledger_core::id::{AccountId, TransferId};
use trustledger::ledger_core::transfer::Transfer;

fn invalid(err: IngestError) -> String {
    match err {
        IngestError::InvalidInput(msg) => msg,
        other => panic!("unexpected {other:?}"),
    }
}

fn account_request(account_type: Option<WireAccountType>, scale: u32) -> WireCreateAccount {
    WireCreateAccount { id: 7, account_type, flags: None, scale, timestamp: 12 }
}

#[test]
fn account_requests_convert_or_name_the_fault() {
    let op = create_account_op(account_request(Some(WireAccountType::Liability), 6)).unwrap();
    assert_eq!(
        op,
        IngestOp::CreateAccount {
            id: AccountId::new(7),
            account_type: AccountType::Liability,
            flags: AccountFlags::default(),
            scale: Scale::usdc(),
            timestamp: 12,
        }
    );
    let unknown = create_account_op(account_request(Some(WireAccountType::Unspecified), 6)).unwrap_err();
    assert_eq!(invalid(unknown), "unknown or unspecified account type");
    assert_eq!(invalid(account_type_from_wire(None).unwrap_err()), "unknown or unspecified account type");
    assert_eq!(invalid(scale_from_wire(256).unwrap_err()), "scale exceeds u8 limit");
    assert!(matches!(scale_from_wire(19).unwrap_err(), IngestError::Ledger(LedgerError::InvalidScale(19))));

    let flagged = WireCreateAccount {
        flags: Some(WireAccountFlags {
            debits_must_not_exceed_credits: true,
            credits_must_not_exceed_debits: false,
            is_closed: false,
        }),
        ..account_request(Some(WireAccountType::Asset), 6)
    };
    match create_account_op(flagged).unwrap() {
        IngestOp::CreateAccount { flags, .. } => assert!(flags.debits_must_not_exceed_credits),
        other => panic!("unexpected {other:?}"),
    }
}

#[test]
fn fund_movements_convert_into_transfers_or_holds() {
    let req = WireMoveFunds {
        id: 9,
        debit_account_id: 1,
        credit_account_id: 2,
        amount: Some(WireAmount { units: 250, scale: 0, units_high: 0 }),
        timestamp: 0,
    };
    assert_eq!(
        move_funds_op(Scale::usdc(), req, true).unwrap(),
        IngestOp::CreatePending {
            id: TransferId::new(9),
            debit_account_id: AccountId::new(1),
            credit_account_id: AccountId::new(2),
            amount: Amount::new(250),
            timestamp: 0,
        }
    );
    let missing = WireMoveFunds { amount: None, ..req };
    assert_eq!(invalid(move_funds_op(Scale::usdc(), missing, false).unwrap_err()), "amount is required");
    assert_eq!(
        void_pending_op(WireVoidPending { pending_id: 4, timestamp: 3 }),
        IngestOp::VoidPending { pending_id: TransferId::new(4), timestamp: 3 }
    );
}

#[test]
fn batch_requests_stop_at_the_first_bad_entry() {
    let good = Some(WireOperation::VoidPending(WireVoidPending { pending_id: 1, timestamp: 0 }));
    let ops = batch_ops_from_wire(Scale::usdc(), &vec![good, good]).unwrap();
    assert_eq!(ops.len(), 2);
    let bad_type = Some(WireOperation::CreateAccount(account_request(None, 6)));
    let err = batch_ops_from_wire(Scale::usdc(), &vec![good, None, bad_type]).unwrap_err();
    assert_eq!(invalid(err), "empty batch operation");
    let err = batch_ops_from_wire(Scale::usdc(), &vec![good, bad_type, None]).unwrap_err();
    assert_eq!(invalid(err), "unknown or unspecified account type");
}

#[test]
fn replies_carry_records_in_wire_form() {
    let mut account = Account::new(AccountId::new((1u128 << 64) + 5), AccountType::Revenue, AccountFlags::default(), Scale::usdc());
    account.balance.credits_posted = Amount::new((3u128 << 64) + 1);
    let wire = account_reply(MutationResult::Account(account)).unwrap();
    assert_eq!(wire.id, 5);
    assert_eq!(wire.account_type, WireAccountType::Revenue);
    assert_eq!(wire.scale, 6);
    let credits = wire.balance.unwrap().credits_posted.unwrap();
    assert_eq!((credits.units_high, credits.units, credits.scale), (3, 1, 6));

    let transfer =
        Transfer::new_pending(TransferId::new(11), AccountId::new(1), AccountId::new(2), Amount::new(40), 8).unwrap();
    let wire = transfer_reply(MutationResult::Transfer(transfer.clone()), Scale::usdc()).unwrap();
    assert_eq!(wire.id, 11);
    assert_eq!(wire.state, WireTransferState::Pending);
    assert_eq!(wire.pending_id, None);
    assert_eq!(wire.amount.unwrap().units, 40);

    match transfer_reply(MutationResult::Account(account), Scale::usdc()) {
        Err(IngestError::Internal(msg)) => assert_eq!(msg, "unexpected mutation result"),
        other => panic!("unexpected {other:?}"),
    }
    assert!(matches!(account_reply(MutationResult::Transfer(transfer)), Err(IngestError::Internal(_))));
}

#[test]
fn engine_collects_until_the_batch_is_full_or_the_deadline_passes() {
    let config = EngineConfig::default();
    assert_eq!(config.max_batch_size, 512);
    assert!(keep_collecting(1, &config, false));
    assert!(keep_collecting(511, &config, false));
    assert!(!keep_collecting(512, &config, false));
    assert!(!keep_collecting(1, &config, true));
}
