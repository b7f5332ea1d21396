//! Ingestion errors: messages, cloning and status codes.

use trustledger::ingest::error::{IngestError, StatusCode};
use trustledger::ingest::queue::{allocate_timestamp, allocate_timestamp_at, IngestOp, TargetEntity};
use trustledger::ledger_core::account::{AccountFlags, AccountType};
use trustledger::ledger_core::amount::{Amount, Scale};
use trustledger::ledger_core::error::LedgerError;
use trustledger::ledger_core::id::{AccountId, TransferId};
use trustledger::ledger_core::ledger::BatchOp;
use trustledger::ledger_core::transfer::TransferState;

#[test]
fn ingest_error_is_cloneable() {
    let err = IngestError::Wal("disk full".into());
    let cloned = err.clone();
    assert_eq!(err.to_string(), cloned.to_string());
}

#[test]
fn status_code_mappings() {
    assert_eq!(IngestError::QueueSaturated.status().0, StatusCode::ResourceExhausted);
    assert_eq!(IngestError::ChannelClosed.status().0, StatusCode::Unavailable);
    assert_eq!(IngestError::InvalidInput("bad input".into()).status().0, StatusCode::InvalidArgument);
    assert_eq!(IngestError::Wal("wal disk fail".into()).status().0, StatusCode::Internal);
    assert_eq!(IngestError::Codec("codec error".into()).status().0, StatusCode::Internal);
    assert_eq!(IngestError::Internal("internal crash".into()).status().0, StatusCode::Internal);

    assert_eq!(
        IngestError::Ledger(LedgerError::InsufficientFunds {
            account_id: AccountId::new(1),
            available: Amount::new(0),
            requested: Amount::new(100),
        })
        .status()
        .0,
        StatusCode::FailedPrecondition
    );
    assert_eq!(
        IngestError::Ledger(LedgerError::AccountNotFound(AccountId::new(1))).status().0,
        StatusCode::NotFound
    );
    assert_eq!(
        IngestError::Ledger(LedgerError::AccountAlreadyExists(AccountId::new(1))).status().0,
        StatusCode::AlreadyExists
    );
    assert_eq!(
        IngestError::Ledger(LedgerError::AccountClosed(AccountId::new(1))).status().0,
        StatusCode::FailedPrecondition
    );
    assert_eq!(
        IngestError::Ledger(LedgerError::InvalidTransferState {
            id: TransferId::new(1),
            expected: TransferState::Pending,
            actual: TransferState::Posted,
        })
        .status()
        .0,
        StatusCode::FailedPrecondition
    );
    assert_eq!(
        IngestError::Ledger(LedgerError::DebitCreditAccountSame(AccountId::new(1))).status().0,
        StatusCode::InvalidArgument
    );
    assert_eq!(
        IngestError::Ledger(LedgerError::ArithmeticOverflow).status().0,
        StatusCode::OutOfRange
    );
}

#[test]
fn messages_match_the_error_contents() {
    assert_eq!(IngestError::Wal("disk full".into()).to_string(), "write-ahead log error: disk full");
    assert_eq!(
        IngestError::Ledger(LedgerError::AccountNotFound(AccountId::new(42))).to_string(),
        "ledger error: account not found: 42"
    );
    assert_eq!(
        LedgerError::InvalidTransferState {
            id: TransferId::new(7),
            expected: TransferState::Pending,
            actual: TransferState::Voided,
        }
        .to_string(),
        "transfer 7 is in invalid state: expected Pending, actual Voided"
    );
    assert_eq!(
        LedgerError::ScaleMismatch { expected: Scale::usdc(), actual: Scale::usd() }.to_string(),
        "scale mismatch: expected 10^-6, actual 10^-2"
    );
    assert_eq!(
        LedgerError::TimestampBehindPrior { timestamp: 5, last: 9 }.to_string(),
        "timestamp 5 is behind the prior event timestamp 9"
    );
    let (code, message) = IngestError::Ledger(LedgerError::TransferNotFound(TransferId::new(3))).status();
    assert_eq!(code, StatusCode::NotFound);
    assert_eq!(message, "transfer not found: 3");
    assert_eq!(IngestError::ChannelClosed.status().1, "ingress engine queue closed");
}

#[test]
fn explicit_timestamps_are_kept_and_raise_the_watermark() {
    let mut watermark = 10;
    assert_eq!(allocate_timestamp_at(5, 0, &mut watermark), 5);
    assert_eq!(watermark, 10);
    assert_eq!(allocate_timestamp_at(20, 0, &mut watermark), 20);
    assert_eq!(watermark, 20);
}

#[test]
fn allocated_timestamps_move_past_the_watermark() {
    let mut watermark = 100;
    assert_eq!(allocate_timestamp_at(0, 50, &mut watermark), 101);
    assert_eq!(watermark, 101);
    assert_eq!(allocate_timestamp_at(0, 500, &mut watermark), 500);
    assert_eq!(watermark, 500);
    let mut top = u64::MAX;
    assert_eq!(allocate_timestamp_at(0, 3, &mut top), u64::MAX);
    let mut wm = 7;
    let ts = allocate_timestamp(0, &mut wm);
    assert!(ts > 7);
    assert_eq!(wm, ts);
}

#[test]
fn ingest_ops_become_batch_ops() {
    let op = IngestOp::CreateAccount {
        id: AccountId::new(1),
        account_type: AccountType::Asset,
        flags: AccountFlags::bank_asset(),
        scale: Scale::usdc(),
        timestamp: 9,
    };
    assert_eq!(op.target(), TargetEntity::Account(AccountId::new(1)));
    let mut watermark = 3;
    let batch_op = op.into_batch_op(&mut watermark).unwrap();
    assert_eq!(watermark, 9);
    assert!(matches!(batch_op, BatchOp::CreateAccount { timestamp: 9, .. }));

    let bad = IngestOp::CreateTransfer {
        id: TransferId::new(5),
        debit_account_id: AccountId::new(1),
        credit_account_id: AccountId::new(1),
        amount: Amount::new(10),
        timestamp: 4,
    };
    assert_eq!(bad.target(), TargetEntity::Transfer(TransferId::new(5)));
    let err = bad.into_batch_op(&mut watermark).unwrap_err();
    assert!(matches!(err, IngestError::Ledger(LedgerError::DebitCreditAccountSame(_))));

    let post = IngestOp::PostPending {
        pending_id: TransferId::new(2),
        post_transfer_id: TransferId::new(3),
        amount: Amount::new(1),
        timestamp: 11,
    };
    assert_eq!(post.target(), TargetEntity::Transfer(TransferId::new(3)));
}
