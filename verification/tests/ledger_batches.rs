//! Ledger batches: prepare, commit, rollback and per-transaction isolation.

use trustledger::ledger_core::account::{AccountFlags, AccountType};
use trustledger::ledger_core::amount::{Amount, Scale};
use trustledger::ledger_core::error::LedgerError;
use trustledger::ledger_core::id::{AccountId, TransferId};
use trustledger::ledger_core::journal::LedgerEvent;
use trustledger::ledger_core::ledger::{BatchOp, Ledger};
use trustledger::ledger_core::transfer::{Transfer, TransferState};

fn seeded() -> Ledger {
    let mut ledger = Ledger::new(Scale::usdc());
    ledger
        .create_account(
            AccountId::new(1),
            AccountType::Asset,
            AccountFlags::bank_asset(),
            Scale::usdc(),
            0,
        )
        .unwrap();
    ledger
        .create_account(
            AccountId::new(2),
            AccountType::Liability,
            AccountFlags::customer(),
            Scale::usdc(),
            0,
        )
        .unwrap();
    ledger
}

#[test]
fn create_transfer_rejects_link_to_missing_hold() {
    let mut ledger = seeded();
    let forged = Transfer::new_settlement(
        TransferId::new(9),
        AccountId::new(1),
        AccountId::new(2),
        Amount::new(10),
        TransferId::new(999),
        1,
    )
    .unwrap();

    assert_eq!(
        ledger.create_transfer(forged).unwrap_err(),
        LedgerError::PendingLinkMissing {
            transfer_id: TransferId::new(9),
            pending_id: TransferId::new(999),
        },
    );
}

#[test]
fn create_transfer_rejects_link_to_unposted_hold() {
    let mut ledger = seeded();
    let hold = Transfer::new_pending(
        TransferId::new(3),
        AccountId::new(1),
        AccountId::new(2),
        Amount::new(100),
        1,
    )
    .unwrap();
    ledger.create_pending(hold).unwrap();

    let forged = Transfer::new_settlement(
        TransferId::new(9),
        AccountId::new(1),
        AccountId::new(2),
        Amount::new(10),
        TransferId::new(3),
        2,
    )
    .unwrap();

    assert_eq!(
        ledger.create_transfer(forged).unwrap_err(),
        LedgerError::InvalidPendingLink {
            transfer_id: TransferId::new(9),
            pending_id: TransferId::new(3),
            actual: TransferState::Pending,
        },
    );
}

#[test]
fn commit_events_failure_rolls_back_the_whole_batch() {
    let mut ledger = seeded();
    let before = ledger.clone();
    let events = vec![
        LedgerEvent::TransferPosted {
            transfer: Transfer::new_immediate(
                TransferId::new(7),
                AccountId::new(1),
                AccountId::new(2),
                Amount::new(10),
                1,
            )
            .unwrap(),
        },
        LedgerEvent::TransferPosted {
            transfer: Transfer::new_immediate(
                TransferId::new(7),
                AccountId::new(1),
                AccountId::new(2),
                Amount::new(10),
                1,
            )
            .unwrap(),
        },
    ];

    assert!(ledger.commit_events(&events).is_err());
    assert_eq!(
        ledger, before,
        "failed commit must leave the ledger untouched"
    );
}

#[test]
fn prepare_batch_validates_without_persisting_state() {
    let mut ledger = seeded();
    let before = ledger.clone();
    let events = ledger
        .prepare_batch(&[BatchOp::Transfer(
            Transfer::new_immediate(
                TransferId::new(7),
                AccountId::new(1),
                AccountId::new(2),
                Amount::new(10),
                1,
            )
            .unwrap(),
        )])
        .unwrap();

    assert!(matches!(&events[..], [LedgerEvent::TransferPosted { .. }]));
    assert_eq!(
        ledger, before,
        "prepare must roll back its speculative apply"
    );

    let mut applied = before.clone();
    applied.commit_events(&events).unwrap();
    assert_eq!(ledger, before);
    assert_eq!(
        applied.journal(),
        &before
            .journal()
            .iter()
            .cloned()
            .chain(events)
            .collect::<Vec<_>>(),
    );
}

#[test]
fn failing_prepare_batch_leaves_the_ledger_untouched() {
    let mut ledger = seeded();
    let before = ledger.clone();
    let first = BatchOp::Transfer(
        Transfer::new_immediate(
            TransferId::new(7),
            AccountId::new(1),
            AccountId::new(2),
            Amount::new(10),
            1,
        )
        .unwrap(),
    );
    let duplicate = BatchOp::Transfer(
        Transfer::new_immediate(
            TransferId::new(7),
            AccountId::new(1),
            AccountId::new(2),
            Amount::new(10),
            1,
        )
        .unwrap(),
    );

    assert!(ledger.prepare_batch(&[first, duplicate]).is_err());
    assert_eq!(
        ledger, before,
        "failed prepare must leave the ledger untouched"
    );
}

#[test]
fn prepare_batch_supports_mixed_operations_and_atomic_rollback() {
    let mut ledger = Ledger::new(Scale::usdc());
    let before = ledger.clone();

    let ops = vec![
        BatchOp::CreateAccount {
            id: AccountId::new(10),
            account_type: AccountType::Asset,
            flags: AccountFlags::bank_asset(),
            scale: Scale::usdc(),
            timestamp: 1,
        },
        BatchOp::CreateAccount {
            id: AccountId::new(20),
            account_type: AccountType::Liability,
            flags: AccountFlags::customer(),
            scale: Scale::usdc(),
            timestamp: 1,
        },
        BatchOp::Pending(
            Transfer::new_pending(
                TransferId::new(100),
                AccountId::new(10),
                AccountId::new(20),
                Amount::new(500),
                2,
            )
            .unwrap(),
        ),
        BatchOp::PostPending {
            pending_id: TransferId::new(100),
            post_transfer_id: TransferId::new(101),
            amount: Amount::new(500),
            timestamp: 3,
        },
    ];

    let events = ledger.prepare_batch(&ops).expect("mixed batch prepare");
    assert_eq!(events.len(), 4);
    assert_eq!(
        ledger, before,
        "speculative prepare must not alter ledger state"
    );

    ledger.commit_events(&events).expect("commit mixed batch");
    assert_eq!(ledger.journal().len(), 4);
    assert_eq!(
        ledger
            .get_account(AccountId::new(10))
            .unwrap()
            .balance
            .debits_posted,
        Amount::new(500)
    );
    assert_eq!(
        ledger
            .get_account(AccountId::new(20))
            .unwrap()
            .balance
            .credits_posted,
        Amount::new(500)
    );
}

#[test]
fn every_event_kind_rolls_back_atomically_when_a_later_event_fails() {
    struct Case {
        name: &'static str,
        make: fn() -> (Ledger, LedgerEvent),
    }

    let failing_event = || LedgerEvent::AccountCreated {
        id: AccountId::new(1),
        account_type: AccountType::Asset,
        flags: AccountFlags::bank_asset(),
        scale: Scale::usdc(),
        timestamp: 10_000_000,
    };

    let cases: &[Case] = &[
        Case {
            name: "AccountCreated",
            make: || {
                let before = seeded();
                let event = LedgerEvent::AccountCreated {
                    id: AccountId::new(3),
                    account_type: AccountType::Liability,
                    flags: AccountFlags::customer(),
                    scale: Scale::usdc(),
                    timestamp: 1,
                };
                (before, event)
            },
        },
        Case {
            name: "AccountClosed",
            make: || {
                let mut before = seeded();
                before
                    .create_account(
                        AccountId::new(3),
                        AccountType::Liability,
                        AccountFlags::customer(),
                        Scale::usdc(),
                        1,
                    )
                    .unwrap();
                let event = LedgerEvent::AccountClosed {
                    id: AccountId::new(3),
                    timestamp: 2,
                };
                (before, event)
            },
        },
        Case {
            name: "TransferPosted",
            make: || {
                let before = seeded();
                let event = LedgerEvent::TransferPosted {
                    transfer: Transfer::new_immediate(
                        TransferId::new(7),
                        AccountId::new(1),
                        AccountId::new(2),
                        Amount::new(10),
                        1,
                    )
                    .unwrap(),
                };
                (before, event)
            },
        },
        Case {
            name: "TransferPendingCreated",
            make: || {
                let before = seeded();
                let event = LedgerEvent::TransferPendingCreated {
                    transfer: Transfer::new_pending(
                        TransferId::new(7),
                        AccountId::new(1),
                        AccountId::new(2),
                        Amount::new(10),
                        1,
                    )
                    .unwrap(),
                };
                (before, event)
            },
        },
        Case {
            name: "TransferPendingPosted",
            make: || {
                let mut before = seeded();
                before
                    .create_pending(
                        Transfer::new_pending(
                            TransferId::new(3),
                            AccountId::new(1),
                            AccountId::new(2),
                            Amount::new(100),
                            1,
                        )
                        .unwrap(),
                    )
                    .unwrap();
                let event = LedgerEvent::TransferPendingPosted {
                    pending_id: TransferId::new(3),
                    post_transfer_id: TransferId::new(8),
                    amount: Amount::new(100),
                    timestamp: 2,
                };
                (before, event)
            },
        },
        Case {
            name: "TransferPendingVoided",
            make: || {
                let mut before = seeded();
                before
                    .create_pending(
                        Transfer::new_pending(
                            TransferId::new(3),
                            AccountId::new(1),
                            AccountId::new(2),
                            Amount::new(100),
                            1,
                        )
                        .unwrap(),
                    )
                    .unwrap();
                let event = LedgerEvent::TransferPendingVoided {
                    pending_id: TransferId::new(3),
                    amount: Amount::new(100),
                    timestamp: 2,
                };
                (before, event)
            },
        },
    ];

    for case in cases {
        let (before, kind_event) = (case.make)();

        let mut alone = before.clone();
        alone
            .commit_events(std::slice::from_ref(&kind_event))
            .unwrap_or_else(|err| panic!("{}: kind event must apply: {err:?}", case.name));

        let mut attempt = before.clone();
        let pair = [kind_event, failing_event()];
        let err = attempt
            .commit_events(&pair)
            .expect_err(&format!("{}: second event must fail", case.name));
        assert_eq!(
            attempt, before,
            "{}: failed batch ({err:?}) must roll back the kind event",
            case.name
        );
    }
}

#[test]
fn prepare_batch_results_isolates_failures_and_preserves_intra_batch_visibility() {
    let mut ledger = Ledger::new(Scale::usdc());
    let ops = vec![
        BatchOp::CreateAccount {
            id: AccountId::new(1),
            account_type: AccountType::Asset,
            flags: AccountFlags::bank_asset(),
            scale: Scale::usdc(),
            timestamp: 1,
        },
        BatchOp::CreateAccount {
            id: AccountId::new(2),
            account_type: AccountType::Liability,
            flags: AccountFlags::customer(),
            scale: Scale::usdc(),
            timestamp: 2,
        },
        BatchOp::Transfer(
            Transfer::new_immediate(
                TransferId::new(10),
                AccountId::new(1),
                AccountId::new(2),
                Amount::new(500),
                3,
            )
            .unwrap(),
        ),
        BatchOp::Transfer(
            Transfer::new_immediate(
                TransferId::new(11),
                AccountId::new(2),
                AccountId::new(1),
                Amount::new(999_999),
                4,
            )
            .unwrap(),
        ),
        BatchOp::Transfer(
            Transfer::new_immediate(
                TransferId::new(12),
                AccountId::new(99),
                AccountId::new(1),
                Amount::new(10),
                5,
            )
            .unwrap(),
        ),
        BatchOp::CloseAccount {
            id: AccountId::new(2),
            timestamp: 6,
        },
    ];

    let results = ledger.prepare_batch_results(&ops);
    assert_eq!(results.len(), 6);
    assert!(results[0].is_ok());
    assert!(results[1].is_ok());
    assert!(results[2].is_ok());
    assert!(matches!(
        results[3].as_ref().unwrap_err(),
        LedgerError::InsufficientFunds { .. }
    ));
    assert!(matches!(
        results[4].as_ref().unwrap_err(),
        LedgerError::AccountNotFound(_)
    ));
    assert!(results[5].is_ok());

    assert_eq!(ledger.journal().len(), 0);
    assert!(ledger.get_account(AccountId::new(1)).is_err());

    let successful_events: Vec<LedgerEvent> = results
        .into_iter()
        .filter_map(Result::ok)
        .flatten()
        .collect();
    ledger
        .commit_events(&successful_events)
        .expect("commit successful events");

    assert_eq!(ledger.journal().len(), 4);
    let acc2 = ledger.get_account(AccountId::new(2)).unwrap();
    assert!(acc2.flags.is_closed);
    assert_eq!(acc2.balance.credits_posted, Amount::new(500));
}

#[test]
fn prepare_transactions_isolates_multi_op_atomic_failures() {
    let mut ledger = Ledger::new(Scale::usdc());
    let txs = vec![
        vec![BatchOp::CreateAccount {
            id: AccountId::new(1),
            account_type: AccountType::Asset,
            flags: AccountFlags::bank_asset(),
            scale: Scale::usdc(),
            timestamp: 1,
        }],
        vec![
            BatchOp::CreateAccount {
                id: AccountId::new(2),
                account_type: AccountType::Liability,
                flags: AccountFlags::customer(),
                scale: Scale::usdc(),
                timestamp: 2,
            },
            BatchOp::Transfer(
                Transfer::new_immediate(
                    TransferId::new(10),
                    AccountId::new(1),
                    AccountId::new(2),
                    Amount::new(1_000),
                    3,
                )
                .unwrap(),
            ),
        ],
        vec![
            BatchOp::CreateAccount {
                id: AccountId::new(3),
                account_type: AccountType::Liability,
                flags: AccountFlags::customer(),
                scale: Scale::usdc(),
                timestamp: 4,
            },
            BatchOp::Transfer(
                Transfer::new_immediate(
                    TransferId::new(11),
                    AccountId::new(2),
                    AccountId::new(3),
                    Amount::new(999_999),
                    5,
                )
                .unwrap(),
            ),
        ],
        vec![BatchOp::Transfer(
            Transfer::new_immediate(
                TransferId::new(12),
                AccountId::new(2),
                AccountId::new(1),
                Amount::new(500),
                6,
            )
            .unwrap(),
        )],
    ];

    let results = ledger.prepare_transactions(&txs);
    assert_eq!(results.len(), 4);
    assert!(results[0].is_ok());
    assert!(results[1].is_ok());
    assert!(matches!(
        results[2].as_ref().unwrap_err(),
        LedgerError::InsufficientFunds { .. }
    ));
    assert!(results[3].is_ok());

    assert_eq!(ledger.journal().len(), 0);

    let successful_events: Vec<LedgerEvent> = results
        .into_iter()
        .filter_map(Result::ok)
        .flatten()
        .collect();
    ledger
        .commit_events(&successful_events)
        .expect("commit events");

    assert!(ledger.get_account(AccountId::new(1)).is_ok());
    assert!(ledger.get_account(AccountId::new(2)).is_ok());
    assert!(ledger.get_account(AccountId::new(3)).is_err());
    assert_eq!(
        ledger
            .get_account(AccountId::new(2))
            .unwrap()
            .balance
            .credits_posted,
        Amount::new(1_000)
    );
    assert_eq!(
        ledger
            .get_account(AccountId::new(2))
            .unwrap()
            .balance
            .debits_posted,
        Amount::new(500)
    );
}

#[test]
fn committed_events_cannot_be_committed_again() {
    let mut ledger = seeded();
    let events = ledger
        .prepare_batch(&[BatchOp::Transfer(
            Transfer::new_immediate(TransferId::new(8), AccountId::new(1), AccountId::new(2), Amount::new(10), 1)
                .unwrap(),
        )])
        .unwrap();
    ledger.commit_events(&events).unwrap();
    let after_first = ledger.clone();
    assert!(ledger.commit_events(&events).is_err());
    assert_eq!(ledger, after_first);
}

#[test]
fn successful_batch_results_commit_together() {
    let mut ledger = seeded();
    let ok = |id: u128| {
        BatchOp::Transfer(
            Transfer::new_immediate(TransferId::new(id), AccountId::new(1), AccountId::new(2), Amount::new(5), 1)
                .unwrap(),
        )
    };
    let duplicate_account = BatchOp::CreateAccount {
        id: AccountId::new(1),
        account_type: AccountType::Asset,
        flags: AccountFlags::bank_asset(),
        scale: Scale::usdc(),
        timestamp: 1,
    };
    let results = ledger.prepare_batch_results(&[ok(20), duplicate_account, ok(21)]);
    assert_eq!(results.len(), 3);
    assert!(results[1].is_err());
    let events: Vec<LedgerEvent> = results.into_iter().filter_map(Result::ok).flatten().collect();
    assert_eq!(events.len(), 2);
    ledger.commit_events(&events).unwrap();
    assert!(ledger.get_transfer(TransferId::new(20)).is_ok());
    assert!(ledger.get_transfer(TransferId::new(21)).is_ok());
}

#[test]
fn each_prepared_operation_records_one_event() {
    let mut ledger = seeded();
    let ops = [
        BatchOp::Transfer(
            Transfer::new_immediate(TransferId::new(30), AccountId::new(1), AccountId::new(2), Amount::new(3), 1).unwrap(),
        ),
        BatchOp::Transfer(
            Transfer::new_immediate(TransferId::new(31), AccountId::new(1), AccountId::new(2), Amount::new(4), 1).unwrap(),
        ),
    ];
    assert_eq!(ledger.prepare_batch(&ops).unwrap().len(), 2);
    let results = ledger.prepare_batch_results(&ops);
    assert_eq!(results.len(), 2);
    assert!(results.iter().all(|r| r.as_ref().map(|evs| evs.len() == 1).unwrap_or(false)));
}

#[test]
fn operations_on_other_accounts_leave_an_account_untouched() {
    let mut ledger = seeded();
    ledger
        .create_account(AccountId::new(3), AccountType::Liability, AccountFlags::customer(), Scale::usdc(), 1)
        .unwrap();
    let before = ledger.get_account(AccountId::new(3)).unwrap().clone();
    ledger
        .create_transfer(
            Transfer::new_immediate(TransferId::new(40), AccountId::new(1), AccountId::new(2), Amount::new(9), 2).unwrap(),
        )
        .unwrap();
    ledger.close_account(AccountId::new(2), 3).unwrap();
    assert_eq!(ledger.get_account(AccountId::new(3)).unwrap(), &before);
    assert_eq!(ledger.get_account(AccountId::new(99)).unwrap_err(), LedgerError::AccountNotFound(AccountId::new(99)));
}
