//! Transfer shape and lifecycle.

use trustledger::ledger_core::amount::Amount;
use trustledger::ledger_core::error::LedgerError;
use trustledger::ledger_core::id::{AccountId, TransferId};
use trustledger::ledger_core::transfer::{Transfer, TransferState};

#[test]
fn pending_hold_cannot_carry_a_hold_link() {
    let forged = Transfer::from_parts(
        TransferId::new(7),
        AccountId::new(1),
        AccountId::new(2),
        Amount::new(10),
        TransferState::Pending,
        Some(TransferId::new(3)),
        0,
    );

    assert_eq!(
        forged.validate_shape().unwrap_err(),
        LedgerError::InvalidPendingLink {
            transfer_id: TransferId::new(7),
            pending_id: TransferId::new(3),
            actual: TransferState::Pending,
        },
    );
}

#[test]
fn posted_and_voided_are_terminal_states() {
    let mut transfer = Transfer::new_pending(
        TransferId::new(1),
        AccountId::new(1),
        AccountId::new(2),
        Amount::new(1),
        0,
    )
    .unwrap();

    transfer.transition_to(TransferState::Posted).unwrap();
    assert_eq!(transfer.state(), TransferState::Posted);

    let err = transfer.transition_to(TransferState::Voided).unwrap_err();
    assert!(matches!(err, LedgerError::InvalidTransferState { .. }));

    let err = transfer.transition_to(TransferState::Pending).unwrap_err();
    assert!(matches!(err, LedgerError::InvalidTransferState { .. }));

    let mut cancel = Transfer::new_pending(
        TransferId::new(1),
        AccountId::new(1),
        AccountId::new(2),
        Amount::new(1),
        0,
    )
    .unwrap();
    cancel.transition_to(TransferState::Voided).unwrap();
    assert_eq!(cancel.state(), TransferState::Voided);

    let err = cancel.transition_to(TransferState::Posted).unwrap_err();
    assert!(matches!(err, LedgerError::InvalidTransferState { .. }));
}
