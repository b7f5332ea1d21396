//! The payment desk behind the HTTP API: authorization, capture, voids,
//! deposits, webhooks, settlement, seeding and the dashboard figures.

use trustledger::demo::error::{IdempotencyError, PaymentError, WebhookError};
use trustledger::demo::payment::PaymentState;
use trustledger::demo::reconciliation::{
    apply_simulated_drift, ReconciliationEngine, ReconciliationStatus,
};
use trustledger::demo::service::{ApiCause, ApiStatus, AppState, AuthorizeOutcome};
use trustledger::demo::webhook::{WebhookPayload, WebhookVerifier};
use trustledger::ledger_core::error::LedgerError;

fn state() -> AppState {
    AppState::new(b"desk-secret".to_vec()).expect("app state")
}

fn authorize(state: &mut AppState, key: &str, amount: u128) -> u128 {
    match state.authorize(key, 1, 101, amount, 10).expect("authorize") {
        AuthorizeOutcome::Authorized(p) => p.id,
        other => panic!("unexpected outcome {other:?}"),
    }
}

#[test]
fn new_state_holds_sample_accounts() {
    let state = state();
    assert_eq!(state.ledger().journal().len(), 11);
    assert_eq!(state.scale().as_u8(), 6);
    assert_eq!(state.batch_seq(), 0);
    assert_eq!(state.simulated_drift(), 0);
    assert!(state.payments().is_empty());
    assert_eq!(state.transfer_count(), 3);
}

#[test]
fn authorization_is_idempotent() {
    let mut state = state();
    let first = state.authorize("k1", 1, 101, 50_000, 500).unwrap();
    let payment = match first {
        AuthorizeOutcome::Authorized(p) => p,
        other => panic!("unexpected outcome {other:?}"),
    };
    assert_eq!(payment.id, 5000);
    assert_eq!(payment.pending_transfer_id, Some(20_000));
    assert_eq!(payment.created_at, 1_700_000_001);
    assert_eq!(payment.state, PaymentState::Authorized);

    let in_flight = state.authorize("k1", 1, 101, 50_000, 500).unwrap_err();
    assert_eq!(in_flight.status, ApiStatus::Conflict);
    assert_eq!(
        in_flight.cause,
        ApiCause::Idempotency(IdempotencyError::ConcurrentRequest("k1".to_string()))
    );

    state.complete_request("k1", "{\"payment_id\":5000}".to_string());
    match state.authorize("k1", 1, 101, 50_000, 500).unwrap() {
        AuthorizeOutcome::Replay(json) => assert_eq!(json, "{\"payment_id\":5000}"),
        other => panic!("unexpected outcome {other:?}"),
    }
    assert_eq!(state.payments().len(), 1);
}

#[test]
fn authorization_failures_free_the_key() {
    let mut state = state();
    let err = state.authorize("zero", 1, 101, 0, 0).unwrap_err();
    assert_eq!(err.status, ApiStatus::BadRequest);
    assert!(matches!(err.cause, ApiCause::Ledger(LedgerError::ZeroAmountTransfer(_))));
    let err = state.authorize("big", 1, 101, 5_000_000_000, 0).unwrap_err();
    assert_eq!(err.status, ApiStatus::PaymentRequired);
    assert!(matches!(err.cause, ApiCause::Ledger(LedgerError::InsufficientFunds { .. })));
    // The keys are free again.
    assert!(matches!(
        state.authorize("zero", 1, 101, 1, 0).unwrap(),
        AuthorizeOutcome::Authorized(_)
    ));
}

#[test]
fn capture_and_void_follow_the_lifecycle() {
    let mut state = state();
    let a = authorize(&mut state, "a", 50_000);
    let b = authorize(&mut state, "b", 20_000);

    let captured = state.capture(a).unwrap();
    assert_eq!(captured.state, PaymentState::Captured);
    assert_eq!(captured.posted_transfer_id, Some(20_002));
    let balance = state.get_balance(1).unwrap();
    assert_eq!(balance.posted_balance, 50_000);
    assert_eq!(balance.pending_balance, 20_000);

    let voided = state.void(b).unwrap();
    assert_eq!(voided.state, PaymentState::Voided);
    assert_eq!(state.get_balance(1).unwrap().pending_balance, 0);

    let missing = state.capture(9999).unwrap_err();
    assert_eq!(missing.status, ApiStatus::NotFound);
    assert_eq!(missing.cause, ApiCause::PaymentNotFound(9999));

    // The hold was already posted: the ledger refuses to void it.
    let err = state.void(a).unwrap_err();
    assert_eq!(err.status, ApiStatus::InternalServerError);
    assert!(matches!(err.cause, ApiCause::Ledger(LedgerError::InvalidTransferState { .. })));

    assert_eq!(
        state.get_balance(77).unwrap_err().cause,
        ApiCause::MerchantAccountNotFound
    );
    state.ledger().verify_invariants().unwrap();
}

#[test]
fn deposit_defaults_to_one_hundred_dollars() {
    let mut state = state();
    let d = state.deposit(102, None).unwrap();
    assert_eq!(d.deposited_amount, 100_000_000);
    assert_eq!(d.new_balance, 1_100_000_000);
    let d = state.deposit(102, Some(5)).unwrap();
    assert_eq!(d.new_balance, 1_100_000_005);
    let err = state.deposit(555, Some(5)).unwrap_err();
    assert_eq!(err.status, ApiStatus::InternalServerError);
    assert!(matches!(err.cause, ApiCause::Ledger(LedgerError::AccountNotFound(_))));
}

fn payload(event_id: &str, event_type: &str, timestamp: u64) -> WebhookPayload {
    WebhookPayload {
        event_id: event_id.to_string(),
        event_type: event_type.to_string(),
        payment_id: 8888,
        merchant_id: 2,
        customer_id: 102,
        amount: 15_000,
        fee_amount: 150,
        timestamp,
    }
}

#[test]
fn webhooks_authenticate_and_drive_payments() {
    let mut state = state();
    let body = b"{\"event\":1}";
    assert_eq!(
        state.authenticate_webhook(None, body).unwrap_err().cause,
        ApiCause::MissingSignature
    );
    assert_eq!(
        state.authenticate_webhook(Some("00"), body).unwrap_err().status,
        ApiStatus::Unauthorized
    );
    let sig = WebhookVerifier::compute_signature(b"desk-secret", body).unwrap();
    assert!(state.authenticate_webhook(Some(&sig), body).is_ok());

    state
        .process_webhook(&payload("e1", "charge.authorized", 1_700_000_050))
        .unwrap();
    let p = &state.payments()[0];
    assert_eq!(p.id, 8888);
    assert_eq!(p.state, PaymentState::Authorized);
    assert_eq!(p.pending_transfer_id, Some(20_000));

    state
        .process_webhook(&payload("e2", "charge.captured", 1_700_000_060))
        .unwrap();
    let p = &state.payments()[0];
    assert_eq!(p.state, PaymentState::Captured);
    assert_eq!(p.posted_transfer_id, Some(20_001));

    let dup = state
        .process_webhook(&payload("e2", "charge.captured", 1_700_000_060))
        .unwrap_err();
    assert_eq!(dup.status, ApiStatus::Conflict);
    assert_eq!(
        dup.cause,
        ApiCause::Webhook(WebhookError::DuplicateEventId("e2".to_string()))
    );

    let stale = state
        .process_webhook(&payload("e3", "charge.captured", 1_699_000_000))
        .unwrap_err();
    assert_eq!(stale.status, ApiStatus::BadRequest);
    assert!(matches!(
        stale.cause,
        ApiCause::Webhook(WebhookError::ExpiredTimestamp { .. })
    ));

    let unknown = state
        .process_webhook(&payload("e4", "charge.refunded", 1_700_000_060))
        .unwrap_err();
    assert_eq!(unknown.cause, ApiCause::UnknownEventType);

    // A second capture finds the payment already captured.
    let again = state
        .process_webhook(&payload("e5", "charge.captured", 1_700_000_070))
        .unwrap_err();
    assert_eq!(again.status, ApiStatus::InternalServerError);
}

#[test]
fn ach_settlement_marks_captured_payments() {
    let mut state = state();
    let err = state.settle_ach().unwrap_err();
    assert_eq!(err.cause, ApiCause::NoTransfersToSettle);

    let a = authorize(&mut state, "a", 30_000);
    let b = authorize(&mut state, "b", 40_000);
    let _c = authorize(&mut state, "c", 50_000);
    state.capture(a).unwrap();
    state.capture(b).unwrap();
    assert_eq!(state.settlement_transfers().len(), 2);

    let sub = state.settle_ach().unwrap();
    assert_eq!(sub.rail_name, "Mock-ACH");
    assert_eq!(sub.batch_seq, 1);
    assert_eq!(sub.transfer_count, 2);
    assert_eq!(sub.total_amount, 70_000);
    assert_eq!(sub.reference, "ACH-NACHA-BATCH-000001");
    assert_eq!(state.batch_seq(), 1);
    let settled: Vec<Option<u64>> = state
        .payments()
        .iter()
        .map(|p| p.settlement_batch_seq)
        .collect();
    assert_eq!(settled, vec![Some(1), Some(1), None]);
    assert!(state.settlement_transfers().is_empty());
    assert_eq!(state.settle_ach().unwrap_err().status, ApiStatus::BadRequest);
}

#[test]
fn quick_seed_places_sample_payments() {
    let mut state = state();
    let seeded = state.quick_seed().unwrap();
    assert_eq!(seeded.seeded_count, 4);
    assert_eq!(seeded.message, "Successfully seeded 4 sample payments.");
    let states: Vec<PaymentState> = state.payments().iter().map(|p| p.state).collect();
    assert_eq!(
        states,
        vec![
            PaymentState::Captured,
            PaymentState::Captured,
            PaymentState::Authorized,
            PaymentState::Voided
        ]
    );
    let newest: Vec<PaymentState> = state.payments_newest_first().iter().map(|p| p.state).collect();
    assert_eq!(
        newest,
        vec![
            PaymentState::Voided,
            PaymentState::Authorized,
            PaymentState::Captured,
            PaymentState::Captured
        ]
    );
    let ids: Vec<u128> = state.payments_newest_first().iter().map(|p| p.id).collect();
    assert!(ids.windows(2).all(|w| w[0] > w[1]));
    assert_eq!(state.captured_volume().unwrap(), 235_500_000);
    let rows = state.account_summaries().unwrap();
    assert_eq!(rows.len(), 8);
    assert_eq!(rows[0].label, "Bank Clearing Vault");
    assert_eq!(rows[0].account_type, "Asset");
    assert_eq!(rows[0].net_balance, 4_500_000_000);
    assert_eq!(rows[5].label, "Merchant #1 (Acme Corp)");
    assert_eq!(rows[5].credits_posted, 150_000_000);
    assert_eq!(rows[5].credits_pending, 42_000_000);
    // 3 setup deposits, 3 top-ups, 4 holds and 2 settlements.
    assert_eq!(state.transfer_count(), 12);
    state.ledger().verify_invariants().unwrap();

    let payments = state.payments();
    let report =
        ReconciliationEngine::audit(&payments, state.ledger(), &[1, 2, 3], None, 1_700_000_200)
            .unwrap();
    assert_eq!(report.status, ReconciliationStatus::Clean);
    assert_eq!(report.app_settled_total, 235_500_000);
    state.set_simulated_drift(50_000_000);
    let drifted = apply_simulated_drift(report, state.simulated_drift(), "sim".to_string());
    assert_eq!(drifted.status, ReconciliationStatus::DriftDetected);
    assert_eq!(drifted.drift, 50_000_000);
    let incident = drifted.incident.unwrap();
    assert_eq!(incident.incident_id, "INC-SIMULATED-DRIFT-1700000200");
    assert_eq!(incident.details, "sim");
}

#[test]
fn capture_of_a_voided_payment_is_refused_by_the_ledger() {
    let mut state = state();
    let a = authorize(&mut state, "a", 10);
    state.void(a).unwrap();
    let err = state.capture(a).unwrap_err();
    assert_eq!(err.status, ApiStatus::InternalServerError);
    let _ = PaymentError::AmountOverflow;
}
