//! Payment workflows: lifecycle, webhooks, idempotency, rails and reconciliation.

use trustledger::demo::dashboard::render_dashboard_html;
use trustledger::demo::error::{
    DemoError, IdempotencyError, PaymentError, RailError, ReconciliationError, WebhookError,
};
use trustledger::demo::idempotency::IdempotencyStore;
use trustledger::demo::payment::{AccountDirectory, Payment, PaymentState};
use trustledger::demo::rail::{MockAchRail, SettlementRail};
use trustledger::demo::reconciliation::{
    ReconciliationEngine, ReconciliationStatus, SettlementRoot,
};
use trustledger::demo::webhook::{WebhookDeduplicator, WebhookPayload, WebhookVerifier};
use trustledger::ledger_core::account::{AccountFlags, AccountType};
use trustledger::ledger_core::amount::{Amount, Scale};
use trustledger::ledger_core::error::LedgerError;
use trustledger::ledger_core::id::{AccountId, TransferId};
use trustledger::ledger_core::ledger::Ledger;
use trustledger::ledger_core::transfer::Transfer;
use trustledger::merkle::error::MmrError;

/// The ledger the demo application starts from: merchants 1..=3, customers
/// 101..=103, each customer seeded with $1,000.00.
fn seeded_ledger() -> Ledger {
    let scale = Scale::usdc();
    let mut ledger = Ledger::new(scale);
    AccountDirectory::setup_accounts(
        &mut ledger,
        scale,
        &[1, 2, 3],
        &[101, 102, 103],
        1_000_000_000,
        1_700_000_000,
    )
    .expect("app state init");
    ledger
}

#[test]
fn test_payment_lifecycle_two_phase_holds() {
    let mut ledger = seeded_ledger();

    let merchant_id = 1;
    let customer_id = 101;
    let initial_balance = 1_000_000_000u128;

    let mut next_payment_id: u128 = 5000;
    let mut next_transfer_id: u128 = 20_000;

    let payment_id = next_payment_id;
    next_payment_id += 1;
    let hold_id = next_transfer_id;
    next_transfer_id += 1;
    let now = 1_700_000_000;

    let hold = Transfer::new_pending(
        TransferId::new(hold_id),
        AccountDirectory::customer(customer_id),
        AccountDirectory::merchant(merchant_id),
        Amount::new(50_000),
        now,
    )
    .expect("valid hold");
    ledger.create_pending(hold).expect("create pending");

    let mut payment =
        Payment::new_authorized(payment_id, merchant_id, customer_id, 50_000, 500, hold_id, now);

    {
        let cust_acc = ledger
            .get_account(AccountDirectory::customer(customer_id))
            .unwrap();
        assert_eq!(cust_acc.balance.credits_posted.as_u128(), initial_balance);
        assert_eq!(cust_acc.balance.debits_pending.as_u128(), 50_000);
    }

    let post_id = next_transfer_id;
    next_transfer_id += 1;
    ledger
        .post_pending(
            TransferId::new(hold_id),
            TransferId::new(post_id),
            Amount::new(50_000),
            now + 10,
        )
        .expect("post hold");
    payment
        .transition_to_captured(post_id, now + 10)
        .expect("transition to captured");
    assert_eq!(payment.state, PaymentState::Captured);

    {
        let merch_acc = ledger
            .get_account(AccountDirectory::merchant(merchant_id))
            .unwrap();
        assert_eq!(merch_acc.balance.credits_posted.as_u128(), 50_000);
    }

    let p2_id = next_payment_id;
    let hold2_id = next_transfer_id;

    let hold2 = Transfer::new_pending(
        TransferId::new(hold2_id),
        AccountDirectory::customer(customer_id),
        AccountDirectory::merchant(merchant_id),
        Amount::new(20_000),
        now + 20,
    )
    .expect("valid hold 2");
    ledger.create_pending(hold2).expect("create pending 2");
    ledger
        .void_pending(TransferId::new(hold2_id), now + 30)
        .expect("void pending 2");

    let mut p2 = Payment::new_authorized(
        p2_id,
        merchant_id,
        customer_id,
        20_000,
        200,
        hold2_id,
        now + 20,
    );
    p2.transition_to_voided(now + 30).expect("void payment");
    assert_eq!(p2.state, PaymentState::Voided);

    ledger.verify_invariants().expect("invariants must hold");
}

/// The JSON encoding of the payload used by the webhook scenario, as
/// `serde_json::to_vec` renders it.
fn webhook_bytes(payload: &WebhookPayload) -> Vec<u8> {
    format!(
        "{{\"event_id\":\"{}\",\"event_type\":\"{}\",\"payment_id\":{},\"merchant_id\":{},\"customer_id\":{},\"amount\":{},\"fee_amount\":{},\"timestamp\":{}}}",
        payload.event_id,
        payload.event_type,
        payload.payment_id,
        payload.merchant_id,
        payload.customer_id,
        payload.amount,
        payload.fee_amount,
        payload.timestamp
    )
    .into_bytes()
}

#[test]
fn test_webhook_hmac_tamper_and_replay_protection() {
    let secret = b"fintech-security-secret-42";
    let now = 1_700_000_000;

    let payload = WebhookPayload {
        event_id: "evt_card_charge_001".to_string(),
        event_type: "charge.authorized".to_string(),
        payment_id: 8888,
        merchant_id: 2,
        customer_id: 102,
        amount: 15_000,
        fee_amount: 150,
        timestamp: now,
    };

    let raw_bytes = webhook_bytes(&payload);
    let valid_signature =
        WebhookVerifier::compute_signature(secret, &raw_bytes).expect("compute signature");

    assert!(WebhookVerifier::verify_signature(secret, &raw_bytes, &valid_signature).is_ok());

    let mut tampered_bytes = raw_bytes.clone();
    tampered_bytes[10] ^= 0x01;
    assert!(WebhookVerifier::verify_signature(secret, &tampered_bytes, &valid_signature).is_err());

    let bad_sig = "a".repeat(64);
    assert!(WebhookVerifier::verify_signature(secret, &raw_bytes, &bad_sig).is_err());

    let stale_event_time = now - 600;
    assert!(WebhookVerifier::verify_freshness(stale_event_time, now, 300).is_err());

    let fresh_event_time = now - 60;
    assert!(WebhookVerifier::verify_freshness(fresh_event_time, now, 300).is_ok());

    let mut dedupe = WebhookDeduplicator::new();
    assert!(dedupe.check_and_record("evt_unique_1").is_ok());
    assert!(dedupe.check_and_record("evt_unique_1").is_err());
}

#[test]
fn test_three_way_reconciliation_zero_drift_and_incident_detection() {
    let mut ledger = seeded_ledger();

    let merchant_id = 1;
    let customer_id = 101;
    let payment_id = 5001;
    let hold_id = 6001;
    let post_id = 7001;
    let now = 1_700_000_000;

    let hold = Transfer::new_pending(
        TransferId::new(hold_id),
        AccountDirectory::customer(customer_id),
        AccountDirectory::merchant(merchant_id),
        Amount::new(45_000),
        now,
    )
    .unwrap();
    ledger.create_pending(hold).unwrap();
    ledger
        .post_pending(
            TransferId::new(hold_id),
            TransferId::new(post_id),
            Amount::new(45_000),
            now + 1,
        )
        .unwrap();

    let mut payment =
        Payment::new_authorized(payment_id, merchant_id, customer_id, 45_000, 0, hold_id, now);
    payment.transition_to_captured(post_id, now + 1).unwrap();

    let payments = vec![payment.clone()];
    let merchants = vec![1, 2, 3];

    let report = ReconciliationEngine::audit(&payments, &ledger, &merchants, None, now + 10).unwrap();

    assert_eq!(report.status, ReconciliationStatus::Clean);
    assert_eq!(report.drift, 0);
    assert_eq!(report.app_settled_total, 45_000);
    assert_eq!(report.ledger_settled_total, 45_000);
    assert!(report.incident.is_none());

    let mut tampered_payment = payment;
    tampered_payment.amount = 55_000;
    let tampered_payments = vec![tampered_payment];

    let drift_report =
        ReconciliationEngine::audit(&tampered_payments, &ledger, &merchants, None, now + 20)
            .unwrap();

    assert_eq!(drift_report.status, ReconciliationStatus::DriftDetected);
    assert_eq!(drift_report.drift, -10_000);
    assert!(drift_report.incident.is_some());
    let incident = drift_report.incident.unwrap();
    assert_eq!(incident.drift_amount, -10_000);
}

#[test]
fn setup_accounts_seeds_customers_from_vault() {
    let ledger = seeded_ledger();
    let vault = ledger.get_account(AccountDirectory::vault_asset()).unwrap();
    assert_eq!(vault.account_type, AccountType::Asset);
    assert_eq!(vault.balance.debits_posted.as_u128(), 3_000_000_000);
    let fee = ledger.get_account(AccountDirectory::fee_revenue()).unwrap();
    assert_eq!(fee.account_type, AccountType::Revenue);
    for m in [1u128, 2, 3] {
        let acc = ledger.get_account(AccountDirectory::merchant(m)).unwrap();
        assert_eq!(acc.account_type, AccountType::Liability);
        assert_eq!(acc.balance.credits_posted.as_u128(), 0);
    }
    let t = ledger.get_transfer(TransferId::new(10_002)).unwrap();
    assert_eq!(t.credit_account_id(), AccountDirectory::customer(103));
    assert_eq!(t.amount().as_u128(), 1_000_000_000);
    assert_eq!(ledger.journal().len(), 2 + 3 + 3 + 3);
}

#[test]
fn setup_accounts_without_deposit_posts_no_transfers() {
    let scale = Scale::usdc();
    let mut ledger = Ledger::new(scale);
    AccountDirectory::setup_accounts(&mut ledger, scale, &[7], &[8], 0, 5).unwrap();
    assert_eq!(ledger.journal().len(), 4);
    assert!(ledger.transfers().is_empty());
}

#[test]
fn setup_accounts_stops_at_first_failure() {
    let scale = Scale::usdc();
    let mut ledger = Ledger::new(scale);
    let err = AccountDirectory::setup_accounts(&mut ledger, scale, &[1, 1, 2], &[101], 10, 5)
        .unwrap_err();
    assert_eq!(
        err,
        PaymentError::Ledger(LedgerError::AccountAlreadyExists(AccountDirectory::merchant(1)))
    );
    // The vault, fee revenue and the first merchant stay; nothing after.
    assert_eq!(ledger.journal().len(), 3);
    assert!(ledger.get_account(AccountDirectory::merchant(2)).is_err());
}

#[test]
fn setup_accounts_rejects_mismatched_scale() {
    let mut ledger = Ledger::new(Scale::usdc());
    let err = AccountDirectory::setup_accounts(&mut ledger, Scale::usd(), &[], &[], 0, 5)
        .unwrap_err();
    assert!(matches!(err, PaymentError::Ledger(LedgerError::ScaleMismatch { .. })));
    assert!(ledger.journal().is_empty());
}

#[test]
fn account_directory_layout() {
    assert_eq!(AccountDirectory::customer(101).as_u128(), 1_000_101);
    assert_eq!(AccountDirectory::merchant(1).as_u128(), 2_000_001);
    assert_eq!(AccountDirectory::fee_revenue(), AccountId::new(999_999));
    assert_eq!(AccountDirectory::vault_asset(), AccountId::new(100));
}

#[test]
fn payment_transitions_reject_illegal_moves() {
    let mut p = Payment::new_authorized(9, 1, 101, 100, 1, 77, 10);
    assert_eq!(p.state, PaymentState::Authorized);
    assert_eq!(p.pending_transfer_id, Some(77));
    assert_eq!(p.created_at, 10);

    let before = p.clone();
    assert_eq!(
        p.transition_to_refunded(11),
        Err(PaymentError::InvalidStateTransition {
            payment_id: 9,
            from: "Authorized".to_string(),
            to: "Refunded".to_string(),
        })
    );
    assert_eq!(p, before);

    p.transition_to_captured(78, 12).unwrap();
    assert_eq!(p.posted_transfer_id, Some(78));
    assert_eq!(p.updated_at, 12);
    assert_eq!(
        p.transition_to_voided(13),
        Err(PaymentError::InvalidStateTransition {
            payment_id: 9,
            from: "Captured".to_string(),
            to: "Voided".to_string(),
        })
    );
    p.transition_to_refunded(14).unwrap();
    assert_eq!(p.state, PaymentState::Refunded);
    assert_eq!(p.updated_at, 14);
    assert_eq!(
        p.transition_to_captured(1, 15),
        Err(PaymentError::InvalidStateTransition {
            payment_id: 9,
            from: "Refunded".to_string(),
            to: "Captured".to_string(),
        })
    );
}

#[test]
fn compute_signature_is_lowercase_hex_of_the_tag() {
    // RFC 4231, test case 2.
    let sig = WebhookVerifier::compute_signature(b"Jefe", b"what do ya want for nothing?").unwrap();
    assert_eq!(
        sig,
        "5bdcc146bf60754e6a042426089575c75a003f089d2739839dec58b964ec3843"
    );
    assert!(WebhookVerifier::verify_signature(
        b"Jefe",
        b"what do ya want for nothing?",
        "5BDCC146BF60754E6A042426089575C75A003F089D2739839DEC58B964EC3843"
    )
    .is_ok());
}

#[test]
fn verify_signature_rejects_malformed_hex() {
    let sig = WebhookVerifier::compute_signature(b"k", b"m").unwrap();
    assert_eq!(
        WebhookVerifier::verify_signature(b"k", b"m", &sig[..63]),
        Err(WebhookError::InvalidSignature)
    );
    let mut bad = sig.clone();
    bad.replace_range(0..1, "g");
    assert_eq!(
        WebhookVerifier::verify_signature(b"k", b"m", &bad),
        Err(WebhookError::InvalidSignature)
    );
    assert_eq!(
        WebhookVerifier::verify_signature(b"k", b"m", &sig[..62]),
        Err(WebhookError::InvalidSignature)
    );
    assert_eq!(
        WebhookVerifier::verify_signature(b"other", b"m", &sig),
        Err(WebhookError::InvalidSignature)
    );
}

#[test]
fn verify_freshness_boundaries() {
    assert_eq!(
        WebhookVerifier::verify_freshness(100, 401, 300),
        Err(WebhookError::ExpiredTimestamp { age_seconds: 301, max_allowed: 300 })
    );
    assert_eq!(WebhookVerifier::verify_freshness(100, 400, 300), Ok(()));
    assert_eq!(WebhookVerifier::verify_freshness(500, 400, 0), Ok(()));
}

#[test]
fn deduplicator_reports_the_duplicate_id() {
    let mut dedupe = WebhookDeduplicator::default();
    assert_eq!(dedupe.check_and_record("a"), Ok(()));
    assert_eq!(dedupe.check_and_record("b"), Ok(()));
    assert_eq!(
        dedupe.check_and_record("a"),
        Err(WebhookError::DuplicateEventId("a".to_string()))
    );
}

#[test]
fn idempotency_store_lifecycle() {
    let mut store = IdempotencyStore::new();
    assert_eq!(store.try_acquire("k1"), Ok(None));
    assert_eq!(
        store.try_acquire("k1"),
        Err(IdempotencyError::ConcurrentRequest("k1".to_string()))
    );
    store.complete("k1", "{\"ok\":true}".to_string());
    assert_eq!(store.try_acquire("k1"), Ok(Some("{\"ok\":true}".to_string())));
    store.release_on_failure("k1");
    assert_eq!(store.try_acquire("k1"), Ok(Some("{\"ok\":true}".to_string())));

    assert_eq!(store.try_acquire("k2"), Ok(None));
    store.release_on_failure("k2");
    assert_eq!(store.try_acquire("k2"), Ok(None));

    store.complete("k3", "done".to_string());
    assert_eq!(store.try_acquire("k3"), Ok(Some("done".to_string())));
}

#[test]
fn ach_rail_settles_with_padded_reference() {
    let rail = MockAchRail::new();
    assert_eq!(rail.name(), "Mock-ACH");
    let t1 = Transfer::new_immediate(
        TransferId::new(1),
        AccountId::new(1),
        AccountId::new(2),
        Amount::new(u128::MAX - 5),
        1,
    )
    .unwrap();
    let t2 = Transfer::new_immediate(
        TransferId::new(2),
        AccountId::new(1),
        AccountId::new(2),
        Amount::new(10),
        2,
    )
    .unwrap();
    let sub = rail.submit_batch(42, &[t1, t2]).unwrap();
    assert_eq!(sub.rail_name, "Mock-ACH");
    assert_eq!(sub.batch_seq, 42);
    assert_eq!(sub.transfer_count, 2);
    assert_eq!(sub.total_amount, u128::MAX);
    assert_eq!(sub.reference, "ACH-NACHA-BATCH-000042");
    assert_eq!(sub.merkle_root, None);

    let empty = rail.submit_batch(1_234_567, &[]).unwrap();
    assert_eq!(empty.total_amount, 0);
    assert_eq!(empty.reference, "ACH-NACHA-BATCH-1234567");
}

#[test]
fn reconciliation_checks_chain_and_accounts() {
    let ledger = seeded_ledger();
    let report = ReconciliationEngine::audit(&[], &ledger, &[1], None, 7).unwrap();
    assert_eq!(report.status, ReconciliationStatus::Clean);
    assert_eq!(report.reconciled_transfers, 0);

    let root = SettlementRoot { total_settled_amount: 5 };
    let report = ReconciliationEngine::audit(&[], &ledger, &[1], Some(&root), 1_700_000_100).unwrap();
    assert_eq!(report.status, ReconciliationStatus::DriftDetected);
    assert_eq!(report.drift, 0);
    assert_eq!(report.chain_settled_total, 5);
    let incident = report.incident.unwrap();
    assert_eq!(incident.incident_id, "INC-RECON-1700000100");
    assert_eq!(incident.details, "Discrepancy: App=0, Ledger=0, Chain=5, Drift=0");
    assert_eq!(
        incident.recommended_action,
        "Halt automated batch settlement and inspect unposted transaction buffer."
    );

    let missing = ReconciliationEngine::audit(&[], &ledger, &[1, 9], None, 7).unwrap_err();
    assert_eq!(missing, ReconciliationError::AccountNotFound(2_000_009));
}

#[test]
fn reconciliation_incident_renders_negative_drift() {
    let mut ledger = seeded_ledger();
    let t = Transfer::new_immediate(
        TransferId::new(1),
        AccountDirectory::customer(101),
        AccountDirectory::merchant(2),
        Amount::new(300),
        1_700_000_001,
    )
    .unwrap();
    ledger.create_transfer(t).unwrap();
    let mut p = Payment::new_authorized(1, 2, 101, 1000, 0, 1, 1);
    p.transition_to_captured(2, 2).unwrap();
    let voided = Payment::new_authorized(2, 2, 101, 999, 0, 3, 1);
    let report = ReconciliationEngine::audit(&[p, voided], &ledger, &[2], None, 9).unwrap();
    assert_eq!(report.app_settled_total, 1000);
    assert_eq!(report.ledger_settled_total, 300);
    assert_eq!(report.drift, -700);
    assert_eq!(report.reconciled_transfers, 1);
    assert_eq!(
        report.incident.unwrap().details,
        "Discrepancy: App=1000, Ledger=300, Chain=0, Drift=-700"
    );
}

#[test]
fn demo_errors_convert() {
    let e: PaymentError = LedgerError::ArithmeticOverflow.into();
    assert_eq!(e, PaymentError::Ledger(LedgerError::ArithmeticOverflow));
    let r: RailError = MmrError::EmptyMmr.into();
    assert_eq!(r, RailError::Merkle(MmrError::EmptyMmr));
    let d: DemoError = r.into();
    assert_eq!(d, DemoError::Rail(RailError::Merkle(MmrError::EmptyMmr)));
    let d: DemoError = WebhookError::MissingSignature.into();
    assert_eq!(d, DemoError::Webhook(WebhookError::MissingSignature));
    let d: DemoError = IdempotencyError::ConcurrentRequest("x".to_string()).into();
    assert!(matches!(d, DemoError::Idempotency(_)));
    let d: DemoError = ReconciliationError::AccountNotFound(3).into();
    assert_eq!(d, DemoError::Reconciliation(ReconciliationError::AccountNotFound(3)));
    let d: DemoError = PaymentError::AmountOverflow.into();
    assert_eq!(d, DemoError::Payment(PaymentError::AmountOverflow));
    let _ = AccountFlags::customer();
}

#[test]
fn dashboard_fills_every_placeholder() {
    let payments = vec![
        Payment::new_authorized(1, 1, 101, 10, 0, 1, 1),
        Payment::new_authorized(2, 1, 101, 20, 0, 2, 1),
    ];
    let page = render_dashboard_html(&payments, 7, "AUTHKEY", "PDAKEY", Some("abcd"));
    assert!(page.contains("TrustLedger Settlement Engine"));
    assert!(page.contains("#7</span>"));
    assert!(page.contains("title=\"PDAKEY\">PDAKEY</span>"));
    assert!(page.contains("title=\"abcd\">abcd</span>"));
    assert!(page.contains("2 records"));
    assert!(!page.contains("__PAYMENTS_COUNT__"));
    assert!(!page.contains("__CURRENT_BATCH_SEQ__"));
    assert!(!page.contains("__SOLANA_PDA__"));
    assert!(!page.contains("__LATEST_ROOT_HEX__"));
    assert!(page.starts_with("<!DOCTYPE html>"));
    assert!(page.ends_with("</html>"));
}

#[test]
fn dashboard_without_root_says_awaiting() {
    let page = render_dashboard_html(&[], 0, "a", "b", None);
    assert!(page.contains("None (Awaiting first batch commit)"));
    assert!(page.contains("0 records"));
}

#[test]
fn dashboard_depends_on_payments_only_through_their_count() {
    let a = vec![Payment::new_authorized(1, 1, 101, 10, 0, 1, 1)];
    let b = vec![Payment::new_authorized(9, 2, 102, 99, 3, 4, 5)];
    assert_eq!(
        render_dashboard_html(&a, 3, "auth", "pda", Some("root")),
        render_dashboard_html(&b, 3, "auth", "pda", Some("root"))
    );
}
