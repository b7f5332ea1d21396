//! The simulated network's faults, amounts on the wire and the exposition of
//! scalar metrics.

use std::collections::BTreeSet;

use trustledger::ingest::error::IngestError;
use trustledger::ingest::wire::{amount_to_wire, parse_amount, WireAmount};
use trustledger::ledger_core::amount::{Amount, Scale};
use trustledger::ledger_core::error::LedgerError;
use trustledger::observability::counter::Counter;
use trustledger::observability::exposition::render_scalar_metrics;
use trustledger::observability::gauge::Gauge;
use trustledger::raft::network::RouterState;

#[test]
fn isolation_and_partitions_block_traffic_until_healed() {
    let mut router = RouterState::new();
    assert!(router.can_communicate(1, 2));
    router.isolate(3);
    assert!(!router.can_communicate(3, 1));
    assert!(!router.can_communicate(1, 3));
    assert!(router.can_communicate(1, 2));
    router.unisolate(3);
    assert!(router.can_communicate(3, 1));

    router.partition(BTreeSet::from([1]), BTreeSet::from([2, 3]));
    assert!(!router.can_communicate(1, 2));
    assert!(!router.can_communicate(3, 1));
    assert!(router.can_communicate(2, 3));
    router.heal();
    assert!(router.can_communicate(1, 2));
    assert!(router.can_communicate(3, 1));
}

#[test]
fn wire_amounts_split_and_join_units() {
    let big = Amount::new((7u128 << 64) + 9);
    let w = amount_to_wire(big, 6);
    assert_eq!(w, WireAmount { units: 9, scale: 6, units_high: 7 });
    assert_eq!(parse_amount(Scale::usdc(), Some(w)).unwrap(), big);
    let implicit = WireAmount { scale: 0, ..w };
    assert_eq!(parse_amount(Scale::usdc(), Some(implicit)).unwrap(), big);
}

#[test]
fn wire_amounts_reject_bad_scales() {
    match parse_amount(Scale::usdc(), None) {
        Err(IngestError::InvalidInput(msg)) => assert_eq!(msg, "amount is required"),
        other => panic!("unexpected {other:?}"),
    }
    let w = WireAmount { units: 1, scale: 300, units_high: 0 };
    match parse_amount(Scale::usdc(), Some(w)) {
        Err(IngestError::InvalidInput(msg)) => assert_eq!(msg, "amount scale exceeds u8 limit"),
        other => panic!("unexpected {other:?}"),
    }
    let w = WireAmount { units: 1, scale: 19, units_high: 0 };
    assert!(matches!(
        parse_amount(Scale::usdc(), Some(w)),
        Err(IngestError::Ledger(LedgerError::InvalidScale(19)))
    ));
    let w = WireAmount { units: 1, scale: 2, units_high: 0 };
    assert!(matches!(
        parse_amount(Scale::usdc(), Some(w)),
        Err(IngestError::Ledger(LedgerError::ScaleMismatch { .. }))
    ));
}

#[test]
fn scalar_metrics_render_in_prometheus_text() {
    let mut received = Counter::new("trustledger_transfers_received_total", "Transfers received");
    received.inc_by(5);
    let mut drift = Gauge::new("trustledger_reconciliation_drift_gauge", "Drift");
    drift.set(-3);
    let text = render_scalar_metrics(&[received], &[drift]);
    assert_eq!(
        text,
        "# HELP trustledger_transfers_received_total Transfers received\n\
         # TYPE trustledger_transfers_received_total counter\n\
         trustledger_transfers_received_total 5\n\
         # HELP trustledger_reconciliation_drift_gauge Drift\n\
         # TYPE trustledger_reconciliation_drift_gauge gauge\n\
         trustledger_reconciliation_drift_gauge -3\n"
    );
}
