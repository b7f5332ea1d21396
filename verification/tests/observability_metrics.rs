//! Counter and gauge behaviour.

use trustledger::observability::counter::Counter;
use trustledger::observability::gauge::Gauge;

#[test]
fn test_counter_increments() {
    let mut counter = Counter::new("test_counter", "A test counter");
    assert_eq!(counter.get(), 0);
    counter.inc();
    assert_eq!(counter.get(), 1);
    counter.inc_by(41);
    assert_eq!(counter.get(), 42);
}

#[test]
fn test_gauge_operations() {
    let mut gauge = Gauge::new("test_gauge", "A test gauge");
    assert_eq!(gauge.get(), 0);
    gauge.set(100);
    assert_eq!(gauge.get(), 100);
    gauge.inc();
    assert_eq!(gauge.get(), 101);
    gauge.sub(51);
    assert_eq!(gauge.get(), 50);
    gauge.dec();
    assert_eq!(gauge.get(), 49);
}

#[test]
fn counter_wraps_like_an_atomic() {
    let mut counter = Counter::new("wrap", "wraps at the top");
    counter.inc_by(u64::MAX);
    assert_eq!(counter.get(), u64::MAX);
    counter.inc();
    assert_eq!(counter.get(), 0);
    assert_eq!(counter.name(), "wrap");
    assert_eq!(counter.help(), "wraps at the top");
}

#[test]
fn gauge_wraps_like_an_atomic() {
    let mut gauge = Gauge::new("g", "h");
    gauge.set(i64::MIN);
    gauge.dec();
    assert_eq!(gauge.get(), i64::MAX);
    gauge.add(2);
    assert_eq!(gauge.get(), i64::MIN + 1);
    assert_eq!(gauge.name(), "g");
    assert_eq!(gauge.help(), "h");
}
