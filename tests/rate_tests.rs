use txmetrics::labels::{MetricsTxStatus, MetricsTxType};
use txmetrics::metrics::Metrics;
use txmetrics::rate::RateCounter;
use txmetrics::store::{Transaction, TransactionStore};
use txmetrics::service::accept_transaction;

#[test]
fn snapshot_counts_increments() {
    let mut rate = RateCounter::new();
    assert_eq!(rate.snapshot(), 0);
    for _ in 0..17 {
        rate.increment();
    }
    assert_eq!(rate.snapshot(), 17);
}

#[test]
fn reset_clears_counter() {
    let mut rate = RateCounter::new();
    for _ in 0..3 {
        rate.increment();
    }
    rate.reset();
    assert_eq!(rate.snapshot(), 0);
    rate.reset();
    assert_eq!(rate.snapshot(), 0);
    assert!(rate.has_room());
}

#[test]
fn five_accepted_then_window_ends() {
    let mut store = TransactionStore::new();
    let mut rate = RateCounter::new();
    let mut metrics = Metrics::new();
    for id in 0..5u64 {
        let tx = Transaction { operation: "buy".to_string(), id, value_bits: 1.5f64.to_bits() };
        assert!(accept_transaction(
            &mut store,
            &mut rate,
            &mut metrics,
            tx,
            MetricsTxStatus::Succeeded,
            MetricsTxType::Normal,
        ));
    }
    assert_eq!(rate.snapshot(), 5);
    assert_eq!(rate.snapshot(), 5);
    rate.reset();
    assert_eq!(rate.snapshot(), 0);
    assert_eq!(store.len(), 5);
}

#[test]
fn accept_duplicate_still_counts() {
    let mut store = TransactionStore::new();
    let mut rate = RateCounter::new();
    let mut metrics = Metrics::new();
    let first = Transaction { operation: "a".to_string(), id: 9, value_bits: 0 };
    let second = Transaction { operation: "b".to_string(), id: 9, value_bits: 1 };
    assert!(accept_transaction(&mut store, &mut rate, &mut metrics, first,
        MetricsTxStatus::Failed, MetricsTxType::Blobs));
    assert!(!accept_transaction(&mut store, &mut rate, &mut metrics, second,
        MetricsTxStatus::Failed, MetricsTxType::Blobs));
    assert_eq!(rate.snapshot(), 2);
    assert_eq!(store.get(9).unwrap().operation, "a");
    let text = metrics.gather_metrics();
    assert!(text.contains("transactions_total 2\n"));
    assert!(text.contains("transactions_tracker{status=\"failed\",tx_type=\"blobs\"} 2\n"));
}
