use txmetrics::labels::{MetricsTxStatus, MetricsTxType};
use txmetrics::metrics::{text_or_empty, Metrics};
use txmetrics::service::{classify, draw_classification};
use txmetrics::ids::parse_id;

#[test]
fn label_strings() {
    assert_eq!(MetricsTxStatus::Failed.to_str(), "failed");
    assert_eq!(MetricsTxStatus::Succeeded.to_str(), "succeeded");
    assert_eq!(MetricsTxType::Normal.to_str(), "normal");
    assert_eq!(MetricsTxType::Blobs.to_str(), "blobs");
}

#[test]
fn fresh_metrics_render_zero_total() {
    let metrics = Metrics::new();
    let text = metrics.gather_metrics();
    assert!(text.contains("# HELP transactions_total Keeps track of all transactions\n"));
    assert!(text.contains("# TYPE transactions_total counter\n"));
    assert!(text.contains("transactions_total 0\n"));
    assert!(!text.contains("transactions_tracker{"));
}

#[test]
fn render_shows_each_label_pair_and_total() {
    let mut metrics = Metrics::new();
    let (k1, k2, k3) = (3, 2, 4);
    for _ in 0..k1 {
        metrics.inc_tx();
        metrics.inc_tx_with_status_and_type(MetricsTxStatus::Succeeded, MetricsTxType::Normal);
    }
    for _ in 0..k2 {
        metrics.inc_tx();
        metrics.inc_tx_with_status_and_type(MetricsTxStatus::Failed, MetricsTxType::Blobs);
    }
    for _ in 0..k3 {
        metrics.inc_tx();
        metrics.inc_tx_with_status_and_type(MetricsTxStatus::Succeeded, MetricsTxType::Blobs);
    }
    let text = metrics.gather_metrics();
    assert!(text.contains("transactions_tracker{status=\"succeeded\",tx_type=\"normal\"} 3\n"));
    assert!(text.contains("transactions_tracker{status=\"failed\",tx_type=\"blobs\"} 2\n"));
    assert!(text.contains("transactions_tracker{status=\"succeeded\",tx_type=\"blobs\"} 4\n"));
    assert!(!text.contains("tx_type=\"normal\"} 0"));
    assert!(!text.contains("status=\"failed\",tx_type=\"normal\""));
    assert!(text.contains("transactions_total 9\n"));
}

#[test]
fn render_twice_is_identical() {
    let mut metrics = Metrics::new();
    metrics.inc_tx();
    metrics.inc_tx_with_status_and_type(MetricsTxStatus::Failed, MetricsTxType::Normal);
    let first = metrics.gather_metrics();
    let second = metrics.gather_metrics();
    assert!(!first.is_empty());
    assert_eq!(first, second);
}

#[test]
fn total_counted_before_labels() {
    let mut metrics = Metrics::new();
    metrics.inc_tx();
    metrics.inc_tx();
    metrics.inc_tx_with_status_and_type(MetricsTxStatus::Succeeded, MetricsTxType::Blobs);
    let text = metrics.gather_metrics();
    assert!(text.contains("transactions_tracker{status=\"succeeded\",tx_type=\"blobs\"} 1\n"));
    assert!(text.contains("transactions_total 2\n"));
    assert!(metrics.has_room());
}

#[test]
fn default_matches_new() {
    let fresh = Metrics::default();
    assert_eq!(fresh.gather_metrics(), Metrics::new().gather_metrics());
    assert!(fresh.gather_metrics().contains("transactions_total 0\n"));
}

#[test]
fn equal_counts_render_equal_text() {
    let mut first = Metrics::new();
    let mut second = Metrics::new();
    first.inc_tx();
    first.inc_tx_with_status_and_type(MetricsTxStatus::Failed, MetricsTxType::Normal);
    first.inc_tx();
    first.inc_tx_with_status_and_type(MetricsTxStatus::Succeeded, MetricsTxType::Blobs);
    second.inc_tx();
    second.inc_tx_with_status_and_type(MetricsTxStatus::Succeeded, MetricsTxType::Blobs);
    second.inc_tx();
    second.inc_tx_with_status_and_type(MetricsTxStatus::Failed, MetricsTxType::Normal);
    assert_eq!(first.gather_metrics(), second.gather_metrics());
}

#[test]
fn text_or_empty_cases() {
    assert_eq!(text_or_empty(None), "");
    assert_eq!(text_or_empty(Some("x 1\n".to_string())), "x 1\n");
}

#[test]
fn classify_each_pair() {
    assert_eq!(classify(true, true), (MetricsTxStatus::Succeeded, MetricsTxType::Normal));
    assert_eq!(classify(true, false), (MetricsTxStatus::Succeeded, MetricsTxType::Blobs));
    assert_eq!(classify(false, true), (MetricsTxStatus::Failed, MetricsTxType::Normal));
    assert_eq!(classify(false, false), (MetricsTxStatus::Failed, MetricsTxType::Blobs));
}

#[test]
fn drawn_classification_is_a_pair() {
    for _ in 0..20 {
        let (status, tx_type) = draw_classification();
        assert!(matches!(status, MetricsTxStatus::Failed | MetricsTxStatus::Succeeded));
        assert!(matches!(tx_type, MetricsTxType::Normal | MetricsTxType::Blobs));
    }
}

#[test]
fn parse_id_cases() {
    assert_eq!(parse_id("42"), Some(42));
    assert_eq!(parse_id("+7"), Some(7));
    assert_eq!(parse_id("007"), Some(7));
    assert_eq!(parse_id("18446744073709551615"), Some(u64::MAX));
    assert_eq!(parse_id("18446744073709551616"), None);
    assert_eq!(parse_id(""), None);
    assert_eq!(parse_id("+"), None);
    assert_eq!(parse_id("-1"), None);
    assert_eq!(parse_id("12a"), None);
    assert_eq!(parse_id(" 1"), None);
}
