//! The histogram of latencies.

use tcpkali2::latency::{LatencyHistogram, RecordFailure};

#[test]
fn an_empty_histogram() {
    let h = LatencyHistogram::new();
    assert_eq!(h.len(), 0);
    assert_eq!(h.min(), 0);
    assert_eq!(h.max(), 0);
    assert_eq!(h.value_at_percentile(50), 0);
    assert_eq!(h.mean_text(), "0.0");
}

#[test]
fn small_latencies_are_exact() {
    let mut h = LatencyHistogram::new();
    for value in [300u64, 100, 200] {
        assert_eq!(h.record(value), Ok(()));
    }
    assert_eq!(h.len(), 3);
    assert_eq!(h.min(), 100);
    assert_eq!(h.max(), 300);
    assert_eq!(h.value_at_percentile(1), 100);
    assert_eq!(h.value_at_percentile(50), 200);
    assert_eq!(h.value_at_percentile(99), 300);
    assert_eq!(h.mean_text(), "200.0");
}

#[test]
fn large_latencies_fall_into_classes() {
    let mut h = LatencyHistogram::new();
    assert_eq!(h.record(5001), Ok(()));
    assert_eq!(h.min(), 5000);
    assert_eq!(h.max(), 5003);
    assert_eq!(h.value_at_percentile(50), 5003);
    // The greatest class counts.
    assert_eq!(h.record(7), Ok(()));
    assert_eq!(h.min(), 7);
    assert_eq!(h.max(), 5003);
}

#[test]
fn latencies_out_of_range_are_refused() {
    let mut h = LatencyHistogram::new();
    assert_eq!(h.record(60_000_000), Ok(()));
    assert_eq!(h.record(67_108_863), Ok(()));
    assert_eq!(h.len(), 2);
    assert_eq!(h.record(67_108_864), Err(RecordFailure::OutOfRange));
    assert_eq!(h.record(u64::MAX), Err(RecordFailure::OutOfRange));
    assert_eq!(h.len(), 2);
}

#[test]
fn a_zero_latency_counts() {
    let mut h = LatencyHistogram::new();
    assert_eq!(h.record(0), Ok(()));
    assert_eq!(h.len(), 1);
    assert_eq!(h.min(), 0);
    assert_eq!(h.max(), 0);
}

#[test]
fn a_reset_forgets() {
    let mut h = LatencyHistogram::new();
    assert_eq!(h.record(42), Ok(()));
    h.reset();
    assert_eq!(h.len(), 0);
    assert_eq!(h.max(), 0);
    assert_eq!(h.record(67_108_864), Err(RecordFailure::OutOfRange));
    assert_eq!(h.record(43), Ok(()));
    assert_eq!(h.min(), 43);
}

#[test]
fn the_mean_has_one_decimal_place() {
    let mut h = LatencyHistogram::new();
    for value in [1u64, 2, 2] {
        assert_eq!(h.record(value), Ok(()));
    }
    assert_eq!(h.mean_text(), "1.7");
}

#[test]
fn percentiles_lie_between_the_least_and_the_greatest() {
    let mut h = LatencyHistogram::new();
    for value in [9u64, 2_047, 2_048, 99_999, 12_345_678] {
        assert_eq!(h.record(value), Ok(()));
        for percent in [1u8, 50, 90, 95, 99] {
            let latency = h.value_at_percentile(percent);
            assert!(h.min() <= latency && latency <= h.max());
        }
        // Three digits are kept.
        assert!(value <= h.max() && (h.max() - value) * 1000 <= value);
    }
}
