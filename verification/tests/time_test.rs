//! Spans of time.

use tcpkali2::time::{elapsed_nanos, Duration};

#[test]
fn parts_of_a_span() {
    let d = Duration::from_millis(12_345);
    assert_eq!(d.as_secs(), 12);
    assert_eq!(d.subsec_nanos(), 345_000_000);
    assert_eq!(d.as_nanos(), 12_345_000_000);
    assert_eq!(d.as_millis_u64(), 12_345);
    assert!(!d.is_zero());
    assert!(Duration::new(0, 0).is_zero());
    assert!(!Duration::new(0, 1).is_zero());
    assert_eq!(Duration::from_secs(2), Duration::from_millis(2000));
}

#[test]
fn the_time_between_two_readings() {
    assert_eq!(elapsed_nanos(5, 12), 7);
    assert_eq!(elapsed_nanos(12, 5), 0);
}
