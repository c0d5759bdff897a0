//! The counters.

use tcpkali2::latency::RecordFailure;
use tcpkali2::stats::{LocalStatsCache, QpsSample, Stats};

fn counting() -> Stats {
    let mut stats = Stats::new(0);
    stats.end_warmup(0);
    stats
}

#[test]
fn fresh_counters() {
    let stats = Stats::new(77);
    assert_eq!(stats.total_connections, 0);
    assert_eq!(stats.success_connections, 0);
    assert_eq!(stats.total_requests, 0);
    assert_eq!(stats.connection_errors, 0);
    assert_eq!(stats.last_print_time, 77);
    assert!(stats.is_warmup());
    assert!(!stats.is_shutting_down());
    assert_eq!(stats.latency_histogram.len(), 0);
}

#[test]
fn the_warmup_counts_nothing() {
    let mut stats = Stats::new(0);
    stats.record_request(10, 20);
    assert_eq!(stats.record_latency(u64::MAX, 0), None);
    assert_eq!(stats.record_latency(5, 256), None);
    let mut cache = LocalStatsCache::new();
    cache.record_request(1, 2);
    stats.record_request_batch(&cache);
    assert_eq!(stats.total_requests, 0);
    assert_eq!(stats.total_bytes_sent, 0);
    assert_eq!(stats.total_bytes_received, 0);
    assert_eq!(stats.latency_histogram.len(), 0);
}

#[test]
fn requests_are_counted() {
    let mut stats = counting();
    stats.record_request(10, 20);
    stats.record_request(1, 2);
    assert_eq!(stats.total_requests, 2);
    assert_eq!(stats.total_bytes_sent, 11);
    assert_eq!(stats.total_bytes_received, 22);
}

#[test]
fn counters_wrap() {
    let mut stats = counting();
    stats.total_requests = u64::MAX;
    stats.connection_errors = u64::MAX;
    stats.record_request(0, 0);
    stats.record_connection_error();
    assert_eq!(stats.total_requests, 0);
    assert_eq!(stats.connection_errors, 0);
}

#[test]
fn every_256th_latency_is_recorded() {
    let mut stats = counting();
    for count in 0..=512usize {
        assert_eq!(stats.record_latency(100, count), None);
    }
    assert_eq!(stats.latency_histogram.len(), 3);
    assert_eq!(stats.record_latency(u64::MAX, 255), None);
    assert_eq!(stats.record_latency(u64::MAX, 256), Some(RecordFailure::OutOfRange));
    stats.set_shutting_down();
    assert_eq!(stats.record_latency(u64::MAX, 256), None);
    assert_eq!(stats.latency_histogram.len(), 3);
}

#[test]
fn a_batch_counts_as_single_requests() {
    let mut one_by_one = counting();
    let mut in_one_go = counting();
    let mut cache = LocalStatsCache::default();
    for (sent, received) in [(1usize, 2usize), (30, 40), (500, 600)] {
        one_by_one.record_request(sent, received);
        cache.record_request(sent, received);
    }
    assert_eq!((cache.requests, cache.bytes_sent, cache.bytes_received), (3, 531, 642));
    in_one_go.record_request_batch(&cache);
    assert_eq!(in_one_go.total_requests, one_by_one.total_requests);
    assert_eq!(in_one_go.total_bytes_sent, one_by_one.total_bytes_sent);
    assert_eq!(in_one_go.total_bytes_received, one_by_one.total_bytes_received);
    cache.reset();
    in_one_go.record_request_batch(&cache);
    assert_eq!(in_one_go.total_requests, 3);
}

#[test]
fn a_cache_is_committed_in_the_warmup_too() {
    let mut stats = Stats::new(0);
    let mut cache = LocalStatsCache::new();
    cache.commit_to(&mut stats);
    assert_eq!(stats.total_requests, 0);
    cache.record_request(5, 6);
    cache.commit_to(&mut stats);
    assert_eq!(stats.total_requests, 1);
    assert_eq!(stats.total_bytes_sent, 5);
    assert_eq!(stats.total_bytes_received, 6);
}

#[test]
fn a_cache_without_requests_adds_no_bytes() {
    let mut stats = counting();
    let cache = LocalStatsCache { requests: 0, bytes_sent: 9, bytes_received: 9 };
    cache.commit_to(&mut stats);
    stats.record_request_batch(&cache);
    assert_eq!(stats.total_bytes_sent, 0);
    assert_eq!(stats.total_bytes_received, 0);
}

#[test]
fn connections_are_counted() {
    let mut stats = Stats::new(0);
    stats.record_connection_attempt();
    stats.record_connection_attempt();
    stats.record_connection_success();
    stats.record_connection_error();
    assert_eq!(stats.total_connections, 2);
    assert_eq!(stats.success_connections, 1);
    assert_eq!(stats.connection_errors, 1);
}

#[test]
fn the_end_of_the_warmup_forgets() {
    let mut stats = counting();
    stats.record_request(10, 20);
    assert_eq!(stats.record_latency(50, 0), None);
    stats.record_connection_attempt();
    stats.record_connection_error();
    stats.end_warmup(99);
    assert_eq!(stats.total_requests, 0);
    assert_eq!(stats.total_bytes_sent, 0);
    assert_eq!(stats.total_bytes_received, 0);
    assert_eq!(stats.latency_histogram.len(), 0);
    assert_eq!(stats.last_print_time, 99);
    assert_eq!(stats.last_print_count, 0);
    assert_eq!(stats.total_connections, 1);
    assert_eq!(stats.connection_errors, 1);
    assert!(!stats.is_warmup());
}

#[test]
fn the_request_rate_is_that_since_the_last_reading() {
    let mut stats = counting();
    stats.total_requests = 500;
    assert_eq!(stats.get_qps(250), Some(QpsSample { requests: 500, elapsed_ms: 250 }));
    assert_eq!(stats.get_qps(250), None);
    stats.total_requests = 530;
    assert_eq!(stats.get_qps(1250), Some(QpsSample { requests: 30, elapsed_ms: 1000 }));
    stats.total_requests = 600;
    stats.restart_rate(2000);
    assert_eq!(stats.get_qps(2001), Some(QpsSample { requests: 0, elapsed_ms: 1 }));
}
