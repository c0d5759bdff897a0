//! The reader of a pipelined connection, and the queue that it reads from.

use tcpkali2::reader::{Incoming, Reader};
use tcpkali2::sent_times::{SentTimes, Taken};
use tcpkali2::stats::Stats;
use tcpkali2::time::Duration;
use tcpkali2::worker::{Notice, Plan, Transport};

fn plan(transport: Transport) -> Plan {
    Plan {
        transport,
        pipeline: true,
        quiet: false,
        nagle: false,
        connect_timeout: Duration::from_secs(1),
        first_len: None,
        message_len: Some(4),
        message_rate: None,
        warmup: Duration::from_secs(0),
        lifetime: None,
    }
}

fn counting() -> Stats {
    let mut stats = Stats::new(0);
    stats.end_warmup(0);
    stats
}

#[test]
fn send_times_come_out_in_order() {
    let mut sent = SentTimes::new();
    assert_eq!(sent.take(), Taken::Empty);
    sent.push(3);
    sent.push(1);
    assert_eq!(sent.take(), Taken::Time(3));
    sent.push(2);
    assert_eq!(sent.take(), Taken::Time(1));
    assert_eq!(sent.take(), Taken::Time(2));
    assert_eq!(sent.take(), Taken::Empty);
}

#[test]
fn replies_are_measured_from_the_oldest_message() {
    let mut stats = counting();
    let mut sent = SentTimes::new();
    let mut reader = Reader::new(plan(Transport::Tcp));
    reader.counter = 255;
    sent.push(1_000);
    sent.push(50_000);
    let step = reader.step(&mut stats, &mut sent, Incoming::Reply(4), 8_000);
    assert!(step.goes_on);
    assert_eq!(step.news.notice, None);
    assert_eq!(reader.counter, 256);
    assert_eq!(stats.total_requests, 1);
    assert_eq!(stats.total_bytes_sent, 4);
    assert_eq!(stats.total_bytes_received, 4);
    assert_eq!(stats.latency_histogram.len(), 1);
    assert_eq!(stats.latency_histogram.max(), 7);
    assert_eq!(sent.take(), Taken::Time(50_000));
}

#[test]
fn a_reply_without_a_message_is_not_a_request() {
    let mut stats = counting();
    let mut sent = SentTimes::new();
    let mut reader = Reader::new(plan(Transport::Tcp));
    let step = reader.step(&mut stats, &mut sent, Incoming::Reply(4), 0);
    assert!(step.goes_on);
    assert_eq!(reader.counter, 1);
    assert_eq!(stats.total_requests, 0);
    let step = reader.count_reply(&mut stats, Taken::Disturbed, 4, 0);
    assert!(step.goes_on);
    assert_eq!(reader.counter, 2);
    assert_eq!(stats.total_requests, 0);
}

#[test]
fn a_websocket_counts_the_message_as_sent() {
    let mut stats = counting();
    let mut sent = SentTimes::new();
    let mut reader = Reader::new(plan(Transport::WebSocket));
    sent.push(0);
    let step = reader.step(&mut stats, &mut sent, Incoming::Reply(9), 0);
    assert!(step.goes_on);
    assert_eq!(stats.total_requests, 1);
    assert_eq!(stats.total_bytes_sent, 4);
    assert_eq!(stats.total_bytes_received, 9);
    let step = reader.step(&mut stats, &mut sent, Incoming::Other, 0);
    assert!(step.goes_on);
    assert_eq!(reader.counter, 1);
}

#[test]
fn an_empty_reply_over_tcp_ends_the_reader() {
    let mut stats = counting();
    let mut sent = SentTimes::new();
    let mut p = plan(Transport::Tcp);
    p.message_len = Some(0);
    let mut reader = Reader::new(p);
    let step = reader.step(&mut stats, &mut sent, Incoming::Reply(0), 0);
    assert!(!step.goes_on);
    assert_eq!(stats.total_requests, 0);
    assert_eq!(stats.connection_errors, 0);
}

#[test]
fn what_ends_a_reader() {
    let mut sent = SentTimes::new();
    sent.push(0);
    for incoming in [Incoming::Ended, Incoming::Interrupted, Incoming::Reply(3)] {
        let mut stats = counting();
        let mut reader = Reader::new(plan(Transport::Tcp));
        let step = reader.step(&mut stats, &mut sent, incoming, 0);
        assert!(!step.goes_on);
        assert_eq!(step.news.notice, None);
        assert_eq!(stats.connection_errors, 0);
    }
    let mut stats = counting();
    let mut reader = Reader::new(plan(Transport::Tcp));
    let step = reader.step(&mut stats, &mut sent, Incoming::Failed, 0);
    assert!(!step.goes_on);
    assert_eq!(step.news.notice, Some(Notice::ReceiveFailed));
    assert_eq!(stats.connection_errors, 1);
    stats.set_shutting_down();
    let step = reader.step(&mut stats, &mut sent, Incoming::Failed, 0);
    assert_eq!(step.news.notice, None);
    assert_eq!(stats.connection_errors, 2);
    assert_eq!(sent.take(), Taken::Time(0));
}
