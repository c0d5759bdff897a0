//! What a connection does next.

use tcpkali2::latency::RecordFailure;
use tcpkali2::sent_times::{SentTimes, Taken};
use tcpkali2::stats::Stats;
use tcpkali2::time::Duration;
use tcpkali2::worker::{Action, Event, Notice, Phase, Plan, Step, Transport, Worker};

const MS: u64 = 1_000_000;

fn plan(transport: Transport, pipeline: bool) -> Plan {
    Plan {
        transport,
        pipeline,
        quiet: false,
        nagle: false,
        connect_timeout: Duration::from_secs(1),
        first_len: None,
        message_len: Some(4),
        message_rate: None,
        warmup: Duration::from_secs(0),
        lifetime: None,
    }
}

fn counting() -> Stats {
    let mut stats = Stats::new(0);
    stats.end_warmup(0);
    stats
}

struct Bench {
    worker: Worker,
    stats: Stats,
    sent: SentTimes,
}

impl Bench {
    fn new(plan: Plan) -> Bench {
        let mut stats = counting();
        let (worker, step) = Worker::start(plan, None, &mut stats);
        assert_eq!(step.action, Action::Connect(plan.connect_timeout));
        assert_eq!(step.news.notice, None);
        Bench { worker, stats, sent: SentTimes::new() }
    }

    fn step(&mut self, event: Event, now: u64) -> Step {
        assert!(self.worker.can_take(event));
        self.worker.step(&mut self.stats, &mut self.sent, event, now)
    }

    /// Opens the connection; over TCP an option is set first.
    fn open(&mut self, now: u64) -> Step {
        let step = self.step(Event::Connected, now);
        if self.worker.plan.transport == Transport::Tcp {
            assert_eq!(step.action, Action::SetNodelay(!self.worker.plan.nagle));
            self.step(Event::NodelaySet, now)
        } else {
            step
        }
    }

    fn act(&mut self, event: Event, now: u64) -> Action {
        self.step(event, now).action
    }
}

#[test]
fn ping_pong_over_tcp() {
    let mut b = Bench::new(plan(Transport::Tcp, false));
    assert_eq!(b.stats.total_connections, 1);
    assert_eq!(b.open(10).action, Action::Send);
    assert_eq!(b.worker.phase, Phase::Sending { since: 10 });
    assert_eq!(b.act(Event::Sent(4), 11), Action::Receive);
    assert_eq!(b.act(Event::Received(4), 5 * MS), Action::Send);
    assert_eq!(b.stats.total_requests, 1);
    assert_eq!(b.stats.total_bytes_sent, 4);
    assert_eq!(b.stats.total_bytes_received, 4);
    assert_eq!(b.sent.take(), Taken::Empty);
    assert_eq!(b.act(Event::Shutdown, 6 * MS), Action::Finish);
    assert_eq!(b.stats.success_connections, 1);
    assert_eq!(b.stats.connection_errors, 0);
    assert!(!b.worker.can_take(Event::Woke));
}

#[test]
fn a_connection_waits_until_it_is_due() {
    let p = plan(Transport::Tcp, false);
    let delay = Duration::from_millis(70);
    let mut stats = counting();
    let mut sent = SentTimes::new();
    let (mut worker, step) = Worker::start(p, Some(delay), &mut stats);
    assert_eq!(step.action, Action::Wait(delay));
    assert_eq!(stats.total_connections, 0);
    let step = worker.step(&mut stats, &mut sent, Event::Woke, 0);
    assert_eq!(step.action, Action::Connect(p.connect_timeout));
    assert_eq!(stats.total_connections, 1);

    let (mut worker, _) = Worker::start(p, Some(delay), &mut stats);
    assert!(!worker.can_take(Event::Connected));
    let step = worker.step(&mut stats, &mut sent, Event::Shutdown, 0);
    assert_eq!(step.action, Action::Finish);
    assert_eq!(stats.total_connections, 1);
    assert_eq!(stats.success_connections, 0);
    assert_eq!(stats.connection_errors, 0);
}

#[test]
fn connections_that_fail() {
    let mut b = Bench::new(plan(Transport::Tcp, false));
    let step = b.step(Event::ConnectFailed, 0);
    assert_eq!(step.action, Action::Finish);
    assert_eq!(step.news.notice, Some(Notice::ConnectFailed));
    assert_eq!(b.stats.connection_errors, 1);
    assert_eq!(b.stats.success_connections, 0);

    let mut b = Bench::new(plan(Transport::WebSocket, true));
    let step = b.step(Event::ConnectTimedOut, 0);
    assert_eq!(step.action, Action::Finish);
    assert_eq!(step.news.notice, Some(Notice::ConnectTimedOut));
}

#[test]
fn a_quiet_or_ending_test_prints_nothing() {
    let mut quiet = plan(Transport::Tcp, false);
    quiet.quiet = true;
    let mut b = Bench::new(quiet);
    assert_eq!(b.step(Event::ConnectFailed, 0).news.notice, None);
    assert_eq!(b.stats.connection_errors, 1);

    let mut b = Bench::new(plan(Transport::Tcp, false));
    b.stats.set_shutting_down();
    assert_eq!(b.step(Event::ConnectFailed, 0).news.notice, None);
    assert_eq!(b.stats.connection_errors, 1);
}

#[test]
fn nagle_is_as_asked_for_over_tcp() {
    for nagle in [false, true] {
        let mut p = plan(Transport::Tcp, false);
        p.nagle = nagle;
        let mut b = Bench::new(p);
        assert_eq!(b.act(Event::Connected, 0), Action::SetNodelay(!nagle));
        assert_eq!(p.nodelay(), !nagle);
        assert!(!b.worker.can_take(Event::Sent(4)));
        assert_eq!(b.act(Event::NodelaySet, 0), Action::Send);

        let mut b = Bench::new(p);
        b.step(Event::Connected, 0);
        assert_eq!(b.act(Event::NodelayFailed, 0), Action::Fail);
        assert_eq!(b.stats.connection_errors, 0);
        assert_eq!(b.stats.success_connections, 0);

        p.transport = Transport::WebSocket;
        let mut b = Bench::new(p);
        assert_eq!(b.act(Event::Connected, 0), Action::Send);
    }
}

#[test]
fn a_first_message_over_tcp() {
    let mut p = plan(Transport::Tcp, false);
    p.first_len = Some(9);
    let mut b = Bench::new(p);
    assert_eq!(b.open(0).action, Action::SendFirst);
    assert_eq!(b.act(Event::Sent(9), 1), Action::ReceiveFirst);
    assert_eq!(b.act(Event::Received(9), 3_000), Action::Send);
    assert_eq!(b.stats.total_requests, 1);
    assert_eq!(b.stats.total_bytes_sent, 9);
    assert_eq!(b.stats.total_bytes_received, 9);
    assert_eq!(b.stats.latency_histogram.len(), 1);
    assert_eq!(b.stats.latency_histogram.max(), 3);
}

#[test]
fn a_first_message_that_fails() {
    let mut p = plan(Transport::Tcp, false);
    p.first_len = Some(9);
    let told = |events: &[Event]| {
        let mut b = Bench::new(p);
        let mut step = b.open(0);
        for event in events {
            step = b.step(*event, 0);
        }
        assert_eq!(step.action, Action::Finish);
        assert_eq!(b.stats.connection_errors, 1);
        step.news.notice
    };
    assert_eq!(told(&[Event::Sent(8)]), Some(Notice::FirstWritePartial));
    assert_eq!(told(&[Event::SendFailed]), Some(Notice::FirstSendFailed));
    assert_eq!(
        told(&[Event::Sent(9), Event::ReceiveFailed]),
        Some(Notice::FirstReceiveFailed)
    );
}

#[test]
fn a_first_message_over_websocket() {
    let mut p = plan(Transport::WebSocket, false);
    p.first_len = Some(9);
    let mut b = Bench::new(p);
    assert_eq!(b.open(0).action, Action::SendFirst);
    assert_eq!(b.act(Event::Sent(9), 0), Action::ReceiveFirst);
    assert_eq!(b.act(Event::Received(3), 0), Action::Send);
    assert_eq!(b.stats.total_bytes_sent, 9);
    assert_eq!(b.stats.total_bytes_received, 3);

    for event in [Event::ReceivedOther, Event::Ended] {
        let mut b = Bench::new(p);
        b.open(0);
        b.step(Event::Sent(9), 0);
        let step = b.step(event, 0);
        assert_eq!(step.action, Action::Finish);
        assert_eq!(step.news.notice, Some(Notice::FirstUnexpected));
        assert_eq!(b.stats.connection_errors, 1);
    }
}

#[test]
fn a_round_that_fails_is_followed_by_another() {
    let mut b = Bench::new(plan(Transport::Tcp, false));
    b.open(0);
    let step = b.step(Event::Sent(3), 0);
    assert_eq!((step.action, step.news.notice), (Action::Send, Some(Notice::WritePartial)));
    let step = b.step(Event::SendFailed, 0);
    assert_eq!((step.action, step.news.notice), (Action::Send, Some(Notice::SendFailed)));
    b.step(Event::Sent(4), 0);
    let step = b.step(Event::ReceiveFailed, 0);
    assert_eq!((step.action, step.news.notice), (Action::Send, Some(Notice::ReceiveFailed)));
    assert_eq!(b.stats.connection_errors, 3);
    assert_eq!(b.stats.total_requests, 0);
    b.step(Event::Sent(4), 0);
    let step = b.step(Event::Received(2), 0);
    assert_eq!((step.action, step.news.notice), (Action::Send, None));
    assert_eq!(b.stats.total_requests, 0);
}

#[test]
fn an_idle_connection_sends_nothing() {
    for (rate, len) in [(Some(0u64), 4usize), (None, 0)] {
        let mut p = plan(Transport::Tcp, false);
        p.message_rate = rate;
        p.message_len = Some(len);
        let mut b = Bench::new(p);
        assert_eq!(b.open(0).action, Action::Idle);
        assert_eq!(b.act(Event::Woke, 1), Action::Idle);
        b.stats.set_shutting_down();
        assert_eq!(b.act(Event::Woke, 2), Action::Idle);
        assert_eq!(b.act(Event::Shutdown, 3), Action::Finish);
        assert_eq!(b.stats.success_connections, 1);
        assert_eq!(b.stats.total_requests, 0);
    }
}

#[test]
fn the_life_of_a_connection_starts_after_the_warmup() {
    let mut p = plan(Transport::Tcp, false);
    p.warmup = Duration::from_millis(20);
    p.lifetime = Some(Duration::from_millis(30));
    let mut b = Bench::new(p);
    assert_eq!(b.open(MS).action, Action::Send);
    assert_eq!(b.worker.end_time, Some(51 * MS as u128));
    b.step(Event::Sent(4), 2 * MS);
    assert_eq!(b.act(Event::Received(4), 3 * MS), Action::Send);
    b.step(Event::Sent(4), 50 * MS);
    assert_eq!(b.act(Event::Received(4), 51 * MS), Action::Yield);
    assert_eq!(b.act(Event::Woke, 51 * MS), Action::Finish);
    assert_eq!(b.stats.success_connections, 1);
    assert_eq!(b.stats.total_requests, 2);
}

#[test]
fn nothing_is_sent_while_the_test_is_ending() {
    let mut b = Bench::new(plan(Transport::Tcp, false));
    b.stats.set_shutting_down();
    assert_eq!(b.open(0).action, Action::Skip);
    assert_eq!(b.act(Event::Woke, 0), Action::Skip);
    assert_eq!(b.act(Event::Shutdown, 0), Action::Finish);
}

#[test]
fn a_yield_every_ten_milliseconds() {
    let mut b = Bench::new(plan(Transport::Tcp, false));
    b.open(0);
    b.step(Event::Sent(4), 1);
    assert_eq!(b.act(Event::Received(4), 10 * MS - 1), Action::Send);
    b.step(Event::Sent(4), 10 * MS);
    assert_eq!(b.act(Event::Received(4), 10 * MS), Action::Yield);
    assert_eq!(b.act(Event::Woke, 11 * MS), Action::Send);
    b.step(Event::Sent(4), 12 * MS);
    assert_eq!(b.act(Event::Received(4), 20 * MS), Action::Send);
}

#[test]
fn the_message_rate_is_kept_by_pauses() {
    let mut p = plan(Transport::Tcp, false);
    p.message_rate = Some(100);
    assert_eq!(p.pause_after(0), Some(10 * MS));
    assert_eq!(p.pause_after(4 * MS), Some(6 * MS));
    assert_eq!(p.pause_after(10 * MS - 1), Some(1));
    assert_eq!(p.pause_after(10 * MS), None);
    assert_eq!(p.pause_after(11 * MS), None);
    p.message_rate = Some(0);
    assert_eq!(p.pause_after(0), None);
    p.message_rate = Some(1000);
    assert_eq!(p.pause_after(1), Some(MS - 1));
    p.message_rate = Some(3);
    assert_eq!(p.pause_after(0), Some(333_333_334));
    p.message_rate = Some(u64::MAX);
    assert_eq!(p.pause_after(0), Some(1));
    assert_eq!(p.pause_after(1), None);
    p.message_rate = None;
    assert_eq!(p.pause_after(0), None);

    p.message_rate = Some(100);
    let mut b = Bench::new(p);
    b.open(0);
    b.step(Event::Sent(4), 1);
    assert_eq!(b.act(Event::Received(4), 4 * MS), Action::Pause(6 * MS));
    // A pause that was too short is made up for.
    assert_eq!(b.act(Event::Woke, 10 * MS - 1), Action::Pause(1));
    assert_eq!(b.act(Event::Woke, 10 * MS), Action::Yield);
    assert_eq!(b.act(Event::Woke, 10 * MS), Action::Send);
}

#[test]
fn rounds_that_fail_keep_the_message_rate() {
    let mut p = plan(Transport::Tcp, false);
    p.message_rate = Some(100);
    let mut b = Bench::new(p);
    b.open(0);
    let step = b.step(Event::SendFailed, 2 * MS);
    assert_eq!(step.action, Action::Pause(8 * MS));
    assert_eq!(step.news.notice, Some(Notice::SendFailed));
    assert_eq!(b.act(Event::Woke, 10 * MS), Action::Yield);
    assert_eq!(b.act(Event::Woke, 10 * MS), Action::Send);
}

#[test]
fn no_second_sees_more_messages_than_the_rate() {
    for (transport, pipeline) in [
        (Transport::Tcp, false),
        (Transport::Tcp, true),
        (Transport::WebSocket, false),
        (Transport::WebSocket, true),
    ] {
        let mut p = plan(transport, pipeline);
        p.message_rate = Some(2000);
        let mut b = Bench::new(p);
        let mut now = 0;
        let mut action = b.open(now).action;
        let mut times: Vec<u64> = Vec::new();
        while times.len() < 5000 {
            let event = match action {
                Action::StartReader => Event::ReaderStarted,
                Action::Send => {
                    times.push(now);
                    now += 7;
                    Event::Sent(4)
                }
                Action::Receive => {
                    now += 13;
                    Event::Received(4)
                }
                Action::Pause(nanos) => {
                    now += nanos;
                    Event::Woke
                }
                Action::Yield => Event::Woke,
                other => panic!("{:?}", other),
            };
            action = b.act(event, now);
        }
        for i in 0..times.len() - 2000 {
            assert!(times[i + 2000] >= times[i] + 1000 * MS);
        }
    }
}

#[test]
fn a_pipelined_tcp_connection() {
    let mut p = plan(Transport::Tcp, true);
    p.message_rate = Some(100);
    let mut b = Bench::new(p);
    assert_eq!(b.open(0).action, Action::StartReader);
    assert_eq!(b.act(Event::ReaderStarted, 5), Action::Send);
    assert_eq!(b.act(Event::Sent(4), MS), Action::Pause(9 * MS + 5));
    assert_eq!(b.act(Event::Woke, 10 * MS + 5), Action::Send);
    assert_eq!(b.act(Event::Sent(4), 11 * MS), Action::Yield);
    assert_eq!(b.act(Event::Woke, 12 * MS), Action::Pause(8 * MS + 5));
    assert_eq!(b.act(Event::Shutdown, 13 * MS), Action::Join);
    assert_eq!(b.stats.success_connections, 0);
    assert_eq!(b.act(Event::Joined, 14 * MS), Action::Finish);
    assert_eq!(b.stats.success_connections, 1);
    assert_eq!(b.stats.total_requests, 0);
    assert_eq!(b.sent.take(), Taken::Time(5));
    assert_eq!(b.sent.take(), Taken::Time(10 * MS + 5));
    assert_eq!(b.sent.take(), Taken::Empty);
}

#[test]
fn a_pipelined_tcp_connection_with_an_empty_message_ends() {
    let mut p = plan(Transport::Tcp, true);
    p.message_len = Some(0);
    p.lifetime = Some(Duration::from_millis(30));
    let mut b = Bench::new(p);
    assert_eq!(b.open(0).action, Action::Idle);
    assert_eq!(b.act(Event::Woke, 29 * MS), Action::Idle);
    assert_eq!(b.act(Event::Woke, 30 * MS), Action::Finish);
    assert_eq!(b.stats.success_connections, 1);
    assert_eq!(b.stats.total_requests, 0);

    let mut b = Bench::new(p);
    b.open(0);
    assert_eq!(b.act(Event::Shutdown, 1), Action::Finish);
    assert_eq!(b.stats.success_connections, 1);
}

#[test]
fn ping_pong_over_websocket() {
    let mut b = Bench::new(plan(Transport::WebSocket, false));
    assert_eq!(b.open(0).action, Action::Send);
    // The number of bytes sent says nothing over a WebSocket.
    assert_eq!(b.act(Event::Sent(0), 0), Action::Receive);
    assert_eq!(b.act(Event::Received(77), 0), Action::Send);
    assert_eq!(b.stats.total_requests, 1);
    assert_eq!(b.stats.total_bytes_sent, 4);
    assert_eq!(b.stats.total_bytes_received, 77);
    b.step(Event::Sent(0), 0);
    assert_eq!(b.act(Event::ReceivedOther, 0), Action::Send);
    b.step(Event::Sent(0), 0);
    assert_eq!(b.act(Event::Ended, 0), Action::Send);
    assert_eq!(b.stats.total_requests, 1);
    assert_eq!(b.act(Event::Shutdown, 0), Action::Close);
    assert_eq!(b.act(Event::Closed, 0), Action::Finish);
    assert_eq!(b.stats.success_connections, 1);
}

#[test]
fn a_websocket_yields_every_ten_milliseconds_too() {
    let mut b = Bench::new(plan(Transport::WebSocket, false));
    b.open(0);
    b.step(Event::Sent(4), 0);
    assert_eq!(b.act(Event::Received(4), 9 * MS), Action::Send);
    b.step(Event::Sent(4), 9 * MS);
    assert_eq!(b.act(Event::ReceivedOther, 10 * MS), Action::Yield);
    assert_eq!(b.act(Event::Woke, 11 * MS), Action::Send);
    b.step(Event::Sent(4), 12 * MS);
    assert_eq!(b.act(Event::Received(4), 20 * MS), Action::Send);
}

#[test]
fn a_websocket_without_replies_keeps_the_rate() {
    let mut p = plan(Transport::WebSocket, false);
    p.message_rate = Some(10);
    let mut b = Bench::new(p);
    b.open(0);
    b.step(Event::Sent(4), 0);
    assert_eq!(b.act(Event::Ended, 40 * MS), Action::Pause(60 * MS));
}

#[test]
fn a_pipelined_websocket_connection() {
    let mut b = Bench::new(plan(Transport::WebSocket, true));
    assert_eq!(b.open(0).action, Action::StartReader);
    assert_eq!(b.act(Event::ReaderStarted, 1), Action::Send);
    let step = b.step(Event::SendFailed, 2);
    assert_eq!((step.action, step.news.notice), (Action::Send, Some(Notice::SendFailed)));
    assert_eq!(b.act(Event::Sent(0), 3), Action::Send);
    assert_eq!(b.act(Event::Shutdown, 4), Action::Close);
    assert_eq!(b.act(Event::Closed, 5), Action::Join);
    assert_eq!(b.act(Event::Joined, 6), Action::Finish);
    // A message that could not be sent has left its send time too.
    assert_eq!(b.sent.take(), Taken::Time(1));
    assert_eq!(b.sent.take(), Taken::Time(2));
    assert_eq!(b.sent.take(), Taken::Time(3));
    assert_eq!(b.sent.take(), Taken::Empty);
}

#[test]
fn a_latency_out_of_range_is_told() {
    let mut p = plan(Transport::Tcp, false);
    p.first_len = Some(1);
    p.quiet = true;
    let mut b = Bench::new(p);
    b.open(0);
    b.step(Event::Sent(1), 0);
    let step = b.step(Event::Received(1), 67_108_864_000);
    assert_eq!(step.news.latency_failure, Some(RecordFailure::OutOfRange));
    assert_eq!(b.stats.total_requests, 1);
    assert_eq!(b.stats.latency_histogram.len(), 0);
}

#[test]
fn the_warmup_counts_no_reply() {
    let mut b = Bench::new(plan(Transport::Tcp, false));
    b.stats = Stats::new(0);
    b.open(0);
    b.step(Event::Sent(4), 0);
    assert_eq!(b.act(Event::Received(4), 0), Action::Send);
    assert_eq!(b.stats.total_requests, 0);
}

#[test]
fn events_that_cannot_happen() {
    let b = Bench::new(plan(Transport::Tcp, false));
    assert!(!b.worker.can_take(Event::Shutdown));
    assert!(!b.worker.can_take(Event::Sent(4)));
    let mut p = plan(Transport::Tcp, false);
    p.message_len = None;
    let mut b = Bench::new(p);
    assert!(b.worker.can_take(Event::ConnectFailed));
    b.step(Event::Connected, 0);
    assert!(!b.worker.can_take(Event::NodelaySet));
}

#[test]
fn whatever_comes_of_an_action_is_taken() {
    let outcomes = |transport: Transport, action: Action| {
        let mut events = match action {
            Action::Connect(_) => {
                vec![Event::Connected, Event::ConnectFailed, Event::ConnectTimedOut]
            }
            Action::SetNodelay(_) => vec![Event::NodelaySet, Event::NodelayFailed],
            Action::SendFirst => vec![Event::Sent(4), Event::Sent(1), Event::SendFailed],
            Action::ReceiveFirst => vec![Event::Received(4), Event::ReceiveFailed],
            Action::StartReader => vec![Event::ReaderStarted],
            Action::Send => vec![Event::Sent(4), Event::SendFailed, Event::Shutdown],
            Action::Receive => vec![Event::Received(4), Event::ReceiveFailed, Event::Shutdown],
            Action::Wait(_) | Action::Idle | Action::Skip | Action::Pause(_) | Action::Yield => {
                vec![Event::Woke, Event::Shutdown]
            }
            Action::Close => vec![Event::Closed],
            Action::Join => vec![Event::Joined],
            Action::Finish | Action::Fail => vec![],
        };
        let receives = action == Action::Receive || action == Action::ReceiveFirst;
        if receives && transport == Transport::WebSocket {
            events.push(Event::ReceivedOther);
            events.push(Event::Ended);
        }
        events
    };
    for transport in [Transport::Tcp, Transport::WebSocket] {
        for pipeline in [false, true] {
            let mut p = plan(transport, pipeline);
            p.nagle = true;
            p.first_len = Some(4);
            p.message_rate = Some(50);
            let mut b = Bench::new(p);
            let mut ahead = vec![(b.worker, Action::Connect(p.connect_timeout))];
            for round in 0..12u64 {
                let mut next = Vec::new();
                for (worker, action) in ahead {
                    for event in outcomes(transport, action) {
                        b.worker = worker;
                        let action = b.act(event, round * 3 * MS);
                        next.push((b.worker, action));
                    }
                }
                next.truncate(200);
                ahead = next;
            }
            assert_eq!(b.stats.total_connections, 1);
        }
    }
}
