//! What each event means for a connection: what it is asked to do next, what
//! is counted and what is told.

use vstd::prelude::*;

use crate::command::Config;
use crate::latency::{class_width, lowest_equivalent, RecordFailure};
use crate::message::bytes_of;
use crate::sent_times::SentTimes;
use crate::stats::{Stats, StatsView};
use crate::time::{elapsed, Duration};
use crate::worker::{interval, interval_keeps_the_rate, turn};
use crate::worker::{Action, Event, News, Notice, Phase, Plan, Step, Transport, Turn, Worker};
use crate::worker_laws::{
    action_belongs_to_its_phase, belongs, can_come_of, event_keeps_what_is_not_its_own, in_main_part,
    is_course, pipeline_sends_without_waiting, Moment,
};

verus! {

/// A counter of 64 bits went up by so much, and started again at zero behind
/// its largest value.
pub open spec fn goes_up(before: u64, by: int, after: u64) -> bool {
    after == before + by || after == before + by - 0x1_0000_0000_0000_0000
}

/// The counters of connections and the flags are as they were, and so is the
/// rate reading.
pub open spec fn only_traffic_differs(before: StatsView, after: StatsView) -> bool {
    &&& after.total_connections == before.total_connections
    &&& after.connection_errors == before.connection_errors
    &&& after.is_warmup == before.is_warmup
    &&& after.is_shutting_down == before.is_shutting_down
    &&& after.last_print_time == before.last_print_time
    &&& after.last_print_count == before.last_print_count
}

/// One request was counted, with so many bytes sent and so many received.
pub open spec fn counts_one_request(
    before: StatsView,
    after: StatsView,
    sent: int,
    received: int,
) -> bool {
    &&& goes_up(before.total_requests, 1, after.total_requests)
    &&& goes_up(before.total_bytes_sent, sent, after.total_bytes_sent)
    &&& goes_up(before.total_bytes_received, received, after.total_bytes_received)
}

/// The requests, the bytes and the latencies are as they were.
pub open spec fn same_traffic(before: StatsView, after: StatsView) -> bool {
    &&& after.total_requests == before.total_requests
    &&& after.total_bytes_sent == before.total_bytes_sent
    &&& after.total_bytes_received == before.total_bytes_received
    &&& after.latencies == before.latencies
}

/// Nothing differs but that one error was counted.
pub open spec fn counts_one_error(before: StatsView, after: StatsView) -> bool {
    &&& goes_up(before.connection_errors, 1, after.connection_errors)
    &&& after == (StatsView { connection_errors: after.connection_errors, ..before })
}

/// Nothing differs but that one success was counted.
pub open spec fn counts_one_success(before: StatsView, after: StatsView) -> bool {
    &&& goes_up(before.success_connections, 1, after.success_connections)
    &&& after == (StatsView { success_connections: after.success_connections, ..before })
}

/// The samples after a reply that took so many microseconds, to the message
/// with this number.
pub open spec fn samples_one_in_256(
    before: StatsView,
    after: StatsView,
    number: usize,
    micros: int,
) -> bool {
    let class = lowest_equivalent(micros as u64);
    if number % 256 == 0 && micros < 67_108_864 && before.latencies.count(class) < u64::MAX {
        &&& after.latencies == before.latencies.insert(class)
        &&& micros < 2048 ==> after.latencies == before.latencies.insert(micros as u64)
    } else {
        after.latencies == before.latencies
    }
}

/// The complaint about a latency that is too long to be sampled: none for
/// messages that are not sampled and none at the end of a test.
pub open spec fn complaint(before: StatsView, number: usize, micros: int) -> Option<
    RecordFailure,
> {
    if number % 256 == 0 && micros >= 67_108_864 && !before.is_shutting_down {
        Some(RecordFailure::OutOfRange)
    } else {
        None
    }
}

/// The microseconds from a message to its reply; none where the clock went
/// back.
pub open spec fn micros_between(since: u64, now: u64) -> int {
    if since <= now {
        (now - since) / 1000
    } else {
        0
    }
}

/// There is nothing to tell.
pub open spec fn is_silent(news: News) -> bool {
    news.notice is None && news.latency_failure is None
}

/// The notice is told unless the test is quiet or ending, and nothing else is.
pub open spec fn tells_only(plan: Plan, stats: StatsView, news: News, notice: Notice) -> bool {
    &&& news.notice == if plan.quiet || stats.is_shutting_down {
        None
    } else {
        Some(notice)
    }
    &&& news.latency_failure is None
}

/// The plan of a configuration has each setting of the configuration.
pub proof fn plan_has_the_settings(config: Config)
    requires
        config.first_message matches Some(b) ==> bytes_of(b).len() <= usize::MAX,
        config.message matches Some(b) ==> bytes_of(b).len() <= usize::MAX,
    ensures
        ({
            let plan = Plan::of(config);
            &&& plan.transport == Transport::WebSocket <==> config.use_websocket
            &&& plan.transport == Transport::Tcp <==> !config.use_websocket
            &&& plan.is_tcp() <==> !config.use_websocket
            &&& plan.pipeline == config.pipeline
            &&& plan.quiet == config.quiet
            &&& plan.nagle == config.nagle
            &&& plan.sets_nodelay() == !config.nagle
            &&& plan.connect_timeout == config.connect_timeout
            &&& plan.message_rate == config.message_rate
            &&& plan.warmup == config.warmup_duration
            &&& plan.lifetime == config.channel_lifetime
            &&& plan.first_len is Some <==> config.first_message is Some
            &&& config.first_message is Some ==> plan.first_len->0 == bytes_of(
                config.first_message->0,
            ).len()
            &&& plan.message_len is Some <==> config.message is Some
            &&& config.message is Some ==> plan.message_len->0 == bytes_of(config.message->0).len()
        }),
{
}

/// A connection that has nothing left to do before its main part.
pub open spec fn is_prepared(worker: Worker, event: Event) -> bool {
    match worker.phase {
        Phase::Connecting => event == Event::Connected && worker.plan.transport
            == Transport::WebSocket && worker.plan.first_len is None,
        Phase::Tuning => event == Event::NodelaySet && worker.plan.first_len is None,
        Phase::AwaitingFirst { .. } => event is Received,
        _ => false,
    }
}

/// A pipelined connection of a configuration with a message that is not empty
/// starts a reader before its main part, and nothing of its main part comes
/// earlier.
pub proof fn pipelined_connection_starts_a_reader(
    config: Config,
    worker: Worker,
    stats: StatsView,
    queue: Seq<u64>,
    event: Event,
    now: u64,
)
    requires
        worker.plan == Plan::of(config),
        config.message matches Some(b) && 0 < bytes_of(b).len() <= usize::MAX,
        worker.accepts(event),
    ensures
        ({
            let t = worker.next(stats, queue, event, now);
            &&& config.pipeline && is_prepared(worker, event) ==> t.step.action
                == Action::StartReader && t.worker.phase == Phase::Starting
            &&& t.step.action == Action::StartReader ==> config.pipeline && is_prepared(
                worker,
                event,
            )
            &&& config.pipeline && (worker.phase == Phase::Waiting || worker.phase
                == Phase::Connecting || worker.phase == Phase::Tuning || worker.phase
                is SendingFirst || worker.phase is AwaitingFirst) ==> t.step.action != Action::Send
                && t.step.action != Action::Receive
        }),
{
    broadcast use crate::worker_laws::group_carries_on;

}

/// What a connection was asked to do, one action for each event.
pub open spec fn actions(worker: Worker, course: Seq<Moment>) -> Seq<Action>
    decreases course.len(),
{
    if course.len() == 0 {
        seq![]
    } else {
        let m = course[0];
        let t = worker.next(m.stats, m.queue, m.event, m.now);
        seq![t.step.action] + actions(t.worker, course.drop_first())
    }
}

proof fn lemma_never_receives(worker: Worker, course: Seq<Moment>, i: int)
    requires
        worker.plan.pipeline,
        !(worker.phase is Awaiting),
        is_course(worker, course),
        0 <= i < course.len(),
    ensures
        actions(worker, course).len() == course.len(),
        actions(worker, course)[i] != Action::Receive,
    decreases course.len(),
{
    let m = course[0];
    let t = worker.next(m.stats, m.queue, m.event, m.now);
    let rest = course.drop_first();
    pipeline_sends_without_waiting(worker, m.stats, m.queue, m.event, m.now);
    event_keeps_what_is_not_its_own(worker, m.stats, m.queue, m.event, m.now);
    lemma_actions_len(t.worker, rest);
    if i > 0 {
        lemma_never_receives(t.worker, rest, i - 1);
    }
}

proof fn lemma_actions_len(worker: Worker, course: Seq<Moment>)
    ensures
        actions(worker, course).len() == course.len(),
    decreases course.len(),
{
    if course.len() > 0 {
        let m = course[0];
        lemma_actions_len(
            worker.next(m.stats, m.queue, m.event, m.now).worker,
            course.drop_first(),
        );
    }
}

/// Whatever happens to a connection of a configuration with pipelining, from
/// its start on: it is never asked to receive the reply to a message.
pub proof fn pipelined_connection_never_receives(
    config: Config,
    delay: Option<Duration>,
    course: Seq<Moment>,
    i: int,
)
    requires
        config.pipeline,
        is_course(Worker::first(Plan::of(config), delay), course),
        0 <= i < course.len(),
    ensures
        actions(Worker::first(Plan::of(config), delay), course).len() == course.len(),
        actions(Worker::first(Plan::of(config), delay), course)[i] != Action::Receive,
{
    lemma_never_receives(Worker::first(Plan::of(config), delay), course, i);
}

/// A connection starts with nothing sent and no end of its life; it waits if
/// there is a delay.
pub proof fn connection_starts_afresh(plan: Plan, delay: Option<Duration>)
    ensures
        ({
            let worker = Worker::first(plan, delay);
            &&& worker.plan == plan
            &&& worker.phase == Phase::Waiting <==> delay is Some
            &&& worker.phase == Phase::Connecting <==> delay is None
            &&& worker.counter == 0
            &&& worker.end_time is None
            &&& worker.last_send is None
        }),
{
}

/// When a connection is due, an attempt is counted and the connection is to be
/// made within the connection timeout.
pub proof fn due_connection_is_attempted(
    worker: Worker,
    stats: StatsView,
    queue: Seq<u64>,
    now: u64,
)
    requires
        worker.phase == Phase::Waiting,
    ensures
        ({
            let t = worker.next(stats, queue, Event::Woke, now);
            &&& t.step.action == Action::Connect(worker.plan.connect_timeout)
            &&& t.worker == (Worker { phase: Phase::Connecting, ..worker })
            &&& goes_up(stats.total_connections, 1, t.stats.total_connections)
            &&& t.stats == (StatsView { total_connections: t.stats.total_connections, ..stats })
            &&& t.queue == queue
            &&& is_silent(t.step.news)
        }),
{
}

/// A connection that was made is tuned first where it is a TCP connection; then
/// the first message is sent, if there is one. Nothing is counted or told.
pub proof fn open_connection_sends_its_first_message(
    worker: Worker,
    stats: StatsView,
    queue: Seq<u64>,
    event: Event,
    now: u64,
)
    requires
        worker.accepts(event),
        (worker.phase == Phase::Connecting && event == Event::Connected) || (worker.phase
            == Phase::Tuning && event == Event::NodelaySet),
    ensures
        ({
            let t = worker.next(stats, queue, event, now);
            let tuned = worker.phase == Phase::Tuning || worker.plan.transport
                == Transport::WebSocket;
            &&& !tuned ==> {
                &&& t.step.action == Action::SetNodelay(!worker.plan.nagle)
                &&& t.worker == (Worker { phase: Phase::Tuning, ..worker })
            }
            &&& tuned && worker.plan.first_len is Some ==> {
                &&& t.step.action == Action::SendFirst
                &&& t.worker == (Worker { phase: Phase::SendingFirst { since: now }, ..worker })
            }
            &&& t.step.action == Action::SendFirst <==> tuned && worker.plan.first_len is Some
            &&& (!tuned || worker.plan.first_len is Some) ==> t.stats == stats && t.queue == queue
            &&& same_traffic(stats, t.stats)
            &&& only_traffic_differs(stats, t.stats)
            &&& is_silent(t.step.news)
        }),
{
    broadcast use crate::worker_laws::group_carries_on;

}

/// What is told of a connection that cannot be prepared for its main part.
pub open spec fn setback(worker: Worker, event: Event) -> Option<Notice> {
    match (worker.phase, event) {
        (Phase::Connecting, Event::ConnectFailed) => Some(Notice::ConnectFailed),
        (Phase::Connecting, Event::ConnectTimedOut) => Some(Notice::ConnectTimedOut),
        (Phase::SendingFirst { .. }, Event::SendFailed) => Some(Notice::FirstSendFailed),
        (Phase::SendingFirst { .. }, Event::Sent(n)) => if worker.plan.transport == Transport::Tcp
            && worker.plan.first_len != Some(n) {
            Some(Notice::FirstWritePartial)
        } else {
            None
        },
        (Phase::AwaitingFirst { .. }, Event::ReceiveFailed) => Some(Notice::FirstReceiveFailed),
        (Phase::AwaitingFirst { .. }, Event::ReceivedOther) => Some(Notice::FirstUnexpected),
        (Phase::AwaitingFirst { .. }, Event::Ended) => Some(Notice::FirstUnexpected),
        _ => None,
    }
}

/// A connection that cannot be made, or whose first message cannot be sent or
/// is not answered, is given up: one error is counted, the reason is told, and
/// the connection is done without a success.
pub proof fn setback_gives_the_connection_up(
    worker: Worker,
    stats: StatsView,
    queue: Seq<u64>,
    event: Event,
    now: u64,
)
    requires
        worker.accepts(event),
        setback(worker, event) is Some,
    ensures
        ({
            let t = worker.next(stats, queue, event, now);
            &&& t.step.action == Action::Finish
            &&& t.worker.phase == Phase::Done
            &&& counts_one_error(stats, t.stats)
            &&& t.queue == queue
            &&& tells_only(worker.plan, stats, t.step.news, setback(worker, event)->0)
        }),
{
}

/// Where Nagle's algorithm cannot be set as asked for, the connection fails,
/// and nothing is counted.
pub proof fn untuned_connection_fails(
    worker: Worker,
    stats: StatsView,
    queue: Seq<u64>,
    now: u64,
)
    requires
        worker.phase == Phase::Tuning,
    ensures
        ({
            let t = worker.next(stats, queue, Event::NodelayFailed, now);
            &&& t.step.action == Action::Fail
            &&& t.worker.phase == Phase::Done
            &&& t.stats == stats
            &&& t.queue == queue
            &&& is_silent(t.step.news)
        }),
{
}

/// The first message that was sent, whole where it goes over TCP, is followed
/// by the wait for its reply; the time of the message stays.
pub proof fn first_message_waits_for_its_reply(
    worker: Worker,
    stats: StatsView,
    queue: Seq<u64>,
    since: u64,
    n: usize,
    now: u64,
)
    requires
        worker.phase == (Phase::SendingFirst { since }),
        worker.plan.transport == Transport::Tcp ==> worker.plan.first_len == Some(n),
    ensures
        ({
            let t = worker.next(stats, queue, Event::Sent(n), now);
            &&& t.step.action == Action::ReceiveFirst
            &&& t.worker == (Worker { phase: Phase::AwaitingFirst { since }, ..worker })
            &&& t.stats == stats
            &&& t.queue == queue
            &&& is_silent(t.step.news)
        }),
{
}

/// The reply to the first message counts as a request, outside the warmup, and
/// its latency is always sampled: the time from the message to the reply, in
/// microseconds.
#[verifier::rlimit(40)]
pub proof fn first_reply_is_timed_from_its_message(
    worker: Worker,
    stats: StatsView,
    queue: Seq<u64>,
    since: u64,
    n: usize,
    now: u64,
)
    requires
        worker.phase == (Phase::AwaitingFirst { since }),
        worker.accepts(Event::Received(n)),
    ensures
        ({
            let t = worker.next(stats, queue, Event::Received(n), now);
            let sent = worker.plan.first_len->0;
            let received = if worker.plan.transport == Transport::Tcp {
                sent
            } else {
                n
            };
            let micros = micros_between(since, now);
            &&& since <= now ==> micros == (now - since) / 1000
            &&& !stats.is_warmup ==> {
                &&& samples_one_in_256(stats, t.stats, 0, micros)
                &&& counts_one_request(stats, t.stats, sent as int, received as int)
                &&& t.step.news.latency_failure == complaint(stats, 0, micros)
            }
            &&& stats.is_warmup ==> same_traffic(stats, t.stats)
                && t.step.news.latency_failure is None
            &&& t.step.news.notice is None
            &&& only_traffic_differs(stats, t.stats)
        }),
{
    broadcast use crate::worker_laws::group_carries_on;

    let micros = micros_between(since, now);
    assert(class_width(micros as u64) == 1 || micros >= 2048);
}

/// The reply to a message counts as a request, outside the warmup. Of every
/// 256th message the latency is sampled: the time from the message to the
/// reply, in microseconds.
#[verifier::rlimit(40)]
pub proof fn reply_is_timed_from_its_message(
    worker: Worker,
    stats: StatsView,
    queue: Seq<u64>,
    since: u64,
    n: usize,
    now: u64,
)
    requires
        worker.phase == (Phase::Awaiting { since }),
        worker.accepts(Event::Received(n)),
        worker.plan.transport == Transport::Tcp ==> worker.plan.message_len == Some(n),
    ensures
        ({
            let t = worker.next(stats, queue, Event::Received(n), now);
            let sent = worker.plan.message_len->0;
            let micros = micros_between(since, now);
            &&& since <= now ==> micros == (now - since) / 1000
            &&& !stats.is_warmup ==> {
                &&& samples_one_in_256(stats, t.stats, worker.counter, micros)
                &&& counts_one_request(stats, t.stats, sent as int, n as int)
                &&& t.step.news.latency_failure == complaint(stats, worker.counter, micros)
            }
            &&& stats.is_warmup ==> same_traffic(stats, t.stats)
                && t.step.news.latency_failure is None
            &&& t.step.news.notice is None
            &&& only_traffic_differs(stats, t.stats)
            &&& t.worker.counter == worker.counter
        }),
{
    broadcast use crate::worker_laws::group_carries_on;

    reveal(Worker::round);
    reveal(Worker::yield_then_round);
    reveal(Worker::pause_then_yield);
    let micros = micros_between(since, now);
    assert(class_width(micros as u64) == 1 || micros >= 2048);
}

/// Behind a reply comes the end of a round with its pause.
pub proof fn reply_ends_the_round(
    worker: Worker,
    stats: StatsView,
    queue: Seq<u64>,
    since: u64,
    n: usize,
    now: u64,
)
    requires
        worker.phase == (Phase::Awaiting { since }),
        worker.plan.transport == Transport::Tcp ==> worker.plan.message_len == Some(n),
    ensures
        exists|counted: StatsView, news: News|
            worker.next(stats, queue, Event::Received(n), now)
                == #[trigger] worker.pause_then_yield(counted, queue, now, news),
{
    let micros = elapsed(since, now) / 1000;
    let counted = stats.after_latency(micros, worker.counter).after_request(
        worker.plan.message_len->0,
        n,
    );
    let news = News {
        notice: None,
        latency_failure: stats.latency_failure(micros, worker.counter),
    };
    assert(worker.next(stats, queue, Event::Received(n), now) == worker.pause_then_yield(
        counted,
        queue,
        now,
        news,
    ));
}

/// The time that went by leads from one clock reading to the other, and is
/// nothing where the clock went back.
pub proof fn elapsed_time_leads_to_now(since: u64, now: u64)
    ensures
        now >= since ==> since + elapsed(since, now) == now,
        now < since ==> elapsed(since, now) == 0,
{
}

/// Whether there is a reader to wait for: the connection is pipelined, and it
/// is not a TCP connection with an empty message.
pub open spec fn waits_for_reader(plan: Plan) -> bool {
    plan.pipeline && (plan.transport == Transport::WebSocket || plan.message_len != Some(0usize))
}

/// A connection is left in order: a WebSocket is closed; else the reader is
/// awaited, if there is one; else a success is counted and the connection is
/// done.
pub open spec fn is_left(worker: Worker, stats: StatsView, queue: Seq<u64>, t: Turn) -> bool {
    &&& t.queue == queue
    &&& if worker.plan.transport == Transport::WebSocket {
        &&& t.step.action == Action::Close
        &&& t.worker == (Worker { phase: Phase::Closing, ..worker })
        &&& t.stats == stats
    } else {
        is_drained(worker, stats, queue, t)
    }
}

/// The reader is awaited, if there is one; else a success is counted and the
/// connection is done.
pub open spec fn is_drained(worker: Worker, stats: StatsView, queue: Seq<u64>, t: Turn) -> bool {
    &&& t.queue == queue
    &&& if waits_for_reader(worker.plan) {
        &&& t.step.action == Action::Join
        &&& t.worker == (Worker { phase: Phase::Joining, ..worker })
        &&& t.stats == stats
    } else {
        &&& t.step.action == Action::Finish
        &&& t.worker == (Worker { phase: Phase::Done, ..worker })
        &&& counts_one_success(stats, t.stats)
    }
}

/// The end of the test leaves the connection in order from wherever its main
/// part stands, and nothing is told.
pub proof fn shutdown_leaves_in_order(
    worker: Worker,
    stats: StatsView,
    queue: Seq<u64>,
    now: u64,
)
    requires
        worker.accepts(Event::Shutdown),
        worker.phase != Phase::Waiting,
    ensures
        ({
            let t = worker.next(stats, queue, Event::Shutdown, now);
            &&& is_left(worker, stats, queue, t)
            &&& is_silent(t.step.news)
        }),
{
}

/// Behind the goodbye of a WebSocket comes the end of the reader, and behind
/// that the end of the connection, with its success.
pub proof fn goodbye_comes_before_the_end(
    worker: Worker,
    stats: StatsView,
    queue: Seq<u64>,
    now: u64,
)
    ensures
        worker.phase == Phase::Closing ==> ({
            let t = worker.next(stats, queue, Event::Closed, now);
            &&& is_drained(worker, stats, queue, t)
            &&& is_silent(t.step.news)
        }),
        worker.phase == Phase::Joining ==> ({
            let t = worker.next(stats, queue, Event::Joined, now);
            &&& t.step.action == Action::Finish
            &&& t.worker == (Worker { phase: Phase::Done, ..worker })
            &&& counts_one_success(stats, t.stats)
            &&& t.queue == queue
            &&& is_silent(t.step.news)
        }),
{
}

/// The life of the connection is over.
pub open spec fn has_ended(worker: Worker, now: u64) -> bool {
    worker.end_time matches Some(end) && end <= now
}

/// The connection is only kept open: messages are to be sent zero times a
/// second, or are empty.
pub open spec fn is_kept_open(plan: Plan) -> bool {
    plan.message_rate == Some(0u64) || plan.message_len == Some(0usize)
}

/// What is left of the interval behind the last message: nothing where there
/// is no such message or no message rate.
pub open spec fn rests(worker: Worker, now: u64) -> int {
    match (worker.last_send, worker.plan.message_rate) {
        (Some(since), Some(rate)) => if rate == 0 {
            0
        } else if now < since {
            interval(rate)
        } else if now < since + interval(rate) {
            since + interval(rate) - now
        } else {
            0
        },
        _ => 0,
    }
}

/// A round of the main part. At the end of its life the connection is left. A
/// connection that is only kept open idles; one whose test is ending skips the
/// round. Else the message is sent, now, unless the message rate asks for a
/// pause; the pause ends when the interval behind the last message does.
pub proof fn round_is_decided_in_order(
    worker: Worker,
    stats: StatsView,
    queue: Seq<u64>,
    now: u64,
    news: News,
)
    ensures
        ({
            let t = worker.round(stats, queue, now, news);
            &&& t.step.news == news
            &&& if has_ended(worker, now) {
                is_left(worker, stats, queue, t)
            } else if is_kept_open(worker.plan) {
                &&& t.step.action == Action::Idle
                &&& t.worker == (Worker { phase: Phase::Idling, ..worker })
                &&& t.stats == stats
                &&& t.queue == queue
            } else if stats.is_shutting_down {
                &&& t.step.action == Action::Skip
                &&& t.worker == (Worker { phase: Phase::Skipping, ..worker })
                &&& t.stats == stats
                &&& t.queue == queue
            } else if rests(worker, now) > 0 {
                &&& t.step.action matches Action::Pause(nanos) && nanos == rests(worker, now)
                &&& t.worker == (Worker { phase: Phase::Pausing, ..worker })
                &&& t.stats == stats
                &&& t.queue == queue
            } else {
                &&& t.step.action == Action::Send
                &&& t.worker == (Worker {
                    phase: Phase::Sending { since: now },
                    last_send: Some(now),
                    ..worker
                })
                &&& t.stats == stats
                &&& worker.plan.pipeline ==> t.queue == queue.push(now)
                &&& !worker.plan.pipeline ==> t.queue == queue
            }
        }),
{
    reveal(Worker::round);
    if let Some(rate) = worker.plan.message_rate {
        if rate > 0 {
            interval_keeps_the_rate(rate);
        }
    }
}

/// A connection at the start of its main part.
pub open spec fn begins_at(worker: Worker, now: u64) -> Worker {
    Worker {
        end_time: match worker.plan.lifetime {
            Some(lifetime) => Some((now + worker.plan.warmup@ + lifetime@) as u128),
            None => None,
        },
        counter: 0,
        last_yield: now,
        last_send: None,
        ..worker
    }
}

/// The main part begins when the reader was started, or at once where there is
/// none to start. The messages are counted from zero, the time for the next
/// yield and the life of the connection begin; that life ends its length and
/// the length of the warmup later.
pub proof fn main_part_begins_with_a_round(
    worker: Worker,
    stats: StatsView,
    queue: Seq<u64>,
    event: Event,
    now: u64,
)
    requires
        worker.accepts(event),
        (worker.phase == Phase::Starting && event == Event::ReaderStarted) || (is_prepared(
            worker,
            event,
        ) && !waits_for_reader(worker.plan)),
    ensures
        ({
            let started = begins_at(worker, now);
            let quiet = News { notice: None, latency_failure: None };
            if event is Received {
                exists|counted: StatsView, news: News|
                    worker.next(stats, queue, event, now) == #[trigger] started.round(
                        counted,
                        queue,
                        now,
                        news,
                    )
            } else {
                worker.next(stats, queue, event, now) == started.round(stats, queue, now, quiet)
            }
        }),
{
    let t = worker.next(stats, queue, event, now);
    if event is Received {
        let since = worker.phase->AwaitingFirst_since;
        let micros = elapsed(since, now) / 1000;
        let sent = worker.plan.first_len->0;
        let got = if worker.plan.is_tcp() {
            sent
        } else {
            event->Received_0
        };
        let counted = stats.after_latency(micros, 0).after_request(sent, got);
        let news = News { notice: None, latency_failure: stats.latency_failure(micros, 0) };
        assert(t == begins_at(worker, now).round(counted, queue, now, news));
    }
}

/// A connection with a reader starts it when all that precedes its main part is
/// done, and only then; nothing is put in the queue before.
pub proof fn reader_starts_before_the_main_part(
    worker: Worker,
    stats: StatsView,
    queue: Seq<u64>,
    event: Event,
    now: u64,
)
    requires
        worker.accepts(event),
        is_prepared(worker, event),
    ensures
        ({
            let t = worker.next(stats, queue, event, now);
            &&& t.step.action == Action::StartReader <==> waits_for_reader(worker.plan)
            &&& waits_for_reader(worker.plan) ==> {
                &&& t.worker == (Worker { phase: Phase::Starting, ..worker })
                &&& t.queue == queue
                &&& t.stats.success_connections == stats.success_connections
            }
        }),
{
    broadcast use crate::worker_laws::group_carries_on;

}

/// A connection that waited, idled, skipped a round or paused goes on with a
/// round; one that is not pipelined yields first after a pause if ten
/// milliseconds have gone by since the last yield. A yield sets that time
/// anew.
pub proof fn waking_begins_a_round(
    worker: Worker,
    stats: StatsView,
    queue: Seq<u64>,
    now: u64,
)
    requires
        worker.phase == Phase::Idling || worker.phase == Phase::Skipping || worker.phase
            == Phase::Pausing || worker.phase == Phase::Yielding,
    ensures
        ({
            let t = worker.next(stats, queue, Event::Woke, now);
            let quiet = News { notice: None, latency_failure: None };
            if worker.phase == Phase::Yielding {
                t == Worker { last_yield: now, ..worker }.round(stats, queue, now, quiet)
            } else if worker.phase == Phase::Pausing && !worker.plan.pipeline {
                t == worker.yield_then_round(stats, queue, now, quiet)
            } else {
                t == worker.round(stats, queue, now, quiet)
            }
        }),
{
}

/// At the end of a round a connection yields if ten milliseconds have gone by
/// since the last yield, and begins a round if not.
pub proof fn yield_is_due_every_ten_milliseconds(
    worker: Worker,
    stats: StatsView,
    queue: Seq<u64>,
    now: u64,
    news: News,
)
    ensures
        ({
            let t = worker.yield_then_round(stats, queue, now, news);
            if now - worker.last_yield >= 10 * 1000 * 1000 {
                &&& t.step.action == Action::Yield
                &&& t.step.news == news
                &&& t.worker == (Worker { phase: Phase::Yielding, ..worker })
                &&& t.stats == stats
                &&& t.queue == queue
            } else {
                t == worker.round(stats, queue, now, news)
            }
        }),
{
    reveal(Worker::yield_then_round);
}

/// At the end of a round with a reply a connection pauses for what is left of
/// the interval behind its last message, and goes on as at the end of any
/// round where nothing is left.
pub proof fn pause_comes_before_the_yield(
    worker: Worker,
    stats: StatsView,
    queue: Seq<u64>,
    now: u64,
    news: News,
)
    ensures
        ({
            let t = worker.pause_then_yield(stats, queue, now, news);
            if rests(worker, now) > 0 {
                &&& t.step.action matches Action::Pause(nanos) && nanos == rests(worker, now)
                &&& t.step.news == news
                &&& t.worker == (Worker { phase: Phase::Pausing, ..worker })
                &&& t.stats == stats
                &&& t.queue == queue
            } else {
                t == worker.yield_then_round(stats, queue, now, news)
            }
        }),
{
    reveal(Worker::pause_then_yield);
    if let Some(rate) = worker.plan.message_rate {
        if rate > 0 {
            interval_keeps_the_rate(rate);
        }
    }
}

/// A message that was sent, whole where it goes over TCP, is counted by the
/// connection. Without pipelining its reply is awaited, from the time of the
/// message on; with pipelining the round is at its end.
pub proof fn message_that_was_sent_is_counted(
    worker: Worker,
    stats: StatsView,
    queue: Seq<u64>,
    since: u64,
    n: usize,
    now: u64,
)
    requires
        worker.phase == (Phase::Sending { since }),
        worker.plan.transport == Transport::Tcp ==> worker.plan.message_len == Some(n),
    ensures
        ({
            let t = worker.next(stats, queue, Event::Sent(n), now);
            let quiet = News { notice: None, latency_failure: None };
            let counted = Worker {
                counter: if worker.counter < usize::MAX {
                    (worker.counter + 1) as usize
                } else {
                    0
                },
                ..worker
            };
            if worker.plan.pipeline {
                t == counted.yield_then_round(stats, queue, now, quiet)
            } else {
                &&& t.step.action == Action::Receive
                &&& is_silent(t.step.news)
                &&& t.worker == (Worker { phase: Phase::Awaiting { since }, ..counted })
                &&& t.stats == stats
                &&& t.queue == queue
            }
        }),
{
}

/// What is told of a message that could not be sent, or of a reply that could
/// not be received.
pub open spec fn mishap(worker: Worker, event: Event) -> Option<Notice> {
    match (worker.phase, event) {
        (Phase::Sending { .. }, Event::SendFailed) => Some(Notice::SendFailed),
        (Phase::Sending { .. }, Event::Sent(n)) => if worker.plan.transport == Transport::Tcp
            && worker.plan.message_len != Some(n) {
            Some(Notice::WritePartial)
        } else {
            None
        },
        (Phase::Awaiting { .. }, Event::ReceiveFailed) => Some(Notice::ReceiveFailed),
        _ => None,
    }
}

/// After a mishap with a message or its reply one error is counted, the reason
/// is told, and the connection tries again with a new round.
pub proof fn mishap_begins_a_new_round(
    worker: Worker,
    stats: StatsView,
    queue: Seq<u64>,
    event: Event,
    now: u64,
)
    requires
        worker.accepts(event),
        mishap(worker, event) is Some,
    ensures
        exists|counted: StatsView, news: News|
            {
                &&& counts_one_error(stats, counted)
                &&& tells_only(worker.plan, stats, news, mishap(worker, event)->0)
                &&& worker.next(stats, queue, event, now) == #[trigger] worker.round(
                    counted,
                    queue,
                    now,
                    news,
                )
            },
{
    let counted = stats.after_error();
    let news = News {
        notice: if worker.plan.quiet || stats.is_shutting_down {
            None
        } else {
            mishap(worker, event)
        },
        latency_failure: None,
    };
    assert(counts_one_error(stats, counted));
    assert(tells_only(worker.plan, stats, news, mishap(worker, event)->0));
    assert(worker.next(stats, queue, event, now) == worker.round(counted, queue, now, news));
}

/// What is received in place of a reply is passed over, and nothing is counted
/// or told: behind a part of a reply over TCP comes a round, behind a message
/// that is not binary the end of a round, and behind the end of the peer's
/// messages the end of a round with its pause.
pub proof fn other_answers_are_passed_over(
    worker: Worker,
    stats: StatsView,
    queue: Seq<u64>,
    n: usize,
    now: u64,
)
    requires
        worker.phase is Awaiting,
    ensures
        ({
            let quiet = News { notice: None, latency_failure: None };
            &&& worker.plan.transport == Transport::Tcp && worker.plan.message_len != Some(n)
                ==> worker.next(stats, queue, Event::Received(n), now) == worker.round(
                stats,
                queue,
                now,
                quiet,
            )
            &&& worker.next(stats, queue, Event::ReceivedOther, now) == worker.yield_then_round(
                stats,
                queue,
                now,
                quiet,
            )
            &&& worker.next(stats, queue, Event::Ended, now) == worker.pause_then_yield(
                stats,
                queue,
                now,
                quiet,
            )
        }),
{
}

/// A worker takes in nothing but what can come of the action that it asked for.
pub proof fn only_what_can_come_is_taken(
    worker: Worker,
    stats: StatsView,
    queue: Seq<u64>,
    event: Event,
    now: u64,
    outcome: Event,
    delay: Option<Duration>,
)
    requires
        worker.accepts(event),
    ensures
        ({
            let t = worker.next(stats, queue, event, now);
            t.worker.accepts(outcome) ==> can_come_of(worker.plan, t.step.action, outcome)
        }),
        Worker::first(worker.plan, delay).accepts(outcome) ==> match delay {
            Some(wait) => can_come_of(worker.plan, Action::Wait(wait), outcome),
            None => can_come_of(
                worker.plan,
                Action::Connect(worker.plan.connect_timeout),
                outcome,
            ),
        },
{
    let t = worker.next(stats, queue, event, now);
    action_belongs_to_its_phase(worker, stats, queue, event, now);
    assert(belongs(t.worker, t.step.action));
}

/// Without a message a connection never comes to its main part.
pub proof fn main_part_needs_a_message(
    worker: Worker,
    stats: StatsView,
    queue: Seq<u64>,
    event: Event,
    now: u64,
)
    requires
        worker.accepts(event),
        worker.plan.message_len is None,
        !in_main_part(worker.phase),
        worker.phase != Phase::Starting,
    ensures
        ({
            let t = worker.next(stats, queue, event, now);
            &&& !in_main_part(t.worker.phase)
            &&& t.worker.phase != Phase::Starting
        }),
{
}

/// Without a message rate, or with one of zero, no pause keeps it.
pub proof fn no_rate_asks_for_no_pause(plan: Plan, spent: u64)
    requires
        plan.message_rate is None || plan.message_rate == Some(0u64),
    ensures
        plan.pause(spent) is None,
{
}

/// An answer is compared with the worker, the counters and the queue as they
/// stand.
pub proof fn turn_is_as_things_stand(worker: Worker, stats: Stats, sent: SentTimes, step: Step)
    ensures
        turn(worker, stats, sent, step).worker == worker,
        turn(worker, stats, sent, step).stats == stats@,
        turn(worker, stats, sent, step).queue == sent@,
        turn(worker, stats, sent, step).step == step,
{
}

} // verus!
