//! What holds of every connection.

use vstd::prelude::*;

use crate::stats::{wrapped_sum, StatsView};
use crate::time::{Duration, NANOS_PER_SEC};
use crate::worker::{interval, interval_keeps_the_rate};
use crate::worker::{Action, Event, News, Phase, Plan, Turn, Worker};

verus! {

/// A connection carries on in its main part, or leaves it.
pub(crate) open spec fn carries_on(
    worker: Worker,
    stats: StatsView,
    queue: Seq<u64>,
    now: u64,
    news: News,
    t: Turn,
) -> bool {
    let finished = t.step.action == Action::Finish;
    &&& t.worker.plan == worker.plan
    &&& t.worker.end_time == worker.end_time
    &&& t.worker.last_send == if t.step.action == Action::Send {
        Some(now)
    } else {
        worker.last_send
    }
    &&& t.step.news == news
    &&& t.stats == if finished {
        stats.after_success()
    } else {
        stats
    }
    &&& t.queue == if t.step.action == Action::Send && worker.plan.pipeline {
        queue.push(now)
    } else {
        queue
    }
    &&& match t.worker.phase {
        Phase::Idling => t.step.action == Action::Idle && worker.plan.is_idle(),
        Phase::Skipping => t.step.action == Action::Skip && !worker.plan.is_idle(),
        Phase::Sending { .. } => t.step.action == Action::Send && !worker.plan.is_idle()
            && !worker.is_over(now) && !stats.is_shutting_down && worker.pause_before_send(now)
            is None,
        Phase::Closing => t.step.action == Action::Close,
        Phase::Joining => t.step.action == Action::Join && worker.plan.has_reader(),
        Phase::Done => finished,
        Phase::Pausing => t.step.action is Pause,
        Phase::Yielding => t.step.action == Action::Yield,
        _ => false,
    }
}

pub(crate) broadcast proof fn lemma_round(
    worker: Worker,
    stats: StatsView,
    queue: Seq<u64>,
    now: u64,
    news: News,
)
    ensures
        ({
            let t = #[trigger] worker.round(stats, queue, now, news);
            &&& carries_on(worker, stats, queue, now, news, t)
            &&& t.worker.phase != Phase::Yielding
            &&& worker.plan.is_idle() ==> t.worker.phase != Phase::Pausing
        }),
{
    reveal(Worker::round);
}

pub(crate) broadcast proof fn lemma_yield_then_round(
    worker: Worker,
    stats: StatsView,
    queue: Seq<u64>,
    now: u64,
    news: News,
)
    ensures
        carries_on(
            worker,
            stats,
            queue,
            now,
            news,
            #[trigger] worker.yield_then_round(stats, queue, now, news),
        ),
{
    broadcast use lemma_round;

    reveal(Worker::yield_then_round);
}

pub(crate) broadcast proof fn lemma_pause_then_yield(
    worker: Worker,
    stats: StatsView,
    queue: Seq<u64>,
    now: u64,
    news: News,
)
    ensures
        carries_on(
            worker,
            stats,
            queue,
            now,
            news,
            #[trigger] worker.pause_then_yield(stats, queue, now, news),
        ),
{
    broadcast use lemma_yield_then_round;

    reveal(Worker::pause_then_yield);
}

pub(crate) broadcast group group_carries_on {
    lemma_round,
    lemma_yield_then_round,
    lemma_pause_then_yield,
}

/// What can come of an action.
pub open spec fn can_come_of(plan: Plan, action: Action, event: Event) -> bool {
    let websocket = !plan.is_tcp();
    match action {
        Action::Connect(_) => event == Event::Connected || event == Event::ConnectFailed || event
            == Event::ConnectTimedOut,
        Action::SetNodelay(_) => event == Event::NodelaySet || event == Event::NodelayFailed,
        Action::SendFirst => event is Sent || event == Event::SendFailed,
        Action::ReceiveFirst => event is Received || event == Event::ReceiveFailed || (websocket
            && (event == Event::ReceivedOther || event == Event::Ended)),
        Action::StartReader => event == Event::ReaderStarted,
        Action::Wait(_) | Action::Idle | Action::Skip | Action::Pause(_) | Action::Yield => event
            == Event::Woke || event == Event::Shutdown,
        Action::Send => event is Sent || event == Event::SendFailed || event == Event::Shutdown,
        Action::Receive => event is Received || event == Event::ReceiveFailed || event
            == Event::Shutdown || (websocket && (event == Event::ReceivedOther || event
            == Event::Ended)),
        Action::Close => event == Event::Closed,
        Action::Join => event == Event::Joined,
        Action::Finish | Action::Fail => false,
    }
}

/// The action is the one that belongs to the phase.
pub open spec fn belongs(worker: Worker, action: Action) -> bool {
    match worker.phase {
        Phase::Waiting => action is Wait,
        Phase::Connecting => action is Connect,
        Phase::Tuning => action is SetNodelay,
        Phase::SendingFirst { .. } => action == Action::SendFirst && worker.plan.first_len is Some,
        Phase::AwaitingFirst { .. } => action == Action::ReceiveFirst
            && worker.plan.first_len is Some,
        Phase::Starting => action == Action::StartReader,
        Phase::Idling => action == Action::Idle,
        Phase::Skipping => action == Action::Skip,
        Phase::Sending { .. } => action == Action::Send,
        Phase::Awaiting { .. } => action == Action::Receive,
        Phase::Pausing => action is Pause,
        Phase::Yielding => action == Action::Yield,
        Phase::Closing => action == Action::Close,
        Phase::Joining => action == Action::Join,
        Phase::Done => action == Action::Finish || action == Action::Fail,
    }
}

proof fn lemma_action_before_main_part(
    worker: Worker,
    stats: StatsView,
    queue: Seq<u64>,
    event: Event,
    now: u64,
)
    requires
        worker.accepts(event),
        !in_main_part(worker.phase),
    ensures
        ({
            let t = worker.next(stats, queue, event, now);
            &&& t.worker.plan == worker.plan
            &&& belongs(t.worker, t.step.action)
        }),
{
    broadcast use group_carries_on;

}

proof fn lemma_action_of_wait(
    worker: Worker,
    stats: StatsView,
    queue: Seq<u64>,
    event: Event,
    now: u64,
)
    requires
        worker.accepts(event),
        in_main_part(worker.phase) && !(worker.phase is Sending) && !(worker.phase is Awaiting),
    ensures
        ({
            let t = worker.next(stats, queue, event, now);
            &&& t.worker.plan == worker.plan
            &&& belongs(t.worker, t.step.action)
        }),
{
    broadcast use group_carries_on;

}

proof fn lemma_action_of_message(
    worker: Worker,
    stats: StatsView,
    queue: Seq<u64>,
    event: Event,
    now: u64,
)
    requires
        worker.accepts(event),
        worker.phase is Sending || worker.phase is Awaiting,
    ensures
        ({
            let t = worker.next(stats, queue, event, now);
            &&& t.worker.plan == worker.plan
            &&& belongs(t.worker, t.step.action)
        }),
{
    broadcast use group_carries_on;

}

/// A connection is asked for what belongs to the phase that it is in, and its
/// plan stays.
pub proof fn action_belongs_to_its_phase(
    worker: Worker,
    stats: StatsView,
    queue: Seq<u64>,
    event: Event,
    now: u64,
)
    requires
        worker.accepts(event),
    ensures
        ({
            let t = worker.next(stats, queue, event, now);
            &&& t.worker.plan == worker.plan
            &&& belongs(t.worker, t.step.action)
        }),
{
    if !in_main_part(worker.phase) {
        lemma_action_before_main_part(worker, stats, queue, event, now);
    } else if worker.phase is Sending || worker.phase is Awaiting {
        lemma_action_of_message(worker, stats, queue, event, now);
    } else {
        lemma_action_of_wait(worker, stats, queue, event, now);
    }
}

proof fn lemma_outcome_is_accepted(worker: Worker, action: Action, outcome: Event)
    requires
        worker.plan.message_len is Some,
        belongs(worker, action),
        can_come_of(worker.plan, action, outcome),
    ensures
        worker.accepts(outcome),
{
}

/// A worker that has a message to send can go on with everything that can come
/// of the action that it asked for.
pub proof fn whatever_comes_is_taken(
    worker: Worker,
    stats: StatsView,
    queue: Seq<u64>,
    event: Event,
    now: u64,
    outcome: Event,
    delay: Duration,
)
    requires
        worker.plan.message_len is Some,
        worker.accepts(event),
    ensures
        can_come_of(worker.plan, Action::Wait(delay), outcome) ==> Worker::waiting(
            worker.plan,
        ).accepts(outcome),
        can_come_of(
            worker.plan,
            Action::Connect(worker.plan.connect_timeout),
            outcome,
        ) ==> Worker::initial(worker.plan).accepts(outcome),
        ({
            let t = worker.next(stats, queue, event, now);
            can_come_of(worker.plan, t.step.action, outcome) ==> t.worker.accepts(outcome)
        }),
{
    let t = worker.next(stats, queue, event, now);
    action_belongs_to_its_phase(worker, stats, queue, event, now);
    if can_come_of(worker.plan, t.step.action, outcome) {
        lemma_outcome_is_accepted(t.worker, t.step.action, outcome);
    }
}

/// An event leaves the plan as it is, and of the counters everything that is
/// not the connection's: the flags and the rate reading. An attempt is counted
/// when the connection is due, and never again.
#[verifier::rlimit(40)]
pub proof fn event_keeps_what_is_not_its_own(
    worker: Worker,
    stats: StatsView,
    queue: Seq<u64>,
    event: Event,
    now: u64,
)
    requires
        worker.accepts(event),
    ensures
        ({
            let t = worker.next(stats, queue, event, now);
            &&& t.worker.plan == worker.plan
            &&& t.stats.total_connections == if t.step.action is Connect {
                wrapped_sum(stats.total_connections, 1)
            } else {
                stats.total_connections
            }
            &&& t.step.action is Connect <==> worker.phase == Phase::Waiting && event
                == Event::Woke
            &&& t.worker.phase != Phase::Waiting
            &&& t.stats.is_warmup == stats.is_warmup
            &&& t.stats.is_shutting_down == stats.is_shutting_down
            &&& t.stats.last_print_time == stats.last_print_time
            &&& t.stats.last_print_count == stats.last_print_count
        }),
{
    broadcast use group_carries_on;

}

/// A connection is done when and only when it is asked to finish or to fail.
/// Until then no success is counted. When it is done, one success was counted,
/// or it was given up with one error and no success, or it failed and nothing
/// was counted, or the test ended before it was due and nothing was counted.
#[verifier::rlimit(40)]
pub proof fn connection_ends_in_one_way(
    worker: Worker,
    stats: StatsView,
    queue: Seq<u64>,
    event: Event,
    now: u64,
)
    requires
        worker.accepts(event),
    ensures
        ({
            let t = worker.next(stats, queue, event, now);
            let done = t.worker.phase == Phase::Done;
            let succeeded = t.stats.success_connections == wrapped_sum(
                stats.success_connections,
                1,
            );
            let failed = t.stats.connection_errors == wrapped_sum(stats.connection_errors, 1);
            let no_success = t.stats.success_connections == stats.success_connections;
            let no_error = t.stats.connection_errors == stats.connection_errors;
            &&& done == (t.step.action == Action::Finish || t.step.action == Action::Fail)
            &&& !done ==> no_success
            &&& t.step.action == Action::Finish && worker.phase != Phase::Waiting ==> succeeded
                || (no_success && failed)
            &&& t.step.action == Action::Finish && worker.phase == Phase::Waiting ==> t.stats
                == stats
            &&& t.step.action == Action::Fail ==> t.stats == stats
            &&& failed || no_error
        }),
{
    broadcast use group_carries_on;

}

/// An event of a connection, with the time, the counters and the queue of send
/// times that it meets.
pub struct Moment {
    pub event: Event,
    pub now: u64,
    pub stats: StatsView,
    pub queue: Seq<u64>,
}

/// Every event can happen where it happens. What the counters and the queue
/// hold from one event to the next is up to other connections too.
pub open spec fn is_course(worker: Worker, course: Seq<Moment>) -> bool
    decreases course.len(),
{
    course.len() > 0 ==> {
        let m = course[0];
        &&& worker.accepts(m.event)
        &&& is_course(worker.next(m.stats, m.queue, m.event, m.now).worker, course.drop_first())
    }
}

/// How often a connection counts a success.
pub open spec fn successes(worker: Worker, course: Seq<Moment>) -> nat
    decreases course.len(),
{
    if course.len() == 0 {
        0
    } else {
        let m = course[0];
        let t = worker.next(m.stats, m.queue, m.event, m.now);
        let counted: nat = if t.stats.success_connections != m.stats.success_connections {
            1
        } else {
            0
        };
        counted + successes(t.worker, course.drop_first())
    }
}

/// A connection succeeds at most once, whatever happens to it.
pub proof fn connection_succeeds_at_most_once(worker: Worker, course: Seq<Moment>)
    requires
        is_course(worker, course),
    ensures
        successes(worker, course) <= 1,
    decreases course.len(),
{
    if course.len() > 0 {
        let m = course[0];
        let t = worker.next(m.stats, m.queue, m.event, m.now);
        let rest = course.drop_first();
        connection_ends_in_one_way(worker, m.stats, m.queue, m.event, m.now);
        connection_succeeds_at_most_once(t.worker, rest);
        if t.worker.phase == Phase::Done {
            assert(is_course(t.worker, rest));
            assert(rest.len() == 0) by {
                reveal_with_fuel(is_course, 2);
            }
        }
    }
}

/// A quiet test prints no notice, and neither does a test that is ending; a
/// test that is ending does not complain about latencies either.
#[verifier::rlimit(40)]
pub proof fn quiet_or_ending_test_prints_nothing(
    worker: Worker,
    stats: StatsView,
    queue: Seq<u64>,
    event: Event,
    now: u64,
)
    requires
        worker.accepts(event),
    ensures
        ({
            let t = worker.next(stats, queue, event, now);
            &&& worker.plan.quiet || stats.is_shutting_down ==> t.step.news.notice is None
            &&& stats.is_shutting_down ==> t.step.news.latency_failure is None
        }),
{
    broadcast use group_carries_on;

}

/// An error of a connection is always told where the test is neither quiet
/// nor ending, and nothing else is.
#[verifier::rlimit(40)]
pub proof fn every_error_is_told(
    worker: Worker,
    stats: StatsView,
    queue: Seq<u64>,
    event: Event,
    now: u64,
)
    requires
        worker.accepts(event),
        !worker.plan.quiet,
        !stats.is_shutting_down,
    ensures
        ({
            let t = worker.next(stats, queue, event, now);
            t.step.news.notice is Some <==> t.stats.connection_errors == wrapped_sum(
                stats.connection_errors,
                1,
            )
        }),
{
    broadcast use group_carries_on;

}

/// The connection is past its last message.
pub open spec fn is_leaving(phase: Phase) -> bool {
    phase == Phase::Closing || phase == Phase::Joining || phase == Phase::Done
}

/// The connection is in its main part.
pub open spec fn in_main_part(phase: Phase) -> bool {
    match phase {
        Phase::Idling | Phase::Skipping | Phase::Sending { .. } | Phase::Awaiting { .. }
        | Phase::Pausing | Phase::Yielding => true,
        _ => false,
    }
}

/// No message is underway, and none was ever sent but the first.
pub open spec fn sends_nothing(phase: Phase) -> bool {
    !in_main_part(phase) || phase == Phase::Idling
}

/// With a message rate of zero or an empty message the connection is only kept
/// open: the message is never sent.
#[verifier::rlimit(40)]
pub proof fn idle_connection_sends_nothing(
    worker: Worker,
    stats: StatsView,
    queue: Seq<u64>,
    event: Event,
    now: u64,
)
    requires
        worker.plan.is_idle(),
        sends_nothing(worker.phase),
        worker.accepts(event),
    ensures
        sends_nothing(Worker::initial(worker.plan).phase),
        ({
            let t = worker.next(stats, queue, event, now);
            &&& sends_nothing(t.worker.phase)
            &&& t.step.action != Action::Send
        }),
{
    broadcast use group_carries_on;

}

/// The end of life is set when the main part begins, the lifetime after the
/// end of the warmup, and stays; no message is sent from then on.
#[verifier::rlimit(40)]
pub proof fn lifetime_bounds_sending(
    worker: Worker,
    stats: StatsView,
    queue: Seq<u64>,
    event: Event,
    now: u64,
)
    requires
        worker.accepts(event),
    ensures
        ({
            let t = worker.next(stats, queue, event, now);
            &&& in_main_part(worker.phase) ==> t.worker.end_time == worker.end_time
            &&& in_main_part(t.worker.phase) && !in_main_part(worker.phase) ==> t.worker.end_time
                == worker.plan.end_time(now)
            &&& t.step.action == Action::Send ==> (t.worker.end_time matches Some(end) ==> now
                < end)
        }),
{
    broadcast use group_carries_on;

}

/// The end of the test ends the main part at once, and a connection that is
/// leaving comes to its end.
#[verifier::rlimit(40)]
pub proof fn shutdown_ends_the_connection(
    worker: Worker,
    stats: StatsView,
    queue: Seq<u64>,
    event: Event,
    now: u64,
)
    requires
        worker.accepts(event),
    ensures
        ({
            let t = worker.next(stats, queue, event, now);
            &&& in_main_part(worker.phase) ==> worker.accepts(Event::Shutdown)
            &&& event == Event::Shutdown ==> is_leaving(t.worker.phase)
            &&& worker.phase == Phase::Closing ==> t.worker.phase == Phase::Joining
                || t.worker.phase == Phase::Done
            &&& worker.phase == Phase::Joining ==> t.worker.phase == Phase::Done
        }),
{
    broadcast use group_carries_on;

}

/// A request is counted for a reply and for nothing else, one for each, with
/// the length of the message that was sent; the warmup counts none.
#[verifier::rlimit(40)]
pub proof fn only_replies_are_counted(
    worker: Worker,
    stats: StatsView,
    queue: Seq<u64>,
    event: Event,
    now: u64,
)
    requires
        worker.accepts(event),
    ensures
        ({
            let t = worker.next(stats, queue, event, now);
            let same = t.stats.total_requests == stats.total_requests && t.stats.total_bytes_sent
                == stats.total_bytes_sent && t.stats.total_bytes_received
                == stats.total_bytes_received && t.stats.latencies == stats.latencies;
            let sent = if in_main_part(worker.phase) {
                worker.plan.message_len
            } else {
                worker.plan.first_len
            };
            &&& stats.is_warmup ==> same
            &&& !(event is Received) ==> same
            &&& !same ==> {
                &&& t.stats.total_requests == wrapped_sum(stats.total_requests, 1)
                &&& t.stats.total_bytes_sent == wrapped_sum(stats.total_bytes_sent, sent->0 as u64)
            }
        }),
{
    broadcast use group_carries_on;

}

/// Without pipelining every message waits for its reply: a message that was
/// sent whole is followed by the wait for the reply, and the queue of send
/// times is not used.
#[verifier::rlimit(40)]
pub proof fn ping_pong_waits_for_replies(
    worker: Worker,
    stats: StatsView,
    queue: Seq<u64>,
    event: Event,
    now: u64,
)
    requires
        worker.accepts(event),
        !worker.plan.pipeline,
    ensures
        ({
            let t = worker.next(stats, queue, event, now);
            &&& t.queue == queue
            &&& worker.phase is Sending && event is Sent && (!worker.plan.is_tcp()
                || worker.plan.message_len == Some(event->Sent_0)) ==> t.step.action
                == Action::Receive
            &&& t.step.action == Action::Receive ==> worker.phase is Sending && event is Sent
            &&& t.step.action != Action::StartReader
            &&& t.step.action != Action::Join
        }),
{
    broadcast use group_carries_on;

}

/// With pipelining the sender never waits for a reply, and puts the send time
/// of each message in the queue before it is sent.
#[verifier::rlimit(40)]
pub proof fn pipeline_sends_without_waiting(
    worker: Worker,
    stats: StatsView,
    queue: Seq<u64>,
    event: Event,
    now: u64,
)
    requires
        worker.accepts(event),
        worker.plan.pipeline,
    ensures
        ({
            let t = worker.next(stats, queue, event, now);
            &&& !(worker.phase is Awaiting) ==> t.step.action != Action::Receive
                && !(t.worker.phase is Awaiting)
            &&& t.queue == if t.step.action == Action::Send {
                queue.push(now)
            } else {
                queue
            }
        }),
{
    broadcast use group_carries_on;

}

/// A round went well and is at its end: the reply was received, or the peer
/// sent something else or nothing more, or the message of a pipelined
/// connection was sent.
pub open spec fn ends_round(worker: Worker, event: Event) -> bool {
    match worker.phase {
        Phase::Awaiting { .. } => match event {
            Event::Received(n) => !worker.plan.is_tcp() || worker.plan.message_len == Some(n),
            Event::ReceivedOther | Event::Ended => true,
            _ => false,
        },
        Phase::Sending { .. } => worker.plan.pipeline && (event matches Event::Sent(n) && (
        !worker.plan.is_tcp() || worker.plan.message_len == Some(n))),
        _ => false,
    }
}

/// Where a voluntary yield is due at the end of a round, the next message has
/// to wait for it, after the pause if there is one; and after a yield none is
/// due.
pub proof fn yield_comes_before_the_next_message(
    worker: Worker,
    stats: StatsView,
    queue: Seq<u64>,
    event: Event,
    now: u64,
)
    requires
        worker.accepts(event),
    ensures
        ({
            let t = worker.next(stats, queue, event, now);
            &&& ends_round(worker, event) && worker.yield_is_due(now) ==> t.step.action
                == Action::Yield || t.step.action is Pause
            &&& worker.phase == Phase::Pausing && !worker.plan.pipeline && event == Event::Woke
                && worker.yield_is_due(now) ==> t.step.action == Action::Yield
            &&& worker.phase == Phase::Yielding && event == Event::Woke ==> t.worker.last_yield
                == now && t.step.action != Action::Yield
        }),
{
    reveal(Worker::round);
    reveal(Worker::yield_then_round);
    reveal(Worker::pause_then_yield);
}

/// Two messages are at least the interval of the message rate apart, whatever
/// happens between them.
pub proof fn messages_keep_their_distance(
    worker: Worker,
    stats: StatsView,
    queue: Seq<u64>,
    event: Event,
    now: u64,
)
    requires
        worker.accepts(event),
    ensures
        ({
            let t = worker.next(stats, queue, event, now);
            &&& t.step.action == Action::Send ==> t.worker.last_send == Some(now)
            &&& in_main_part(worker.phase) && t.step.action != Action::Send ==> t.worker.last_send
                == worker.last_send
            &&& in_main_part(worker.phase) && t.step.action == Action::Send ==> (
            worker.last_send matches Some(since) ==> (worker.plan.message_rate matches Some(rate)
                ==> (rate > 0 ==> now >= since + interval(rate))))
        }),
{
    broadcast use group_carries_on;

    if let Some(rate) = worker.plan.message_rate {
        if rate > 0 {
            interval_keeps_the_rate(rate);
        }
    }
}

/// When the messages of a connection are sent.
pub open spec fn send_times(worker: Worker, course: Seq<Moment>) -> Seq<u64>
    decreases course.len(),
{
    if course.len() == 0 {
        seq![]
    } else {
        let m = course[0];
        let t = worker.next(m.stats, m.queue, m.event, m.now);
        let rest = send_times(t.worker, course.drop_first());
        if t.step.action == Action::Send {
            seq![m.now] + rest
        } else {
            rest
        }
    }
}

/// From one time to a later one there is an interval for each step between
/// them.
pub open spec fn is_spaced(times: Seq<u64>, step: int) -> bool {
    forall|i: int, j: int|
        0 <= i <= j < times.len() ==> #[trigger] times[j] >= #[trigger] times[i] + (j - i) * step
}

/// A connection in its main part, or before it, sends its messages at least
/// the interval of the message rate apart, whatever happens to it.
proof fn lemma_sends_are_spaced(worker: Worker, course: Seq<Moment>, rate: u64)
    requires
        is_course(worker, course),
        worker.plan.message_rate == Some(rate),
        rate > 0,
        in_main_part(worker.phase) || is_leaving(worker.phase) || worker.last_send is None,
    ensures
        is_spaced(send_times(worker, course), interval(rate)),
        send_times(worker, course).len() > 0 ==> (worker.last_send matches Some(since)
            ==> send_times(worker, course)[0] >= since + interval(rate)),
    decreases course.len(),
{
    if course.len() > 0 {
        let m = course[0];
        let t = worker.next(m.stats, m.queue, m.event, m.now);
        let rest = course.drop_first();
        let later = send_times(t.worker, rest);
        let times = send_times(worker, course);
        let step = interval(rate);
        interval_keeps_the_rate(rate);
        event_keeps_what_is_not_its_own(worker, m.stats, m.queue, m.event, m.now);
        messages_keep_their_distance(worker, m.stats, m.queue, m.event, m.now);
        lemma_phases_go_forward(worker, m.stats, m.queue, m.event, m.now);
        lemma_sends_are_spaced(t.worker, rest, rate);
        if t.step.action == Action::Send {
            assert(times[0] == m.now);
            assert forall|i: int, j: int| 0 <= i <= j < times.len() implies #[trigger] times[j]
                >= #[trigger] times[i] + (j - i) * step by {
                if i > 0 {
                    assert(times[i] == later[i - 1] && times[j] == later[j - 1]);
                } else if j > 0 {
                    assert(times[j] == later[j - 1]);
                    assert(later[j - 1] >= later[0] + (j - 1) * step);
                    assert(j * step == (j - 1) * step + step) by (nonlinear_arith);
                } else {
                    assert(0 * step == 0);
                }
            }
        }
    }
}

proof fn lemma_phases_go_forward(
    worker: Worker,
    stats: StatsView,
    queue: Seq<u64>,
    event: Event,
    now: u64,
)
    requires
        worker.accepts(event),
    ensures
        ({
            let t = worker.next(stats, queue, event, now);
            let started = in_main_part(worker.phase) || is_leaving(worker.phase);
            &&& started ==> in_main_part(t.worker.phase) || is_leaving(t.worker.phase)
            &&& is_leaving(worker.phase) ==> t.step.action != Action::Send && t.worker.last_send
                == worker.last_send
            &&& !started && worker.last_send is None ==> in_main_part(t.worker.phase)
                || is_leaving(t.worker.phase) || t.worker.last_send is None
        }),
{
    broadcast use group_carries_on;

}

/// However long a connection runs and whatever happens to it, no more messages
/// are sent in one second than the message rate says: the message that comes
/// as many messages later as the rate is a second later, at least.
pub proof fn message_rate_is_kept(
    plan: Plan,
    delay: Option<Duration>,
    course: Seq<Moment>,
    rate: u64,
    i: int,
)
    requires
        plan.message_rate == Some(rate),
        rate > 0,
        is_course(Worker::first(plan, delay), course),
        0 <= i,
        i + rate < send_times(Worker::first(plan, delay), course).len(),
    ensures
        ({
            let times = send_times(Worker::first(plan, delay), course);
            times[i + rate] >= times[i] + NANOS_PER_SEC
        }),
{
    lemma_sends_are_spaced(Worker::first(plan, delay), course, rate);
    interval_keeps_the_rate(rate);
    let times = send_times(Worker::first(plan, delay), course);
    assert(times[i + rate] >= times[i] + (i + rate - i) * interval(rate));
    assert(rate * interval(rate) == interval(rate) * rate) by (nonlinear_arith);
}

/// A connection that is not due when the test ends is never attempted: it is
/// done, and nothing is counted.
pub proof fn connection_that_is_not_due_is_not_attempted(
    plan: Plan,
    stats: StatsView,
    queue: Seq<u64>,
    now: u64,
)
    ensures
        ({
            let t = Worker::waiting(plan).next(stats, queue, Event::Shutdown, now);
            &&& Worker::waiting(plan).accepts(Event::Shutdown)
            &&& t.worker.phase == Phase::Done
            &&& t.step.action == Action::Finish
            &&& t.stats == stats
        }),
{
}

/// A connection over TCP has Nagle's algorithm on if and only if that is asked
/// for: the option that turns it off is set or cleared before anything is sent.
pub proof fn nagle_is_as_asked_for(
    plan: Plan,
    stats: StatsView,
    queue: Seq<u64>,
    now: u64,
)
    requires
        plan.is_tcp(),
    ensures
        ({
            let t = Worker::initial(plan).next(stats, queue, Event::Connected, now);
            &&& t.step.action == Action::SetNodelay(!plan.nagle)
            &&& t.worker.phase == Phase::Tuning
            &&& forall|event: Event|
                t.worker.accepts(event) ==> event == Event::NodelaySet || event
                    == Event::NodelayFailed
        }),
{
}

/// A TCP connection with an empty message has no reader to wait for: at the end
/// of its life and at the end of the test it is done at once, in order.
pub proof fn empty_message_connection_ends(
    worker: Worker,
    stats: StatsView,
    queue: Seq<u64>,
    event: Event,
    now: u64,
)
    requires
        worker.plan.is_tcp(),
        worker.plan.message_len == Some(0usize),
        worker.accepts(event),
        sends_nothing(worker.phase),
        worker.phase != Phase::Joining,
    ensures
        ({
            let t = worker.next(stats, queue, event, now);
            &&& t.step.action != Action::StartReader
            &&& sends_nothing(t.worker.phase)
            &&& t.worker.phase != Phase::Joining
            &&& worker.phase == Phase::Idling && (event == Event::Shutdown || (event == Event::Woke
                && worker.is_over(now))) ==> {
                &&& t.worker.phase == Phase::Done
                &&& t.step.action == Action::Finish
                &&& t.stats == stats.after_success()
            }
        }),
{
    broadcast use group_carries_on;

    reveal(Worker::round);
}

/// A pause lasts for the rest of the interval, and there is none where nothing
/// is left of it.
pub proof fn pause_completes_the_interval(plan: Plan, spent: u64)
    requires
        plan.message_rate matches Some(rate) && rate > 0,
    ensures
        ({
            let rate = plan.message_rate->0;
            &&& plan.pause(spent) matches Some(nanos) ==> nanos > 0 && spent + nanos == interval(
                rate,
            )
            &&& plan.pause(spent) is None <==> spent >= interval(rate)
        }),
{
    interval_keeps_the_rate(plan.message_rate->0);
}

} // verus!
