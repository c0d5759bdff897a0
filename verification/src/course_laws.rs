//! What each event means for the test as a whole, for the task that prints and
//! for the reader of a connection.

use vstd::prelude::*;

use crate::command::Config;
use crate::exchange_laws::{
    complaint, counts_one_error, counts_one_request, is_silent, micros_between,
    only_traffic_differs, same_traffic, samples_one_in_256, tells_only,
};
use crate::latency::{class_width, percentile_value};
use crate::printer::{
    is_readable, live_figures_of, Printer, PrinterAction, PrinterEvent, PrinterPhase, SETTLE_MILLIS,
    TICK_MILLIS, WARMUP_POLL_MILLIS,
};
use crate::reader::{reader_turn, Incoming, Reader, ReaderStep};
use crate::runner::{
    run_turn, whole_seconds, RunAction, RunEvent, RunNotice, RunStep, Runner, Stage,
};
use crate::sent_times::{after_take, may_give, Taken};
use crate::stats::{Stats, StatsView};
use crate::worker::{Notice, Plan, Transport};

verus! {

/// A test has the lengths of its configuration. It starts with its warmup,
/// unless that has no length.
pub proof fn test_has_the_settings(config: Config, stats: StatsView, now: u64)
    ensures
        ({
            let runner = Runner::of(config);
            let t = runner.opening(stats, now);
            &&& runner.warmup == config.warmup_duration
            &&& runner.duration == config.duration
            &&& runner.quiet == config.quiet
            &&& config.warmup_duration@ == 0 ==> t.step.action == RunAction::Measure(
                config.duration,
            )
            &&& config.warmup_duration@ > 0 ==> t.step.action == RunAction::WarmUp(
                config.warmup_duration,
            )
        }),
{
}

/// Whatever the stage and the counters: a test is measured for its duration and
/// warmed up for the length of its warmup, at its opening and after each event;
/// and no event changes either length.
pub proof fn stages_last_as_asked_for(
    runner: Runner,
    stats: StatsView,
    event: RunEvent,
    now: u64,
)
    ensures
        ({
            let t = runner.opening(stats, now);
            &&& t.step.action matches RunAction::Measure(d) ==> d == runner.duration
            &&& t.step.action matches RunAction::WarmUp(w) ==> w == runner.warmup
            &&& t.step.action is Measure || t.step.action is WarmUp
            &&& t.step.action is WarmUp <==> runner.warmup@ > 0
            &&& t.runner.warmup == runner.warmup
            &&& t.runner.duration == runner.duration
            &&& t.runner.quiet == runner.quiet
        }),
        ({
            let t = runner.next(stats, event, now);
            &&& t.step.action matches RunAction::Measure(d) ==> d == runner.duration
            &&& !(t.step.action is WarmUp)
            &&& runner.stage == Stage::Warming ==> t.step.action == RunAction::Measure(
                runner.duration,
            )
            &&& runner.stage == Stage::Measuring ==> t.step.action == RunAction::Shutdown
            &&& runner.stage == Stage::Draining ==> t.step.action == if event
                == RunEvent::NoTaskLeft {
                RunAction::Report
            } else {
                RunAction::AwaitTask
            }
            &&& t.runner.warmup == runner.warmup
            &&& t.runner.duration == runner.duration
            &&& t.runner.quiet == runner.quiet
        }),
{
}

/// The counters are touched twice in a test: they are counted anew when the
/// measuring begins, and marked when it ends.
pub proof fn counters_are_touched_twice(
    runner: Runner,
    stats: StatsView,
    event: RunEvent,
    now: u64,
)
    ensures
        runner.opening(stats, now).stats == if runner.warmup@ == 0 {
            stats.after_warmup(now)
        } else {
            stats
        },
        ({
            let t = runner.next(stats, event, now);
            &&& runner.stage == Stage::Warming ==> t.stats == stats.after_warmup(now)
            &&& runner.stage == Stage::Measuring ==> {
                &&& t.stats.is_shutting_down
                &&& same_traffic(stats, t.stats)
                &&& t.stats == (StatsView { is_shutting_down: true, ..stats })
            }
            &&& runner.stage == Stage::Draining || runner.stage == Stage::Over ==> t.stats == stats
        }),
{
}

/// A test that is not quiet tells of its warmup and of its beginning, each with
/// its length in whole seconds, and of every task that failed or was lost;
/// a quiet test tells of nothing.
pub proof fn test_tells_what_happens(
    runner: Runner,
    stats: StatsView,
    event: RunEvent,
    now: u64,
)
    requires
        runner.warmup@ < 0x1_0000_0000_0000_0000 * 1_000_000_000,
        runner.duration@ < 0x1_0000_0000_0000_0000 * 1_000_000_000,
        runner.accepts(event),
    ensures
        ({
            let notice = runner.opening(stats, now).step.notice;
            &&& notice is Some <==> !runner.quiet && runner.warmup@ > 0
            &&& notice is Some ==> (notice->0 matches RunNotice::WarmupStarts(secs) && secs
                * 1_000_000_000 <= runner.warmup@ < (secs + 1) * 1_000_000_000)
        }),
        ({
            let notice = runner.next(stats, event, now).step.notice;
            let news = runner.stage == Stage::Warming || event == RunEvent::TaskFailed || event
                == RunEvent::TaskLost;
            &&& notice is Some <==> !runner.quiet && news
            &&& notice is Some && runner.stage == Stage::Warming ==> (
            notice->0 matches RunNotice::TestStarts(secs) && secs * 1_000_000_000
                <= runner.duration@ < (secs + 1) * 1_000_000_000)
            &&& notice is Some && event == RunEvent::TaskFailed ==> notice->0
                == RunNotice::TaskFailed
            &&& notice is Some && event == RunEvent::TaskLost ==> notice->0 == RunNotice::TaskLost
        }),
{
    assert(whole_seconds(runner.warmup@) == runner.warmup@ / 1_000_000_000);
    assert(whole_seconds(runner.duration@) == runner.duration@ / 1_000_000_000);
}

/// A sleep ends a warmup or a measuring, and nothing else does; then the tasks
/// are awaited, until none is left.
pub proof fn events_belong_to_stages(runner: Runner, event: RunEvent)
    ensures
        runner.stage == Stage::Warming || runner.stage == Stage::Measuring ==> (runner.accepts(
            event,
        ) <==> event == RunEvent::Waited),
        runner.stage == Stage::Draining ==> (runner.accepts(event) <==> event == RunEvent::TaskEnded
            || event == RunEvent::TaskFailed || event == RunEvent::TaskLost || event
            == RunEvent::NoTaskLeft),
        runner.stage == Stage::Over ==> !runner.accepts(event),
{
}

/// The task that prints looks ten times a second whether the warmup has ended,
/// lets the test settle for a second, and prints once a second.
pub proof fn lines_come_once_a_second(
    printer: Printer,
    stats: StatsView,
    event: PrinterEvent,
    now: u64,
)
    requires
        printer.accepts(stats, event, now),
    ensures
        WARMUP_POLL_MILLIS * 10 == 1000,
        SETTLE_MILLIS == 1000,
        TICK_MILLIS == 1000,
        ({
            let t = Printer::awaits(stats);
            &&& t.stats == stats
            &&& stats.is_warmup ==> t.action == PrinterAction::Sleep(100) && t.printer.phase
                == PrinterPhase::AwaitingWarmup
            &&& !stats.is_warmup ==> t.action == PrinterAction::Sleep(1000) && t.printer.phase
                == PrinterPhase::Settling
        }),
        ({
            let t = printer.next(stats, event, now);
            &&& printer.phase == PrinterPhase::AwaitingWarmup ==> t == Printer::awaits(stats)
            &&& printer.phase == PrinterPhase::Settling ==> {
                &&& t.action == PrinterAction::StartTicking(1000)
                &&& t.printer.phase == PrinterPhase::Ticking
                &&& t.stats == stats.rate_from(now)
            }
            &&& printer.phase == PrinterPhase::Ticking && event == PrinterEvent::Tick ==> {
                &&& t.action == PrinterAction::Show(live_figures_of(stats, now))
                &&& t.printer.phase == PrinterPhase::Ticking
                &&& t.stats == stats.rate_from(now)
            }
            &&& printer.phase == PrinterPhase::Ticking && event == PrinterEvent::Shutdown ==> {
                &&& t.action == PrinterAction::Stop
                &&& t.printer.phase == PrinterPhase::Stopped
                &&& t.stats == stats
            }
        }),
{
}

/// What a line shows is the median and the 95th and 99th percentile of the
/// latencies so far, zero where there are none, the requests so far, and the
/// requests and the milliseconds since the rate was last read.
pub proof fn live_figures_are_those_of_the_counters(stats: StatsView, now: u64)
    requires
        is_readable(stats, now),
    ensures
        ({
            let f = live_figures_of(stats, now);
            let settings = seq![1u64, 60_000_000u64, 3u64];
            &&& f.requests == stats.total_requests
            &&& f.rate is Some <==> now > stats.last_print_time
            &&& f.rate matches Some(rate) ==> {
                &&& stats.last_print_count + rate.requests == stats.total_requests
                &&& stats.last_print_time + rate.elapsed_ms == now
            }
            &&& stats.latencies.len() == 0 ==> f.p50 == 0 && f.p95 == 0 && f.p99 == 0
            &&& stats.latencies.len() > 0 ==> {
                &&& f.p50 == percentile_value(settings, stats.latencies, 50)
                &&& f.p95 == percentile_value(settings, stats.latencies, 95)
                &&& f.p99 == percentile_value(settings, stats.latencies, 99)
            }
        }),
{
    assert(crate::latency::latency_settings() =~= seq![1u64, 60_000_000u64, 3u64]);
}

/// Figures can be read unless a clock or a count went back, or there are more
/// latencies than can be counted.
pub proof fn figures_can_be_read(stats: StatsView, now: u64)
    ensures
        is_readable(stats, now) <==> stats.last_print_time <= now && stats.last_print_count
            <= stats.total_requests && stats.latencies.len() < 0xFFFF_FFFF_FFFF_FFFF,
{
}

/// Over a WebSocket every binary message is a reply. Over TCP a reply is as
/// long as the message, and neither is empty.
pub proof fn replies_are_as_long_as_messages(reader: Reader, n: usize, incoming: Incoming)
    ensures
        reader.plan.transport == Transport::WebSocket ==> reader.is_reply(Incoming::Reply(n)),
        reader.plan.transport == Transport::Tcp ==> (reader.is_reply(Incoming::Reply(n)) <==> 0 < n
            && reader.plan.message_len == Some(n)),
        !(incoming is Reply) ==> !reader.is_reply(incoming),
{
}

/// A reader starts with no reply counted.
pub proof fn reader_starts_afresh(plan: Plan)
    ensures
        Reader::initial(plan).plan == plan,
        Reader::initial(plan).counter == 0,
{
}

/// A reply that finds its message is a request, outside the warmup, and of
/// every 256th reply the latency is sampled: the time from the message to the
/// reply, in microseconds. A reply that finds none changes no counter but the
/// reader's own.
pub proof fn reader_times_replies_from_their_messages(
    reader: Reader,
    stats: StatsView,
    taken: Taken,
    received: usize,
    now: u64,
)
    ensures
        ({
            let t = reader.after_reply(stats, taken, received, now);
            let number = if reader.counter < usize::MAX {
                (reader.counter + 1) as usize
            } else {
                0
            };
            let sent = if reader.plan.message_len is Some {
                reader.plan.message_len->0
            } else {
                0
            };
            &&& t.reader.plan == reader.plan
            &&& t.reader.counter == number
            &&& t.step.goes_on
            &&& t.step.news.notice is None
            &&& only_traffic_differs(stats, t.stats)
            &&& t.stats.success_connections == stats.success_connections
            &&& !(taken is Time) || stats.is_warmup ==> t.stats == stats && is_silent(t.step.news)
            &&& !stats.is_warmup ==> (taken matches Taken::Time(sent_at) ==> {
                let micros = micros_between(sent_at, now);
                &&& sent_at <= now ==> micros == (now - sent_at) / 1000
                &&& samples_one_in_256(stats, t.stats, number, micros)
                &&& counts_one_request(stats, t.stats, sent as int, received as int)
                &&& t.step.news.latency_failure == complaint(stats, number, micros)
            })
        }),
{
    if let Taken::Time(sent_at) = taken {
        let micros = micros_between(sent_at, now);
        assert(class_width(micros as u64) == 1 || micros >= 2048);
    }
}

/// A reader passes over what is not a reply, ends with the peer or with the
/// user's wish, and ends with an error that is counted and told.
pub proof fn reader_ends_with_the_peer(reader: Reader, stats: StatsView, n: usize)
    ensures
        ({
            let t = reader.after_other(stats, Incoming::Failed);
            &&& !t.step.goes_on
            &&& t.reader == reader
            &&& counts_one_error(stats, t.stats)
            &&& tells_only(reader.plan, stats, t.step.news, Notice::ReceiveFailed)
        }),
        ({
            let t = reader.after_other(stats, Incoming::Other);
            t.step.goes_on && t.reader == reader && t.stats == stats && is_silent(t.step.news)
        }),
        ({
            let t = reader.after_other(stats, Incoming::Ended);
            !t.step.goes_on && t.reader == reader && t.stats == stats && is_silent(t.step.news)
        }),
        ({
            let t = reader.after_other(stats, Incoming::Interrupted);
            !t.step.goes_on && t.reader == reader && t.stats == stats && is_silent(t.step.news)
        }),
        ({
            let t = reader.after_other(stats, Incoming::Reply(n));
            !t.step.goes_on && t.reader == reader && t.stats == stats && is_silent(t.step.news)
        }),
{
}

/// The time that is taken from the queue is the one that entered first, and it
/// leaves the queue.
pub proof fn first_time_leaves_first(queue: Seq<u64>, first: u64, taken: Taken)
    requires
        may_give(seq![first] + queue, taken),
    ensures
        taken == Taken::Time(first) || taken == Taken::Disturbed,
        taken is Time ==> after_take(seq![first] + queue, taken) == queue,
        taken is Disturbed ==> after_take(seq![first] + queue, taken) == seq![first] + queue,
        may_give(seq![], Taken::Empty),
        after_take(seq![], Taken::Empty) == Seq::<u64>::empty(),
{
    assert((seq![first] + queue).drop_first() =~= queue);
}

/// The task that prints is woken until the warmup is over and the test has
/// settled; from then on it is told of ticks, while the figures can be read,
/// and of the end of the test.
pub proof fn ticks_belong_to_a_running_test(
    printer: Printer,
    stats: StatsView,
    event: PrinterEvent,
    now: u64,
)
    ensures
        printer.phase == PrinterPhase::AwaitingWarmup || printer.phase == PrinterPhase::Settling
            ==> (printer.accepts(stats, event, now) <==> event == PrinterEvent::Woke),
        printer.phase == PrinterPhase::Ticking ==> (printer.accepts(stats, event, now) <==> event
            == PrinterEvent::Shutdown || (event == PrinterEvent::Tick && is_readable(stats, now))),
        printer.phase == PrinterPhase::Stopped ==> !printer.accepts(stats, event, now),
{
}

/// Answers are compared with the runner or the reader and the counters as they
/// stand.
pub proof fn turns_are_as_things_stand(
    runner: Runner,
    reader: Reader,
    stats: Stats,
    run_step: RunStep,
    reader_step: ReaderStep,
)
    ensures
        run_turn(runner, stats, run_step).runner == runner,
        run_turn(runner, stats, run_step).stats == stats@,
        run_turn(runner, stats, run_step).step == run_step,
        reader_turn(reader, stats, reader_step).reader == reader,
        reader_turn(reader, stats, reader_step).stats == stats@,
        reader_turn(reader, stats, reader_step).step == reader_step,
{
}

} // verus!
