//! The line that shows a running test once a second.
//!
//! A [`Printer`] decides what the task that prints does next: it waits for the
//! warmup to end, lets the test settle, and then prints at every tick until
//! the test ends.

use vstd::prelude::*;

use crate::latency::{latency_settings, percentile_value};
use crate::report::LiveFigures;
use crate::stats::{QpsSample, Stats, StatsView};

verus! {

/// Milliseconds between two looks at whether the warmup has ended.
pub const WARMUP_POLL_MILLIS: u64 = 100;

/// Milliseconds from the end of the warmup to the first reading of the rate.
pub const SETTLE_MILLIS: u64 = 1000;

/// Milliseconds between two lines.
pub const TICK_MILLIS: u64 = 1000;

/// Where the task that prints stands.
#[derive(Clone, Copy, Debug, PartialEq, Eq, Structural)]
pub enum PrinterPhase {
    /// The end of the warmup is awaited.
    AwaitingWarmup,
    /// The test has just begun.
    Settling,
    /// A line is printed at every tick.
    Ticking,
    /// Nothing is printed any more.
    Stopped,
}

/// What the task that prints is asked to do.
#[derive(Clone, Copy, Debug, PartialEq, Eq, Structural)]
pub enum PrinterAction {
    /// Sleep for so many milliseconds.
    Sleep(u64),
    /// Start a clock that ticks now and then after every so many milliseconds,
    /// and wait for a tick or for the end of the test.
    StartTicking(u64),
    /// Print the figures, and wait for a tick or for the end of the test.
    Show(LiveFigures),
    /// End.
    Stop,
}

/// What happened to the task that prints.
#[derive(Clone, Copy, Debug, PartialEq, Eq, Structural)]
pub enum PrinterEvent {
    /// A sleep is over.
    Woke,
    /// The clock ticked.
    Tick,
    /// The test has ended.
    Shutdown,
}

/// A percentile of the latencies, zero where there are none.
pub open spec fn live_percentile(stats: StatsView, percent: u8) -> u64 {
    if stats.latencies.len() > 0 {
        percentile_value(latency_settings(), stats.latencies, percent)
    } else {
        0
    }
}

/// The figures of a running test; the rate is that since it was last read.
pub open spec fn live_figures_of(stats: StatsView, now: u64) -> LiveFigures {
    LiveFigures {
        rate: if now > stats.last_print_time {
            Some(
                QpsSample {
                    requests: (stats.total_requests - stats.last_print_count) as u64,
                    elapsed_ms: (now - stats.last_print_time) as u64,
                },
            )
        } else {
            None
        },
        requests: stats.total_requests,
        p50: live_percentile(stats, 50),
        p95: live_percentile(stats, 95),
        p99: live_percentile(stats, 99),
    }
}

/// The figures can be read: neither the clock nor the count of requests went
/// back since the rate was last read, and the latencies can be counted.
pub open spec fn is_readable(stats: StatsView, now: u64) -> bool {
    &&& now >= stats.last_print_time
    &&& stats.total_requests >= stats.last_print_count
    &&& stats.latencies.len() < u64::MAX
}

/// Whether the figures can be read.
pub fn can_read(stats: &Stats, now: u64) -> (r: bool)
    ensures
        r == is_readable(stats@, now),
{
    now >= stats.last_print_time && stats.total_requests >= stats.last_print_count
        && stats.latency_histogram.len() < u64::MAX
}

fn percentile_now(stats: &Stats, percent: u8) -> (r: u64)
    requires
        stats.wf(),
        stats@.latencies.len() < u64::MAX,
        0 < percent < 100,
    ensures
        r == live_percentile(stats@, percent),
{
    if stats.latency_histogram.len() > 0 {
        stats.latency_histogram.value_at_percentile(percent)
    } else {
        0
    }
}

/// Reads the figures of a running test; `now` is the wall clock in
/// milliseconds. The rate is counted from here on.
pub fn live_figures(stats: &mut Stats, now: u64) -> (r: LiveFigures)
    requires
        old(stats).wf(),
        is_readable(old(stats)@, now),
    ensures
        final(stats).wf(),
        final(stats)@ == old(stats)@.rate_from(now),
        r == live_figures_of(old(stats)@, now),
{
    let rate = stats.get_qps(now);
    LiveFigures {
        rate,
        requests: stats.total_requests,
        p50: percentile_now(stats, 50),
        p95: percentile_now(stats, 95),
        p99: percentile_now(stats, 99),
    }
}

/// The decisions of the task that prints.
#[derive(Clone, Copy, Debug)]
pub struct Printer {
    pub phase: PrinterPhase,
}

/// A printer, the counters and the answer to an event.
#[verifier::ext_equal]
pub struct PrinterTurn {
    pub printer: Printer,
    pub stats: StatsView,
    pub action: PrinterAction,
}

impl Printer {
    /// Waits for the warmup to end, or for the test to settle.
    pub open spec fn awaits(stats: StatsView) -> PrinterTurn {
        if stats.is_warmup {
            PrinterTurn {
                printer: Printer { phase: PrinterPhase::AwaitingWarmup },
                stats,
                action: PrinterAction::Sleep(WARMUP_POLL_MILLIS),
            }
        } else {
            PrinterTurn {
                printer: Printer { phase: PrinterPhase::Settling },
                stats,
                action: PrinterAction::Sleep(SETTLE_MILLIS),
            }
        }
    }

    /// The event can happen in this phase.
    pub open spec fn accepts(self, stats: StatsView, event: PrinterEvent, now: u64) -> bool {
        match self.phase {
            PrinterPhase::AwaitingWarmup | PrinterPhase::Settling => event == PrinterEvent::Woke,
            PrinterPhase::Ticking => match event {
                PrinterEvent::Tick => is_readable(stats, now),
                PrinterEvent::Shutdown => true,
                PrinterEvent::Woke => false,
            },
            PrinterPhase::Stopped => false,
        }
    }

    /// What follows an event.
    pub open spec fn next(self, stats: StatsView, event: PrinterEvent, now: u64) -> PrinterTurn {
        match self.phase {
            PrinterPhase::AwaitingWarmup => Printer::awaits(stats),
            PrinterPhase::Settling => PrinterTurn {
                printer: Printer { phase: PrinterPhase::Ticking },
                stats: stats.rate_from(now),
                action: PrinterAction::StartTicking(TICK_MILLIS),
            },
            _ => if event == PrinterEvent::Tick {
                PrinterTurn {
                    printer: self,
                    stats: stats.rate_from(now),
                    action: PrinterAction::Show(live_figures_of(stats, now)),
                }
            } else {
                PrinterTurn {
                    printer: Printer { phase: PrinterPhase::Stopped },
                    stats,
                    action: PrinterAction::Stop,
                }
            },
        }
    }

    /// Starts a printer.
    pub fn start(stats: &Stats) -> (r: (Printer, PrinterAction))
        ensures
            Printer::awaits(stats@) == (PrinterTurn {
                printer: r.0,
                stats: stats@,
                action: r.1,
            }),
    {
        if stats.is_warmup() {
            (
                Printer { phase: PrinterPhase::AwaitingWarmup },
                PrinterAction::Sleep(WARMUP_POLL_MILLIS),
            )
        } else {
            (Printer { phase: PrinterPhase::Settling }, PrinterAction::Sleep(SETTLE_MILLIS))
        }
    }

    /// Whether the event can happen in this phase.
    pub fn can_take(&self, stats: &Stats, event: PrinterEvent, now: u64) -> (r: bool)
        ensures
            r == self.accepts(stats@, event, now),
    {
        match self.phase {
            PrinterPhase::AwaitingWarmup | PrinterPhase::Settling => event == PrinterEvent::Woke,
            PrinterPhase::Ticking => match event {
                PrinterEvent::Tick => can_read(stats, now),
                PrinterEvent::Shutdown => true,
                PrinterEvent::Woke => false,
            },
            PrinterPhase::Stopped => false,
        }
    }

    /// Takes in an event and answers with what to do next; `now` is the wall
    /// clock in milliseconds.
    pub fn step(&mut self, stats: &mut Stats, event: PrinterEvent, now: u64) -> (r: PrinterAction)
        requires
            old(stats).wf(),
            old(self).accepts(old(stats)@, event, now),
        ensures
            final(stats).wf(),
            old(self).next(old(stats)@, event, now) == (PrinterTurn {
                printer: *final(self),
                stats: final(stats)@,
                action: r,
            }),
    {
        match self.phase {
            PrinterPhase::AwaitingWarmup => {
                let (printer, action) = Printer::start(stats);
                self.phase = printer.phase;
                action
            },
            PrinterPhase::Settling => {
                stats.restart_rate(now);
                self.phase = PrinterPhase::Ticking;
                PrinterAction::StartTicking(TICK_MILLIS)
            },
            _ => {
                if event == PrinterEvent::Tick {
                    PrinterAction::Show(live_figures(stats, now))
                } else {
                    self.phase = PrinterPhase::Stopped;
                    PrinterAction::Stop
                }
            },
        }
    }
}

/// Printing changes nothing but where the request rate is counted from, and
/// shows nothing before the warmup has ended.
pub proof fn printing_only_reads(
    printer: Printer,
    stats: StatsView,
    event: PrinterEvent,
    now: u64,
)
    requires
        printer.accepts(stats, event, now),
    ensures
        ({
            let t = printer.next(stats, event, now);
            &&& t.stats == stats || t.stats == stats.rate_from(now)
            &&& stats.is_warmup && printer.phase == PrinterPhase::AwaitingWarmup ==> t.printer
                == printer && t.stats == stats
            &&& t.action is Show ==> printer.phase == PrinterPhase::Ticking
            &&& event == PrinterEvent::Shutdown <==> t.action == PrinterAction::Stop
        }),
{
}

/// The rate that a tick shows is that since the tick before it: what one tick
/// leaves behind is where the next one counts from, so no request and no
/// millisecond is counted twice or left out.
pub proof fn ticks_count_every_request_once(
    before: StatsView,
    between: StatsView,
    first: u64,
    second: u64,
)
    requires
        is_readable(before, first),
        before.last_print_time < first < second,
        between.last_print_time == before.rate_from(first).last_print_time,
        between.last_print_count == before.rate_from(first).last_print_count,
        between.total_requests >= before.total_requests,
    ensures
        ({
            let a = live_figures_of(before, first).rate;
            let b = live_figures_of(between, second).rate;
            &&& a is Some
            &&& b is Some
            &&& a->0.requests + b->0.requests == between.total_requests - before.last_print_count
            &&& a->0.elapsed_ms + b->0.elapsed_ms == second - before.last_print_time
        }),
{
}

} // verus!
