//! The course of a load test.
//!
//! Connections start at the connection rate. A [`Runner`] decides what the
//! task that conducts the test does next: warm up, measure, end the test, and
//! wait for the connections to end.

use vstd::arithmetic::div_mod::lemma_fundamental_div_mod;
use vstd::prelude::*;
use vstd::string::*;

use crate::command::Config;
use crate::stats::{Stats, StatsView};
use crate::text::decimal;
use crate::text::push_decimal;
use crate::time::{Duration, NANOS_PER_SEC};

verus! {

/// The wait in nanoseconds before the connection of a given index starts, at a
/// connection rate: an index's share of the seconds, rounded up. Without a rate
/// no connection waits.
pub open spec fn start_time(connect_rate: u64, index: u64) -> int {
    if connect_rate == 0 {
        0
    } else {
        (index * NANOS_PER_SEC + connect_rate - 1) / connect_rate as int
    }
}

/// The wait is the least whole number of nanoseconds that keeps the rate.
proof fn lemma_start_time(connect_rate: u64, index: u64)
    requires
        connect_rate > 0,
    ensures
        start_time(connect_rate, index) * connect_rate >= index * NANOS_PER_SEC,
        (start_time(connect_rate, index) - 1) * connect_rate < index * NANOS_PER_SEC,
        0 <= start_time(connect_rate, index) <= index * NANOS_PER_SEC,
{
    let n = index * NANOS_PER_SEC;
    let r = connect_rate as int;
    let q = (n + r - 1) / r;
    lemma_fundamental_div_mod(n + r - 1, r);
    assert(q * r >= n && (q - 1) * r < n && 0 <= q <= n) by (nonlinear_arith)
        requires
            n + r - 1 == r * q + (n + r - 1) % r,
            0 <= (n + r - 1) % r < r,
            r > 0,
            n >= 0,
    ;
}

/// The wait before the connection of a given index starts, if there is a
/// connection rate.
pub fn start_delay(connect_rate: u64, index: u64) -> (r: Option<Duration>)
    ensures
        r.is_some() == (connect_rate > 0),
        r matches Some(delay) ==> delay@ == start_time(connect_rate, index),
{
    if connect_rate == 0 {
        return None;
    }
    let due: u128 = index as u128 * 1_000_000_000;
    let nanos: u128 = (due + connect_rate as u128 - 1) / connect_rate as u128;
    proof {
        lemma_start_time(connect_rate, index);
        assert(nanos == start_time(connect_rate, index));
    }
    let secs: u64 = (nanos / 1_000_000_000) as u64;
    Some(Duration::new(secs, (nanos % 1_000_000_000) as u32))
}

/// New connections keep the connection rate. A connection starts no earlier
/// than its index divided by the rate, in seconds, and no later than the next
/// nanosecond. Connections start in the order of their indices. The connection
/// that comes as many connections later as the rate starts a second later, so
/// no more than the rate start in any one second.
pub proof fn connection_rate_is_kept(connect_rate: u64, index: u64, later: u64)
    requires
        connect_rate > 0,
        index <= later,
    ensures
        start_time(connect_rate, index) * connect_rate >= index * NANOS_PER_SEC,
        (start_time(connect_rate, index) - 1) * connect_rate < index * NANOS_PER_SEC,
        start_time(connect_rate, index) <= start_time(connect_rate, later),
        later == index + connect_rate ==> start_time(connect_rate, later) == start_time(
            connect_rate,
            index,
        ) + NANOS_PER_SEC,
{
    lemma_start_time(connect_rate, index);
    lemma_start_time(connect_rate, later);
    let r = connect_rate as int;
    let a = start_time(connect_rate, index);
    let b = start_time(connect_rate, later);
    let second = NANOS_PER_SEC as int;
    let i = index as int;
    let j = later as int;
    assert(a <= b) by (nonlinear_arith)
        requires
            (a - 1) * r < i * second,
            b * r >= j * second,
            i <= j,
            second > 0,
            r > 0,
    ;
    if later == index + connect_rate {
        assert(b == a + second) by (nonlinear_arith)
            requires
                a * r >= i * second,
                (a - 1) * r < i * second,
                b * r >= j * second,
                (b - 1) * r < j * second,
                j == i + r,
                r > 0,
        ;
    }
}

/// Where the test stands.
#[derive(Clone, Copy, Debug, PartialEq, Eq, Structural)]
pub enum Stage {
    /// The connections run, and nothing counts yet.
    Warming,
    /// The connections run, and what they do counts.
    Measuring,
    /// The end of the connections is awaited.
    Draining,
    /// The test is over.
    Over,
}

/// What the task that conducts the test is asked to do.
#[derive(Clone, Copy, Debug, PartialEq, Eq, Structural)]
pub enum RunAction {
    /// Sleep for the length of the warmup.
    WarmUp(Duration),
    /// Start to measure the time, and sleep for the length of the test.
    Measure(Duration),
    /// Tell the connections that the test has ended, and wait for one to end.
    Shutdown,
    /// Wait for a connection to end.
    AwaitTask,
    /// Show the results, in a quiet test too.
    Report,
}

/// What happened to the task that conducts the test.
#[derive(Clone, Copy, Debug, PartialEq, Eq, Structural)]
pub enum RunEvent {
    /// A sleep is over.
    Waited,
    /// The task of a connection ended without an error.
    TaskEnded,
    /// The task of a connection ended with an error.
    TaskFailed,
    /// The task of a connection was lost.
    TaskLost,
    /// No task is left.
    NoTaskLeft,
}

/// What there is to tell the user of the course of the test.
#[derive(Clone, Copy, Debug, PartialEq, Eq, Structural)]
pub enum RunNotice {
    /// The warmup starts; its length in whole seconds.
    WarmupStarts(u64),
    /// The test starts; its length in whole seconds.
    TestStarts(u64),
    /// The task of a connection ended with an error.
    TaskFailed,
    /// The task of a connection was lost.
    TaskLost,
}

/// The answer of a runner.
#[derive(Clone, Copy, Debug, PartialEq, Eq, Structural)]
pub struct RunStep {
    /// What to print first.
    pub notice: Option<RunNotice>,
    /// What to do next.
    pub action: RunAction,
}

/// The text of a notice; `detail` is the text of the error behind it.
pub open spec fn run_notice_words(notice: RunNotice, detail: Seq<char>) -> Seq<char> {
    match notice {
        RunNotice::WarmupStarts(secs) => "Warming up for "@ + decimal(secs as nat)
            + " seconds..."@,
        RunNotice::TestStarts(secs) => "Warmup completed. Starting benchmark for "@ + decimal(
            secs as nat,
        ) + " seconds..."@,
        RunNotice::TaskFailed => "Task error: "@ + detail,
        RunNotice::TaskLost => "Task join error: "@ + detail,
    }
}

/// The text of a notice; `detail` is the text of the error behind it.
pub fn run_notice_text(notice: RunNotice, detail: &str) -> (r: String)
    ensures
        r@ == run_notice_words(notice, detail@),
{
    match notice {
        RunNotice::WarmupStarts(secs) => {
            let mut text = "Warming up for ".to_owned();
            push_decimal(&mut text, secs);
            text.append(" seconds...");
            text
        },
        RunNotice::TestStarts(secs) => {
            let mut text = "Warmup completed. Starting benchmark for ".to_owned();
            push_decimal(&mut text, secs);
            text.append(" seconds...");
            text
        },
        RunNotice::TaskFailed => {
            let mut text = "Task error: ".to_owned();
            text.append(detail);
            text
        },
        RunNotice::TaskLost => {
            let mut text = "Task join error: ".to_owned();
            text.append(detail);
            text
        },
    }
}

/// The decisions of the task that conducts the test.
#[derive(Clone, Copy, Debug)]
pub struct Runner {
    pub stage: Stage,
    /// Length of the warmup.
    pub warmup: Duration,
    /// Length of the test.
    pub duration: Duration,
    pub quiet: bool,
}

/// A runner, the counters and the answer to an event.
#[verifier::ext_equal]
pub struct RunTurn {
    pub runner: Runner,
    pub stats: StatsView,
    pub step: RunStep,
}

/// A runner, counters and an answer as they stand.
pub open spec fn run_turn(runner: Runner, stats: Stats, step: RunStep) -> RunTurn {
    RunTurn { runner, stats: stats@, step }
}

/// Whole seconds of a span of nanoseconds.
pub open spec fn whole_seconds(span: nat) -> u64 {
    (span / NANOS_PER_SEC as nat) as u64
}

impl Runner {
    /// The notice, unless the test is quiet.
    pub open spec fn told(self, notice: RunNotice) -> Option<RunNotice> {
        if self.quiet {
            None
        } else {
            Some(notice)
        }
    }

    fn tell(&self, notice: RunNotice) -> (r: Option<RunNotice>)
        ensures
            r == self.told(notice),
    {
        if self.quiet {
            None
        } else {
            Some(notice)
        }
    }

    /// Goes on to a stage.
    pub open spec fn goes(
        self,
        stage: Stage,
        stats: StatsView,
        notice: Option<RunNotice>,
        action: RunAction,
    ) -> RunTurn {
        RunTurn { runner: Runner { stage, ..self }, stats, step: RunStep { notice, action } }
    }

    /// The runner of a configuration.
    pub open spec fn of(config: Config) -> Runner {
        Runner {
            stage: Stage::Warming,
            warmup: config.warmup_duration,
            duration: config.duration,
            quiet: config.quiet,
        }
    }

    /// What the test starts with: the warmup, or the test itself where the
    /// warmup has no length.
    pub open spec fn opening(self, stats: StatsView, now: u64) -> RunTurn {
        if self.warmup@ == 0 {
            self.goes(
                Stage::Measuring,
                stats.after_warmup(now),
                None,
                RunAction::Measure(self.duration),
            )
        } else {
            self.goes(
                Stage::Warming,
                stats,
                self.told(RunNotice::WarmupStarts(whole_seconds(self.warmup@))),
                RunAction::WarmUp(self.warmup),
            )
        }
    }

    /// The event can happen in this stage.
    pub open spec fn accepts(self, event: RunEvent) -> bool {
        match self.stage {
            Stage::Warming | Stage::Measuring => event == RunEvent::Waited,
            Stage::Draining => event != RunEvent::Waited,
            Stage::Over => false,
        }
    }

    /// What follows an event.
    pub open spec fn next(self, stats: StatsView, event: RunEvent, now: u64) -> RunTurn {
        match self.stage {
            Stage::Warming => self.goes(
                Stage::Measuring,
                stats.after_warmup(now),
                self.told(RunNotice::TestStarts(whole_seconds(self.duration@))),
                RunAction::Measure(self.duration),
            ),
            Stage::Measuring => self.goes(
                Stage::Draining,
                StatsView { is_shutting_down: true, ..stats },
                None,
                RunAction::Shutdown,
            ),
            _ => match event {
                RunEvent::NoTaskLeft => self.goes(Stage::Over, stats, None, RunAction::Report),
                RunEvent::TaskFailed => self.goes(
                    self.stage,
                    stats,
                    self.told(RunNotice::TaskFailed),
                    RunAction::AwaitTask,
                ),
                RunEvent::TaskLost => self.goes(
                    self.stage,
                    stats,
                    self.told(RunNotice::TaskLost),
                    RunAction::AwaitTask,
                ),
                _ => self.goes(self.stage, stats, None, RunAction::AwaitTask),
            },
        }
    }

    /// Starts the test; `now` is the wall clock in milliseconds.
    pub fn start(config: &Config, stats: &mut Stats, now: u64) -> (r: (Runner, RunStep))
        requires
            old(stats).wf(),
        ensures
            final(stats).wf(),
            run_turn(r.0, *final(stats), r.1) == Runner::of(*config).opening(old(stats)@, now),
            r.0.warmup == config.warmup_duration,
            r.0.duration == config.duration,
            r.0.quiet == config.quiet,
            r.1.action == if config.warmup_duration@ == 0 {
                RunAction::Measure(config.duration)
            } else {
                RunAction::WarmUp(config.warmup_duration)
            },
    {
        let mut runner = Runner {
            stage: Stage::Warming,
            warmup: config.warmup_duration,
            duration: config.duration,
            quiet: config.quiet,
        };
        if runner.warmup.is_zero() {
            stats.end_warmup(now);
            runner.stage = Stage::Measuring;
            (runner, RunStep { notice: None, action: RunAction::Measure(runner.duration) })
        } else {
            let notice = runner.tell(RunNotice::WarmupStarts(runner.warmup.as_secs()));
            (runner, RunStep { notice, action: RunAction::WarmUp(runner.warmup) })
        }
    }

    /// Whether the event can happen in this stage.
    pub fn can_take(&self, event: RunEvent) -> (r: bool)
        ensures
            r == self.accepts(event),
    {
        match self.stage {
            Stage::Warming | Stage::Measuring => event == RunEvent::Waited,
            Stage::Draining => event != RunEvent::Waited,
            Stage::Over => false,
        }
    }

    /// Takes in an event and answers with what to do next; `now` is the wall
    /// clock in milliseconds.
    pub fn step(&mut self, stats: &mut Stats, event: RunEvent, now: u64) -> (r: RunStep)
        requires
            old(stats).wf(),
            old(self).accepts(event),
        ensures
            final(stats).wf(),
            run_turn(*final(self), *final(stats), r) == old(self).next(old(stats)@, event, now),
            final(self).warmup == old(self).warmup,
            final(self).duration == old(self).duration,
            final(self).quiet == old(self).quiet,
            r.action matches RunAction::Measure(d) ==> d == old(self).duration,
            r.action matches RunAction::WarmUp(w) ==> w == old(self).warmup,
    {
        match self.stage {
            Stage::Warming => {
                stats.end_warmup(now);
                self.stage = Stage::Measuring;
                RunStep {
                    notice: self.tell(RunNotice::TestStarts(self.duration.as_secs())),
                    action: RunAction::Measure(self.duration),
                }
            },
            Stage::Measuring => {
                stats.set_shutting_down();
                self.stage = Stage::Draining;
                RunStep { notice: None, action: RunAction::Shutdown }
            },
            _ => match event {
                RunEvent::NoTaskLeft => {
                    self.stage = Stage::Over;
                    RunStep { notice: None, action: RunAction::Report }
                },
                RunEvent::TaskFailed => RunStep {
                    notice: self.tell(RunNotice::TaskFailed),
                    action: RunAction::AwaitTask,
                },
                RunEvent::TaskLost => RunStep {
                    notice: self.tell(RunNotice::TaskLost),
                    action: RunAction::AwaitTask,
                },
                _ => RunStep { notice: None, action: RunAction::AwaitTask },
            },
        }
    }
}

/// The counters know the stage: the warmup lasts while the test warms up and
/// no longer, and the test is ending once it was measured.
pub open spec fn knows_stage(stage: Stage, stats: StatsView) -> bool {
    &&& stats.is_warmup == (stage == Stage::Warming)
    &&& stats.is_shutting_down == (stage == Stage::Draining || stage == Stage::Over)
}

/// A test warms up, is measured, drains and is over, in this order. The
/// counters know the stage throughout, and a quiet test prints nothing.
pub proof fn stages_follow_in_order(
    runner: Runner,
    stats: StatsView,
    event: RunEvent,
    now: u64,
    start: u64,
)
    requires
        runner.accepts(event),
        knows_stage(runner.stage, stats),
    ensures
        ({
            let t = runner.opening(StatsView::fresh(start), now);
            &&& knows_stage(t.runner.stage, t.stats)
            &&& t.runner.stage == Stage::Warming <==> runner.warmup@ > 0
            &&& runner.quiet ==> t.step.notice is None
        }),
        ({
            let t = runner.next(stats, event, now);
            &&& knows_stage(t.runner.stage, t.stats)
            &&& runner.stage == Stage::Warming ==> t.runner.stage == Stage::Measuring
            &&& runner.stage == Stage::Measuring ==> t.runner.stage == Stage::Draining
            &&& runner.stage == Stage::Draining ==> t.runner.stage == if event
                == RunEvent::NoTaskLeft {
                Stage::Over
            } else {
                Stage::Draining
            }
            &&& t.step.action == RunAction::Report <==> t.runner.stage == Stage::Over
            &&& t.step.action is Measure <==> t.runner.stage == Stage::Measuring
            &&& t.step.action == RunAction::Shutdown ==> runner.stage == Stage::Measuring
            &&& runner.quiet ==> t.step.notice is None
        }),
{
}

} // verus!
