//! What a connection does next.
//!
//! A [`Worker`] decides for one connection: it is told what happened last and
//! when, keeps the counters, and answers with the next action. The caller
//! performs the action and reports back. Times are nanoseconds on a monotonic
//! clock of the caller's.

use vstd::arithmetic::div_mod::lemma_fundamental_div_mod;
use vstd::prelude::*;

use crate::command::Config;
use crate::latency::RecordFailure;
use crate::message::bytes_of;
use crate::sent_times::SentTimes;
use crate::stats::{Stats, StatsView};
use crate::time::{elapsed, elapsed_nanos, Duration, NANOS_PER_SEC};

verus! {

/// The time between two voluntary yields.
pub const YIELD_INTERVAL_NANOS: u64 = 10_000_000;

/// The length of a sleep while there is nothing to send.
pub const IDLE_NANOS: u64 = 100_000_000;

/// The protocol of a connection.
#[derive(Clone, Copy, Debug, PartialEq, Eq, Structural)]
pub enum Transport {
    Tcp,
    WebSocket,
}

/// What a connection needs to know of the configuration.
#[derive(Clone, Copy, Debug)]
pub struct Plan {
    pub transport: Transport,
    /// Whether to send without waiting for replies.
    pub pipeline: bool,
    pub quiet: bool,
    /// Whether Nagle's algorithm is on.
    pub nagle: bool,
    /// Longest wait for the connection.
    pub connect_timeout: Duration,
    /// Length of the message to send first.
    pub first_len: Option<usize>,
    /// Length of the message to send again and again.
    pub message_len: Option<usize>,
    /// Messages per second.
    pub message_rate: Option<u64>,
    /// Length of the warmup.
    pub warmup: Duration,
    /// Life of the connection after the warmup.
    pub lifetime: Option<Duration>,
}

/// Where a connection stands.
#[derive(Clone, Copy, Debug, PartialEq, Eq, Structural)]
pub enum Phase {
    /// The connection is not due yet.
    Waiting,
    /// The connection is being made.
    Connecting,
    /// Nagle's algorithm is being turned on or off.
    Tuning,
    /// The first message is being sent, since a point in time.
    SendingFirst { since: u64 },
    /// The reply to the first message is awaited.
    AwaitingFirst { since: u64 },
    /// The reader of a pipelined connection is being started.
    Starting,
    /// There is nothing to send.
    Idling,
    /// The test is ending; nothing is sent in this round.
    Skipping,
    /// A message is being sent.
    Sending { since: u64 },
    /// The reply to a message is awaited.
    Awaiting { since: u64 },
    /// The message rate is kept by a pause.
    Pausing,
    /// Other tasks are given a chance to run.
    Yielding,
    /// The connection is being closed.
    Closing,
    /// The end of the reader is awaited.
    Joining,
    /// Nothing is left to do.
    Done,
}

/// What the caller is asked to do.
#[derive(Clone, Copy, Debug, PartialEq, Eq, Structural)]
pub enum Action {
    /// Wait for the connection to be due.
    Wait(Duration),
    /// Connect, and give up after so long.
    Connect(Duration),
    /// Set the option TCP_NODELAY, which turns Nagle's algorithm off, or clear
    /// it.
    SetNodelay(bool),
    /// Send the first message.
    SendFirst,
    /// Receive the reply to the first message.
    ReceiveFirst,
    /// Start the reader of a pipelined connection.
    StartReader,
    /// Sleep for a while.
    Idle,
    /// Look whether the test has ended.
    Skip,
    /// Send the message.
    Send,
    /// Receive the reply.
    Receive,
    /// Sleep for so many nanoseconds.
    Pause(u64),
    /// Let other tasks run.
    Yield,
    /// Say goodbye to the peer.
    Close,
    /// Wait for the reader to end.
    Join,
    /// End without an error.
    Finish,
    /// End with the error that was reported.
    Fail,
}

/// What happened.
#[derive(Clone, Copy, Debug, PartialEq, Eq, Structural)]
pub enum Event {
    Connected,
    ConnectFailed,
    ConnectTimedOut,
    NodelaySet,
    NodelayFailed,
    /// So many bytes of the message were sent.
    Sent(usize),
    SendFailed,
    /// A reply of so many bytes was received.
    Received(usize),
    /// Something that is not a binary message was received.
    ReceivedOther,
    /// The peer sends nothing more.
    Ended,
    ReceiveFailed,
    ReaderStarted,
    /// A wait, a sleep, a pause or a yield is over.
    Woke,
    /// The test has ended.
    Shutdown,
    Closed,
    Joined,
}

/// What there is to tell the user.
#[derive(Clone, Copy, Debug, PartialEq, Eq, Structural)]
pub enum Notice {
    ConnectFailed,
    ConnectTimedOut,
    FirstWritePartial,
    FirstSendFailed,
    FirstReceiveFailed,
    FirstUnexpected,
    WritePartial,
    SendFailed,
    ReceiveFailed,
}

/// What there is to print.
#[derive(Clone, Copy, Debug, PartialEq, Eq, Structural)]
pub struct News {
    /// A notice.
    pub notice: Option<Notice>,
    /// The failure to record a latency.
    pub latency_failure: Option<RecordFailure>,
}

/// The answer to an event.
#[derive(Clone, Copy, Debug, PartialEq, Eq, Structural)]
pub struct Step {
    /// What to print first.
    pub news: News,
    /// What to do then.
    pub action: Action,
}

/// The decisions for one connection.
#[derive(Clone, Copy, Debug)]
pub struct Worker {
    pub plan: Plan,
    pub phase: Phase,
    /// When the life of the connection ends.
    pub end_time: Option<u128>,
    /// Messages that were sent.
    pub counter: usize,
    /// When the last voluntary yield was over.
    pub last_yield: u64,
    /// When the last message was sent.
    pub last_send: Option<u64>,
}

/// A worker, the counters, the queue of send times, and the answer to an
/// event.
#[verifier::ext_equal]
pub struct Turn {
    pub worker: Worker,
    pub stats: StatsView,
    pub queue: Seq<u64>,
    pub step: Step,
}

/// The nanoseconds that a message takes up at a message rate: a second's share,
/// rounded up.
pub open spec fn interval(rate: u64) -> int {
    (NANOS_PER_SEC + rate - 1) / rate as int
}

/// The interval is the least whole number of nanoseconds that keeps the rate.
pub proof fn interval_keeps_the_rate(rate: u64)
    requires
        rate > 0,
    ensures
        interval(rate) * rate >= NANOS_PER_SEC,
        (interval(rate) - 1) * rate < NANOS_PER_SEC,
        0 < interval(rate) <= NANOS_PER_SEC,
{
    let n = NANOS_PER_SEC as int;
    let r = rate as int;
    let q = (n + r - 1) / r;
    lemma_fundamental_div_mod(n + r - 1, r);
    assert(q * r >= n && (q - 1) * r < n && 0 < q <= n) by (nonlinear_arith)
        requires
            n + r - 1 == r * q + (n + r - 1) % r,
            0 <= (n + r - 1) % r < r,
            r > 0,
            n > 0,
    ;
}

fn message_interval(rate: u64) -> (r: u64)
    requires
        rate > 0,
    ensures
        r == interval(rate),
{
    let whole: u64 = NANOS_PER_SEC / rate;
    proof {
        interval_keeps_the_rate(rate);
        lemma_fundamental_div_mod(NANOS_PER_SEC as int, rate as int);
        let q = whole as int;
        let i = interval(rate);
        let n = NANOS_PER_SEC as int;
        let k = rate as int;
        let rest = n % k;
        assert(rest == 0 ==> i == q) by (nonlinear_arith)
            requires
                n == k * q + rest,
                i * k >= n,
                (i - 1) * k < n,
                k > 0,
        ;
        assert(rest > 0 ==> i == q + 1) by (nonlinear_arith)
            requires
                n == k * q + rest,
                0 <= rest < k,
                i * k >= n,
                (i - 1) * k < n,
                k > 0,
        ;
    }
    if NANOS_PER_SEC % rate == 0 {
        whole
    } else {
        whole + 1
    }
}

impl Plan {
    /// The plan for the connections of a configuration.
    pub open spec fn of(config: Config) -> Plan {
        Plan {
            transport: if config.use_websocket {
                Transport::WebSocket
            } else {
                Transport::Tcp
            },
            pipeline: config.pipeline,
            quiet: config.quiet,
            nagle: config.nagle,
            connect_timeout: config.connect_timeout,
            first_len: match config.first_message {
                Some(b) => Some(bytes_of(b).len() as usize),
                None => None,
            },
            message_len: match config.message {
                Some(b) => Some(bytes_of(b).len() as usize),
                None => None,
            },
            message_rate: config.message_rate,
            warmup: config.warmup_duration,
            lifetime: config.channel_lifetime,
        }
    }

    /// The plan for the connections of a configuration.
    pub fn new(config: &Config) -> (r: Plan)
        ensures
            r == Plan::of(*config),
            r.transport == Transport::WebSocket <==> config.use_websocket,
            r.pipeline == config.pipeline,
            r.quiet == config.quiet,
            r.nagle == config.nagle,
            r.connect_timeout == config.connect_timeout,
            match config.first_message {
                Some(b) => r.first_len matches Some(n) && n == bytes_of(b).len(),
                None => r.first_len is None,
            },
            match config.message {
                Some(b) => r.message_len matches Some(n) && n == bytes_of(b).len(),
                None => r.message_len is None,
            },
            r.message_rate == config.message_rate,
            r.warmup == config.warmup_duration,
            r.lifetime == config.channel_lifetime,
    {
        Plan {
            transport: if config.use_websocket {
                Transport::WebSocket
            } else {
                Transport::Tcp
            },
            pipeline: config.pipeline,
            quiet: config.quiet,
            nagle: config.nagle,
            connect_timeout: config.connect_timeout,
            first_len: match &config.first_message {
                Some(b) => Some(b.len()),
                None => None,
            },
            message_len: match &config.message {
                Some(b) => Some(b.len()),
                None => None,
            },
            message_rate: config.message_rate,
            warmup: config.warmup_duration,
            lifetime: config.channel_lifetime,
        }
    }

    /// The option TCP_NODELAY is to be set: it turns Nagle's algorithm off.
    pub open spec fn sets_nodelay(self) -> bool {
        !self.nagle
    }

    /// Whether the option TCP_NODELAY is to be set, over TCP and under a
    /// WebSocket alike.
    pub fn nodelay(&self) -> (r: bool)
        ensures
            r == !self.nagle,
            r == self.sets_nodelay(),
    {
        !self.nagle
    }

    /// Nothing is ever sent: the rate is zero or the message is empty.
    pub open spec fn is_idle(self) -> bool {
        self.message_rate == Some(0u64) || self.message_len == Some(0usize)
    }

    fn idle(&self) -> (r: bool)
        ensures
            r == self.is_idle(),
    {
        let no_rate = match self.message_rate {
            Some(rate) => rate == 0,
            None => false,
        };
        let no_message = match self.message_len {
            Some(len) => len == 0,
            None => false,
        };
        no_rate || no_message
    }

    pub open spec fn is_tcp(self) -> bool {
        self.transport == Transport::Tcp
    }

    fn tcp(&self) -> (r: bool)
        ensures
            r == self.is_tcp(),
    {
        self.transport == Transport::Tcp
    }

    /// The connection has a reader of its own: it is pipelined, and there is
    /// something to read. Over TCP a reply is as long as the message.
    pub open spec fn has_reader(self) -> bool {
        self.pipeline && !(self.is_tcp() && self.message_len == Some(0usize))
    }

    fn reads_apart(&self) -> (r: bool)
        ensures
            r == self.has_reader(),
    {
        let no_message = match self.message_len {
            Some(len) => len == 0,
            None => false,
        };
        self.pipeline && !(self.tcp() && no_message)
    }

    /// The pause that keeps the message rate, `spent` nanoseconds after the
    /// last message: the rest of the interval.
    pub open spec fn pause(self, spent: u64) -> Option<u64> {
        match self.message_rate {
            Some(rate) => if rate > 0 && spent < interval(rate) {
                Some((interval(rate) - spent) as u64)
            } else {
                None
            },
            None => None,
        }
    }

    /// The pause that keeps the message rate.
    pub fn pause_after(&self, spent: u64) -> (r: Option<u64>)
        ensures
            r == self.pause(spent),
    {
        match self.message_rate {
            Some(rate) => {
                if rate == 0 {
                    return None;
                }
                let interval: u64 = message_interval(rate);
                if spent < interval {
                    Some(interval - spent)
                } else {
                    None
                }
            },
            None => None,
        }
    }

    /// When a connection ends whose main part starts now: its life starts
    /// when the warmup ends.
    pub open spec fn end_time(self, now: u64) -> Option<u128> {
        match self.lifetime {
            Some(lifetime) => Some((now + self.warmup@ + lifetime@) as u128),
            None => None,
        }
    }

    fn end_of_life(&self, now: u64) -> (r: Option<u128>)
        ensures
            r == self.end_time(now),
    {
        match self.lifetime {
            Some(lifetime) => Some(now as u128 + self.warmup.as_nanos() + lifetime.as_nanos()),
            None => None,
        }
    }
}

/// The notice, unless the test is quiet or ending.
pub open spec fn told(plan: Plan, stats: StatsView, notice: Notice) -> Option<Notice> {
    if !stats.is_shutting_down && !plan.quiet {
        Some(notice)
    } else {
        None
    }
}

pub(crate) fn tell(plan: &Plan, stats: &Stats, notice: Notice) -> (r: Option<Notice>)
    ensures
        r == told(*plan, stats@, notice),
{
    if !stats.is_shutting_down() && !plan.quiet {
        Some(notice)
    } else {
        None
    }
}

/// Nothing to print.
pub open spec fn silence() -> News {
    News { notice: None, latency_failure: None }
}

pub(crate) fn no_news() -> (r: News)
    ensures
        r == silence(),
{
    News { notice: None, latency_failure: None }
}

/// A notice to print.
pub open spec fn noticed(notice: Option<Notice>) -> News {
    News { notice, latency_failure: None }
}

impl Worker {
    /// The state of a connection that is yet to be made.
    pub open spec fn initial(plan: Plan) -> Worker {
        Worker {
            plan,
            phase: Phase::Connecting,
            end_time: None,
            counter: 0,
            last_yield: 0,
            last_send: None,
        }
    }

    /// The state of a connection that is not due yet.
    pub open spec fn waiting(plan: Plan) -> Worker {
        Worker { phase: Phase::Waiting, ..Worker::initial(plan) }
    }

    /// The state that a connection starts in: it waits if it is not to be made
    /// at once.
    pub open spec fn first(plan: Plan, delay: Option<Duration>) -> Worker {
        if delay is Some {
            Worker::waiting(plan)
        } else {
            Worker::initial(plan)
        }
    }

    /// The life of the connection is over.
    pub open spec fn is_over(self, now: u64) -> bool {
        self.end_time is Some && now >= self.end_time->0
    }

    /// The time for a voluntary yield has come.
    pub open spec fn yield_is_due(self, now: u64) -> bool {
        elapsed(self.last_yield, now) >= YIELD_INTERVAL_NANOS
    }

    /// The pause that the message rate asks for before the next message.
    pub open spec fn pause_before_send(self, now: u64) -> Option<u64> {
        match self.last_send {
            Some(since) => self.plan.pause(elapsed(since, now)),
            None => None,
        }
    }

    /// Goes on in a phase, with the action that belongs to it.
    pub open spec fn goes(
        self,
        phase: Phase,
        action: Action,
        stats: StatsView,
        queue: Seq<u64>,
        news: News,
    ) -> Turn {
        Turn { worker: Worker { phase, ..self }, stats, queue, step: Step { news, action } }
    }

    /// The connection has ended in order, and the success is counted.
    pub open spec fn succeed(self, stats: StatsView, queue: Seq<u64>, news: News) -> Turn {
        self.goes(Phase::Done, Action::Finish, stats.after_success(), queue, news)
    }

    /// Nothing is sent any more: the reader is awaited, if there is one.
    pub open spec fn drain(self, stats: StatsView, queue: Seq<u64>, news: News) -> Turn {
        if self.plan.has_reader() {
            self.goes(Phase::Joining, Action::Join, stats, queue, news)
        } else {
            self.succeed(stats, queue, news)
        }
    }

    /// The connection is left in order: a WebSocket says goodbye first.
    pub open spec fn leave(self, stats: StatsView, queue: Seq<u64>, news: News) -> Turn {
        if self.plan.is_tcp() {
            self.drain(stats, queue, news)
        } else {
            self.goes(Phase::Closing, Action::Close, stats, queue, news)
        }
    }

    /// The connection is given up before its main part: the error is counted
    /// and told.
    pub open spec fn give_up(self, stats: StatsView, queue: Seq<u64>, notice: Notice) -> Turn {
        self.goes(
            Phase::Done,
            Action::Finish,
            stats.after_error(),
            queue,
            noticed(told(self.plan, stats, notice)),
        )
    }

    /// A new round of the main part: the connection is left at the end of its
    /// life; nothing is sent where there is nothing to send or the test is
    /// ending; else the message is sent, after the pause that keeps the message
    /// rate.
    #[verifier::opaque]
    pub open spec fn round(self, stats: StatsView, queue: Seq<u64>, now: u64, news: News) -> Turn {
        if self.is_over(now) {
            self.leave(stats, queue, news)
        } else if self.plan.is_idle() {
            self.goes(Phase::Idling, Action::Idle, stats, queue, news)
        } else if stats.is_shutting_down {
            self.goes(Phase::Skipping, Action::Skip, stats, queue, news)
        } else if let Some(nanos) = self.pause_before_send(now) {
            self.goes(Phase::Pausing, Action::Pause(nanos), stats, queue, news)
        } else {
            Worker { last_send: Some(now), ..self }.goes(
                Phase::Sending { since: now },
                Action::Send,
                stats,
                if self.plan.pipeline {
                    queue.push(now)
                } else {
                    queue
                },
                news,
            )
        }
    }

    /// A round that failed: the error is counted and told, and a new round
    /// begins.
    pub open spec fn retry(
        self,
        stats: StatsView,
        queue: Seq<u64>,
        now: u64,
        notice: Notice,
    ) -> Turn {
        self.round(stats.after_error(), queue, now, noticed(told(self.plan, stats, notice)))
    }

    /// The main part begins.
    pub open spec fn begin(self, stats: StatsView, queue: Seq<u64>, now: u64, news: News) -> Turn {
        Worker {
            end_time: self.plan.end_time(now),
            counter: 0,
            last_yield: now,
            last_send: None,
            ..self
        }.round(
            stats,
            queue,
            now,
            news,
        )
    }

    /// What precedes the main part is done; a pipelined connection gets a
    /// reader, unless there is nothing to read.
    pub open spec fn prepared(
        self,
        stats: StatsView,
        queue: Seq<u64>,
        now: u64,
        news: News,
    ) -> Turn {
        if self.plan.has_reader() {
            self.goes(Phase::Starting, Action::StartReader, stats, queue, news)
        } else {
            self.begin(stats, queue, now, news)
        }
    }

    /// The connection is open: the first message is sent, if there is one.
    pub open spec fn opened(self, stats: StatsView, queue: Seq<u64>, now: u64) -> Turn {
        if self.plan.first_len is Some {
            self.goes(
                Phase::SendingFirst { since: now },
                Action::SendFirst,
                stats,
                queue,
                silence(),
            )
        } else {
            self.prepared(stats, queue, now, silence())
        }
    }

    /// The end of a round that went well: a yield if one is due, else a new
    /// round.
    #[verifier::opaque]
    pub open spec fn yield_then_round(
        self,
        stats: StatsView,
        queue: Seq<u64>,
        now: u64,
        news: News,
    ) -> Turn {
        if self.yield_is_due(now) {
            self.goes(Phase::Yielding, Action::Yield, stats, queue, news)
        } else {
            self.round(stats, queue, now, news)
        }
    }

    /// The end of a round with a reply: the pause that keeps the message rate,
    /// and then a yield.
    #[verifier::opaque]
    pub open spec fn pause_then_yield(
        self,
        stats: StatsView,
        queue: Seq<u64>,
        now: u64,
        news: News,
    ) -> Turn {
        match self.pause_before_send(now) {
            Some(nanos) => self.goes(Phase::Pausing, Action::Pause(nanos), stats, queue, news),
            None => self.yield_then_round(stats, queue, now, news),
        }
    }

    /// The event can happen in this phase. From the main part on there must be
    /// a message.
    pub open spec fn accepts(self, event: Event) -> bool {
        let websocket = !self.plan.is_tcp();
        let has_message = self.plan.message_len is Some;
        match self.phase {
            Phase::Waiting => event is Woke || event is Shutdown,
            Phase::Connecting => match event {
                Event::Connected => self.plan.is_tcp() || self.plan.first_len is Some || has_message,
                Event::ConnectFailed | Event::ConnectTimedOut => true,
                _ => false,
            },
            Phase::Tuning => match event {
                Event::NodelaySet => self.plan.first_len is Some || has_message,
                Event::NodelayFailed => true,
                _ => false,
            },
            Phase::SendingFirst { .. } => {
                &&& self.plan.first_len is Some
                &&& event is Sent || event is SendFailed
            },
            Phase::AwaitingFirst { .. } => match event {
                Event::Received(_) => self.plan.first_len is Some && has_message,
                Event::ReceiveFailed => true,
                Event::ReceivedOther | Event::Ended => websocket,
                _ => false,
            },
            Phase::Starting => has_message && event is ReaderStarted,
            Phase::Idling | Phase::Skipping | Phase::Pausing | Phase::Yielding => {
                &&& has_message
                &&& event is Woke || event is Shutdown
            },
            Phase::Sending { .. } => {
                &&& has_message
                &&& event is Sent || event is SendFailed || event is Shutdown
            },
            Phase::Awaiting { .. } => {
                &&& has_message
                &&& match event {
                    Event::Received(_) | Event::ReceiveFailed | Event::Shutdown => true,
                    Event::ReceivedOther | Event::Ended => websocket,
                    _ => false,
                }
            },
            Phase::Closing => event is Closed,
            Phase::Joining => event is Joined,
            Phase::Done => false,
        }
    }

    /// What follows an event.
    pub open spec fn next(
        self,
        stats: StatsView,
        queue: Seq<u64>,
        event: Event,
        now: u64,
    ) -> Turn {
        match self.phase {
            Phase::Waiting => match event {
                Event::Woke => self.goes(
                    Phase::Connecting,
                    Action::Connect(self.plan.connect_timeout),
                    stats.after_attempt(),
                    queue,
                    silence(),
                ),
                _ => self.goes(Phase::Done, Action::Finish, stats, queue, silence()),
            },
            Phase::Connecting => match event {
                Event::Connected => if self.plan.is_tcp() {
                    self.goes(
                        Phase::Tuning,
                        Action::SetNodelay(self.plan.sets_nodelay()),
                        stats,
                        queue,
                        silence(),
                    )
                } else {
                    self.opened(stats, queue, now)
                },
                Event::ConnectFailed => self.give_up(stats, queue, Notice::ConnectFailed),
                _ => self.give_up(stats, queue, Notice::ConnectTimedOut),
            },
            Phase::Tuning => match event {
                Event::NodelaySet => self.opened(stats, queue, now),
                _ => self.goes(Phase::Done, Action::Fail, stats, queue, silence()),
            },
            Phase::SendingFirst { since } => match event {
                Event::Sent(n) => if self.plan.is_tcp() && self.plan.first_len != Some(n) {
                    self.give_up(stats, queue, Notice::FirstWritePartial)
                } else {
                    self.goes(
                        Phase::AwaitingFirst { since },
                        Action::ReceiveFirst,
                        stats,
                        queue,
                        silence(),
                    )
                },
                _ => self.give_up(stats, queue, Notice::FirstSendFailed),
            },
            Phase::AwaitingFirst { since } => match event {
                Event::Received(n) => self.first_reply(stats, queue, n, since, now),
                Event::ReceiveFailed => self.give_up(stats, queue, Notice::FirstReceiveFailed),
                _ => self.give_up(stats, queue, Notice::FirstUnexpected),
            },
            Phase::Starting => self.begin(stats, queue, now, silence()),
            Phase::Idling | Phase::Skipping => match event {
                Event::Woke => self.round(stats, queue, now, silence()),
                _ => self.leave(stats, queue, silence()),
            },
            Phase::Pausing => match event {
                Event::Woke => if self.plan.pipeline {
                    self.round(stats, queue, now, silence())
                } else {
                    self.yield_then_round(stats, queue, now, silence())
                },
                _ => self.leave(stats, queue, silence()),
            },
            Phase::Yielding => match event {
                Event::Woke => Worker { last_yield: now, ..self }.round(
                    stats,
                    queue,
                    now,
                    silence(),
                ),
                _ => self.leave(stats, queue, silence()),
            },
            Phase::Sending { since } => match event {
                Event::Sent(n) => if self.plan.is_tcp() && self.plan.message_len != Some(n) {
                    self.retry(stats, queue, now, Notice::WritePartial)
                } else {
                    let counted = Worker { counter: self.counter.wrapping_add(1), ..self };
                    if self.plan.pipeline {
                        counted.yield_then_round(stats, queue, now, silence())
                    } else {
                        counted.goes(
                            Phase::Awaiting { since },
                            Action::Receive,
                            stats,
                            queue,
                            silence(),
                        )
                    }
                },
                Event::SendFailed => self.retry(stats, queue, now, Notice::SendFailed),
                _ => self.leave(stats, queue, silence()),
            },
            Phase::Awaiting { since } => match event {
                Event::Received(n) => if self.plan.is_tcp() && self.plan.message_len != Some(n) {
                    self.round(stats, queue, now, silence())
                } else {
                    self.reply(stats, queue, n, since, now)
                },
                Event::ReceivedOther => self.yield_then_round(stats, queue, now, silence()),
                Event::Ended => self.pause_then_yield(stats, queue, now, silence()),
                Event::ReceiveFailed => self.retry(stats, queue, now, Notice::ReceiveFailed),
                _ => self.leave(stats, queue, silence()),
            },
            Phase::Closing => self.drain(stats, queue, silence()),
            Phase::Joining => self.succeed(stats, queue, silence()),
            Phase::Done => self.goes(Phase::Done, Action::Finish, stats, queue, silence()),
        }
    }

    /// The reply to the first message: its latency and its bytes are counted.
    pub open spec fn first_reply(
        self,
        stats: StatsView,
        queue: Seq<u64>,
        received: usize,
        since: u64,
        now: u64,
    ) -> Turn {
        let latency_us = elapsed(since, now) / 1000;
        let sent = self.plan.first_len->0;
        let got = if self.plan.is_tcp() {
            sent
        } else {
            received
        };
        self.prepared(
            stats.after_latency(latency_us, 0).after_request(sent, got),
            queue,
            now,
            News { notice: None, latency_failure: stats.latency_failure(latency_us, 0) },
        )
    }

    /// The reply to a message: its latency and its bytes are counted.
    pub open spec fn reply(
        self,
        stats: StatsView,
        queue: Seq<u64>,
        received: usize,
        since: u64,
        now: u64,
    ) -> Turn {
        let latency_us = elapsed(since, now) / 1000;
        let sent = self.plan.message_len->0;
        self.pause_then_yield(
            stats.after_latency(latency_us, self.counter).after_request(sent, received),
            queue,
            now,
            News {
                notice: None,
                latency_failure: stats.latency_failure(latency_us, self.counter),
            },
        )
    }
}

/// A worker, counters, a queue and an answer as they stand.
pub open spec fn turn(worker: Worker, stats: Stats, sent: SentTimes, step: Step) -> Turn {
    Turn { worker, stats: stats@, queue: sent@, step }
}

impl Worker {
    /// Starts a connection: after the delay, if there is one, it is counted and
    /// asked to be made within the connection timeout.
    pub fn start(plan: Plan, delay: Option<Duration>, stats: &mut Stats) -> (r: (Worker, Step))
        requires
            old(stats).wf(),
        ensures
            final(stats).wf(),
            r.0 == Worker::first(plan, delay),
            final(stats)@ == if delay is Some {
                old(stats)@
            } else {
                old(stats)@.after_attempt()
            },
            r.1 == (Step {
                news: silence(),
                action: match delay {
                    Some(wait) => Action::Wait(wait),
                    None => Action::Connect(plan.connect_timeout),
                },
            }),
    {
        let (phase, action) = match delay {
            Some(wait) => (Phase::Waiting, Action::Wait(wait)),
            None => {
                stats.record_connection_attempt();
                (Phase::Connecting, Action::Connect(plan.connect_timeout))
            },
        };
        (
            Worker { plan, phase, end_time: None, counter: 0, last_yield: 0, last_send: None },
            Step { news: no_news(), action },
        )
    }

    fn go(&mut self, phase: Phase, action: Action, news: News) -> (r: Step)
        ensures
            *final(self) == (Worker { phase, ..*old(self) }),
            r == (Step { news, action }),
    {
        self.phase = phase;
        Step { news, action }
    }

    /// Ends in order.
    fn do_succeed(
        &mut self,
        stats: &mut Stats,
        sent: &mut SentTimes,
        news: News,
    ) -> (r: Step)
        requires
            old(stats).wf(),
        ensures
            final(stats).wf(),
            turn(*final(self), *final(stats), *final(sent), r) == old(self).succeed(
                old(stats)@,
                old(sent)@,
                news,
            ),
    {
        stats.record_connection_success();
        self.go(Phase::Done, Action::Finish, news)
    }

    /// Awaits the reader, if there is one.
    fn do_drain(
        &mut self,
        stats: &mut Stats,
        sent: &mut SentTimes,
        news: News,
    ) -> (r: Step)
        requires
            old(stats).wf(),
        ensures
            final(stats).wf(),
            turn(*final(self), *final(stats), *final(sent), r) == old(self).drain(
                old(stats)@,
                old(sent)@,
                news,
            ),
    {
        if self.plan.reads_apart() {
            self.go(Phase::Joining, Action::Join, news)
        } else {
            self.do_succeed(stats, sent, news)
        }
    }

    /// Leaves in order.
    fn do_leave(
        &mut self,
        stats: &mut Stats,
        sent: &mut SentTimes,
        news: News,
    ) -> (r: Step)
        requires
            old(stats).wf(),
        ensures
            final(stats).wf(),
            turn(*final(self), *final(stats), *final(sent), r) == old(self).leave(
                old(stats)@,
                old(sent)@,
                news,
            ),
    {
        if self.plan.tcp() {
            self.do_drain(stats, sent, news)
        } else {
            self.go(Phase::Closing, Action::Close, news)
        }
    }

    /// Gives the connection up.
    fn do_give_up(
        &mut self,
        stats: &mut Stats,
        sent: &mut SentTimes,
        notice: Notice,
    ) -> (r: Step)
        requires
            old(stats).wf(),
        ensures
            final(stats).wf(),
            turn(*final(self), *final(stats), *final(sent), r) == old(self).give_up(
                old(stats)@,
                old(sent)@,
                notice,
            ),
    {
        let notice = tell(&self.plan, stats, notice);
        stats.record_connection_error();
        self.go(Phase::Done, Action::Finish, News { notice, latency_failure: None })
    }

    fn needed_pause(&self, now: u64) -> (r: Option<u64>)
        ensures
            r == self.pause_before_send(now),
    {
        match self.last_send {
            Some(since) => self.plan.pause_after(elapsed_nanos(since, now)),
            None => None,
        }
    }

    /// Begins a round.
    fn do_round(
        &mut self,
        stats: &mut Stats,
        sent: &mut SentTimes,
        now: u64,
        news: News,
    ) -> (r: Step)
        requires
            old(stats).wf(),
        ensures
            final(stats).wf(),
            turn(*final(self), *final(stats), *final(sent), r) == old(self).round(
                old(stats)@,
                old(sent)@,
                now,
                news,
            ),
    {
        reveal(Worker::round);
        let over = match self.end_time {
            Some(end) => now as u128 >= end,
            None => false,
        };
        if over {
            self.do_leave(stats, sent, news)
        } else if self.plan.idle() {
            self.go(Phase::Idling, Action::Idle, news)
        } else if stats.is_shutting_down() {
            self.go(Phase::Skipping, Action::Skip, news)
        } else if let Some(nanos) = self.needed_pause(now) {
            self.go(Phase::Pausing, Action::Pause(nanos), news)
        } else {
            self.last_send = Some(now);
            if self.plan.pipeline {
                sent.push(now);
            }
            self.go(Phase::Sending { since: now }, Action::Send, news)
        }
    }

    /// Counts and tells an error, and begins a round.
    fn do_retry(
        &mut self,
        stats: &mut Stats,
        sent: &mut SentTimes,
        now: u64,
        notice: Notice,
    ) -> (r: Step)
        requires
            old(stats).wf(),
        ensures
            final(stats).wf(),
            turn(*final(self), *final(stats), *final(sent), r) == old(self).retry(
                old(stats)@,
                old(sent)@,
                now,
                notice,
            ),
    {
        let notice = tell(&self.plan, stats, notice);
        stats.record_connection_error();
        self.do_round(stats, sent, now, News { notice, latency_failure: None })
    }

    /// Begins the main part.
    fn do_begin(
        &mut self,
        stats: &mut Stats,
        sent: &mut SentTimes,
        now: u64,
        news: News,
    ) -> (r: Step)
        requires
            old(stats).wf(),
        ensures
            final(stats).wf(),
            turn(*final(self), *final(stats), *final(sent), r) == old(self).begin(
                old(stats)@,
                old(sent)@,
                now,
                news,
            ),
    {
        self.end_time = self.plan.end_of_life(now);
        self.counter = 0;
        self.last_yield = now;
        self.last_send = None;
        self.do_round(stats, sent, now, news)
    }

    /// Goes on after what precedes the main part.
    fn do_prepared(
        &mut self,
        stats: &mut Stats,
        sent: &mut SentTimes,
        now: u64,
        news: News,
    ) -> (r: Step)
        requires
            old(stats).wf(),
        ensures
            final(stats).wf(),
            turn(*final(self), *final(stats), *final(sent), r) == old(self).prepared(
                old(stats)@,
                old(sent)@,
                now,
                news,
            ),
    {
        if self.plan.reads_apart() {
            self.go(Phase::Starting, Action::StartReader, news)
        } else {
            self.do_begin(stats, sent, now, news)
        }
    }

    /// Goes on after the connection was opened.
    fn do_opened(
        &mut self,
        stats: &mut Stats,
        sent: &mut SentTimes,
        now: u64,
    ) -> (r: Step)
        requires
            old(stats).wf(),
        ensures
            final(stats).wf(),
            turn(*final(self), *final(stats), *final(sent), r) == old(self).opened(
                old(stats)@,
                old(sent)@,
                now,
            ),
    {
        if self.plan.first_len.is_some() {
            self.go(Phase::SendingFirst { since: now }, Action::SendFirst, no_news())
        } else {
            self.do_prepared(stats, sent, now, no_news())
        }
    }

    /// Yields if that is due, else begins a round.
    fn do_yield_then_round(
        &mut self,
        stats: &mut Stats,
        sent: &mut SentTimes,
        now: u64,
        news: News,
    ) -> (r: Step)
        requires
            old(stats).wf(),
        ensures
            final(stats).wf(),
            turn(*final(self), *final(stats), *final(sent), r) == old(self).yield_then_round(
                old(stats)@,
                old(sent)@,
                now,
                news,
            ),
    {
        reveal(Worker::yield_then_round);
        if elapsed_nanos(self.last_yield, now) >= YIELD_INTERVAL_NANOS {
            self.go(Phase::Yielding, Action::Yield, news)
        } else {
            self.do_round(stats, sent, now, news)
        }
    }

    /// Pauses if the message rate needs it, else yields if that is due.
    fn do_pause_then_yield(
        &mut self,
        stats: &mut Stats,
        sent: &mut SentTimes,
        now: u64,
        news: News,
    ) -> (r: Step)
        requires
            old(stats).wf(),
        ensures
            final(stats).wf(),
            turn(*final(self), *final(stats), *final(sent), r) == old(self).pause_then_yield(
                old(stats)@,
                old(sent)@,
                now,
                news,
            ),
    {
        reveal(Worker::pause_then_yield);
        match self.needed_pause(now) {
            Some(nanos) => self.go(Phase::Pausing, Action::Pause(nanos), news),
            None => self.do_yield_then_round(stats, sent, now, news),
        }
    }

    /// Counts the reply to the first message.
    fn do_first_reply(
        &mut self,
        stats: &mut Stats,
        sent: &mut SentTimes,
        received: usize,
        since: u64,
        now: u64,
    ) -> (r: Step)
        requires
            old(stats).wf(),
            old(self).plan.first_len is Some,
        ensures
            final(stats).wf(),
            turn(*final(self), *final(stats), *final(sent), r) == old(self).first_reply(
                old(stats)@,
                old(sent)@,
                received,
                since,
                now,
            ),
    {
        let latency_us: u64 = elapsed_nanos(since, now) / 1000;
        let first_len: usize = match self.plan.first_len {
            Some(len) => len,
            None => 0,
        };
        let latency_failure = stats.record_latency(latency_us, 0);
        if self.plan.tcp() {
            stats.record_request(first_len, first_len);
        } else {
            stats.record_request(first_len, received);
        }
        self.do_prepared(stats, sent, now, News { notice: None, latency_failure })
    }

    /// Counts the reply to a message.
    fn do_reply(
        &mut self,
        stats: &mut Stats,
        sent: &mut SentTimes,
        received: usize,
        since: u64,
        now: u64,
    ) -> (r: Step)
        requires
            old(stats).wf(),
            old(self).plan.message_len is Some,
        ensures
            final(stats).wf(),
            turn(*final(self), *final(stats), *final(sent), r) == old(self).reply(
                old(stats)@,
                old(sent)@,
                received,
                since,
                now,
            ),
    {
        let latency_us: u64 = elapsed_nanos(since, now) / 1000;
        let message_len: usize = match self.plan.message_len {
            Some(len) => len,
            None => 0,
        };
        let latency_failure = stats.record_latency(latency_us, self.counter);
        stats.record_request(message_len, received);
        self.do_pause_then_yield(stats, sent, now, News { notice: None, latency_failure })
    }

    /// Whether the event can happen in this phase.
    pub fn can_take(&self, event: Event) -> (r: bool)
        ensures
            r == self.accepts(event),
    {
        let websocket = !self.plan.tcp();
        let has_first = self.plan.first_len.is_some();
        let has_message = self.plan.message_len.is_some();
        match self.phase {
            Phase::Waiting => match event {
                Event::Woke | Event::Shutdown => true,
                _ => false,
            },
            Phase::Connecting => match event {
                Event::Connected => self.plan.tcp() || has_first || has_message,
                Event::ConnectFailed | Event::ConnectTimedOut => true,
                _ => false,
            },
            Phase::Tuning => match event {
                Event::NodelaySet => has_first || has_message,
                Event::NodelayFailed => true,
                _ => false,
            },
            Phase::SendingFirst { .. } => match event {
                Event::Sent(_) | Event::SendFailed => has_first,
                _ => false,
            },
            Phase::AwaitingFirst { .. } => match event {
                Event::Received(_) => has_first && has_message,
                Event::ReceiveFailed => true,
                Event::ReceivedOther | Event::Ended => websocket,
                _ => false,
            },
            Phase::Starting => match event {
                Event::ReaderStarted => has_message,
                _ => false,
            },
            Phase::Idling | Phase::Skipping | Phase::Pausing | Phase::Yielding => {
                match event {
                    Event::Woke | Event::Shutdown => has_message,
                    _ => false,
                }
            },
            Phase::Sending { .. } => match event {
                Event::Sent(_) | Event::SendFailed | Event::Shutdown => has_message,
                _ => false,
            },
            Phase::Awaiting { .. } => match event {
                Event::Received(_) | Event::ReceiveFailed | Event::Shutdown => has_message,
                Event::ReceivedOther | Event::Ended => has_message && websocket,
                _ => false,
            },
            Phase::Closing => match event {
                Event::Closed => true,
                _ => false,
            },
            Phase::Joining => match event {
                Event::Joined => true,
                _ => false,
            },
            Phase::Done => false,
        }
    }

    /// Whether the length of the message that was sent or received is the
    /// length of the message.
    fn is_whole(&self, n: usize) -> (r: bool)
        ensures
            r == !(self.plan.is_tcp() && self.plan.message_len != Some(n)),
    {
        if self.plan.tcp() {
            match self.plan.message_len {
                Some(len) => len == n,
                None => false,
            }
        } else {
            true
        }
    }

    /// Takes in an event and answers with what to do next.
    pub fn step(&mut self, stats: &mut Stats, sent: &mut SentTimes, event: Event, now: u64) -> (r:
        Step)
        requires
            old(stats).wf(),
            old(self).accepts(event),
        ensures
            final(stats).wf(),
            turn(*final(self), *final(stats), *final(sent), r) == old(self).next(
                old(stats)@,
                old(sent)@,
                event,
                now,
            ),
    {
        match self.phase {
            Phase::Waiting => match event {
                Event::Woke => {
                    stats.record_connection_attempt();
                    let timeout = self.plan.connect_timeout;
                    self.go(Phase::Connecting, Action::Connect(timeout), no_news())
                },
                _ => self.go(Phase::Done, Action::Finish, no_news()),
            },
            Phase::Connecting => match event {
                Event::Connected => {
                    if self.plan.tcp() {
                        let nodelay = self.plan.nodelay();
                        self.go(Phase::Tuning, Action::SetNodelay(nodelay), no_news())
                    } else {
                        self.do_opened(stats, sent, now)
                    }
                },
                Event::ConnectFailed => self.do_give_up(stats, sent, Notice::ConnectFailed),
                _ => self.do_give_up(stats, sent, Notice::ConnectTimedOut),
            },
            Phase::Tuning => match event {
                Event::NodelaySet => self.do_opened(stats, sent, now),
                _ => self.go(Phase::Done, Action::Fail, no_news()),
            },
            Phase::SendingFirst { since } => match event {
                Event::Sent(n) => {
                    let whole = match self.plan.first_len {
                        Some(len) => len == n,
                        None => false,
                    };
                    if self.plan.tcp() && !whole {
                        self.do_give_up(stats, sent, Notice::FirstWritePartial)
                    } else {
                        self.go(Phase::AwaitingFirst { since }, Action::ReceiveFirst, no_news())
                    }
                },
                _ => self.do_give_up(stats, sent, Notice::FirstSendFailed),
            },
            Phase::AwaitingFirst { since } => match event {
                Event::Received(n) => self.do_first_reply(stats, sent, n, since, now),
                Event::ReceiveFailed => self.do_give_up(stats, sent, Notice::FirstReceiveFailed),
                _ => self.do_give_up(stats, sent, Notice::FirstUnexpected),
            },
            Phase::Starting => self.do_begin(stats, sent, now, no_news()),
            Phase::Idling | Phase::Skipping => match event {
                Event::Woke => self.do_round(stats, sent, now, no_news()),
                _ => self.do_leave(stats, sent, no_news()),
            },
            Phase::Pausing => match event {
                Event::Woke => {
                    if self.plan.pipeline {
                        self.do_round(stats, sent, now, no_news())
                    } else {
                        self.do_yield_then_round(stats, sent, now, no_news())
                    }
                },
                _ => self.do_leave(stats, sent, no_news()),
            },
            Phase::Yielding => match event {
                Event::Woke => {
                    self.last_yield = now;
                    self.do_round(stats, sent, now, no_news())
                },
                _ => self.do_leave(stats, sent, no_news()),
            },
            Phase::Sending { since } => match event {
                Event::Sent(n) => {
                    if !self.is_whole(n) {
                        self.do_retry(stats, sent, now, Notice::WritePartial)
                    } else {
                        self.counter = self.counter.wrapping_add(1);
                        if self.plan.pipeline {
                            self.do_yield_then_round(stats, sent, now, no_news())
                        } else {
                            self.go(Phase::Awaiting { since }, Action::Receive, no_news())
                        }
                    }
                },
                Event::SendFailed => self.do_retry(stats, sent, now, Notice::SendFailed),
                _ => self.do_leave(stats, sent, no_news()),
            },
            Phase::Awaiting { since } => match event {
                Event::Received(n) => {
                    if !self.is_whole(n) {
                        self.do_round(stats, sent, now, no_news())
                    } else {
                        self.do_reply(stats, sent, n, since, now)
                    }
                },
                Event::ReceivedOther => self.do_yield_then_round(stats, sent, now, no_news()),
                Event::Ended => self.do_pause_then_yield(stats, sent, now, no_news()),
                Event::ReceiveFailed => self.do_retry(stats, sent, now, Notice::ReceiveFailed),
                _ => self.do_leave(stats, sent, no_news()),
            },
            Phase::Closing => self.do_drain(stats, sent, no_news()),
            Phase::Joining => self.do_succeed(stats, sent, no_news()),
            Phase::Done => self.go(Phase::Done, Action::Finish, no_news()),
        }
    }
}

} // verus!
