//! Counters of a load test.

use vstd::multiset::Multiset;
use vstd::prelude::*;

use crate::latency::recorded;
use crate::latency::{LatencyHistogram, RecordFailure, LATENCY_LIMIT};

verus! {

/// The sum in 64 bits, as a counter takes it.
pub open spec fn wrapped_sum(a: u64, b: u64) -> u64 {
    ((a + b) % 0x1_0000_0000_0000_0000) as u64
}

/// Requests that were counted apart, to be added to the counters in one go.
#[derive(Clone, Debug)]
pub struct LocalStatsCache {
    /// Number of requests.
    pub requests: u64,
    /// Bytes sent.
    pub bytes_sent: u64,
    /// Bytes received.
    pub bytes_received: u64,
}

impl Default for LocalStatsCache {
    fn default() -> (r: Self)
        ensures
            r.requests == 0,
            r.bytes_sent == 0,
            r.bytes_received == 0,
    {
        LocalStatsCache { requests: 0, bytes_sent: 0, bytes_received: 0 }
    }
}

impl LocalStatsCache {
    /// A cache without requests.
    pub fn new() -> (r: Self)
        ensures
            r.requests == 0,
            r.bytes_sent == 0,
            r.bytes_received == 0,
    {
        LocalStatsCache::default()
    }

    /// Counts a request.
    pub fn record_request(&mut self, bytes_sent: usize, bytes_received: usize)
        requires
            old(self).requests < u64::MAX,
            old(self).bytes_sent + bytes_sent <= u64::MAX,
            old(self).bytes_received + bytes_received <= u64::MAX,
        ensures
            final(self).requests == old(self).requests + 1,
            final(self).bytes_sent == old(self).bytes_sent + bytes_sent,
            final(self).bytes_received == old(self).bytes_received + bytes_received,
    {
        self.requests = self.requests + 1;
        self.bytes_sent = self.bytes_sent + bytes_sent as u64;
        self.bytes_received = self.bytes_received + bytes_received as u64;
    }

    /// Adds the cache to the counters, in the warmup too.
    pub fn commit_to(&self, stats: &mut Stats)
        requires
            old(stats).wf(),
        ensures
            final(stats).wf(),
            final(stats)@ == if self.requests == 0 {
                old(stats)@
            } else {
                old(stats)@.with_requests(self.requests, self.bytes_sent, self.bytes_received)
            },
    {
        if self.requests > 0 {
            stats.add_requests(self.requests, self.bytes_sent, self.bytes_received);
        }
    }

    /// Empties the cache.
    pub fn reset(&mut self)
        ensures
            final(self).requests == 0,
            final(self).bytes_sent == 0,
            final(self).bytes_received == 0,
    {
        self.requests = 0;
        self.bytes_sent = 0;
        self.bytes_received = 0;
    }
}

/// The counters of a load test.
#[derive(Debug)]
pub struct Stats {
    /// Connections that were attempted.
    pub total_connections: u64,
    /// Connections that ended in order.
    pub success_connections: u64,
    /// Requests that were answered.
    pub total_requests: u64,
    /// Bytes sent.
    pub total_bytes_sent: u64,
    /// Bytes received.
    pub total_bytes_received: u64,
    /// Latencies in microseconds.
    pub latency_histogram: LatencyHistogram,
    /// Whether the warmup lasts.
    pub is_warmup: bool,
    /// Whether the test is ending.
    pub is_shutting_down: bool,
    /// When the request rate was last read, in milliseconds.
    pub last_print_time: u64,
    /// The number of requests at that time.
    pub last_print_count: u64,
    /// Errors of connections.
    pub connection_errors: u64,
}

/// What the counters say.
#[verifier::ext_equal]
pub struct StatsView {
    pub total_connections: u64,
    pub success_connections: u64,
    pub total_requests: u64,
    pub total_bytes_sent: u64,
    pub total_bytes_received: u64,
    pub latencies: Multiset<u64>,
    pub is_warmup: bool,
    pub is_shutting_down: bool,
    pub last_print_time: u64,
    pub last_print_count: u64,
    pub connection_errors: u64,
}

/// The share of messages whose latency is recorded: every 256th.
pub open spec fn is_sampled(sample_count: usize) -> bool {
    sample_count % 256 == 0
}

impl StatsView {
    /// Counters at the start of a test.
    pub open spec fn fresh(now: u64) -> Self {
        StatsView {
            total_connections: 0,
            success_connections: 0,
            total_requests: 0,
            total_bytes_sent: 0,
            total_bytes_received: 0,
            latencies: Multiset::empty(),
            is_warmup: true,
            is_shutting_down: false,
            last_print_time: now,
            last_print_count: 0,
            connection_errors: 0,
        }
    }

    /// With more requests and bytes.
    pub open spec fn with_requests(self, requests: u64, sent: u64, received: u64) -> Self {
        StatsView {
            total_requests: wrapped_sum(self.total_requests, requests),
            total_bytes_sent: wrapped_sum(self.total_bytes_sent, sent),
            total_bytes_received: wrapped_sum(self.total_bytes_received, received),
            ..self
        }
    }

    /// After a request that was answered; the warmup does not count.
    pub open spec fn after_request(self, sent: usize, received: usize) -> Self {
        if self.is_warmup {
            self
        } else {
            self.with_requests(1, sent as u64, received as u64)
        }
    }

    /// After a latency; the warmup does not count.
    pub open spec fn after_latency(self, latency_us: u64, sample_count: usize) -> Self {
        if is_sampled(sample_count) && !self.is_warmup {
            StatsView { latencies: recorded(self.latencies, latency_us), ..self }
        } else {
            self
        }
    }

    /// The failure to report after a latency, if there is one: the latency was
    /// to be recorded, is out of range, and the test is not ending.
    pub open spec fn latency_failure(self, latency_us: u64, sample_count: usize) -> Option<
        RecordFailure,
    > {
        if is_sampled(sample_count) && !self.is_warmup && latency_us >= LATENCY_LIMIT
            && !self.is_shutting_down {
            Some(RecordFailure::OutOfRange)
        } else {
            None
        }
    }

    /// After an error of a connection.
    pub open spec fn after_error(self) -> Self {
        StatsView { connection_errors: wrapped_sum(self.connection_errors, 1), ..self }
    }

    /// After the attempt to connect.
    pub open spec fn after_attempt(self) -> Self {
        StatsView { total_connections: wrapped_sum(self.total_connections, 1), ..self }
    }

    /// After a connection ended in order.
    pub open spec fn after_success(self) -> Self {
        StatsView { success_connections: wrapped_sum(self.success_connections, 1), ..self }
    }

    /// At the end of the warmup.
    pub open spec fn after_warmup(self, now: u64) -> Self {
        StatsView {
            total_requests: 0,
            total_bytes_sent: 0,
            total_bytes_received: 0,
            latencies: Multiset::empty(),
            last_print_count: 0,
            last_print_time: now,
            is_warmup: false,
            ..self
        }
    }

    /// With the request rate counted from here.
    pub open spec fn rate_from(self, now: u64) -> Self {
        StatsView { last_print_time: now, last_print_count: self.total_requests, ..self }
    }
}

/// Requests over a stretch of time.
#[derive(Clone, Copy, Debug, PartialEq, Eq, Structural)]
pub struct QpsSample {
    /// Requests in the stretch.
    pub requests: u64,
    /// Its length in milliseconds.
    pub elapsed_ms: u64,
}

impl View for Stats {
    type V = StatsView;

    open spec fn view(&self) -> StatsView {
        StatsView {
            total_connections: self.total_connections,
            success_connections: self.success_connections,
            total_requests: self.total_requests,
            total_bytes_sent: self.total_bytes_sent,
            total_bytes_received: self.total_bytes_received,
            latencies: self.latency_histogram@,
            is_warmup: self.is_warmup,
            is_shutting_down: self.is_shutting_down,
            last_print_time: self.last_print_time,
            last_print_count: self.last_print_count,
            connection_errors: self.connection_errors,
        }
    }
}

impl Stats {
    pub open spec fn wf(self) -> bool {
        self.latency_histogram.wf()
    }

    /// Counters at the start of a test; `now` is the wall clock in
    /// milliseconds.
    pub fn new(now: u64) -> (r: Self)
        ensures
            r.wf(),
            r@ == StatsView::fresh(now),
    {
        Stats {
            total_connections: 0,
            success_connections: 0,
            total_requests: 0,
            total_bytes_sent: 0,
            total_bytes_received: 0,
            latency_histogram: LatencyHistogram::new(),
            is_warmup: true,
            is_shutting_down: false,
            last_print_time: now,
            last_print_count: 0,
            connection_errors: 0,
        }
    }

    /// Records the latency of every 256th message outside the warmup. Gives
    /// the failure to report, if there is one.
    pub fn record_latency(&mut self, latency_us: u64, sample_count: usize) -> (r: Option<
        RecordFailure,
    >)
        requires
            old(self).wf(),
        ensures
            final(self).wf(),
            final(self)@ == old(self)@.after_latency(latency_us, sample_count),
            r == old(self)@.latency_failure(latency_us, sample_count),
    {
        assert(sample_count & 0xFF == sample_count % 256) by (bit_vector);
        if (sample_count & 0xFF) == 0 && !self.is_warmup() {
            match self.latency_histogram.record(latency_us) {
                Ok(_) => None,
                Err(failure) => {
                    if self.is_shutting_down() {
                        None
                    } else {
                        Some(failure)
                    }
                },
            }
        } else {
            None
        }
    }

    /// Adds to the counters of requests and bytes.
    fn add_requests(&mut self, requests: u64, sent: u64, received: u64)
        requires
            old(self).wf(),
        ensures
            final(self).wf(),
            final(self)@ == old(self)@.with_requests(requests, sent, received),
    {
        self.total_requests = self.total_requests.wrapping_add(requests);
        self.total_bytes_sent = self.total_bytes_sent.wrapping_add(sent);
        self.total_bytes_received = self.total_bytes_received.wrapping_add(received);
    }

    /// Counts a request that was answered, outside the warmup.
    pub fn record_request(&mut self, bytes_sent: usize, bytes_received: usize)
        requires
            old(self).wf(),
        ensures
            final(self).wf(),
            final(self)@ == old(self)@.after_request(bytes_sent, bytes_received),
    {
        if !self.is_warmup() {
            self.add_requests(1, bytes_sent as u64, bytes_received as u64);
        }
    }

    /// Adds a cache of requests, outside the warmup.
    pub fn record_request_batch(&mut self, cache: &LocalStatsCache)
        requires
            old(self).wf(),
        ensures
            final(self).wf(),
            final(self)@ == if old(self)@.is_warmup || cache.requests == 0 {
                old(self)@
            } else {
                old(self)@.with_requests(cache.requests, cache.bytes_sent, cache.bytes_received)
            },
    {
        if !self.is_warmup() && cache.requests > 0 {
            self.add_requests(cache.requests, cache.bytes_sent, cache.bytes_received);
        }
    }

    /// Counts an error of a connection.
    pub fn record_connection_error(&mut self)
        requires
            old(self).wf(),
        ensures
            final(self).wf(),
            final(self)@ == old(self)@.after_error(),
    {
        self.connection_errors = self.connection_errors.wrapping_add(1);
    }

    /// Counts an attempt to connect.
    pub fn record_connection_attempt(&mut self)
        requires
            old(self).wf(),
        ensures
            final(self).wf(),
            final(self)@ == old(self)@.after_attempt(),
    {
        self.total_connections = self.total_connections.wrapping_add(1);
    }

    /// Counts a connection that ended in order.
    pub fn record_connection_success(&mut self)
        requires
            old(self).wf(),
        ensures
            final(self).wf(),
            final(self)@ == old(self)@.after_success(),
    {
        self.success_connections = self.success_connections.wrapping_add(1);
    }

    /// Ends the warmup: forgets requests, bytes and latencies, and counts from
    /// here.
    pub fn end_warmup(&mut self, now: u64)
        requires
            old(self).wf(),
        ensures
            final(self).wf(),
            final(self)@ == old(self)@.after_warmup(now),
    {
        self.total_requests = 0;
        self.total_bytes_sent = 0;
        self.total_bytes_received = 0;
        self.latency_histogram.reset();
        self.last_print_count = 0;
        self.last_print_time = now;
        self.is_warmup = false;
    }

    pub fn is_warmup(&self) -> (r: bool)
        ensures
            r == self@.is_warmup,
    {
        self.is_warmup
    }

    /// Marks the test as ending.
    pub fn set_shutting_down(&mut self)
        requires
            old(self).wf(),
        ensures
            final(self).wf(),
            final(self)@ == (StatsView { is_shutting_down: true, ..old(self)@ }),
    {
        self.is_shutting_down = true;
    }

    pub fn is_shutting_down(&self) -> (r: bool)
        ensures
            r == self@.is_shutting_down,
    {
        self.is_shutting_down
    }

    /// Counts the request rate from here.
    pub fn restart_rate(&mut self, now: u64)
        requires
            old(self).wf(),
        ensures
            final(self).wf(),
            final(self)@ == old(self)@.rate_from(now),
    {
        self.last_print_time = now;
        self.last_print_count = self.total_requests;
    }

    /// The requests since the rate was last read, over the time since then;
    /// nothing where that time is less than a millisecond.
    pub fn get_qps(&mut self, now: u64) -> (r: Option<QpsSample>)
        requires
            old(self).wf(),
            now >= old(self)@.last_print_time,
            old(self)@.total_requests >= old(self)@.last_print_count,
        ensures
            final(self).wf(),
            final(self)@ == old(self)@.rate_from(now),
            now == old(self)@.last_print_time ==> r is None,
            now > old(self)@.last_print_time ==> r == Some(
                QpsSample {
                    requests: (old(self)@.total_requests - old(self)@.last_print_count) as u64,
                    elapsed_ms: (now - old(self)@.last_print_time) as u64,
                },
            ),
    {
        let elapsed_ms: u64 = now - self.last_print_time;
        let requests: u64 = self.total_requests - self.last_print_count;
        self.restart_rate(now);
        if elapsed_ms < 1 {
            None
        } else {
            Some(QpsSample { requests, elapsed_ms })
        }
    }
}

/// Bytes sent and bytes received of each of several requests, counted one
/// after the other.
pub open spec fn after_requests(stats: StatsView, requests: Seq<(usize, usize)>) -> StatsView
    decreases requests.len(),
{
    if requests.len() == 0 {
        stats
    } else {
        after_requests(stats, requests.drop_last()).after_request(
            requests.last().0,
            requests.last().1,
        )
    }
}

/// All bytes sent.
pub open spec fn total_sent(requests: Seq<(usize, usize)>) -> nat
    decreases requests.len(),
{
    if requests.len() == 0 {
        0
    } else {
        total_sent(requests.drop_last()) + requests.last().0 as nat
    }
}

/// All bytes received.
pub open spec fn total_received(requests: Seq<(usize, usize)>) -> nat
    decreases requests.len(),
{
    if requests.len() == 0 {
        0
    } else {
        total_received(requests.drop_last()) + requests.last().1 as nat
    }
}

/// A counter takes two additions as one.
proof fn lemma_wrapped_sums(a: u64, b: u64, c: u64)
    requires
        b + c <= u64::MAX,
    ensures
        wrapped_sum(wrapped_sum(a, b), c) == wrapped_sum(a, (b + c) as u64),
        wrapped_sum(a, 0) == a,
{
    if a + b + c < 0x1_0000_0000_0000_0000 {
    } else if a + b < 0x1_0000_0000_0000_0000 {
    } else {
        assert(wrapped_sum(a, b) == a + b - 0x1_0000_0000_0000_0000);
    }
}

/// Requests that a cache collected and added in one go count as they would
/// have counted one by one; in the warmup neither counts.
pub proof fn batch_counts_as_single_requests(stats: StatsView, requests: Seq<(usize, usize)>)
    requires
        requests.len() <= u64::MAX,
        total_sent(requests) <= u64::MAX,
        total_received(requests) <= u64::MAX,
    ensures
        after_requests(stats, requests) == if stats.is_warmup || requests.len() == 0 {
            stats
        } else {
            stats.with_requests(
                requests.len() as u64,
                total_sent(requests) as u64,
                total_received(requests) as u64,
            )
        },
    decreases requests.len(),
{
    if requests.len() > 0 {
        let before = requests.drop_last();
        let last = requests.last();
        batch_counts_as_single_requests(stats, before);
        lemma_wrapped_sums(stats.total_requests, before.len() as u64, 1);
        lemma_wrapped_sums(stats.total_bytes_sent, total_sent(before) as u64, last.0 as u64);
        lemma_wrapped_sums(
            stats.total_bytes_received,
            total_received(before) as u64,
            last.1 as u64,
        );
        assert(total_sent(requests) == total_sent(before) + last.0);
        assert(total_received(requests) == total_received(before) + last.1);
        assert(before.len() == 0 ==> total_sent(before) == 0 && total_received(before) == 0);
    }
}

/// The warmup counts no request and no latency.
pub proof fn warmup_counts_nothing(
    stats: StatsView,
    sent: usize,
    received: usize,
    latency_us: u64,
    sample_count: usize,
)
    requires
        stats.is_warmup,
    ensures
        stats.after_request(sent, received) == stats,
        stats.after_latency(latency_us, sample_count) == stats,
        stats.latency_failure(latency_us, sample_count) is None,
{
}

/// What was counted of requests, bytes and latencies before the end of the
/// warmup makes no difference after it.
pub proof fn warmup_end_forgets(a: StatsView, b: StatsView, now: u64)
    requires
        a.total_connections == b.total_connections,
        a.success_connections == b.success_connections,
        a.connection_errors == b.connection_errors,
        a.is_shutting_down == b.is_shutting_down,
    ensures
        a.after_warmup(now) == b.after_warmup(now),
{
}

} // verus!
