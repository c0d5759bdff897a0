//! What each count does to the counters, and what it leaves alone.

use vstd::multiset::Multiset;
use vstd::prelude::*;

use crate::exchange_laws::{
    complaint, counts_one_error, counts_one_request, counts_one_success, goes_up, same_traffic,
    samples_one_in_256,
};
use crate::latency::{
    class_width, greatest, greatest_is_top, highest_equivalent, is_greatest, is_least,
    latency_settings, lowest_equivalent, three_digits_are_kept, with_sample, HIGHEST_LATENCY,
    LATENCY_DIGITS, LATENCY_LIMIT, LOWEST_LATENCY,
};
use crate::stats::{is_sampled, wrapped_sum, Stats, StatsView};
use crate::time::NANOS_PER_SEC;
use crate::worker::{IDLE_NANOS, YIELD_INTERVAL_NANOS};

verus! {

/// A second has a thousand milliseconds, a thousand thousand microseconds and
/// a thousand times as many nanoseconds. A hundred yields are due in a second,
/// and a connection that is only kept open looks up ten times in a second.
pub proof fn seconds_have_their_length()
    ensures
        NANOS_PER_SEC == 1000 * 1000 * 1000,
        YIELD_INTERVAL_NANOS * 100 == NANOS_PER_SEC,
        IDLE_NANOS * 10 == NANOS_PER_SEC,
{
}

/// Latencies are kept from one microsecond to a minute, with three digits. The
/// classes end with the power of two above a minute.
pub proof fn latencies_are_kept_up_to_a_minute()
    ensures
        LOWEST_LATENCY == 1,
        HIGHEST_LATENCY == 60 * 1000 * 1000,
        LATENCY_DIGITS == 3,
        latency_settings() == seq![1u64, 60_000_000u64, 3u64],
        LATENCY_LIMIT == 1024 * 1024 * 64,
        LATENCY_LIMIT / 2 <= HIGHEST_LATENCY < LATENCY_LIMIT,
{
}

/// A class starts where the class before it ends, and is as wide as it has to
/// be for its latencies to be told apart by three digits and no wider than
/// twice that.
pub proof fn classes_have_their_width(value: u64)
    requires
        value < LATENCY_LIMIT,
    ensures
        value < 2048 ==> lowest_equivalent(value) == value && highest_equivalent(value) == value,
        value >= 2048 ==> class_width(value) == 2 * class_width(value / 2),
        lowest_equivalent(value) <= value <= highest_equivalent(value),
        highest_equivalent(value) - lowest_equivalent(value) + 1 == class_width(value),
        value >= 2048 ==> 1024 * class_width(value) <= value < 2048 * class_width(value),
        lowest_equivalent(value) as int % class_width(value) as int == 0,
    decreases value,
{
    three_digits_are_kept(value);
    let width = class_width(value) as int;
    if value >= 2048 {
        classes_have_their_width(value / 2);
        if value / 2 < 2048 {
            assert(class_width(value / 2) == 1);
        }
    }
    let v = value as int;
    vstd::arithmetic::div_mod::lemma_fundamental_div_mod(v, width);
    let q = v / width;
    assert(v - v % width == q * width) by (nonlinear_arith)
        requires
            v == width * q + v % width,
    ;
    vstd::arithmetic::div_mod::lemma_mod_multiples_basic(q, width);
}

/// A latency that is recorded is one more sample of its class, and of no other.
pub proof fn sample_joins_its_class(samples: Multiset<u64>, low: u64, other: u64)
    requires
        samples.count(low) < u64::MAX,
        other != low,
    ensures
        with_sample(samples, low).count(low) == samples.count(low) + 1,
        with_sample(samples, low).count(other) == samples.count(other),
        with_sample(samples, low).len() == samples.len() + 1,
{
}

/// The least latency is one of the samples, and no sample is less.
pub proof fn least_sample_is_a_sample(samples: Multiset<u64>, least: u64, v: u64)
    requires
        is_least(samples, least),
    ensures
        samples.count(v) > 0 ==> least <= v && samples.count(least) > 0,
        samples.len() == 0 ==> least == 0,
{
    if samples.count(v) > 0 {
        assert(samples.contains(v));
        if samples.len() == 0 {
            vstd::multiset::lemma_multiset_empty_len(samples);
        }
    }
}

/// The greatest latency is the largest of the class of a sample, and no sample
/// is more.
pub proof fn greatest_sample_is_of_a_class(samples: Multiset<u64>, top: u64, v: u64)
    requires
        is_greatest(samples, top),
        samples.count(v) > 0,
        samples.len() > 0,
        greatest(samples) < LATENCY_LIMIT,
    ensures
        v <= top,
        exists|low: u64| samples.count(low) > 0 && top == #[trigger] highest_equivalent(low),
{
    greatest_is_top(samples);
    three_digits_are_kept(greatest(samples));
    assert(samples.contains(v));
    assert(samples.contains(greatest(samples)));
}

/// A counter of 64 bits counts up and starts again at zero.
pub proof fn counters_count(a: u64, b: u64)
    ensures
        goes_up(a, b as int, wrapped_sum(a, b)),
        a + b <= u64::MAX ==> wrapped_sum(a, b) == a + b,
        a + b > u64::MAX ==> wrapped_sum(a, b) == a + b - u64::MAX - 1,
{
}

/// Of 256 messages in a row exactly one is sampled, the first of all among
/// them.
pub proof fn one_message_in_256_is_sampled(n: usize, k: int)
    requires
        0 < k < 256,
        n + 256 <= usize::MAX,
        is_sampled(n),
    ensures
        is_sampled(0),
        is_sampled((n + 256) as usize),
        !is_sampled((n + k) as usize),
{
}

/// Each counter is shown as it is.
pub proof fn counters_are_shown_as_they_are(stats: Stats)
    ensures
        stats@.total_connections == stats.total_connections,
        stats@.success_connections == stats.success_connections,
        stats@.total_requests == stats.total_requests,
        stats@.total_bytes_sent == stats.total_bytes_sent,
        stats@.total_bytes_received == stats.total_bytes_received,
        stats@.latencies == stats.latency_histogram@,
        stats@.is_warmup == stats.is_warmup,
        stats@.is_shutting_down == stats.is_shutting_down,
        stats@.last_print_time == stats.last_print_time,
        stats@.last_print_count == stats.last_print_count,
        stats@.connection_errors == stats.connection_errors,
{
}

/// A test starts in its warmup with nothing counted.
pub proof fn test_starts_with_nothing_counted(now: u64)
    ensures
        ({
            let s = StatsView::fresh(now);
            &&& s.total_connections == 0 && s.success_connections == 0 && s.connection_errors == 0
            &&& s.total_requests == 0 && s.total_bytes_sent == 0 && s.total_bytes_received == 0
            &&& s.latencies == Multiset::<u64>::empty()
            &&& s.is_warmup && !s.is_shutting_down
            &&& s.last_print_time == now && s.last_print_count == 0
        }),
{
}

/// An attempt, a success and an error each count up their own counter and
/// nothing else.
pub proof fn each_count_has_its_own_counter(stats: StatsView)
    ensures
        ({
            let t = stats.after_attempt();
            &&& goes_up(stats.total_connections, 1, t.total_connections)
            &&& t == (StatsView { total_connections: t.total_connections, ..stats })
        }),
        counts_one_success(stats, stats.after_success()),
        counts_one_error(stats, stats.after_error()),
{
}

/// A request outside the warmup counts once, with the bytes that were sent as
/// sent and those that were received as received; nothing else changes.
pub proof fn request_counts_its_bytes(stats: StatsView, sent: usize, received: usize)
    requires
        !stats.is_warmup,
    ensures
        ({
            let t = stats.after_request(sent, received);
            &&& counts_one_request(stats, t, sent as int, received as int)
            &&& t == (StatsView {
                total_requests: t.total_requests,
                total_bytes_sent: t.total_bytes_sent,
                total_bytes_received: t.total_bytes_received,
                ..stats
            })
        }),
{
}

/// Requests that are added in one go count as many times, with all their bytes;
/// nothing else changes.
pub proof fn batch_counts_its_bytes(stats: StatsView, requests: u64, sent: u64, received: u64)
    ensures
        ({
            let t = stats.with_requests(requests, sent, received);
            &&& goes_up(stats.total_requests, requests as int, t.total_requests)
            &&& goes_up(stats.total_bytes_sent, sent as int, t.total_bytes_sent)
            &&& goes_up(stats.total_bytes_received, received as int, t.total_bytes_received)
            &&& t == (StatsView {
                total_requests: t.total_requests,
                total_bytes_sent: t.total_bytes_sent,
                total_bytes_received: t.total_bytes_received,
                ..stats
            })
        }),
{
}

/// A latency outside the warmup is sampled for one message in 256, and one that
/// is too long is complained about; nothing else changes.
pub proof fn latency_is_sampled_or_complained_about(
    stats: StatsView,
    latency_us: u64,
    sample_count: usize,
)
    requires
        !stats.is_warmup,
    ensures
        ({
            let t = stats.after_latency(latency_us, sample_count);
            &&& samples_one_in_256(stats, t, sample_count, latency_us as int)
            &&& t == (StatsView { latencies: t.latencies, ..stats })
        }),
        stats.latency_failure(latency_us, sample_count) == complaint(
            stats,
            sample_count,
            latency_us as int,
        ),
{
    assert(class_width(latency_us) == 1 || latency_us >= 2048);
}

/// The end of the warmup leaves no request, no byte and no latency behind, and
/// counts the rate from then on; the connections, their errors and the end of
/// the test are not touched.
pub proof fn warmup_ends_with_nothing_but_connections(stats: StatsView, now: u64)
    ensures
        ({
            let t = stats.after_warmup(now);
            &&& !t.is_warmup
            &&& t.total_requests == 0 && t.total_bytes_sent == 0 && t.total_bytes_received == 0
            &&& t.latencies == Multiset::<u64>::empty()
            &&& t.last_print_time == now && t.last_print_count == 0
            &&& t.total_connections == stats.total_connections
            &&& t.success_connections == stats.success_connections
            &&& t.connection_errors == stats.connection_errors
            &&& t.is_shutting_down == stats.is_shutting_down
        }),
{
}

/// To count the rate from a time on is to keep that time and the number of
/// requests; nothing else changes.
pub proof fn rate_is_counted_from_a_time(stats: StatsView, now: u64)
    ensures
        ({
            let t = stats.rate_from(now);
            &&& t.last_print_time == now
            &&& t.last_print_count == stats.total_requests
            &&& same_traffic(stats, t)
            &&& t.total_connections == stats.total_connections
            &&& t.success_connections == stats.success_connections
            &&& t.connection_errors == stats.connection_errors
            &&& t.is_warmup == stats.is_warmup
            &&& t.is_shutting_down == stats.is_shutting_down
        }),
{
}

} // verus!
