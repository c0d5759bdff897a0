//! The results of a load test and how they are shown.
//!
//! Figures are whole numbers, traffic in hundredths. Where another result is a
//! quotient, the figures say what is to be divided by what; the caller divides
//! and hands the text back.

use vstd::arithmetic::div_mod::lemma_fundamental_div_mod;
use vstd::prelude::*;
use vstd::string::*;

use crate::latency::{
    is_class_top, is_greatest, is_least, latency_settings, mean_figure, percentile_is_in_range,
    percentile_value,
};
use crate::stats::{QpsSample, Stats};
use crate::text::{decimal, hundredths, is_digit, is_plain, is_separator, padded, views};
use crate::text::{decimal_text, hundredths_text, PlainText};
use crate::text::{push_decimal, push_padded, push_padded_text};
use crate::time::Duration;

verus! {

/// A part of a whole.
#[derive(Clone, Copy, Debug, PartialEq, Eq, Structural)]
pub struct Share {
    pub part: u64,
    pub whole: u64,
}

/// A part of a whole, unless the whole is zero.
pub open spec fn share_of(part: u64, whole: u64) -> Option<Share> {
    if whole > 0 {
        Some(Share { part, whole })
    } else {
        None
    }
}

fn share(part: u64, whole: u64) -> (r: Option<Share>)
    ensures
        r == share_of(part, whole),
{
    if whole > 0 {
        Some(Share { part, whole })
    } else {
        None
    }
}

/// Hundredths of a megabit per second, rounded to the nearest, of a number of
/// bytes over a span of nanoseconds; zero where the span has no length.
pub open spec fn traffic_of(bytes: u64, span: nat) -> nat {
    if span == 0 {
        0
    } else {
        (2 * (bytes as nat * 800_000) + span) / (2 * span)
    }
}

fn traffic(bytes: u64, duration: Duration) -> (r: u128)
    ensures
        r == traffic_of(bytes, duration@),
{
    let span: u128 = duration.as_nanos();
    if span == 0 {
        return 0;
    }
    (2 * (bytes as u128 * 800_000) + span) / (2 * span)
}

/// Traffic is a rate: over the span, the megabits per second make up the eight
/// bits of each byte, to half a hundredth of a megabit per second.
pub proof fn traffic_is_megabits_per_second(bytes: u64, span: nat)
    requires
        span > 0,
    ensures
        ({
            let error = traffic_of(bytes, span) * span - bytes * 800_000;
            -span <= 2 * error <= span
        }),
{
    let x = 2 * (bytes as int * 800_000) + span as int;
    let d = 2 * span as int;
    let q = x / d;
    lemma_fundamental_div_mod(x, d);
    assert(x == d * q + x % d && 0 <= x % d < d);
    assert(d * q == 2 * (q * span as int)) by (nonlinear_arith)
        requires
            d == 2 * span as int,
    ;
}

/// The results of a load test.
#[derive(Debug)]
pub struct Figures {
    /// Connections that were attempted.
    pub total_connections: u64,
    /// Requests that were answered.
    pub total_requests: u64,
    /// Bytes sent and received.
    pub total_bytes: u64,
    /// Hundredths of a megabit per second received.
    pub traffic_down: u128,
    /// Hundredths of a megabit per second sent.
    pub traffic_up: u128,
    /// Successes among the connections; none stands for a rate of zero.
    pub success_rate: Option<Share>,
    /// Errors against the requests; none stands for a rate of zero.
    pub error_rate: Option<Share>,
    /// Length of the test.
    pub duration: Duration,
    /// Whether the test had a length to divide by; else rates are zero.
    pub has_length: bool,
    /// Mean latency with one decimal place.
    pub latency_mean: PlainText,
    pub latency_min: u64,
    pub latency_p50: u64,
    pub latency_p90: u64,
    pub latency_p95: u64,
    pub latency_p99: u64,
    pub latency_max: u64,
}

/// The sums that the figures need fit in 64 bits.
pub open spec fn fits(stats: Stats) -> bool {
    &&& stats@.total_bytes_sent + stats@.total_bytes_received <= u64::MAX
    &&& stats@.latencies.len() <= u64::MAX
}

impl Figures {
    /// These are the results that the counters give over a length of time.
    pub open spec fn are_of(self, stats: Stats, duration: Duration) -> bool {
        let s = stats@;
        &&& self.total_connections == s.total_connections
        &&& self.total_requests == s.total_requests
        &&& self.total_bytes == s.total_bytes_sent + s.total_bytes_received
        &&& self.traffic_down == traffic_of(s.total_bytes_received, duration@)
        &&& self.traffic_up == traffic_of(s.total_bytes_sent, duration@)
        &&& self.success_rate == share_of(s.success_connections, s.total_connections)
        &&& self.error_rate == share_of(s.connection_errors, s.total_requests)
        &&& self.duration == duration
        &&& self.has_length == (duration@ > 0)
        &&& self.latency_mean@ == mean_figure(latency_settings(), s.latencies)
        &&& is_least(s.latencies, self.latency_min)
        &&& self.latency_p50 == percentile_value(latency_settings(), s.latencies, 50)
        &&& is_class_top(s.latencies, self.latency_p50)
        &&& self.latency_p90 == percentile_value(latency_settings(), s.latencies, 90)
        &&& is_class_top(s.latencies, self.latency_p90)
        &&& self.latency_p95 == percentile_value(latency_settings(), s.latencies, 95)
        &&& is_class_top(s.latencies, self.latency_p95)
        &&& self.latency_p99 == percentile_value(latency_settings(), s.latencies, 99)
        &&& is_class_top(s.latencies, self.latency_p99)
        &&& is_greatest(s.latencies, self.latency_max)
    }

    /// The results that the counters give over a length of time.
    pub fn new(stats: &Stats, duration: Duration) -> (r: Figures)
        requires
            stats.wf(),
            fits(*stats),
        ensures
            r.are_of(*stats, duration),
    {
        let mean = stats.latency_histogram.mean_text();
        assert(is_plain(mean@)) by {
            assert forall|c: char| is_separator(c) implies !(#[trigger] mean@.contains(c)) by {
                if mean@.contains(c) {
                    let i = choose|i: int| 0 <= i < mean@.len() && mean@[i] == c;
                    assert(is_digit(mean@[i]) || mean@[i] == '.');
                }
            }
        }
        let latency_mean = match PlainText::new(mean) {
            Some(text) => text,
            None => {
                assert(false);
                vstd::pervasive::unreached()
            },
        };
        Figures {
            total_connections: stats.total_connections,
            total_requests: stats.total_requests,
            total_bytes: stats.total_bytes_sent + stats.total_bytes_received,
            traffic_down: traffic(stats.total_bytes_received, duration),
            traffic_up: traffic(stats.total_bytes_sent, duration),
            success_rate: share(stats.success_connections, stats.total_connections),
            error_rate: share(stats.connection_errors, stats.total_requests),
            duration,
            has_length: !duration.is_zero(),
            latency_mean,
            latency_min: stats.latency_histogram.min(),
            latency_p50: stats.latency_histogram.value_at_percentile(50),
            latency_p90: stats.latency_histogram.value_at_percentile(90),
            latency_p95: stats.latency_histogram.value_at_percentile(95),
            latency_p99: stats.latency_histogram.value_at_percentile(99),
            latency_max: stats.latency_histogram.max(),
        }
    }
}

impl Figures {
    /// The results that the counters give over a length of time, where the
    /// sums fit in 64 bits.
    pub fn checked(stats: &Stats, duration: Duration) -> (r: Option<Figures>)
        requires
            stats.wf(),
        ensures
            r.is_some() == (fits(*stats) && stats@.latencies.len() < u64::MAX),
            r matches Some(figures) ==> figures.are_of(*stats, duration),
    {
        let sum_fits = stats.total_bytes_sent.checked_add(stats.total_bytes_received).is_some();
        if sum_fits && stats.latency_histogram.len() < u64::MAX {
            Some(Figures::new(stats, duration))
        } else {
            None
        }
    }
}

/// The percentiles of the results lie between the least and the greatest
/// latency.
pub proof fn percentiles_are_in_range(figures: Figures, stats: Stats, duration: Duration)
    requires
        figures.are_of(stats, duration),
    ensures
        figures.latency_min <= figures.latency_p50 <= figures.latency_max,
        figures.latency_min <= figures.latency_p90 <= figures.latency_max,
        figures.latency_min <= figures.latency_p95 <= figures.latency_max,
        figures.latency_min <= figures.latency_p99 <= figures.latency_max,
{
    let samples = stats@.latencies;
    let least = figures.latency_min;
    let top = figures.latency_max;
    percentile_is_in_range(samples, least, figures.latency_p50, top);
    percentile_is_in_range(samples, least, figures.latency_p90, top);
    percentile_is_in_range(samples, least, figures.latency_p95, top);
    percentile_is_in_range(samples, least, figures.latency_p99, top);
}

/// The texts of those results that are quotients.
#[derive(Debug)]
pub struct RateTexts {
    /// The length of the test in seconds.
    pub duration: PlainText,
    /// Successes in per cent.
    pub success_rate: PlainText,
    /// Errors in per cent.
    pub error_rate: PlainText,
    /// Requests per second.
    pub requests_rate: PlainText,
    /// Megabytes.
    pub throughput: PlainText,
    /// Megabytes per second.
    pub bandwidth: PlainText,
}

/// A label, a text and what stands behind it.
pub open spec fn labelled(label: Seq<char>, text: Seq<char>, unit: Seq<char>) -> Seq<char> {
    label + text + unit
}

fn label_line(label: &str, text: &str, unit: &str) -> (r: String)
    ensures
        r@ == labelled(label@, text@, unit@),
{
    let mut line = label.to_owned();
    line.append(text);
    line.append(unit);
    line
}

/// Two latencies in a line.
pub open spec fn latency_pair(
    first: Seq<char>,
    a: Seq<char>,
    second: Seq<char>,
    b: Seq<char>,
) -> Seq<char> {
    first + padded(a, 8, ' ') + second + padded(b, 8, ' ')
}

fn pair_line(first: &str, a: u64, second: &str, b: u64) -> (r: String)
    ensures
        r@ == latency_pair(first@, decimal(a as nat), second@, decimal(b as nat)),
{
    let mut line = first.to_owned();
    push_padded(&mut line, a, 8, ' ');
    line.append(second);
    push_padded(&mut line, b, 8, ' ');
    line
}

/// The lines of the final results.
pub open spec fn final_lines(figures: Figures, texts: RateTexts) -> Seq<Seq<char>> {
    seq![
        "\n=== Final Results ==="@,
        labelled("Duration:          "@, texts.duration@, "s"@),
        labelled("Total Connections: "@, decimal(figures.total_connections as nat), ""@),
        labelled("Success Rate:      "@, texts.success_rate@, "%"@),
        labelled("Total Requests:    "@, decimal(figures.total_requests as nat), ""@),
        labelled("Error Rate:        "@, texts.error_rate@, "%"@),
        labelled("Requests Rate:     "@, texts.requests_rate@, " req/s"@),
        labelled("Throughput:        "@, texts.throughput@, " MB"@),
        labelled("Bandwidth:         "@, texts.bandwidth@, " MB/s"@),
        "Traffic:           "@ + hundredths(figures.traffic_down as nat) + "\u{2193}, "@
            + hundredths(figures.traffic_up as nat) + "\u{2191} Mbps"@,
        "Latency Distribution (us):"@,
        latency_pair(
            "  Avg: "@,
            figures.latency_mean@,
            "  Min: "@,
            decimal(figures.latency_min as nat),
        ),
        latency_pair(
            "  P50: "@,
            decimal(figures.latency_p50 as nat),
            "  P90: "@,
            decimal(figures.latency_p90 as nat),
        ),
        latency_pair(
            "  P95: "@,
            decimal(figures.latency_p95 as nat),
            "  P99: "@,
            decimal(figures.latency_p99 as nat),
        ),
        "  Max: "@ + padded(decimal(figures.latency_max as nat), 8, ' '),
    ]
}

impl Stats {
    /// The lines of the final results; none where no output is wanted.
    pub fn print_final_stats(figures: &Figures, texts: &RateTexts, show_output: bool) -> (r: Vec<
        String,
    >)
        ensures
            views(r@) == if show_output {
                final_lines(*figures, *texts)
            } else {
                seq![]
            },
    {
        let mut lines: Vec<String> = Vec::new();
        if !show_output {
            assert(views(lines@) =~= seq![]);
            return lines;
        }
        let connections = decimal_text(figures.total_connections);
        let requests = decimal_text(figures.total_requests);
        let mut traffic = "Traffic:           ".to_owned();
        traffic.append(hundredths_text(figures.traffic_down).as_str());
        traffic.append("\u{2193}, ");
        traffic.append(hundredths_text(figures.traffic_up).as_str());
        traffic.append("\u{2191} Mbps");
        let mut mean = "  Avg: ".to_owned();
        push_padded_text(&mut mean, figures.latency_mean.as_str(), 8, ' ');
        mean.append("  Min: ");
        push_padded(&mut mean, figures.latency_min, 8, ' ');
        let mut max = "  Max: ".to_owned();
        push_padded(&mut max, figures.latency_max, 8, ' ');
        lines.push("\n=== Final Results ===".to_owned());
        lines.push(label_line("Duration:          ", texts.duration.as_str(), "s"));
        lines.push(label_line("Total Connections: ", connections.as_str(), ""));
        lines.push(label_line("Success Rate:      ", texts.success_rate.as_str(), "%"));
        lines.push(label_line("Total Requests:    ", requests.as_str(), ""));
        lines.push(label_line("Error Rate:        ", texts.error_rate.as_str(), "%"));
        lines.push(label_line("Requests Rate:     ", texts.requests_rate.as_str(), " req/s"));
        lines.push(label_line("Throughput:        ", texts.throughput.as_str(), " MB"));
        lines.push(label_line("Bandwidth:         ", texts.bandwidth.as_str(), " MB/s"));
        lines.push(traffic);
        lines.push("Latency Distribution (us):".to_owned());
        lines.push(mean);
        lines.push(pair_line("  P50: ", figures.latency_p50, "  P90: ", figures.latency_p90));
        lines.push(pair_line("  P95: ", figures.latency_p95, "  P99: ", figures.latency_p99));
        lines.push(max);
        assert(views(lines@) =~= final_lines(*figures, *texts));
        lines
    }
}

/// The state of a running test.
#[derive(Clone, Copy, Debug, PartialEq, Eq, Structural)]
pub struct LiveFigures {
    /// The requests since the last reading; none stands for a rate of zero.
    pub rate: Option<QpsSample>,
    /// Requests that were answered.
    pub requests: u64,
    pub p50: u64,
    pub p95: u64,
    pub p99: u64,
}

/// The line that shows the state of a running test; `qps` is the text of the
/// request rate.
pub open spec fn live_words(figures: LiveFigures, qps: Seq<char>) -> Seq<char> {
    "[Live] QPS: "@ + qps + " | Req: "@ + decimal(figures.requests as nat)
        + " | Latency(us): P50="@ + decimal(figures.p50 as nat) + " P95="@ + decimal(
        figures.p95 as nat,
    ) + " P99="@ + decimal(figures.p99 as nat)
}

/// The line that shows the state of a running test.
pub fn live_line(figures: &LiveFigures, qps: &str) -> (r: String)
    ensures
        r@ == live_words(*figures, qps@),
{
    let mut line = "[Live] QPS: ".to_owned();
    line.append(qps);
    line.append(" | Req: ");
    push_decimal(&mut line, figures.requests);
    line.append(" | Latency(us): P50=");
    push_decimal(&mut line, figures.p50);
    line.append(" P95=");
    push_decimal(&mut line, figures.p95);
    line.append(" P99=");
    push_decimal(&mut line, figures.p99);
    line
}

} // verus!
