//! What the lines and notices say: behind each label stands the figure of that
//! name.

use vstd::prelude::*;
use vstd::string::*;

use crate::error::{error_words, ErrorKind};
use crate::latency::{is_class_top, mean_figure, percentile_value};
use crate::notice::{notice_words, starts_with, url_of};
use crate::report::{
    final_lines, fits, live_words, share_of, traffic_is_megabits_per_second, Figures, LiveFigures,
    RateTexts, Share,
};
use crate::runner::{run_notice_words, RunNotice};
use crate::stats::Stats;
use crate::text::{decimal, decimal_is_digits, digits_value, hundredths, is_digit, padded};
use crate::text_laws::padding_comes_first;
use crate::time::Duration;
use crate::worker::{Notice, Transport};

verus! {

/// Digits, one or more, that stand for a number.
pub open spec fn is_number(s: Seq<char>, n: nat) -> bool {
    &&& s.len() > 0
    &&& forall|i: int| 0 <= i < s.len() ==> is_digit(#[trigger] s[i])
    &&& digits_value(s) == n
}

/// From `p` on, a line holds a label, then spaces up to `q`, and then the
/// digits of a number up to `e` and no further.
pub open spec fn stands_at(
    line: Seq<char>,
    label: Seq<char>,
    n: nat,
    p: int,
    q: int,
    e: int,
) -> bool {
    &&& 0 <= p
    &&& p + label.len() <= q < e <= line.len()
    &&& line.subrange(p, p + label.len()) == label
    &&& forall|i: int| p + label.len() <= i < q ==> #[trigger] line[i] == ' '
    &&& is_number(line.subrange(q, e), n)
    &&& e < line.len() ==> !is_digit(line[e])
}

/// The number behind a label in a line reads as `n`.
pub open spec fn reads_behind(line: Seq<char>, label: Seq<char>, n: nat) -> bool {
    exists|p: int, q: int, e: int| #[trigger] stands_at(line, label, n, p, q, e)
}

proof fn lemma_reads_behind(
    line: Seq<char>,
    before: Seq<char>,
    label: Seq<char>,
    n: nat,
    width: nat,
    after: Seq<char>,
)
    requires
        line == before + label + padded(decimal(n), width, ' ') + after,
        after.len() > 0 ==> !is_digit(after[0]),
    ensures
        reads_behind(line, label, n),
{
    let digits = decimal(n);
    let field = padded(digits, width, ' ');
    decimal_is_digits(n);
    padding_comes_first(digits, width, ' ');
    let p = before.len() as int;
    let start = p + label.len();
    let q = start + field.len() - digits.len();
    let e = start + field.len();
    assert(line.subrange(p, start) =~= label);
    assert(field.skip(field.len() - digits.len()) == digits);
    assert(line.subrange(q, e) =~= field.skip(field.len() - digits.len()));
    assert forall|i: int| start <= i < q implies #[trigger] line[i] == ' ' by {
        assert(line[i] == field[i - start]);
    }
    if e < line.len() {
        assert(line[e] == after[0]);
    }
    assert(stands_at(line, label, n, p, q, e));
}

/// The line with a pair of latencies shows each behind its own label.
proof fn lemma_pair(
    line: Seq<char>,
    first: Seq<char>,
    a: nat,
    second: Seq<char>,
    b: nat,
)
    requires
        line == (seq![' ', ' '] + first) + padded(decimal(a), 8, ' ') + (seq![' ', ' '] + second)
            + padded(decimal(b), 8, ' '),
    ensures
        reads_behind(line, first, a),
        reads_behind(line, second, b),
{
    let gap = seq![' ', ' '];
    let x = padded(decimal(a), 8, ' ');
    let y = padded(decimal(b), 8, ' ');
    let none: Seq<char> = seq![];
    let behind = gap + second + y;
    assert(line =~= gap + first + x + behind);
    assert(behind[0] == ' ');
    lemma_reads_behind(line, gap, first, a, 8, behind);
    assert(line =~= (gap + first + x + gap) + second + y + none);
    lemma_reads_behind(line, gap + first + x + gap, second, b, 8, none);
}

/// In the lines of the final results the number behind each label reads back as
/// the figure of that name.
pub proof fn final_numbers_read_back(figures: Figures, texts: RateTexts)
    ensures
        ({
            let lines = final_lines(figures, texts);
            &&& lines.len() == 15
            &&& reads_behind(lines[2], "Total Connections: "@, figures.total_connections as nat)
            &&& reads_behind(lines[4], "Total Requests:    "@, figures.total_requests as nat)
            &&& reads_behind(lines[11], "Min: "@, figures.latency_min as nat)
            &&& reads_behind(lines[12], "P50: "@, figures.latency_p50 as nat)
            &&& reads_behind(lines[12], "P90: "@, figures.latency_p90 as nat)
            &&& reads_behind(lines[13], "P95: "@, figures.latency_p95 as nat)
            &&& reads_behind(lines[13], "P99: "@, figures.latency_p99 as nat)
            &&& reads_behind(lines[14], "Max: "@, figures.latency_max as nat)
        }),
{
    let lines = final_lines(figures, texts);
    let none: Seq<char> = seq![];
    let gap = seq![' ', ' '];
    reveal_strlit("");
    reveal_strlit("Min: ");
    reveal_strlit("  Min: ");
    reveal_strlit("P50: ");
    reveal_strlit("  P50: ");
    reveal_strlit("P90: ");
    reveal_strlit("  P90: ");
    reveal_strlit("P95: ");
    reveal_strlit("  P95: ");
    reveal_strlit("P99: ");
    reveal_strlit("  P99: ");
    reveal_strlit("Max: ");
    reveal_strlit("  Max: ");
    assert("  Min: "@ =~= gap + "Min: "@);
    assert("  P50: "@ =~= gap + "P50: "@);
    assert("  P90: "@ =~= gap + "P90: "@);
    assert("  P95: "@ =~= gap + "P95: "@);
    assert("  P99: "@ =~= gap + "P99: "@);
    assert("  Max: "@ =~= gap + "Max: "@);
    lemma_whole(lines[2], "Total Connections: "@, figures.total_connections as nat);
    lemma_whole(lines[4], "Total Requests:    "@, figures.total_requests as nat);
    let mean = "  Avg: "@ + padded(figures.latency_mean@, 8, ' ') + gap;
    let min = padded(decimal(figures.latency_min as nat), 8, ' ');
    assert(lines[11] =~= mean + "Min: "@ + min + none);
    lemma_reads_behind(lines[11], mean, "Min: "@, figures.latency_min as nat, 8, none);
    lemma_pair(
        lines[12],
        "P50: "@,
        figures.latency_p50 as nat,
        "P90: "@,
        figures.latency_p90 as nat,
    );
    lemma_pair(
        lines[13],
        "P95: "@,
        figures.latency_p95 as nat,
        "P99: "@,
        figures.latency_p99 as nat,
    );
    let max = padded(decimal(figures.latency_max as nat), 8, ' ');
    assert(lines[14] =~= gap + "Max: "@ + max + none);
    lemma_reads_behind(lines[14], gap, "Max: "@, figures.latency_max as nat, 8, none);
}

proof fn lemma_whole(line: Seq<char>, label: Seq<char>, n: nat)
    requires
        line == label + decimal(n) + ""@,
    ensures
        reads_behind(line, label, n),
{
    let none: Seq<char> = seq![];
    reveal_strlit("");
    assert(line =~= none + label + padded(decimal(n), 0, ' ') + none);
    lemma_reads_behind(line, none, label, n, 0, none);
}

/// In the lines of the final results each text stands between the label of its
/// name and its unit. Traffic is shown down and then up, and the mean takes up
/// eight places.
pub proof fn final_texts_stand_behind_their_labels(figures: Figures, texts: RateTexts)
    ensures
        ({
            let lines = final_lines(figures, texts);
            &&& lines[0] == "\n=== Final Results ==="@
            &&& lines[1] == "Duration:          "@ + texts.duration@ + "s"@
            &&& lines[3] == "Success Rate:      "@ + texts.success_rate@ + "%"@
            &&& lines[5] == "Error Rate:        "@ + texts.error_rate@ + "%"@
            &&& lines[6] == "Requests Rate:     "@ + texts.requests_rate@ + " req/s"@
            &&& lines[7] == "Throughput:        "@ + texts.throughput@ + " MB"@
            &&& lines[8] == "Bandwidth:         "@ + texts.bandwidth@ + " MB/s"@
            &&& lines[9] == "Traffic:           "@ + hundredths(figures.traffic_down as nat)
                + "\u{2193}, "@ + hundredths(figures.traffic_up as nat) + "\u{2191} Mbps"@
            &&& lines[10] == "Latency Distribution (us):"@
            &&& starts_with(lines[11], "  Avg: "@ + padded(figures.latency_mean@, 8, ' '))
        }),
{
    let lines = final_lines(figures, texts);
    let mean = "  Avg: "@ + padded(figures.latency_mean@, 8, ' ');
    assert(lines[11].take(mean.len() as int) =~= mean);
}

/// The line of a running test shows the rate as it was written, and behind each
/// other label the figure of that name.
pub proof fn live_numbers_read_back(figures: LiveFigures, qps: Seq<char>)
    ensures
        ({
            let line = live_words(figures, qps);
            &&& starts_with(line, "[Live] QPS: "@ + qps + " | Req: "@)
            &&& reads_behind(line, " | Req: "@, figures.requests as nat)
            &&& reads_behind(line, " | Latency(us): P50="@, figures.p50 as nat)
            &&& reads_behind(line, " P95="@, figures.p95 as nat)
            &&& reads_behind(line, " P99="@, figures.p99 as nat)
        }),
{
    let line = live_words(figures, qps);
    let none: Seq<char> = seq![];
    let head = "[Live] QPS: "@ + qps;
    let req = padded(decimal(figures.requests as nat), 0, ' ');
    let p50 = padded(decimal(figures.p50 as nat), 0, ' ');
    let p95 = padded(decimal(figures.p95 as nat), 0, ' ');
    let p99 = padded(decimal(figures.p99 as nat), 0, ' ');
    reveal_strlit(" | Latency(us): P50=");
    reveal_strlit(" P95=");
    reveal_strlit(" P99=");
    let a = head + " | Req: "@ + req;
    let b = a + " | Latency(us): P50="@ + p50;
    let c = b + " P95="@ + p95;
    let d = " P99="@ + p99;
    let e = " P95="@ + p95 + d;
    let f = " | Latency(us): P50="@ + p50 + e;
    assert(line.take((head + " | Req: "@).len() as int) =~= head + " | Req: "@);
    assert(line =~= a + f);
    assert(f[0] == ' ' && e[0] == ' ' && d[0] == ' ');
    lemma_reads_behind(line, head, " | Req: "@, figures.requests as nat, 0, f);
    assert(line =~= b + e);
    lemma_reads_behind(line, a, " | Latency(us): P50="@, figures.p50 as nat, 0, e);
    assert(line =~= c + d);
    lemma_reads_behind(line, b, " P95="@, figures.p95 as nat, 0, d);
    assert(line =~= c + " P99="@ + p99 + none);
    lemma_reads_behind(line, c, " P99="@, figures.p99 as nat, 0, none);
}

/// The results are those of the counters: each count is the counter of its
/// name, the bytes are those sent and received together, traffic is received
/// down and sent up, rates are successes among connections and errors among
/// requests, and each percentile is the one of its name.
pub proof fn figures_are_those_of_the_counters(
    figures: Figures,
    stats: Stats,
    duration: Duration,
)
    requires
        figures.are_of(stats, duration),
    ensures
        figures.total_connections == stats.total_connections,
        figures.total_requests == stats.total_requests,
        figures.total_bytes == stats.total_bytes_sent + stats.total_bytes_received,
        figures.duration == duration,
        figures.has_length <==> duration@ > 0,
        stats.total_connections == 0 ==> figures.success_rate is None,
        stats.total_connections > 0 ==> figures.success_rate == Some(
            Share { part: stats.success_connections, whole: stats.total_connections },
        ),
        stats.total_requests == 0 ==> figures.error_rate is None,
        stats.total_requests > 0 ==> figures.error_rate == Some(
            Share { part: stats.connection_errors, whole: stats.total_requests },
        ),
        duration@ == 0 ==> figures.traffic_down == 0 && figures.traffic_up == 0,
        duration@ > 0 ==> ({
            let span = duration@ as int;
            let down = figures.traffic_down * span - stats.total_bytes_received * 8 * 100_000;
            let up = figures.traffic_up * span - stats.total_bytes_sent * 8 * 100_000;
            -span <= 2 * down <= span && -span <= 2 * up <= span
        }),
        ({
            let settings = seq![1u64, 60_000_000u64, 3u64];
            let samples = stats.latency_histogram@;
            &&& figures.latency_p50 == percentile_value(settings, samples, 50)
            &&& figures.latency_p90 == percentile_value(settings, samples, 90)
            &&& figures.latency_p95 == percentile_value(settings, samples, 95)
            &&& figures.latency_p99 == percentile_value(settings, samples, 99)
            &&& figures.latency_mean@ == mean_figure(settings, samples)
            &&& is_class_top(samples, figures.latency_p50)
            &&& is_class_top(samples, figures.latency_p90)
            &&& is_class_top(samples, figures.latency_p95)
            &&& is_class_top(samples, figures.latency_p99)
            &&& samples.len() == 0 ==> figures.latency_min == 0 && figures.latency_max == 0
            &&& samples.len() > 0 ==> samples.contains(figures.latency_min)
        }),
{
    assert(crate::latency::latency_settings() =~= seq![1u64, 60_000_000u64, 3u64]);
    if duration@ > 0 {
        traffic_is_megabits_per_second(stats.total_bytes_received, duration@);
        traffic_is_megabits_per_second(stats.total_bytes_sent, duration@);
    }
}

/// A share is the part and the whole as they are; of nothing there is none.
pub proof fn share_is_of_something(part: u64, whole: u64)
    ensures
        share_of(part, whole) is Some <==> whole > 0,
        share_of(part, whole) matches Some(share) ==> share.part == part && share.whole == whole,
{
}

/// A notice says what went wrong, of a WebSocket in its own words, and ends
/// with what went wrong behind it, where there is something; that a connection
/// failed or timed out is said with its target.
pub proof fn notices_say_what_went_wrong(target: Seq<char>, detail: Seq<char>)
    ensures
        notice_words(Transport::Tcp, Notice::ConnectFailed, target, detail)
            == "Failed to connect to "@ + target + ": "@ + detail,
        notice_words(Transport::WebSocket, Notice::ConnectFailed, target, detail)
            == "Failed to connect to WebSocket "@ + target + ": "@ + detail,
        notice_words(Transport::Tcp, Notice::ConnectTimedOut, target, detail)
            == "Connection timeout to "@ + target,
        notice_words(Transport::WebSocket, Notice::ConnectTimedOut, target, detail)
            == "WebSocket connection timeout to "@ + target,
        notice_words(Transport::Tcp, Notice::FirstSendFailed, target, detail)
            == "Failed to send first message: "@ + detail,
        notice_words(Transport::WebSocket, Notice::FirstSendFailed, target, detail)
            == "Failed to send first WebSocket message: "@ + detail,
        notice_words(Transport::Tcp, Notice::SendFailed, target, detail) == "Write error: "@
            + detail,
        notice_words(Transport::WebSocket, Notice::SendFailed, target, detail)
            == "WebSocket send error: "@ + detail,
        notice_words(Transport::Tcp, Notice::ReceiveFailed, target, detail) == "Read error: "@
            + detail,
        notice_words(Transport::WebSocket, Notice::ReceiveFailed, target, detail)
            == "WebSocket receive error: "@ + detail,
        forall|transport: Transport|
            #![trigger notice_words(transport, Notice::FirstWritePartial, target, detail)]
            notice_words(transport, Notice::FirstWritePartial, target, detail)
                == "Partial write of first message"@,
        forall|transport: Transport|
            #![trigger notice_words(transport, Notice::WritePartial, target, detail)]
            notice_words(transport, Notice::WritePartial, target, detail) == "Partial write"@,
        forall|transport: Transport|
            #![trigger notice_words(transport, Notice::FirstReceiveFailed, target, detail)]
            notice_words(transport, Notice::FirstReceiveFailed, target, detail)
                == "Failed to read first message response: "@ + detail,
        forall|transport: Transport|
            #![trigger notice_words(transport, Notice::FirstUnexpected, target, detail)]
            notice_words(transport, Notice::FirstUnexpected, target, detail)
                == "Unexpected response to first message"@,
{
}

/// What is told of the course of a test names its stage and the length of it in
/// seconds, or the task that failed and why.
pub proof fn course_is_told_in_words(secs: u64, detail: Seq<char>)
    ensures
        run_notice_words(RunNotice::WarmupStarts(secs), detail) == "Warming up for "@ + decimal(
            secs as nat,
        ) + " seconds..."@,
        run_notice_words(RunNotice::TestStarts(secs), detail)
            == "Warmup completed. Starting benchmark for "@ + decimal(secs as nat)
            + " seconds..."@,
        run_notice_words(RunNotice::TaskFailed, detail) == "Task error: "@ + detail,
        run_notice_words(RunNotice::TaskLost, detail) == "Task join error: "@ + detail,
{
}

/// An error is shown with its kind before its own words.
pub proof fn errors_name_their_kind(detail: Seq<char>)
    ensures
        error_words(ErrorKind::Io, detail) == "IO error: "@ + detail,
        error_words(ErrorKind::Network, detail) == "Network connection error: "@ + detail,
        error_words(ErrorKind::WebSocket, detail) == "WebSocket error: "@ + detail,
        error_words(ErrorKind::Config, detail) == "Configuration error: "@ + detail,
        error_words(ErrorKind::Stats, detail) == "Statistics recording error: "@ + detail,
        error_words(ErrorKind::Task, detail) == "Task execution error: "@ + detail,
        error_words(ErrorKind::Timeout, detail) == "Timeout error: "@ + detail,
        error_words(ErrorKind::Parse, detail) == "Parse error: "@ + detail,
{
}

/// A target that names the protocol of a WebSocket, plain or secured, is an
/// address as it stands; any other target gets the plain one in front.
pub proof fn address_names_its_protocol(host: Seq<char>, target: Seq<char>)
    ensures
        url_of(seq!['w', 's', ':', '/', '/'] + host) == seq!['w', 's', ':', '/', '/'] + host,
        url_of(seq!['w', 's', 's', ':', '/', '/'] + host) == seq!['w', 's', 's', ':', '/', '/']
            + host,
        url_of(target) == target || url_of(target) == seq!['w', 's', ':', '/', '/'] + target,
        target.len() < 5 || target.take(5) != seq!['w', 's', ':', '/', '/'] && (target.len() < 6
            || target.take(6) != seq!['w', 's', 's', ':', '/', '/']) ==> url_of(target)
            == seq!['w', 's', ':', '/', '/'] + target,
{
    reveal_strlit("ws://");
    reveal_strlit("wss://");
    let ws = seq!['w', 's', ':', '/', '/'];
    let wss = seq!['w', 's', 's', ':', '/', '/'];
    assert("ws://"@ =~= ws);
    assert("wss://"@ =~= wss);
    assert((ws + host).take(5) =~= ws);
    assert((wss + host).take(6) =~= wss);
}

/// There are results where the bytes sent and received together, and the number
/// of latencies, are numbers of 64 bits.
pub proof fn results_need_sums_that_fit(stats: Stats)
    ensures
        fits(stats) <==> stats.total_bytes_sent + stats.total_bytes_received
            < 0x1_0000_0000_0000_0000 && stats.latency_histogram@.len() < 0x1_0000_0000_0000_0000,
{
}

} // verus!
