//! What an exported row says: in each column stands the value of that name.

use vstd::prelude::*;
use vstd::string::*;

use crate::command::Config;
use crate::csv_export::{
    days_before_month, days_before_year, days_in_month, days_in_year, has_header, header_cells,
    header_is_a_line, header_splits_into_columns, header_words, is_date_time, leap, new_file,
    row_cells, seconds_of, timestamp_words, DateTime, ExistingFile, SecondsTexts,
};
use crate::output_laws::is_number;
use crate::report::{Figures, RateTexts};
use crate::text::{
    decimal, decimal_is_digits, digits_value, hundredths, is_digit, padded, trimmed,
};
use crate::text_laws::{
    is_blank, padding_comes_first, trimming_cuts_white_space, trimming_forgets_white_space,
};

verus! {

/// The columns of the settings of a test hold those settings.
pub proof fn settings_stand_in_their_columns(
    config: Config,
    figures: Figures,
    rates: RateTexts,
    seconds: SecondsTexts,
    target: Seq<char>,
    workers: usize,
    taken_at: DateTime,
)
    ensures
        ({
            let names = header_cells();
            let cells = row_cells(config, figures, rates, seconds, target, workers, taken_at);
            &&& names.len() == 30 && cells.len() == 30
            &&& names[0] == "timestamp"@ && cells[0] == timestamp_words(taken_at)
            &&& names[1] == "target"@ && cells[1] == target
            &&& names[2] == "connections"@ && is_number(cells[2], config.connections as nat)
            &&& names[3] == "connect_rate"@ && is_number(cells[3], config.connect_rate as nat)
            &&& names[4] == "connect_timeout_s"@ && cells[4] == seconds.connect_timeout@
            &&& names[5] == "channel_lifetime_s"@
            &&& config.channel_lifetime is Some ==> cells[5] == seconds.channel_lifetime@
            &&& config.channel_lifetime is None ==> cells[5] == seq!['-', '1']
            &&& names[6] == "duration_s"@ && cells[6] == seconds.duration@
            &&& names[7] == "warmup_s"@ && cells[7] == seconds.warmup@
            &&& names[8] == "workers"@ && is_number(cells[8], workers as nat)
            &&& names[9] == "nagle"@ && (cells[9] == "true"@ <==> config.nagle)
            &&& names[10] == "pipeline"@ && (cells[10] == "true"@ <==> config.pipeline)
            &&& names[11] == "websocket"@ && (cells[11] == "true"@ <==> config.use_websocket)
            &&& names[12] == "message_size"@ && is_number(cells[12], config.message_size as nat)
            &&& names[13] == "message_rate"@
            &&& config.message_rate matches Some(rate) ==> is_number(cells[13], rate as nat)
            &&& config.message_rate is None ==> cells[13] == seq!['-', '1']
        }),
{
    decimal_is_digits(config.connections as nat);
    decimal_is_digits(config.connect_rate as nat);
    decimal_is_digits(workers as nat);
    decimal_is_digits(config.message_size as nat);
    if let Some(rate) = config.message_rate {
        decimal_is_digits(rate as nat);
    }
    reveal_strlit("-1");
    reveal_strlit("true");
    reveal_strlit("false");
    assert("-1"@ =~= seq!['-', '1']);
    assert("true"@ != "false"@) by {
        assert("true"@.len() == 4 && "false"@.len() == 5);
    }
}

/// The columns of the results of a test hold those results.
pub proof fn results_stand_in_their_columns(
    config: Config,
    figures: Figures,
    rates: RateTexts,
    seconds: SecondsTexts,
    target: Seq<char>,
    workers: usize,
    taken_at: DateTime,
)
    ensures
        ({
            let names = header_cells();
            let cells = row_cells(config, figures, rates, seconds, target, workers, taken_at);
            &&& names[14] == "total_connections"@ && is_number(
                cells[14],
                figures.total_connections as nat,
            )
            &&& names[15] == "success_rate_pct"@ && cells[15] == rates.success_rate@
            &&& names[16] == "total_requests"@ && is_number(
                cells[16],
                figures.total_requests as nat,
            )
            &&& names[17] == "error_rate_pct"@ && cells[17] == rates.error_rate@
            &&& names[18] == "requests_per_sec"@ && cells[18] == rates.requests_rate@
            &&& names[19] == "throughput_mb"@ && cells[19] == rates.throughput@
            &&& names[20] == "bandwidth_mb_s"@ && cells[20] == rates.bandwidth@
            &&& names[21] == "traffic_down_mbps"@ && cells[21] == hundredths(
                figures.traffic_down as nat,
            )
            &&& names[22] == "traffic_up_mbps"@ && cells[22] == hundredths(
                figures.traffic_up as nat,
            )
            &&& names[23] == "latency_avg_us"@ && cells[23] == figures.latency_mean@
            &&& names[24] == "latency_min_us"@ && is_number(cells[24], figures.latency_min as nat)
            &&& names[25] == "latency_p50_us"@ && is_number(cells[25], figures.latency_p50 as nat)
            &&& names[26] == "latency_p90_us"@ && is_number(cells[26], figures.latency_p90 as nat)
            &&& names[27] == "latency_p95_us"@ && is_number(cells[27], figures.latency_p95 as nat)
            &&& names[28] == "latency_p99_us"@ && is_number(cells[28], figures.latency_p99 as nat)
            &&& names[29] == "latency_max_us"@ && is_number(cells[29], figures.latency_max as nat)
        }),
{
    decimal_is_digits(figures.total_connections as nat);
    decimal_is_digits(figures.total_requests as nat);
    decimal_is_digits(figures.latency_min as nat);
    decimal_is_digits(figures.latency_p50 as nat);
    decimal_is_digits(figures.latency_p90 as nat);
    decimal_is_digits(figures.latency_p95 as nat);
    decimal_is_digits(figures.latency_p99 as nat);
    decimal_is_digits(figures.latency_max as nat);
}

/// Two digits with a zero in front where one would do.
proof fn lemma_two_digits(n: nat)
    requires
        n < 100,
    ensures
        padded(decimal(n), 2, '0').len() == 2,
        is_number(padded(decimal(n), 2, '0'), n),
{
    let d = decimal(n);
    decimal_is_digits(n);
    padding_comes_first(d, 2, '0');
    reveal_with_fuel(decimal, 3);
    let p = padded(d, 2, '0');
    if d.len() == 1 {
        reveal_with_fuel(digits_value, 3);
        assert(p.skip(1) == d);
        assert(p[1] == p.skip(1)[0]);
        assert(is_digit(d[0]));
        assert(p.drop_last() =~= seq!['0']);
        assert(seq!['0'].drop_last() =~= seq![]);
        assert(d.drop_last() =~= seq![]);
        assert(p.last() == d.last());
    } else {
        assert(p == d);
    }
}

/// A number with zeros in front is the same number.
proof fn lemma_padded_number(n: nat, width: nat)
    ensures
        is_number(padded(decimal(n), width, '0'), n),
{
    let d = decimal(n);
    decimal_is_digits(n);
    let p = padded(d, width, '0');
    padding_comes_first(d, width, '0');
    let gap = p.len() - d.len();
    assert(p =~= crate::text::repeated('0', gap as nat) + d);
    crate::text_laws::zeros_in_front_count_nothing(gap as nat, d);
    assert forall|i: int| 0 <= i < p.len() implies is_digit(#[trigger] p[i]) by {
        if i >= gap {
            assert(p[i] == p.skip(gap)[i - gap]);
            assert(is_digit(d[i - gap]));
        }
    }
}

/// A timestamp reads back: the year in four digits or more, a hyphen, the month
/// and the day in two digits each with a hyphen between, a `T`, the hour, the
/// minute and the second in two digits each with colons between, and a `Z`.
pub proof fn timestamp_reads_back(t: DateTime)
    requires
        is_date_time(t),
    ensures
        ({
            let s = timestamp_words(t);
            let y = s.len() - 16;
            &&& y >= 4
            &&& y > 4 ==> t.0 >= 10_000
            &&& is_number(s.take(y), t.0 as nat)
            &&& s[y] == '-' && is_number(s.subrange(y + 1, y + 3), t.1 as nat)
            &&& s[y + 3] == '-' && is_number(s.subrange(y + 4, y + 6), t.2 as nat)
            &&& s[y + 6] == 'T' && is_number(s.subrange(y + 7, y + 9), t.3 as nat)
            &&& s[y + 9] == ':' && is_number(s.subrange(y + 10, y + 12), t.4 as nat)
            &&& s[y + 12] == ':' && is_number(s.subrange(y + 13, y + 15), t.5 as nat)
            &&& s[y + 15] == 'Z'
        }),
{
    let s = timestamp_words(t);
    let year = padded(decimal(t.0 as nat), 4, '0');
    let month = padded(decimal(t.1 as nat), 2, '0');
    let day = padded(decimal(t.2 as nat), 2, '0');
    let hour = padded(decimal(t.3 as nat), 2, '0');
    let minute = padded(decimal(t.4 as nat), 2, '0');
    let second = padded(decimal(t.5 as nat), 2, '0');
    reveal_strlit("-");
    reveal_strlit("T");
    reveal_strlit(":");
    reveal_strlit("Z");
    padding_comes_first(decimal(t.0 as nat), 4, '0');
    lemma_padded_number(t.0 as nat, 4);
    lemma_two_digits(t.1 as nat);
    lemma_two_digits(t.2 as nat);
    lemma_two_digits(t.3 as nat);
    lemma_two_digits(t.4 as nat);
    lemma_two_digits(t.5 as nat);
    reveal_with_fuel(decimal, 5);
    let y = s.len() - 16;
    assert(y == year.len());
    assert(s.take(y) =~= year);
    assert(s.subrange(y + 1, y + 3) =~= month);
    assert(s.subrange(y + 4, y + 6) =~= day);
    assert(s.subrange(y + 7, y + 9) =~= hour);
    assert(s.subrange(y + 10, y + 12) =~= minute);
    assert(s.subrange(y + 13, y + 15) =~= second);
}

/// Thirty days has September, and April, June and November; all the rest have
/// thirty-one, but February has twenty-eight, and one more in a leap year.
pub proof fn months_have_their_days(year: nat, month: nat)
    requires
        1 <= month <= 12,
    ensures
        month == 1 || month == 3 || month == 5 || month == 7 || month == 8 || month == 10 || month
            == 12 ==> days_in_month(year, month) == 31,
        month == 4 || month == 6 || month == 9 || month == 11 ==> days_in_month(year, month) == 30,
        month == 2 && leap(year) ==> days_in_month(year, month) == 29,
        month == 2 && !leap(year) ==> days_in_month(year, month) == 28,
        days_before_month(year, 1) == 0,
        days_before_month(year, month + 1) == days_before_month(year, month) + days_in_month(
            year,
            month,
        ),
{
}

/// Every fourth year is a leap year, but of the full centuries every fourth
/// one alone.
pub proof fn leap_years_come_every_fourth_year(n: nat, k: nat)
    requires
        0 < k < 4,
    ensures
        !leap(4 * n + k),
        n % 25 != 0 ==> leap(4 * n),
        !leap(400 * n + 100 * k),
        leap(400 * n),
        days_in_year(n) == if leap(n) {
            366nat
        } else {
            365nat
        },
{
    assert((4 * n + k) % 4 == k);
    assert((4 * n + k) % 400 != 0);
    assert((4 * n) % 4 == 0);
    assert(n % 25 != 0 ==> (4 * n) % 100 != 0);
    assert((400 * n + 100 * k) % 100 == 0);
    assert((400 * n + 100 * k) % 400 == 100 * k);
    assert((400 * n) % 400 == 0);
}

/// Time runs without a gap: it starts with the year 1970, a second is one, a
/// minute sixty, an hour sixty minutes and a day twenty-four hours, and a month
/// and a year follow on the one before.
pub proof fn time_runs_without_a_gap(t: DateTime, n: u64)
    requires
        is_date_time(t),
        t.0 < u64::MAX,
        n < u64::MAX - 60,
    ensures
        seconds_of((1970, 1, 1, 0, 0, 0)) == 0,
        seconds_of((t.0, t.1, t.2, t.3, t.4, n)) == seconds_of((t.0, t.1, t.2, t.3, t.4, 0)) + n,
        seconds_of((t.0, t.1, t.2, t.3, (t.4 + 1) as u64, t.5)) == seconds_of(t) + 60,
        seconds_of((t.0, t.1, t.2, (t.3 + 1) as u64, t.4, t.5)) == seconds_of(t) + 60 * 60,
        seconds_of((t.0, t.1, (t.2 + 1) as u64, t.3, t.4, t.5)) == seconds_of(t) + 24 * 60 * 60,
        seconds_of((t.0, (t.1 + 1) as u64, 1, 0, 0, 0)) == seconds_of((t.0, t.1, 1, 0, 0, 0))
            + days_in_month(t.0 as nat, t.1 as nat) * 24 * 60 * 60,
        seconds_of(((t.0 + 1) as u64, 1, 1, 0, 0, 0)) == seconds_of((t.0, 1, 1, 0, 0, 0))
            + days_in_year(t.0 as nat) * 24 * 60 * 60,
{
    reveal_with_fuel(days_before_month, 2);
    assert(days_before_year((t.0 + 1) as nat) == days_before_year(t.0 as nat) + days_in_year(
        t.0 as nat,
    ));
}

/// A date is one of the calendar where the month is one of twelve, the day one
/// of the month, the hour one of twenty-four, and the minute and the second
/// each one of sixty.
pub proof fn dates_are_of_the_calendar(t: DateTime)
    ensures
        is_date_time(t) <==> 1970 <= t.0 && 1 <= t.1 <= 12 && 1 <= t.2 <= days_in_month(
            t.0 as nat,
            t.1 as nat,
        ) && t.3 <= 23 && t.4 <= 59 && t.5 <= 59,
{
}

/// A file has the right columns where its first line is the header, whatever
/// white space stands around it; a file without a first line has not, and
/// neither has one with another first line.
pub proof fn header_is_found_by_its_text(existing: ExistingFile)
    ensures
        existing matches ExistingFile::FirstLine(line) ==> (has_header(existing) <==> trimmed(line@)
            == header_words()),
        !(existing is FirstLine) ==> !has_header(existing),
{
}

/// The header is found whatever white space stands around it.
pub proof fn header_is_found_among_white_space(a: Seq<char>, b: Seq<char>, line: String)
    requires
        is_blank(a),
        is_blank(b),
        line@ == a + header_words() + b,
    ensures
        has_header(ExistingFile::FirstLine(line)),
{
    let header = header_words();
    header_is_a_line();
    header_splits_into_columns();
    assert(header.len() > 0);
    let ends = trimming_cuts_white_space(header);
    assert(header == trimmed(header));
    trimming_forgets_white_space(a, header, b);
}

/// A new file is the header and the row, each with a line end behind it.
pub proof fn new_file_is_two_lines(row: Seq<char>)
    ensures
        new_file(row) == header_words() + seq!['\n'] + row + seq!['\n'],
{
    assert(new_file(row) =~= header_words() + seq!['\n'] + row + seq!['\n']);
}

} // verus!
