//! The results of a load test as a row of a CSV file.

use vstd::prelude::*;
use vstd::string::*;

use crate::command::Config;
use crate::report::{Figures, RateTexts};
use crate::text::{bool_word, decimal, hundredths, joined, padded, split, trimmed, views};
use crate::text::{decimal_is_digits, is_digit, is_separator, split_inverts_join, PlainText};
use crate::text::{bool_text, decimal_text, hundredths_text, join, push_padded, trim};

verus! {

/// A leap year has 366 days.
pub open spec fn leap(year: nat) -> bool {
    (year % 4 == 0 && year % 100 != 0) || year % 400 == 0
}

pub fn is_leap(year: u64) -> (r: bool)
    ensures
        r == leap(year as nat),
{
    (year % 4 == 0 && year % 100 != 0) || year % 400 == 0
}

pub open spec fn days_in_year(year: nat) -> nat {
    if leap(year) {
        366
    } else {
        365
    }
}

/// Days from the first day of 1970 to the first day of a year.
pub open spec fn days_before_year(year: nat) -> nat
    decreases year,
{
    if year <= 1970 {
        0
    } else {
        days_before_year((year - 1) as nat) + days_in_year((year - 1) as nat)
    }
}

/// Days in a month; months count from one.
pub open spec fn days_in_month(year: nat, month: nat) -> nat {
    if month == 2 {
        if leap(year) {
            29
        } else {
            28
        }
    } else if month == 4 || month == 6 || month == 9 || month == 11 {
        30
    } else {
        31
    }
}

/// Days from the first day of a year to the first day of a month.
pub open spec fn days_before_month(year: nat, month: nat) -> nat
    decreases month,
{
    if month <= 1 {
        0
    } else {
        days_before_month(year, (month - 1) as nat) + days_in_month(year, (month - 1) as nat)
    }
}

/// A date and time of day, in the order year, month, day, hour, minute,
/// second.
pub type DateTime = (u64, u64, u64, u64, u64, u64);

/// The date is one of the calendar, from 1970 on, and the time one of the day.
pub open spec fn is_date_time(t: DateTime) -> bool {
    &&& t.0 >= 1970
    &&& 1 <= t.1 <= 12
    &&& 1 <= t.2 <= days_in_month(t.0 as nat, t.1 as nat)
    &&& t.3 < 24
    &&& t.4 < 60
    &&& t.5 < 60
}

/// Days from the first day of 1970 to a date.
pub open spec fn day_number(t: DateTime) -> int {
    days_before_year(t.0 as nat) + days_before_month(t.0 as nat, t.1 as nat) + t.2 - 1
}

/// Seconds from the start of 1970 to a date and time.
pub open spec fn seconds_of(t: DateTime) -> int {
    day_number(t) * 86_400 + t.3 * 3600 + t.4 * 60 + t.5
}

/// The date and time, in UTC, of so many seconds after the start of 1970.
pub open spec fn date_time_of(epoch: u64) -> DateTime {
    choose|t: DateTime| #[trigger] is_date_time(t) && seconds_of(t) == epoch
}

/// The months fill the year.
proof fn lemma_months_fill_the_year(year: nat)
    ensures
        days_before_month(year, 13) == days_in_year(year),
{
    reveal_with_fuel(days_before_month, 14);
}

/// The date and time, in UTC, of so many seconds after the start of 1970.
pub fn epoch_to_datetime(epoch: u64) -> (r: DateTime)
    ensures
        is_date_time(r),
        seconds_of(r) == epoch,
        r == date_time_of(epoch),
{
    let sec: u64 = epoch % 60;
    let min: u64 = (epoch / 60) % 60;
    let hour: u64 = (epoch / 3600) % 24;
    let total: u64 = epoch / 86_400;
    let mut days: u64 = total;
    let mut year: u64 = 1970;
    let mut year_len: u64 = 365;
    while days >= year_len
        invariant
            1970 <= year,
            year_len == days_in_year(year as nat),
            days_before_year(year as nat) + days == total,
            365 * (year - 1970) <= total - days,
            total <= u64::MAX / 86_400,
        decreases days,
    {
        days = days - year_len;
        year = year + 1;
        year_len = if is_leap(year) { 366 } else { 365 };
    }
    proof {
        lemma_months_fill_the_year(year as nat);
    }
    let leap_year = is_leap(year);
    let mut month: u64 = 1;
    let mut month_len: u64 = 31;
    while days >= month_len
        invariant
            1 <= month <= 12,
            leap_year == leap(year as nat),
            month_len == days_in_month(year as nat, month as nat),
            days_before_month(year as nat, 13) == days_in_year(year as nat),
            days_before_year(year as nat) + days_before_month(year as nat, month as nat) + days
                == total,
            days_before_month(year as nat, month as nat) + days < days_in_year(year as nat),
        decreases days,
    {
        days = days - month_len;
        month = month + 1;
        month_len = if month == 2 {
            if leap_year {
                29
            } else {
                28
            }
        } else if month == 4 || month == 6 || month == 9 || month == 11 {
            30
        } else {
            31
        };
    }
    let day: u64 = days + 1;
    let found: DateTime = (year, month, day, hour, min, sec);
    proof {
        assert(is_date_time(found) && seconds_of(found) == epoch);
        date_time_of_seconds_is_unique(found, date_time_of(epoch));
    }
    found
}

/// A date and time in the format of RFC 3339.
pub open spec fn timestamp_words(t: DateTime) -> Seq<char> {
    padded(decimal(t.0 as nat), 4, '0') + "-"@ + padded(decimal(t.1 as nat), 2, '0') + "-"@
        + padded(decimal(t.2 as nat), 2, '0') + "T"@ + padded(decimal(t.3 as nat), 2, '0') + ":"@
        + padded(decimal(t.4 as nat), 2, '0') + ":"@ + padded(decimal(t.5 as nat), 2, '0') + "Z"@
}

/// A date and time in the format of RFC 3339.
pub fn timestamp_text(t: DateTime) -> (r: String)
    ensures
        r@ == timestamp_words(t),
{
    let mut text = String::new();
    push_padded(&mut text, t.0, 4, '0');
    assert(text@ =~= padded(decimal(t.0 as nat), 4, '0'));
    text.append("-");
    push_padded(&mut text, t.1, 2, '0');
    text.append("-");
    push_padded(&mut text, t.2, 2, '0');
    text.append("T");
    push_padded(&mut text, t.3, 2, '0');
    text.append(":");
    push_padded(&mut text, t.4, 2, '0');
    text.append(":");
    push_padded(&mut text, t.5, 2, '0');
    text.append("Z");
    text
}

proof fn lemma_years_add_up(a: nat, b: nat)
    requires
        1970 <= a < b,
    ensures
        days_before_year(a) + days_in_year(a) <= days_before_year(b),
    decreases b,
{
    if a + 1 < b {
        lemma_years_add_up(a, (b - 1) as nat);
    }
}

proof fn lemma_months_add_up(year: nat, a: nat, b: nat)
    requires
        1 <= a < b <= 13,
    ensures
        days_before_month(year, a) + days_in_month(year, a) <= days_before_month(year, b),
    decreases b,
{
    if a + 1 < b {
        lemma_months_add_up(year, a, (b - 1) as nat);
    }
}

/// The first date and time comes before the second.
pub open spec fn is_earlier(a: DateTime, b: DateTime) -> bool {
    ||| a.0 < b.0
    ||| a.0 == b.0 && a.1 < b.1
    ||| a.0 == b.0 && a.1 == b.1 && a.2 < b.2
    ||| a.0 == b.0 && a.1 == b.1 && a.2 == b.2 && a.3 < b.3
    ||| a.0 == b.0 && a.1 == b.1 && a.2 == b.2 && a.3 == b.3 && a.4 < b.4
    ||| a.0 == b.0 && a.1 == b.1 && a.2 == b.2 && a.3 == b.3 && a.4 == b.4 && a.5 < b.5
}

/// The earlier of two dates and times has fewer seconds.
pub proof fn earlier_has_fewer_seconds(a: DateTime, b: DateTime)
    requires
        is_date_time(a),
        is_date_time(b),
        is_earlier(a, b),
    ensures
        seconds_of(a) < seconds_of(b),
{
    if a.0 < b.0 {
        lemma_years_add_up(a.0 as nat, b.0 as nat);
        lemma_months_add_up(a.0 as nat, a.1 as nat, 13);
        lemma_months_fill_the_year(a.0 as nat);
        assert(day_number(a) < day_number(b));
    } else if a.1 < b.1 {
        lemma_months_add_up(a.0 as nat, a.1 as nat, b.1 as nat);
        assert(day_number(a) < day_number(b));
    }
}

/// No two dates and times have the same seconds, so [`epoch_to_datetime`]
/// gives the only one there is.
pub proof fn date_time_of_seconds_is_unique(a: DateTime, b: DateTime)
    requires
        is_date_time(a),
        is_date_time(b),
        seconds_of(a) == seconds_of(b),
    ensures
        a == b,
{
    if is_earlier(a, b) {
        earlier_has_fewer_seconds(a, b);
    } else if is_earlier(b, a) {
        earlier_has_fewer_seconds(b, a);
    }
}

/// The names of the columns.
pub open spec fn header_cells() -> Seq<Seq<char>> {
    seq![
        "timestamp"@,
        "target"@,
        "connections"@,
        "connect_rate"@,
        "connect_timeout_s"@,
        "channel_lifetime_s"@,
        "duration_s"@,
        "warmup_s"@,
        "workers"@,
        "nagle"@,
        "pipeline"@,
        "websocket"@,
        "message_size"@,
        "message_rate"@,
        "total_connections"@,
        "success_rate_pct"@,
        "total_requests"@,
        "error_rate_pct"@,
        "requests_per_sec"@,
        "throughput_mb"@,
        "bandwidth_mb_s"@,
        "traffic_down_mbps"@,
        "traffic_up_mbps"@,
        "latency_avg_us"@,
        "latency_min_us"@,
        "latency_p50_us"@,
        "latency_p90_us"@,
        "latency_p95_us"@,
        "latency_p99_us"@,
        "latency_max_us"@,
    ]
}

/// The first line of the file.
pub open spec fn header_words() -> Seq<char> {
    joined(header_cells(), ',')
}

/// The first line of the file.
pub fn header_line() -> (r: String)
    ensures
        r@ == header_words(),
{
    let mut names: Vec<String> = Vec::new();
    names.push("timestamp".to_owned());
    names.push("target".to_owned());
    names.push("connections".to_owned());
    names.push("connect_rate".to_owned());
    names.push("connect_timeout_s".to_owned());
    names.push("channel_lifetime_s".to_owned());
    names.push("duration_s".to_owned());
    names.push("warmup_s".to_owned());
    names.push("workers".to_owned());
    names.push("nagle".to_owned());
    names.push("pipeline".to_owned());
    names.push("websocket".to_owned());
    names.push("message_size".to_owned());
    names.push("message_rate".to_owned());
    names.push("total_connections".to_owned());
    names.push("success_rate_pct".to_owned());
    names.push("total_requests".to_owned());
    names.push("error_rate_pct".to_owned());
    names.push("requests_per_sec".to_owned());
    names.push("throughput_mb".to_owned());
    names.push("bandwidth_mb_s".to_owned());
    names.push("traffic_down_mbps".to_owned());
    names.push("traffic_up_mbps".to_owned());
    names.push("latency_avg_us".to_owned());
    names.push("latency_min_us".to_owned());
    names.push("latency_p50_us".to_owned());
    names.push("latency_p90_us".to_owned());
    names.push("latency_p95_us".to_owned());
    names.push("latency_p99_us".to_owned());
    names.push("latency_max_us".to_owned());
    assert(views(names@) =~= header_cells());
    join(&names, ',')
}

/// The texts of the lengths of time in the configuration, in seconds with two
/// decimal places.
#[derive(Debug)]
pub struct SecondsTexts {
    pub connect_timeout: PlainText,
    /// Not used where connections have no end of life.
    pub channel_lifetime: PlainText,
    pub duration: PlainText,
    pub warmup: PlainText,
}

/// The cells of a row.
pub open spec fn row_cells(
    config: Config,
    figures: Figures,
    rates: RateTexts,
    seconds: SecondsTexts,
    target: Seq<char>,
    workers: usize,
    taken_at: DateTime,
) -> Seq<Seq<char>> {
    seq![
        timestamp_words(taken_at),
        target,
        decimal(config.connections as nat),
        decimal(config.connect_rate as nat),
        seconds.connect_timeout@,
        if config.channel_lifetime is Some {
            seconds.channel_lifetime@
        } else {
            "-1"@
        },
        seconds.duration@,
        seconds.warmup@,
        decimal(workers as nat),
        bool_word(config.nagle),
        bool_word(config.pipeline),
        bool_word(config.use_websocket),
        decimal(config.message_size as nat),
        match config.message_rate {
            Some(rate) => decimal(rate as nat),
            None => "-1"@,
        },
        decimal(figures.total_connections as nat),
        rates.success_rate@,
        decimal(figures.total_requests as nat),
        rates.error_rate@,
        rates.requests_rate@,
        rates.throughput@,
        rates.bandwidth@,
        hundredths(figures.traffic_down as nat),
        hundredths(figures.traffic_up as nat),
        figures.latency_mean@,
        decimal(figures.latency_min as nat),
        decimal(figures.latency_p50 as nat),
        decimal(figures.latency_p90 as nat),
        decimal(figures.latency_p95 as nat),
        decimal(figures.latency_p99 as nat),
        decimal(figures.latency_max as nat),
    ]
}

/// The row for the results of a test; `epoch` is the wall clock in seconds.
/// Where the target holds no comma, the row splits into its cells, one for
/// each column; where the target holds no line break, the row is one line.
pub fn build_row(
    config: &Config,
    figures: &Figures,
    rates: &RateTexts,
    seconds: &SecondsTexts,
    target: &str,
    workers: usize,
    epoch: u64,
) -> (r: String)
    ensures
        r@ == joined(
            row_cells(
                *config,
                *figures,
                *rates,
                *seconds,
                target@,
                workers,
                date_time_of(epoch),
            ),
            ',',
        ),
        !target@.contains(',') ==> split(r@, ',') == row_cells(
            *config,
            *figures,
            *rates,
            *seconds,
            target@,
            workers,
            date_time_of(epoch),
        ) && split(r@, ',').len() == header_cells().len(),
        !target@.contains('\n') ==> !r@.contains('\n'),
        !target@.contains('\r') ==> !r@.contains('\r'),
{
    let taken_at = epoch_to_datetime(epoch);
    let lifetime = seconds.channel_lifetime.as_str();
    let channel_lifetime = match config.channel_lifetime {
        Some(_) => lifetime.to_owned(),
        None => "-1".to_owned(),
    };
    let message_rate = match config.message_rate {
        Some(rate) => decimal_text(rate),
        None => "-1".to_owned(),
    };
    let mut cells: Vec<String> = Vec::new();
    cells.push(timestamp_text(taken_at));
    cells.push(target.to_owned());
    cells.push(decimal_text(config.connections));
    cells.push(decimal_text(config.connect_rate));
    cells.push(seconds.connect_timeout.as_str().to_owned());
    cells.push(channel_lifetime);
    cells.push(seconds.duration.as_str().to_owned());
    cells.push(seconds.warmup.as_str().to_owned());
    cells.push(decimal_text(workers as u64));
    cells.push(bool_text(config.nagle));
    cells.push(bool_text(config.pipeline));
    cells.push(bool_text(config.use_websocket));
    cells.push(decimal_text(config.message_size as u64));
    cells.push(message_rate);
    cells.push(decimal_text(figures.total_connections));
    cells.push(rates.success_rate.as_str().to_owned());
    cells.push(decimal_text(figures.total_requests));
    cells.push(rates.error_rate.as_str().to_owned());
    cells.push(rates.requests_rate.as_str().to_owned());
    cells.push(rates.throughput.as_str().to_owned());
    cells.push(rates.bandwidth.as_str().to_owned());
    cells.push(hundredths_text(figures.traffic_down));
    cells.push(hundredths_text(figures.traffic_up));
    cells.push(figures.latency_mean.as_str().to_owned());
    cells.push(decimal_text(figures.latency_min));
    cells.push(decimal_text(figures.latency_p50));
    cells.push(decimal_text(figures.latency_p90));
    cells.push(decimal_text(figures.latency_p95));
    cells.push(decimal_text(figures.latency_p99));
    cells.push(decimal_text(figures.latency_max));
    assert(views(cells@) =~= row_cells(
        *config,
        *figures,
        *rates,
        *seconds,
        target@,
        workers,
        taken_at,
    ));
    proof {
        if !target@.contains(',') {
            lemma_row_splits(*config, *figures, *rates, *seconds, target@, workers, taken_at);
        }
        if !target@.contains('\n') {
            lemma_row_is_one_line(
                '\n',
                *config,
                *figures,
                *rates,
                *seconds,
                target@,
                workers,
                taken_at,
            );
        }
        if !target@.contains('\r') {
            lemma_row_is_one_line(
                '\r',
                *config,
                *figures,
                *rates,
                *seconds,
                target@,
                workers,
                taken_at,
            );
        }
    }
    join(&cells, ',')
}

/// What was found of a file.
pub enum ExistingFile {
    /// It cannot be opened.
    Missing,
    /// It has no first line that can be read.
    Unreadable,
    /// Its first line.
    FirstLine(String),
    /// It has the right first line but cannot be opened for appending.
    NotAppendable,
}

/// How a row gets into a file.
pub enum Export {
    /// The text is put at the end of the file.
    Append(String),
    /// The text becomes the file.
    Overwrite(String),
}

/// The file has the right columns.
pub open spec fn has_header(existing: ExistingFile) -> bool {
    existing matches ExistingFile::FirstLine(line) && trimmed(line@) == header_words()
}

/// The text of a file that holds the header and one row.
pub open spec fn new_file(row: Seq<char>) -> Seq<char> {
    header_words().push('\n') + row.push('\n')
}

/// Puts a row in a file: behind the rows there where the file has the right
/// columns, else in a new file in its place.
pub fn export_csv(existing: &ExistingFile, row: &str) -> (r: Export)
    ensures
        has_header(*existing) ==> (r matches Export::Append(text) && text@ == row@.push('\n')),
        !has_header(*existing) ==> (r matches Export::Overwrite(text) && text@ == new_file(row@)),
{
    let mut line = row.to_owned();
    line.push('\n');
    let header = header_line();
    let matches_header = match existing {
        ExistingFile::FirstLine(first) => trim(first.as_str()).to_owned() == header,
        _ => false,
    };
    if matches_header {
        Export::Append(line)
    } else {
        let mut file = header;
        file.push('\n');
        file.append(line.as_str());
        Export::Overwrite(file)
    }
}

/// Lower case letters, digits and underscores, at least one.
spec fn is_column_name(s: Seq<char>) -> bool {
    &&& s.len() > 0
    &&& forall|i: int|
        0 <= i < s.len() ==> {
            ||| 'a' <= #[trigger] s[i] <= 'z'
            ||| '0' <= s[i] <= '9'
            ||| s[i] == '_'
        }
}

proof fn lemma_columns_are_named()
    ensures
        forall|i: int|
            0 <= i < header_cells().len() ==> is_column_name(#[trigger] header_cells()[i]),
{
    reveal_strlit("timestamp");
    reveal_strlit("target");
    reveal_strlit("connections");
    reveal_strlit("connect_rate");
    reveal_strlit("connect_timeout_s");
    reveal_strlit("channel_lifetime_s");
    reveal_strlit("duration_s");
    reveal_strlit("warmup_s");
    reveal_strlit("workers");
    reveal_strlit("nagle");
    reveal_strlit("pipeline");
    reveal_strlit("websocket");
    reveal_strlit("message_size");
    reveal_strlit("message_rate");
    reveal_strlit("total_connections");
    reveal_strlit("success_rate_pct");
    reveal_strlit("total_requests");
    reveal_strlit("error_rate_pct");
    reveal_strlit("requests_per_sec");
    reveal_strlit("throughput_mb");
    reveal_strlit("bandwidth_mb_s");
    reveal_strlit("traffic_down_mbps");
    reveal_strlit("traffic_up_mbps");
    reveal_strlit("latency_avg_us");
    reveal_strlit("latency_min_us");
    reveal_strlit("latency_p50_us");
    reveal_strlit("latency_p90_us");
    reveal_strlit("latency_p95_us");
    reveal_strlit("latency_p99_us");
    reveal_strlit("latency_max_us");
}

/// Column names in a row hold letters, digits, underscores and separators only.
proof fn lemma_row_of_names(cells: Seq<Seq<char>>)
    requires
        cells.len() > 0,
        forall|i: int| 0 <= i < cells.len() ==> is_column_name(#[trigger] cells[i]),
    ensures
        joined(cells, ',').len() > 0,
        forall|i: int|
            0 <= i < joined(cells, ',').len() ==> {
                ||| 'a' <= #[trigger] joined(cells, ',')[i] <= 'z'
                ||| '0' <= joined(cells, ',')[i] <= '9'
                ||| joined(cells, ',')[i] == '_'
                ||| joined(cells, ',')[i] == ','
            },
    decreases cells.len(),
{
    assert(is_column_name(cells[cells.len() - 1]));
    if cells.len() > 1 {
        let shorter = cells.drop_last();
        assert forall|i: int| 0 <= i < shorter.len() implies is_column_name(
            #[trigger] shorter[i],
        ) by {
            assert(shorter[i] == cells[i]);
        }
        lemma_row_of_names(shorter);
    }
}

/// The header is one line with nothing to trim.
pub proof fn header_is_a_line()
    ensures
        trimmed(header_words()) == header_words(),
        !header_words().contains('\n'),
{
    lemma_columns_are_named();
    lemma_row_of_names(header_cells());
}

/// The names of the columns are found again between the separators of the
/// header.
pub proof fn header_splits_into_columns()
    ensures
        split(header_words(), ',') == header_cells(),
{
    lemma_columns_are_named();
    assert forall|i: int| 0 <= i < header_cells().len() implies !(
    #[trigger] header_cells()[i]).contains(',') by {
        assert(is_column_name(header_cells()[i]));
    }
    split_inverts_join(header_cells(), ',');
}

/// Digits behind fill characters hold no separator.
proof fn lemma_number_holds_no(c: char, n: nat, width: nat, fill: char)
    requires
        is_separator(c),
        !is_separator(fill),
    ensures
        !decimal(n).contains(c),
        !padded(decimal(n), width, fill).contains(c),
{
    decimal_is_digits(n);
    let text = padded(decimal(n), width, fill);
    assert forall|i: int| 0 <= i < text.len() implies text[i] != c by {
        let gap = text.len() - decimal(n).len();
        if i >= gap {
            assert(is_digit(decimal(n)[i - gap]));
        }
    }
    assert forall|i: int| 0 <= i < decimal(n).len() implies decimal(n)[i] != c by {
        assert(is_digit(decimal(n)[i]));
    }
}

/// A text of two others holds a character only where one of them does.
proof fn lemma_sum_holds_no(c: char, a: Seq<char>, b: Seq<char>)
    requires
        !a.contains(c),
        !b.contains(c),
    ensures
        !(a + b).contains(c),
{
    assert forall|i: int| 0 <= i < (a + b).len() implies (a + b)[i] != c by {
        if i < a.len() {
            assert(a.contains(a[i]));
        } else {
            assert(b.contains(b[i - a.len()]));
        }
    }
}

/// A number of hundredths holds no separator.
proof fn lemma_hundredths_hold_no(c: char, n: nat)
    requires
        is_separator(c),
    ensures
        !hundredths(n).contains(c),
{
    lemma_number_holds_no(c, n / 100, 0, '0');
    lemma_number_holds_no(c, n % 100, 2, '0');
    reveal_strlit(".");
    lemma_sum_holds_no(c, decimal(n / 100), "."@);
    lemma_sum_holds_no(c, decimal(n / 100) + "."@, padded(decimal(n % 100), 2, '0'));
}

/// A timestamp holds no separator.
proof fn lemma_timestamp_holds_no(c: char, t: DateTime)
    requires
        is_separator(c),
    ensures
        !timestamp_words(t).contains(c),
{
    lemma_number_holds_no(c, t.0 as nat, 4, '0');
    lemma_number_holds_no(c, t.1 as nat, 2, '0');
    lemma_number_holds_no(c, t.2 as nat, 2, '0');
    lemma_number_holds_no(c, t.3 as nat, 2, '0');
    lemma_number_holds_no(c, t.4 as nat, 2, '0');
    lemma_number_holds_no(c, t.5 as nat, 2, '0');
    reveal_strlit("-");
    reveal_strlit("T");
    reveal_strlit(":");
    reveal_strlit("Z");
    assert forall|a: Seq<char>, b: Seq<char>|
        !a.contains(c) && !b.contains(c) implies !(#[trigger] (a + b)).contains(c) by {
        lemma_sum_holds_no(c, a, b);
    }
}

/// Neither the target nor one of the texts of a row holds a character.
spec fn texts_hold_no(
    c: char,
    figures: Figures,
    rates: RateTexts,
    seconds: SecondsTexts,
    target: Seq<char>,
) -> bool {
    &&& !target.contains(c)
    &&& !seconds.connect_timeout@.contains(c)
    &&& !seconds.channel_lifetime@.contains(c)
    &&& !seconds.duration@.contains(c)
    &&& !seconds.warmup@.contains(c)
    &&& !rates.success_rate@.contains(c)
    &&& !rates.error_rate@.contains(c)
    &&& !rates.requests_rate@.contains(c)
    &&& !rates.throughput@.contains(c)
    &&& !rates.bandwidth@.contains(c)
    &&& !figures.latency_mean@.contains(c)
}

proof fn lemma_cells_hold_no(
    c: char,
    config: Config,
    figures: Figures,
    rates: RateTexts,
    seconds: SecondsTexts,
    target: Seq<char>,
    workers: usize,
    taken_at: DateTime,
)
    requires
        is_separator(c),
        texts_hold_no(c, figures, rates, seconds, target),
    ensures
        forall|i: int|
            0 <= i < header_cells().len() ==> !(#[trigger] row_cells(
                config,
                figures,
                rates,
                seconds,
                target,
                workers,
                taken_at,
            )[i]).contains(c),
{
    lemma_timestamp_holds_no(c, taken_at);
    reveal_strlit("-1");
    reveal_strlit("true");
    reveal_strlit("false");
    assert forall|n: nat| !(#[trigger] decimal(n)).contains(c) by {
        lemma_number_holds_no(c, n, 0, '0');
    }
    assert forall|n: nat| !(#[trigger] hundredths(n)).contains(c) by {
        lemma_hundredths_hold_no(c, n);
    }
}

proof fn lemma_row_splits(
    config: Config,
    figures: Figures,
    rates: RateTexts,
    seconds: SecondsTexts,
    target: Seq<char>,
    workers: usize,
    taken_at: DateTime,
)
    requires
        texts_hold_no(',', figures, rates, seconds, target),
    ensures
        ({
            let cells = row_cells(config, figures, rates, seconds, target, workers, taken_at);
            &&& split(joined(cells, ','), ',') == cells
            &&& cells.len() == header_cells().len()
        }),
{
    lemma_cells_hold_no(',', config, figures, rates, seconds, target, workers, taken_at);
    split_inverts_join(
        row_cells(config, figures, rates, seconds, target, workers, taken_at),
        ',',
    );
}

proof fn lemma_joined_holds_no(c: char, cells: Seq<Seq<char>>)
    requires
        c != ',',
        forall|i: int| 0 <= i < cells.len() ==> !(#[trigger] cells[i]).contains(c),
    ensures
        !joined(cells, ',').contains(c),
    decreases cells.len(),
{
    if cells.len() == 1 {
        assert(!cells[0].contains(c));
    } else if cells.len() > 1 {
        let shorter = cells.drop_last();
        assert forall|i: int| 0 <= i < shorter.len() implies !(#[trigger] shorter[i]).contains(
            c,
        ) by {
            assert(shorter[i] == cells[i]);
        }
        lemma_joined_holds_no(c, shorter);
        assert(!cells[cells.len() - 1].contains(c));
        let head = joined(shorter, ',');
        assert(head.push(',') =~= head + seq![',']);
        assert(!seq![','].contains(c));
        lemma_sum_holds_no(c, head, seq![',']);
        lemma_sum_holds_no(c, head.push(','), cells.last());
    }
}

proof fn lemma_row_is_one_line(
    c: char,
    config: Config,
    figures: Figures,
    rates: RateTexts,
    seconds: SecondsTexts,
    target: Seq<char>,
    workers: usize,
    taken_at: DateTime,
)
    requires
        c == '\n' || c == '\r',
        texts_hold_no(c, figures, rates, seconds, target),
    ensures
        !joined(
            row_cells(config, figures, rates, seconds, target, workers, taken_at),
            ',',
        ).contains(c),
{
    lemma_cells_hold_no(c, config, figures, rates, seconds, target, workers, taken_at);
    lemma_joined_holds_no(
        c,
        row_cells(config, figures, rates, seconds, target, workers, taken_at),
    );
}

/// A file that holds the header and rows.
pub open spec fn file_of(rows: Seq<Seq<char>>) -> Seq<char>
    decreases rows.len(),
{
    if rows.len() == 0 {
        header_words().push('\n')
    } else {
        file_of(rows.drop_last()) + rows.last().push('\n')
    }
}

/// `line` is what stands before the first line end of a text.
pub open spec fn is_first_line(text: Seq<char>, line: Seq<char>) -> bool {
    &&& !line.contains('\n')
    &&& text == line || (text.len() > line.len() && text.take(line.len() as int + 1) == line.push(
        '\n',
    ))
}

proof fn lemma_file_starts_with_header(rows: Seq<Seq<char>>)
    ensures
        file_of(rows).len() > header_words().len(),
        file_of(rows).take(header_words().len() as int + 1) == header_words().push('\n'),
    decreases rows.len(),
{
    let start = header_words().push('\n');
    if rows.len() == 0 {
        assert(start.take(header_words().len() as int + 1) =~= start);
    } else {
        lemma_file_starts_with_header(rows.drop_last());
        let end = header_words().len() as int + 1;
        assert(file_of(rows).take(end) =~= file_of(rows.drop_last()).take(end));
    }
}

/// Exports add up: a new file holds the header and the one row, and a file
/// with rows is found to have the right columns and gets the next row behind
/// them.
pub proof fn exported_rows_add_up(rows: Seq<Seq<char>>, line: String, row: Seq<char>)
    requires
        is_first_line(file_of(rows), line@),
    ensures
        has_header(ExistingFile::FirstLine(line)),
        file_of(rows) + row.push('\n') == file_of(rows.push(row)),
        new_file(row) == file_of(seq![row]),
{
    lemma_file_starts_with_header(rows);
    header_is_a_line();
    let file = file_of(rows);
    let header = header_words();
    let at: int = header.len() as int;
    let end: int = line@.len() as int;
    assert(file[at] == file.take(at + 1)[at]);
    if end > at {
        assert(line@[at] == file[at]) by {
            if file != line@ {
                assert(file.take(end + 1)[at] == line@[at]);
            }
        }
        assert(line@.contains(line@[at]));
    } else if end < at {
        assert(file[end] == file.take(end + 1)[end]);
        assert(header[end] == file.take(at + 1)[end]);
        assert(header.contains(header[end]));
    } else {
        assert(line@ =~= header) by {
            assert forall|i: int| 0 <= i < at implies line@[i] == header[i] by {
                assert(file.take(at + 1)[i] == header[i]);
                assert(file.take(end + 1)[i] == line@[i]);
            }
        }
    }
    assert(rows.push(row).drop_last() =~= rows);
    reveal_with_fuel(file_of, 2);
}

/// The header and rows as the lines of a file.
pub open spec fn lines_of(rows: Seq<Seq<char>>) -> Seq<Seq<char>> {
    seq![header_words()] + rows
}

proof fn lemma_file_is_lines(rows: Seq<Seq<char>>)
    ensures
        file_of(rows) == joined(lines_of(rows), '\n').push('\n'),
    decreases rows.len(),
{
    let lines = lines_of(rows);
    if rows.len() == 0 {
        assert(lines =~= seq![header_words()]);
    } else {
        lemma_file_is_lines(rows.drop_last());
        assert(lines.drop_last() =~= lines_of(rows.drop_last()));
        assert(lines.last() == rows.last());
        let before = joined(lines.drop_last(), '\n').push('\n');
        assert(before + rows.last().push('\n') =~= (before + rows.last()).push('\n'));
    }
}

/// A file of rows that are one line each has as many lines as rows and one
/// more: the header, and the rows in their order. Nothing stands behind the
/// last line end.
pub proof fn file_splits_into_lines(rows: Seq<Seq<char>>)
    requires
        forall|i: int| 0 <= i < rows.len() ==> !(#[trigger] rows[i]).contains('\n'),
    ensures
        split(file_of(rows), '\n') == lines_of(rows).push(seq![]),
        lines_of(rows).len() == rows.len() + 1,
{
    header_is_a_line();
    lemma_file_is_lines(rows);
    let lines = lines_of(rows);
    assert forall|i: int| 0 <= i < lines.len() implies !(#[trigger] lines[i]).contains('\n') by {
        if i > 0 {
            assert(lines[i] == rows[i - 1]);
        }
    }
    split_inverts_join(lines, '\n');
    assert(file_of(rows).drop_last() =~= joined(lines, '\n'));
}

/// The first line of a text.
pub open spec fn first_line(text: Seq<char>) -> Seq<char> {
    split(text, '\n')[0]
}

/// There is a file and it has the right columns.
pub open spec fn takes_rows(file: Option<Seq<char>>) -> bool {
    file matches Some(text) && trimmed(first_line(text)) == header_words()
}

/// The file after a row was exported to it.
pub open spec fn exported(file: Option<Seq<char>>, row: Seq<char>) -> Seq<char> {
    if takes_rows(file) {
        file->0 + row.push('\n')
    } else {
        new_file(row)
    }
}

/// The file after rows were exported to it, one after the other.
pub open spec fn all_exported(file: Option<Seq<char>>, rows: Seq<Seq<char>>) -> Option<Seq<char>>
    decreases rows.len(),
{
    if rows.len() == 0 {
        file
    } else {
        Some(exported(all_exported(file, rows.drop_last()), rows.last()))
    }
}

/// What was found is what a file shows.
pub open spec fn shows(file: Option<Seq<char>>, existing: ExistingFile) -> bool {
    match existing {
        ExistingFile::FirstLine(line) => file matches Some(text) && trimmed(line@) == trimmed(
            first_line(text),
        ),
        ExistingFile::Missing => file is None,
        ExistingFile::Unreadable => file is Some && !takes_rows(file),
        ExistingFile::NotAppendable => false,
    }
}

/// A file gets a row behind its rows if and only if it is found to have the
/// right columns.
pub proof fn export_goes_by_the_file(file: Option<Seq<char>>, existing: ExistingFile)
    requires
        shows(file, existing),
    ensures
        has_header(existing) == takes_rows(file),
{
}

/// After one or more exports to a path that had no file, or one with other
/// columns, the file holds the header once, as its first line, and then a line
/// for each export, in their order, and nothing else.
pub proof fn each_export_adds_one_line(file: Option<Seq<char>>, rows: Seq<Seq<char>>)
    requires
        rows.len() > 0,
        !takes_rows(file),
        forall|i: int| 0 <= i < rows.len() ==> !(#[trigger] rows[i]).contains('\n'),
    ensures
        all_exported(file, rows) == Some(file_of(rows)),
        split(file_of(rows), '\n') == lines_of(rows).push(seq![]),
    decreases rows.len(),
{
    file_splits_into_lines(rows);
    let before = rows.drop_last();
    let row = rows.last();
    reveal_with_fuel(file_of, 2);
    reveal_with_fuel(all_exported, 2);
    if before.len() > 0 {
        assert forall|i: int| 0 <= i < before.len() implies !(#[trigger] before[i]).contains(
            '\n',
        ) by {
            assert(before[i] == rows[i]);
        }
        each_export_adds_one_line(file, before);
        header_is_a_line();
        assert(first_line(file_of(before)) == header_words());
    } else {
        assert(before =~= seq![]);
    }
}

} // verus!
