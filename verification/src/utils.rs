//! Parsing of durations, rates and escape sequences, and the wall clock.

use vstd::prelude::*;
use vstd::string::*;
use vstd::utf8::is_ascii_chars;

use crate::text::{chars_of, hex_byte, parse_u64, to_lowercase, trim};
use crate::text::{
    ascii_lower, decimal, decimal_is_digits, decimal_reads_back, hex_byte_value, is_digit,
    lowercase, trimmed, u64_value,
};
use crate::time::{Duration, NANOS_PER_SEC};

verus! {

/// Seconds in a unit of time.
pub open spec fn unit_seconds(unit: char) -> Option<nat> {
    if unit == 's' {
        Some(1)
    } else if unit == 'm' {
        Some(60)
    } else if unit == 'h' {
        Some(3600)
    } else if unit == 'd' {
        Some(86_400)
    } else {
        None
    }
}

/// `n`, or the largest 64 bit number where `n` is larger.
pub open spec fn saturated(n: nat) -> nat {
    if n <= u64::MAX {
        n
    } else {
        u64::MAX as nat
    }
}

/// The product, or the largest 64 bit number where the product is larger.
fn saturating_product(a: u64, b: u64) -> (r: u64)
    ensures
        r == saturated(a as nat * b as nat),
{
    match a.checked_mul(b) {
        Some(product) => product,
        None => u64::MAX,
    }
}

pub open spec fn ends_with_ms(s: Seq<char>) -> bool {
    s.len() >= 2 && s[s.len() - 2] == 'm' && s[s.len() - 1] == 's'
}

/// The span in nanoseconds, or the error, that a duration in lower case and
/// without space around it stands for: a number of milliseconds before `ms`,
/// or a number before a unit of one letter.
pub open spec fn lowered_duration(s: Seq<char>) -> Result<nat, Seq<char>> {
    if ends_with_ms(s) {
        match u64_value(trimmed(s.take(s.len() - 2))) {
            Some(n) => Ok(n as nat * 1_000_000),
            None => Err("Invalid duration number"@),
        }
    } else if s.len() < 2 {
        Err("Duration string too short"@)
    } else {
        match u64_value(trimmed(s.drop_last())) {
            Some(n) => match unit_seconds(s.last()) {
                Some(seconds) => Ok(saturated(n as nat * seconds) * NANOS_PER_SEC as nat),
                None => Err("Invalid duration unit"@),
            },
            None => Err("Invalid duration number"@),
        }
    }
}

/// A duration as its span in nanoseconds, an error as its text.
pub open spec fn duration_result(r: Result<Duration, String>) -> Result<nat, Seq<char>> {
    match r {
        Ok(d) => Ok(d@),
        Err(e) => Err(e@),
    }
}

/// Parses a duration that is in lower case and has no space around it.
pub fn parse_lowered_duration(s: &str) -> (r: Result<Duration, String>)
    ensures
        duration_result(r) == lowered_duration(s@),
{
    let len: usize = s.unicode_len();
    if len >= 2 && s.get_char(len - 2) == 'm' && s.get_char(len - 1) == 's' {
        assert(s@.take(s@.len() - 2) =~= s@.subrange(0, len - 2));
        let number = trim(s.substring_char(0, len - 2));
        return match parse_u64(number) {
            Some(n) => Ok(Duration::from_millis(n)),
            None => Err("Invalid duration number".to_owned()),
        };
    }
    if len < 2 {
        return Err("Duration string too short".to_owned());
    }
    assert(s@.drop_last() =~= s@.subrange(0, len - 1));
    let number = trim(s.substring_char(0, len - 1));
    let n: u64 = match parse_u64(number) {
        Some(n) => n,
        None => {
            return Err("Invalid duration number".to_owned());
        },
    };
    let unit = s.get_char(len - 1);
    assert(unit == s@.last());
    assert(n as nat * 1 == n as nat);
    if unit == 's' {
        Ok(Duration::from_secs(n))
    } else if unit == 'm' {
        Ok(Duration::from_secs(saturating_product(n, 60)))
    } else if unit == 'h' {
        Ok(Duration::from_secs(saturating_product(n, 3600)))
    } else if unit == 'd' {
        Ok(Duration::from_secs(saturating_product(n, 86_400)))
    } else {
        Err("Invalid duration unit".to_owned())
    }
}

/// The span in nanoseconds, or the error, that a duration stands for once
/// `folded` gives its text in lower case without space around it.
pub open spec fn folded_duration(folded: Seq<char>) -> Result<nat, Seq<char>> {
    if folded.len() == 0 {
        Err("Duration string empty"@)
    } else {
        lowered_duration(folded)
    }
}

pub open spec fn ascii_lowered(s: Seq<char>) -> Seq<char> {
    s.map_values(|c: char| ascii_lower(c))
}

/// Parses a duration such as `10s`, `100ms`, `5m`, `2h` or `1d`, in either
/// case and with space around it and before the unit.
pub fn parse_duration(s: &str) -> (r: Result<Duration, String>)
    ensures
        trimmed(s@).len() == 0 ==> duration_result(r) == Err::<nat, _>("Duration string empty"@),
        trimmed(s@).len() > 0 ==> duration_result(r) == lowered_duration(lowercase(trimmed(s@))),
        is_ascii_chars(trimmed(s@)) ==> duration_result(r) == folded_duration(
            ascii_lowered(trimmed(s@)),
        ),
{
    let s = trim(s);
    if s.is_empty() {
        return Err("Duration string empty".to_owned());
    }
    let lowered = to_lowercase(s);
    parse_lowered_duration(lowered.as_str())
}

/// Parses the length of a warmup: a duration, or `0` for none.
pub fn parse_warmup(s: &str) -> (r: Result<Duration, String>)
    ensures
        trimmed(s@) == "0"@ ==> duration_result(r) == Ok::<nat, Seq<char>>(0),
        trimmed(s@) != "0"@ ==> {
            &&& trimmed(s@).len() == 0 ==> duration_result(r) == Err::<nat, _>(
                "Duration string empty"@,
            )
            &&& trimmed(s@).len() > 0 ==> duration_result(r) == lowered_duration(
                lowercase(trimmed(s@)),
            )
            &&& is_ascii_chars(trimmed(s@)) ==> duration_result(r) == folded_duration(
                ascii_lowered(trimmed(s@)),
            )
        },
{
    let bare = trim(s).to_owned();
    let zero = "0".to_owned();
    if bare == zero {
        Ok(Duration::from_secs(0))
    } else {
        parse_duration(s)
    }
}

/// The rate, or the error, that a rate in lower case and without space around
/// it stands for: a number, or a number of thousands before `k`.
pub open spec fn lowered_rate(s: Seq<char>) -> Result<u64, Seq<char>> {
    if s.len() > 0 && s.last() == 'k' {
        let number = trimmed(s.drop_last());
        match u64_value(number) {
            Some(n) => Ok(saturated(n as nat * 1000) as u64),
            None => Err("Invalid rate number: '"@ + number + "'"@),
        }
    } else {
        match u64_value(s) {
            Some(n) => Ok(n),
            None => Err("Invalid rate number: '"@ + s + "'"@),
        }
    }
}

/// A rate as it is, an error as its text.
pub open spec fn rate_result(r: Result<u64, String>) -> Result<u64, Seq<char>> {
    match r {
        Ok(n) => Ok(n),
        Err(e) => Err(e@),
    }
}

/// The text for a rate that is not a number.
fn invalid_rate(number: &str) -> (r: String)
    ensures
        r@ == "Invalid rate number: '"@ + number@ + "'"@,
{
    let mut text = "Invalid rate number: '".to_owned();
    text.append(number);
    text.append("'");
    text
}

/// Parses a rate that is in lower case and has no space around it.
pub fn parse_lowered_rate(s: &str) -> (r: Result<u64, String>)
    ensures
        rate_result(r) == lowered_rate(s@),
{
    let len: usize = s.unicode_len();
    if len > 0 && s.get_char(len - 1) == 'k' {
        assert(s@.drop_last() =~= s@.subrange(0, len - 1));
        let number = trim(s.substring_char(0, len - 1));
        return match parse_u64(number) {
            Some(n) => Ok(saturating_product(n, 1000)),
            None => Err(invalid_rate(number)),
        };
    }
    match parse_u64(s) {
        Some(n) => Ok(n),
        None => Err(invalid_rate(s)),
    }
}

/// Parses a rate such as `1000` or `10k`, in either case and with space
/// around it and before the `k`.
pub fn parse_rate(s: &str) -> (r: Result<u64, String>)
    ensures
        trimmed(s@).len() == 0 ==> rate_result(r) == Err::<u64, _>("Empty rate string"@),
        trimmed(s@).len() > 0 ==> rate_result(r) == lowered_rate(lowercase(trimmed(s@))),
        trimmed(s@).len() > 0 && is_ascii_chars(trimmed(s@)) ==> rate_result(r) == lowered_rate(
            ascii_lowered(trimmed(s@)),
        ),
{
    let s = trim(s);
    if s.is_empty() {
        return Err("Empty rate string".to_owned());
    }
    let lowered = to_lowercase(s);
    parse_lowered_rate(lowered.as_str())
}

/// What an escape sequence `\x` stands for, given the up to two characters
/// that follow it.
pub open spec fn hex_escape(digits: Seq<char>) -> Seq<char> {
    if digits.len() == 2 && hex_byte_value(digits[0], digits[1]).is_some() {
        seq![hex_byte_value(digits[0], digits[1]).unwrap() as char]
    } else {
        seq!['\\', 'x'] + digits
    }
}

/// The character that a one letter escape sequence stands for.
pub open spec fn letter_escape(c: char) -> Option<char> {
    if c == 'n' {
        Some('\n')
    } else if c == 'r' {
        Some('\r')
    } else if c == 't' {
        Some('\t')
    } else if c == '\\' {
        Some('\\')
    } else if c == '0' {
        Some('\0')
    } else {
        None
    }
}

/// `s` with its escape sequences replaced, from left to right. A sequence
/// that is not known stays as it is.
pub open spec fn unescaped(s: Seq<char>) -> Seq<char>
    decreases s.len(),
{
    if s.len() == 0 {
        seq![]
    } else if s[0] != '\\' {
        seq![s[0]] + unescaped(s.skip(1))
    } else if s.len() == 1 {
        seq!['\\']
    } else if s[1] == 'x' {
        let end: int = if s.len() < 4 {
            s.len() as int
        } else {
            4
        };
        hex_escape(s.subrange(2, end)) + unescaped(s.skip(end))
    } else {
        match letter_escape(s[1]) {
            Some(c) => seq![c] + unescaped(s.skip(2)),
            None => seq!['\\', s[1]] + unescaped(s.skip(2)),
        }
    }
}

/// Replaces the escape sequences `\n`, `\r`, `\t`, `\\`, `\0` and `\xHH`.
pub fn unescape_string(s: &str) -> (r: String)
    ensures
        r@ == unescaped(s@),
{
    let chars = chars_of(s);
    let mut result = String::new();
    let mut i: usize = 0;
    assert(s@.skip(0) =~= s@);
    assert(result@ + unescaped(s@.skip(0)) =~= unescaped(s@));
    while i < chars.len()
        invariant
            i <= chars.len(),
            chars@ == s@,
            result@ + unescaped(s@.skip(i as int)) == unescaped(s@),
        decreases chars.len() - i,
    {
        let ghost before = result@;
        let ghost rest = s@.skip(i as int);
        let c = chars[i];
        if c != '\\' {
            result.push(c);
            i = i + 1;
            assert(rest.skip(1) =~= s@.skip(i as int));
            assert(result@ + unescaped(s@.skip(i as int)) =~= before + unescaped(rest));
        } else if chars.len() - i == 1 {
            result.push('\\');
            i = i + 1;
            assert(s@.skip(i as int) =~= seq![]);
            assert(result@ + unescaped(s@.skip(i as int)) =~= before + unescaped(rest));
        } else {
            let letter = chars[i + 1];
            if letter == 'x' {
                let left: usize = chars.len() - i - 2;
                let taken: usize = if left < 2 { left } else { 2 };
                let ghost digits = rest.subrange(2, taken + 2);
                let byte: Option<u8> = if taken == 2 {
                    hex_byte(chars[i + 2], chars[i + 3])
                } else {
                    None
                };
                match byte {
                    Some(b) => {
                        result.push(b as char);
                        assert(result@ =~= before + hex_escape(digits));
                    },
                    None => {
                        result.append("\\x");
                        let mut k: usize = 0;
                        proof {
                            reveal_strlit("\\x");
                        }
                        assert(result@ =~= before + (seq!['\\', 'x'] + digits.take(0)));
                        while k < taken
                            invariant
                                k <= taken <= 2,
                                i + 2 + taken <= chars.len(),
                                chars@ == s@,
                                digits.len() == taken,
                                digits == s@.skip(i as int).subrange(2, taken + 2),
                                result@ == before + (seq!['\\', 'x'] + digits.take(k as int)),
                            decreases taken - k,
                        {
                            result.push(chars[i + 2 + k]);
                            assert(digits[k as int] == s@[i + 2 + k]);
                            k = k + 1;
                            assert(result@ =~= before + (seq!['\\', 'x'] + digits.take(k as int)));
                        }
                        assert(digits.take(taken as int) =~= digits);
                        assert(result@ == before + hex_escape(digits));
                    },
                }
                i = i + 2 + taken;
                assert(rest.skip(taken + 2) =~= s@.skip(i as int));
                assert(result@ + unescaped(s@.skip(i as int)) =~= before + unescaped(rest));
            } else {
                if letter == 'n' {
                    result.push('\n');
                } else if letter == 'r' {
                    result.push('\r');
                } else if letter == 't' {
                    result.push('\t');
                } else if letter == '\\' {
                    result.push('\\');
                } else if letter == '0' {
                    result.push('\0');
                } else {
                    result.push('\\');
                    result.push(letter);
                }
                i = i + 2;
                assert(rest.skip(2) =~= s@.skip(i as int));
                assert(result@ + unescaped(s@.skip(i as int)) =~= before + unescaped(rest));
            }
        }
    }
    assert(s@.skip(i as int) =~= seq![]);
    assert(result@ =~= unescaped(s@));
    result
}

/// Seconds and nanoseconds from the Unix epoch to the present reading of the
/// system clock; `None` where the clock stands before the epoch.
///
/// Trusted: `SystemTime::elapsed` of `UNIX_EPOCH`. What it returns depends on
/// the clock; the nanoseconds beyond the whole seconds are below one second.
#[verifier::external_body]
fn since_unix_epoch() -> (r: Option<(u64, u32)>)
    ensures
        r matches Some(reading) ==> reading.1 < NANOS_PER_SEC,
{
    std::time::UNIX_EPOCH.elapsed().ok().map(|d| (d.as_secs(), d.subsec_nanos()))
}

/// The span in nanoseconds of a reading in seconds and nanoseconds.
pub open spec fn span_of(reading: Option<(u64, u32)>) -> Option<nat> {
    match reading {
        Some(parts) => Some(parts.0 as nat * NANOS_PER_SEC as nat + parts.1 as nat),
        None => None,
    }
}

/// Milliseconds of a reading, in 64 bits.
pub open spec fn millis_of(reading: Option<(u64, u32)>) -> Option<u64> {
    match span_of(reading) {
        Some(span) => Some(((span / 1_000_000) % 0x1_0000_0000_0000_0000) as u64),
        None => None,
    }
}

/// Whole seconds of a reading; zero where there is none.
pub open spec fn secs_of(reading: Option<(u64, u32)>) -> u64 {
    match reading {
        Some(parts) => parts.0,
        None => 0,
    }
}

/// The whole seconds of what the clock gave are its seconds.
proof fn lemma_seconds_of_span(reading: Option<(u64, u32)>)
    requires
        clock_gave(reading),
    ensures
        match span_of(reading) {
            Some(span) => span / NANOS_PER_SEC as nat == secs_of(reading),
            None => secs_of(reading) == 0,
        },
{
    if let Some(parts) = reading {
        assert(parts.1 < NANOS_PER_SEC);
    }
}

/// A reading of the system clock, in seconds and nanoseconds below one second,
/// as a span of time.
pub fn epoch_span(reading: Option<(u64, u32)>) -> (r: Option<Duration>)
    requires
        reading matches Some(parts) ==> parts.1 < NANOS_PER_SEC,
    ensures
        span_of(reading) == (match r {
            Some(span) => Some(span@),
            None => None,
        }),
{
    match reading {
        Some(parts) => Some(Duration::new(parts.0, parts.1)),
        None => None,
    }
}

/// Milliseconds of a reading of the system clock, in 64 bits.
pub fn epoch_millis(since_epoch: Option<Duration>) -> (r: Option<u64>)
    ensures
        r.is_some() == since_epoch.is_some(),
        r matches Some(millis) ==> millis as nat == (since_epoch.unwrap()@ / 1_000_000)
            % 0x1_0000_0000_0000_0000,
{
    match since_epoch {
        Some(reading) => Some(reading.as_millis_u64()),
        None => None,
    }
}

/// Whole seconds of a reading of the system clock; zero where there is none.
pub fn epoch_secs(since_epoch: Option<Duration>) -> (r: u64)
    ensures
        r as nat == match since_epoch {
            Some(reading) => reading@ / NANOS_PER_SEC as nat,
            None => 0,
        },
{
    match since_epoch {
        Some(reading) => reading.as_secs(),
        None => 0,
    }
}

/// The reading is one that the system clock gave.
pub closed spec fn clock_gave(reading: Option<(u64, u32)>) -> bool {
    call_ensures(since_unix_epoch, (), reading)
}

/// The time from the Unix epoch to the present reading of the system clock;
/// `None` where the clock stands before the epoch.
fn clock_reading() -> (r: Option<Duration>)
    ensures
        exists|reading: Option<(u64, u32)>| #[trigger]
            clock_gave(reading) && span_of(reading) == (match r {
                Some(span) => Some(span@),
                None => None,
            }),
{
    let reading = since_unix_epoch();
    assert(clock_gave(reading));
    epoch_span(reading)
}

/// Milliseconds from the Unix epoch to now; `None` where the system clock
/// stands before the epoch.
pub fn unix_timestamp_millis() -> (r: Option<u64>)
    ensures
        exists|reading: Option<(u64, u32)>| #[trigger]
            clock_gave(reading) && r == millis_of(reading),
{
    epoch_millis(clock_reading())
}

/// Whole seconds from the Unix epoch to now; zero where the system clock
/// stands before the epoch.
pub fn unix_timestamp_secs() -> (r: u64)
    ensures
        exists|reading: Option<(u64, u32)>| #[trigger]
            clock_gave(reading) && r == secs_of(reading),
{
    let reading = clock_reading();
    proof {
        let gave = choose|gave: Option<(u64, u32)>| #[trigger]
            clock_gave(gave) && span_of(gave) == (match reading {
                Some(span) => Some(span@),
                None => None,
            });
        lemma_seconds_of_span(gave);
    }
    epoch_secs(reading)
}

/// A text without backslashes holds no escape sequences.
pub proof fn unescape_keeps_plain_text(s: Seq<char>)
    requires
        !s.contains('\\'),
    ensures
        unescaped(s) == s,
    decreases s.len(),
{
    if s.len() > 0 {
        assert(s[0] != '\\') by {
            if s[0] == '\\' {
                assert(s.contains(s[0]));
            }
        }
        let rest = s.skip(1);
        assert(!rest.contains('\\')) by {
            if rest.contains('\\') {
                let i = choose|i: int| 0 <= i < rest.len() && rest[i] == '\\';
                assert(s[i + 1] == '\\');
                assert(s.contains(s[i + 1]));
            }
        }
        unescape_keeps_plain_text(rest);
        assert(seq![s[0]] + rest =~= s);
    }
}

/// The letter of the escape sequence for a character that needs one.
pub open spec fn escape_letter(c: char) -> Option<char> {
    if c == '\n' {
        Some('n')
    } else if c == '\r' {
        Some('r')
    } else if c == '\t' {
        Some('t')
    } else if c == '\\' {
        Some('\\')
    } else if c == '\0' {
        Some('0')
    } else {
        None
    }
}

/// `s` with escape sequences for its backslashes, line ends, tabs and zeros.
pub open spec fn escaped(s: Seq<char>) -> Seq<char>
    decreases s.len(),
{
    if s.len() == 0 {
        seq![]
    } else {
        (match escape_letter(s[0]) {
            Some(letter) => seq!['\\', letter],
            None => seq![s[0]],
        }) + escaped(s.skip(1))
    }
}

/// Replacing the escape sequences of an escaped text gives the text back.
pub proof fn unescape_inverts_escape(s: Seq<char>)
    ensures
        unescaped(escaped(s)) == s,
    decreases s.len(),
{
    if s.len() > 0 {
        let rest = s.skip(1);
        unescape_inverts_escape(rest);
        let text = escaped(s);
        match escape_letter(s[0]) {
            Some(letter) => {
                assert(text.skip(2) =~= escaped(rest));
                assert(text[0] == '\\' && text[1] == letter);
                assert(letter_escape(letter) == Some(s[0]));
                assert(unescaped(text) == seq![s[0]] + rest);
            },
            None => {
                assert(text.skip(1) =~= escaped(rest));
                assert(text[0] == s[0]);
                assert(unescaped(text) == seq![s[0]] + rest);
            },
        }
        assert(seq![s[0]] + rest =~= s);
    }
}

/// The digits of a number have no white space around them.
proof fn lemma_decimal_is_trimmed(n: nat)
    ensures
        trimmed(decimal(n)) == decimal(n),
        decimal(n).len() > 0,
        forall|i: int| 0 <= i < decimal(n).len() ==> is_digit(#[trigger] decimal(n)[i]),
{
    decimal_is_digits(n);
    let s = decimal(n);
    assert(is_digit(s[0]));
    assert(is_digit(s[s.len() - 1]));
}

/// A text of digits and lower case letters is not changed by trimming and
/// folding.
proof fn lemma_digits_and_letters_are_folded(s: Seq<char>)
    requires
        s.len() > 0,
        forall|i: int| 0 <= i < s.len() ==> is_digit(#[trigger] s[i]) || 'a' <= s[i] <= 'z',
    ensures
        trimmed(s) == s,
        is_ascii_chars(s),
        ascii_lowered(s) == s,
{
    assert(is_digit(s[0]) || 'a' <= s[0] <= 'z');
    assert(is_digit(s[s.len() - 1]) || 'a' <= s[s.len() - 1] <= 'z');
    assert forall|i: int| 0 <= i < s.len() implies ascii_lower(#[trigger] s[i]) == s[i] by {
        assert(is_digit(s[i]) || 'a' <= s[i] <= 'z');
    }
    assert(ascii_lowered(s) =~= s);
}

/// A text that ends in a character that is no unit, of however many bytes, is
/// an error.
pub proof fn unknown_unit_is_an_error(s: Seq<char>)
    requires
        s.len() > 0,
        unit_seconds(s.last()) is None,
    ensures
        lowered_duration(s) is Err,
{
}

/// A number before `s`, `m`, `h` or `d` is that many seconds, minutes, hours
/// or days, up to the largest number of seconds.
pub proof fn duration_of_number_and_unit(n: u64, unit: char)
    requires
        unit_seconds(unit).is_some(),
    ensures
        ({
            let s = decimal(n as nat).push(unit);
            &&& is_ascii_chars(trimmed(s))
            &&& folded_duration(ascii_lowered(trimmed(s))) == Ok::<nat, Seq<char>>(
                saturated(n as nat * unit_seconds(unit).unwrap()) * NANOS_PER_SEC as nat,
            )
        }),
{
    lemma_decimal_is_trimmed(n as nat);
    decimal_reads_back(n);
    let s = decimal(n as nat).push(unit);
    assert(s.drop_last() =~= decimal(n as nat));
    assert forall|i: int| 0 <= i < s.len() implies is_digit(#[trigger] s[i]) || 'a' <= s[i]
        <= 'z' by {
        if i < s.len() - 1 {
            assert(is_digit(decimal(n as nat)[i]));
        }
    }
    lemma_digits_and_letters_are_folded(s);
    assert(is_digit(s[s.len() - 2]));
}

/// A number before `ms` is that many milliseconds.
pub proof fn duration_of_number_and_ms(n: u64)
    ensures
        ({
            let s = decimal(n as nat) + seq!['m', 's'];
            &&& is_ascii_chars(trimmed(s))
            &&& folded_duration(ascii_lowered(trimmed(s))) == Ok::<nat, Seq<char>>(
                n as nat * 1_000_000,
            )
        }),
{
    lemma_decimal_is_trimmed(n as nat);
    decimal_reads_back(n);
    let s = decimal(n as nat) + seq!['m', 's'];
    assert(s.take(s.len() - 2) =~= decimal(n as nat));
    assert forall|i: int| 0 <= i < s.len() implies is_digit(#[trigger] s[i]) || 'a' <= s[i]
        <= 'z' by {
        if i < s.len() - 2 {
            assert(is_digit(decimal(n as nat)[i]));
        }
    }
    lemma_digits_and_letters_are_folded(s);
}

/// A number is a rate, and a number before `k` is a rate of thousands, up to
/// the largest number.
pub proof fn rate_of_number(n: u64)
    ensures
        ({
            let s = decimal(n as nat);
            &&& trimmed(s).len() > 0
            &&& is_ascii_chars(trimmed(s))
            &&& lowered_rate(ascii_lowered(trimmed(s))) == Ok::<u64, Seq<char>>(n)
        }),
        ({
            let s = decimal(n as nat).push('k');
            &&& trimmed(s).len() > 0
            &&& is_ascii_chars(trimmed(s))
            &&& lowered_rate(ascii_lowered(trimmed(s))) == Ok::<u64, Seq<char>>(
                saturated(n as nat * 1000) as u64,
            )
        }),
{
    lemma_decimal_is_trimmed(n as nat);
    decimal_reads_back(n);
    let s = decimal(n as nat);
    assert(is_digit(s[s.len() - 1]));
    assert(s.push('k').drop_last() =~= s);
    assert forall|i: int| 0 <= i < s.push('k').len() implies is_digit(#[trigger] s.push('k')[i])
        || 'a' <= s.push('k')[i] <= 'z' by {
        if i < s.len() {
            assert(is_digit(s[i]));
        }
    }
    lemma_digits_and_letters_are_folded(s);
    lemma_digits_and_letters_are_folded(s.push('k'));
}

} // verus!
