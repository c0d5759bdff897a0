//! What the texts that a user gives stand for: escape sequences, lengths of
//! time, rates, messages and settings.

use bytes::Bytes;
use vstd::prelude::*;
use vstd::string::*;
use vstd::utf8::encode_utf8;

use crate::command::{carries, config_complaint, given_message, Args, Config};
use crate::message::{bytes_of, held, is_alphanumeric, message_bytes};
use crate::text::{decimal, decimal_is_digits, decimal_reads_back, is_digit, trimmed, u64_value};
use crate::text_laws::{hex_digits_have_values, is_blank, trimming_forgets_white_space};
use crate::time::Duration;
use crate::utils::{
    ascii_lowered, duration_result, folded_duration, lowered_duration, lowered_rate, millis_of,
    rate_result, secs_of, span_of, unescaped,
};

verus! {

/// The character is the digit for a value below sixteen, in either case.
pub open spec fn writes(c: char, value: int) -> bool {
    if value < 10 {
        c as int == '0' as int + value
    } else {
        c as int == 'a' as int + value - 10 || c as int == 'A' as int + value - 10
    }
}

/// The character is one of the sixteen digits, in either case.
pub open spec fn is_hex(c: char) -> bool {
    '0' <= c <= '9' || 'a' <= c <= 'f' || 'A' <= c <= 'F'
}

proof fn lemma_behind(start: Seq<char>, rest: Seq<char>)
    ensures
        (start + rest).skip(start.len() as int) == rest,
{
    assert((start + rest).skip(start.len() as int) =~= rest);
}

/// Behind `\x`, two digits of either case become the character with the number
/// that they write in base sixteen, whatever follows.
pub proof fn hex_sequence_becomes_its_character(b: u8, h: char, l: char, rest: Seq<char>)
    requires
        writes(h, b as int / 16),
        writes(l, b as int % 16),
    ensures
        unescaped(seq!['\\', 'x', h, l] + rest) == seq![b as char] + unescaped(rest),
{
    let s = seq!['\\', 'x', h, l] + rest;
    lemma_behind(seq!['\\', 'x', h, l], rest);
    hex_digits_have_values(h);
    hex_digits_have_values(l);
    assert(s.subrange(2, 4) =~= seq![h, l]);
    assert(s.skip(4) == rest);
}

/// Behind `\x`, a plus sign and one digit become the character with the number
/// of the digit.
pub proof fn signed_hex_sequence_becomes_its_character(b: u8, l: char, rest: Seq<char>)
    requires
        b < 16,
        writes(l, b as int),
    ensures
        unescaped(seq!['\\', 'x', '+', l] + rest) == seq![b as char] + unescaped(rest),
{
    let s = seq!['\\', 'x', '+', l] + rest;
    lemma_behind(seq!['\\', 'x', '+', l], rest);
    hex_digits_have_values(l);
    assert(s.subrange(2, 4) =~= seq!['+', l]);
    assert(s.skip(4) == rest);
}

/// Two characters behind `\x` that are not two digits stay as they are, and so
/// does the `\x` before them.
pub proof fn other_hex_sequence_stays(h: char, l: char, rest: Seq<char>)
    requires
        !is_hex(l) || !(is_hex(h) || h == '+'),
    ensures
        unescaped(seq!['\\', 'x', h, l] + rest) == seq!['\\', 'x', h, l] + unescaped(rest),
{
    let s = seq!['\\', 'x', h, l] + rest;
    lemma_behind(seq!['\\', 'x', h, l], rest);
    hex_digits_have_values(h);
    hex_digits_have_values(l);
    assert(s.subrange(2, 4) =~= seq![h, l]);
    assert(s.skip(4) == rest);
    assert(seq!['\\', 'x'] + seq![h, l] =~= seq!['\\', 'x', h, l]);
}

/// An `\x` with one character behind it, or none, stays as it is; and so does
/// a backslash at the end.
pub proof fn unfinished_sequence_stays(c: char)
    ensures
        unescaped(seq!['\\', 'x', c]) == seq!['\\', 'x', c],
        unescaped(seq!['\\', 'x']) == seq!['\\', 'x'],
        unescaped(seq!['\\']) == seq!['\\'],
        unescaped(seq![]) == Seq::<char>::empty(),
{
    let one = seq!['\\', 'x', c];
    assert(one.subrange(2, 3) =~= seq![c]);
    assert(one.skip(3) =~= seq![]);
    let none = seq!['\\', 'x'];
    assert(none.subrange(2, 2) =~= seq![]);
    assert(none.skip(2) =~= seq![]);
    reveal_with_fuel(unescaped, 2);
    assert(unescaped(seq![]) =~= Seq::<char>::empty());
    assert(unescaped(one) =~= seq!['\\', 'x', c]);
    assert(unescaped(none) =~= seq!['\\', 'x']);
}

/// A line feed, a carriage return, a tab, a backslash and a zero are written
/// with one letter behind a backslash; any other letter but `x` stays, with
/// its backslash. Whatever follows is replaced on its own.
pub proof fn letter_sequence_becomes_its_character(c: char, rest: Seq<char>)
    ensures
        unescaped(seq!['\\', 'n'] + rest) == seq!['\n'] + unescaped(rest),
        unescaped(seq!['\\', 'r'] + rest) == seq!['\r'] + unescaped(rest),
        unescaped(seq!['\\', 't'] + rest) == seq!['\t'] + unescaped(rest),
        unescaped(seq!['\\', '\\'] + rest) == seq!['\\'] + unescaped(rest),
        unescaped(seq!['\\', '0'] + rest) == seq!['\0'] + unescaped(rest),
        c != 'n' && c != 'r' && c != 't' && c != '\\' && c != '0' && c != 'x' ==> unescaped(
            seq!['\\', c] + rest,
        ) == seq!['\\', c] + unescaped(rest),
{
    lemma_behind(seq!['\\', 'n'], rest);
    lemma_behind(seq!['\\', 'r'], rest);
    lemma_behind(seq!['\\', 't'], rest);
    lemma_behind(seq!['\\', '\\'], rest);
    lemma_behind(seq!['\\', '0'], rest);
    lemma_behind(seq!['\\', c], rest);
    assert((seq!['\\', 'n'] + rest).skip(2) == rest);
    assert((seq!['\\', 'r'] + rest).skip(2) == rest);
    assert((seq!['\\', 't'] + rest).skip(2) == rest);
    assert((seq!['\\', '\\'] + rest).skip(2) == rest);
    assert((seq!['\\', '0'] + rest).skip(2) == rest);
    assert((seq!['\\', c] + rest).skip(2) == rest);
}

/// A character that is no backslash stays, and whatever follows is replaced on
/// its own.
pub proof fn plain_character_stays(c: char, rest: Seq<char>)
    requires
        c != '\\',
    ensures
        unescaped(seq![c] + rest) == seq![c] + unescaped(rest),
{
    lemma_behind(seq![c], rest);
    assert((seq![c] + rest).skip(1) == rest);
}

/// Seconds in each of the units of time.
pub open spec fn lasts(unit: char, seconds: nat) -> bool {
    ||| unit == 's' && seconds == 1
    ||| unit == 'm' && seconds == 60
    ||| unit == 'h' && seconds == 60 * 60
    ||| unit == 'd' && seconds == 24 * 60 * 60
}

proof fn lemma_number_with_space(n: u64, gap: Seq<char>)
    requires
        is_blank(gap),
    ensures
        u64_value(trimmed(decimal(n as nat) + gap)) == Some(n),
        decimal(n as nat).len() > 0,
        is_digit(decimal(n as nat)[0]),
        is_digit(decimal(n as nat).last()),
{
    let d = decimal(n as nat);
    let none: Seq<char> = seq![];
    decimal_is_digits(n as nat);
    assert(is_digit(d[0]) && is_digit(d[d.len() - 1]));
    assert(none + d + gap =~= d + gap);
    trimming_forgets_white_space(none, d, gap);
    decimal_reads_back(n);
}

/// A number, white space or none, and a unit are so many seconds, minutes,
/// hours or days; beyond the largest number of seconds, that number.
pub proof fn duration_counts_its_unit(n: u64, gap: Seq<char>, unit: char, seconds: nat)
    requires
        is_blank(gap),
        lasts(unit, seconds),
    ensures
        lowered_duration(decimal(n as nat) + gap + seq![unit]) == Ok::<nat, Seq<char>>(
            if n * seconds <= 0xFFFF_FFFF_FFFF_FFFF {
                (n * seconds * 1_000_000_000) as nat
            } else {
                (0xFFFF_FFFF_FFFF_FFFF * 1_000_000_000) as nat
            },
        ),
{
    let before = decimal(n as nat) + gap;
    let s = before + seq![unit];
    lemma_number_with_space(n, gap);
    assert(s.drop_last() =~= before);
    assert(s[s.len() - 2] == before.last());
    if gap.len() > 0 {
        assert(crate::text::is_white_space(gap[gap.len() - 1]));
        assert(before.last() == gap[gap.len() - 1]);
    } else {
        assert(before.last() == decimal(n as nat).last());
    }
    assert(n * seconds >= 0) by (nonlinear_arith);
}

/// A number, white space or none, and `ms` are so many thousandths of a second.
pub proof fn duration_counts_milliseconds(n: u64, gap: Seq<char>)
    requires
        is_blank(gap),
    ensures
        lowered_duration(decimal(n as nat) + gap + seq!['m', 's']) == Ok::<nat, Seq<char>>(
            (n * 1_000_000) as nat,
        ),
{
    let before = decimal(n as nat) + gap;
    let s = before + seq!['m', 's'];
    lemma_number_with_space(n, gap);
    assert(s.take(s.len() - 2) =~= before);
}

/// What is wrong with a length of time is said: that there is none, that it is
/// too short to hold a number and a unit, that the number is none, or that the
/// unit is none.
pub proof fn wrong_durations_are_told_apart(before: Seq<char>, unit: char)
    requires
        before.len() > 0,
    ensures
        folded_duration(seq![]) == Err::<nat, Seq<char>>("Duration string empty"@),
        folded_duration(before) == lowered_duration(before),
        lowered_duration(seq![unit]) == Err::<nat, Seq<char>>("Duration string too short"@),
        unit != 's' && u64_value(trimmed(before)) is None ==> lowered_duration(before.push(unit))
            == Err::<nat, Seq<char>>("Invalid duration number"@),
        before.last() != 'm' && u64_value(trimmed(before)) is None ==> lowered_duration(
            before.push(unit),
        ) == Err::<nat, Seq<char>>("Invalid duration number"@),
        u64_value(trimmed(before)) is None ==> lowered_duration(before + seq!['m', 's']) == Err::<
            nat,
            Seq<char>,
        >("Invalid duration number"@),
        u64_value(trimmed(before)) is Some && unit != 's' && unit != 'm' && unit != 'h' && unit
            != 'd' ==> lowered_duration(before.push(unit)) == Err::<nat, Seq<char>>(
            "Invalid duration unit"@,
        ),
        lowered_duration(seq!['m', 's']) == Err::<nat, Seq<char>>("Invalid duration number"@),
{
    assert(before.push(unit).drop_last() =~= before);
    let ms = before + seq!['m', 's'];
    assert(ms.take(ms.len() - 2) =~= before);
    assert(seq!['m', 's'].take(0) =~= seq![]);
    assert(trimmed(seq![]) == Seq::<char>::empty());
}

/// Capitals of ASCII are read as small letters, one for one, and nothing else
/// is changed.
pub proof fn capitals_are_read_as_small_letters(s: Seq<char>, i: int)
    requires
        0 <= i < s.len(),
    ensures
        ascii_lowered(s).len() == s.len(),
        'A' <= s[i] <= 'Z' ==> ascii_lowered(s)[i] as int == s[i] as int + 32,
        !('A' <= s[i] <= 'Z') ==> ascii_lowered(s)[i] == s[i],
{
}

/// A number is a rate as it stands; before `k`, with white space between or
/// none, it counts thousands, up to the largest number.
pub proof fn rate_counts_thousands(n: u64, gap: Seq<char>)
    requires
        is_blank(gap),
    ensures
        lowered_rate(decimal(n as nat)) == Ok::<u64, Seq<char>>(n),
        lowered_rate(decimal(n as nat) + gap + seq!['k']) == Ok::<u64, Seq<char>>(
            if n * 1000 <= 0xFFFF_FFFF_FFFF_FFFF {
                (n * 1000) as u64
            } else {
                0xFFFF_FFFF_FFFF_FFFF
            },
        ),
{
    let before = decimal(n as nat) + gap;
    lemma_number_with_space(n, gap);
    decimal_reads_back(n);
    assert((before + seq!['k']).drop_last() =~= before);
}

/// A rate that is no number is quoted in the complaint, without the `k` and the
/// white space before it.
pub proof fn wrong_rates_are_quoted(s: Seq<char>)
    ensures
        (s.len() == 0 || s.last() != 'k') && u64_value(s) is None ==> lowered_rate(s) == Err::<
            u64,
            Seq<char>,
        >("Invalid rate number: '"@ + s + "'"@),
        u64_value(trimmed(s)) is None ==> lowered_rate(s.push('k')) == Err::<u64, Seq<char>>(
            "Invalid rate number: '"@ + trimmed(s) + "'"@,
        ),
{
    assert(s.push('k').drop_last() =~= s);
}

/// A reading of the clock is so many seconds, and a thousand times as many
/// milliseconds with those beyond the whole seconds.
pub proof fn clock_is_read_in_seconds_and_milliseconds(secs: u64, nanos: u32)
    requires
        nanos < 1_000_000_000,
        secs * 1000 + 999 <= u64::MAX,
    ensures
        secs_of(Some((secs, nanos))) == secs,
        secs_of(None) == 0,
        millis_of(None) is None,
        millis_of(Some((secs, nanos))) == Some((secs * 1000 + nanos / 1_000_000) as u64),
{
}

/// The bytes of a message are those of its text in UTF-8, with the escape
/// sequences replaced if that is asked for and only then.
pub proof fn message_is_its_text(text: Seq<char>)
    ensures
        message_bytes(text, false) == encode_utf8(text),
        message_bytes(text, true) == encode_utf8(unescaped(text)),
{
}

/// A message that is given as an argument comes before one that is read from a
/// file.
pub proof fn argument_comes_before_file(text: String, content: Option<String>, unescape: bool)
    ensures
        given_message(Some(text), content, unescape) == Some(message_bytes(text@, unescape)),
        given_message(None, Some(text), unescape) == Some(message_bytes(text@, unescape)),
        given_message(None, None, unescape) is None,
{
}

/// A random payload holds the digits and the letters of both cases and no other
/// byte.
pub proof fn payload_is_letters_and_digits(b: u8)
    ensures
        is_alphanumeric(b) <==> ('0' as u8 <= b <= '9' as u8) || ('A' as u8 <= b <= 'Z' as u8) || (
        'a' as u8 <= b <= 'z' as u8),
{
}

/// A configuration has each of the arguments.
pub proof fn configuration_has_the_arguments(config: Config, args: Args)
    requires
        carries(config, args),
    ensures
        config.duration == args.duration,
        config.warmup_duration == args.warmup,
        config.message_size == args.message_size,
        config.quiet == args.quiet,
        config.nagle == args.nagle,
        config.pipeline == args.pipeline,
        config.connections == args.connections,
        config.connect_rate == args.connect_rate,
        config.connect_timeout == args.connect_timeout,
        config.channel_lifetime == args.channel_lifetime,
        config.message_rate == args.message_rate,
        config.use_websocket == args.websocket,
{
}

/// Arguments are complained about where there is no connection to make, or
/// where the timeout, the test or the life of the connections has no length,
/// and for nothing else; the first of these is named.
pub proof fn only_useless_arguments_are_complained_about(args: Args)
    ensures
        config_complaint(args) is None <==> {
            &&& args.connections > 0
            &&& args.connect_timeout@ > 0
            &&& args.duration@ > 0
            &&& args.channel_lifetime matches Some(lifetime) ==> lifetime@ > 0
        },
        args.connections == 0 ==> config_complaint(args) == Some(
            "connections must be greater than 0"@,
        ),
        args.connections > 0 && args.connect_timeout@ == 0 ==> config_complaint(args) == Some(
            "connect-timeout must be greater than 0"@,
        ),
        args.connections > 0 && args.connect_timeout@ > 0 && args.duration@ == 0
            ==> config_complaint(args) == Some("duration must be greater than 0"@),
        args.connections > 0 && args.connect_timeout@ > 0 && args.duration@ > 0 ==> (
        args.channel_lifetime matches Some(lifetime) ==> (lifetime@ == 0 ==> config_complaint(args)
            == Some("channel-lifetime must be greater than 0 if specified"@))),
{
}

/// What was parsed is handed on as it is: a length of time in nanoseconds, a
/// rate as its number, a buffer as its bytes, and an error as its words.
pub proof fn results_are_as_they_are(d: Duration, n: u64, e: String, b: Bytes)
    ensures
        duration_result(Ok(d)) == Ok::<nat, Seq<char>>(d@),
        duration_result(Err(e)) == Err::<nat, Seq<char>>(e@),
        rate_result(Ok(n)) == Ok::<u64, Seq<char>>(n),
        rate_result(Err(e)) == Err::<u64, Seq<char>>(e@),
        held(Some(b)) == Some(bytes_of(b)),
        held(None) is None,
{
}

/// A reading of the clock in seconds and nanoseconds is a span of nanoseconds.
pub proof fn clock_is_read_in_nanoseconds(secs: u64, nanos: u32)
    ensures
        span_of(Some((secs, nanos))) == Some((secs * 1_000_000_000 + nanos) as nat),
        span_of(None) is None,
{
}

} // verus!
