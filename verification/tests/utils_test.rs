//! Durations, rates, escape sequences and the wall clock.

use tcpkali2::time::Duration;
use tcpkali2::utils::{
    epoch_millis, epoch_secs, epoch_span, parse_duration, parse_lowered_duration,
    parse_lowered_rate, parse_rate, parse_warmup, unescape_string,
    unix_timestamp_millis, unix_timestamp_secs,
};

#[test]
fn durations_of_every_unit() {
    assert_eq!(parse_duration("10s"), Ok(Duration::from_secs(10)));
    assert_eq!(parse_duration("100ms"), Ok(Duration::from_millis(100)));
    assert_eq!(parse_duration("5m"), Ok(Duration::from_secs(300)));
    assert_eq!(parse_duration("2h"), Ok(Duration::from_secs(7200)));
    assert_eq!(parse_duration("3d"), Ok(Duration::from_secs(259_200)));
    assert_eq!(parse_duration("0s"), Ok(Duration::from_secs(0)));
}

#[test]
fn durations_in_capitals_and_with_space() {
    assert_eq!(parse_duration("  10S\n"), Ok(Duration::from_secs(10)));
    assert_eq!(parse_duration("7 MS"), Ok(Duration::from_millis(7)));
    assert_eq!(parse_duration("1\u{3000}h"), Ok(Duration::from_secs(3600)));
    assert_eq!(parse_duration("+4s"), Ok(Duration::from_secs(4)));
}

#[test]
fn durations_stop_at_the_largest_number_of_seconds() {
    let most = Duration::from_secs(u64::MAX);
    assert_eq!(parse_duration("18446744073709551615s"), Ok(most));
    assert_eq!(parse_duration("18446744073709551615m"), Ok(most));
    assert_eq!(parse_duration("18446744073709551615h"), Ok(most));
    assert_eq!(parse_duration("213503982334602d"), Ok(most));
    assert_eq!(
        parse_duration("18446744073709551615ms"),
        Ok(Duration::new(18_446_744_073_709_551, 615_000_000))
    );
}

#[test]
fn durations_that_are_none() {
    let err = |s: &str| parse_duration(s).unwrap_err();
    assert_eq!(err(""), "Duration string empty");
    assert_eq!(err(" \t "), "Duration string empty");
    assert_eq!(err("5"), "Duration string too short");
    assert_eq!(err("s"), "Duration string too short");
    assert_eq!(err("ms"), "Invalid duration number");
    assert_eq!(err(" ms"), "Invalid duration number");
    assert_eq!(err("xs"), "Invalid duration number");
    assert_eq!(err("-1s"), "Invalid duration number");
    assert_eq!(err("1.5s"), "Invalid duration number");
    assert_eq!(err("18446744073709551616s"), "Invalid duration number");
    assert_eq!(err("10x"), "Invalid duration unit");
    assert_eq!(err("100"), "Invalid duration unit");
}

#[test]
fn units_of_several_bytes_are_errors() {
    let err = |s: &str| parse_duration(s).unwrap_err();
    assert_eq!(err("10\u{79D2}"), "Invalid duration unit");
    assert_eq!(err("10\u{3BC}"), "Invalid duration unit");
    assert_eq!(err("x\u{3BC}"), "Invalid duration number");
    assert_eq!(err("\u{E9}"), "Duration string too short");
    assert_eq!(err("\u{FF11}s"), "Invalid duration number");
    // The Kelvin sign is folded to the letter k.
    assert_eq!(err("1\u{212A}"), "Invalid duration unit");
}

#[test]
fn a_bare_zero_is_no_warmup() {
    assert_eq!(parse_warmup("0"), Ok(Duration::from_secs(0)));
    assert_eq!(parse_warmup(" 0 "), Ok(Duration::from_secs(0)));
    assert_eq!(parse_warmup("00"), Err("Invalid duration unit".to_string()));
    assert_eq!(parse_warmup("+0"), Err("Invalid duration number".to_string()));
    assert_eq!(parse_warmup("0s"), Ok(Duration::from_secs(0)));
    assert_eq!(parse_warmup("5s"), Ok(Duration::from_secs(5)));
    assert_eq!(parse_warmup("5"), Err("Duration string too short".to_string()));
    assert_eq!(parse_warmup(""), Err("Duration string empty".to_string()));
}

#[test]
fn durations_that_are_folded_already() {
    assert_eq!(parse_lowered_duration("8ms"), Ok(Duration::from_millis(8)));
    assert_eq!(parse_lowered_duration("8S"), Err("Invalid duration unit".to_string()));
}

#[test]
fn a_number_and_a_unit_are_that_many_units() {
    for n in [0u64, 1, 9, 10, 59, 12_345] {
        for (unit, seconds) in [('s', 1u64), ('m', 60), ('h', 3600), ('d', 86_400)] {
            let text = format!("{}{}", n, unit);
            assert_eq!(parse_duration(&text), Ok(Duration::from_secs(n * seconds)));
        }
        assert_eq!(parse_duration(&format!("{}ms", n)), Ok(Duration::from_millis(n)));
    }
}

#[test]
fn rates() {
    assert_eq!(parse_rate("1000"), Ok(1000));
    assert_eq!(parse_rate("10k"), Ok(10_000));
    assert_eq!(parse_rate(" 2 K "), Ok(2000));
    assert_eq!(parse_rate("0"), Ok(0));
    assert_eq!(parse_rate("+7"), Ok(7));
    assert_eq!(parse_rate("18446744073709551615"), Ok(u64::MAX));
    assert_eq!(parse_rate("18446744073709551615k"), Ok(u64::MAX));
    // The Kelvin sign is folded to the letter k.
    assert_eq!(parse_rate("3\u{212A}"), Ok(3000));
    for n in [0u64, 1, 10, 999, 54_321] {
        assert_eq!(parse_rate(&format!("{}", n)), Ok(n));
        assert_eq!(parse_rate(&format!("{}k", n)), Ok(n * 1000));
    }
}

#[test]
fn rates_that_are_none() {
    let err = |s: &str| parse_rate(s).unwrap_err();
    assert_eq!(err(""), "Empty rate string");
    assert_eq!(err("  "), "Empty rate string");
    assert_eq!(err("k"), "Invalid rate number: ''");
    assert_eq!(err("ABC"), "Invalid rate number: 'abc'");
    assert_eq!(err(" 1x k "), "Invalid rate number: '1x'");
    assert_eq!(err("10m"), "Invalid rate number: '10m'");
    assert_eq!(err("-5"), "Invalid rate number: '-5'");
    assert_eq!(err("18446744073709551616"), "Invalid rate number: '18446744073709551616'");
    assert_eq!(parse_lowered_rate("4K"), Err("Invalid rate number: '4K'".to_string()));
}

#[test]
fn escape_sequences() {
    assert_eq!(unescape_string("hello\\nworld"), "hello\nworld");
    assert_eq!(unescape_string("\\x41\\x42\\x43"), "ABC");
    assert_eq!(unescape_string("\\r\\t\\\\\\0"), "\r\t\\\0");
    assert_eq!(unescape_string("\\xfF"), "\u{FF}");
    assert_eq!(unescape_string("\\x+a"), "\n");
    assert_eq!(unescape_string(""), "");
}

#[test]
fn escape_sequences_that_are_not_known_stay() {
    assert_eq!(unescape_string("\\q"), "\\q");
    assert_eq!(unescape_string("end\\"), "end\\");
    assert_eq!(unescape_string("\\xZZ!"), "\\xZZ!");
    assert_eq!(unescape_string("\\x4"), "\\x4");
    assert_eq!(unescape_string("\\x"), "\\x");
    assert_eq!(unescape_string("\\x\\n"), "\\x\\n");
    assert_eq!(unescape_string("\\x-1"), "\\x-1");
    assert_eq!(unescape_string("\\x\u{E9}\u{E9}"), "\\x\u{E9}\u{E9}");
}

#[test]
fn plain_text_stays_and_escaped_text_comes_back() {
    let plain = "no escapes here, \u{2713} 100%";
    assert_eq!(unescape_string(plain), plain);
    let text = "a\\b\nc\rd\te\0f";
    let escaped = "a\\\\b\\nc\\rd\\te\\0f";
    assert_eq!(unescape_string(escaped), text);
}

#[test]
fn the_wall_clock_runs() {
    let before = unix_timestamp_secs();
    let millis = unix_timestamp_millis().unwrap();
    let after = unix_timestamp_secs();
    assert!(before > 1_600_000_000);
    assert!(before <= millis / 1000 && millis / 1000 <= after);
}

#[test]
fn parts_of_a_clock_reading() {
    assert_eq!(epoch_span(Some((12, 345_678_901))), Some(Duration::new(12, 345_678_901)));
    assert_eq!(epoch_span(None), None);
    assert_eq!(epoch_millis(Some(Duration::new(12, 345_678_901))), Some(12_345));
    assert_eq!(epoch_millis(Some(Duration::new(0, 999_999))), Some(0));
    // 2^64 milliseconds and 7 more.
    assert_eq!(epoch_millis(Some(Duration::new(18_446_744_073_709_551, 623_000_000))), Some(7));
    assert_eq!(epoch_millis(None), None);
    assert_eq!(epoch_secs(Some(Duration::new(12, 999_999_999))), 12);
    assert_eq!(epoch_secs(None), 0);
}
