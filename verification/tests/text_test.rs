//! Numbers in and out of text, padding and joining.

use tcpkali2::text::{
    bool_text, chars_of, decimal_text, hex_byte, hex_digit, hundredths_text, join, parse_u64,
    push_decimal,
    push_padded, push_padded_text, push_wide_decimal, PlainText,
};

#[test]
fn numbers_are_read() {
    assert_eq!(parse_u64("0"), Some(0));
    assert_eq!(parse_u64("007"), Some(7));
    assert_eq!(parse_u64("+12"), Some(12));
    assert_eq!(parse_u64("18446744073709551615"), Some(u64::MAX));
    for text in ["", "+", "-1", "1 ", "1a", "++1", "18446744073709551616", "99999999999999999999"] {
        assert_eq!(parse_u64(text), None, "{}", text);
    }
}

#[test]
fn numbers_are_written_and_read_back() {
    for n in [0u64, 9, 10, 99, 100, 1_000_000_007, u64::MAX] {
        assert_eq!(decimal_text(n), n.to_string());
        assert_eq!(parse_u64(&decimal_text(n)), Some(n));
    }
    let mut out = "n=".to_string();
    push_decimal(&mut out, 120);
    assert_eq!(out, "n=120");
}

#[test]
fn numbers_are_padded() {
    let mut out = String::new();
    push_padded(&mut out, 7, 4, '0');
    push_padded(&mut out, 12_345, 4, '0');
    push_padded(&mut out, 1234, 4, '0');
    assert_eq!(out, "0007123451234");
    let mut out = "[".to_string();
    push_padded_text(&mut out, "\u{E9}1", 4, ' ');
    assert_eq!(out, "[  \u{E9}1");
}

#[test]
fn hexadecimal_digits() {
    assert_eq!(hex_digit('7'), Some(7));
    assert_eq!(hex_digit('a'), Some(10));
    assert_eq!(hex_digit('F'), Some(15));
    assert_eq!(hex_digit('g'), None);
    assert_eq!(hex_byte('f', 'F'), Some(255));
    assert_eq!(hex_byte('+', '9'), Some(9));
    assert_eq!(hex_byte('9', '+'), None);
    assert_eq!(hex_byte('-', '1'), None);
}

#[test]
fn hundredths_have_two_decimal_places_unless_whole() {
    assert_eq!(hundredths_text(0), "0");
    assert_eq!(hundredths_text(800), "8");
    assert_eq!(hundredths_text(7), "0.07");
    assert_eq!(hundredths_text(80), "0.80");
    assert_eq!(hundredths_text(12_345), "123.45");
    let mut out = String::new();
    push_wide_decimal(&mut out, u128::MAX);
    assert_eq!(out, u128::MAX.to_string());
}

#[test]
fn truth_values() {
    assert_eq!(bool_text(true), "true");
    assert_eq!(bool_text(false), "false");
}

#[test]
fn joined_cells_split_again() {
    let cells: Vec<String> = ["a", "", "bc"].iter().map(|c| c.to_string()).collect();
    let row = join(&cells, ',');
    assert_eq!(row, "a,,bc");
    let again: Vec<String> = row.split(',').map(|c| c.to_string()).collect();
    assert_eq!(again, cells);
    assert_eq!(join(&Vec::new(), ','), "");
}

#[test]
fn plain_texts_hold_no_separators() {
    assert_eq!(PlainText::new("1.5 MB".to_string()).unwrap().as_str(), "1.5 MB");
    assert_eq!(PlainText::new(String::new()).unwrap().as_str(), "");
    for text in ["1,5", "a\n", "\rb"] {
        assert!(PlainText::new(text.to_string()).is_none());
    }
}

#[test]
fn characters_of_a_text() {
    assert_eq!(chars_of("a\u{2713}"), vec!['a', '\u{2713}']);
}
