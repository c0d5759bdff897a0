//! What holds of every text that is trimmed, read, written or joined.

use vstd::prelude::*;
use vstd::string::*;

use crate::text::{
    ascii_lower, bool_word, decimal, decimal_is_digits, digit_char, digits_value, hex_byte_value,
    hex_digit_value, hundredths, is_digit, is_plain, is_separator, is_white_space, joined, padded,
    split, trimmed, u64_value, views, without_leading_space, without_trailing_space,
};

verus! {

/// White space of ASCII is the tab, the line feed, the vertical tab, the form
/// feed, the carriage return and the space; beyond ASCII it is the next line,
/// the no-break space, the Ogham space, the spaces from the en quad to the hair
/// space, the separators of lines and paragraphs, the narrow and the
/// mathematical space and the ideographic space.
pub proof fn white_space_is_unicode(c: char)
    ensures
        is_white_space(c) <==> (c == '\t' || c == '\n' || c == '\u{b}' || c == '\u{c}' || c == '\r'
            || c == ' ' || c == '\u{85}' || c == '\u{a0}' || c == '\u{1680}' || c == '\u{2000}'
            || c == '\u{2001}' || c == '\u{2002}' || c == '\u{2003}' || c == '\u{2004}' || c
            == '\u{2005}' || c == '\u{2006}' || c == '\u{2007}' || c == '\u{2008}' || c
            == '\u{2009}' || c == '\u{200a}' || c == '\u{2028}' || c == '\u{2029}' || c
            == '\u{202f}' || c == '\u{205f}' || c == '\u{3000}'),
{
}

/// All of a text is white space.
pub open spec fn is_blank(s: Seq<char>) -> bool {
    forall|i: int| 0 <= i < s.len() ==> is_white_space(#[trigger] s[i])
}

proof fn lemma_leading(s: Seq<char>) -> (a: Seq<char>)
    ensures
        is_blank(a),
        s == a + without_leading_space(s),
        without_leading_space(s).len() > 0 ==> !is_white_space(without_leading_space(s)[0]),
    decreases s.len(),
{
    if s.len() > 0 && is_white_space(s.first()) {
        let a = lemma_leading(s.drop_first());
        let b = seq![s.first()] + a;
        let rest = without_leading_space(s.drop_first());
        assert(s =~= seq![s.first()] + s.drop_first());
        assert(seq![s.first()] + (a + rest) =~= b + rest);
        assert forall|i: int| 0 <= i < b.len() implies is_white_space(#[trigger] b[i]) by {
            if i > 0 {
                assert(b[i] == a[i - 1]);
            }
        }
        b
    } else {
        assert(s =~= Seq::<char>::empty() + s);
        Seq::empty()
    }
}

proof fn lemma_trailing(s: Seq<char>) -> (b: Seq<char>)
    ensures
        is_blank(b),
        s == without_trailing_space(s) + b,
        without_trailing_space(s).len() > 0 ==> !is_white_space(without_trailing_space(s).last()),
    decreases s.len(),
{
    if s.len() > 0 && is_white_space(s.last()) {
        let b = lemma_trailing(s.drop_last());
        let c = b.push(s.last());
        let rest = without_trailing_space(s.drop_last());
        assert(s =~= s.drop_last().push(s.last()));
        assert((rest + b).push(s.last()) =~= rest + c);
        c
    } else {
        assert(s =~= s + Seq::<char>::empty());
        Seq::empty()
    }
}

/// Trimming cuts off white space at both ends, as much as there is, and nothing
/// else.
pub proof fn trimming_cuts_white_space(s: Seq<char>) -> (r: (Seq<char>, Seq<char>))
    ensures
        is_blank(r.0),
        is_blank(r.1),
        s == r.0 + trimmed(s) + r.1,
        trimmed(s).len() > 0 ==> !is_white_space(trimmed(s)[0]) && !is_white_space(
            trimmed(s).last(),
        ),
{
    let a = lemma_leading(s);
    let rest = without_leading_space(s);
    let b = lemma_trailing(rest);
    assert(s =~= a + trimmed(s) + b);
    if trimmed(s).len() > 0 {
        assert(rest[0] == trimmed(s)[0]);
    }
    (a, b)
}

proof fn lemma_leading_of(a: Seq<char>, s: Seq<char>)
    requires
        is_blank(a),
        s.len() > 0 ==> !is_white_space(s[0]),
    ensures
        without_leading_space(a + s) == s,
    decreases a.len(),
{
    if a.len() > 0 {
        assert(is_white_space(a[0]));
        assert((a + s).drop_first() =~= a.drop_first() + s);
        assert forall|i: int| 0 <= i < a.drop_first().len() implies is_white_space(
            #[trigger] a.drop_first()[i],
        ) by {
            assert(is_white_space(a[i + 1]));
        }
        lemma_leading_of(a.drop_first(), s);
    } else {
        assert(a + s =~= s);
    }
}

proof fn lemma_trailing_of(s: Seq<char>, b: Seq<char>)
    requires
        is_blank(b),
        s.len() > 0 ==> !is_white_space(s.last()),
    ensures
        without_trailing_space(s + b) == s,
    decreases b.len(),
{
    if b.len() > 0 {
        assert(is_white_space(b[b.len() - 1]));
        assert((s + b).drop_last() =~= s + b.drop_last());
        assert forall|i: int| 0 <= i < b.drop_last().len() implies is_white_space(
            #[trigger] b.drop_last()[i],
        ) by {
            assert(is_white_space(b[i]));
        }
        lemma_trailing_of(s, b.drop_last());
    } else {
        assert(s + b =~= s);
    }
}

/// White space around a text makes no difference to what trimming leaves.
pub proof fn trimming_forgets_white_space(a: Seq<char>, s: Seq<char>, b: Seq<char>)
    requires
        is_blank(a),
        is_blank(b),
        s.len() > 0,
        !is_white_space(s[0]),
        !is_white_space(s.last()),
    ensures
        trimmed(a + s + b) == s,
{
    assert(a + s + b =~= a + (s + b));
    lemma_leading_of(a, s + b);
    lemma_trailing_of(s, b);
}

/// The capitals of ASCII become the small letters of the same place in the
/// alphabet; everything else stays.
pub proof fn capitals_become_small(c: char)
    ensures
        ascii_lower('A') == 'a',
        ascii_lower('M') == 'm',
        ascii_lower('S') == 's',
        ascii_lower('K') == 'k',
        ascii_lower('Z') == 'z',
        'A' <= c <= 'Z' ==> ascii_lower(c) as int - 'a' as int == c as int - 'A' as int,
        !('A' <= c <= 'Z') ==> ascii_lower(c) == c,
{
}

/// The decimal digits are those from `0` to `9`, in the order of their values.
pub proof fn digits_have_values(c: char)
    ensures
        is_digit(c) <==> (c == '0' || c == '1' || c == '2' || c == '3' || c == '4' || c == '5' || c
            == '6' || c == '7' || c == '8' || c == '9'),
        digit_char(0) == '0',
        digit_char(1) == '1',
        digit_char(2) == '2',
        digit_char(3) == '3',
        digit_char(4) == '4',
        digit_char(5) == '5',
        digit_char(6) == '6',
        digit_char(7) == '7',
        digit_char(8) == '8',
        digit_char(9) == '9',
{
}

/// A row of digits is read from left to right, ten for one: each further digit
/// counts once, and what stands before it ten times.
pub proof fn numbers_are_read_in_base_ten(s: Seq<char>, c: char)
    requires
        is_digit(c),
    ensures
        digits_value(seq![]) == 0,
        digits_value(s.push(c)) == 10 * digits_value(s) + (c as int - '0' as int),
{
    assert(s.push(c).drop_last() =~= s);
}

/// A number is written with its last digit behind the digits of its tenth, so
/// that it has no zeros in front.
pub proof fn numbers_are_written_in_base_ten(n: nat, d: nat)
    requires
        d < 10,
    ensures
        decimal(d) == seq![digit_char(d)],
        n > 0 ==> decimal(10 * n + d) == decimal(n).push(digit_char(d)),
        n > 0 ==> decimal(n)[0] != '0',
        decimal(0) == seq!['0'],
    decreases n,
{
    decimal_is_digits(n);
    if n >= 10 {
        numbers_are_written_in_base_ten(n / 10, n % 10);
    }
}

/// Zeros in front and one plus sign make no difference to the number that is
/// read; an empty text and a sign alone are no number.
pub proof fn signs_and_zeros_are_read(n: u64, zeros: nat)
    ensures
        u64_value(crate::text::repeated('0', zeros) + decimal(n as nat)) == Some(n),
        u64_value(seq!['+'] + decimal(n as nat)) == Some(n),
        u64_value(seq![]) is None,
        u64_value(seq!['+']) is None,
{
    decimal_is_digits(n as nat);
    let d = decimal(n as nat);
    let z = crate::text::repeated('0', zeros);
    let s = z + d;
    assert(is_digit(d[0]));
    assert forall|i: int| 0 <= i < s.len() implies is_digit(#[trigger] s[i]) by {
        if i >= zeros {
            assert(is_digit(d[i - zeros]));
        }
    }
    zeros_in_front_count_nothing(zeros, d);
    assert(crate::text::without_plus(s) == s);
    let p = seq!['+'] + d;
    assert(p.drop_first() =~= d);
    assert(seq!['+'].drop_first() =~= Seq::<char>::empty());
}

/// Zeros in front of digits count nothing.
pub proof fn zeros_in_front_count_nothing(zeros: nat, d: Seq<char>)
    ensures
        digits_value(crate::text::repeated('0', zeros) + d) == digits_value(d),
    decreases zeros + d.len(),
{
    let z = crate::text::repeated('0', zeros);
    if d.len() > 0 {
        assert((z + d).drop_last() =~= z + d.drop_last());
        zeros_in_front_count_nothing(zeros, d.drop_last());
    } else if zeros > 0 {
        assert(z + d =~= z);
        assert(z.drop_last() =~= crate::text::repeated('0', (zeros - 1) as nat) + d);
        zeros_in_front_count_nothing((zeros - 1) as nat, d);
    } else {
        assert(z + d =~= d);
    }
}

/// A text that holds anything but digits, behind a sign, is no number, and
/// neither is a number of more than 64 bits.
pub proof fn other_texts_are_no_numbers(s: Seq<char>, i: int, n: nat)
    requires
        0 <= i < s.len(),
        !is_digit(s[i]),
        i > 0 || s[0] != '+',
        n > u64::MAX,
    ensures
        u64_value(s) is None,
        u64_value(decimal(n)) is None,
{
    if s[0] == '+' {
        assert(s.drop_first()[i - 1] == s[i]);
    }
    decimal_is_digits(n);
    assert(is_digit(decimal(n)[0]));
}

/// The sixteen digits, of either case, in the order of their values.
pub proof fn hex_digits_have_values(c: char)
    ensures
        hex_digit_value(c) == (if c == '0' {
            Some(0nat)
        } else if c == '1' {
            Some(1nat)
        } else if c == '2' {
            Some(2nat)
        } else if c == '3' {
            Some(3nat)
        } else if c == '4' {
            Some(4nat)
        } else if c == '5' {
            Some(5nat)
        } else if c == '6' {
            Some(6nat)
        } else if c == '7' {
            Some(7nat)
        } else if c == '8' {
            Some(8nat)
        } else if c == '9' {
            Some(9nat)
        } else if c == 'a' || c == 'A' {
            Some(10nat)
        } else if c == 'b' || c == 'B' {
            Some(11nat)
        } else if c == 'c' || c == 'C' {
            Some(12nat)
        } else if c == 'd' || c == 'D' {
            Some(13nat)
        } else if c == 'e' || c == 'E' {
            Some(14nat)
        } else if c == 'f' || c == 'F' {
            Some(15nat)
        } else {
            None
        }),
{
}

/// Two sixteenfold digits make a byte, the first one counted sixteen times.
pub proof fn hex_bytes_have_values(first: char, second: char)
    ensures
        hex_digit_value(first) is Some && hex_digit_value(second) is Some ==> (hex_byte_value(
            first,
            second,
        ) matches Some(b) && b == 16 * hex_digit_value(first)->0 + hex_digit_value(second)->0),
        first == '+' && hex_digit_value(second) is Some ==> (hex_byte_value(first, second)
            matches Some(b) && b == hex_digit_value(second)->0),
        first != '+' && hex_digit_value(first) is None ==> hex_byte_value(first, second) is None,
        hex_digit_value(second) is None ==> hex_byte_value(first, second) is None,
{
    hex_digits_have_values(first);
    hex_digits_have_values(second);
}

/// A padded text ends in the text, has fill characters before it and nothing
/// else, and is as wide as was asked for, or as the text.
pub proof fn padding_comes_first(s: Seq<char>, width: nat, fill: char)
    ensures
        ({
            let p = padded(s, width, fill);
            let gap = p.len() - s.len();
            &&& p.len() == if s.len() > width {
                s.len()
            } else {
                width
            }
            &&& p.skip(gap) == s
            &&& forall|i: int| 0 <= i < gap ==> p[i] == fill
        }),
{
    let p = padded(s, width, fill);
    assert(p.skip(p.len() - s.len()) =~= s);
}

/// Hundredths are written as a whole number where they are one, and else with
/// the whole part, a point and two digits.
pub proof fn hundredths_read_back(n: nat)
    ensures
        n % 100 == 0 ==> digits_value(hundredths(n)) * 100 == n && hundredths(n) == decimal(
            n / 100,
        ),
        n % 100 != 0 ==> ({
            let s = hundredths(n);
            let point = s.len() - 3;
            &&& point > 0
            &&& s[point] == '.'
            &&& digits_value(s.take(point)) * 100 + digits_value(s.skip(point + 1)) == n
            &&& forall|i: int| 0 <= i < s.len() && i != point ==> is_digit(#[trigger] s[i])
        }),
{
    decimal_is_digits(n / 100);
    decimal_is_digits(n % 100);
    reveal_strlit(".");
    if n % 100 != 0 {
        let whole = decimal(n / 100);
        let cents = decimal(n % 100);
        let two = padded(cents, 2, '0');
        reveal_with_fuel(decimal, 3);
        assert(two.len() == 2);
        let s = hundredths(n);
        let point = s.len() - 3;
        assert(s.take(point) =~= whole);
        assert(s.skip(point + 1) =~= two);
        if cents.len() == 1 {
            assert(two =~= crate::text::repeated('0', 1) + cents);
            zeros_in_front_count_nothing(1, cents);
        }
        assert forall|i: int| 0 <= i < s.len() && i != point implies is_digit(#[trigger] s[i]) by {
            if i < point {
                assert(s[i] == whole[i]);
            } else {
                assert(s[i] == two[i - point - 1]);
                if cents.len() == 1 {
                    assert(is_digit(cents[0]));
                } else {
                    assert(is_digit(cents[i - point - 1]));
                }
            }
        }
    }
}

/// Truth values are written as words.
pub proof fn truth_values_are_words()
    ensures
        bool_word(true) == seq!['t', 'r', 'u', 'e'],
        bool_word(false) == seq!['f', 'a', 'l', 's', 'e'],
{
    reveal_strlit("true");
    reveal_strlit("false");
    assert(bool_word(true) =~= seq!['t', 'r', 'u', 'e']);
    assert(bool_word(false) =~= seq!['f', 'a', 'l', 's', 'e']);
}

/// Cells are joined in their order, with one separator before each but the
/// first.
pub proof fn cells_are_joined_in_order(cells: Seq<Seq<char>>, cell: Seq<char>, separator: char)
    ensures
        joined(seq![], separator) == Seq::<char>::empty(),
        joined(seq![cell], separator) == cell,
        cells.len() > 0 ==> joined(cells.push(cell), separator) == joined(cells, separator)
            + seq![separator] + cell,
{
    if cells.len() > 0 {
        assert(cells.push(cell).drop_last() =~= cells);
        let head = joined(cells, separator);
        assert(head.push(separator) + cell =~= head + seq![separator] + cell);
    }
}

/// A text is split where the separator stands and nowhere else.
pub proof fn texts_split_at_separators(s: Seq<char>, c: char, separator: char)
    ensures
        split(seq![], separator) == seq![Seq::<char>::empty()],
        c == separator ==> split(s.push(c), separator) == split(s, separator).push(seq![]),
        c != separator ==> split(s.push(c), separator) == split(s, separator).drop_last().push(
            split(s, separator).last().push(c),
        ),
{
    assert(s.push(c).drop_last() =~= s);
}

/// The characters that separate cells and lines are the comma, the line feed
/// and the carriage return; a plain text holds none of them.
pub proof fn plain_texts_hold_no_separators(s: Seq<char>, c: char)
    ensures
        is_separator(c) <==> (c == ',' || c == '\n' || c == '\r'),
        is_plain(s) <==> !s.contains(',') && !s.contains('\n') && !s.contains('\r'),
{
    if !s.contains(',') && !s.contains('\n') && !s.contains('\r') {
        assert(is_plain(s));
    }
}

/// The characters of several texts are those of each, in order.
pub proof fn views_are_in_order(cells: Seq<String>, i: int)
    requires
        0 <= i < cells.len(),
    ensures
        views(cells).len() == cells.len(),
        views(cells)[i] == cells[i]@,
{
}

} // verus!
