//! Text primitives: trimming, case folding, numbers in and out of text, and
//! joining of cells.

use vstd::prelude::*;
use vstd::string::*;

verus! {

/// Appends a character to a string.
///
/// Trusted: `String::push` puts `c` behind the characters already there.
pub assume_specification[ String::push ](s: &mut String, c: char)
    ensures
        final(s)@ == old(s)@.push(c),
;

/// The code points with the Unicode property White_Space.
pub open spec fn is_white_space(c: char) -> bool {
    ||| 0x9 <= c as u32 <= 0xD
    ||| c as u32 == 0x20
    ||| c as u32 == 0x85
    ||| c as u32 == 0xA0
    ||| c as u32 == 0x1680
    ||| 0x2000 <= c as u32 <= 0x200A
    ||| c as u32 == 0x2028
    ||| c as u32 == 0x2029
    ||| c as u32 == 0x202F
    ||| c as u32 == 0x205F
    ||| c as u32 == 0x3000
}

/// `s` without the white space that it starts with.
pub open spec fn without_leading_space(s: Seq<char>) -> Seq<char>
    decreases s.len(),
{
    if s.len() > 0 && is_white_space(s.first()) {
        without_leading_space(s.drop_first())
    } else {
        s
    }
}

/// `s` without the white space that it ends with.
pub open spec fn without_trailing_space(s: Seq<char>) -> Seq<char>
    decreases s.len(),
{
    if s.len() > 0 && is_white_space(s.last()) {
        without_trailing_space(s.drop_last())
    } else {
        s
    }
}

/// `s` without white space at either end.
pub open spec fn trimmed(s: Seq<char>) -> Seq<char> {
    without_trailing_space(without_leading_space(s))
}

fn white_space(c: char) -> (r: bool)
    ensures
        r == is_white_space(c),
{
    let n: u32 = c as u32;
    (0x9 <= n && n <= 0xD) || n == 0x20 || n == 0x85 || n == 0xA0 || n == 0x1680 || (0x2000 <= n
        && n <= 0x200A) || n == 0x2028 || n == 0x2029 || n == 0x202F || n == 0x205F || n == 0x3000
}

/// Removes white space at both ends.
pub(crate) fn trim(s: &str) -> (r: &str)
    ensures
        r@ == trimmed(s@),
{
    let chars = chars_of(s);
    let mut start: usize = 0;
    assert(s@.skip(0) =~= s@);
    while start < chars.len() && white_space(chars[start])
        invariant
            chars@ == s@,
            start <= chars.len(),
            without_leading_space(s@) == without_leading_space(s@.skip(start as int)),
        decreases chars.len() - start,
    {
        assert(s@.skip(start as int).drop_first() =~= s@.skip(start + 1));
        start = start + 1;
    }
    let ghost rest = s@.skip(start as int);
    assert(without_leading_space(s@) == rest);
    let mut end: usize = chars.len();
    assert(s@.subrange(start as int, end as int) =~= rest);
    while start < end && white_space(chars[end - 1])
        invariant
            chars@ == s@,
            start <= end <= chars.len(),
            without_trailing_space(rest) == without_trailing_space(
                s@.subrange(start as int, end as int),
            ),
        decreases end - start,
    {
        assert(s@.subrange(start as int, end as int).drop_last() =~= s@.subrange(
            start as int,
            end - 1,
        ));
        end = end - 1;
    }
    assert(without_trailing_space(rest) == s@.subrange(start as int, end as int));
    s.substring_char(start, end)
}

/// The lower case letter of an ASCII capital, any other character itself.
pub open spec fn ascii_lower(c: char) -> char {
    if 'A' <= c <= 'Z' {
        (c as u32 + 32) as char
    } else {
        c
    }
}

/// What `str::to_lowercase` makes of a text.
pub uninterp spec fn lowercase(s: Seq<char>) -> Seq<char>;

/// Folds a text to lower case.
///
/// Trusted: `str::to_lowercase` is a function of the text alone (the Unicode
/// lower case mapping, named [`lowercase`]). On ASCII text it changes the
/// letters A to Z and nothing else.
#[verifier::external_body]
pub(crate) fn to_lowercase(s: &str) -> (r: String)
    ensures
        r@ == lowercase(s@),
        vstd::utf8::is_ascii_chars(s@) ==> r@ == s@.map_values(|c: char| ascii_lower(c)),
{
    s.to_lowercase()
}

/// The characters of a text.
pub fn chars_of(s: &str) -> (v: Vec<char>)
    ensures
        v@ == s@,
{
    let mut v: Vec<char> = Vec::new();
    for c in it: s.chars()
        invariant
            v@ == it.seq().take(it.index()),
            it.seq() == s@,
    {
        v.push(c);
    }
    v
}

pub open spec fn is_digit(c: char) -> bool {
    '0' <= c <= '9'
}

/// The number that a row of decimal digits stands for.
pub open spec fn digits_value(s: Seq<char>) -> nat
    decreases s.len(),
{
    if s.len() == 0 {
        0
    } else {
        10 * digits_value(s.drop_last()) + (s.last() as u32 - '0' as u32) as nat
    }
}

/// `s` without one plus sign in front.
pub open spec fn without_plus(s: Seq<char>) -> Seq<char> {
    if s.len() > 0 && s[0] == '+' {
        s.drop_first()
    } else {
        s
    }
}

/// The number that a text stands for: at least one decimal digit and nothing
/// else, behind an optional plus sign, and no more than 64 bits.
pub open spec fn u64_value(s: Seq<char>) -> Option<u64> {
    let digits = without_plus(s);
    if digits.len() > 0 && (forall|i: int|
        0 <= i < digits.len() ==> is_digit(#[trigger] digits[i])) && digits_value(digits)
        <= u64::MAX {
        Some(digits_value(digits) as u64)
    } else {
        None
    }
}

/// A shorter row of digits stands for no larger number.
proof fn lemma_digits_value_monotone(s: Seq<char>, n: int)
    requires
        0 <= n <= s.len(),
        forall|i: int| 0 <= i < s.len() ==> is_digit(#[trigger] s[i]),
    ensures
        digits_value(s.take(n)) <= digits_value(s),
    decreases s.len(),
{
    if n == s.len() {
        assert(s.take(n) =~= s);
    } else {
        assert(s.drop_last().take(n) =~= s.take(n));
        lemma_digits_value_monotone(s.drop_last(), n);
        assert(is_digit(s[s.len() - 1]));
    }
}

/// Reads a decimal number.
pub fn parse_u64(s: &str) -> (r: Option<u64>)
    ensures
        r == u64_value(s@),
{
    let chars = chars_of(s);
    let start: usize = if chars.len() > 0 && chars[0] == '+' { 1 } else { 0 };
    let ghost digits = without_plus(s@);
    assert(digits =~= s@.skip(start as int));
    if chars.len() == start {
        return None;
    }
    let mut value: u64 = 0;
    let mut i: usize = start;
    assert(digits.take(0) =~= Seq::<char>::empty());
    while i < chars.len()
        invariant
            start <= i <= chars.len(),
            chars@ == s@,
            digits == without_plus(s@),
            digits == s@.skip(start as int),
            digits.len() > 0,
            value == digits_value(digits.take(i - start)),
            forall|j: int| 0 <= j < i - start ==> is_digit(#[trigger] digits[j]),
        decreases chars.len() - i,
    {
        let c = chars[i];
        assert(c == digits[i - start]);
        if c < '0' || c > '9' {
            return None;
        }
        let d: u64 = (c as u32 - '0' as u32) as u64;
        let ghost upto = digits.take(i - start + 1);
        assert(upto.drop_last() =~= digits.take(i - start));
        assert(digits_value(upto) == 10 * value + d);
        proof {
            if forall|j: int| 0 <= j < digits.len() ==> is_digit(#[trigger] digits[j]) {
                lemma_digits_value_monotone(digits, i - start + 1);
            }
        }
        let tens: u64 = match value.checked_mul(10) {
            Some(v) => v,
            None => {
                return None;
            },
        };
        value = match tens.checked_add(d) {
            Some(v) => v,
            None => {
                return None;
            },
        };
        i = i + 1;
    }
    assert(digits.take(digits.len() as int) =~= digits);
    Some(value)
}

/// The value of a hexadecimal digit of either case.
pub open spec fn hex_digit_value(c: char) -> Option<nat> {
    if '0' <= c <= '9' {
        Some((c as u32 - '0' as u32) as nat)
    } else if 'a' <= c <= 'f' {
        Some((c as u32 - 'a' as u32 + 10) as nat)
    } else if 'A' <= c <= 'F' {
        Some((c as u32 - 'A' as u32 + 10) as nat)
    } else {
        None
    }
}

/// Reads a hexadecimal digit.
pub fn hex_digit(c: char) -> (r: Option<u8>)
    ensures
        r.is_some() == hex_digit_value(c).is_some(),
        r.is_some() ==> r.unwrap() == hex_digit_value(c).unwrap() && r.unwrap() < 16,
{
    if '0' <= c && c <= '9' {
        Some((c as u32 - '0' as u32) as u8)
    } else if 'a' <= c && c <= 'f' {
        Some((c as u32 - 'a' as u32 + 10) as u8)
    } else if 'A' <= c && c <= 'F' {
        Some((c as u32 - 'A' as u32 + 10) as u8)
    } else {
        None
    }
}

/// The byte that two characters stand for in base sixteen: two digits, or a
/// plus sign and one digit.
pub open spec fn hex_byte_value(first: char, second: char) -> Option<u8> {
    match hex_digit_value(second) {
        None => None,
        Some(low) => if first == '+' {
            Some(low as u8)
        } else {
            match hex_digit_value(first) {
                None => None,
                Some(high) => Some((16 * high + low) as u8),
            }
        },
    }
}

/// Reads a byte in base sixteen.
pub fn hex_byte(first: char, second: char) -> (r: Option<u8>)
    ensures
        r == hex_byte_value(first, second),
{
    match hex_digit(second) {
        None => None,
        Some(low) => {
            if first == '+' {
                Some(low)
            } else {
                match hex_digit(first) {
                    None => None,
                    Some(high) => Some(16 * high + low),
                }
            }
        },
    }
}

/// The digit of a number below ten.
pub open spec fn digit_char(d: nat) -> char {
    ('0' as u32 + d) as char
}

/// The decimal digits of a number, without leading zeros.
pub open spec fn decimal(n: nat) -> Seq<char>
    decreases n,
{
    if n < 10 {
        seq![digit_char(n)]
    } else {
        decimal(n / 10).push(digit_char(n % 10))
    }
}

/// Writes a number behind a text.
pub fn push_decimal(out: &mut String, n: u64)
    ensures
        final(out)@ == old(out)@ + decimal(n as nat),
{
    push_wide_decimal(out, n as u128);
}

/// Writes a number behind a text.
pub fn push_wide_decimal(out: &mut String, n: u128)
    ensures
        final(out)@ == old(out)@ + decimal(n as nat),
    decreases n,
{
    if n >= 10 {
        push_wide_decimal(out, n / 10);
    }
    let d: u8 = (n % 10) as u8;
    out.push((48 + d) as char);
    assert(out@ =~= old(out)@ + decimal(n as nat));
}

/// `count` copies of a character.
pub open spec fn repeated(fill: char, count: nat) -> Seq<char> {
    Seq::new(count, |i: int| fill)
}

/// `s` brought to a least width by fill characters in front.
pub open spec fn padded(s: Seq<char>, width: nat, fill: char) -> Seq<char> {
    if s.len() >= width {
        s
    } else {
        repeated(fill, (width - s.len()) as nat) + s
    }
}

/// Writes a text behind another, brought to a least width.
pub fn push_padded_text(out: &mut String, text: &str, width: usize, fill: char)
    ensures
        final(out)@ == old(out)@ + padded(text@, width as nat, fill),
{
    let len: usize = text.unicode_len();
    let mut i: usize = len;
    while i < width
        invariant
            len == text@.len(),
            len <= i,
            if len < width {
                i <= width
            } else {
                i == len
            },
            out@ == old(out)@ + repeated(fill, (i - len) as nat),
        decreases width - i,
    {
        out.push(fill);
        i = i + 1;
        assert(out@ =~= old(out)@ + repeated(fill, (i - len) as nat));
    }
    out.append(text);
    assert(out@ =~= old(out)@ + padded(text@, width as nat, fill));
}

/// Writes a number behind a text, brought to a least width.
pub fn push_padded(out: &mut String, n: u64, width: usize, fill: char)
    ensures
        final(out)@ == old(out)@ + padded(decimal(n as nat), width as nat, fill),
{
    let digits = decimal_text(n);
    push_padded_text(out, digits.as_str(), width, fill);
}

/// A number of hundredths, with two decimal places unless it is whole.
pub open spec fn hundredths(n: nat) -> Seq<char> {
    if n % 100 == 0 {
        decimal(n / 100)
    } else {
        decimal(n / 100) + "."@ + padded(decimal(n % 100), 2, '0')
    }
}

/// A number of hundredths as a text of its own.
pub fn hundredths_text(n: u128) -> (r: String)
    ensures
        r@ == hundredths(n as nat),
{
    let mut r = String::new();
    push_wide_decimal(&mut r, n / 100);
    assert(r@ =~= decimal(n as nat / 100));
    if n % 100 != 0 {
        r.append(".");
        push_padded(&mut r, (n % 100) as u64, 2, '0');
    }
    r
}

/// The decimal digits of a number as a text of its own.
pub fn decimal_text(n: u64) -> (r: String)
    ensures
        r@ == decimal(n as nat),
{
    let mut r = String::new();
    push_decimal(&mut r, n);
    assert(r@ =~= decimal(n as nat));
    r
}

/// A character that separates cells or lines.
pub open spec fn is_separator(c: char) -> bool {
    c == ',' || c == '\n' || c == '\r'
}

/// A text without separators.
pub open spec fn is_plain(s: Seq<char>) -> bool {
    forall|c: char| is_separator(c) ==> !(#[trigger] s.contains(c))
}

/// A text without separators.
#[derive(Debug)]
pub struct PlainText {
    text: String,
}

impl View for PlainText {
    type V = Seq<char>;

    closed spec fn view(&self) -> Seq<char> {
        self.text@
    }
}

impl PlainText {
    #[verifier::type_invariant]
    spec fn has_no_separator(self) -> bool {
        is_plain(self.text@)
    }

    /// The text, if it holds no separator.
    pub fn new(text: String) -> (r: Option<PlainText>)
        ensures
            r.is_some() == is_plain(text@),
            r matches Some(plain) ==> plain@ == text@,
    {
        let chars = chars_of(text.as_str());
        for i in 0..chars.len()
            invariant
                chars@ == text@,
                forall|j: int| 0 <= j < i ==> !is_separator(#[trigger] text@[j]),
        {
            let c = chars[i];
            if c == ',' || c == '\n' || c == '\r' {
                assert(text@[i as int] == c);
                assert(is_separator(c) && text@.contains(c));
                return None;
            }
        }
        Some(PlainText { text })
    }

    pub fn as_str(&self) -> (r: &str)
        ensures
            r@ == self@,
            is_plain(self@),
    {
        proof {
            use_type_invariant(self);
        }
        self.text.as_str()
    }
}

/// The word for a truth value.
pub open spec fn bool_word(b: bool) -> Seq<char> {
    if b {
        "true"@
    } else {
        "false"@
    }
}

/// The word for a truth value.
pub fn bool_text(b: bool) -> (r: String)
    ensures
        r@ == bool_word(b),
{
    if b {
        "true".to_owned()
    } else {
        "false".to_owned()
    }
}

/// The characters of each of several texts.
pub open spec fn views(cells: Seq<String>) -> Seq<Seq<char>> {
    cells.map_values(|c: String| c@)
}

/// Cells in a row, one separator between neighbours.
pub open spec fn joined(cells: Seq<Seq<char>>, separator: char) -> Seq<char>
    decreases cells.len(),
{
    if cells.len() == 0 {
        seq![]
    } else if cells.len() == 1 {
        cells[0]
    } else {
        joined(cells.drop_last(), separator).push(separator) + cells.last()
    }
}

/// Puts cells in a row, one separator between neighbours.
pub fn join(cells: &Vec<String>, separator: char) -> (r: String)
    ensures
        r@ == joined(views(cells@), separator),
{
    let mut r = String::new();
    let ghost all = views(cells@);
    assert(all.take(0) =~= seq![]);
    for i in 0..cells.len()
        invariant
            all == views(cells@),
            r@ == joined(all.take(i as int), separator),
    {
        assert(all.take(i + 1).drop_last() =~= all.take(i as int));
        assert(all[i as int] == cells@[i as int]@);
        if i > 0 {
            r.push(separator);
        }
        r.append(cells[i].as_str());
        assert(r@ =~= joined(all.take(i + 1), separator));
    }
    assert(all.take(cells.len() as int) =~= all);
    r
}

/// The cells between the separators of a text.
pub open spec fn split(s: Seq<char>, separator: char) -> Seq<Seq<char>>
    decreases s.len(),
{
    if s.len() == 0 {
        seq![seq![]]
    } else {
        let before = split(s.drop_last(), separator);
        if s.last() == separator {
            before.push(seq![])
        } else {
            before.drop_last().push(before.last().push(s.last()))
        }
    }
}

proof fn lemma_split_nonempty(s: Seq<char>, separator: char)
    ensures
        split(s, separator).len() > 0,
    decreases s.len(),
{
    if s.len() > 0 {
        lemma_split_nonempty(s.drop_last(), separator);
    }
}

/// A text without separators only lengthens the last cell of what stands
/// before it.
proof fn lemma_split_append(s: Seq<char>, cell: Seq<char>, separator: char)
    requires
        !cell.contains(separator),
    ensures
        split(s + cell, separator) == split(s, separator).drop_last().push(
            split(s, separator).last() + cell,
        ),
    decreases cell.len(),
{
    lemma_split_nonempty(s, separator);
    let before = split(s, separator);
    if cell.len() == 0 {
        assert(s + cell =~= s);
        assert(before.last() + cell =~= before.last());
        assert(before.drop_last().push(before.last()) =~= before);
    } else {
        let shorter = cell.drop_last();
        assert(!shorter.contains(separator)) by {
            if shorter.contains(separator) {
                let i = choose|i: int| 0 <= i < shorter.len() && shorter[i] == separator;
                assert(cell[i] == separator);
            }
        }
        lemma_split_append(s, shorter, separator);
        assert((s + cell).drop_last() =~= s + shorter);
        assert(cell[cell.len() - 1] == cell.last());
        assert((s + cell).last() == cell.last());
        let prior = split(s + shorter, separator);
        assert(prior.drop_last() =~= before.drop_last());
        assert(prior.last() == before.last() + shorter);
        assert((before.last() + shorter).push(cell.last()) =~= before.last() + cell);
    }
}

/// Cells that do not hold the separator are found again between the
/// separators of the row that they were joined to.
pub proof fn split_inverts_join(cells: Seq<Seq<char>>, separator: char)
    requires
        cells.len() > 0,
        forall|i: int| 0 <= i < cells.len() ==> !(#[trigger] cells[i]).contains(separator),
    ensures
        split(joined(cells, separator), separator) == cells,
    decreases cells.len(),
{
    let empty: Seq<char> = seq![];
    if cells.len() == 1 {
        lemma_split_append(empty, cells[0], separator);
        assert(empty + cells[0] =~= cells[0]);
        assert(split(cells[0], separator) =~= cells);
    } else {
        let shorter = cells.drop_last();
        assert forall|i: int| 0 <= i < shorter.len() implies !(#[trigger] shorter[i]).contains(
            separator,
        ) by {
            assert(shorter[i] == cells[i]);
        }
        split_inverts_join(shorter, separator);
        let head = joined(shorter, separator).push(separator);
        assert(head.drop_last() =~= joined(shorter, separator));
        assert(split(head, separator) =~= shorter.push(empty));
        assert(!cells[cells.len() - 1].contains(separator));
        lemma_split_append(head, cells.last(), separator);
        assert(shorter.push(empty).drop_last() =~= shorter);
        assert(empty + cells.last() =~= cells.last());
        assert(shorter.push(cells.last()) =~= cells);
    }
}

/// A number in decimal is one digit or more, which stand for that number.
pub proof fn decimal_is_digits(n: nat)
    ensures
        decimal(n).len() > 0,
        forall|i: int| 0 <= i < decimal(n).len() ==> is_digit(#[trigger] decimal(n)[i]),
        digits_value(decimal(n)) == n,
    decreases n,
{
    reveal_with_fuel(digits_value, 2);
    if n >= 10 {
        decimal_is_digits(n / 10);
        assert(decimal(n).drop_last() =~= decimal(n / 10));
        assert(decimal(n).last() == digit_char(n % 10));
    } else {
        assert(decimal(n).drop_last() =~= seq![]);
    }
}

/// A number that was written in decimal digits is read back.
pub proof fn decimal_reads_back(n: u64)
    ensures
        u64_value(decimal(n as nat)) == Some(n),
{
    decimal_is_digits(n as nat);
    assert(is_digit(decimal(n as nat)[0]));
}

} // verus!
