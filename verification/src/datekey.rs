//! Rendering of date keys: the canonical zero-padded, separator-joined
//! month/day strings that records are matched against.

use vstd::prelude::*;
use crate::config::{CsvSettings, DateFormat};

verus! {

/// The character of a decimal digit.
pub open spec fn digit_char(d: int) -> char {
    if d == 0 {
        '0'
    } else if d == 1 {
        '1'
    } else if d == 2 {
        '2'
    } else if d == 3 {
        '3'
    } else if d == 4 {
        '4'
    } else if d == 5 {
        '5'
    } else if d == 6 {
        '6'
    } else if d == 7 {
        '7'
    } else if d == 8 {
        '8'
    } else {
        '9'
    }
}

/// A number rendered as exactly two decimal digits, zero-padded.
pub open spec fn two_digit_seq(n: int) -> Seq<char> {
    seq![digit_char(n / 10), digit_char(n % 10)]
}

/// The date key for a month and a day: both zero-padded to width 2, joined by
/// the separator, ordered as the format says.
pub open spec fn date_key_seq(month: int, day: int, sep: char, fmt: DateFormat) -> Seq<char> {
    if fmt == DateFormat::MonthDay {
        two_digit_seq(month) + seq![sep] + two_digit_seq(day)
    } else {
        two_digit_seq(day) + seq![sep] + two_digit_seq(month)
    }
}

proof fn lemma_digit_char_injective(a: int, b: int)
    requires
        0 <= a <= 9,
        0 <= b <= 9,
        digit_char(a) == digit_char(b),
    ensures
        a == b,
{
}

proof fn lemma_two_digit_injective(a: int, b: int)
    requires
        0 <= a <= 99,
        0 <= b <= 99,
        two_digit_seq(a) == two_digit_seq(b),
    ensures
        a == b,
{
    assert(two_digit_seq(a)[0] == digit_char(a / 10));
    assert(two_digit_seq(a)[1] == digit_char(a % 10));
    lemma_digit_char_injective(a / 10, b / 10);
    lemma_digit_char_injective(a % 10, b % 10);
    vstd::arithmetic::div_mod::lemma_fundamental_div_mod(a, 10);
    vstd::arithmetic::div_mod::lemma_fundamental_div_mod(b, 10);
}

/// Zero-padding to width 2 makes date keys injective: two keys rendered with
/// the same separator and the same component order are equal only when they
/// come from the same month and the same day — whatever the separator is.
pub proof fn lemma_date_key_injective(
    m1: int,
    d1: int,
    m2: int,
    d2: int,
    sep: char,
    fmt: DateFormat,
)
    requires
        1 <= m1 <= 12,
        1 <= d1 <= 31,
        1 <= m2 <= 12,
        1 <= d2 <= 31,
        date_key_seq(m1, d1, sep, fmt) == date_key_seq(m2, d2, sep, fmt),
    ensures
        m1 == m2,
        d1 == d2,
{
    let k1 = date_key_seq(m1, d1, sep, fmt);
    let k2 = date_key_seq(m2, d2, sep, fmt);
    if fmt == DateFormat::MonthDay {
        assert(two_digit_seq(m1) =~= k1.subrange(0, 2));
        assert(two_digit_seq(d1) =~= k1.subrange(3, 5));
        assert(two_digit_seq(m2) =~= k2.subrange(0, 2));
        assert(two_digit_seq(d2) =~= k2.subrange(3, 5));
        lemma_two_digit_injective(m1, m2);
        lemma_two_digit_injective(d1, d2);
    } else {
        assert(two_digit_seq(d1) =~= k1.subrange(0, 2));
        assert(two_digit_seq(m1) =~= k1.subrange(3, 5));
        assert(two_digit_seq(d2) =~= k2.subrange(0, 2));
        assert(two_digit_seq(m2) =~= k2.subrange(3, 5));
        lemma_two_digit_injective(m1, m2);
        lemma_two_digit_injective(d1, d2);
    }
}

/// Relies on `String::push` of std: it appends the given character to the end
/// of the string.
pub assume_specification[ String::push ](s: &mut String, ch: char)
    ensures
        final(s)@ == old(s)@.push(ch),
;

pub fn digit_to_char(d: u8) -> (c: char)
    requires
        d <= 9,
    ensures
        c == digit_char(d as int),
{
    match d {
        0 => '0',
        1 => '1',
        2 => '2',
        3 => '3',
        4 => '4',
        5 => '5',
        6 => '6',
        7 => '7',
        8 => '8',
        _ => '9',
    }
}

/// Appends `n` to `s` as exactly two decimal digits, zero-padded.
pub fn push_two_digits(s: &mut String, n: u8)
    requires
        n <= 99,
    ensures
        final(s)@ == old(s)@ + two_digit_seq(n as int),
{
    let tens = n / 10;
    let ones = n % 10;
    s.push(digit_to_char(tens));
    s.push(digit_to_char(ones));
    assert(s@ =~= old(s)@ + two_digit_seq(n as int));
}

/// Renders the date key for a calendar month and day under the configured
/// separator and component order.
pub fn get_date_str(month: u8, day: u8, cfg: &CsvSettings) -> (r: String)
    requires
        1 <= month <= 12,
        1 <= day <= 31,
    ensures
        r@ == date_key_seq(month as int, day as int, cfg.date_separator, cfg.date_format),
{
    let mut s = String::new();
    if cfg.date_format == DateFormat::MonthDay {
        push_two_digits(&mut s, month);
        s.push(cfg.date_separator);
        push_two_digits(&mut s, day);
    } else {
        push_two_digits(&mut s, day);
        s.push(cfg.date_separator);
        push_two_digits(&mut s, month);
    }
    assert(s@ =~= date_key_seq(month as int, day as int, cfg.date_separator, cfg.date_format));
    s
}

} // verus!
