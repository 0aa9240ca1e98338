//! Decimal text of integers, and UTF-8 checks, as the standard library does them.
use std::borrow::Cow;
use vstd::prelude::*;
use vstd::utf8::{decode_utf8, valid_utf8};

verus! {

/// Whether `c` is one of the ASCII digits.
pub open spec fn is_digit(c: char) -> bool {
    '0' <= c <= '9'
}

/// The number that an ASCII digit stands for.
pub open spec fn digit_value(c: char) -> nat {
    (c as u32 - '0' as u32) as nat
}

/// The ASCII digit of a number below ten.
pub open spec fn digit_char(d: nat) -> char {
    (d + '0' as u32) as char
}

/// Whether `s` is one digit or more, and nothing else.
pub open spec fn is_digits(s: Seq<char>) -> bool {
    s.len() > 0 && forall|i: int| 0 <= i < s.len() ==> is_digit(#[trigger] s[i])
}

/// The number that a run of digits denotes, read in base ten.
pub open spec fn digits_value(s: Seq<char>) -> nat
    decreases s.len(),
{
    if s.len() == 0 {
        0
    } else {
        digits_value(s.drop_last()) * 10 + digit_value(s.last())
    }
}

/// The integer that `s` denotes in decimal notation: digits, after an optional
/// `+`, or after an optional `-` where `signed` allows one. Anything else,
/// white space included, denotes nothing.
pub open spec fn parse_decimal(s: Seq<char>, signed: bool) -> Option<int> {
    if s.len() > 0 && s[0] == '+' {
        if is_digits(s.drop_first()) {
            Some(digits_value(s.drop_first()) as int)
        } else {
            None
        }
    } else if signed && s.len() > 0 && s[0] == '-' {
        if is_digits(s.drop_first()) {
            Some(-(digits_value(s.drop_first()) as int))
        } else {
            None
        }
    } else if is_digits(s) {
        Some(digits_value(s) as int)
    } else {
        None
    }
}

/// What `str::parse::<i64>` accepts, and the number it gives.
pub open spec fn parse_i64(s: Seq<char>) -> Option<i64> {
    match parse_decimal(s, true) {
        Some(v) => if i64::MIN <= v <= i64::MAX {
            Some(v as i64)
        } else {
            None
        },
        None => None,
    }
}

/// What `str::parse::<u64>` accepts, and the number it gives.
pub open spec fn parse_u64(s: Seq<char>) -> Option<u64> {
    match parse_decimal(s, false) {
        Some(v) => if v <= u64::MAX {
            Some(v as u64)
        } else {
            None
        },
        None => None,
    }
}

/// What `str::parse::<usize>` accepts, and the number it gives.
pub open spec fn parse_usize(s: Seq<char>) -> Option<usize> {
    match parse_decimal(s, false) {
        Some(v) => if v <= usize::MAX {
            Some(v as usize)
        } else {
            None
        },
        None => None,
    }
}

/// The digits of `n` in base ten, without leading zeros.
pub open spec fn decimal_digits(n: nat) -> Seq<char>
    decreases n,
{
    if n < 10 {
        seq![digit_char(n)]
    } else {
        decimal_digits(n / 10).push(digit_char(n % 10))
    }
}

/// The decimal text of an integer: its digits, after `-` where it is negative.
pub open spec fn decimal_text(i: int) -> Seq<char> {
    if i < 0 {
        seq!['-'] + decimal_digits((-i) as nat)
    } else {
        decimal_digits(i as nat)
    }
}

/// The text of a boolean.
pub open spec fn bool_text(b: bool) -> Seq<char> {
    if b {
        "true"@
    } else {
        "false"@
    }
}

/// The digits of a number are digits, and they denote the number.
pub proof fn lemma_decimal_digits(n: nat)
    ensures
        is_digits(decimal_digits(n)),
        digits_value(decimal_digits(n)) == n,
    decreases n,
{
    if n < 10 {
        let s = decimal_digits(n);
        assert(s.len() == 1);
        assert(is_digit(s[0]) && digit_value(s[0]) == n) by {
            lemma_digit_char(n);
        }
        assert(s.drop_last() =~= Seq::<char>::empty());
        assert(digits_value(s.drop_last()) == 0);
    } else {
        let front = decimal_digits(n / 10);
        let s = decimal_digits(n);
        lemma_decimal_digits(n / 10);
        lemma_digit_char(n % 10);
        assert(s.drop_last() =~= front);
        assert(s.last() == digit_char(n % 10));
        assert forall|i: int| 0 <= i < s.len() implies is_digit(#[trigger] s[i]) by {
            if i < front.len() {
                assert(s[i] == front[i]);
            }
        }
    }
}

/// The digit of a number below ten is a digit, and it stands for the number.
pub proof fn lemma_digit_char(d: nat)
    requires
        d < 10,
    ensures
        is_digit(digit_char(d)),
        digit_value(digit_char(d)) == d,
{
    assert('0' as u32 == 48);
    assert('9' as u32 == 57);
    let c = digit_char(d);
    assert(c as u32 == d + 48);
}

/// `str::parse::<i64>`: the string is read as an optional sign followed by
/// digits, and rejected when it is anything else or does not fit.
#[verifier::external_body]
pub(crate) fn str_parse_i64(s: &str) -> (r: Option<i64>)
    ensures
        r == parse_i64(s@),
{
    s.parse::<i64>().ok()
}

/// `str::parse::<u64>`: the string is read as an optional `+` followed by
/// digits, and rejected when it is anything else or does not fit.
#[verifier::external_body]
pub(crate) fn str_parse_u64(s: &str) -> (r: Option<u64>)
    ensures
        r == parse_u64(s@),
{
    s.parse::<u64>().ok()
}

/// `str::parse::<usize>`: as for `u64`, within the range of `usize`.
#[verifier::external_body]
pub(crate) fn str_parse_usize(s: &str) -> (r: Option<usize>)
    ensures
        r == parse_usize(s@),
{
    s.parse::<usize>().ok()
}

/// `i128::to_string`: the decimal text of the number.
#[verifier::external_body]
pub(crate) fn i128_to_string(i: i128) -> (r: String)
    ensures
        r@ == decimal_text(i as int),
{
    i.to_string()
}

/// `u128::to_string`: the decimal text of the number.
#[verifier::external_body]
pub(crate) fn u128_to_string(i: u128) -> (r: String)
    ensures
        r@ == decimal_text(i as int),
{
    i.to_string()
}

/// `str::eq`: two string slices are equal exactly when they hold the same
/// characters.
#[verifier::external_body]
pub(crate) fn str_eq(a: &str, b: &str) -> (r: bool)
    ensures
        r == (a@ == b@),
{
    a == b
}

/// `str::from_utf8`: the slice read as text, which succeeds exactly on valid
/// UTF-8.
#[verifier::external_body]
pub(crate) fn utf8_slice(b: &[u8]) -> (r: Option<&str>)
    ensures
        r is Some <==> valid_utf8(b@),
        r is Some ==> r->Some_0@ == decode_utf8(b@),
{
    std::str::from_utf8(b).ok()
}

/// `String::from_utf8`: the vector read as text, which succeeds exactly on valid
/// UTF-8.
#[verifier::external_body]
pub(crate) fn utf8_string(v: Vec<u8>) -> (r: Option<String>)
    ensures
        r is Some <==> valid_utf8(v@),
        r is Some ==> r->Some_0@ == decode_utf8(v@),
{
    String::from_utf8(v).ok()
}

/// The text that `String::from_utf8_lossy` gives for the bytes.
pub uninterp spec fn lossy_text(b: Seq<u8>) -> Seq<char>;

/// `String::from_utf8_lossy`: the bytes read as text, where each invalid
/// sequence is replaced; valid UTF-8 is read as it is.
#[verifier::external_body]
pub(crate) fn utf8_lossy<'a>(b: &'a [u8]) -> (r: Cow<'a, str>)
    ensures
        r@ == lossy_text(b@),
        valid_utf8(b@) ==> r@ == decode_utf8(b@),
{
    String::from_utf8_lossy(b)
}

} // verus!
