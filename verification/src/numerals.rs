//! Decimal numerals, as the standard library's `from_str` reads them for
//! unsigned integers, and the two readings the library relies on, written
//! and proved here.

use vstd::prelude::*;

verus! {

/// Whether `c` is an ASCII decimal digit.
pub open spec fn is_decimal_digit(c: char) -> bool {
    '0' <= c && c <= '9'
}

/// The value of a string of decimal digits, most significant first.
pub open spec fn digits_value(digits: Seq<char>) -> nat
    decreases digits.len(),
{
    if digits.len() == 0 {
        0
    } else {
        digits_value(digits.drop_last()) * 10 + ((digits.last() as int) - ('0' as int)) as nat
    }
}

/// The digits of a numeral: the text after an optional leading `+`.
pub open spec fn numeral_digits(text: Seq<char>) -> Seq<char> {
    if text.len() > 0 && text[0] == '+' {
        text.skip(1)
    } else {
        text
    }
}

/// Whether every character of `s` is an ASCII decimal digit.
pub open spec fn all_decimal_digits(s: Seq<char>) -> bool {
    forall|i: int| 0 <= i < s.len() ==> is_decimal_digit(#[trigger] s[i])
}

/// The value written by an unsigned decimal numeral: an optional `+`
/// followed by one or more ASCII digits. Anything else (an empty string, a
/// lone sign, a `-`, whitespace, underscores or other characters) writes no
/// value.
pub open spec fn numeral_value(text: Seq<char>) -> Option<nat> {
    let digits = numeral_digits(text);
    if digits.len() > 0 && all_decimal_digits(digits) {
        Some(digits_value(digits))
    } else {
        None
    }
}

/// Reads `text` as an unsigned decimal numeral, as `<u64 as FromStr>` does:
/// its value when it writes one that fits in a `u64`, `None` otherwise.
pub(crate) fn parse_u64(text: &str) -> (value: Option<u64>)
    ensures
        match numeral_value(text@) {
            Some(v) => if v <= u64::MAX {
                value == Some(v as u64)
            } else {
                value is None
            },
            None => value is None,
        },
{
    let n = text.unicode_len();
    let mut start: usize = 0;
    if n > 0 && text.get_char(0) == '+' {
        start = 1;
    }

    if start >= n {
        return None;
    }
    let ghost digits = numeral_digits(text@);
    assert(digits =~= text@.skip(start as int));
    assert(digits.take(0) =~= Seq::<char>::empty());
    let mut value: u64 = 0;
    let mut overflow = false;
    let mut i: usize = start;
    while i < n
        invariant
            start <= i <= n,
            n == text@.len(),
            digits == text@.skip(start as int),
            digits == numeral_digits(text@),
            forall|j: int| 0 <= j < i - start ==> is_decimal_digit(#[trigger] digits[j]),
            !overflow ==> value == digits_value(digits.take(i - start)),
            overflow ==> digits_value(digits.take(i - start)) > u64::MAX,
        decreases n - i,
    {
        let c = text.get_char(i);
        assert(c == digits[i - start]);
        if !('0' <= c && c <= '9') {
            return None;
        }
        let d: u64 = (c as u32 - '0' as u32) as u64;
        let ghost k: int = i - start;
        assert(digits.take(k + 1).drop_last() =~= digits.take(k));
        assert(digits.take(k + 1).last() == c);
        if !overflow {
            match value.checked_mul(10) {
                Some(m) => match m.checked_add(d) {
                    Some(v) => {
                        value = v;
                    },
                    None => {
                        overflow = true;
                    },
                },
                None => {
                    overflow = true;
                },
            }
        }
        i += 1;
    }
    assert(digits.take(digits.len() as int) =~= digits);
    assert(all_decimal_digits(digits));
    if overflow {
        None
    } else {
        Some(value)
    }
}

/// Reads `text` as an unsigned decimal numeral, as `<u16 as FromStr>` does:
/// its value when it writes one that fits in a `u16`, `None` otherwise.
pub(crate) fn parse_u16(text: &str) -> (value: Option<u16>)
    ensures
        match numeral_value(text@) {
            Some(v) => if v <= u16::MAX {
                value == Some(v as u16)
            } else {
                value is None
            },
            None => value is None,
        },
{
    match parse_u64(text) {
        Some(v) => if v <= 65535 {
            Some(v as u16)
        } else {
            None
        },
        None => None,
    }
}

} // verus!
