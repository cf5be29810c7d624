//! Reading a 32-bit integer from decimal text.

use crate::text::{chars_of, digit_value, is_digit};
use vstd::prelude::*;

verus! {

/// Why a text is not a 32-bit integer.
#[derive(Clone, Copy, Debug, PartialEq, Eq, Structural)]
pub enum IntParseFault {
    /// The text is empty.
    Empty,
    /// The text holds something other than digits after an optional sign, or
    /// a sign alone.
    InvalidDigit,
    /// The number is above `i32::MAX`.
    PosOverflow,
    /// The number is below `i32::MIN`.
    NegOverflow,
}

/// Reads `digits` from the left onto `acc`, adding each digit, or taking it
/// away where the number is negative. The first character that is no digit,
/// or the first step that leaves the 32-bit range, ends the reading.
pub open spec fn accumulate_digits(digits: Seq<char>, negative: bool, acc: int) -> Result<
    int,
    IntParseFault,
>
    decreases digits.len(),
{
    if digits.len() == 0 {
        Ok(acc)
    } else if !is_digit(digits[0]) {
        Err(IntParseFault::InvalidDigit)
    } else {
        let next = if negative {
            acc * 10 - digit_value(digits[0])
        } else {
            acc * 10 + digit_value(digits[0])
        };
        if next > i32::MAX {
            Err(IntParseFault::PosOverflow)
        } else if next < i32::MIN {
            Err(IntParseFault::NegOverflow)
        } else {
            accumulate_digits(digits.drop_first(), negative, next)
        }
    }
}

/// The 32-bit integer that `s` stands for: an optional `+` or `-`, then
/// decimal digits and nothing else.
pub open spec fn parse_i32_text(s: Seq<char>) -> Result<int, IntParseFault> {
    if s.len() == 0 {
        Err(IntParseFault::Empty)
    } else if s[0] == '+' || s[0] == '-' {
        if s.len() == 1 {
            Err(IntParseFault::InvalidDigit)
        } else {
            accumulate_digits(s.drop_first(), s[0] == '-', 0)
        }
    } else {
        accumulate_digits(s, false, 0)
    }
}

/// Reads a 32-bit integer from `s`.
pub fn parse_i32(s: &str) -> (r: Result<i32, IntParseFault>)
    ensures
        match r {
            Ok(v) => parse_i32_text(s@) == Ok::<int, IntParseFault>(v as int),
            Err(e) => parse_i32_text(s@) == Err::<int, IntParseFault>(e),
        },
{
    let chars = chars_of(s);
    let n: usize = chars.len();
    if n == 0 {
        return Err(IntParseFault::Empty);
    }
    let signed: bool = chars[0] == '+' || chars[0] == '-';
    if signed && n == 1 {
        return Err(IntParseFault::InvalidDigit);
    }
    let negative: bool = chars[0] == '-';
    let first: usize = if signed {
        1
    } else {
        0
    };
    let mut acc: i64 = 0;
    let mut i: usize = first;
    assert(chars@.subrange(0, n as int) =~= chars@);
    while i < n
        invariant
            chars@ == s@,
            first <= i <= n == chars@.len(),
            i32::MIN <= acc <= i32::MAX,
            parse_i32_text(chars@) == accumulate_digits(
                chars@.subrange(i as int, n as int),
                negative,
                acc as int,
            ),
        decreases n - i,
    {
        let c: char = chars[i];
        proof {
            let rest = chars@.subrange(i as int, n as int);
            assert(rest.drop_first() =~= chars@.subrange(i + 1, n as int));
        }
        if !('0' <= c && c <= '9') {
            return Err(IntParseFault::InvalidDigit);
        }
        let d: i64 = (c as u32 - '0' as u32) as i64;
        let next: i64 = if negative {
            acc * 10 - d
        } else {
            acc * 10 + d
        };
        if next > i32::MAX as i64 {
            return Err(IntParseFault::PosOverflow);
        }
        if next < i32::MIN as i64 {
            return Err(IntParseFault::NegOverflow);
        }
        acc = next;
        i += 1;
    }
    Ok(acc as i32)
}

} // verus!
