//! Decimal text handled without trusting the standard library's converters:
//! a parser for signed integers (token lifetimes arrive as decimal strings)
//! and a renderer for unsigned ones (status codes quoted in error messages),
//! each proved against a direct mathematical reading of decimal notation.

use vstd::prelude::*;
use vstd::arithmetic::div_mod::lemma_div_decreases;
use vstd::string::{StrSliceExecFns, StringExecFns};

verus! {

/// Whether `c` is a decimal digit.
pub open spec fn is_digit(c: char) -> bool {
    '0' <= c && c <= '9'
}

/// The numeric value of the digit `c`.
pub open spec fn digit_value(c: char) -> int {
    c as int - '0' as int
}

/// Whether every character of `s` is a decimal digit.
pub open spec fn all_digits(s: Seq<char>) -> bool {
    forall|i: int| 0 <= i < s.len() ==> is_digit(#[trigger] s[i])
}

/// The integer denoted by a sequence of decimal digits, most significant
/// digit first.  The empty sequence denotes zero.
pub open spec fn digits_value(s: Seq<char>) -> int
    decreases s.len(),
{
    if s.len() == 0 {
        0
    } else {
        digits_value(s.drop_last()) * 10 + digit_value(s.last())
    }
}

/// The integer denoted by `s` under the grammar of a signed decimal numeral:
/// an optional `+` or `-` sign followed by at least one digit, with the value
/// required to fit in an `i64`.  `None` when `s` is not of that shape.
pub open spec fn spec_parse_i64(s: Seq<char>) -> Option<int> {
    let negative = s.len() > 0 && s[0] == '-';
    let digits = if s.len() > 0 && (s[0] == '-' || s[0] == '+') {
        s.subrange(1, s.len() as int)
    } else {
        s
    };
    if digits.len() > 0 && all_digits(digits) {
        let v = if negative {
            -digits_value(digits)
        } else {
            digits_value(digits)
        };
        if i64::MIN <= v <= i64::MAX {
            Some(v)
        } else {
            None
        }
    } else {
        None
    }
}

/// A digit sequence denotes a non-negative integer.
proof fn lemma_digits_value_nonneg(s: Seq<char>)
    requires
        all_digits(s),
    ensures
        digits_value(s) >= 0,
    decreases s.len(),
{
    if s.len() > 0 {
        lemma_digits_value_nonneg(s.drop_last());
    }
}

/// Extending a digit sequence on the right never decreases its value.
proof fn lemma_digits_value_prefix_le(s: Seq<char>, k: int)
    requires
        all_digits(s),
        0 <= k <= s.len(),
    ensures
        digits_value(s.take(k)) <= digits_value(s),
    decreases s.len() - k,
{
    if k == s.len() {
        assert(s.take(k) =~= s);
    } else {
        assert(s.take(k + 1).drop_last() =~= s.take(k));
        assert(s.take(k + 1).last() == s[k]);
        lemma_digits_value_nonneg(s.take(k));
        lemma_digits_value_prefix_le(s, k + 1);
    }
}

/// Parses a signed decimal numeral, exactly as `spec_parse_i64` reads it:
/// `Some` if and only if `s` is an optional sign followed by one or more
/// digits and the denoted value fits in an `i64`.
pub fn parse_i64(s: &str) -> (r: Option<i64>)
    ensures
        match spec_parse_i64(s@) {
            Some(v) => r matches Some(x) && x == v,
            None => r is None,
        },
{
    let len = s.unicode_len();
    if len == 0 {
        return None;
    }
    let first = s.get_char(0);
    let negative = first == '-';
    let start: usize = if first == '-' || first == '+' {
        1
    } else {
        0
    };
    if start == len {
        return None;
    }
    let ghost digits = if start == 1 {
        s@.subrange(1, s@.len() as int)
    } else {
        s@
    };
    let mut i = start;
    let mut acc: u128 = 0;
    while i < len
        invariant
            start <= i <= len,
            len == s@.len(),
            start == 0 || start == 1,
            start < len,
            (start == 1) <==> (s@[0] == '-' || s@[0] == '+'),
            negative == (s@[0] == '-'),
            digits == if start == 1 {
                s@.subrange(1, s@.len() as int)
            } else {
                s@
            },
            all_digits(digits.take(i - start)),
            acc == digits_value(digits.take(i - start)),
            acc <= 0x8000_0000_0000_0000u128,
        decreases len - i,
    {
        let c = s.get_char(i);
        if c < '0' || c > '9' {
            assert(!all_digits(digits)) by {
                assert(digits[i - start] == s@[i as int]);
            }
            return None;
        }
        let d: u128 = (c as u32 - '0' as u32) as u128;
        acc = acc * 10 + d;
        proof {
            assert(digits.take(i - start + 1).drop_last() =~= digits.take(i - start));
            assert(digits.take(i - start + 1).last() == s@[i as int]);
        }
        i = i + 1;
        if acc > 0x8000_0000_0000_0000u128 {
            // The prefix read so far already denotes more than 2^63, and
            // further digits can only grow the value, so the numeral cannot
            // fit in an i64 even if the rest of it is well formed.
            proof {
                if all_digits(digits) {
                    lemma_digits_value_prefix_le(digits, i - start);
                }
            }
            return None;
        }
    }
    proof {
        assert(digits.take(len - start) =~= digits);
    }
    if negative {
        if acc == 0x8000_0000_0000_0000u128 {
            Some(i64::MIN)
        } else {
            Some(-(acc as i64))
        }
    } else {
        if acc > i64::MAX as u128 {
            return None;
        }
        Some(acc as i64)
    }
}

/// The digit character for the value `d`.
pub open spec fn digit_char(d: int) -> char {
    seq!['0', '1', '2', '3', '4', '5', '6', '7', '8', '9'][d]
}

/// The decimal rendering of the non-negative integer `n`, without sign or
/// leading zeros (`0` itself is rendered as the single digit `0`).
pub open spec fn spec_decimal_string(n: int) -> Seq<char>
    recommends
        n >= 0,
    decreases n,
    when n >= 0
    via spec_decimal_string_decreases
{
    if n < 10 {
        seq![digit_char(n)]
    } else {
        spec_decimal_string(n / 10) + seq![digit_char(n % 10)]
    }
}

#[via_fn]
proof fn spec_decimal_string_decreases(n: int) {
    if n >= 10 {
        lemma_div_decreases(n, 10);
    }
}

/// Renders `n` in decimal, exactly as `spec_decimal_string` spells it.
pub fn u64_to_string(n: u64) -> (r: String)
    ensures
        r@ == spec_decimal_string(n as int),
    decreases n,
{
    let digit_chars = "0123456789";
    proof {
        reveal_strlit("0123456789");
        assert(digit_chars.is_ascii());
    }
    if n < 10 {
        let d = n as usize;
        let s = digit_chars.substring_ascii(d, d + 1);
        proof {
            assert(s@ =~= seq![digit_char(n as int)]);
        }
        String::from_str(s)
    } else {
        proof {
            lemma_div_decreases(n as int, 10);
        }
        let high = u64_to_string(n / 10);
        let d = (n % 10) as usize;
        let s = digit_chars.substring_ascii(d, d + 1);
        proof {
            assert(s@ =~= seq![digit_char((n % 10) as int)]);
        }
        high.concat(s)
    }
}

} // verus!

