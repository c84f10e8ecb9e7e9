//! Decimal rendering of integers, with an exact character-level contract.
//!
//! Error messages and generated identifiers embed numbers; rendering them
//! here keeps those strings fully specified instead of leaning on opaque
//! formatting machinery.

use vstd::arithmetic::div_mod::{lemma_div_decreases, lemma_div_pos_is_pos};
use vstd::prelude::*;
use vstd::string::StringExecFns;

verus! {

/// The character for a single decimal digit.
pub open spec fn digit_char(d: int) -> char {
    if d == 0 {
        '0'
    } else if d == 1 {
        '1'
    } else if d == 2 {
        '2'
    } else if d == 3 {
        '3'
    } else if d == 4 {
        '4'
    } else if d == 5 {
        '5'
    } else if d == 6 {
        '6'
    } else if d == 7 {
        '7'
    } else if d == 8 {
        '8'
    } else {
        '9'
    }
}

/// The usual decimal rendering of a nonnegative integer, most significant
/// digit first, without leading zeros (except for zero itself).
pub open spec fn dec_str_u64(n: int) -> Seq<char>
    decreases n,
{
    if n < 10 {
        seq![digit_char(n)]
    } else {
        dec_str_u64(n / 10).push(digit_char(n % 10))
    }
}

/// The decimal rendering of a signed integer: a leading minus sign for
/// negative values, then the magnitude.
pub open spec fn dec_str_i64(n: int) -> Seq<char> {
    if n < 0 {
        seq!['-'] + dec_str_u64(-n)
    } else {
        dec_str_u64(n)
    }
}

/// A one-character string slice for a decimal digit.
fn digit_str(d: u64) -> (s: &'static str)
    requires
        d < 10,
    ensures
        s@ == seq![digit_char(d as int)],
{
    let s: &'static str = if d == 0 {
        "0"
    } else if d == 1 {
        "1"
    } else if d == 2 {
        "2"
    } else if d == 3 {
        "3"
    } else if d == 4 {
        "4"
    } else if d == 5 {
        "5"
    } else if d == 6 {
        "6"
    } else if d == 7 {
        "7"
    } else if d == 8 {
        "8"
    } else {
        "9"
    };
    proof {
        reveal_strlit("0");
        reveal_strlit("1");
        reveal_strlit("2");
        reveal_strlit("3");
        reveal_strlit("4");
        reveal_strlit("5");
        reveal_strlit("6");
        reveal_strlit("7");
        reveal_strlit("8");
        reveal_strlit("9");
        assert(s@ =~= seq![digit_char(d as int)]);
    }
    s
}

/// Append the decimal rendering of `n` to `s`, most significant digit first.
fn push_decimal(s: &mut String, n: u64)
    ensures
        final(s)@ == old(s)@ + dec_str_u64(n as int),
    decreases n,
{
    if n >= 10 {
        proof {
            lemma_div_pos_is_pos(n as int, 10);
            lemma_div_decreases(n as int, 10);
        }
        push_decimal(s, n / 10);
    }
    let ghost before = s@;
    s.append(digit_str(n % 10));
    proof {
        if n >= 10 {
            assert(s@ =~= old(s)@ + dec_str_u64(n as int));
        } else {
            assert(s@ =~= old(s)@ + dec_str_u64(n as int));
        }
    }
}

/// The decimal rendering of a nonnegative integer as a `String`.
pub fn u64_to_string(n: u64) -> (s: String)
    ensures
        s@ == dec_str_u64(n as int),
{
    let mut s = String::new();
    push_decimal(&mut s, n);
    proof {
        assert(s@ =~= dec_str_u64(n as int));
    }
    s
}

/// The decimal rendering of a signed integer as a `String`.
pub fn i64_to_string(n: i64) -> (s: String)
    ensures
        s@ == dec_str_i64(n as int),
{
    if n >= 0 {
        let s = u64_to_string(n as u64);
        proof {
            assert(s@ =~= dec_str_i64(n as int));
        }
        s
    } else {
        let magnitude: u64 = (-(n as i128)) as u64;
        let mut s = String::from_str("-");
        push_decimal(&mut s, magnitude);
        proof {
            reveal_strlit("-");
            assert(s@ =~= dec_str_i64(n as int));
        }
        s
    }
}

} // verus!
