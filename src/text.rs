//! Decimal text for integers, and the shapes of decimal text for real values.

use vstd::prelude::*;
use vstd::string::StringExecFns;

verus! {

/// The character of a decimal digit.
pub open spec fn digit_char(d: nat) -> char {
    if d == 0 { '0' }
    else if d == 1 { '1' }
    else if d == 2 { '2' }
    else if d == 3 { '3' }
    else if d == 4 { '4' }
    else if d == 5 { '5' }
    else if d == 6 { '6' }
    else if d == 7 { '7' }
    else if d == 8 { '8' }
    else { '9' }
}

/// The decimal digits of `n`, most significant first, without leading zeros.
pub open spec fn decimal(n: nat) -> Seq<char>
    decreases n,
{
    if n < 10 {
        seq![digit_char(n)]
    } else {
        decimal(n / 10) + seq![digit_char(n % 10)]
    }
}

/// The decimal text of an integer, with a leading '-' when it is negative.
pub open spec fn signed_decimal(v: int) -> Seq<char> {
    if v < 0 {
        seq!['-'] + decimal((-v) as nat)
    } else {
        decimal(v as nat)
    }
}

pub open spec fn is_digit(c: char) -> bool {
    '0' <= c && c <= '9'
}

/// One or more decimal digits.
pub open spec fn is_digits(s: Seq<char>) -> bool {
    s.len() > 0 && forall|i: int| 0 <= i < s.len() ==> is_digit(#[trigger] s[i])
}

/// `s` with an optional leading '-' removed.
pub open spec fn unsigned_part(s: Seq<char>) -> Seq<char> {
    if s.len() > 0 && s[0] == '-' {
        s.drop_first()
    } else {
        s
    }
}

/// Text of a real value written with exactly `places` digits after the point:
/// an optional '-', digits, '.', and `places` digits.
pub open spec fn is_fixed_point(s: Seq<char>, places: nat) -> bool {
    let u = unsigned_part(s);
    &&& places > 0
    &&& u.len() > places + 1
    &&& u[u.len() - places - 1] == '.'
    &&& is_digits(u.subrange(0, u.len() - places - 1))
    &&& is_digits(u.subrange(u.len() - places, u.len() as int))
}

/// Text of a real value in its shortest form: an optional '-', digits, and
/// optionally a '.' followed by digits.
pub open spec fn is_plain_decimal(s: Seq<char>) -> bool {
    let u = unsigned_part(s);
    is_digits(u) || exists|k: int|
        0 < k < u.len() - 1 && u[k] == '.' && is_digits(#[trigger] u.subrange(0, k))
            && is_digits(u.subrange(k + 1, u.len() as int))
}

/// The text of a value that is not a number.
pub open spec fn is_nan_text(s: Seq<char>) -> bool {
    s == seq!['N', 'a', 'N']
}

/// Text of a real value with `places` digits after the point, or NaN.
pub open spec fn is_fixed_text(s: Seq<char>, places: nat) -> bool {
    is_fixed_point(s, places) || is_nan_text(s)
}

/// Text of a real value in its shortest form, or NaN.
pub open spec fn is_plain_text(s: Seq<char>) -> bool {
    is_plain_decimal(s) || is_nan_text(s)
}

fn digit_str(d: u32) -> (r: &'static str)
    requires
        d < 10,
    ensures
        r@ == seq![digit_char(d as nat)],
{
    proof {
        reveal_strlit("0");
        reveal_strlit("1");
        reveal_strlit("2");
        reveal_strlit("3");
        reveal_strlit("4");
        reveal_strlit("5");
        reveal_strlit("6");
        reveal_strlit("7");
        reveal_strlit("8");
        reveal_strlit("9");
    }
    if d == 0 { "0" }
    else if d == 1 { "1" }
    else if d == 2 { "2" }
    else if d == 3 { "3" }
    else if d == 4 { "4" }
    else if d == 5 { "5" }
    else if d == 6 { "6" }
    else if d == 7 { "7" }
    else if d == 8 { "8" }
    else { "9" }
}

/// Appends the decimal digits of `n` to `s`.
pub fn push_decimal(s: &mut String, n: u32)
    ensures
        final(s)@ == old(s)@ + decimal(n as nat),
    decreases n,
{
    if n >= 10 {
        push_decimal(s, n / 10);
    }
    s.append(digit_str(n % 10));
}

/// Appends the decimal text of `v` to `s`, with a leading '-' when it is negative.
pub fn push_signed_decimal(s: &mut String, v: i32)
    ensures
        final(s)@ == old(s)@ + signed_decimal(v as int),
{
    if v < 0 {
        proof { reveal_strlit("-"); }
        s.append("-");
        let m: i64 = -(v as i64);
        push_decimal(s, m as u32);
    } else {
        push_decimal(s, v as u32);
    }
}

} // verus!
