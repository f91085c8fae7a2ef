//! String equality and decimal rendering of integers, verified down to the
//! character sequences involved.

use vstd::prelude::*;
use vstd::string::StringExecFns;

verus! {

/// True iff the two string slices hold the same characters.
pub fn str_equal(a: &str, b: &str) -> (r: bool)
    ensures
        r == (a@ == b@),
{
    let a_owned: String = a.to_owned();
    let b_owned: String = b.to_owned();
    a_owned == b_owned
}

/// The character for a single decimal digit.
pub open spec fn digit_char(d: nat) -> char {
    if d == 0 {
        '0'
    } else if d == 1 {
        '1'
    } else if d == 2 {
        '2'
    } else if d == 3 {
        '3'
    } else if d == 4 {
        '4'
    } else if d == 5 {
        '5'
    } else if d == 6 {
        '6'
    } else if d == 7 {
        '7'
    } else if d == 8 {
        '8'
    } else {
        '9'
    }
}

/// The usual decimal rendering of a natural number: no leading zeros,
/// except that zero itself is rendered as "0".
pub open spec fn spec_u32_decimal(n: nat) -> Seq<char>
    decreases n,
{
    if n < 10 {
        seq![digit_char(n)]
    } else {
        spec_u32_decimal(n / 10).push(digit_char(n % 10))
    }
}

/// The decimal rendering of a signed number: a minus sign before the
/// magnitude when negative.
pub open spec fn spec_i32_decimal(n: int) -> Seq<char> {
    if n < 0 {
        seq!['-'] + spec_u32_decimal((-n) as nat)
    } else {
        spec_u32_decimal(n as nat)
    }
}

/// The one-character string slice for a decimal digit.
fn digit_str(d: u32) -> (r: &'static str)
    requires
        d < 10,
    ensures
        r@ == seq![digit_char(d as nat)],
{
    let r: &'static str = match d {
        0 => "0",
        1 => "1",
        2 => "2",
        3 => "3",
        4 => "4",
        5 => "5",
        6 => "6",
        7 => "7",
        8 => "8",
        _ => "9",
    };
    proof {
        reveal_strlit("0");
        reveal_strlit("1");
        reveal_strlit("2");
        reveal_strlit("3");
        reveal_strlit("4");
        reveal_strlit("5");
        reveal_strlit("6");
        reveal_strlit("7");
        reveal_strlit("8");
        reveal_strlit("9");
        assert(r@ =~= seq![digit_char(d as nat)]);
    }
    r
}

/// Appends the decimal rendering of `n` to `out`.
pub fn push_u32_decimal(out: &mut String, n: u32)
    ensures
        final(out)@ == old(out)@ + spec_u32_decimal(n as nat),
    decreases n,
{
    if n >= 10 {
        push_u32_decimal(out, n / 10);
    }
    let d: u32 = n % 10;
    out.append(digit_str(d));
    proof {
        assert(final(out)@ =~= old(out)@ + spec_u32_decimal(n as nat));
    }
}

/// The decimal rendering of an unsigned number as an owned string.
pub fn u32_to_decimal(n: u32) -> (r: String)
    ensures
        r@ == spec_u32_decimal(n as nat),
{
    let mut out = String::new();
    push_u32_decimal(&mut out, n);
    proof {
        assert(out@ =~= spec_u32_decimal(n as nat));
    }
    out
}

/// The decimal rendering of a signed number as an owned string.
pub fn i32_to_decimal(n: i32) -> (r: String)
    ensures
        r@ == spec_i32_decimal(n as int),
{
    let mut out = String::new();
    if n < 0 {
        out.append("-");
        proof {
            reveal_strlit("-");
            assert("-"@ =~= seq!['-']);
        }
        let wide: i64 = -(n as i64);
        let magnitude: u32 = wide as u32;
        push_u32_decimal(&mut out, magnitude);
    } else {
        push_u32_decimal(&mut out, n as u32);
    }
    proof {
        assert(out@ =~= spec_i32_decimal(n as int));
    }
    out
}

} // verus!
