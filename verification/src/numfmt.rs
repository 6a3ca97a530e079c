//! Decimal rendering of integers, used to embed OS error codes in
//! diagnostic messages.

use vstd::prelude::*;

verus! {

/// The decimal digit character for `d`, meaningful for `d < 10`.
pub open spec fn digit_char(d: nat) -> char {
    if d == 0 {
        '0'
    } else if d == 1 {
        '1'
    } else if d == 2 {
        '2'
    } else if d == 3 {
        '3'
    } else if d == 4 {
        '4'
    } else if d == 5 {
        '5'
    } else if d == 6 {
        '6'
    } else if d == 7 {
        '7'
    } else if d == 8 {
        '8'
    } else {
        '9'
    }
}

/// The decimal digit string of `n`, most significant digit first,
/// without sign and without leading zeros (except for `n == 0`).
pub open spec fn decimal_digits(n: nat) -> Seq<char>
    decreases n,
{
    if n < 10 {
        seq![digit_char(n)]
    } else {
        decimal_digits(n / 10).push(digit_char(n % 10))
    }
}

/// The decimal rendering of `n`: the digit string, preceded by `'-'`
/// when `n` is negative.
pub open spec fn decimal_str(n: int) -> Seq<char> {
    if n < 0 {
        seq!['-'] + decimal_digits((-n) as nat)
    } else {
        decimal_digits(n as nat)
    }
}

fn digit_literal(d: u32) -> (r: &'static str)
    requires
        d < 10,
    ensures
        r@ == seq![digit_char(d as nat)],
{
    let r: &'static str = match d {
        0 => "0",
        1 => "1",
        2 => "2",
        3 => "3",
        4 => "4",
        5 => "5",
        6 => "6",
        7 => "7",
        8 => "8",
        _ => "9",
    };
    proof {
        reveal_strlit("0");
        reveal_strlit("1");
        reveal_strlit("2");
        reveal_strlit("3");
        reveal_strlit("4");
        reveal_strlit("5");
        reveal_strlit("6");
        reveal_strlit("7");
        reveal_strlit("8");
        reveal_strlit("9");
        assert(r@ =~= seq![digit_char(d as nat)]);
    }
    r
}

/// Appends the decimal digits of `n` to `out`.
pub fn push_decimal_u32(out: &mut String, n: u32)
    ensures
        final(out)@ == old(out)@ + decimal_digits(n as nat),
    decreases n,
{
    if n >= 10 {
        push_decimal_u32(out, n / 10);
    }
    let d = digit_literal(n % 10);
    out.append(d);
    proof {
        assert(out@ =~= old(out)@ + decimal_digits(n as nat));
    }
}

/// Renders `n` in decimal, with a leading `'-'` when `n` is negative.
pub fn decimal_i32(n: i32) -> (r: String)
    ensures
        r@ == decimal_str(n as int),
{
    let mut out = String::new();
    if n < 0 {
        out.append("-");
        let magnitude: u32 = (-(n as i64)) as u32;
        assert(magnitude as nat == (-(n as int)) as nat);
        push_decimal_u32(&mut out, magnitude);
        proof {
            reveal_strlit("-");
            assert(out@ =~= decimal_str(n as int));
        }
    } else {
        push_decimal_u32(&mut out, n as u32);
        proof {
            assert(out@ =~= decimal_str(n as int));
        }
    }
    out
}

} // verus!
