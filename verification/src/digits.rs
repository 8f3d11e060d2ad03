//! Decimal rendering of unsigned integers, and of cent counts as
//! two-decimal amounts, with the output characters pinned down exactly.

use vstd::prelude::*;

verus! {

/// The decimal digit character for a value below ten.
pub open spec fn digit_char(d: nat) -> char
    recommends
        d < 10,
{
    if d == 0 {
        '0'
    } else if d == 1 {
        '1'
    } else if d == 2 {
        '2'
    } else if d == 3 {
        '3'
    } else if d == 4 {
        '4'
    } else if d == 5 {
        '5'
    } else if d == 6 {
        '6'
    } else if d == 7 {
        '7'
    } else if d == 8 {
        '8'
    } else {
        '9'
    }
}

/// The usual decimal notation of `n`: no leading zero except for zero itself.
pub open spec fn spec_digits(n: nat) -> Seq<char>
    decreases n,
{
    if n < 10 {
        seq![digit_char(n)]
    } else {
        spec_digits(n / 10).push(digit_char(n % 10))
    }
}

/// A cent count rendered as an amount with exactly two decimal places,
/// e.g. 1250 cents as `12.50`.
pub open spec fn spec_cents(c: nat) -> Seq<char> {
    spec_digits(c / 100).push('.').push(digit_char((c / 10) % 10)).push(digit_char(c % 10))
}

fn digit_str(d: u128) -> (r: &'static str)
    requires
        d < 10,
    ensures
        r@ =~= seq![digit_char(d as nat)],
{
    proof {
        reveal_strlit("0");
        reveal_strlit("1");
        reveal_strlit("2");
        reveal_strlit("3");
        reveal_strlit("4");
        reveal_strlit("5");
        reveal_strlit("6");
        reveal_strlit("7");
        reveal_strlit("8");
        reveal_strlit("9");
    }
    match d {
        0 => "0",
        1 => "1",
        2 => "2",
        3 => "3",
        4 => "4",
        5 => "5",
        6 => "6",
        7 => "7",
        8 => "8",
        _ => "9",
    }
}

/// Decimal notation of `n`.
pub fn u128_to_string(n: u128) -> (r: String)
    ensures
        r@ == spec_digits(n as nat),
    decreases n,
{
    if n < 10 {
        let r = String::from_str(digit_str(n));
        proof {
            assert(r@ =~= spec_digits(n as nat));
        }
        r
    } else {
        let r = u128_to_string(n / 10).concat(digit_str(n % 10));
        proof {
            assert(r@ =~= spec_digits(n as nat));
        }
        r
    }
}

/// Decimal notation of a cent count as a two-decimal amount.
pub fn cents_to_string(c: u128) -> (r: String)
    ensures
        r@ == spec_cents(c as nat),
{
    proof {
        reveal_strlit(".");
    }
    let whole = u128_to_string(c / 100);
    let r = whole.concat(".").concat(digit_str((c / 10) % 10)).concat(digit_str(c % 10));
    proof {
        assert(r@ =~= spec_cents(c as nat));
    }
    r
}

} // verus!
