//! Decimal text for the integer scalars that the wire format carries: the
//! canonical base-ten rendering, minus sign for negative values, no leading
//! zeros.

use vstd::prelude::*;

verus! {

/// The decimal digit character for `d` (`d < 10`).
pub open spec fn spec_digit(d: nat) -> char {
    "0123456789"@[d as int]
}

/// The decimal digit string of a non-negative number, most significant digit
/// first, with no leading zeros (`0` is rendered as `"0"`).
pub open spec fn spec_dec_nat(n: nat) -> Seq<char>
    decreases n,
{
    if n < 10 {
        seq![spec_digit(n)]
    } else {
        spec_dec_nat(n / 10) + seq![spec_digit(n % 10)]
    }
}

/// The decimal rendering of a signed number: a minus sign before the digit
/// string of its magnitude.
pub open spec fn spec_dec_int(i: int) -> Seq<char> {
    if i < 0 {
        seq!['-'] + spec_dec_nat((-i) as nat)
    } else {
        spec_dec_nat(i as nat)
    }
}

fn digit_str(d: u64) -> (r: &'static str)
    requires
        d < 10,
    ensures
        r@ == seq![spec_digit(d as nat)],
{
    proof {
        reveal_strlit("0123456789");
        reveal_strlit("0");
        reveal_strlit("1");
        reveal_strlit("2");
        reveal_strlit("3");
        reveal_strlit("4");
        reveal_strlit("5");
        reveal_strlit("6");
        reveal_strlit("7");
        reveal_strlit("8");
        reveal_strlit("9");
    }
    let r = if d == 0 {
        "0"
    } else if d == 1 {
        "1"
    } else if d == 2 {
        "2"
    } else if d == 3 {
        "3"
    } else if d == 4 {
        "4"
    } else if d == 5 {
        "5"
    } else if d == 6 {
        "6"
    } else if d == 7 {
        "7"
    } else if d == 8 {
        "8"
    } else {
        "9"
    };
    proof {
        assert(r@ =~= seq![spec_digit(d as nat)]);
    }
    r
}

/// The decimal digit string of an unsigned number.
pub fn u64_to_dec(n: u64) -> (r: String)
    ensures
        r@ == spec_dec_nat(n as nat),
    decreases n,
{
    if n < 10 {
        String::from_str(digit_str(n))
    } else {
        let mut r = u64_to_dec(n / 10);
        r.append(digit_str(n % 10));
        proof {
            assert(r@ =~= spec_dec_nat(n as nat));
        }
        r
    }
}

/// The decimal rendering of a signed number.
pub fn i32_to_dec(i: i32) -> (r: String)
    ensures
        r@ == spec_dec_int(i as int),
{
    if i < 0 {
        let m: u64 = (-(i as i64)) as u64;
        let mut r = String::from_str("-");
        r.append(u64_to_dec(m).as_str());
        proof {
            reveal_strlit("-");
            assert(r@ =~= spec_dec_int(i as int));
        }
        r
    } else {
        u64_to_dec(i as u64)
    }
}

} // verus!
