//! Decimal rendering of the numeric configuration fields, for the jailer
//! command line.

use vstd::prelude::*;

verus! {

/// The decimal digit character for a value below ten.
pub open spec fn digit_char(d: int) -> char {
    if d == 0 {
        '0'
    } else if d == 1 {
        '1'
    } else if d == 2 {
        '2'
    } else if d == 3 {
        '3'
    } else if d == 4 {
        '4'
    } else if d == 5 {
        '5'
    } else if d == 6 {
        '6'
    } else if d == 7 {
        '7'
    } else if d == 8 {
        '8'
    } else {
        '9'
    }
}

/// The decimal rendering of a nonnegative integer, most significant digit
/// first, with no sign and no leading zero except for the value zero
/// itself.
pub open spec fn spec_dec_nat(n: int) -> Seq<char>
    decreases n,
{
    if n < 10 {
        seq![digit_char(n)]
    } else {
        spec_dec_nat(n / 10).push(digit_char(n % 10))
    }
}

/// The decimal rendering of a signed integer: a minus sign before the
/// rendering of the magnitude when the value is negative.
pub open spec fn spec_dec_int(n: int) -> Seq<char> {
    if n < 0 {
        seq!['-'].add(spec_dec_nat(-n))
    } else {
        spec_dec_nat(n)
    }
}

/// The one-character string of a decimal digit.
fn digit_str(d: u64) -> (r: String)
    requires
        d < 10,
    ensures
        r@ == seq![digit_char(d as int)],
{
    let s: String;
    if d == 0 {
        s = String::from_str("0");
        proof {
            reveal_strlit("0");
        }
    } else if d == 1 {
        s = String::from_str("1");
        proof {
            reveal_strlit("1");
        }
    } else if d == 2 {
        s = String::from_str("2");
        proof {
            reveal_strlit("2");
        }
    } else if d == 3 {
        s = String::from_str("3");
        proof {
            reveal_strlit("3");
        }
    } else if d == 4 {
        s = String::from_str("4");
        proof {
            reveal_strlit("4");
        }
    } else if d == 5 {
        s = String::from_str("5");
        proof {
            reveal_strlit("5");
        }
    } else if d == 6 {
        s = String::from_str("6");
        proof {
            reveal_strlit("6");
        }
    } else if d == 7 {
        s = String::from_str("7");
        proof {
            reveal_strlit("7");
        }
    } else if d == 8 {
        s = String::from_str("8");
        proof {
            reveal_strlit("8");
        }
    } else {
        s = String::from_str("9");
        proof {
            reveal_strlit("9");
        }
    }
    proof {
        assert(s@ =~= seq![digit_char(d as int)]);
    }
    s
}

/// Render a nonnegative 64-bit value in decimal.
pub fn dec_u64(n: u64) -> (r: String)
    ensures
        r@ == spec_dec_nat(n as int),
    decreases n,
{
    if n < 10 {
        digit_str(n)
    } else {
        let high = dec_u64(n / 10);
        let low = digit_str(n % 10);
        let r = high.concat(low.as_str());
        proof {
            assert(r@ =~= spec_dec_nat(n as int));
        }
        r
    }
}

/// Render a 32-bit value in decimal.
pub fn dec_u32(n: u32) -> (r: String)
    ensures
        r@ == spec_dec_nat(n as int),
{
    dec_u64(n as u64)
}

/// Render a signed 32-bit value in decimal, with a minus sign when it is
/// negative.
pub fn dec_i32(n: i32) -> (r: String)
    ensures
        r@ == spec_dec_int(n as int),
{
    if n < 0 {
        let magnitude: u64 = (-(n as i64)) as u64;
        let digits = dec_u64(magnitude);
        let r = String::from_str("-").concat(digits.as_str());
        proof {
            reveal_strlit("-");
            assert(r@ =~= spec_dec_int(n as int));
        }
        r
    } else {
        dec_u64(n as u64)
    }
}

/// Render a signed 64-bit value in decimal, with a minus sign when it is
/// negative.
pub fn dec_i64(n: i64) -> (r: String)
    ensures
        r@ == spec_dec_int(n as int),
{
    if n < 0 {
        let magnitude: u64 = if n == i64::MIN {
            9223372036854775808u64
        } else {
            (-n) as u64
        };
        proof {
            assert(magnitude == -(n as int));
        }
        let digits = dec_u64(magnitude);
        let r = String::from_str("-").concat(digits.as_str());
        proof {
            reveal_strlit("-");
            assert(r@ =~= spec_dec_int(n as int));
        }
        r
    } else {
        dec_u64(n as u64)
    }
}

} // verus!
