//! Decimal rendering of integers, for the rejection line of a reply.

use vstd::prelude::*;
use vstd::string::StringExecFns;
use crate::hexstr::{hex_char_of, hex_digit_str};

verus! {

/// The decimal digits of a natural number, most significant first, with no
/// leading zero except for the number zero itself.
pub open spec fn dec_digits(n: nat) -> Seq<char>
    decreases n,
{
    if n < 10 {
        seq![hex_char_of(n as int)]
    } else {
        dec_digits(n / 10) + seq![hex_char_of((n % 10) as int)]
    }
}

/// The decimal rendering of an integer: a minus sign for negative numbers,
/// then the digits of its magnitude.
pub open spec fn dec_str(n: int) -> Seq<char> {
    if n < 0 {
        seq!['-'] + dec_digits((-n) as nat)
    } else {
        dec_digits(n as nat)
    }
}

/// Appends the decimal digits of `n` to `s`.
fn push_dec_digits(s: &mut String, n: u128)
    ensures
        final(s)@ == old(s)@ + dec_digits(n as nat),
    decreases n,
{
    if n < 10 {
        s.append(hex_digit_str(n as u8));
    } else {
        push_dec_digits(s, n / 10);
        s.append(hex_digit_str((n % 10) as u8));
        proof {
            assert(s@ =~= old(s)@ + dec_digits(n as nat));
        }
    }
}

/// The decimal rendering of an integer.
pub fn decimal_string(n: i128) -> (r: String)
    ensures
        r@ == dec_str(n as int),
{
    let mut s = String::new();
    if n < 0 {
        s.append("-");
        let mag: u128 = ((-(n + 1)) as u128) + 1;
        proof {
            assert(mag as int == -(n as int));
            reveal_strlit("-");
            assert(s@ =~= seq!['-']);
        }
        push_dec_digits(&mut s, mag);
        proof {
            assert(s@ =~= dec_str(n as int));
        }
    } else {
        push_dec_digits(&mut s, n as u128);
    }
    s
}

} // verus!
