//! Decimal rendering of integers: plain digits, two-decimal fixed point,
//! and saturating arithmetic helpers used by the timing logic.

use vstd::prelude::*;

verus! {

/// The decimal digit character for `d`, which must lie in 0..10.
pub open spec fn digit_char(d: int) -> char {
    if d == 0 {
        '0'
    } else if d == 1 {
        '1'
    } else if d == 2 {
        '2'
    } else if d == 3 {
        '3'
    } else if d == 4 {
        '4'
    } else if d == 5 {
        '5'
    } else if d == 6 {
        '6'
    } else if d == 7 {
        '7'
    } else if d == 8 {
        '8'
    } else {
        '9'
    }
}

/// The decimal representation of `n`, most significant digit first,
/// with no leading zeroes (a single `'0'` for zero).
pub open spec fn dec_spec(n: nat) -> Seq<char>
    decreases n,
{
    if n < 10 {
        seq![digit_char(n as int)]
    } else {
        dec_spec(n / 10) + seq![digit_char((n % 10) as int)]
    }
}

/// `h` hundredths rendered as a fixed-point number with two decimals,
/// e.g. 12345 renders as the digits of "123.45".
pub open spec fn fixed2_spec(h: nat) -> Seq<char> {
    dec_spec(h / 100) + "."@ + seq![digit_char(((h / 10) % 10) as int)] + seq![
        digit_char((h % 10) as int),
    ]
}

/// `s` with a comma inserted every three characters, counted from the end:
/// the digit grouping of `Locale::en`.
pub open spec fn group_spec(s: Seq<char>) -> Seq<char>
    decreases s.len(),
{
    if s.len() <= 3 {
        s
    } else {
        group_spec(s.take(s.len() - 3)) + ","@ + s.skip(s.len() - 3)
    }
}

/// `a / b` rounded to the nearest integer, halves rounded up.
pub open spec fn round_div(a: int, b: int) -> int {
    (2 * a + b) / (2 * b)
}

/// `a + b` capped at the largest 64-bit value.
pub open spec fn sat_add_u64(a: nat, b: nat) -> nat {
    if a + b > 0xFFFF_FFFF_FFFF_FFFF {
        0xFFFF_FFFF_FFFF_FFFF as nat
    } else {
        a + b
    }
}

/// `a - b`, floored at zero.
pub open spec fn sat_sub(a: nat, b: nat) -> nat {
    if a >= b {
        (a - b) as nat
    } else {
        0
    }
}

/// The single-character string for the decimal digit `d`.
fn digit_str(d: u128) -> (r: &'static str)
    requires
        d < 10,
    ensures
        r@ == seq![digit_char(d as int)],
{
    if d == 0 {
        proof {
            reveal_strlit("0");
            assert("0"@ =~= seq![digit_char(0)]);
        }
        "0"
    } else if d == 1 {
        proof {
            reveal_strlit("1");
            assert("1"@ =~= seq![digit_char(1)]);
        }
        "1"
    } else if d == 2 {
        proof {
            reveal_strlit("2");
            assert("2"@ =~= seq![digit_char(2)]);
        }
        "2"
    } else if d == 3 {
        proof {
            reveal_strlit("3");
            assert("3"@ =~= seq![digit_char(3)]);
        }
        "3"
    } else if d == 4 {
        proof {
            reveal_strlit("4");
            assert("4"@ =~= seq![digit_char(4)]);
        }
        "4"
    } else if d == 5 {
        proof {
            reveal_strlit("5");
            assert("5"@ =~= seq![digit_char(5)]);
        }
        "5"
    } else if d == 6 {
        proof {
            reveal_strlit("6");
            assert("6"@ =~= seq![digit_char(6)]);
        }
        "6"
    } else if d == 7 {
        proof {
            reveal_strlit("7");
            assert("7"@ =~= seq![digit_char(7)]);
        }
        "7"
    } else if d == 8 {
        proof {
            reveal_strlit("8");
            assert("8"@ =~= seq![digit_char(8)]);
        }
        "8"
    } else {
        proof {
            reveal_strlit("9");
            assert("9"@ =~= seq![digit_char(9)]);
        }
        "9"
    }
}

/// Renders `n` in decimal.
pub fn dec_string(n: u128) -> (r: String)
    ensures
        r@ == dec_spec(n as nat),
    decreases n,
{
    if n < 10 {
        String::from_str(digit_str(n))
    } else {
        let mut s = dec_string(n / 10);
        s.append(digit_str(n % 10));
        s
    }
}

/// Renders `h` hundredths with two decimal places.
pub fn fixed2_string(h: u128) -> (r: String)
    ensures
        r@ == fixed2_spec(h as nat),
{
    let mut s = dec_string(h / 100);
    s.append(".");
    s.append(digit_str((h / 10) % 10));
    s.append(digit_str(h % 10));
    s
}

/// Computes `round_div(a, b)` on 128-bit values.
pub fn round_div_u128(a: u128, b: u128) -> (r: u128)
    requires
        1 <= b,
        a < 0x4000_0000_0000_0000_0000_0000_0000_0000,
        b < 0x4000_0000_0000_0000_0000_0000_0000_0000,
    ensures
        r == round_div(a as int, b as int),
{
    (2 * a + b) / (2 * b)
}

/// Computes `sat_add_u64` on 64-bit values.
pub fn sat_add64(a: u64, b: u64) -> (r: u64)
    ensures
        r as nat == sat_add_u64(a as nat, b as nat),
{
    a.saturating_add(b)
}

/// Computes `sat_sub` on 64-bit values.
pub fn sat_sub64(a: u64, b: u64) -> (r: u64)
    ensures
        r as nat == sat_sub(a as nat, b as nat),
{
    if a >= b {
        a - b
    } else {
        0
    }
}

} // verus!
