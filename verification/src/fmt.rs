//! Verified decimal formatting: plain integers and fixed-point fractions,
//! each with an exact character-sequence contract.

use vstd::prelude::*;
use vstd::string::StringExecFns;

verus! {

/// The decimal digit character of a value below ten.
pub open spec fn dec_digit(d: int) -> char {
    if d == 0 {
        '0'
    } else if d == 1 {
        '1'
    } else if d == 2 {
        '2'
    } else if d == 3 {
        '3'
    } else if d == 4 {
        '4'
    } else if d == 5 {
        '5'
    } else if d == 6 {
        '6'
    } else if d == 7 {
        '7'
    } else if d == 8 {
        '8'
    } else {
        '9'
    }
}

/// The decimal representation of a natural number, without leading zeros
/// (a single zero for zero itself).
pub open spec fn dec_str(n: nat) -> Seq<char>
    decreases n,
{
    if n < 10 {
        seq![dec_digit(n as int)]
    } else {
        dec_str(n / 10) + seq![dec_digit((n % 10) as int)]
    }
}

/// The one-character string of a single decimal digit.
fn digit_str(d: u64) -> (r: &'static str)
    requires
        d < 10,
    ensures
        r@ == seq![dec_digit(d as int)],
{
    proof {
        reveal_strlit("0");
        reveal_strlit("1");
        reveal_strlit("2");
        reveal_strlit("3");
        reveal_strlit("4");
        reveal_strlit("5");
        reveal_strlit("6");
        reveal_strlit("7");
        reveal_strlit("8");
        reveal_strlit("9");
        assert("0"@ =~= seq![dec_digit(0)]);
        assert("1"@ =~= seq![dec_digit(1)]);
        assert("2"@ =~= seq![dec_digit(2)]);
        assert("3"@ =~= seq![dec_digit(3)]);
        assert("4"@ =~= seq![dec_digit(4)]);
        assert("5"@ =~= seq![dec_digit(5)]);
        assert("6"@ =~= seq![dec_digit(6)]);
        assert("7"@ =~= seq![dec_digit(7)]);
        assert("8"@ =~= seq![dec_digit(8)]);
        assert("9"@ =~= seq![dec_digit(9)]);
    }
    match d {
        0 => "0",
        1 => "1",
        2 => "2",
        3 => "3",
        4 => "4",
        5 => "5",
        6 => "6",
        7 => "7",
        8 => "8",
        _ => "9",
    }
}

/// The decimal string of an unsigned 64-bit value.
pub fn fmt_u64(n: u64) -> (r: String)
    ensures
        r@ == dec_str(n as nat),
    decreases n,
{
    if n < 10 {
        String::from_str(digit_str(n))
    } else {
        let mut s = fmt_u64(n / 10);
        s.append(digit_str(n % 10));
        s
    }
}

/// The decimal string of a `usize` value.
pub fn fmt_usize(n: usize) -> (r: String)
    ensures
        r@ == dec_str(n as nat),
{
    fmt_u64(n as u64)
}

/// The magnitude used when formatting a 64-bit-ranged signed value: the
/// absolute value, exact for the whole range the trusted truncation can
/// produce.
pub open spec fn mag_of(t: int) -> nat {
    if t < 0 {
        (-t) as nat
    } else {
        t as nat
    }
}

/// A fixed-point decimal with `scale` fractional digits of the value
/// `t / 10^scale`: an optional minus sign, the integer part, a point, and
/// exactly `frac_digits` zero-padded fractional digits.
pub open spec fn fixed_str(t: int, pow: nat, frac: Seq<char>) -> Seq<char> {
    (if t < 0 {
        seq!['-']
    } else {
        Seq::<char>::empty()
    }) + dec_str(mag_of(t) / pow) + seq!['.'] + frac
}

/// The four zero-padded fractional digits of a magnitude below 10000.
pub open spec fn pad4(m: nat) -> Seq<char> {
    seq![
        dec_digit((m / 1000 % 10) as int),
        dec_digit((m / 100 % 10) as int),
        dec_digit((m / 10 % 10) as int),
        dec_digit((m % 10) as int),
    ]
}

/// The two zero-padded fractional digits of a magnitude below 100.
pub open spec fn pad2(m: nat) -> Seq<char> {
    seq![dec_digit((m / 10 % 10) as int), dec_digit((m % 10) as int)]
}

/// Formats `t` as a decimal with four fractional digits, where `t` counts
/// ten-thousandths: the sign, then `|t| / 10000`, a point, and
/// `|t| % 10000` padded to four digits.
pub fn fmt_fixed4(t: i128) -> (r: String)
    requires
        -0x8000_0000_0000_0000i128 <= t <= 0x7FFF_FFFF_FFFF_FFFFi128,
    ensures
        r@ == fixed_str(t as int, 10000, pad4((mag_of(t as int) % 10000) as nat)),
{
    let neg = t < 0;
    let mag: u64 = if neg {
        (-t) as u64
    } else {
        t as u64
    };
    let mut s = if neg {
        String::from_str("-")
    } else {
        String::from_str("")
    };
    proof {
        reveal_strlit("-");
        reveal_strlit("");
        assert("-"@ =~= seq!['-']);
        assert(""@ =~= Seq::<char>::empty());
    }
    let whole = fmt_u64(mag / 10000);
    s.append(whole.as_str());
    s.append(".");
    proof {
        reveal_strlit(".");
        assert("."@ =~= seq!['.']);
    }
    let m = mag % 10000;
    s.append(digit_str(m / 1000 % 10));
    s.append(digit_str(m / 100 % 10));
    s.append(digit_str(m / 10 % 10));
    s.append(digit_str(m % 10));
    proof {
        assert(s@ =~= fixed_str(t as int, 10000, pad4((mag_of(t as int) % 10000) as nat)));
    }
    s
}

/// Formats `t` as a decimal with two fractional digits, where `t` counts
/// hundredths: the sign, then `|t| / 100`, a point, and `|t| % 100` padded
/// to two digits.
pub fn fmt_fixed2(t: i128) -> (r: String)
    requires
        -0x8000_0000_0000_0000i128 <= t <= 0x7FFF_FFFF_FFFF_FFFFi128,
    ensures
        r@ == fixed_str(t as int, 100, pad2((mag_of(t as int) % 100) as nat)),
{
    let neg = t < 0;
    let mag: u64 = if neg {
        (-t) as u64
    } else {
        t as u64
    };
    let mut s = if neg {
        String::from_str("-")
    } else {
        String::from_str("")
    };
    proof {
        reveal_strlit("-");
        reveal_strlit("");
        assert("-"@ =~= seq!['-']);
        assert(""@ =~= Seq::<char>::empty());
    }
    let whole = fmt_u64(mag / 100);
    s.append(whole.as_str());
    s.append(".");
    proof {
        reveal_strlit(".");
        assert("."@ =~= seq!['.']);
    }
    let m = mag % 100;
    s.append(digit_str(m / 10 % 10));
    s.append(digit_str(m % 10));
    proof {
        assert(s@ =~= fixed_str(t as int, 100, pad2((mag_of(t as int) % 100) as nat)));
    }
    s
}

} // verus!
