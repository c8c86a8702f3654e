//! Decimal rendering of the integer quantities that appear in the output
//! documents: plain unsigned and signed values, and fixed-point values kept
//! in tenths and shown with one fractional digit.

use vstd::prelude::*;
use vstd::string::StringExecFns;

verus! {

/// The character of a single decimal digit.
pub open spec fn dec_digit(d: int) -> char {
    if d == 0 {
        '0'
    } else if d == 1 {
        '1'
    } else if d == 2 {
        '2'
    } else if d == 3 {
        '3'
    } else if d == 4 {
        '4'
    } else if d == 5 {
        '5'
    } else if d == 6 {
        '6'
    } else if d == 7 {
        '7'
    } else if d == 8 {
        '8'
    } else {
        '9'
    }
}

/// The character of a single hexadecimal digit.
pub open spec fn hex_digit(d: int) -> char {
    if d < 10 {
        dec_digit(d)
    } else if d == 10 {
        'a'
    } else if d == 11 {
        'b'
    } else if d == 12 {
        'c'
    } else if d == 13 {
        'd'
    } else if d == 14 {
        'e'
    } else {
        'f'
    }
}

/// Decimal digits of a non-negative integer, most significant first, with
/// no leading zeros (a lone zero for 0).
pub open spec fn dec_str(n: int) -> Seq<char>
    decreases n,
{
    if n < 10 {
        seq![dec_digit(n)]
    } else {
        dec_str(n / 10).push(dec_digit(n % 10))
    }
}

/// Signed decimal rendering: a leading minus sign for negative values.
pub open spec fn int_str(n: int) -> Seq<char> {
    if n < 0 {
        "-"@ + dec_str(-n)
    } else {
        dec_str(n)
    }
}

/// Fixed-point rendering of a value kept in tenths, with exactly one
/// fractional digit: 158000 tenths renders as "15800.0".
pub open spec fn tenths_str(v: int) -> Seq<char> {
    if v < 0 {
        "-"@ + dec_str((-v) / 10) + "."@ + seq![dec_digit((-v) % 10)]
    } else {
        dec_str(v / 10) + "."@ + seq![dec_digit(v % 10)]
    }
}

/// The one-character string of a decimal digit.
pub fn digit_str(d: u64) -> (s: &'static str)
    requires
        d < 10,
    ensures
        s@ == seq![dec_digit(d as int)],
{
    let s: &'static str = if d == 0 {
        "0"
    } else if d == 1 {
        "1"
    } else if d == 2 {
        "2"
    } else if d == 3 {
        "3"
    } else if d == 4 {
        "4"
    } else if d == 5 {
        "5"
    } else if d == 6 {
        "6"
    } else if d == 7 {
        "7"
    } else if d == 8 {
        "8"
    } else {
        "9"
    };
    proof {
        reveal_strlit("0");
        reveal_strlit("1");
        reveal_strlit("2");
        reveal_strlit("3");
        reveal_strlit("4");
        reveal_strlit("5");
        reveal_strlit("6");
        reveal_strlit("7");
        reveal_strlit("8");
        reveal_strlit("9");
        assert(s@ =~= seq![dec_digit(d as int)]);
    }
    s
}

/// The one-character string of a hexadecimal digit.
pub fn hex_digit_str(d: u32) -> (s: &'static str)
    requires
        d < 16,
    ensures
        s@ == seq![hex_digit(d as int)],
{
    let s: &'static str = if d < 10 {
        digit_str(d as u64)
    } else if d == 10 {
        "a"
    } else if d == 11 {
        "b"
    } else if d == 12 {
        "c"
    } else if d == 13 {
        "d"
    } else if d == 14 {
        "e"
    } else {
        "f"
    };
    proof {
        reveal_strlit("a");
        reveal_strlit("b");
        reveal_strlit("c");
        reveal_strlit("d");
        reveal_strlit("e");
        reveal_strlit("f");
        assert(s@ =~= seq![hex_digit(d as int)]);
    }
    s
}

/// Render an unsigned value in decimal.
pub fn fmt_u64(n: u64) -> (s: String)
    ensures
        s@ == dec_str(n as int),
    decreases n,
{
    if n < 10 {
        digit_str(n).to_owned()
    } else {
        let mut s = fmt_u64(n / 10);
        s.append(digit_str(n % 10));
        proof {
            assert(s@ =~= dec_str(n as int));
        }
        s
    }
}

/// Render a signed value in decimal.
pub fn fmt_i64(n: i64) -> (s: String)
    ensures
        s@ == int_str(n as int),
{
    if n >= 0 {
        fmt_u64(n as u64)
    } else {
        let m128: i128 = -(n as i128);
        proof {
            assert(0 <= m128 <= u64::MAX);
        }
        let m: u64 = m128 as u64;
        let mut s: String = "-".to_owned();
        let t = fmt_u64(m);
        s.append(t.as_str());
        s
    }
}

/// Render a value kept in tenths with one fractional digit.
pub fn fmt_tenths(v: i64) -> (s: String)
    ensures
        s@ == tenths_str(v as int),
{
    if v >= 0 {
        let n: u64 = v as u64;
        let mut s = fmt_u64(n / 10);
        s.append(".");
        s.append(digit_str(n % 10));
        s
    } else {
        let m128: i128 = -(v as i128);
        proof {
            assert(0 <= m128 <= u64::MAX);
        }
        let m: u64 = m128 as u64;
        let mut s: String = "-".to_owned();
        let t = fmt_u64(m / 10);
        s.append(t.as_str());
        s.append(".");
        s.append(digit_str(m % 10));
        s
    }
}

} // verus!
