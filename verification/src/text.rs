//! Verified rendering of plain values as text: decimal numerals, signed
//! numerals, booleans, and the debug shape of an optional exit code.

use vstd::prelude::*;
use vstd::string::StringExecFns;

verus! {

/// The decimal digit character for `d` (meaningful for `0 <= d < 10`).
pub open spec fn digit_char(d: int) -> char
    recommends
        0 <= d < 10,
{
    if d == 0 {
        '0'
    } else if d == 1 {
        '1'
    } else if d == 2 {
        '2'
    } else if d == 3 {
        '3'
    } else if d == 4 {
        '4'
    } else if d == 5 {
        '5'
    } else if d == 6 {
        '6'
    } else if d == 7 {
        '7'
    } else if d == 8 {
        '8'
    } else {
        '9'
    }
}

/// The decimal numeral of `n`, most significant digit first, no leading zeros
/// (the numeral of zero is "0").
pub open spec fn decimal_seq(n: nat) -> Seq<char>
    decreases n,
{
    if n < 10 {
        seq![digit_char(n as int)]
    } else {
        decimal_seq(n / 10) + seq![digit_char((n % 10) as int)]
    }
}

/// The decimal numeral of a signed value: a leading '-' for negatives.
pub open spec fn signed_decimal_seq(v: int) -> Seq<char> {
    if v < 0 {
        seq!['-'] + decimal_seq((-v) as nat)
    } else {
        decimal_seq(v as nat)
    }
}

fn digit_text(d: u64) -> (r: String)
    requires
        d < 10,
    ensures
        r@ == seq![digit_char(d as int)],
{
    let s: &str = if d == 0 {
        "0"
    } else if d == 1 {
        "1"
    } else if d == 2 {
        "2"
    } else if d == 3 {
        "3"
    } else if d == 4 {
        "4"
    } else if d == 5 {
        "5"
    } else if d == 6 {
        "6"
    } else if d == 7 {
        "7"
    } else if d == 8 {
        "8"
    } else {
        "9"
    };
    proof {
        reveal_strlit("0");
        reveal_strlit("1");
        reveal_strlit("2");
        reveal_strlit("3");
        reveal_strlit("4");
        reveal_strlit("5");
        reveal_strlit("6");
        reveal_strlit("7");
        reveal_strlit("8");
        reveal_strlit("9");
        assert(s@ =~= seq![digit_char(d as int)]);
    }
    s.to_owned()
}

/// The decimal numeral of `n`.
pub fn u64_decimal(n: u64) -> (r: String)
    ensures
        r@ == decimal_seq(n as nat),
    decreases n,
{
    if n < 10 {
        digit_text(n)
    } else {
        let mut r = u64_decimal(n / 10);
        let last = digit_text(n % 10);
        r.append(last.as_str());
        r
    }
}

/// The decimal numeral of `v`, with a leading '-' when `v` is negative.
pub fn i32_decimal(v: i32) -> (r: String)
    ensures
        r@ == signed_decimal_seq(v as int),
{
    if v >= 0 {
        u64_decimal(v as u64)
    } else {
        let wide: i64 = v as i64;
        let mag: u64 = (-wide) as u64;
        let mut r: String = "-".to_owned();
        proof {
            reveal_strlit("-");
            assert(r@ =~= seq!['-']);
        }
        let digits = u64_decimal(mag);
        r.append(digits.as_str());
        r
    }
}

pub open spec fn bool_seq(b: bool) -> Seq<char> {
    if b {
        "true"@
    } else {
        "false"@
    }
}

/// The text of a boolean, as it prints.
pub fn bool_text(b: bool) -> (r: String)
    ensures
        r@ == bool_seq(b),
{
    if b {
        "true".to_owned()
    } else {
        "false".to_owned()
    }
}

/// The debug shape of an optional signed code: `Some(v)` or `None`.
pub open spec fn opt_code_seq(c: Option<i32>) -> Seq<char> {
    match c {
        Some(v) => "Some("@ + signed_decimal_seq(v as int) + ")"@,
        None => "None"@,
    }
}

/// Renders an optional exit code the way it appears in diagnostics:
/// `Some(v)` with the decimal numeral of `v`, or `None`.
pub fn opt_code_text(c: &Option<i32>) -> (r: String)
    ensures
        r@ == opt_code_seq(*c),
{
    match c {
        Some(v) => {
            let mut r: String = "Some(".to_owned();
            let digits = i32_decimal(*v);
            r.append(digits.as_str());
            r.append(")");
            r
        },
        None => "None".to_owned(),
    }
}

} // verus!
