//! Text helpers: equality of string slices, decimal and `Debug` renderings.

use vstd::prelude::*;
use vstd::string::*;

verus! {

/// The character of a decimal digit.
pub open spec fn digit_char(d: nat) -> char {
    if d == 0 { '0' }
    else if d == 1 { '1' }
    else if d == 2 { '2' }
    else if d == 3 { '3' }
    else if d == 4 { '4' }
    else if d == 5 { '5' }
    else if d == 6 { '6' }
    else if d == 7 { '7' }
    else if d == 8 { '8' }
    else { '9' }
}

/// Decimal digits of a natural number, most significant first, without leading zeros.
pub open spec fn decimal_nat(n: nat) -> Seq<char>
    decreases n,
{
    if n < 10 {
        seq![digit_char(n)]
    } else {
        decimal_nat(n / 10) + seq![digit_char(n % 10)]
    }
}

/// Decimal rendering of an integer, as `Display` and `Debug` print an `i64`.
pub open spec fn decimal_int(i: int) -> Seq<char> {
    if i < 0 {
        seq!['-'] + decimal_nat((-i) as nat)
    } else {
        decimal_nat(i as nat)
    }
}

fn digit_str(d: u64) -> (r: &'static str)
    requires
        d < 10,
    ensures
        r@ == seq![digit_char(d as nat)],
{
    proof {
        reveal_strlit("0");
        reveal_strlit("1");
        reveal_strlit("2");
        reveal_strlit("3");
        reveal_strlit("4");
        reveal_strlit("5");
        reveal_strlit("6");
        reveal_strlit("7");
        reveal_strlit("8");
        reveal_strlit("9");
    }
    if d == 0 { "0" }
    else if d == 1 { "1" }
    else if d == 2 { "2" }
    else if d == 3 { "3" }
    else if d == 4 { "4" }
    else if d == 5 { "5" }
    else if d == 6 { "6" }
    else if d == 7 { "7" }
    else if d == 8 { "8" }
    else { "9" }
}

/// Decimal rendering of an unsigned integer.
pub fn fmt_u64(n: u64) -> (r: String)
    ensures
        r@ == decimal_nat(n as nat),
    decreases n,
{
    if n < 10 {
        String::from_str(digit_str(n))
    } else {
        let mut s = fmt_u64(n / 10);
        s.append(digit_str(n % 10));
        s
    }
}

/// Decimal rendering of a signed integer, as `{}` and `{:?}` print it.
pub fn fmt_i64(x: i64) -> (r: String)
    ensures
        r@ == decimal_int(x as int),
{
    if x < 0 {
        let magnitude: u64 = if x == i64::MIN {
            9223372036854775808u64
        } else {
            (-x) as u64
        };
        let mut s = String::from_str("-");
        proof {
            reveal_strlit("-");
        }
        let digits = fmt_u64(magnitude);
        s.append(digits.as_str());
        s
    } else {
        fmt_u64(x as u64)
    }
}

/// Whether two string slices hold the same characters.
pub fn str_eq(a: &str, b: &str) -> (r: bool)
    ensures
        r == (a@ == b@),
{
    let sa = a.to_owned();
    let sb = b.to_owned();
    sa == sb
}

/// What `{:?}` prints for a string: the string in double quotes, with the
/// characters that `str::escape_debug` escapes written as escapes.
pub uninterp spec fn debug_str(s: Seq<char>) -> Seq<char>;

/// Calls std's `Debug` formatting of `str` (`format!("{:?}", s)`).
/// Trusted: the result is the value of `debug_str` on the characters of `s`;
/// nothing more is claimed of that value.
#[verifier::external_body]
fn debug_escape(s: &str) -> (r: String)
    ensures
        r@ == debug_str(s@),
{
    format!("{:?}", s)
}

/// What `{:?}` prints for an `Option<String>`.
pub open spec fn debug_opt_string(o: Option<String>) -> Seq<char> {
    match o {
        Some(s) => "Some("@ + debug_str(s@) + ")"@,
        None => "None"@,
    }
}

/// What `{:?}` prints for an `Option<i64>`.
pub open spec fn debug_opt_i64(o: Option<i64>) -> Seq<char> {
    match o {
        Some(x) => "Some("@ + decimal_int(x as int) + ")"@,
        None => "None"@,
    }
}

/// Renders an `Option<String>` as `{:?}` does.
pub fn fmt_debug_opt_string(o: &Option<String>) -> (r: String)
    ensures
        r@ == debug_opt_string(*o),
{
    match o {
        Some(s) => {
            let mut r = String::from_str("Some(");
            let inner = debug_escape(s.as_str());
            r.append(inner.as_str());
            r.append(")");
            r
        },
        None => String::from_str("None"),
    }
}

/// Renders an `Option<i64>` as `{:?}` does.
pub fn fmt_debug_opt_i64(o: Option<i64>) -> (r: String)
    ensures
        r@ == debug_opt_i64(o),
{
    match o {
        Some(x) => {
            let mut r = String::from_str("Some(");
            let inner = fmt_i64(x);
            r.append(inner.as_str());
            r.append(")");
            r
        },
        None => String::from_str("None"),
    }
}

} // verus!
