//! Decimal rendering of disambiguation suffixes.
//!
//! A rebound name prints with a trailing marker `_<k>`, where `k` is the
//! suffix the scope tracker assigned at bind time. This module gives the
//! marker its mathematical spelling and a verified printer for it.

use vstd::prelude::*;
use vstd::string::StringExecFns;

verus! {

/// The single decimal digit `d` (`d < 10`) as text.
pub open spec fn digit_text(d: nat) -> Seq<char> {
    if d == 0 {
        "0"@
    } else if d == 1 {
        "1"@
    } else if d == 2 {
        "2"@
    } else if d == 3 {
        "3"@
    } else if d == 4 {
        "4"@
    } else if d == 5 {
        "5"@
    } else if d == 6 {
        "6"@
    } else if d == 7 {
        "7"@
    } else if d == 8 {
        "8"@
    } else {
        "9"@
    }
}

/// The decimal spelling of `n`, most significant digit first, no sign and
/// no leading zeroes (except for `n == 0` itself).
pub open spec fn decimal_text(n: nat) -> Seq<char>
    decreases n,
{
    if n < 10 {
        digit_text(n)
    } else {
        decimal_text(n / 10) + digit_text(n % 10)
    }
}

/// The trailing disambiguation marker for suffix `k`: an underscore
/// followed by `k` in decimal.
pub open spec fn marker_text(k: usize) -> Seq<char> {
    "_"@ + decimal_text(k as nat)
}

fn digit_str(d: usize) -> (r: &'static str)
    requires
        d < 10,
    ensures
        r@ == digit_text(d as nat),
{
    if d == 0 {
        "0"
    } else if d == 1 {
        "1"
    } else if d == 2 {
        "2"
    } else if d == 3 {
        "3"
    } else if d == 4 {
        "4"
    } else if d == 5 {
        "5"
    } else if d == 6 {
        "6"
    } else if d == 7 {
        "7"
    } else if d == 8 {
        "8"
    } else {
        "9"
    }
}

/// `n` printed in decimal.
pub fn decimal_string(n: usize) -> (r: String)
    ensures
        r@ == decimal_text(n as nat),
    decreases n,
{
    if n < 10 {
        digit_str(n).to_owned()
    } else {
        let mut s = decimal_string(n / 10);
        s.append(digit_str(n % 10));
        s
    }
}

/// The disambiguation marker printed after a name whose binding was
/// assigned suffix `k`.
pub fn suffix_marker(k: usize) -> (r: String)
    ensures
        r@ == marker_text(k),
{
    let mut s = "_".to_owned();
    let digits = decimal_string(k);
    s.append(digits.as_str());
    s
}

} // verus!
