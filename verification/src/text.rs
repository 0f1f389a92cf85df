//! Scalars as text, for the status lines.
//!
//! A scalar is written in decimal: a minus sign if it is negative, the whole
//! units, and the thousandths after a point as far as they are not zero. So
//! `1500` reads `1.5`, `-250` reads `-0.25` and `100000` reads `100`.

use crate::scalar::SCALE;
use vstd::prelude::*;

verus! {

/// The text of one decimal digit.
pub open spec fn digit_text(d: nat) -> Seq<char>
    recommends
        d < 10,
{
    if d == 0 {
        "0"@
    } else if d == 1 {
        "1"@
    } else if d == 2 {
        "2"@
    } else if d == 3 {
        "3"@
    } else if d == 4 {
        "4"@
    } else if d == 5 {
        "5"@
    } else if d == 6 {
        "6"@
    } else if d == 7 {
        "7"@
    } else if d == 8 {
        "8"@
    } else {
        "9"@
    }
}

/// The decimal text of a natural number, without leading zeros.
pub open spec fn natural_text(n: nat) -> Seq<char>
    decreases n,
{
    if n < 10 {
        digit_text(n)
    } else {
        natural_text(n / 10) + digit_text(n % 10)
    }
}

/// The text of `f` thousandths, for `f` below a thousand: nothing for none,
/// and otherwise a point and the digits up to the last that is not zero.
pub open spec fn fraction_text(f: nat) -> Seq<char>
    recommends
        f < 1000,
{
    let tenths = digit_text(f / 100);
    let hundredths = digit_text((f / 10) % 10);
    let thousandths = digit_text(f % 10);
    if f == 0 {
        Seq::empty()
    } else if f % 100 == 0 {
        "."@ + tenths
    } else if f % 10 == 0 {
        "."@ + tenths + hundredths
    } else {
        "."@ + tenths + hundredths + thousandths
    }
}

/// The size of `x` without its sign.
pub open spec fn magnitude(x: i64) -> nat {
    if x < 0 {
        (-x) as nat
    } else {
        x as nat
    }
}

/// The text of a scalar.
pub open spec fn scalar_text(x: i64) -> Seq<char> {
    let sign = if x < 0 {
        "-"@
    } else {
        Seq::empty()
    };
    sign + natural_text(magnitude(x) / (SCALE as nat)) + fraction_text(
        magnitude(x) % (SCALE as nat),
    )
}

fn digit(d: u64) -> (text: &'static str)
    requires
        d < 10,
    ensures
        text@ == digit_text(d as nat),
{
    if d == 0 {
        "0"
    } else if d == 1 {
        "1"
    } else if d == 2 {
        "2"
    } else if d == 3 {
        "3"
    } else if d == 4 {
        "4"
    } else if d == 5 {
        "5"
    } else if d == 6 {
        "6"
    } else if d == 7 {
        "7"
    } else if d == 8 {
        "8"
    } else {
        "9"
    }
}

/// Writes `n` in decimal at the end of `text`.
pub fn append_natural(text: &mut String, n: u64)
    ensures
        final(text)@ == old(text)@ + natural_text(n as nat),
    decreases n,
{
    if n >= 10 {
        append_natural(text, n / 10);
    }
    text.append(digit(n % 10));
}

fn append_fraction(text: &mut String, f: u64)
    requires
        f < 1000,
    ensures
        final(text)@ == old(text)@ + fraction_text(f as nat),
{
    if f != 0 {
        text.append(".");
        text.append(digit(f / 100));
        if f % 100 != 0 {
            text.append(digit((f / 10) % 10));
            if f % 10 != 0 {
                text.append(digit(f % 10));
            }
        }
    }
}

/// Writes the scalar `x` at the end of `text`.
pub fn append_scalar(text: &mut String, x: i64)
    ensures
        final(text)@ == old(text)@ + scalar_text(x),
{
    let size: u64 = if x < 0 {
        text.append("-");
        ((-(x + 1)) as u64) + 1
    } else {
        x as u64
    };
    assert(size == magnitude(x));
    append_natural(text, size / 1000);
    append_fraction(text, size % 1000);
}

} // verus!
