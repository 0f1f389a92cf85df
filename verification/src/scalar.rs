//! Fixed-point scalars.
//!
//! Every quantity in this crate is an `i64` that counts thousandths of a unit:
//! `1000` is one watt, one joule, one gram or the fraction one. Arithmetic
//! never fails. A result beyond the range of `i64` stops at the nearest end
//! of the range, and a quotient is cut off towards zero.

use vstd::prelude::*;

verus! {

/// The scalar that stands for one whole unit.
pub const SCALE: i64 = 1000;

/// The value of `i64` nearest to `x`.
pub open spec fn clip(x: int) -> i64 {
    if x > i64::MAX {
        i64::MAX
    } else if x < i64::MIN {
        i64::MIN
    } else {
        x as i64
    }
}

/// The quotient of `n` by a positive `d`, cut off towards zero.
pub open spec fn quotient(n: int, d: int) -> int
    recommends
        d > 0,
{
    if n >= 0 {
        n / d
    } else {
        -((-n) / d)
    }
}

/// The sum of two scalars.
pub open spec fn spec_plus(a: i64, b: i64) -> i64 {
    clip(a + b)
}

/// The difference of two scalars.
pub open spec fn spec_minus(a: i64, b: i64) -> i64 {
    clip(a - b)
}

/// A scalar with its sign turned.
pub open spec fn spec_negated(a: i64) -> i64 {
    clip(-a)
}

/// The smaller of two scalars.
pub open spec fn spec_min(x: i64, y: i64) -> i64 {
    if x < y {
        x
    } else {
        y
    }
}

/// The larger of two scalars.
pub open spec fn spec_max(x: i64, y: i64) -> i64 {
    if x > y {
        x
    } else {
        y
    }
}

/// `x` times the rational `num / den`, for a positive `den`.
pub open spec fn spec_scaled(x: i64, num: i64, den: i64) -> i64
    recommends
        den > 0,
{
    clip(quotient(x * num, den as int))
}

/// The product of two scalars, as a scalar.
pub open spec fn spec_times(a: i64, b: i64) -> i64 {
    spec_scaled(a, b, SCALE)
}

/// The ratio of `a` to a positive `b`, as a scalar.
pub open spec fn spec_ratio(a: i64, b: i64) -> i64
    recommends
        b > 0,
{
    spec_scaled(a, SCALE, b)
}

/// A whole number of units as a scalar.
pub open spec fn spec_whole(n: u64) -> i64 {
    clip(n * SCALE)
}

/// `part` in hundredths of `total`, as a scalar. A `total` that is not
/// positive has no parts.
pub open spec fn spec_percent(part: i64, total: i64) -> i64 {
    if total > 0 {
        spec_ratio(spec_scaled(part, 100, 1), total)
    } else {
        0
    }
}

/// The sum of two scalars, held within the range of `i64`.
#[verifier::when_used_as_spec(spec_plus)]
pub fn plus(a: i64, b: i64) -> (r: i64)
    ensures
        r == spec_plus(a, b),
{
    if b > 0 && a > i64::MAX - b {
        i64::MAX
    } else if b < 0 && a < i64::MIN - b {
        i64::MIN
    } else {
        a + b
    }
}

/// The difference of two scalars, held within the range of `i64`.
#[verifier::when_used_as_spec(spec_minus)]
pub fn minus(a: i64, b: i64) -> (r: i64)
    ensures
        r == spec_minus(a, b),
{
    if b < 0 && a > i64::MAX + b {
        i64::MAX
    } else if b > 0 && a < i64::MIN + b {
        i64::MIN
    } else {
        a - b
    }
}

/// A scalar with its sign turned; the lowest scalar turns into the highest.
#[verifier::when_used_as_spec(spec_negated)]
pub fn negated(a: i64) -> (r: i64)
    ensures
        r == spec_negated(a),
{
    if a == i64::MIN {
        i64::MAX
    } else {
        -a
    }
}

/// The smaller of two scalars.
#[verifier::when_used_as_spec(spec_min)]
pub fn min(x: i64, y: i64) -> (r: i64)
    ensures
        r == spec_min(x, y),
{
    if x < y {
        x
    } else {
        y
    }
}

/// The larger of two scalars.
#[verifier::when_used_as_spec(spec_max)]
pub fn max(x: i64, y: i64) -> (r: i64)
    ensures
        r == spec_max(x, y),
{
    if x > y {
        x
    } else {
        y
    }
}

/// `x` times `num / den`, worked out on the exact product, cut off towards
/// zero and held within the range of `i64`.
#[verifier::when_used_as_spec(spec_scaled)]
pub fn scaled(x: i64, num: i64, den: i64) -> (r: i64)
    requires
        den > 0,
    ensures
        r == spec_scaled(x, num, den),
{
    assert(-0x4000_0000_0000_0000_0000_0000_0000_0000 <= x * num
        <= 0x4000_0000_0000_0000_0000_0000_0000_0000) by (nonlinear_arith)
        requires
            -0x8000_0000_0000_0000 <= x <= 0x7fff_ffff_ffff_ffff,
            -0x8000_0000_0000_0000 <= num <= 0x7fff_ffff_ffff_ffff,
    ;
    let product: i128 = (x as i128) * (num as i128);
    let q: i128 = product / (den as i128);
    if q > i64::MAX as i128 {
        i64::MAX
    } else if q < i64::MIN as i128 {
        i64::MIN
    } else {
        q as i64
    }
}

/// The product of two scalars, as a scalar.
#[verifier::when_used_as_spec(spec_times)]
pub fn times(a: i64, b: i64) -> (r: i64)
    ensures
        r == spec_times(a, b),
{
    scaled(a, b, SCALE)
}

/// The ratio of `a` to `b`, as a scalar.
#[verifier::when_used_as_spec(spec_ratio)]
pub fn ratio(a: i64, b: i64) -> (r: i64)
    requires
        b > 0,
    ensures
        r == spec_ratio(a, b),
{
    scaled(a, SCALE, b)
}

/// `n` whole units as a scalar.
#[verifier::when_used_as_spec(spec_whole)]
pub fn whole(n: u64) -> (r: i64)
    ensures
        r == spec_whole(n),
{
    if n > 9_223_372_036_854_775 {
        i64::MAX
    } else {
        (n * 1000) as i64
    }
}

/// `part` in hundredths of `total`, or nothing if `total` is not positive.
#[verifier::when_used_as_spec(spec_percent)]
pub fn percent(part: i64, total: i64) -> (r: i64)
    ensures
        r == spec_percent(part, total),
{
    if total > 0 {
        ratio(scaled(part, 100, 1), total)
    } else {
        0
    }
}

/// Scaling by a ratio that is not negative keeps the sign of a scalar that
/// is not negative.
pub proof fn lemma_scaled_nonnegative(x: i64, num: i64, den: i64)
    requires
        x >= 0,
        num >= 0,
        den > 0,
    ensures
        spec_scaled(x, num, den) >= 0,
{
    assert(x * num >= 0) by (nonlinear_arith)
        requires
            x >= 0,
            num >= 0,
    ;
    assert((x * num) / (den as int) >= 0) by (nonlinear_arith)
        requires
            x * num >= 0,
            den > 0,
    ;
}

/// Scaling by a ratio of at most one does not take a scalar that is not
/// negative beyond itself.
pub proof fn lemma_scaled_shrinks(x: i64, num: i64, den: i64)
    requires
        x >= 0,
        0 <= num <= den,
        den > 0,
    ensures
        spec_scaled(x, num, den) <= x,
{
    assert(x * num <= x * den) by (nonlinear_arith)
        requires
            x >= 0,
            num <= den,
    ;
    assert(x * num >= 0) by (nonlinear_arith)
        requires
            x >= 0,
            num >= 0,
    ;
    assert((x * num) / (den as int) <= x) by (nonlinear_arith)
        requires
            0 <= x * num <= x * den,
            den > 0,
    ;
}

/// Scaling by a ratio that is not negative keeps the order of two scalars.
pub proof fn lemma_scaled_monotone(x: i64, y: i64, num: i64, den: i64)
    requires
        x <= y,
        num >= 0,
        den > 0,
    ensures
        spec_scaled(x, num, den) <= spec_scaled(y, num, den),
{
    let a = x * num;
    let b = y * num;
    let d = den as int;
    assert(a <= b) by (nonlinear_arith)
        requires
            a == x * num,
            b == y * num,
            x <= y,
            num >= 0,
    ;
    if a >= 0 {
        assert(a / d <= b / d) by (nonlinear_arith)
            requires
                0 <= a <= b,
                d > 0,
        ;
    } else if b >= 0 {
        assert((-a) / d >= 0) by (nonlinear_arith)
            requires
                -a >= 0,
                d > 0,
        ;
        assert(b / d >= 0) by (nonlinear_arith)
            requires
                b >= 0,
                d > 0,
        ;
    } else {
        assert((-b) / d <= (-a) / d) by (nonlinear_arith)
            requires
                0 <= -b <= -a,
                d > 0,
        ;
    }
}

} // verus!
