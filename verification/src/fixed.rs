//! Saturating fixed-point arithmetic.
//!
//! Every quantity of the engine (samples, gains, positions, durations, pitch
//! ratios) is a signed fixed-point number with 32 fractional bits, stored in an
//! `i64`: the number `raw / 2^32`. The operations here are total. A result that
//! leaves the `i64` range is clamped to it, a quotient or product that is not
//! representable is rounded toward zero, and a division by zero clamps toward
//! the sign of the dividend.
use vstd::prelude::*;

verus! {

/// A fixed-point number with 32 fractional bits: `raw / 2^32`.
pub type Fixed = i64;

/// The number one.
pub const ONE: Fixed = 4294967296;

/// The largest representable number.
pub const MAX: Fixed = 9223372036854775807;

/// The smallest representable number.
pub const MIN: Fixed = -9223372036854775808;

/// `v` clamped to the representable range.
pub open spec fn saturate(v: int) -> Fixed {
    if v < MIN {
        MIN
    } else if v > MAX {
        MAX
    } else {
        v as Fixed
    }
}

/// The quotient `n / d` rounded toward zero (`d` is not zero).
pub open spec fn truncating_quotient(n: int, d: int) -> int
    recommends
        d != 0,
{
    if d > 0 {
        if n >= 0 {
            n / d
        } else {
            -((-n) / d)
        }
    } else {
        if n >= 0 {
            -(n / (-d))
        } else {
            (-n) / (-d)
        }
    }
}

/// The saturated sum `a + b`.
pub open spec fn plus(a: Fixed, b: Fixed) -> Fixed {
    saturate(a + b)
}

/// The saturated difference `a - b`.
pub open spec fn minus(a: Fixed, b: Fixed) -> Fixed {
    saturate(a - b)
}

/// The saturated negation `-a`.
pub open spec fn negated(a: Fixed) -> Fixed {
    saturate(-a)
}

/// The saturated product `a * b`, rounded toward zero.
pub open spec fn times(a: Fixed, b: Fixed) -> Fixed {
    saturate(truncating_quotient(a * b, ONE as int))
}

/// The saturated quotient `a / b`, rounded toward zero. A division by zero
/// yields the bound of the range on the dividend's side, and zero for `0 / 0`.
pub open spec fn over(a: Fixed, b: Fixed) -> Fixed {
    if b == 0 {
        if a > 0 {
            MAX
        } else if a < 0 {
            MIN
        } else {
            0
        }
    } else {
        saturate(truncating_quotient(a * ONE, b as int))
    }
}

/// The fixed-point number that stands for the whole number `n`, saturated.
pub open spec fn whole(n: int) -> Fixed {
    saturate(n * ONE)
}

/// The smallest whole number that is not below `a`.
pub open spec fn ceiling(a: int) -> int {
    (a + ONE - 1) / (ONE as int)
}

/// The value at `weight` of the way from `next` to `previous`:
/// `next + weight * (previous - next)`, the product rounded toward zero.
pub open spec fn blend(next: Fixed, previous: Fixed, weight: Fixed) -> Fixed {
    saturate(next + truncating_quotient(weight * (previous - next), ONE as int))
}

/// The ceiling of `a` is the one whole number `c` with `c - 1 < a <= c`.
pub proof fn lemma_ceiling_bounds(a: int)
    ensures
        (ceiling(a) - 1) * ONE < a <= ceiling(a) * ONE,
{
}

/// A weight between zero and one blends to a value between the two samples.
pub proof fn lemma_blend_between(next: Fixed, previous: Fixed, weight: Fixed)
    requires
        0 <= weight <= ONE,
    ensures
        next <= previous ==> next <= blend(next, previous, weight) <= previous,
        previous <= next ==> previous <= blend(next, previous, weight) <= next,
        weight == 0 ==> blend(next, previous, weight) == next,
        weight == ONE ==> blend(next, previous, weight) == previous,
{
    let d = previous - next;
    let p = weight * d;
    assert(d >= 0 ==> 0 <= p <= 4294967296 * d) by (nonlinear_arith)
        requires
            p == weight * d,
            0 <= weight <= 4294967296,
    ;
    assert(d <= 0 ==> 4294967296 * d <= p <= 0) by (nonlinear_arith)
        requires
            p == weight * d,
            0 <= weight <= 4294967296,
    ;
    assert(weight == 0 ==> p == 0) by (nonlinear_arith)
        requires
            p == weight * d,
    ;
    assert(weight == 4294967296 ==> p == 4294967296 * d) by (nonlinear_arith)
        requires
            p == weight * d,
    ;
}

/// One is the unit of the product, and zero annihilates it.
pub proof fn lemma_times_unit(a: Fixed)
    ensures
        times(a, ONE) == a,
        times(ONE, a) == a,
        times(a, 0) == 0,
        times(0, a) == 0,
{
    assert(a * ONE == 4294967296 * a && ONE * a == 4294967296 * a) by (nonlinear_arith)
        requires
            ONE == 4294967296,
    ;
    assert(a * 0 == 0 && 0 * a == 0) by (nonlinear_arith);
}

/// One half as a factor halves a number, rounding toward zero.
pub proof fn lemma_times_half(a: Fixed)
    ensures
        times(a, 2147483648) == truncating_quotient(a as int, 2),
{
    assert(a * 2147483648 == 2147483648 * a) by (nonlinear_arith);
}

/// Clamps a wide integer to the representable range.
pub fn saturating(v: i128) -> (r: Fixed)
    ensures
        r == saturate(v as int),
{
    if v < MIN as i128 {
        MIN
    } else if v > MAX as i128 {
        MAX
    } else {
        v as i64
    }
}

/// Divides `n` by `d`, rounding toward zero.
pub fn wide_quotient(n: i128, d: i128) -> (r: i128)
    requires
        d != 0,
        -170141183460469231731687303715884105727 <= n,
        -170141183460469231731687303715884105727 <= d,
    ensures
        r == truncating_quotient(n as int, d as int),
{
    let n_abs: u128 = if n < 0 {
        (-n) as u128
    } else {
        n as u128
    };
    let d_abs: u128 = if d < 0 {
        (-d) as u128
    } else {
        d as u128
    };
    let q: u128 = n_abs / d_abs;
    assert(q <= n_abs) by (nonlinear_arith)
        requires
            q == n_abs / d_abs,
            d_abs >= 1,
    ;
    if (n < 0) == (d < 0) {
        q as i128
    } else {
        -(q as i128)
    }
}

/// The saturated sum of two numbers.
pub fn fx_add(a: Fixed, b: Fixed) -> (r: Fixed)
    ensures
        r == plus(a, b),
{
    saturating(a as i128 + b as i128)
}

/// The saturated difference of two numbers.
pub fn fx_sub(a: Fixed, b: Fixed) -> (r: Fixed)
    ensures
        r == minus(a, b),
{
    saturating(a as i128 - b as i128)
}

/// The saturated negation of a number.
pub fn fx_neg(a: Fixed) -> (r: Fixed)
    ensures
        r == negated(a),
{
    saturating(-(a as i128))
}

/// The saturated product of two numbers, rounded toward zero.
pub fn fx_mul(a: Fixed, b: Fixed) -> (r: Fixed)
    ensures
        r == times(a, b),
{
    assert(-0x4000_0000_0000_0000_0000_0000_0000_0000 <= a * b
        <= 0x4000_0000_0000_0000_0000_0000_0000_0000) by (nonlinear_arith)
        requires
            -0x8000_0000_0000_0000 <= a <= 0x8000_0000_0000_0000,
            -0x8000_0000_0000_0000 <= b <= 0x8000_0000_0000_0000,
    ;
    let p: i128 = a as i128 * b as i128;
    saturating(wide_quotient(p, ONE as i128))
}

/// The saturated quotient of two numbers, rounded toward zero; a division by
/// zero yields the bound of the range on the dividend's side.
pub fn fx_div(a: Fixed, b: Fixed) -> (r: Fixed)
    ensures
        r == over(a, b),
{
    if b == 0 {
        if a > 0 {
            MAX
        } else if a < 0 {
            MIN
        } else {
            0
        }
    } else {
        assert(-0x8000_0000_0000_0000_0000_0000 <= a * ONE <= 0x8000_0000_0000_0000_0000_0000)
            by (nonlinear_arith)
            requires
                -0x8000_0000_0000_0000 <= a <= 0x8000_0000_0000_0000,
                ONE == 0x1_0000_0000,
        ;
        let n: i128 = a as i128 * ONE as i128;
        saturating(wide_quotient(n, b as i128))
    }
}

/// The fixed-point number that stands for a whole number, saturated.
pub fn from_whole(n: i64) -> (r: Fixed)
    ensures
        r == whole(n as int),
{
    assert(-0x8000_0000_0000_0000_0000_0000 <= n * ONE <= 0x8000_0000_0000_0000_0000_0000)
        by (nonlinear_arith)
        requires
            -0x8000_0000_0000_0000 <= n <= 0x8000_0000_0000_0000,
            ONE == 0x1_0000_0000,
    ;
    saturating(n as i128 * ONE as i128)
}

/// The smallest whole number that is not below `a`.
pub fn ceiling_of(a: Fixed) -> (r: i64)
    ensures
        r == ceiling(a as int),
{
    let shifted: i128 = a as i128 + (ONE as i128 - 1);
    if shifted >= 0 {
        (shifted / ONE as i128) as i64
    } else {
        let q: i128 = (-shifted - 1) / ONE as i128;
        (-q - 1) as i64
    }
}

/// The value at `weight` of the way from `next` to `previous`, for a weight
/// between zero and one.
pub fn interpolate(next: Fixed, previous: Fixed, weight: Fixed) -> (r: Fixed)
    requires
        0 <= weight <= ONE,
    ensures
        r == blend(next, previous, weight),
{
    let d: i128 = previous as i128 - next as i128;
    assert(-0x1_0000_0000_0000_0000_0000_0000 <= weight * d
        <= 0x1_0000_0000_0000_0000_0000_0000) by (nonlinear_arith)
        requires
            0 <= weight <= 0x1_0000_0000,
            -0x1_0000_0000_0000_0000 <= d <= 0x1_0000_0000_0000_0000,
    ;
    let p: i128 = weight as i128 * d;
    saturating(next as i128 + wide_quotient(p, ONE as i128))
}

} // verus!
