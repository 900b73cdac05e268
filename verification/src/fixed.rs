//! Fixed-point arithmetic shared by the camera components.
//!
//! Lengths, angles, durations and factors are integers that count millionths:
//! a length of one world unit is `SCALE`, a lerp factor of one half is
//! `SCALE / 2`, a frame time of a sixtieth of a second is 16667. Products are
//! taken exactly in 128 bits and brought back to millionths by a division that
//! rounds toward zero, so that a quantity and its negation are treated alike.
use vstd::prelude::*;

verus! {

/// The number of steps in one unit.
pub const SCALE: i64 = 1_000_000;

/// The quotient of `n` by a positive `d`, rounded toward zero.
pub open spec fn trunc_div(n: int, d: int) -> int {
    if n >= 0 {
        n / d
    } else {
        -((-n) / d)
    }
}

/// `v` times the fixed-point factor `factor`, rounded toward zero.
pub open spec fn scaled(v: int, factor: int) -> int {
    trunc_div(v * factor, SCALE as int)
}

/// The distance of `v` from zero.
pub open spec fn magnitude(v: int) -> int {
    if v >= 0 {
        v
    } else {
        -v
    }
}

/// Whether `v` can be stored in an `i64`.
pub open spec fn fits_i64(v: int) -> bool {
    i64::MIN <= v <= i64::MAX
}

/// Whether `v` can be stored in a `u32`.
pub open spec fn fits_u32(v: int) -> bool {
    0 <= v <= u32::MAX
}

/// Rounding toward zero never moves a quotient away from zero, never flips
/// its sign, and loses less than one step.
pub proof fn lemma_trunc_div_bounds(n: int, d: int)
    requires
        d > 0,
    ensures
        n >= 0 ==> 0 <= trunc_div(n, d) && d * trunc_div(n, d) <= n < d * trunc_div(n, d) + d,
        n <= 0 ==> trunc_div(n, d) <= 0 && d * trunc_div(n, d) >= n > d * trunc_div(n, d) - d,
        magnitude(trunc_div(n, d)) <= magnitude(n),
        trunc_div(-n, d) == -trunc_div(n, d),
{
    let m = magnitude(n);
    let q = m / d;
    assert(0 <= q && d * q <= m < d * q + d && q <= m) by (nonlinear_arith)
        requires
            m >= 0,
            d > 0,
            q == m / d,
    ;
    assert(d * (-q) == -(d * q)) by (nonlinear_arith);
}

/// A whole multiple divides back exactly.
pub proof fn lemma_trunc_div_multiple(q: int, d: int)
    requires
        d > 0,
    ensures
        trunc_div(q * d, d) == q,
{
    let m = magnitude(q);
    assert((m * d) / d == m) by (nonlinear_arith)
        requires
            m >= 0,
            d > 0,
    ;
    assert(q >= 0 ==> q * d >= 0 && q * d == m * d) by (nonlinear_arith)
        requires
            d > 0,
            m == magnitude(q),
    ;
    assert(q < 0 ==> q * d < 0 && -(q * d) == m * d) by (nonlinear_arith)
        requires
            d > 0,
            m == magnitude(q),
    ;
}

/// Scaling by a factor between zero and one moves a quantity toward zero and
/// not past it; by a factor strictly below one it falls short of the quantity
/// itself unless that is zero.
pub proof fn lemma_scaled_fraction(v: int, factor: int)
    requires
        0 <= factor <= SCALE,
    ensures
        v >= 0 ==> 0 <= scaled(v, factor) <= v,
        v <= 0 ==> v <= scaled(v, factor) <= 0,
        factor < SCALE && v > 0 ==> scaled(v, factor) < v,
        factor < SCALE && v < 0 ==> scaled(v, factor) > v,
{
    let s: int = SCALE as int;
    lemma_trunc_div_bounds(v * factor, s);
    let q = scaled(v, factor);
    if v >= 0 {
        assert(0 <= v * factor <= v * s && (factor < s && v > 0 ==> v * factor < v * s))
            by (nonlinear_arith)
            requires
                v >= 0,
                0 <= factor <= s,
        ;
        assert(q <= v) by (nonlinear_arith)
            requires
                s * q <= v * factor,
                v * factor <= v * s,
                s > 0,
        ;
        assert(factor < s && v > 0 ==> q < v) by (nonlinear_arith)
            requires
                s * q <= v * factor,
                factor < s && v > 0 ==> v * factor < v * s,
                s > 0,
        ;
    } else {
        assert(v * s <= v * factor <= 0 && (factor < s ==> v * s < v * factor))
            by (nonlinear_arith)
            requires
                v < 0,
                0 <= factor <= s,
        ;
        assert(q >= v) by (nonlinear_arith)
            requires
                s * q >= v * factor,
                v * factor >= v * s,
                s > 0,
        ;
        assert(factor < s ==> q > v) by (nonlinear_arith)
            requires
                s * q >= v * factor,
                factor < s ==> v * factor > v * s,
                s > 0,
        ;
    }
}

/// The value of `v` as an `i64`, if it is one.
pub fn narrow(v: i128) -> (r: Option<i64>)
    ensures
        fits_i64(v as int) ==> r == Some(v as i64),
        !fits_i64(v as int) ==> r.is_none(),
{
    if v < -9_223_372_036_854_775_808 || v > 9_223_372_036_854_775_807 {
        None
    } else {
        Some(v as i64)
    }
}

/// `v` times the fixed-point factor `factor`, rounded toward zero, for
/// operands whose product fits in 128 bits with room to spare.
pub(crate) fn scale_by(v: i128, factor: i128) -> (r: i128)
    requires
        -0x2_0000_0000_0000_0000 <= v <= 0x2_0000_0000_0000_0000,
        0 <= factor <= 0x4_0000_0000,
    ensures
        r == scaled(v as int, factor as int),
        -0x2_0000_0000_0000_0000 * 0x4_0000_0000 <= r <= 0x2_0000_0000_0000_0000 * 0x4_0000_0000,
{
    assert(-0x2_0000_0000_0000_0000 * 0x4_0000_0000 <= v * factor <= 0x2_0000_0000_0000_0000
        * 0x4_0000_0000) by (nonlinear_arith)
        requires
            -0x2_0000_0000_0000_0000 <= v <= 0x2_0000_0000_0000_0000,
            0 <= factor <= 0x4_0000_0000,
    ;
    proof {
        lemma_trunc_div_bounds(v * factor, SCALE as int);
    }
    let product: i128 = v * factor;
    product / (SCALE as i128)
}

} // verus!
