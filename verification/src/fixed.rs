//! Fixed-point arithmetic shared by the control strategies.
//!
//! A value is an `i64` counting thousandths of an engineering unit.
//! Multiplication and division rescale by [`SCALE`] and truncate toward
//! zero, as hardware floating-point-free controllers commonly do.

use vstd::arithmetic::div_mod::{lemma_div_is_ordered, lemma_div_nonincreasing, lemma_div_pos_is_pos};
use vstd::prelude::*;

verus! {

/// Raw steps per engineering unit: three fractional decimal digits.
pub const SCALE: i64 = 1000;

/// Largest magnitude (in raw steps) accepted for configuration parameters
/// and for temperature/power samples: ten thousand engineering units.
pub const PARAM_LIMIT: i64 = 10_000_000;

/// Largest magnitude (in raw steps) any strategy output can reach when its
/// parameters and inputs stay within [`PARAM_LIMIT`].
pub const OUTPUT_LIMIT: i64 = 4_000_000_000_000_000;

/// Largest timestamp (in milliseconds) the controllers accept.
pub const TIME_LIMIT: u64 = 1_000_000_000_000_000;

/// A configuration parameter or sample within the accepted range.
pub open spec fn in_param(x: int) -> bool {
    -PARAM_LIMIT <= x <= PARAM_LIMIT
}

/// A strategy output within the range outputs are proved to stay in.
pub open spec fn in_output(x: int) -> bool {
    -OUTPUT_LIMIT <= x <= OUTPUT_LIMIT
}

/// Integer division truncated toward zero, as Rust's `/` computes it for a
/// positive divisor.
pub open spec fn tdiv(a: int, b: int) -> int {
    if a >= 0 {
        a / b
    } else {
        -((-a) / b)
    }
}

/// Product of two fixed-point values, rescaled and truncated toward zero.
pub open spec fn fmul(a: int, b: int) -> int {
    tdiv(a * b, SCALE as int)
}

/// Quotient of two fixed-point values, rescaled and truncated toward zero.
pub open spec fn fdiv(a: int, b: int) -> int {
    tdiv(a * (SCALE as int), b)
}

/// `x` forced into `[lo, hi]`.
pub open spec fn clamped(x: int, lo: int, hi: int) -> int {
    if x < lo {
        lo
    } else if x > hi {
        hi
    } else {
        x
    }
}

/// Magnitude of `x`.
pub open spec fn magnitude(x: int) -> int {
    if x >= 0 {
        x
    } else {
        -x
    }
}

/// Truncating division keeps a symmetric bound: if `|a| <= c`, then
/// `|a / b|` (truncated) is at most `c / b`, which is at most `c`.
pub proof fn lemma_tdiv_bound(a: int, b: int, c: int)
    requires
        b >= 1,
        0 <= c,
        -c <= a <= c,
    ensures
        -tdiv(c, b) <= tdiv(a, b) <= tdiv(c, b),
        0 <= tdiv(c, b) <= c,
{
    lemma_div_pos_is_pos(c, b);
    lemma_div_nonincreasing(c, b);
    if a >= 0 {
        lemma_div_pos_is_pos(a, b);
        lemma_div_is_ordered(a, c, b);
    } else {
        lemma_div_pos_is_pos(-a, b);
        lemma_div_is_ordered(-a, c, b);
    }
}

/// A fixed-point product of bounded factors is bounded by the rescaled
/// product of the bounds.
pub proof fn lemma_fmul_bound(a: int, b: int, ca: int, cb: int)
    requires
        0 <= ca,
        0 <= cb,
        -ca <= a <= ca,
        -cb <= b <= cb,
    ensures
        -tdiv(ca * cb, SCALE as int) <= fmul(a, b) <= tdiv(ca * cb, SCALE as int),
        0 <= tdiv(ca * cb, SCALE as int) <= ca * cb,
{
    assert(-(ca * cb) <= a * b <= ca * cb) by (nonlinear_arith)
        requires
            0 <= ca,
            0 <= cb,
            -ca <= a <= ca,
            -cb <= b <= cb,
    ;
    assert(0 <= ca * cb) by (nonlinear_arith)
        requires
            0 <= ca,
            0 <= cb,
    ;
    lemma_tdiv_bound(a * b, SCALE as int, ca * cb);
}

/// A fixed-point quotient with a divisor of at least one is bounded by the
/// rescaled bound of the dividend.
pub proof fn lemma_fdiv_bound(a: int, b: int, c: int)
    requires
        b >= 1,
        0 <= c,
        -c <= a <= c,
    ensures
        -(c * (SCALE as int)) <= fdiv(a, b) <= c * (SCALE as int),
{
    lemma_tdiv_bound(a * (SCALE as int), b, c * (SCALE as int));
}

/// Truncating division of a wide intermediate value by a positive divisor.
pub(crate) fn tdiv_i128(a: i128, b: i128) -> (r: i128)
    requires
        b > 0,
        i128::MIN < a,
    ensures
        r as int == tdiv(a as int, b as int),
{
    proof {
        lemma_tdiv_bound(a as int, b as int, magnitude(a as int));
    }
    a / b
}

/// Fixed-point product, computed without overflow through a 128-bit
/// intermediate.
pub fn fx_mul(a: i64, b: i64) -> (r: i64)
    requires
        in_output(fmul(a as int, b as int)),
    ensures
        r as int == fmul(a as int, b as int),
{
    let wide: i128 = (a as i128) * (b as i128);
    proof {
        assert(i128::MIN < (a as int) * (b as int) < i128::MAX) by (nonlinear_arith)
            requires
                -0x8000_0000_0000_0000 <= a as int <= 0x7fff_ffff_ffff_ffff,
                -0x8000_0000_0000_0000 <= b as int <= 0x7fff_ffff_ffff_ffff,
        ;
    }
    let q = tdiv_i128(wide, SCALE as i128);
    q as i64
}

/// Fixed-point quotient by a positive divisor, computed without overflow
/// through a 128-bit intermediate.
pub fn fx_div(a: i64, b: i64) -> (r: i64)
    requires
        b > 0,
        in_output(fdiv(a as int, b as int)),
    ensures
        r as int == fdiv(a as int, b as int),
{
    let wide: i128 = (a as i128) * (SCALE as i128);
    let q = tdiv_i128(wide, b as i128);
    q as i64
}

} // verus!
