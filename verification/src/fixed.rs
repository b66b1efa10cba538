//! Fixed-point scalars.
//!
//! Every length, time, fraction and distance in this crate is a signed
//! integer that counts thousandths: `1500` stands for one and a half.
//! Sums and products are taken exactly and then brought back into the
//! range of `i64` by saturation, so no operation here can overflow.

use vstd::prelude::*;

verus! {

/// The integer that stands for the scalar one.
pub const UNIT: i64 = 1000;

/// The value in `i64` that is nearest to `x`.
pub open spec fn saturate(x: int) -> int {
    if x < i64::MIN {
        i64::MIN as int
    } else if x > i64::MAX {
        i64::MAX as int
    } else {
        x
    }
}

/// `a / b` rounded toward zero; zero where `b` is zero.
pub open spec fn quotient(a: int, b: int) -> int {
    if b == 0 {
        0
    } else if a >= 0 && b > 0 {
        a / b
    } else if a >= 0 {
        -(a / (-b))
    } else if b > 0 {
        -((-a) / b)
    } else {
        (-a) / (-b)
    }
}

/// `x` held between `low` and `high`; `low` wins where the bounds cross.
pub open spec fn bounded(x: int, low: int, high: int) -> int {
    if x < low {
        low
    } else if x > high {
        high
    } else {
        x
    }
}

/// The multiple of `grid` nearest to `x`, a tie going away from zero.
pub open spec fn nearest_multiple(x: int, grid: int) -> int
    recommends
        grid > 0,
{
    if x >= 0 {
        ((2 * x + grid) / (2 * grid)) * grid
    } else {
        -(((2 * (-x) + grid) / (2 * grid)) * grid)
    }
}

/// The product of two `i64` values lies well inside `i128`.
pub(crate) proof fn lemma_product_fits(a: int, b: int)
    by (nonlinear_arith)
    requires
        -0x8000_0000_0000_0000 <= a <= 0x8000_0000_0000_0000,
        -0x8000_0000_0000_0000 <= b <= 0x8000_0000_0000_0000,
    ensures
        -0x4000_0000_0000_0000_0000_0000_0000_0000 <= a * b
            <= 0x4000_0000_0000_0000_0000_0000_0000_0000,
{
}

/// A wide intermediate result times a small factor stays inside `i128`.
pub(crate) proof fn lemma_scaled_fits(a: int, k: int)
    by (nonlinear_arith)
    requires
        -0x10_0000_0000_0000_0000_0000_0000 <= a <= 0x10_0000_0000_0000_0000_0000_0000,
        -0x10_0000 <= k <= 0x10_0000,
    ensures
        -0x100_0000_0000_0000_0000_0000_0000_0000 <= a * k
            <= 0x100_0000_0000_0000_0000_0000_0000_0000,
{
}

/// Brings a wide intermediate result back into `i64`.
pub fn narrow(x: i128) -> (r: i64)
    ensures
        r == saturate(x as int),
{
    if x < i64::MIN as i128 {
        i64::MIN
    } else if x > i64::MAX as i128 {
        i64::MAX
    } else {
        x as i64
    }
}

/// Saturating sum.
pub fn plus(a: i64, b: i64) -> (r: i64)
    ensures
        r == saturate(a + b),
{
    narrow(a as i128 + b as i128)
}

/// Saturating difference.
pub fn minus(a: i64, b: i64) -> (r: i64)
    ensures
        r == saturate(a - b),
{
    narrow(a as i128 - b as i128)
}

/// Division rounded toward zero, on wide operands.
pub fn divide(a: i128, b: i128) -> (r: i128)
    requires
        b != 0,
        i128::MIN < a,
        i128::MIN < b,
    ensures
        r == quotient(a as int, b as int),
{
    if a >= 0 && b > 0 {
        a / b
    } else if a >= 0 {
        -(a / (-b))
    } else if b > 0 {
        -((-a) / b)
    } else {
        (-a) / (-b)
    }
}

/// Fixed-point product: `a * b` in thousandths, rounded toward zero.
pub fn times(a: i64, b: i64) -> (r: i64)
    ensures
        r == saturate(quotient(a * b, UNIT as int)),
{
    proof {
        lemma_product_fits(a as int, b as int);
    }
    narrow(divide(a as i128 * b as i128, UNIT as i128))
}

/// Fixed-point ratio: `a / b` in thousandths, rounded toward zero.
/// `None` where `b` is zero.
pub fn over(a: i64, b: i64) -> (r: Option<i64>)
    ensures
        b == 0 ==> r is None,
        b != 0 ==> r == Some(saturate(quotient(a * UNIT, b as int)) as i64),
{
    if b == 0 {
        None
    } else {
        proof {
            lemma_product_fits(a as int, UNIT as int);
        }
        Some(narrow(divide(a as i128 * UNIT as i128, b as i128)))
    }
}

/// Holds `x` between `low` and `high`.
pub fn limit(x: i64, low: i64, high: i64) -> (r: i64)
    ensures
        r == bounded(x as int, low as int, high as int),
{
    if x < low {
        low
    } else if x > high {
        high
    } else {
        x
    }
}

/// Snaps one coordinate to the grid: the nearest multiple of `grid`, a
/// tie going away from zero.
pub fn snap_scalar(x: i64, grid: i64) -> (r: i64)
    requires
        grid > 0,
    ensures
        r == saturate(nearest_multiple(x as int, grid as int)),
{
    let g: i128 = grid as i128;
    if x >= 0 {
        let q: i128 = (2 * (x as i128) + g) / (2 * g);
        proof {
            lemma_step_count(x as int, grid as int);
            lemma_product_fits(q as int, grid as int);
        }
        narrow(q * g)
    } else {
        let q: i128 = (2 * (-(x as i128)) + g) / (2 * g);
        proof {
            lemma_step_count(-(x as int), grid as int);
            lemma_product_fits(q as int, grid as int);
        }
        narrow(-(q * g))
    }
}

/// The number of grid steps nearest to a non-negative `x` is at most `x`.
proof fn lemma_step_count(x: int, grid: int)
    by (nonlinear_arith)
    requires
        x >= 0,
        grid > 0,
    ensures
        0 <= (2 * x + grid) / (2 * grid) <= x,
{
}

} // verus!
