//! Linear interpolation on integers.
use vstd::prelude::*;

verus! {

/// The value at `x` of the line through `(x0, y0)` and `(x1, y1)`; the
/// division is Euclidean, so it rounds down when `x1 > x0`.
pub open spec fn interpolate(x: int, x0: int, x1: int, y0: int, y1: int) -> int {
    y0 + (x - x0) * (y1 - y0) / (x1 - x0)
}

/// `x` clamped into the closed interval between `x0` and `x1`.
pub open spec fn clamp_between(x: int, x0: int, x1: int) -> int {
    let lo = if x0 <= x1 { x0 } else { x1 };
    let hi = if x0 <= x1 { x1 } else { x0 };
    if x < lo {
        lo
    } else if x > hi {
        hi
    } else {
        x
    }
}

/// The value at `x` of the line through `(x0, y0)` and `(x1, y1)`.
pub fn linear_interpolate(x: i64, x0: i64, x1: i64, y0: i64, y1: i64) -> (y: i64)
    requires
        x1 != x0,
        i128::MIN < (x - x0) * (y1 - y0) <= i128::MAX,
        i64::MIN <= interpolate(x as int, x0 as int, x1 as int, y0 as int, y1 as int) <= i64::MAX,
    ensures
        y == interpolate(x as int, x0 as int, x1 as int, y0 as int, y1 as int),
{
    let num: i128 = (x as i128 - x0 as i128) * (y1 as i128 - y0 as i128);
    let den: i128 = x1 as i128 - x0 as i128;
    let q = num.checked_div_euclid(den).unwrap();
    (y0 as i128 + q) as i64
}

/// Like [`linear_interpolate`], with `x` first clamped into the interval
/// between `x0` and `x1`, so that the result lies between `y0` and `y1`.
pub fn linear_interpolate_ceil(x: i64, x0: i64, x1: i64, y0: i64, y1: i64) -> (y: i64)
    requires
        x1 != x0,
        i128::MIN < (x1 - x0) * (y1 - y0) <= i128::MAX,
    ensures
        y == interpolate(clamp_between(x as int, x0 as int, x1 as int), x0 as int, x1 as int, y0 as int, y1 as int),
        y0 <= y1 ==> y0 <= y <= y1,
        y1 <= y0 ==> y1 <= y <= y0,
{
    let lo = if x0 <= x1 { x0 } else { x1 };
    let hi = if x0 <= x1 { x1 } else { x0 };
    let xc = if x < lo { lo } else if x > hi { hi } else { x };
    proof {
        lemma_fraction_of_span(xc - x0, x1 - x0, y1 - y0);
    }
    linear_interpolate(xc, x0, x1, y0, y1)
}

/// For `n / d` between zero and one, `n * m / d` lies between zero and `m`,
/// and `n * m` is no larger in magnitude than `d * m`.
proof fn lemma_fraction_of_span(n: int, d: int, m: int)
    requires
        d != 0,
        (0 <= n <= d) || (d <= n <= 0),
    ensures
        m >= 0 ==> 0 <= n * m / d <= m,
        m < 0 ==> m <= n * m / d <= 0,
        -magnitude(d * m) <= n * m <= magnitude(d * m),
{
    let q = n * m / d;
    let r = n * m % d;
    vstd::arithmetic::div_mod::lemma_fundamental_div_mod(n * m, d);
    assert(d * q + r == n * m && 0 <= r < (if d > 0 { d } else { -d }));
    if d > 0 {
        if m >= 0 {
            assert(0 <= q <= m) by (nonlinear_arith)
                requires d * q + r == n * m, 0 <= r < d, 0 <= n <= d, m >= 0;
        } else {
            assert(m <= q <= 0) by (nonlinear_arith)
                requires d * q + r == n * m, 0 <= r < d, 0 <= n <= d, m < 0;
        }
    } else {
        if m >= 0 {
            assert(0 <= q <= m) by (nonlinear_arith)
                requires d * q + r == n * m, 0 <= r < -d, d <= n <= 0, m >= 0;
        } else {
            assert(m <= q <= 0) by (nonlinear_arith)
                requires d * q + r == n * m, 0 <= r < -d, d <= n <= 0, m < 0;
        }
    }
    assert(-magnitude(d * m) <= n * m <= magnitude(d * m)) by (nonlinear_arith)
        requires (0 <= n <= d) || (d <= n <= 0);
}

/// Absolute value.
pub open spec fn magnitude(v: int) -> int {
    if v < 0 { -v } else { v }
}

} // verus!
