//! Basis-point arithmetic on 128-bit amounts.
use vstd::prelude::*;

verus! {

/// One whole in basis points.
pub const BPS_DENOM: i128 = 10_000;

/// Integer division rounding toward zero, for a positive divisor.
pub open spec fn trunc_div(x: int, d: int) -> int {
    if x >= 0 {
        x / d
    } else {
        -((-x) / d)
    }
}

/// Whether a value fits in an `i128`.
pub open spec fn fits_i128(x: int) -> bool {
    i128::MIN <= x <= i128::MAX
}

/// `x * bps / 10_000` rounded toward zero, or `None` when the product
/// overflows an `i128`.
pub open spec fn mul_bps(x: int, bps: int) -> Option<int> {
    if fits_i128(x * bps) {
        Some(trunc_div(x * bps, BPS_DENOM as int))
    } else {
        None
    }
}

/// Computes `x * bps / 10_000`, rounding toward zero; `None` on overflow.
pub fn checked_mul_bps(x: i128, bps: i128) -> (r: Option<i128>)
    ensures
        match mul_bps(x as int, bps as int) {
            Some(v) => r == Some(v as i128) && fits_i128(v),
            None => r is None,
        },
{
    match x.checked_mul(bps) {
        None => None,
        Some(p) => {
            let q = p.checked_div(BPS_DENOM);
            proof {
                let pi = p as int;
                if pi < 0 {
                    assert((-pi) / 10000 <= -pi) by (nonlinear_arith)
                        requires -pi >= 0;
                    assert((-pi) / 10000 >= 0) by (nonlinear_arith)
                        requires -pi >= 0;
                } else {
                    assert(pi / 10000 <= pi) by (nonlinear_arith)
                        requires pi >= 0;
                    assert(pi / 10000 >= 0) by (nonlinear_arith)
                        requires pi >= 0;
                }
            }
            q
        },
    }
}

} // verus!
