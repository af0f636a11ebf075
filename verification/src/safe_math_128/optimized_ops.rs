//! Inline fast paths for the common yield operations.
use vstd::prelude::*;
use super::BPS_SCALE;

verus! {

/// What `mul_yield_optimized` returns.
pub open spec fn mul_yield_fast(principal: i128, rate_bps: u32, time_factor: u64) -> Option<i128> {
    if principal == 0 || rate_bps == 0 || time_factor == 0 {
        Some(0)
    } else if rate_bps == 10_000 && time_factor == 1 {
        Some(principal)
    } else if !crate::rent_escalation::fits_i128(principal * rate_bps) || !crate::rent_escalation::fits_i128(principal * rate_bps * time_factor) {
        None
    } else {
        Some(crate::rates::trunc_div(principal * rate_bps * time_factor, 10_000) as i128)
    }
}

/// What `bps_floor_optimized` returns.
pub open spec fn bps_floor_fast(amount: i128, bps: u32) -> Option<i128> {
    if amount == 0 || bps == 0 {
        Some(0)
    } else if bps == 10_000 {
        Some(amount)
    } else if !crate::rent_escalation::fits_i128(amount * bps) {
        None
    } else {
        Some(crate::rates::trunc_div(amount * bps, 10_000) as i128)
    }
}

/// What `bps_ceiling_optimized` returns.
pub open spec fn bps_ceiling_fast(amount: i128, bps: u32) -> Option<i128> {
    if amount == 0 || bps == 0 {
        Some(0)
    } else if bps == 10_000 {
        Some(amount)
    } else if !crate::rent_escalation::fits_i128(amount * bps) || !crate::rent_escalation::fits_i128(amount * bps + 9_999) {
        None
    } else {
        Some(crate::rates::trunc_div(amount * bps + 9_999, 10_000) as i128)
    }
}

/// `principal * rate_bps * time_factor / BPS_SCALE` (rounded toward zero),
/// or `None` on overflow.
pub fn mul_yield_optimized(principal: i128, rate_bps: u32, time_factor: u64) -> (r: Option<i128>)
    ensures
        r == mul_yield_fast(principal, rate_bps, time_factor),
{
    if principal == 0 || rate_bps == 0 || time_factor == 0 {
        return Some(0);
    }
    if rate_bps == 10_000 && time_factor == 1 {
        return Some(principal);
    }
    let x = match principal.checked_mul(rate_bps as i128) {
        Some(v) => v,
        None => return None,
    };
    let y = match x.checked_mul(time_factor as i128) {
        Some(v) => v,
        None => return None,
    };
    Some(y / BPS_SCALE)
}

/// `amount * bps / BPS_SCALE` (rounded toward zero), or `None` on overflow.
pub fn bps_floor_optimized(amount: i128, bps: u32) -> (r: Option<i128>)
    ensures
        r == bps_floor_fast(amount, bps),
{
    if amount == 0 || bps == 0 {
        return Some(0);
    }
    if bps == 10_000 {
        return Some(amount);
    }
    match amount.checked_mul(bps as i128) {
        Some(x) => Some(x / BPS_SCALE),
        None => None,
    }
}

/// `(amount * bps + BPS_SCALE - 1) / BPS_SCALE`, or `None` on overflow.
pub fn bps_ceiling_optimized(amount: i128, bps: u32) -> (r: Option<i128>)
    ensures
        r == bps_ceiling_fast(amount, bps),
{
    if amount == 0 || bps == 0 {
        return Some(0);
    }
    if bps == 10_000 {
        return Some(amount);
    }
    let x = match amount.checked_mul(bps as i128) {
        Some(v) => v,
        None => return None,
    };
    match x.checked_add(BPS_SCALE - 1) {
        Some(y) => Some(y / BPS_SCALE),
        None => None,
    }
}

/// `true` iff both factors are positive and their product exceeds
/// `i128::MAX`.
pub fn will_multiply_overflow(a: i128, b: i128) -> (r: bool)
    ensures
        r == (a > 0 && b > 0 && a * b > i128::MAX),
{
    if a == 0 || b == 0 {
        return false;
    }
    if a > 0 && b > 0 {
        let q = i128::MAX / b;
        proof {
            let m = i128::MAX as int;
            assert(q * b <= m < (q + 1) * b) by (nonlinear_arith)
                requires
                    q == m / (b as int),
                    b > 0,
            ;
            assert(a > q <==> a * b > m) by (nonlinear_arith)
                requires
                    q * b <= m < (q + 1) * b,
                    b > 0,
                    a > 0,
            ;
        }
        a > q
    } else {
        false
    }
}

/// `true` iff both summands are positive and their sum exceeds `i128::MAX`.
pub fn will_add_overflow(a: i128, b: i128) -> (r: bool)
    ensures
        r == (a > 0 && b > 0 && a + b > i128::MAX),
{
    a > 0 && b > 0 && a > i128::MAX - b
}

} // verus!
