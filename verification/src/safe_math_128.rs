//! Overflow-safe 128-bit arithmetic for yield generation on locked deposits.
//!
//! Every operation is checked; the calculator keeps a running record of the
//! precision lost to integer division (the remainders it drops), of the
//! number of operations it performed, and of the largest single loss.
use vstd::prelude::*;
use vstd::arithmetic::power::*;

pub mod optimized_ops;

verus! {

/// Largest principal accepted by `safe_mul_yield` (`i128::MAX / 1_000_000`).
pub const MAX_SAFE_YIELD_AMOUNT: i128 = 170141183460469231731687303715884;

/// Basis-points scale (10_000 = 100%).
pub const BPS_SCALE: i128 = 10_000;

/// Precision scale for high-precision yield calculations (12 decimals).
pub const PRECISION_SCALE: i128 = 1_000_000_000_000;

/// Remainder of Rust's truncating division.
pub open spec fn trunc_rem(x: int, d: int) -> int {
    x - d * crate::rates::trunc_div(x, d)
}

/// Safe math calculator with precision-loss tracking.
#[derive(Debug, Clone, Copy, PartialEq, Eq, Structural)]
pub struct SafeMath128 {
    /// Sum of the precision lost by all tracked operations.
    pub cumulative_precision_loss: i128,
    /// Number of operations counted so far.
    pub operation_count: u64,
    /// Largest precision loss of a single operation.
    pub max_single_operation_loss: i128,
}

/// Yield split between the three parties, with the rounding dust.
#[derive(Debug, Clone, Copy, PartialEq, Eq, Structural)]
pub struct YieldDistribution {
    pub lessee_share: i128,
    pub lessor_share: i128,
    pub dao_share: i128,
    pub dust: i128,
    pub total_distributed: i128,
}

/// Summary of the precision record.
#[derive(Debug, Clone, Copy, PartialEq, Eq, Structural)]
pub struct PrecisionReport {
    pub cumulative_precision_loss: i128,
    pub operation_count: u64,
    pub max_single_operation_loss: i128,
    pub average_loss_per_operation: i128,
    pub efficiency_score: u32,
}

/// Precision record with a quality grade and recommendations.
#[derive(Debug, Clone)]
pub struct DetailedPrecisionReport {
    pub cumulative_precision_loss: i128,
    pub operation_count: u64,
    pub max_single_operation_loss: i128,
    pub average_loss_per_operation: i128,
    pub efficiency_score: u32,
    pub precision_quality: PrecisionQuality,
    pub recommended_optimizations: Vec<String>,
}

/// Grade of the average precision loss per operation.
#[derive(Debug, Clone, Copy, PartialEq, Eq, Structural)]
pub enum PrecisionQuality {
    /// No loss.
    Perfect,
    /// 1–10 per operation.
    Excellent,
    /// 11–100 per operation.
    Good,
    /// 101–1000 per operation.
    Fair,
    /// 1001–10000 per operation.
    Poor,
    /// More than 10000 per operation.
    Critical,
}

/// Errors of the safe math operations.
#[derive(Debug, Clone, Copy, PartialEq, Eq, Structural)]
pub enum SafeMathError {
    NegativePrincipal(i128),
    NegativeAmount(i128),
    NegativeYield { current: i128, additional: i128 },
    NegativeDistribution { total: i128, amount: i128 },
    InvalidRate(u32),
    InvalidBps(u32),
    InvalidDistributionBps(u32),
    PrincipalTooLarge(i128),
    MultiplicationOverflow,
    AdditionOverflow,
    SubtractionUnderflow,
    DivisionError,
    DivisionByZero,
    YieldExceedsMaximum(i128),
    UnreasonableYield(i128),
    DistributionExceedsYield { total_yield: i128, distribution_amount: i128 },
    DistributionOverflow,
    ComplexYieldOverflow {
        principal: i128,
        rate_bps: u32,
        time_factor: u64,
        multiplier_bps: u32,
        result: i128,
    },
    PrecisionLossOverflow,
    DustCalculationError,
    UnderflowError,
    InvalidLogInput(i128),
    EmptyInput,
    NegativeWeight(i128),
    InsufficientData,
}

/// The record after one more operation that lost `loss`.
pub open spec fn after_loss(s: SafeMath128, loss: int) -> Result<SafeMath128, SafeMathError> {
    if !crate::rent_escalation::fits_i128(s.cumulative_precision_loss + loss) {
        Err(SafeMathError::PrecisionLossOverflow)
    } else {
        Ok(
            SafeMath128 {
                cumulative_precision_loss: (s.cumulative_precision_loss + loss) as i128,
                operation_count: (s.operation_count + 1) as u64,
                max_single_operation_loss: if s.max_single_operation_loss >= loss {
                    s.max_single_operation_loss
                } else {
                    loss as i128
                },
            },
        )
    }
}

/// The record after one more counted operation without loss tracking.
pub open spec fn counted(s: SafeMath128) -> SafeMath128 {
    SafeMath128 { operation_count: (s.operation_count + 1) as u64, ..s }
}

/// Result and record of `safe_mul_yield`.
pub open spec fn mul_yield_outcome(s: SafeMath128, principal: i128, rate_bps: u32, time_factor: u64) -> (
    Result<i128, SafeMathError>,
    SafeMath128,
) {
    if principal < 0 {
        (Err(SafeMathError::NegativePrincipal(principal)), s)
    } else if rate_bps > 10_000 {
        (Err(SafeMathError::InvalidRate(rate_bps)), s)
    } else if time_factor == 0 {
        (Ok(0), s)
    } else if principal > MAX_SAFE_YIELD_AMOUNT {
        (Err(SafeMathError::PrincipalTooLarge(principal)), s)
    } else if !crate::rent_escalation::fits_i128(principal * rate_bps * time_factor) {
        (Err(SafeMathError::MultiplicationOverflow), s)
    } else {
        let n = principal * rate_bps * time_factor;
        match after_loss(s, n % 10_000) {
            Err(e) => (Err(e), s),
            Ok(s2) => (Ok((n / 10_000) as i128), s2),
        }
    }
}

/// Result and record of `safe_add_yield`.
pub open spec fn add_yield_outcome(s: SafeMath128, current: i128, additional: i128) -> (
    Result<i128, SafeMathError>,
    SafeMath128,
) {
    if current < 0 || additional < 0 {
        (Err(SafeMathError::NegativeYield { current, additional }), s)
    } else if !crate::rent_escalation::fits_i128(current + additional) {
        (Err(SafeMathError::AdditionOverflow), s)
    } else if current + additional > MAX_SAFE_YIELD_AMOUNT {
        (Err(SafeMathError::YieldExceedsMaximum((current + additional) as i128)), s)
    } else {
        (Ok((current + additional) as i128), counted(s))
    }
}

/// Result and record of `safe_sub_yield`.
pub open spec fn sub_yield_outcome(s: SafeMath128, total: i128, amount: i128) -> (
    Result<i128, SafeMathError>,
    SafeMath128,
) {
    if total < 0 || amount < 0 {
        (Err(SafeMathError::NegativeDistribution { total, amount }), s)
    } else if amount > total {
        (
            Err(
                SafeMathError::DistributionExceedsYield {
                    total_yield: total,
                    distribution_amount: amount,
                },
            ),
            s,
        )
    } else {
        (Ok((total - amount) as i128), counted(s))
    }
}

/// Result and record of `safe_bps_division_ceiling`.
pub open spec fn bps_ceiling_outcome(s: SafeMath128, amount: i128, bps: u32) -> (
    Result<i128, SafeMathError>,
    SafeMath128,
) {
    if amount < 0 {
        (Err(SafeMathError::NegativeAmount(amount)), s)
    } else if bps > 10_000 {
        (Err(SafeMathError::InvalidBps(bps)), s)
    } else if !crate::rent_escalation::fits_i128(amount * bps) {
        (Err(SafeMathError::MultiplicationOverflow), s)
    } else if !crate::rent_escalation::fits_i128(amount * bps + 9_999) {
        (Err(SafeMathError::AdditionOverflow), s)
    } else {
        let n = amount * bps;
        let result = ((n + 9_999) / 10_000) as i128;
        if n % 10_000 > 0 {
            match after_loss(s, 10_000 - n % 10_000) {
                Err(e) => (Err(e), s),
                Ok(s2) => (Ok(result), s2),
            }
        } else {
            (Ok(result), s)
        }
    }
}

/// Result and record of `safe_bps_division_floor`.
pub open spec fn bps_floor_outcome(s: SafeMath128, amount: i128, bps: u32) -> (
    Result<i128, SafeMathError>,
    SafeMath128,
) {
    if amount < 0 {
        (Err(SafeMathError::NegativeAmount(amount)), s)
    } else if bps > 10_000 {
        (Err(SafeMathError::InvalidBps(bps)), s)
    } else if !crate::rent_escalation::fits_i128(amount * bps) {
        (Err(SafeMathError::MultiplicationOverflow), s)
    } else {
        let n = amount * bps;
        match after_loss(s, n % 10_000) {
            Err(e) => (Err(e), s),
            Ok(s2) => (Ok((n / 10_000) as i128), s2),
        }
    }
}

/// Result and record of `scale_floor`: `bps_floor_outcome` without the
/// upper bound on the multiplier.
pub open spec fn scale_floor_outcome(s: SafeMath128, amount: i128, multiplier_bps: u32) -> (
    Result<i128, SafeMathError>,
    SafeMath128,
) {
    if amount < 0 {
        (Err(SafeMathError::NegativeAmount(amount)), s)
    } else if !crate::rent_escalation::fits_i128(amount * multiplier_bps) {
        (Err(SafeMathError::MultiplicationOverflow), s)
    } else {
        let n = amount * multiplier_bps;
        match after_loss(s, n % 10_000) {
            Err(e) => (Err(e), s),
            Ok(s2) => (Ok((n / 10_000) as i128), s2),
        }
    }
}

/// Result and record of `complex_yield_calculation`.
pub open spec fn complex_yield_outcome(
    s: SafeMath128,
    principal: i128,
    rate_bps: u32,
    time_factor: u64,
    multiplier_bps: u32,
) -> (Result<i128, SafeMathError>, SafeMath128) {
    if principal > MAX_SAFE_YIELD_AMOUNT / 1000 {
        (Err(SafeMathError::PrincipalTooLarge(principal)), s)
    } else {
        let (r1, s1) = mul_yield_outcome(s, principal, rate_bps, time_factor);
        match r1 {
            Err(e) => (Err(e), s1),
            Ok(base) => if multiplier_bps != 10_000 {
                scale_floor_outcome(s1, base, multiplier_bps)
            } else {
                (Ok(base), s1)
            },
        }
    }
}

/// Result and record of `yield_distribution_with_dust_tracking`.
pub open spec fn distribution_outcome(
    s: SafeMath128,
    total_yield: i128,
    lessee_bps: u32,
    lessor_bps: u32,
    dao_bps: u32,
) -> (Result<YieldDistribution, SafeMathError>, SafeMath128) {
    if total_yield < 0 {
        (Err(SafeMathError::NegativeYield { current: total_yield, additional: 0 }), s)
    } else if lessee_bps + lessor_bps + dao_bps > 10_000 {
        (
            Err(SafeMathError::InvalidDistributionBps((lessee_bps + lessor_bps + dao_bps) as u32)),
            s,
        )
    } else {
        let (r1, s1) = bps_floor_outcome(s, total_yield, lessee_bps);
        match r1 {
            Err(e) => (Err(e), s1),
            Ok(a) => {
                let (r2, s2) = bps_floor_outcome(s1, total_yield, lessor_bps);
                match r2 {
                    Err(e) => (Err(e), s2),
                    Ok(b) => {
                        let (r3, s3) = bps_floor_outcome(s2, total_yield, dao_bps);
                        match r3 {
                            Err(e) => (Err(e), s3),
                            Ok(c) => if !crate::rent_escalation::fits_i128(a + b + c) {
                                (Err(SafeMathError::DistributionOverflow), s3)
                            } else if a + b + c > total_yield {
                                (
                                    Err(
                                        SafeMathError::DistributionExceedsYield {
                                            total_yield,
                                            distribution_amount: (a + b + c) as i128,
                                        },
                                    ),
                                    s3,
                                )
                            } else {
                                (
                                    Ok(
                                        YieldDistribution {
                                            lessee_share: a,
                                            lessor_share: b,
                                            dao_share: c,
                                            dust: (total_yield - (a + b + c)) as i128,
                                            total_distributed: (a + b + c) as i128,
                                        },
                                    ),
                                    s3,
                                )
                            },
                        }
                    },
                }
            },
        }
    }
}

/// Average precision loss per counted operation (0 before any operation).
pub open spec fn average_loss(s: SafeMath128) -> int {
    if s.operation_count > 0 {
        crate::rates::trunc_div(s.cumulative_precision_loss as int, s.operation_count as int)
    } else {
        0
    }
}

/// Efficiency score (0–100) of a precision record.
pub open spec fn efficiency_score_of(s: SafeMath128) -> u32 {
    if s.operation_count == 0 {
        100
    } else if average_loss(s) == 0 {
        100
    } else if average_loss(s) < 100 {
        95
    } else if average_loss(s) < 1000 {
        85
    } else if average_loss(s) < 10_000 {
        70
    } else {
        50
    }
}

/// Quality grade of a precision record.
pub open spec fn quality_of(s: SafeMath128) -> PrecisionQuality {
    if s.operation_count == 0 || average_loss(s) == 0 {
        PrecisionQuality::Perfect
    } else if 1 <= average_loss(s) <= 10 {
        PrecisionQuality::Excellent
    } else if 11 <= average_loss(s) <= 100 {
        PrecisionQuality::Good
    } else if 101 <= average_loss(s) <= 1000 {
        PrecisionQuality::Fair
    } else if 1001 <= average_loss(s) <= 10_000 {
        PrecisionQuality::Poor
    } else {
        PrecisionQuality::Critical
    }
}

/// The texts of the recommendations for a quality grade and a largest loss.
pub open spec fn recommendation_texts(quality: PrecisionQuality, max_loss: i128) -> Seq<Seq<char>> {
    let base = match quality {
        PrecisionQuality::Critical => seq![
            "CRITICAL: High precision loss detected. Consider using higher precision arithmetic."@,
            "Review all division operations for optimization opportunities."@,
        ],
        PrecisionQuality::Poor => seq![
            "Consider implementing ceiling division for protocol-favorable calculations."@,
            "Evaluate batch processing to reduce cumulative precision loss."@,
        ],
        PrecisionQuality::Fair => seq![
            "Monitor precision loss trends over time."@,
            "Consider precision-aware rounding strategies."@,
        ],
        PrecisionQuality::Good | PrecisionQuality::Excellent => seq![
            "Precision is within acceptable ranges."@,
            "Continue monitoring for optimization opportunities."@,
        ],
        PrecisionQuality::Perfect => seq!["Perfect precision maintained. Excellent optimization."@],
    };
    if max_loss > 1000 {
        base.push(
            "Single operation with high precision loss detected. Investigate specific operation."@,
        )
    } else {
        base
    }
}


/// Absolute value.
pub open spec fn abs_int(x: int) -> int {
    if x < 0 { -x } else { x }
}

/// Result and record of `batch_safe_mul_yield` over `inputs`.
pub open spec fn batch_outcome(s: SafeMath128, inputs: Seq<(i128, u32, u64)>) -> (
    Result<Seq<i128>, SafeMathError>,
    SafeMath128,
)
    decreases inputs.len(),
{
    if inputs.len() == 0 {
        (Ok(Seq::empty()), s)
    } else {
        let (r, s1) = batch_outcome(s, inputs.drop_last());
        match r {
            Err(e) => (Err(e), s1),
            Ok(done) => {
                let (principal, rate_bps, time_factor) = inputs.last();
                let (r2, s2) = mul_yield_outcome(s1, principal, rate_bps, time_factor);
                match r2 {
                    Err(e) => (Err(e), s2),
                    Ok(v) => (Ok(done.push(v)), s2),
                }
            },
        }
    }
}

/// Result of `safe_power` when it succeeds: `base ^ exponent`, except that
/// a zero base gives zero for every exponent.
pub open spec fn power_value(base: int, exponent: nat) -> int {
    if base == 0 { 0 } else { pow(base, exponent) }
}

/// `n` Newton steps `g -> (g + value / g) / 2` from `guess`, stopping early
/// at a zero guess; `None` where a sum overflows.
pub open spec fn newton_steps(value: int, guess: int, n: nat) -> Option<int>
    decreases n,
{
    if n == 0 || guess == 0 {
        Some(guess)
    } else if !crate::rent_escalation::fits_i128(guess + value / guess) {
        None
    } else {
        newton_steps(value, (guess + value / guess) / 2, (n - 1) as nat)
    }
}

/// Result of `safe_sqrt_approximation`.
pub open spec fn sqrt_outcome(value: i128, iterations: u32) -> Result<i128, SafeMathError> {
    if value < 0 {
        Err(SafeMathError::NegativeAmount(value))
    } else if value == 0 || value == 1 {
        Ok(value)
    } else {
        match newton_steps(value as int, value / 2, iterations as nat) {
            None => Err(SafeMathError::AdditionOverflow),
            Some(g) => Ok(g as i128),
        }
    }
}

/// Running sums of `safe_weighted_average` over a prefix: the weighted
/// sum and the total weight, or the error met on the way.
pub open spec fn weighted_sums(values: Seq<(i128, i128)>) -> Result<(int, int), SafeMathError>
    decreases values.len(),
{
    if values.len() == 0 {
        Ok((0, 0))
    } else {
        match weighted_sums(values.drop_last()) {
            Err(e) => Err(e),
            Ok((ws, tw)) => {
                let (value, weight) = values.last();
                if weight < 0 {
                    Err(SafeMathError::NegativeWeight(weight))
                } else if !crate::rent_escalation::fits_i128(value * weight) {
                    Err(SafeMathError::MultiplicationOverflow)
                } else if !crate::rent_escalation::fits_i128(ws + value * weight) {
                    Err(SafeMathError::AdditionOverflow)
                } else if !crate::rent_escalation::fits_i128(tw + weight) {
                    Err(SafeMathError::AdditionOverflow)
                } else {
                    Ok((ws + value * weight, tw + weight))
                }
            },
        }
    }
}

/// Result of `safe_weighted_average`.
pub open spec fn weighted_average_outcome(values: Seq<(i128, i128)>) -> Result<i128, SafeMathError> {
    if values.len() == 0 {
        Err(SafeMathError::EmptyInput)
    } else {
        match weighted_sums(values) {
            Err(e) => Err(e),
            Ok((ws, tw)) => if tw == 0 {
                Err(SafeMathError::DivisionByZero)
            } else {
                Ok(crate::rates::trunc_div(ws, tw) as i128)
            },
        }
    }
}

/// Checked running sum of `values`.
pub open spec fn checked_sum(values: Seq<i128>) -> Option<int>
    decreases values.len(),
{
    if values.len() == 0 {
        Some(0)
    } else {
        match checked_sum(values.drop_last()) {
            None => None,
            Some(t) => if crate::rent_escalation::fits_i128(t + values.last()) {
                Some(t + values.last())
            } else {
                None
            },
        }
    }
}

/// Checked running sum of squared deviations from `mean`.
pub open spec fn squared_deviation_sum(values: Seq<i128>, mean: int) -> Result<int, SafeMathError>
    decreases values.len(),
{
    if values.len() == 0 {
        Ok(0)
    } else {
        match squared_deviation_sum(values.drop_last(), mean) {
            Err(e) => Err(e),
            Ok(t) => {
                let d = values.last() - mean;
                if !crate::rent_escalation::fits_i128(d) {
                    Err(SafeMathError::UnderflowError)
                } else if !crate::rent_escalation::fits_i128(d * d) {
                    Err(SafeMathError::MultiplicationOverflow)
                } else if !crate::rent_escalation::fits_i128(t + d * d) {
                    Err(SafeMathError::AdditionOverflow)
                } else {
                    Ok(t + d * d)
                }
            },
        }
    }
}

/// Result of `safe_volatility_calculation`.
pub open spec fn volatility_outcome(values: Seq<i128>) -> Result<i128, SafeMathError> {
    if values.len() < 2 {
        Err(SafeMathError::InsufficientData)
    } else {
        match checked_sum(values) {
            None => Err(SafeMathError::AdditionOverflow),
            Some(sum) => {
                let mean = crate::rates::trunc_div(sum, values.len() as int);
                match squared_deviation_sum(values, mean) {
                    Err(e) => Err(e),
                    Ok(v) => sqrt_outcome(crate::rates::trunc_div(v, values.len() as int) as i128, 10),
                }
            },
        }
    }
}

/// Peak and largest drawdown (in basis points of the peak) over `values`,
/// scanning from the first element.
pub open spec fn drawdown_scan(values: Seq<i128>) -> Result<(int, int), SafeMathError>
    recommends
        values.len() >= 1,
    decreases values.len(),
{
    if values.len() <= 1 {
        Ok((values[0] as int, 0))
    } else {
        match drawdown_scan(values.drop_last()) {
            Err(e) => Err(e),
            Ok((peak, worst)) => {
                let v = values.last() as int;
                if v > peak {
                    Ok((v, worst))
                } else if !crate::rent_escalation::fits_i128(peak - v) {
                    Err(SafeMathError::UnderflowError)
                } else if !crate::rent_escalation::fits_i128((peak - v) * 10_000) || peak == 0 || !crate::rent_escalation::fits_i128(
                    crate::rates::trunc_div((peak - v) * 10_000, peak),
                ) {
                    Err(SafeMathError::DivisionError)
                } else {
                    let dd = crate::rates::trunc_div((peak - v) * 10_000, peak);
                    Ok((peak, if dd > worst { dd } else { worst }))
                }
            },
        }
    }
}

/// Result of `safe_max_drawdown`.
pub open spec fn max_drawdown_outcome(values: Seq<i128>) -> Result<i128, SafeMathError> {
    if values.len() < 2 {
        Err(SafeMathError::InsufficientData)
    } else {
        match drawdown_scan(values) {
            Err(e) => Err(e),
            Ok((_, worst)) => Ok(worst as i128),
        }
    }
}


/// Once a batch prefix fails, every longer prefix fails the same way.
proof fn lemma_batch_error_persists(s: SafeMath128, inputs: Seq<(i128, u32, u64)>, j: int, n: int)
    requires
        0 <= j <= n <= inputs.len(),
        batch_outcome(s, inputs.take(j)).0 is Err,
    ensures
        batch_outcome(s, inputs.take(n)) == batch_outcome(s, inputs.take(j)),
    decreases n - j,
{
    if n > j {
        lemma_batch_error_persists(s, inputs, j, n - 1);
        assert(inputs.take(n).drop_last() =~= inputs.take(n - 1));
    }
}

/// A batch that fails on a prefix fails the same way on the whole input.
proof fn lemma_batch_prefix_error(s: SafeMath128, inputs: Seq<(i128, u32, u64)>, j: int)
    requires
        0 <= j <= inputs.len(),
        batch_outcome(s, inputs.take(j)).0 is Err,
    ensures
        batch_outcome(s, inputs) == batch_outcome(s, inputs.take(j)),
{
    lemma_batch_error_persists(s, inputs, j, inputs.len() as int);
    assert(inputs.take(inputs.len() as int) =~= inputs);
}


/// Result and record of `safe_compound_interest`.
pub open spec fn compound_outcome(
    s: SafeMath128,
    principal: i128,
    annual_rate_bps: u32,
    periods_per_year: u32,
    years: u32,
) -> (Result<i128, SafeMathError>, SafeMath128) {
    if principal < 0 {
        (Err(SafeMathError::NegativePrincipal(principal)), s)
    } else if annual_rate_bps > 10_000 {
        (Err(SafeMathError::InvalidRate(annual_rate_bps)), s)
    } else if periods_per_year == 0 || years == 0 {
        (Ok(0), s)
    } else {
        let growth = pow(10_000 + annual_rate_bps / periods_per_year, (periods_per_year * years) as nat);
        if growth > i128::MAX {
            (Err(SafeMathError::MultiplicationOverflow), s)
        } else if !crate::rent_escalation::fits_i128(principal * growth) {
            (Err(SafeMathError::MultiplicationOverflow), s)
        } else {
            let final_amount = principal * growth / 10_000;
            match after_loss(s, final_amount % 10_000) {
                Err(e) => (Err(e), s),
                Ok(s2) => (Ok((final_amount - principal) as i128), s2),
            }
        }
    }
}

/// Result of `safe_ln_approximation`: `2000 * (1000x - 1000) / (1000x + 1000)`.
pub open spec fn ln_outcome(value: i128) -> Result<i128, SafeMathError> {
    if value <= 0 {
        Err(SafeMathError::InvalidLogInput(value))
    } else if value == 1 {
        Ok(0)
    } else if !crate::rent_escalation::fits_i128(value * 1000) {
        Err(SafeMathError::MultiplicationOverflow)
    } else if !crate::rent_escalation::fits_i128(value * 1000 + 1000) {
        Err(SafeMathError::AdditionOverflow)
    } else if !crate::rent_escalation::fits_i128((value * 1000 - 1000) * 2000) {
        Err(SafeMathError::DivisionError)
    } else {
        Ok(((value * 1000 - 1000) * 2000 / (value * 1000 + 1000)) as i128)
    }
}

/// Result of `safe_percentage_change`, in basis points of `old_value`.
pub open spec fn percentage_change_outcome(old_value: i128, new_value: i128) -> Result<i128, SafeMathError> {
    if old_value <= 0 {
        Err(SafeMathError::DivisionByZero)
    } else if !crate::rent_escalation::fits_i128(new_value - old_value) {
        Err(SafeMathError::UnderflowError)
    } else if !crate::rent_escalation::fits_i128((new_value - old_value) * 10_000) {
        Err(SafeMathError::DivisionError)
    } else {
        Ok(crate::rates::trunc_div((new_value - old_value) * 10_000, old_value as int) as i128)
    }
}

/// Result of `safe_ema`: `(α·current + (1 − α)·previous) / BPS_SCALE`.
pub open spec fn ema_outcome(current_value: i128, previous_ema: i128, alpha_bps: u32) -> Result<
    i128,
    SafeMathError,
> {
    if alpha_bps > 10_000 {
        Err(SafeMathError::InvalidBps(alpha_bps))
    } else if !crate::rent_escalation::fits_i128(current_value * alpha_bps) {
        Err(SafeMathError::MultiplicationOverflow)
    } else if !crate::rent_escalation::fits_i128(previous_ema * (10_000 - alpha_bps)) {
        Err(SafeMathError::MultiplicationOverflow)
    } else if !crate::rent_escalation::fits_i128(current_value * alpha_bps + previous_ema * (10_000 - alpha_bps)) {
        Err(SafeMathError::AdditionOverflow)
    } else {
        Ok(
            crate::rates::trunc_div(current_value * alpha_bps + previous_ema * (10_000 - alpha_bps), 10_000) as i128,
        )
    }
}

/// Once the weighted sums fail on a prefix, they fail the same way on
/// every longer prefix.
proof fn lemma_weighted_error_persists(values: Seq<(i128, i128)>, j: int, n: int)
    requires
        0 <= j <= n <= values.len(),
        weighted_sums(values.take(j)) is Err,
    ensures
        weighted_sums(values.take(n)) == weighted_sums(values.take(j)),
    decreases n - j,
{
    if n > j {
        lemma_weighted_error_persists(values, j, n - 1);
        assert(values.take(n).drop_last() =~= values.take(n - 1));
    }
}

/// Once the checked sum overflows on a prefix, it stays `None`.
proof fn lemma_sum_overflow_persists(values: Seq<i128>, j: int, n: int)
    requires
        0 <= j <= n <= values.len(),
        checked_sum(values.take(j)) is None,
    ensures
        checked_sum(values.take(n)) is None,
    decreases n - j,
{
    if n > j {
        lemma_sum_overflow_persists(values, j, n - 1);
        assert(values.take(n).drop_last() =~= values.take(n - 1));
    }
}

/// Once the squared-deviation sum fails on a prefix, it fails the same way
/// on every longer prefix.
proof fn lemma_deviation_error_persists(values: Seq<i128>, mean: int, j: int, n: int)
    requires
        0 <= j <= n <= values.len(),
        squared_deviation_sum(values.take(j), mean) is Err,
    ensures
        squared_deviation_sum(values.take(n), mean) == squared_deviation_sum(values.take(j), mean),
    decreases n - j,
{
    if n > j {
        lemma_deviation_error_persists(values, mean, j, n - 1);
        assert(values.take(n).drop_last() =~= values.take(n - 1));
    }
}

/// Once the drawdown scan fails on a prefix, it fails the same way on
/// every longer prefix.
proof fn lemma_drawdown_error_persists(values: Seq<i128>, j: int, n: int)
    requires
        1 <= j <= n <= values.len(),
        drawdown_scan(values.take(j)) is Err,
    ensures
        drawdown_scan(values.take(n)) == drawdown_scan(values.take(j)),
    decreases n - j,
{
    if n > j {
        lemma_drawdown_error_persists(values, j, n - 1);
        assert(values.take(n).drop_last() =~= values.take(n - 1));
    }
}


/// Newton's iteration from a non-negative guess for a non-negative value
/// stays non-negative.
proof fn lemma_newton_nonnegative(value: int, guess: int, n: nat)
    requires
        value >= 0,
        0 <= guess <= i128::MAX,
    ensures
        newton_steps(value, guess, n) matches Some(g) ==> 0 <= g <= i128::MAX,
    decreases n,
{
    if n > 0 && guess != 0 {
        assert(value / guess >= 0) by (nonlinear_arith)
            requires
                value >= 0,
                guess > 0,
        ;
        if crate::rent_escalation::fits_i128(guess + value / guess) {
            lemma_newton_nonnegative(value, (guess + value / guess) / 2, (n - 1) as nat);
        }
    }
}

/// A square root, and so a volatility, is never negative.
pub proof fn lemma_volatility_never_negative(values: Seq<i128>)
    ensures
        volatility_outcome(values) matches Ok(v) ==> v >= 0,
{
    if values.len() >= 2 {
        if let Some(sum) = checked_sum(values) {
            let mean = crate::rates::trunc_div(sum, values.len() as int);
            if let Ok(d) = squared_deviation_sum(values, mean) {
                let x = crate::rates::trunc_div(d, values.len() as int) as i128;
                if x > 1 {
                    lemma_newton_nonnegative(x as int, (x / 2) as int, 10);
                }
            }
        }
    }
}

/// The fall from `from` to `to`, in basis points of `from`, rounded down.
pub open spec fn fall_bps(from: int, to: int) -> int {
    (from - to) * 10_000 / from
}

/// For positive values, a fall measured from a higher peak is at least the
/// fall to the same value measured from a lower one.
proof fn lemma_fall_grows_with_peak(a: int, p: int, v: int)
    requires
        0 < v <= a <= p,
    ensures
        0 <= fall_bps(a, v) <= fall_bps(p, v) <= 10_000,
{
    assert((p - v) * 10_000 <= p * 10_000) by (nonlinear_arith)
        requires
            0 < v <= p,
    ;
    assert((p - v) * 10_000 / p <= 10_000) by (nonlinear_arith)
        requires
            (p - v) * 10_000 <= p * 10_000,
            p > 0,
    ;
    let x = (a - v) * 10_000;
    let y = (p - v) * 10_000;
    assert(x * p <= y * a) by (nonlinear_arith)
        requires
            0 < v <= a <= p,
            x == (a - v) * 10_000,
            y == (p - v) * 10_000,
    ;
    let q = x / a;
    assert(0 <= q);
    assert(q * a <= x) by (nonlinear_arith)
        requires
            a > 0,
            x >= 0,
            q == x / a,
    ;
    assert(q * p <= y) by (nonlinear_arith)
        requires
            q * a <= x,
            x * p <= y * a,
            a > 0,
            p > 0,
            q >= 0,
    ;
    assert(q <= y / p) by (nonlinear_arith)
        requires
            q * p <= y,
            p > 0,
            q >= 0,
    ;
}

/// What a successful drawdown scan of positive values found: the peak is
/// the largest value, and the worst drawdown is the largest fall from any
/// value to a later one (zero if there is none).
proof fn lemma_scan_finds_largest_fall(values: Seq<i128>)
    requires
        values.len() >= 1,
        forall|k: int| 0 <= k < values.len() ==> values[k] > 0,
    ensures
        drawdown_scan(values) matches Ok((p, w)) ==> {
            &&& exists|k: int| 0 <= k < values.len() && p == values[k]
            &&& forall|k: int| 0 <= k < values.len() ==> values[k] <= p
            &&& 0 <= w <= 10_000
            &&& forall|i: int, j: int|
                0 <= i < j < values.len() && values[i] >= values[j] ==> fall_bps(
                    values[i] as int,
                    values[j] as int,
                ) <= w
            &&& w == 0 || exists|i: int, j: int|
                0 <= i < j < values.len() && values[i] >= values[j] && w == fall_bps(
                    values[i] as int,
                    values[j] as int,
                )
        },
    decreases values.len(),
{
    if values.len() == 1 {
        if let Ok((p, w)) = drawdown_scan(values) {
            assert(p == values[0]);
        }
    } else {
        let prefix = values.drop_last();
        let n = values.len() - 1;
        assert forall|k: int| 0 <= k < prefix.len() implies prefix[k] > 0 by {
            assert(prefix[k] == values[k]);
        }
        lemma_scan_finds_largest_fall(prefix);
        if let Ok((p0, w0)) = drawdown_scan(prefix) {
            let v = values[n] as int;
            assert(values.last() == values[n]);
            let k0 = choose|k: int| 0 <= k < prefix.len() && p0 == prefix[k];
            assert(values[k0] == prefix[k0]);
            if v > p0 {
                if let Ok((p, w)) = drawdown_scan(values) {
                    assert(p == v && w == w0);
                    assert forall|k: int| 0 <= k < values.len() implies values[k] <= p by {
                        if k < n {
                            assert(values[k] == prefix[k]);
                        }
                    }
                    assert forall|i: int, j: int|
                        0 <= i < j < values.len() && values[i] >= values[j] implies fall_bps(
                        values[i] as int,
                        values[j] as int,
                    ) <= w by {
                        assert(values[i] == prefix[i]);
                        if j < n {
                            assert(values[j] == prefix[j]);
                        }
                    }
                    if w != 0 {
                        let (i0, j0) = choose|i: int, j: int|
                            0 <= i < j < prefix.len() && prefix[i] >= prefix[j] && w0 == fall_bps(
                                prefix[i] as int,
                                prefix[j] as int,
                            );
                        assert(values[i0] == prefix[i0] && values[j0] == prefix[j0]);
                    }
                    assert(values[n] == p);
                }
            } else {
                if let Ok((p, w)) = drawdown_scan(values) {
                    assert(p0 > 0);
                    let dd = crate::rates::trunc_div((p0 - v) * 10_000, p0);
                    assert(dd == fall_bps(p0, v));
                    assert(p == p0);
                    assert(w == if dd > w0 {
                        dd
                    } else {
                        w0
                    });
                    assert(values[k0] >= values[n]);
                    assert(k0 < n);
                    assert forall|k: int| 0 <= k < values.len() implies values[k] <= p by {
                        if k < n {
                            assert(values[k] == prefix[k]);
                        }
                    }
                    assert forall|i: int, j: int|
                        0 <= i < j < values.len() && values[i] >= values[j] implies fall_bps(
                        values[i] as int,
                        values[j] as int,
                    ) <= w by {
                        assert(values[i] == prefix[i]);
                        if j < n {
                            assert(values[j] == prefix[j]);
                        } else {
                            assert(values[i] <= p0);
                            lemma_fall_grows_with_peak(values[i] as int, p0, v);
                        }
                    }
                    if dd > w0 {
                        assert(0 <= k0 < n < values.len() && values[k0] >= values[n] && w == fall_bps(
                            values[k0] as int,
                            values[n] as int,
                        ));
                    } else if w != 0 {
                        let (i0, j0) = choose|i: int, j: int|
                            0 <= i < j < prefix.len() && prefix[i] >= prefix[j] && w0 == fall_bps(
                                prefix[i] as int,
                                prefix[j] as int,
                            );
                        assert(values[i0] == prefix[i0] && values[j0] == prefix[j0]);
                    }
                    lemma_fall_grows_with_peak(p0, p0, v);
                }
            }
        }
    }
}

/// The maximum drawdown of positive values is the largest fall, in basis
/// points of the earlier value and rounded down, from any value to a later
/// one, or zero where values never fall: every fall is at most the result,
/// and a non-zero result is one of the falls. Each fall is thus measured
/// from the highest value seen before it.
pub proof fn lemma_max_drawdown_is_largest_fall(values: Seq<i128>)
    requires
        forall|k: int| 0 <= k < values.len() ==> values[k] > 0,
    ensures
        max_drawdown_outcome(values) matches Ok(w) ==> {
            &&& w >= 0
            &&& forall|i: int, j: int|
                0 <= i < j < values.len() && values[i] >= values[j] ==> fall_bps(
                    values[i] as int,
                    values[j] as int,
                ) <= w
            &&& w == 0 || exists|i: int, j: int|
                0 <= i < j < values.len() && values[i] >= values[j] && w == fall_bps(
                    values[i] as int,
                    values[j] as int,
                )
        },
{
    if values.len() >= 2 {
        lemma_scan_finds_largest_fall(values);
    }
}

/// Total weights accumulated without error are never negative.
proof fn lemma_weights_nonnegative(values: Seq<(i128, i128)>)
    ensures
        weighted_sums(values) is Ok ==> weighted_sums(values)->Ok_0.1 >= 0,
    decreases values.len(),
{
    if values.len() > 0 {
        lemma_weights_nonnegative(values.drop_last());
    }
}

/// `|pow(b, e)| == pow(|b|, e)`.
pub proof fn lemma_pow_abs(b: int, e: nat)
    ensures
        abs_int(pow(b, e)) == pow(abs_int(b), e),
    decreases e,
{
    reveal(pow);
    if e > 0 {
        lemma_pow_abs(b, (e - 1) as nat);
        lemma_abs_mul(b, pow(b, (e - 1) as nat));
    }
}

/// `|a * b| == |a| * |b|`.
pub proof fn lemma_abs_mul(a: int, b: int)
    ensures
        abs_int(a * b) == abs_int(a) * abs_int(b),
{
    assert(abs_int(a * b) == abs_int(a) * abs_int(b)) by (nonlinear_arith);
}

/// One step of exponentiation by squaring keeps `r * c^k` unchanged.
proof fn lemma_square_step(c: int, k: nat)
    requires
        k % 2 == 0,
    ensures
        pow(c * c, k / 2) == pow(c, k),
{
    lemma_square_is_pow2(c);
    lemma_pow_multiplies(c, 2, k / 2);
}

/// Peeling one factor off a power.
proof fn lemma_peel(c: int, k: nat)
    requires
        k >= 1,
    ensures
        pow(c, k) == c * pow(c, (k - 1) as nat),
{
    lemma_pow_adds(c, 1, (k - 1) as nat);
    lemma_pow1(c);
}

impl SafeMath128 {
    /// A fresh calculator with an empty record.
    pub fn new() -> (r: Self)
        ensures
            r == (SafeMath128 {
                cumulative_precision_loss: 0,
                operation_count: 0,
                max_single_operation_loss: 0,
            }),
    {
        SafeMath128 { cumulative_precision_loss: 0, operation_count: 0, max_single_operation_loss: 0 }
    }

    fn track_precision_loss(&mut self, loss: i128) -> (r: Result<(), SafeMathError>)
        requires
            old(self).operation_count < u64::MAX,
        ensures
            match after_loss(*old(self), loss as int) {
                Err(e) => r == Err::<(), _>(e) && *final(self) == *old(self),
                Ok(s2) => r is Ok && *final(self) == s2,
            },
    {
        let sum = match self.cumulative_precision_loss.checked_add(loss) {
            Some(v) => v,
            None => return Err(SafeMathError::PrecisionLossOverflow),
        };
        self.cumulative_precision_loss = sum;
        self.operation_count = self.operation_count + 1;
        if self.max_single_operation_loss < loss {
            self.max_single_operation_loss = loss;
        }
        Ok(())
    }

    /// `(principal * rate_bps * time_factor) / BPS_SCALE`, rounding down,
    /// with the dropped remainder tracked as precision loss.
    pub fn safe_mul_yield(&mut self, principal: i128, rate_bps: u32, time_factor: u64) -> (r: Result<
        i128,
        SafeMathError,
    >)
        requires
            old(self).operation_count < u64::MAX,
        ensures
            (r, *final(self)) == mul_yield_outcome(*old(self), principal, rate_bps, time_factor),
    {
        if principal < 0 {
            return Err(SafeMathError::NegativePrincipal(principal));
        }
        if rate_bps > 10_000 {
            return Err(SafeMathError::InvalidRate(rate_bps));
        }
        if time_factor == 0 {
            return Ok(0);
        }
        if principal > MAX_SAFE_YIELD_AMOUNT {
            return Err(SafeMathError::PrincipalTooLarge(principal));
        }
        assert(0 <= principal * rate_bps <= MAX_SAFE_YIELD_AMOUNT * 10_000) by (nonlinear_arith)
            requires
                0 <= principal <= MAX_SAFE_YIELD_AMOUNT,
                0 <= rate_bps <= 10_000,
        ;
        let principal_times_rate = principal * (rate_bps as i128);
        let full_numerator = match principal_times_rate.checked_mul(time_factor as i128) {
            Some(v) => v,
            None => return Err(SafeMathError::MultiplicationOverflow),
        };
        assert(full_numerator >= 0) by (nonlinear_arith)
            requires
                full_numerator == principal_times_rate * time_factor,
                principal_times_rate >= 0,
                time_factor >= 0,
        ;
        let result = full_numerator / BPS_SCALE;
        let remainder = full_numerator % BPS_SCALE;
        match self.track_precision_loss(remainder) {
            Err(e) => return Err(e),
            Ok(()) => {},
        }
        Ok(result)
    }

    /// Adds two non-negative yields; the sum may not exceed
    /// `MAX_SAFE_YIELD_AMOUNT`.
    pub fn safe_add_yield(&mut self, current_yield: i128, additional_yield: i128) -> (r: Result<
        i128,
        SafeMathError,
    >)
        requires
            old(self).operation_count < u64::MAX,
        ensures
            (r, *final(self)) == add_yield_outcome(*old(self), current_yield, additional_yield),
    {
        if current_yield < 0 || additional_yield < 0 {
            return Err(
                SafeMathError::NegativeYield { current: current_yield, additional: additional_yield },
            );
        }
        let result = match current_yield.checked_add(additional_yield) {
            Some(v) => v,
            None => return Err(SafeMathError::AdditionOverflow),
        };
        if result > MAX_SAFE_YIELD_AMOUNT {
            return Err(SafeMathError::YieldExceedsMaximum(result));
        }
        self.operation_count = self.operation_count + 1;
        Ok(result)
    }

    /// Subtracts a distribution from a yield; both must be non-negative and
    /// the distribution may not exceed the yield.
    pub fn safe_sub_yield(&mut self, total_yield: i128, distribution_amount: i128) -> (r: Result<
        i128,
        SafeMathError,
    >)
        requires
            old(self).operation_count < u64::MAX,
        ensures
            (r, *final(self)) == sub_yield_outcome(*old(self), total_yield, distribution_amount),
    {
        if total_yield < 0 || distribution_amount < 0 {
            return Err(
                SafeMathError::NegativeDistribution { total: total_yield, amount: distribution_amount },
            );
        }
        if distribution_amount > total_yield {
            return Err(SafeMathError::DistributionExceedsYield { total_yield, distribution_amount });
        }
        let result = total_yield - distribution_amount;
        self.operation_count = self.operation_count + 1;
        Ok(result)
    }

    /// `ceil(amount * bps / BPS_SCALE)`; the rounding gain is tracked as
    /// precision loss when the division is not exact.
    pub fn safe_bps_division_ceiling(&mut self, amount: i128, bps: u32) -> (r: Result<
        i128,
        SafeMathError,
    >)
        requires
            old(self).operation_count < u64::MAX,
        ensures
            (r, *final(self)) == bps_ceiling_outcome(*old(self), amount, bps),
    {
        if amount < 0 {
            return Err(SafeMathError::NegativeAmount(amount));
        }
        if bps > 10_000 {
            return Err(SafeMathError::InvalidBps(bps));
        }
        let numerator = match amount.checked_mul(bps as i128) {
            Some(v) => v,
            None => return Err(SafeMathError::MultiplicationOverflow),
        };
        let ceiling_numerator = match numerator.checked_add(BPS_SCALE - 1) {
            Some(v) => v,
            None => return Err(SafeMathError::AdditionOverflow),
        };
        assert(numerator >= 0) by (nonlinear_arith)
            requires
                numerator == amount * bps,
                amount >= 0,
                bps >= 0,
        ;
        let result = ceiling_numerator / BPS_SCALE;
        let remainder = numerator % BPS_SCALE;
        if remainder > 0 {
            match self.track_precision_loss(BPS_SCALE - remainder) {
                Err(e) => return Err(e),
                Ok(()) => {},
            }
        }
        Ok(result)
    }

    /// `floor(amount * bps / BPS_SCALE)`; the remainder is tracked as
    /// precision loss.
    pub fn safe_bps_division_floor(&mut self, amount: i128, bps: u32) -> (r: Result<
        i128,
        SafeMathError,
    >)
        requires
            old(self).operation_count < u64::MAX,
        ensures
            (r, *final(self)) == bps_floor_outcome(*old(self), amount, bps),
    {
        if amount < 0 {
            return Err(SafeMathError::NegativeAmount(amount));
        }
        if bps > 10_000 {
            return Err(SafeMathError::InvalidBps(bps));
        }
        let numerator = match amount.checked_mul(bps as i128) {
            Some(v) => v,
            None => return Err(SafeMathError::MultiplicationOverflow),
        };
        assert(numerator >= 0) by (nonlinear_arith)
            requires
                numerator == amount * bps,
                amount >= 0,
                bps >= 0,
        ;
        let result = numerator / BPS_SCALE;
        let remainder = numerator % BPS_SCALE;
        match self.track_precision_loss(remainder) {
            Err(e) => return Err(e),
            Ok(()) => {},
        }
        Ok(result)
    }

    /// `amount * multiplier_bps / BPS_SCALE`, rounding down, for a
    /// multiplier of any size (above 100% too), with the dropped remainder
    /// tracked as precision loss.
    pub(crate) fn scale_floor(&mut self, amount: i128, multiplier_bps: u32) -> (r: Result<
        i128,
        SafeMathError,
    >)
        requires
            old(self).operation_count < u64::MAX,
        ensures
            (r, *final(self)) == scale_floor_outcome(*old(self), amount, multiplier_bps),
    {
        if amount < 0 {
            return Err(SafeMathError::NegativeAmount(amount));
        }
        let numerator = match amount.checked_mul(multiplier_bps as i128) {
            Some(v) => v,
            None => return Err(SafeMathError::MultiplicationOverflow),
        };
        assert(numerator >= 0) by (nonlinear_arith)
            requires
                numerator == amount * multiplier_bps,
                amount >= 0,
                multiplier_bps >= 0,
        ;
        let result = numerator / BPS_SCALE;
        let remainder = numerator % BPS_SCALE;
        match self.track_precision_loss(remainder) {
            Err(e) => return Err(e),
            Ok(()) => {},
        }
        Ok(result)
    }

    /// The base yield of `safe_mul_yield`, scaled by `multiplier_bps` with
    /// floor division unless the multiplier is exactly 100%; multipliers
    /// above 100% raise the yield. The principal may not exceed
    /// `MAX_SAFE_YIELD_AMOUNT / 1000`.
    pub fn complex_yield_calculation(
        &mut self,
        principal: i128,
        rate_bps: u32,
        time_factor: u64,
        multiplier_bps: u32,
    ) -> (r: Result<i128, SafeMathError>)
        requires
            old(self).operation_count + 2 <= u64::MAX,
        ensures
            (r, *final(self)) == complex_yield_outcome(
                *old(self),
                principal,
                rate_bps,
                time_factor,
                multiplier_bps,
            ),
    {
        if principal > MAX_SAFE_YIELD_AMOUNT / 1000 {
            return Err(SafeMathError::PrincipalTooLarge(principal));
        }
        let base_yield = match self.safe_mul_yield(principal, rate_bps, time_factor) {
            Err(e) => return Err(e),
            Ok(v) => v,
        };
        if multiplier_bps != 10_000 {
            self.scale_floor(base_yield, multiplier_bps)
        } else {
            Ok(base_yield)
        }
    }

    /// Splits `total_yield` between lessee, lessor and DAO by basis points,
    /// rounding each share down, so that the shares never exceed the yield;
    /// the unallocated remainder is the dust.
    pub fn yield_distribution_with_dust_tracking(
        &mut self,
        total_yield: i128,
        lessee_bps: u32,
        lessor_bps: u32,
        dao_bps: u32,
    ) -> (r: Result<YieldDistribution, SafeMathError>)
        requires
            old(self).operation_count + 3 <= u64::MAX,
            lessee_bps + lessor_bps + dao_bps <= u32::MAX,
        ensures
            (r, *final(self)) == distribution_outcome(
                *old(self),
                total_yield,
                lessee_bps,
                lessor_bps,
                dao_bps,
            ),
    {
        if total_yield < 0 {
            return Err(SafeMathError::NegativeYield { current: total_yield, additional: 0 });
        }
        let total_bps = lessee_bps + lessor_bps + dao_bps;
        if total_bps > 10_000 {
            return Err(SafeMathError::InvalidDistributionBps(total_bps));
        }
        let lessee_share = match self.safe_bps_division_floor(total_yield, lessee_bps) {
            Err(e) => return Err(e),
            Ok(v) => v,
        };
        let lessor_share = match self.safe_bps_division_floor(total_yield, lessor_bps) {
            Err(e) => return Err(e),
            Ok(v) => v,
        };
        let dao_share = match self.safe_bps_division_floor(total_yield, dao_bps) {
            Err(e) => return Err(e),
            Ok(v) => v,
        };
        let partial = match lessee_share.checked_add(lessor_share) {
            Some(v) => v,
            None => return Err(SafeMathError::DistributionOverflow),
        };
        let total_distributed = match partial.checked_add(dao_share) {
            Some(v) => v,
            None => return Err(SafeMathError::DistributionOverflow),
        };
        if total_distributed > total_yield {
            return Err(
                SafeMathError::DistributionExceedsYield {
                    total_yield,
                    distribution_amount: total_distributed,
                },
            );
        }
        let dust = total_yield - total_distributed;
        Ok(YieldDistribution { lessee_share, lessor_share, dao_share, dust, total_distributed })
    }

    fn average_loss_per_operation(&self) -> (r: i128)
        ensures
            r == average_loss(*self),
    {
        if self.operation_count > 0 {
            self.cumulative_precision_loss / (self.operation_count as i128)
        } else {
            0
        }
    }

    fn calculate_efficiency_score(&self) -> (r: u32)
        ensures
            r == efficiency_score_of(*self),
    {
        if self.operation_count == 0 {
            return 100;
        }
        let loss_per_op = self.average_loss_per_operation();
        if loss_per_op == 0 {
            100
        } else if loss_per_op < 100 {
            95
        } else if loss_per_op < 1000 {
            85
        } else if loss_per_op < 10_000 {
            70
        } else {
            50
        }
    }


    /// `safe_mul_yield` over every `(principal, rate_bps, time_factor)`
    /// input in order, stopping at the first error.
    pub fn batch_safe_mul_yield(&mut self, inputs: &[(i128, u32, u64)]) -> (r: Result<
        Vec<i128>,
        SafeMathError,
    >)
        requires
            old(self).operation_count + inputs@.len() <= u64::MAX,
        ensures
            ({
                let (expected, record) = batch_outcome(*old(self), inputs@);
                &&& *final(self) == record
                &&& match expected {
                    Err(e) => r == Err::<Vec<i128>, _>(e),
                    Ok(v) => r is Ok && r->Ok_0@ == v,
                }
            }),
    {
        let mut results: Vec<i128> = Vec::new();
        let mut i: usize = 0;
        while i < inputs.len()
            invariant
                0 <= i <= inputs@.len(),
                self.operation_count <= old(self).operation_count + i,
                old(self).operation_count + inputs@.len() <= u64::MAX,
                (Ok::<Seq<i128>, SafeMathError>(results@), *self) == batch_outcome(
                    *old(self),
                    inputs@.take(i as int),
                ),
            decreases inputs@.len() - i,
        {
            let (principal, rate_bps, time_factor) = inputs[i];
            assert(inputs@.take(i as int + 1).drop_last() =~= inputs@.take(i as int));
            let ghost before = *self;
            match self.safe_mul_yield(principal, rate_bps, time_factor) {
                Err(e) => {
                    proof {
                        lemma_batch_prefix_error(*old(self), inputs@, i as int + 1);
                    }
                    return Err(e);
                },
                Ok(v) => {
                    results.push(v);
                },
            }
            i = i + 1;
        }
        assert(inputs@.take(inputs@.len() as int) =~= inputs@);
        Ok(results)
    }

    /// `base ^ exponent` by repeated squaring; a zero base gives zero and an
    /// intermediate overflow gives `MultiplicationOverflow`.
    #[verifier::spinoff_prover]
    pub fn safe_power(&mut self, base: i128, exponent: u32) -> (r: Result<i128, SafeMathError>)
        ensures
            *final(self) == *old(self),
            r is Ok ==> r->Ok_0 == power_value(base as int, exponent as nat),
            r is Err ==> r == Err::<i128, _>(SafeMathError::MultiplicationOverflow)
                && pow(abs_int(base as int), exponent as nat) > i128::MAX,
    {
        if base == 0 {
            return Ok(0);
        }
        if base == 1 || exponent == 0 {
            proof {
                lemma1_pow(exponent as nat);
                lemma_pow0(base as int);
            }
            return Ok(1);
        }
        if exponent == 1 {
            proof {
                lemma_pow1(base as int);
            }
            return Ok(base);
        }
        let ghost b = base as int;
        let ghost e = exponent as nat;
        let mut result: i128 = 1;
        let mut current_base: i128 = base;
        let mut remaining_exp: u32 = exponent;
        proof {
            lemma_pow0(b);
            lemma_pow0(abs_int(b));
            assert(abs_int(result as int) == 1);
            assert(abs_int(current_base as int) == abs_int(b));
            assert(abs_int(result as int) * pow(abs_int(current_base as int), remaining_exp as nat)
                == pow(abs_int(b), e));
        }
        while remaining_exp > 0
            invariant
                b == base,
                e == exponent,
                base != 0,
                result as int * pow(current_base as int, remaining_exp as nat) == pow(b, e),
                abs_int(result as int) * pow(abs_int(current_base as int), remaining_exp as nat)
                    == pow(abs_int(b), e),
                abs_int(current_base as int) >= 1,
                abs_int(result as int) >= 1,
            decreases remaining_exp,
        {
            let ghost c = current_base as int;
            let ghost k = remaining_exp as nat;
            let ghost r0 = result as int;
            let ghost ac = abs_int(c);
            let ghost pa = pow(abs_int(b), e);
            let ghost k1: nat = if remaining_exp % 2 == 1 { (k - 1) as nat } else { k };
            if remaining_exp % 2 == 1 {
                match result.checked_mul(current_base) {
                    Some(v) => {
                        result = v;
                    },
                    None => {
                        proof {
                            lemma_abs_mul(r0, c);
                            lemma_pow_increases(ac as nat, 1, k);
                            lemma_pow1(ac);
                            assert(abs_int(r0) * ac <= abs_int(r0) * pow(ac, k)) by (nonlinear_arith)
                                requires
                                    abs_int(r0) >= 1,
                                    ac <= pow(ac, k),
                            ;
                        }
                        return Err(SafeMathError::MultiplicationOverflow);
                    },
                }
                proof {
                    lemma_peel(c, k);
                    lemma_peel(ac, k);
                    lemma_abs_mul(r0, c);
                    let pc = pow(c, k1);
                    let pac = pow(ac, k1);
                    assert(result as int * pc == pow(b, e)) by (nonlinear_arith)
                        requires
                            result as int == r0 * c,
                            pow(c, k) == c * pc,
                            r0 * pow(c, k) == pow(b, e),
                    ;
                    assert(abs_int(result as int) * pac == pa) by (nonlinear_arith)
                        requires
                            abs_int(result as int) == abs_int(r0) * ac,
                            pow(ac, k) == ac * pac,
                            abs_int(r0) * pow(ac, k) == pa,
                    ;
                    assert(abs_int(r0) * ac >= 1) by (nonlinear_arith)
                        requires
                            abs_int(r0) >= 1,
                            ac >= 1,
                    ;
                }
            }
            let ghost r1 = result as int;
            assert(r1 * pow(c, k1) == pow(b, e));
            assert(abs_int(r1) * pow(ac, k1) == pa);
            if remaining_exp > 1 {
                match current_base.checked_mul(current_base) {
                    Some(v) => {
                        current_base = v;
                    },
                    None => {
                        proof {
                            lemma_abs_mul(c, c);
                            lemma_square_is_pow2(ac);
                            lemma_pow_increases(ac as nat, 2, k1);
                            assert(pow(ac, k1) <= abs_int(r1) * pow(ac, k1)) by (nonlinear_arith)
                                requires
                                    abs_int(r1) >= 1,
                                    pow(ac, k1) >= 0,
                            ;
                            assert(c * c >= 0) by (nonlinear_arith);
                        }
                        return Err(SafeMathError::MultiplicationOverflow);
                    },
                }
                proof {
                    lemma_square_step(c, k1);
                    lemma_square_step(ac, k1);
                    lemma_abs_mul(c, c);
                    assert(ac * ac >= 1) by (nonlinear_arith)
                        requires
                            ac >= 1,
                    ;
                }
            } else {
                proof {
                    lemma_pow0(c);
                    lemma_pow0(ac);
                }
            }
            remaining_exp = remaining_exp / 2;
        }
        proof {
            lemma_pow0(current_base as int);
        }
        Ok(result)
    }


    /// Compound interest `principal * (1 + r/n)^(n·t) - principal` in
    /// basis-point fixed point: the growth factor `(10000 + rate / n)^(n·t)`
    /// is not rescaled between periods, so it overflows for all but very
    /// short schedules. The remainder of the final division is tracked.
    pub fn safe_compound_interest(
        &mut self,
        principal: i128,
        annual_rate_bps: u32,
        periods_per_year: u32,
        years: u32,
    ) -> (r: Result<i128, SafeMathError>)
        requires
            old(self).operation_count < u64::MAX,
            periods_per_year * years <= u32::MAX,
        ensures
            (r, *final(self)) == compound_outcome(
                *old(self),
                principal,
                annual_rate_bps,
                periods_per_year,
                years,
            ),
    {
        if principal < 0 {
            return Err(SafeMathError::NegativePrincipal(principal));
        }
        if annual_rate_bps > 10_000 {
            return Err(SafeMathError::InvalidRate(annual_rate_bps));
        }
        if periods_per_year == 0 || years == 0 {
            return Ok(0);
        }
        let rate_per_period = (annual_rate_bps as i128) / (periods_per_year as i128);
        let total_periods = periods_per_year * years;
        let growth_factor_base = BPS_SCALE + rate_per_period;
        let growth_factor = match self.safe_power(growth_factor_base, total_periods) {
            Ok(v) => v,
            Err(e) => {
                return Err(e);
            },
        };
        let product = match principal.checked_mul(growth_factor) {
            Some(v) => v,
            None => return Err(SafeMathError::MultiplicationOverflow),
        };
        proof {
            lemma_pow_positive(growth_factor_base as int, total_periods as nat);
            assert(product >= 0) by (nonlinear_arith)
                requires
                    product == principal * growth_factor,
                    principal >= 0,
                    growth_factor > 0,
            ;
        }
        let final_amount = product / BPS_SCALE;
        let yield_amount = final_amount - principal;
        let precision_loss = final_amount % BPS_SCALE;
        match self.track_precision_loss(precision_loss) {
            Err(e) => return Err(e),
            Ok(()) => {},
        }
        Ok(yield_amount)
    }

    /// `ln(x) ≈ 2(x − 1)/(x + 1)` with `x` scaled by 1000 and the result by 1000.
    pub fn safe_ln_approximation(&mut self, value: i128) -> (r: Result<i128, SafeMathError>)
        ensures
            *final(self) == *old(self),
            r == ln_outcome(value),
    {
        if value <= 0 {
            return Err(SafeMathError::InvalidLogInput(value));
        }
        if value == 1 {
            return Ok(0);
        }
        let scaled_value = match value.checked_mul(1000) {
            Some(v) => v,
            None => return Err(SafeMathError::MultiplicationOverflow),
        };
        let numerator = scaled_value - 1000;
        let denominator = match scaled_value.checked_add(1000) {
            Some(v) => v,
            None => return Err(SafeMathError::AdditionOverflow),
        };
        let scaled_numerator = match numerator.checked_mul(2000) {
            Some(v) => v,
            None => return Err(SafeMathError::DivisionError),
        };
        Ok(scaled_numerator / denominator)
    }

    /// Integer square root approximation by at most `iterations` Newton
    /// steps from `value / 2`.
    pub fn safe_sqrt_approximation(&mut self, value: i128, iterations: u32) -> (r: Result<
        i128,
        SafeMathError,
    >)
        ensures
            *final(self) == *old(self),
            r == sqrt_outcome(value, iterations),
    {
        if value < 0 {
            return Err(SafeMathError::NegativeAmount(value));
        }
        if value == 0 || value == 1 {
            return Ok(value);
        }
        let mut guess = value / 2;
        let mut i: u32 = 0;
        while i < iterations
            invariant
                value >= 2,
                0 <= i <= iterations,
                guess >= 0,
                newton_steps(value as int, value / 2, iterations as nat) == newton_steps(
                    value as int,
                    guess as int,
                    (iterations - i) as nat,
                ),
            ensures
                newton_steps(value as int, value / 2, iterations as nat) == Some(guess as int),
            decreases iterations - i,
        {
            if guess == 0 {
                break;
            }
            let value_div_guess = value / guess;
            let sum = match guess.checked_add(value_div_guess) {
                Some(v) => v,
                None => return Err(SafeMathError::AdditionOverflow),
            };
            guess = sum / 2;
            i = i + 1;
        }
        Ok(guess)
    }

    /// The change from `old_value` to `new_value` in basis points of
    /// `old_value`, rounded toward zero.
    pub fn safe_percentage_change(&mut self, old_value: i128, new_value: i128) -> (r: Result<
        i128,
        SafeMathError,
    >)
        ensures
            *final(self) == *old(self),
            r == percentage_change_outcome(old_value, new_value),
    {
        if old_value <= 0 {
            return Err(SafeMathError::DivisionByZero);
        }
        let difference = match new_value.checked_sub(old_value) {
            Some(v) => v,
            None => return Err(SafeMathError::UnderflowError),
        };
        let scaled = match difference.checked_mul(10_000) {
            Some(v) => v,
            None => return Err(SafeMathError::DivisionError),
        };
        Ok(scaled / old_value)
    }

    /// Weighted average of `(value, weight)` pairs, rounded toward zero.
    pub fn safe_weighted_average(&mut self, values: &[(i128, i128)]) -> (r: Result<
        i128,
        SafeMathError,
    >)
        ensures
            *final(self) == *old(self),
            r == weighted_average_outcome(values@),
    {
        if values.len() == 0 {
            return Err(SafeMathError::EmptyInput);
        }
        let mut weighted_sum: i128 = 0;
        let mut total_weight: i128 = 0;
        let mut i: usize = 0;
        while i < values.len()
            invariant
                0 <= i <= values@.len(),
                values@.len() > 0,
                weighted_sums(values@.take(i as int)) == Ok::<(int, int), SafeMathError>(
                    (weighted_sum as int, total_weight as int),
                ),
            decreases values@.len() - i,
        {
            let (value, weight) = values[i];
            assert(values@.take(i as int + 1).drop_last() =~= values@.take(i as int));
            if weight < 0 {
                proof {
                    lemma_weighted_error_persists(values@, i as int + 1, values@.len() as int);
                    assert(values@.take(values@.len() as int) =~= values@);
                }
                return Err(SafeMathError::NegativeWeight(weight));
            }
            let weighted_value = match value.checked_mul(weight) {
                Some(v) => v,
                None => {
                    proof {
                        lemma_weighted_error_persists(values@, i as int + 1, values@.len() as int);
                        assert(values@.take(values@.len() as int) =~= values@);
                    }
                    return Err(SafeMathError::MultiplicationOverflow);
                },
            };
            weighted_sum = match weighted_sum.checked_add(weighted_value) {
                Some(v) => v,
                None => {
                    proof {
                        lemma_weighted_error_persists(values@, i as int + 1, values@.len() as int);
                        assert(values@.take(values@.len() as int) =~= values@);
                    }
                    return Err(SafeMathError::AdditionOverflow);
                },
            };
            total_weight = match total_weight.checked_add(weight) {
                Some(v) => v,
                None => {
                    proof {
                        lemma_weighted_error_persists(values@, i as int + 1, values@.len() as int);
                        assert(values@.take(values@.len() as int) =~= values@);
                    }
                    return Err(SafeMathError::AdditionOverflow);
                },
            };
            i = i + 1;
        }
        assert(values@.take(values@.len() as int) =~= values@);
        if total_weight == 0 {
            return Err(SafeMathError::DivisionByZero);
        }
        assert(total_weight > 0) by {
            lemma_weights_nonnegative(values@);
        }
        Ok(weighted_sum / total_weight)
    }

    /// Exponential moving average with smoothing factor `alpha_bps`.
    pub fn safe_ema(&mut self, current_value: i128, previous_ema: i128, alpha_bps: u32) -> (r: Result<
        i128,
        SafeMathError,
    >)
        ensures
            *final(self) == *old(self),
            r == ema_outcome(current_value, previous_ema, alpha_bps),
    {
        if alpha_bps > 10_000 {
            return Err(SafeMathError::InvalidBps(alpha_bps));
        }
        let alpha_scaled = alpha_bps as i128;
        let one_minus_alpha = BPS_SCALE - alpha_scaled;
        let alpha_component = match current_value.checked_mul(alpha_scaled) {
            Some(v) => v,
            None => return Err(SafeMathError::MultiplicationOverflow),
        };
        let ema_component = match previous_ema.checked_mul(one_minus_alpha) {
            Some(v) => v,
            None => return Err(SafeMathError::MultiplicationOverflow),
        };
        let sum = match alpha_component.checked_add(ema_component) {
            Some(v) => v,
            None => return Err(SafeMathError::AdditionOverflow),
        };
        Ok(sum / BPS_SCALE)
    }

    /// Standard deviation of `values` (population variance, Newton square
    /// root with ten steps); at least two values are needed.
    pub fn safe_volatility_calculation(&mut self, values: &[i128]) -> (r: Result<
        i128,
        SafeMathError,
    >)
        ensures
            *final(self) == *old(self),
            r == volatility_outcome(values@),
    {
        if values.len() < 2 {
            return Err(SafeMathError::InsufficientData);
        }
        let n = values.len();
        let mut sum: i128 = 0;
        let mut i: usize = 0;
        while i < n
            invariant
                n == values@.len(),
                0 <= i <= n,
                checked_sum(values@.take(i as int)) == Some(sum as int),
            decreases n - i,
        {
            assert(values@.take(i as int + 1).drop_last() =~= values@.take(i as int));
            sum = match sum.checked_add(values[i]) {
                Some(v) => v,
                None => {
                    proof {
                        lemma_sum_overflow_persists(values@, i as int + 1, n as int);
                        assert(values@.take(n as int) =~= values@);
                    }
                    return Err(SafeMathError::AdditionOverflow);
                },
            };
            i = i + 1;
        }
        assert(values@.take(n as int) =~= values@);
        let mean = sum / (n as i128);
        let mut variance_sum: i128 = 0;
        let mut j: usize = 0;
        while j < n
            invariant
                n == values@.len(),
                n >= 2,
                0 <= j <= n,
                checked_sum(values@) == Some(sum as int),
                mean == crate::rates::trunc_div(sum as int, n as int),
                squared_deviation_sum(values@.take(j as int), mean as int) == Ok::<int, SafeMathError>(
                    variance_sum as int,
                ),
            decreases n - j,
        {
            assert(values@.take(j as int + 1).drop_last() =~= values@.take(j as int));
            let difference = match values[j].checked_sub(mean) {
                Some(v) => v,
                None => {
                    proof {
                        lemma_deviation_error_persists(values@, mean as int, j as int + 1, n as int);
                        assert(values@.take(n as int) =~= values@);
                    }
                    return Err(SafeMathError::UnderflowError);
                },
            };
            let squared = match difference.checked_mul(difference) {
                Some(v) => v,
                None => {
                    proof {
                        lemma_deviation_error_persists(values@, mean as int, j as int + 1, n as int);
                        assert(values@.take(n as int) =~= values@);
                    }
                    return Err(SafeMathError::MultiplicationOverflow);
                },
            };
            variance_sum = match variance_sum.checked_add(squared) {
                Some(v) => v,
                None => {
                    proof {
                        lemma_deviation_error_persists(values@, mean as int, j as int + 1, n as int);
                        assert(values@.take(n as int) =~= values@);
                    }
                    return Err(SafeMathError::AdditionOverflow);
                },
            };
            j = j + 1;
        }
        let variance = variance_sum / (n as i128);
        self.safe_sqrt_approximation(variance, 10)
    }

    /// Largest fall from a running peak, in basis points of that peak; at
    /// least two values are needed.
    pub fn safe_max_drawdown(&mut self, values: &[i128]) -> (r: Result<i128, SafeMathError>)
        ensures
            *final(self) == *old(self),
            r == max_drawdown_outcome(values@),
    {
        if values.len() < 2 {
            return Err(SafeMathError::InsufficientData);
        }
        let n = values.len();
        let mut peak = values[0];
        let mut max_drawdown: i128 = 0;
        let mut i: usize = 1;
        assert(values@.take(1).len() == 1);
        while i < n
            invariant
                n == values@.len(),
                1 <= i <= n,
                drawdown_scan(values@.take(i as int)) == Ok::<(int, int), SafeMathError>(
                    (peak as int, max_drawdown as int),
                ),
            decreases n - i,
        {
            assert(values@.take(i as int + 1).drop_last() =~= values@.take(i as int));
            let value = values[i];
            if value > peak {
                peak = value;
            } else {
                let drawdown = match peak.checked_sub(value) {
                    Some(v) => v,
                    None => {
                        proof {
                            lemma_drawdown_error_persists(values@, i as int + 1, n as int);
                            assert(values@.take(n as int) =~= values@);
                        }
                        return Err(SafeMathError::UnderflowError);
                    },
                };
                let scaled = match drawdown.checked_mul(10_000) {
                    Some(v) => v,
                    None => {
                        proof {
                            lemma_drawdown_error_persists(values@, i as int + 1, n as int);
                            assert(values@.take(n as int) =~= values@);
                        }
                        return Err(SafeMathError::DivisionError);
                    },
                };
                let drawdown_bps = match scaled.checked_div(peak) {
                    Some(v) => v,
                    None => {
                        proof {
                            lemma_drawdown_error_persists(values@, i as int + 1, n as int);
                            assert(values@.take(n as int) =~= values@);
                        }
                        return Err(SafeMathError::DivisionError);
                    },
                };
                if drawdown_bps > max_drawdown {
                    max_drawdown = drawdown_bps;
                }
            }
            i = i + 1;
        }
        assert(values@.take(n as int) =~= values@);
        Ok(max_drawdown)
    }

    /// The precision record with its average loss and efficiency score.
    pub fn get_precision_report(&self) -> (r: PrecisionReport)
        ensures
            r == (PrecisionReport {
                cumulative_precision_loss: self.cumulative_precision_loss,
                operation_count: self.operation_count,
                max_single_operation_loss: self.max_single_operation_loss,
                average_loss_per_operation: average_loss(*self) as i128,
                efficiency_score: efficiency_score_of(*self),
            }),
    {
        PrecisionReport {
            cumulative_precision_loss: self.cumulative_precision_loss,
            operation_count: self.operation_count,
            max_single_operation_loss: self.max_single_operation_loss,
            average_loss_per_operation: self.average_loss_per_operation(),
            efficiency_score: self.calculate_efficiency_score(),
        }
    }

    /// Clears the record.
    pub fn reset(&mut self)
        ensures
            *final(self) == (SafeMath128 {
                cumulative_precision_loss: 0,
                operation_count: 0,
                max_single_operation_loss: 0,
            }),
    {
        *self = Self::new();
    }

    fn assess_precision_quality(&self) -> (r: PrecisionQuality)
        ensures
            r == quality_of(*self),
    {
        if self.operation_count == 0 {
            return PrecisionQuality::Perfect;
        }
        let avg_loss = self.average_loss_per_operation();
        if avg_loss == 0 {
            PrecisionQuality::Perfect
        } else if 1 <= avg_loss && avg_loss <= 10 {
            PrecisionQuality::Excellent
        } else if 11 <= avg_loss && avg_loss <= 100 {
            PrecisionQuality::Good
        } else if 101 <= avg_loss && avg_loss <= 1000 {
            PrecisionQuality::Fair
        } else if 1001 <= avg_loss && avg_loss <= 10_000 {
            PrecisionQuality::Poor
        } else {
            PrecisionQuality::Critical
        }
    }

    fn get_optimization_recommendations(&self) -> (r: Vec<String>)
        ensures
            r@.map_values(|t: String| t@) == recommendation_texts(
                quality_of(*self),
                self.max_single_operation_loss,
            ),
    {
        let mut recommendations: Vec<String> = Vec::new();
        let quality = self.assess_precision_quality();
        match quality {
            PrecisionQuality::Critical => {
                recommendations.push(
                    "CRITICAL: High precision loss detected. Consider using higher precision arithmetic.".to_owned(),
                );
                recommendations.push(
                    "Review all division operations for optimization opportunities.".to_owned(),
                );
            },
            PrecisionQuality::Poor => {
                recommendations.push(
                    "Consider implementing ceiling division for protocol-favorable calculations.".to_owned(),
                );
                recommendations.push(
                    "Evaluate batch processing to reduce cumulative precision loss.".to_owned(),
                );
            },
            PrecisionQuality::Fair => {
                recommendations.push("Monitor precision loss trends over time.".to_owned());
                recommendations.push("Consider precision-aware rounding strategies.".to_owned());
            },
            PrecisionQuality::Good | PrecisionQuality::Excellent => {
                recommendations.push("Precision is within acceptable ranges.".to_owned());
                recommendations.push(
                    "Continue monitoring for optimization opportunities.".to_owned(),
                );
            },
            PrecisionQuality::Perfect => {
                recommendations.push(
                    "Perfect precision maintained. Excellent optimization.".to_owned(),
                );
            },
        }
        if self.max_single_operation_loss > 1000 {
            recommendations.push(
                "Single operation with high precision loss detected. Investigate specific operation.".to_owned(),
            );
        }
        assert(recommendations@.map_values(|t: String| t@) =~= recommendation_texts(
            quality_of(*self),
            self.max_single_operation_loss,
        ));
        recommendations
    }

    /// The precision record with its quality grade and recommendations.
    pub fn get_detailed_precision_report(&self) -> (r: DetailedPrecisionReport)
        ensures
            r.cumulative_precision_loss == self.cumulative_precision_loss,
            r.operation_count == self.operation_count,
            r.max_single_operation_loss == self.max_single_operation_loss,
            r.average_loss_per_operation == average_loss(*self),
            r.efficiency_score == efficiency_score_of(*self),
            r.precision_quality == quality_of(*self),
            r.recommended_optimizations@.map_values(|t: String| t@) == recommendation_texts(
                quality_of(*self),
                self.max_single_operation_loss,
            ),
    {
        DetailedPrecisionReport {
            cumulative_precision_loss: self.cumulative_precision_loss,
            operation_count: self.operation_count,
            max_single_operation_loss: self.max_single_operation_loss,
            average_loss_per_operation: self.average_loss_per_operation(),
            efficiency_score: self.calculate_efficiency_score(),
            precision_quality: self.assess_precision_quality(),
            recommended_optimizations: self.get_optimization_recommendations(),
        }
    }
}

/// A precision record whose largest single loss is non-negative and at most
/// the cumulative loss, as every record built by these operations is.
pub open spec fn record_is_sound(s: SafeMath128) -> bool {
    0 <= s.max_single_operation_loss <= s.cumulative_precision_loss
}

/// Tracking a non-negative loss keeps a sound record sound and counts one
/// operation.
pub proof fn lemma_loss_tracking_keeps_record_sound(s: SafeMath128, loss: int)
    requires
        record_is_sound(s),
        0 <= loss,
        s.operation_count < u64::MAX,
        after_loss(s, loss) is Ok,
    ensures
        record_is_sound(after_loss(s, loss)->Ok_0),
        after_loss(s, loss)->Ok_0.operation_count == s.operation_count + 1,
        after_loss(s, loss)->Ok_0.cumulative_precision_loss >= s.cumulative_precision_loss,
{
}

/// The checked operations keep a sound precision record sound, and never
/// lower the operation count or the cumulative loss.
pub proof fn lemma_operations_keep_record_sound(
    s: SafeMath128,
    principal: i128,
    rate_bps: u32,
    time_factor: u64,
    amount: i128,
    bps: u32,
)
    requires
        record_is_sound(s),
        s.operation_count < u64::MAX,
    ensures
        record_is_sound(mul_yield_outcome(s, principal, rate_bps, time_factor).1),
        record_is_sound(bps_floor_outcome(s, amount, bps).1),
        record_is_sound(bps_ceiling_outcome(s, amount, bps).1),
        mul_yield_outcome(s, principal, rate_bps, time_factor).1.operation_count >= s.operation_count,
        bps_floor_outcome(s, amount, bps).1.operation_count >= s.operation_count,
        bps_ceiling_outcome(s, amount, bps).1.operation_count >= s.operation_count,
        mul_yield_outcome(s, principal, rate_bps, time_factor).1.cumulative_precision_loss
            >= s.cumulative_precision_loss,
        bps_floor_outcome(s, amount, bps).1.cumulative_precision_loss >= s.cumulative_precision_loss,
        bps_ceiling_outcome(s, amount, bps).1.cumulative_precision_loss
            >= s.cumulative_precision_loss,
{
    if principal >= 0 && rate_bps <= 10_000 && time_factor != 0 && principal
        <= MAX_SAFE_YIELD_AMOUNT && crate::rent_escalation::fits_i128(principal * rate_bps * time_factor) {
        assert(principal * rate_bps * time_factor >= 0) by (nonlinear_arith)
            requires
                principal >= 0,
                rate_bps >= 0,
                time_factor >= 0,
        ;
    }
    if amount >= 0 {
        assert(amount * bps >= 0) by (nonlinear_arith)
            requires
                amount >= 0,
                bps >= 0,
        ;
    }
}

/// Floor and ceiling basis-point division bracket the exact share and
/// differ by at most one.
pub proof fn lemma_floor_and_ceiling_bracket_exact_share(s: SafeMath128, amount: i128, bps: u32)
    requires
        bps_floor_outcome(s, amount, bps).0 is Ok,
        bps_ceiling_outcome(s, amount, bps).0 is Ok,
    ensures
        ({
            let f = bps_floor_outcome(s, amount, bps).0->Ok_0 as int;
            let c = bps_ceiling_outcome(s, amount, bps).0->Ok_0 as int;
            &&& f * 10_000 <= amount * bps <= c * 10_000
            &&& f <= c <= f + 1
            &&& (c == f <==> (amount * bps) % 10_000 == 0)
        }),
{
    assert(amount * bps >= 0) by (nonlinear_arith)
        requires
            amount >= 0,
            bps >= 0,
    ;
}

/// A successful distribution accounts for the whole yield: the three shares
/// and the dust add up to it, nothing is negative, and every share is the
/// party's exact proportional share rounded down.
pub proof fn lemma_distribution_conserves_yield(
    s: SafeMath128,
    total_yield: i128,
    lessee_bps: u32,
    lessor_bps: u32,
    dao_bps: u32,
)
    requires
        distribution_outcome(s, total_yield, lessee_bps, lessor_bps, dao_bps).0 is Ok,
    ensures
        ({
            let d = distribution_outcome(s, total_yield, lessee_bps, lessor_bps, dao_bps).0->Ok_0;
            &&& d.lessee_share + d.lessor_share + d.dao_share + d.dust == total_yield
            &&& d.total_distributed == d.lessee_share + d.lessor_share + d.dao_share
            &&& 0 <= d.dust
            &&& d.total_distributed <= total_yield
            &&& 0 <= d.lessee_share && 0 <= d.lessor_share && 0 <= d.dao_share
            &&& d.lessee_share * 10_000 <= total_yield * lessee_bps < (d.lessee_share + 1) * 10_000
            &&& d.lessor_share * 10_000 <= total_yield * lessor_bps < (d.lessor_share + 1) * 10_000
            &&& d.dao_share * 10_000 <= total_yield * dao_bps < (d.dao_share + 1) * 10_000
        }),
{
    assert(total_yield * lessee_bps >= 0 && total_yield * lessor_bps >= 0 && total_yield * dao_bps
        >= 0) by (nonlinear_arith)
        requires
            total_yield >= 0,
            lessee_bps >= 0,
            lessor_bps >= 0,
            dao_bps >= 0,
    ;
}

/// At a multiplier of exactly 100%, the complex yield is the base yield of
/// `safe_mul_yield`, with the same record, for every principal within the
/// complex calculation's limit.
pub proof fn lemma_unit_multiplier_gives_base_yield(
    s: SafeMath128,
    principal: i128,
    rate_bps: u32,
    time_factor: u64,
)
    requires
        principal <= MAX_SAFE_YIELD_AMOUNT / 1000,
    ensures
        complex_yield_outcome(s, principal, rate_bps, time_factor, 10_000) == mul_yield_outcome(
            s,
            principal,
            rate_bps,
            time_factor,
        ),
{
}

/// Rounding every share down, a split never hands out more than the yield:
/// it is never refused as exceeding it.
pub proof fn lemma_distribution_never_exceeds_yield(
    s: SafeMath128,
    total_yield: i128,
    lessee_bps: u32,
    lessor_bps: u32,
    dao_bps: u32,
)
    ensures
        distribution_outcome(s, total_yield, lessee_bps, lessor_bps, dao_bps).0 is Err
            ==> !(distribution_outcome(
            s,
            total_yield,
            lessee_bps,
            lessor_bps,
            dao_bps,
        ).0->Err_0 is DistributionExceedsYield),
{
    if total_yield >= 0 && lessee_bps + lessor_bps + dao_bps <= 10_000 {
        let (r1, s1) = bps_floor_outcome(s, total_yield, lessee_bps);
        if r1 is Ok {
            let (r2, s2) = bps_floor_outcome(s1, total_yield, lessor_bps);
            if r2 is Ok {
                let (r3, s3) = bps_floor_outcome(s2, total_yield, dao_bps);
                if r3 is Ok {
                    let a = r1->Ok_0 as int;
                    let b = r2->Ok_0 as int;
                    let c = r3->Ok_0 as int;
                    let y = total_yield as int;
                    let l = lessee_bps as int;
                    let o = lessor_bps as int;
                    let d = dao_bps as int;
                    assert(a * 10_000 <= y * l && b * 10_000 <= y * o && c * 10_000 <= y * d) by (
                    nonlinear_arith)
                        requires
                            y >= 0,
                            l >= 0,
                            o >= 0,
                            d >= 0,
                            a == (y * l) / 10_000,
                            b == (y * o) / 10_000,
                            c == (y * d) / 10_000,
                    ;
                    assert(a + b + c <= y) by (nonlinear_arith)
                        requires
                            y >= 0,
                            l + o + d <= 10_000,
                            a * 10_000 <= y * l,
                            b * 10_000 <= y * o,
                            c * 10_000 <= y * d,
                    ;
                }
            }
        }
    }
}

/// Subtracting what was just added gives back the yield it started from.
pub proof fn lemma_add_then_sub_restores(s: SafeMath128, current: i128, additional: i128)
    requires
        add_yield_outcome(s, current, additional).0 is Ok,
    ensures
        ({
            let (r, s1) = add_yield_outcome(s, current, additional);
            sub_yield_outcome(s1, r->Ok_0, additional) == (
                Ok::<i128, SafeMathError>(current),
                counted(s1),
            )
        }),
{
}

/// The fast paths agree with the tracked operations wherever both succeed
/// on the inputs the tracked operations accept.
pub proof fn lemma_fast_paths_agree(
    s: SafeMath128,
    principal: i128,
    rate_bps: u32,
    time_factor: u64,
    amount: i128,
    bps: u32,
)
    ensures
        mul_yield_outcome(s, principal, rate_bps, time_factor).0 is Ok
            && optimized_ops::mul_yield_fast(principal, rate_bps, time_factor) is Some ==> mul_yield_outcome(
            s,
            principal,
            rate_bps,
            time_factor,
        ).0->Ok_0 == optimized_ops::mul_yield_fast(principal, rate_bps, time_factor)->Some_0,
        bps_floor_outcome(s, amount, bps).0 is Ok && optimized_ops::bps_floor_fast(amount, bps) is Some
            ==> bps_floor_outcome(s, amount, bps).0->Ok_0 == optimized_ops::bps_floor_fast(
            amount,
            bps,
        )->Some_0,
        bps_ceiling_outcome(s, amount, bps).0 is Ok && optimized_ops::bps_ceiling_fast(amount, bps)
            is Some ==> bps_ceiling_outcome(s, amount, bps).0->Ok_0
            == optimized_ops::bps_ceiling_fast(amount, bps)->Some_0,
{
    if principal == 0 || rate_bps == 0 || time_factor == 0 {
        assert(principal * rate_bps * time_factor == 0) by (nonlinear_arith)
            requires
                principal == 0 || rate_bps == 0 || time_factor == 0,
        ;
    }
    if principal >= 0 && rate_bps <= 10_000 && time_factor != 0 {
        assert(principal * rate_bps * time_factor >= 0) by (nonlinear_arith)
            requires
                principal >= 0,
                rate_bps >= 0,
                time_factor >= 0,
        ;
        if rate_bps == 10_000 && time_factor == 1 {
            assert(principal * rate_bps * time_factor == principal * 10_000) by (nonlinear_arith)
                requires
                    rate_bps == 10_000,
                    time_factor == 1,
            ;
        }
    }
    if amount >= 0 {
        assert(amount * bps >= 0) by (nonlinear_arith)
            requires
                amount >= 0,
                bps >= 0,
        ;
        if bps == 10_000 {
            assert(amount * bps == amount * 10_000) by (nonlinear_arith)
                requires
                    bps == 10_000,
            ;
            assert((amount * 10_000 + 9_999) / 10_000 == amount) by (nonlinear_arith);
        }
    }
    if amount == 0 || bps == 0 {
        assert(amount * bps == 0) by (nonlinear_arith)
            requires
                amount == 0 || bps == 0,
        ;
    }
}

} // verus!
