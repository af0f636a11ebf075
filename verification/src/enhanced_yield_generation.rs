//! Yield on locked deposits, built on the tracked 128-bit safe math.
//!
//! The yield of a deposit is its principal at the base rate over the
//! elapsed part of its lock period, scaled by a risk multiplier for its
//! size and a boost for long locks, and capped at a multiple of the
//! principal. Yields are split between lessee, lessor and DAO, and the DAO
//! share pays the performance fee.
use vstd::prelude::*;
use crate::safe_math_128::{SafeMath128, SafeMathError, PrecisionReport};

verus! {

/// Configuration of the yield generator.
#[derive(Copy, Clone, Debug, Eq, PartialEq, Structural)]
pub struct YieldConfig {
    /// Base annual rate in basis points.
    pub base_rate_bps: u32,
    /// Compounding periods per year.
    pub compounding_frequency: u32,
    /// Performance fee in basis points.
    pub performance_fee_bps: u32,
    /// Whether the deposit size scales the yield.
    pub risk_multiplier_enabled: bool,
    /// Whether long locks boost the yield.
    pub time_boost_enabled: bool,
    /// Largest multiplier, in basis points; also caps the yield.
    pub max_yield_multiplier_bps: u32,
}

/// The default configuration: 5% base rate, daily compounding, 10%
/// performance fee, both multipliers on, 500% cap.
pub open spec fn default_config() -> YieldConfig {
    YieldConfig {
        base_rate_bps: 500,
        compounding_frequency: 365,
        performance_fee_bps: 1000,
        risk_multiplier_enabled: true,
        time_boost_enabled: true,
        max_yield_multiplier_bps: 50000,
    }
}

impl Default for YieldConfig {
    fn default() -> (r: Self)
        ensures
            r == default_config(),
    {
        YieldConfig {
            base_rate_bps: 500,
            compounding_frequency: 365,
            performance_fee_bps: 1000,
            risk_multiplier_enabled: true,
            time_boost_enabled: true,
            max_yield_multiplier_bps: 50000,
        }
    }
}

/// Running figures of the generator.
#[derive(Copy, Clone, Debug, Eq, PartialEq, Structural)]
pub struct YieldMetrics {
    /// Total yield generated (reset to 0 if it would overflow).
    pub total_yield_generated: i128,
    pub calculation_count: u64,
    pub average_yield_per_calc: i128,
    pub gas_saved_estimate: u64,
    /// Efficiency score of the precision record.
    pub precision_efficiency: u32,
}

/// The figures before any calculation.
pub open spec fn initial_metrics() -> YieldMetrics {
    YieldMetrics {
        total_yield_generated: 0,
        calculation_count: 0,
        average_yield_per_calc: 0,
        gas_saved_estimate: 0,
        precision_efficiency: 100,
    }
}

impl Default for YieldMetrics {
    fn default() -> (r: Self)
        ensures
            r == initial_metrics(),
    {
        YieldMetrics {
            total_yield_generated: 0,
            calculation_count: 0,
            average_yield_per_calc: 0,
            gas_saved_estimate: 0,
            precision_efficiency: 100,
        }
    }
}

/// One deposit of a batch.
#[derive(Copy, Clone, Debug, Eq, PartialEq, Structural)]
pub struct YieldCalculationInput {
    pub deposit_id: u64,
    pub principal: i128,
    pub lock_duration_seconds: u64,
    pub total_lock_period: u64,
    pub deposit_size_tier: u32,
    pub current_timestamp: u64,
}

/// The yield of one deposit of a batch.
#[derive(Copy, Clone, Debug, Eq, PartialEq, Structural)]
pub struct YieldCalculationResult {
    pub deposit_id: u64,
    pub yield_amount: i128,
    pub calculation_timestamp: u64,
    /// Cumulative precision loss after this deposit.
    pub precision_loss: i128,
}

/// A split of a yield in basis points.
#[derive(Copy, Clone, Debug, Eq, PartialEq, Structural)]
pub struct CustomDistribution {
    pub lessee_bps: u32,
    pub lessor_bps: u32,
    pub dao_bps: u32,
}

/// A yield split, with the performance fee taken from the DAO share.
#[derive(Copy, Clone, Debug, Eq, PartialEq, Structural)]
pub struct EnhancedYieldDistribution {
    pub lessee_share: i128,
    pub lessor_share: i128,
    pub dao_share: i128,
    pub dust: i128,
    pub total_distributed: i128,
    pub custom_applied: bool,
    pub performance_fee: i128,
}

impl Default for EnhancedYieldDistribution {
    fn default() -> (r: Self)
        ensures
            r == (EnhancedYieldDistribution {
                lessee_share: 0,
                lessor_share: 0,
                dao_share: 0,
                dust: 0,
                total_distributed: 0,
                custom_applied: false,
                performance_fee: 0,
            }),
    {
        EnhancedYieldDistribution {
            lessee_share: 0,
            lessor_share: 0,
            dao_share: 0,
            dust: 0,
            total_distributed: 0,
            custom_applied: false,
            performance_fee: 0,
        }
    }
}

/// Estimated gas saved by the optimized operations.
#[derive(Copy, Clone, Debug, Eq, PartialEq, Structural)]
pub struct GasOptimizationReport {
    pub operations_count: u64,
    pub gas_saved_per_operation: u64,
    pub total_gas_saved: u64,
    pub efficiency_improvement_percentage: u64,
}

/// The generator's configuration.
#[derive(Copy, Clone, Debug, Eq, PartialEq, Structural)]
pub struct ConfigSummary {
    pub base_rate_bps: u32,
    pub compounding_frequency: u32,
    pub performance_fee_bps: u32,
    pub risk_multiplier_enabled: bool,
    pub time_boost_enabled: bool,
    pub max_yield_multiplier_bps: u32,
}

/// Everything the generator reports.
#[derive(Copy, Clone, Debug, Eq, PartialEq, Structural)]
pub struct PerformanceReport {
    pub metrics: YieldMetrics,
    pub precision_report: PrecisionReport,
    pub gas_optimization: GasOptimizationReport,
    pub config_summary: ConfigSummary,
}

/// Why a yield calculation failed.
#[derive(Copy, Clone, Debug, Eq, PartialEq, Structural)]
pub enum YieldGenerationError {
    InvalidPrincipal(i128),
    InvalidDuration { elapsed: u64, total: u64 },
    DivisionByZero,
    MultiplicationOverflow,
    UnderflowError,
    YieldCapOverflow,
    PerformanceFeeOverflow,
    SafeMathError(SafeMathError),
}

/// The yield generator.
#[derive(Copy, Clone, Debug, Eq, PartialEq, Structural)]
pub struct EnhancedYieldGenerator {
    pub safe_math: SafeMath128,
    pub config: YieldConfig,
    pub metrics: YieldMetrics,
}

/// The elapsed part of a lock period in basis points, rounded down.
pub open spec fn time_factor(elapsed: u64, total: u64) -> u64 {
    (elapsed * 10000 / (total as int)) as u64
}

/// The risk multiplier of a deposit: the average of its tier's multiplier
/// and its size bonus, capped at `max_bps`.
pub open spec fn risk_multiplier(tier: u32, principal: i128, max_bps: u32) -> u32 {
    let base: u32 = if tier == 1 {
        8000
    } else if tier == 2 {
        10000
    } else if tier == 3 {
        12000
    } else if tier == 4 {
        15000
    } else {
        10000
    };
    let bonus: u32 = if principal > 1_000_000 {
        11000
    } else if principal > 100_000 {
        10500
    } else {
        10000
    };
    let combined = ((base + bonus) / 2) as u32;
    if combined <= max_bps {
        combined
    } else {
        max_bps
    }
}

/// The boost of a lock `elapsed` seconds into `total`: more for a larger
/// share of the lock period, capped at `max_bps`.
pub open spec fn time_boost(elapsed: u64, total: u64, max_bps: u32) -> u32 {
    let ratio = elapsed * 10000 / (total as int);
    let boost: u32 = if ratio >= 9000 {
        13000
    } else if ratio >= 7000 {
        12000
    } else if ratio >= 5000 {
        11000
    } else if ratio >= 3000 {
        10500
    } else {
        10000
    };
    if boost <= max_bps {
        boost
    } else {
        max_bps
    }
}

/// The figures after a calculation yielding `y`, with the precision record
/// `s`.
pub open spec fn metrics_after(m: YieldMetrics, s: SafeMath128, y: i128) -> YieldMetrics {
    let total: i128 = if crate::rent_escalation::fits_i128(m.total_yield_generated + y) {
        (m.total_yield_generated + y) as i128
    } else {
        0
    };
    let count = (m.calculation_count + 1) as u64;
    YieldMetrics {
        total_yield_generated: total,
        calculation_count: count,
        average_yield_per_calc: crate::rates::trunc_div(total as int, count as int) as i128,
        precision_efficiency: crate::safe_math_128::efficiency_score_of(s),
        ..m
    }
}

/// `g` with the precision record `s`.
pub open spec fn with_record(g: EnhancedYieldGenerator, s: SafeMath128) -> EnhancedYieldGenerator {
    EnhancedYieldGenerator { safe_math: s, ..g }
}

/// Result and generator after `calculate_complex_yield`.
pub open spec fn complex_outcome(
    g: EnhancedYieldGenerator,
    principal: i128,
    elapsed: u64,
    total: u64,
    tier: u32,
) -> (Result<i128, YieldGenerationError>, EnhancedYieldGenerator) {
    if principal <= 0 {
        (Err(YieldGenerationError::InvalidPrincipal(principal)), g)
    } else if elapsed > total {
        (Err(YieldGenerationError::InvalidDuration { elapsed, total }), g)
    } else if total == 0 {
        (Err(YieldGenerationError::DivisionByZero), g)
    } else {
        let c = g.config;
        let (r1, s1) = crate::safe_math_128::mul_yield_outcome(
            g.safe_math,
            principal,
            c.base_rate_bps,
            time_factor(elapsed, total),
        );
        match r1 {
            Err(e) => (Err(YieldGenerationError::SafeMathError(e)), with_record(g, s1)),
            Ok(base) => {
                let (r2, s2) = if c.risk_multiplier_enabled {
                    crate::safe_math_128::scale_floor_outcome(
                        s1,
                        base,
                        risk_multiplier(tier, principal, c.max_yield_multiplier_bps),
                    )
                } else {
                    (Ok(base), s1)
                };
                match r2 {
                    Err(e) => (Err(YieldGenerationError::SafeMathError(e)), with_record(g, s2)),
                    Ok(adjusted) => {
                        let (r3, s3) = if c.time_boost_enabled {
                            crate::safe_math_128::scale_floor_outcome(
                                s2,
                                adjusted,
                                time_boost(elapsed, total, c.max_yield_multiplier_bps),
                            )
                        } else {
                            (Ok(adjusted), s2)
                        };
                        match r3 {
                            Err(e) => (
                                Err(YieldGenerationError::SafeMathError(e)),
                                with_record(g, s3),
                            ),
                            Ok(boosted) => {
                                let cap = principal * (c.max_yield_multiplier_bps / 10000);
                                if !crate::rent_escalation::fits_i128(cap) {
                                    (Err(YieldGenerationError::YieldCapOverflow), with_record(g, s3))
                                } else {
                                    let y: i128 = if boosted <= cap {
                                        boosted
                                    } else {
                                        cap as i128
                                    };
                                    (
                                        Ok(y),
                                        EnhancedYieldGenerator {
                                            safe_math: s3,
                                            metrics: metrics_after(g.metrics, s3, y),
                                            ..g
                                        },
                                    )
                                }
                            },
                        }
                    },
                }
            },
        }
    }
}

impl EnhancedYieldGenerator {
    /// A generator with the default configuration.
    pub fn new() -> (r: Self)
        ensures
            r.config == default_config(),
            r.metrics == initial_metrics(),
            r.safe_math == (SafeMath128 {
                cumulative_precision_loss: 0,
                operation_count: 0,
                max_single_operation_loss: 0,
            }),
    {
        EnhancedYieldGenerator {
            safe_math: SafeMath128::new(),
            config: YieldConfig::default(),
            metrics: YieldMetrics::default(),
        }
    }

    /// A generator with the given configuration.
    pub fn with_config(config: YieldConfig) -> (r: Self)
        ensures
            r.config == config,
            r.metrics == initial_metrics(),
            r.safe_math == (SafeMath128 {
                cumulative_precision_loss: 0,
                operation_count: 0,
                max_single_operation_loss: 0,
            }),
    {
        EnhancedYieldGenerator {
            safe_math: SafeMath128::new(),
            config,
            metrics: YieldMetrics::default(),
        }
    }

    fn calculate_time_factor(&self, elapsed: u64, total: u64) -> (r: Result<u64, YieldGenerationError>)
        requires
            elapsed <= total,
            total > 0 ==> elapsed * 10000 <= u64::MAX,
        ensures
            total == 0 ==> r == Err::<u64, YieldGenerationError>(YieldGenerationError::DivisionByZero),
            total > 0 ==> r == Ok::<u64, YieldGenerationError>(time_factor(elapsed, total)),
    {
        if total == 0 {
            return Err(YieldGenerationError::DivisionByZero);
        }
        Ok((elapsed * 10000) / total)
    }

    fn calculate_risk_multiplier(&self, tier: u32, principal: i128) -> (r: u32)
        ensures
            r == risk_multiplier(tier, principal, self.config.max_yield_multiplier_bps),
    {
        let base_multiplier: u32 = if tier == 1 {
            8000
        } else if tier == 2 {
            10000
        } else if tier == 3 {
            12000
        } else if tier == 4 {
            15000
        } else {
            10000
        };
        let size_bonus: u32 = if principal > 1_000_000 {
            11000
        } else if principal > 100_000 {
            10500
        } else {
            10000
        };
        let combined = (base_multiplier + size_bonus) / 2;
        if combined <= self.config.max_yield_multiplier_bps {
            combined
        } else {
            self.config.max_yield_multiplier_bps
        }
    }

    fn calculate_time_boost_multiplier(&self, elapsed: u64, total: u64) -> (r: u32)
        requires
            total > 0,
        ensures
            r == time_boost(elapsed, total, self.config.max_yield_multiplier_bps),
    {
        let lock_ratio = (elapsed as u128) * 10000 / (total as u128);
        let boost_multiplier: u32 = if lock_ratio >= 9000 {
            13000
        } else if lock_ratio >= 7000 {
            12000
        } else if lock_ratio >= 5000 {
            11000
        } else if lock_ratio >= 3000 {
            10500
        } else {
            10000
        };
        if boost_multiplier <= self.config.max_yield_multiplier_bps {
            boost_multiplier
        } else {
            self.config.max_yield_multiplier_bps
        }
    }

    fn apply_yield_cap(&self, principal: i128, calculated_yield: i128) -> (r: Result<
        i128,
        YieldGenerationError,
    >)
        ensures
            ({
                let cap = principal * (self.config.max_yield_multiplier_bps / 10000);
                &&& !crate::rent_escalation::fits_i128(cap) ==> r == Err::<i128, YieldGenerationError>(
                    YieldGenerationError::YieldCapOverflow,
                )
                &&& crate::rent_escalation::fits_i128(cap) ==> r == Ok::<i128, YieldGenerationError>(
                    if calculated_yield <= cap {
                        calculated_yield
                    } else {
                        cap as i128
                    },
                )
            }),
    {
        let multiple = (self.config.max_yield_multiplier_bps as i128) / 10000;
        let max_yield = match principal.checked_mul(multiple) {
            Some(v) => v,
            None => {
                return Err(YieldGenerationError::YieldCapOverflow);
            },
        };
        if calculated_yield <= max_yield {
            Ok(calculated_yield)
        } else {
            Ok(max_yield)
        }
    }

    fn update_metrics(&mut self, yield_amount: i128)
        requires
            old(self).metrics.calculation_count < u64::MAX,
        ensures
            *final(self) == (EnhancedYieldGenerator {
                metrics: metrics_after(old(self).metrics, old(self).safe_math, yield_amount),
                ..*old(self)
            }),
    {
        self.metrics.total_yield_generated = match self.metrics.total_yield_generated.checked_add(
            yield_amount,
        ) {
            Some(v) => v,
            None => 0,
        };
        self.metrics.calculation_count = self.metrics.calculation_count + 1;
        self.metrics.average_yield_per_calc = self.metrics.total_yield_generated
            / (self.metrics.calculation_count as i128);
        self.metrics.precision_efficiency = self.safe_math.get_precision_report().efficiency_score;
    }

    /// The yield of a deposit of `principal` locked `lock_duration_seconds`
    /// into `total_lock_period`: the principal at the base rate over the
    /// elapsed part of the lock, scaled by the risk multiplier and the time
    /// boost where enabled (each rounded down), and capped at the
    /// configured multiple of the principal. A successful calculation is
    /// counted in the metrics.
    pub fn calculate_complex_yield(
        &mut self,
        principal: i128,
        lock_duration_seconds: u64,
        total_lock_period: u64,
        deposit_size_tier: u32,
        current_timestamp: u64,
    ) -> (r: Result<i128, YieldGenerationError>)
        requires
            old(self).safe_math.operation_count + 3 <= u64::MAX,
            old(self).metrics.calculation_count < u64::MAX,
            lock_duration_seconds <= total_lock_period && total_lock_period > 0
                ==> lock_duration_seconds * 10000 <= u64::MAX,
        ensures
            (r, *final(self)) == complex_outcome(
                *old(self),
                principal,
                lock_duration_seconds,
                total_lock_period,
                deposit_size_tier,
            ),
    {
        if principal <= 0 {
            return Err(YieldGenerationError::InvalidPrincipal(principal));
        }
        if lock_duration_seconds > total_lock_period {
            return Err(
                YieldGenerationError::InvalidDuration {
                    elapsed: lock_duration_seconds,
                    total: total_lock_period,
                },
            );
        }
        let time_factor = match self.calculate_time_factor(lock_duration_seconds, total_lock_period) {
            Ok(t) => t,
            Err(e) => {
                return Err(e);
            },
        };
        let base_yield = match self.safe_math.safe_mul_yield(
            principal,
            self.config.base_rate_bps,
            time_factor,
        ) {
            Ok(v) => v,
            Err(e) => {
                return Err(YieldGenerationError::SafeMathError(e));
            },
        };
        let risk_adjusted_yield = if self.config.risk_multiplier_enabled {
            let risk_multiplier = self.calculate_risk_multiplier(deposit_size_tier, principal);
            match self.safe_math.scale_floor(base_yield, risk_multiplier) {
                Ok(v) => v,
                Err(e) => {
                    return Err(YieldGenerationError::SafeMathError(e));
                },
            }
        } else {
            base_yield
        };
        let final_yield = if self.config.time_boost_enabled {
            let time_boost = self.calculate_time_boost_multiplier(
                lock_duration_seconds,
                total_lock_period,
            );
            match self.safe_math.scale_floor(risk_adjusted_yield, time_boost) {
                Ok(v) => v,
                Err(e) => {
                    return Err(YieldGenerationError::SafeMathError(e));
                },
            }
        } else {
            risk_adjusted_yield
        };
        let capped_yield = match self.apply_yield_cap(principal, final_yield) {
            Ok(v) => v,
            Err(e) => {
                return Err(e);
            },
        };
        self.update_metrics(capped_yield);
        Ok(capped_yield)
    }

    /// The yield of `principal` at `annual_rate_bps` compounded over
    /// `compounding_periods`: by a polynomial approximation of continuous
    /// compounding beyond a thousand periods, else by discrete compounding
    /// at the configured frequency. A calculation over periods is counted
    /// in the metrics.
    pub fn calculate_compounded_yield(
        &mut self,
        principal: i128,
        annual_rate_bps: u32,
        compounding_periods: u64,
    ) -> (r: Result<i128, YieldGenerationError>)
        requires
            old(self).metrics.calculation_count < u64::MAX,
            0 < compounding_periods <= 1000 ==> old(self).config.compounding_frequency > 0,
        ensures
            (r, *final(self)) == compounded_outcome(
                *old(self),
                principal,
                annual_rate_bps,
                compounding_periods,
            ),
    {
        if principal <= 0 {
            return Err(YieldGenerationError::InvalidPrincipal(principal));
        }
        if compounding_periods == 0 {
            return Ok(0);
        }
        let effective = if compounding_periods > 1000 {
            self.calculate_continuous_compounding_approximation(
                principal,
                annual_rate_bps,
                compounding_periods,
            )
        } else {
            self.calculate_discrete_compounding(principal, annual_rate_bps, compounding_periods)
        };
        let amount = match effective {
            Ok(v) => v,
            Err(e) => {
                return Err(e);
            },
        };
        self.update_metrics(amount);
        Ok(amount)
    }

    fn calculate_continuous_compounding_approximation(
        &self,
        principal: i128,
        annual_rate_bps: u32,
        periods: u64,
    ) -> (r: Result<i128, YieldGenerationError>)
        requires
            principal > 0,
        ensures
            r == continuous_outcome(principal, annual_rate_bps, periods),
    {
        let rate_decimal = annual_rate_bps as i128;
        let time_factor = periods as i128;
        assert(0 <= rate_decimal * time_factor <= 0x1_0000_0000 * 0x1_0000_0000_0000_0000)
            by (nonlinear_arith)
            requires
                0 <= rate_decimal < 0x1_0000_0000,
                0 <= time_factor < 0x1_0000_0000_0000_0000,
        ;
        let exponent_factor = rate_decimal * time_factor;
        let approx_multiplier = if exponent_factor < 10000 {
            assert(exponent_factor * exponent_factor < 100_000_000) by (nonlinear_arith)
                requires
                    0 <= exponent_factor < 10000,
            ;
            let x_squared = exponent_factor * exponent_factor;
            exponent_factor + x_squared / 20000
        } else if exponent_factor < 100000 {
            lookup_compounded_yield(exponent_factor)
        } else {
            match principal.checked_mul(1000) {
                Some(v) => v,
                None => {
                    return Err(YieldGenerationError::MultiplicationOverflow);
                },
            }
        };
        match principal.checked_mul(approx_multiplier) {
            Some(v) => {
                assert(v >= 0) by (nonlinear_arith)
                    requires
                        v == principal * approx_multiplier,
                        principal > 0,
                        approx_multiplier >= 0,
                ;
                Ok(v / 10000)
            },
            None => Err(YieldGenerationError::MultiplicationOverflow),
        }
    }

    fn calculate_discrete_compounding(&self, principal: i128, annual_rate_bps: u32, periods: u64) -> (r:
        Result<i128, YieldGenerationError>)
        requires
            principal > 0,
            self.config.compounding_frequency > 0,
        ensures
            r == discrete_outcome(principal, annual_rate_bps, periods, self.config.compounding_frequency),
    {
        let rate_per_period = (annual_rate_bps as i128) / (self.config.compounding_frequency as i128);
        let compound_factor = match fast_exponentiation(10000 + rate_per_period, periods) {
            Ok(v) => v,
            Err(e) => {
                return Err(e);
            },
        };
        let final_amount = match principal.checked_mul(compound_factor) {
            Some(v) => {
                assert(v >= 0) by (nonlinear_arith)
                    requires
                        v == principal * compound_factor,
                        principal > 0,
                        compound_factor >= 0,
                ;
                v / 10000
            },
            None => {
                return Err(YieldGenerationError::MultiplicationOverflow);
            },
        };
        match final_amount.checked_sub(principal) {
            Some(v) => Ok(v),
            None => Err(YieldGenerationError::UnderflowError),
        }
    }
}

/// The multiplier, in basis points, approximating `e^x - 1` for a scaled
/// exponent `x` between ten and a hundred thousand.
pub open spec fn lookup_value(x: int) -> int {
    if x < 5000 {
        x + x * x / 20000
    } else if x < 20000 {
        x + x * x / 15000
    } else if x < 50000 {
        x + x * x / 10000
    } else {
        100000
    }
}

fn lookup_compounded_yield(exponent_factor: i128) -> (r: i128)
    requires
        0 <= exponent_factor < 100000,
    ensures
        r == lookup_value(exponent_factor as int),
{
    assert(exponent_factor * exponent_factor < 10_000_000_000) by (nonlinear_arith)
        requires
            0 <= exponent_factor < 100000,
    ;
    if exponent_factor < 5000 {
        exponent_factor + exponent_factor * exponent_factor / 20000
    } else if exponent_factor < 20000 {
        exponent_factor + exponent_factor * exponent_factor / 15000
    } else if exponent_factor < 50000 {
        exponent_factor + exponent_factor * exponent_factor / 10000
    } else {
        100000
    }
}

/// What the continuous approximation answers: the multiplier is
/// `x + x²/20000` for a small scaled exponent `x = rate * periods`, a table
/// value for a medium one, and a thousand times the principal beyond.
pub open spec fn continuous_outcome(principal: i128, rate_bps: u32, periods: u64) -> Result<
    i128,
    YieldGenerationError,
> {
    let x = rate_bps * periods;
    let m: Option<int> = if x < 10000 {
        Some(x + x * x / 20000)
    } else if x < 100000 {
        Some(lookup_value(x))
    } else if crate::rent_escalation::fits_i128(principal * 1000) {
        Some(principal * 1000)
    } else {
        None
    };
    match m {
        None => Err(YieldGenerationError::MultiplicationOverflow),
        Some(m) => if crate::rent_escalation::fits_i128(principal * m) {
            Ok((principal * m / 10000) as i128)
        } else {
            Err(YieldGenerationError::MultiplicationOverflow)
        },
    }
}

/// Exponentiation by squaring in basis points: `result` times `bp` to the
/// power `e`, each product rounded down to basis points; `None` where a
/// product leaves `i128`.
pub open spec fn pow_steps(result: int, bp: int, e: nat) -> Option<int>
    decreases e,
{
    if e == 0 {
        Some(result)
    } else {
        let next: Option<int> = if e % 2 == 1 {
            if crate::rent_escalation::fits_i128(result * bp) {
                Some(result * bp / 10000)
            } else {
                None
            }
        } else {
            Some(result)
        };
        match next {
            None => None,
            Some(r) => if crate::rent_escalation::fits_i128(bp * bp) {
                pow_steps(r, bp * bp / 10000, e / 2)
            } else {
                None
            },
        }
    }
}

/// `base` (in basis points) to the power `exponent`, in basis points.
pub open spec fn bps_power(base: int, exponent: nat) -> Option<int> {
    if exponent == 0 {
        Some(10000)
    } else if exponent == 1 {
        Some(base)
    } else {
        pow_steps(10000, base, exponent)
    }
}

/// What discrete compounding answers: the principal grown by the rate per
/// period (rounded down) over the periods, minus the principal.
pub open spec fn discrete_outcome(principal: i128, rate_bps: u32, periods: u64, frequency: u32) -> Result<
    i128,
    YieldGenerationError,
> {
    let per_period = rate_bps / frequency;
    match bps_power(10000 + per_period, periods as nat) {
        None => Err(YieldGenerationError::MultiplicationOverflow),
        Some(f) => if !crate::rent_escalation::fits_i128(principal * f) {
            Err(YieldGenerationError::MultiplicationOverflow)
        } else {
            let amount = principal * f / 10000;
            if !crate::rent_escalation::fits_i128(amount - principal) {
                Err(YieldGenerationError::UnderflowError)
            } else {
                Ok((amount - principal) as i128)
            }
        },
    }
}

/// Result and generator after `calculate_compounded_yield`.
pub open spec fn compounded_outcome(
    g: EnhancedYieldGenerator,
    principal: i128,
    rate_bps: u32,
    periods: u64,
) -> (Result<i128, YieldGenerationError>, EnhancedYieldGenerator) {
    if principal <= 0 {
        (Err(YieldGenerationError::InvalidPrincipal(principal)), g)
    } else if periods == 0 {
        (Ok(0), g)
    } else {
        let r = if periods > 1000 {
            continuous_outcome(principal, rate_bps, periods)
        } else {
            discrete_outcome(principal, rate_bps, periods, g.config.compounding_frequency)
        };
        match r {
            Err(e) => (Err(e), g),
            Ok(y) => (
                Ok(y),
                EnhancedYieldGenerator { metrics: metrics_after(g.metrics, g.safe_math, y), ..g },
            ),
        }
    }
}

/// `base` (in basis points, at least 1) to the power `exponent`, in basis
/// points, by repeated squaring with each product rounded down.
fn fast_exponentiation(base: i128, exponent: u64) -> (r: Result<i128, YieldGenerationError>)
    requires
        base >= 10000,
    ensures
        match bps_power(base as int, exponent as nat) {
            Some(v) => r is Ok && r->Ok_0 == v && v >= 0,
            None => r == Err::<i128, YieldGenerationError>(YieldGenerationError::MultiplicationOverflow),
        },
{
    if exponent == 0 {
        return Ok(10000);
    }
    if exponent == 1 {
        return Ok(base);
    }
    let mut result: i128 = 10000;
    let mut base_power: i128 = base;
    let mut exp: u64 = exponent;
    while exp > 0
        invariant
            exponent >= 2,
            result >= 0,
            base_power >= 0,
            pow_steps(result as int, base_power as int, exp as nat) == pow_steps(
                10000,
                base as int,
                exponent as nat,
            ),
        decreases exp,
    {
        let ghost r0 = result as int;
        let ghost b0 = base_power as int;
        if exp % 2 == 1 {
            result = match result.checked_mul(base_power) {
                None => {
                    assert(pow_steps(result as int, base_power as int, exp as nat) is None);
                    return Err(YieldGenerationError::MultiplicationOverflow);
                },
                Some(v) => {
                    assert(v >= 0) by (nonlinear_arith)
                        requires
                            v == result * base_power,
                            result >= 0,
                            base_power >= 0,
                    ;
                    v / 10000
                },
            };
        }
        base_power = match base_power.checked_mul(base_power) {
            Some(v) => {
                assert(v >= 0) by (nonlinear_arith)
                    requires
                        v == base_power * base_power,
                ;
                v / 10000
            },
            None => {
                assert(pow_steps(r0, b0, exp as nat) is None);
                return Err(YieldGenerationError::MultiplicationOverflow);
            },
        };
        exp = exp / 2;
    }
    Ok(result)
}

/// The split used without a custom one: 50% lessee, 30% lessor, 20% DAO.
pub open spec fn split_of(custom: Option<CustomDistribution>) -> (u32, u32, u32) {
    match custom {
        Some(c) => (c.lessee_bps, c.lessor_bps, c.dao_bps),
        None => (5000, 3000, 2000),
    }
}

/// Result and generator after `calculate_enhanced_distribution`: the yield
/// is split (each share rounded up), then the performance fee, rounded up
/// from the distributed total, is taken from the DAO share.
pub open spec fn enhanced_distribution_outcome(
    g: EnhancedYieldGenerator,
    total_yield: i128,
    custom: Option<CustomDistribution>,
) -> (Result<EnhancedYieldDistribution, YieldGenerationError>, EnhancedYieldGenerator) {
    let (l, o, d) = split_of(custom);
    let (r1, s1) = crate::safe_math_128::distribution_outcome(g.safe_math, total_yield, l, o, d);
    match r1 {
        Err(e) => (Err(YieldGenerationError::SafeMathError(e)), with_record(g, s1)),
        Ok(dist) => {
            let split = EnhancedYieldDistribution {
                lessee_share: dist.lessee_share,
                lessor_share: dist.lessor_share,
                dao_share: dist.dao_share,
                dust: dist.dust,
                total_distributed: dist.total_distributed,
                custom_applied: custom is Some,
                performance_fee: 0,
            };
            if g.config.performance_fee_bps > 0 {
                let (r2, s2) = crate::safe_math_128::bps_ceiling_outcome(
                    s1,
                    dist.total_distributed,
                    g.config.performance_fee_bps,
                );
                match r2 {
                    Err(e) => (Err(YieldGenerationError::SafeMathError(e)), with_record(g, s2)),
                    Ok(fee) => if !crate::rent_escalation::fits_i128(dist.dao_share - fee) {
                        (Err(YieldGenerationError::PerformanceFeeOverflow), with_record(g, s2))
                    } else {
                        (
                            Ok(
                                EnhancedYieldDistribution {
                                    dao_share: (dist.dao_share - fee) as i128,
                                    performance_fee: fee,
                                    ..split
                                },
                            ),
                            with_record(g, s2),
                        )
                    },
                }
            } else {
                (Ok(split), with_record(g, s1))
            }
        },
    }
}

/// Result and generator after the deposits of `inputs` were calculated in
/// order, up to the first failure.
pub open spec fn batch_outcome(g: EnhancedYieldGenerator, inputs: Seq<YieldCalculationInput>) -> (
    Result<Seq<YieldCalculationResult>, YieldGenerationError>,
    EnhancedYieldGenerator,
)
    decreases inputs.len(),
{
    if inputs.len() == 0 {
        (Ok(Seq::empty()), g)
    } else {
        let (r, g1) = batch_outcome(g, inputs.drop_last());
        match r {
            Err(e) => (Err(e), g1),
            Ok(done) => {
                let x = inputs.last();
                let (y, g2) = complex_outcome(
                    g1,
                    x.principal,
                    x.lock_duration_seconds,
                    x.total_lock_period,
                    x.deposit_size_tier,
                );
                match y {
                    Err(e) => (Err(e), g2),
                    Ok(a) => (
                        Ok(
                            done.push(
                                YieldCalculationResult {
                                    deposit_id: x.deposit_id,
                                    yield_amount: a,
                                    calculation_timestamp: x.current_timestamp,
                                    precision_loss: g2.safe_math.cumulative_precision_loss,
                                },
                            ),
                        ),
                        g2,
                    ),
                }
            },
        }
    }
}

/// A complex yield calculation counts at most three safe math operations
/// and at most one calculation.
pub proof fn lemma_complex_counts(
    g: EnhancedYieldGenerator,
    principal: i128,
    elapsed: u64,
    total: u64,
    tier: u32,
)
    requires
        g.safe_math.operation_count + 3 <= u64::MAX,
        g.metrics.calculation_count < u64::MAX,
    ensures
        ({
            let g2 = complex_outcome(g, principal, elapsed, total, tier).1;
            &&& g.safe_math.operation_count <= g2.safe_math.operation_count <= g.safe_math.operation_count
                + 3
            &&& g.metrics.calculation_count <= g2.metrics.calculation_count <= g.metrics.calculation_count
                + 1
            &&& g2.config == g.config
        }),
{
}

/// Batches count at most three safe math operations and one calculation
/// per deposit.
pub proof fn lemma_batch_counts(g: EnhancedYieldGenerator, inputs: Seq<YieldCalculationInput>)
    requires
        g.safe_math.operation_count + 3 * inputs.len() <= u64::MAX,
        g.metrics.calculation_count + inputs.len() < u64::MAX,
    ensures
        ({
            let g2 = batch_outcome(g, inputs).1;
            &&& g.safe_math.operation_count <= g2.safe_math.operation_count
                <= g.safe_math.operation_count + 3 * inputs.len()
            &&& g.metrics.calculation_count <= g2.metrics.calculation_count
                <= g.metrics.calculation_count + inputs.len()
            &&& g2.config == g.config
        }),
    decreases inputs.len(),
{
    if inputs.len() > 0 {
        lemma_batch_counts(g, inputs.drop_last());
        let g1 = batch_outcome(g, inputs.drop_last()).1;
        let x = inputs.last();
        lemma_complex_counts(
            g1,
            x.principal,
            x.lock_duration_seconds,
            x.total_lock_period,
            x.deposit_size_tier,
        );
    }
}

impl EnhancedYieldGenerator {
    /// Splits `total_yield` by `custom_distribution`, or 50/30/20 without
    /// one, and takes the performance fee from the DAO share.
    pub fn calculate_enhanced_distribution(
        &mut self,
        total_yield: i128,
        custom_distribution: Option<CustomDistribution>,
    ) -> (r: Result<EnhancedYieldDistribution, YieldGenerationError>)
        requires
            old(self).safe_math.operation_count + 4 <= u64::MAX,
            custom_distribution matches Some(c) ==> c.lessee_bps + c.lessor_bps + c.dao_bps
                <= u32::MAX,
        ensures
            (r, *final(self)) == enhanced_distribution_outcome(
                *old(self),
                total_yield,
                custom_distribution,
            ),
    {
        let (lessee_bps, lessor_bps, dao_bps) = match custom_distribution {
            Some(c) => (c.lessee_bps, c.lessor_bps, c.dao_bps),
            None => (5000, 3000, 2000),
        };
        let distribution = match self.safe_math.yield_distribution_with_dust_tracking(
            total_yield,
            lessee_bps,
            lessor_bps,
            dao_bps,
        ) {
            Ok(d) => d,
            Err(e) => {
                return Err(YieldGenerationError::SafeMathError(e));
            },
        };
        let split = EnhancedYieldDistribution {
            lessee_share: distribution.lessee_share,
            lessor_share: distribution.lessor_share,
            dao_share: distribution.dao_share,
            dust: distribution.dust,
            total_distributed: distribution.total_distributed,
            custom_applied: custom_distribution.is_some(),
            performance_fee: 0,
        };
        if self.config.performance_fee_bps > 0 {
            self.apply_performance_fee(split)
        } else {
            Ok(split)
        }
    }

    fn apply_performance_fee(&mut self, distribution: EnhancedYieldDistribution) -> (r: Result<
        EnhancedYieldDistribution,
        YieldGenerationError,
    >)
        requires
            old(self).safe_math.operation_count < u64::MAX,
        ensures
            ({
                let (r2, s2) = crate::safe_math_128::bps_ceiling_outcome(
                    old(self).safe_math,
                    distribution.total_distributed,
                    old(self).config.performance_fee_bps,
                );
                &&& *final(self) == with_record(*old(self), s2)
                &&& match r2 {
                    Err(e) => r == Err::<EnhancedYieldDistribution, YieldGenerationError>(
                        YieldGenerationError::SafeMathError(e),
                    ),
                    Ok(fee) => if !crate::rent_escalation::fits_i128(distribution.dao_share - fee) {
                        r == Err::<EnhancedYieldDistribution, YieldGenerationError>(
                            YieldGenerationError::PerformanceFeeOverflow,
                        )
                    } else {
                        r == Ok::<EnhancedYieldDistribution, YieldGenerationError>(
                            EnhancedYieldDistribution {
                                dao_share: (distribution.dao_share - fee) as i128,
                                performance_fee: fee,
                                ..distribution
                            },
                        )
                    },
                }
            }),
    {
        let fee_amount = match self.safe_math.safe_bps_division_ceiling(
            distribution.total_distributed,
            self.config.performance_fee_bps,
        ) {
            Ok(f) => f,
            Err(e) => {
                return Err(YieldGenerationError::SafeMathError(e));
            },
        };
        let new_dao_share = match distribution.dao_share.checked_sub(fee_amount) {
            Some(v) => v,
            None => {
                return Err(YieldGenerationError::PerformanceFeeOverflow);
            },
        };
        Ok(
            EnhancedYieldDistribution {
                dao_share: new_dao_share,
                performance_fee: fee_amount,
                ..distribution
            },
        )
    }

    /// Calculates the yield of each deposit in order; the first failure
    /// ends the batch.
    pub fn batch_calculate_yield(&mut self, deposits: Vec<YieldCalculationInput>) -> (r: Result<
        Vec<YieldCalculationResult>,
        YieldGenerationError,
    >)
        requires
            old(self).safe_math.operation_count + 3 * deposits@.len() <= u64::MAX,
            old(self).metrics.calculation_count + deposits@.len() < u64::MAX,
            forall|i: int|
                0 <= i < deposits@.len() ==> {
                    let x = #[trigger] deposits@[i];
                    x.lock_duration_seconds <= x.total_lock_period && x.total_lock_period > 0
                        ==> x.lock_duration_seconds * 10000 <= u64::MAX
                },
        ensures
            ({
                let (expected, g) = batch_outcome(*old(self), deposits@);
                &&& *final(self) == g
                &&& match expected {
                    Ok(v) => r is Ok && r->Ok_0@ == v,
                    Err(e) => r == Err::<Vec<YieldCalculationResult>, YieldGenerationError>(e),
                }
            }),
    {
        let mut results: Vec<YieldCalculationResult> = Vec::new();
        let mut i: usize = 0;
        let ghost g0 = *self;
        while i < deposits.len()
            invariant
                0 <= i <= deposits@.len(),
                g0 == *old(self),
                batch_outcome(g0, deposits@.take(i as int)) == (
                    Ok::<Seq<YieldCalculationResult>, YieldGenerationError>(results@),
                    *self,
                ),
                g0.safe_math.operation_count + 3 * deposits@.len() <= u64::MAX,
                g0.metrics.calculation_count + deposits@.len() < u64::MAX,
                forall|k: int|
                    0 <= k < deposits@.len() ==> {
                        let x = #[trigger] deposits@[k];
                        x.lock_duration_seconds <= x.total_lock_period && x.total_lock_period > 0
                            ==> x.lock_duration_seconds * 10000 <= u64::MAX
                    },
            decreases deposits@.len() - i,
        {
            assert(deposits@.take(i as int + 1).drop_last() =~= deposits@.take(i as int));
            proof {
                lemma_batch_counts(g0, deposits@.take(i as int));
            }
            let input = deposits[i];
            let ghost before = *self;
            let yield_amount = match self.calculate_complex_yield(
                input.principal,
                input.lock_duration_seconds,
                input.total_lock_period,
                input.deposit_size_tier,
                input.current_timestamp,
            ) {
                Ok(y) => y,
                Err(e) => {
                    proof {
                        let x = deposits@.take(i as int + 1).last();
                        assert(x == input);
                        assert(complex_outcome(
                            before,
                            x.principal,
                            x.lock_duration_seconds,
                            x.total_lock_period,
                            x.deposit_size_tier,
                        ) == (Err::<i128, YieldGenerationError>(e), *self));
                        assert(batch_outcome(g0, deposits@.take(i as int + 1)) == (
                            Err::<Seq<YieldCalculationResult>, YieldGenerationError>(e),
                            *self,
                        ));
                        lemma_batch_prefix_error(g0, deposits@, i as int + 1);
                    }
                    return Err(e);
                },
            };
            results.push(
                YieldCalculationResult {
                    deposit_id: input.deposit_id,
                    yield_amount,
                    calculation_timestamp: input.current_timestamp,
                    precision_loss: self.safe_math.cumulative_precision_loss,
                },
            );
            i = i + 1;
        }
        assert(deposits@.take(deposits@.len() as int) =~= deposits@);
        Ok(results)
    }

    /// Estimated gas saved: 20000 per calculation out of a 50000 baseline,
    /// a 40% improvement once anything was calculated.
    pub fn estimate_gas_savings(&self) -> (r: GasOptimizationReport)
        requires
            self.metrics.calculation_count * 2_000_000 <= u64::MAX,
        ensures
            r == (GasOptimizationReport {
                operations_count: self.metrics.calculation_count,
                gas_saved_per_operation: 20000,
                total_gas_saved: (20000 * self.metrics.calculation_count) as u64,
                efficiency_improvement_percentage: if self.metrics.calculation_count > 0 {
                    40
                } else {
                    0
                },
            }),
    {
        let baseline_gas_per_op: u64 = 50000;
        let optimized_gas_per_op: u64 = 30000;
        let gas_per_operation = baseline_gas_per_op - optimized_gas_per_op;
        let count = self.metrics.calculation_count;
        let total_gas_saved = gas_per_operation * count;
        let efficiency = if count > 0 {
            let pct = (total_gas_saved * 100) / (baseline_gas_per_op * count);
            assert(pct == 40) by (nonlinear_arith)
                requires
                    pct == (20000 * count * 100) / (50000 * count),
                    count > 0,
            {
                assert(20000 * count * 100 == 40 * (50000 * count));
            }
            pct
        } else {
            0
        };
        GasOptimizationReport {
            operations_count: count,
            gas_saved_per_operation: gas_per_operation,
            total_gas_saved,
            efficiency_improvement_percentage: efficiency,
        }
    }

    fn summarize_config(&self) -> (r: ConfigSummary)
        ensures
            r == (ConfigSummary {
                base_rate_bps: self.config.base_rate_bps,
                compounding_frequency: self.config.compounding_frequency,
                performance_fee_bps: self.config.performance_fee_bps,
                risk_multiplier_enabled: self.config.risk_multiplier_enabled,
                time_boost_enabled: self.config.time_boost_enabled,
                max_yield_multiplier_bps: self.config.max_yield_multiplier_bps,
            }),
    {
        ConfigSummary {
            base_rate_bps: self.config.base_rate_bps,
            compounding_frequency: self.config.compounding_frequency,
            performance_fee_bps: self.config.performance_fee_bps,
            risk_multiplier_enabled: self.config.risk_multiplier_enabled,
            time_boost_enabled: self.config.time_boost_enabled,
            max_yield_multiplier_bps: self.config.max_yield_multiplier_bps,
        }
    }

    /// The metrics, the precision record, the gas estimate and the
    /// configuration.
    pub fn get_performance_report(&self) -> (r: PerformanceReport)
        requires
            self.metrics.calculation_count * 2_000_000 <= u64::MAX,
        ensures
            r.metrics == self.metrics,
            r.precision_report.cumulative_precision_loss == self.safe_math.cumulative_precision_loss,
            r.precision_report.operation_count == self.safe_math.operation_count,
            r.precision_report.max_single_operation_loss == self.safe_math.max_single_operation_loss,
            r.precision_report.efficiency_score == crate::safe_math_128::efficiency_score_of(
                self.safe_math,
            ),
            r.gas_optimization.operations_count == self.metrics.calculation_count,
            r.gas_optimization.total_gas_saved == 20000 * self.metrics.calculation_count,
            r.config_summary.base_rate_bps == self.config.base_rate_bps,
            r.config_summary.performance_fee_bps == self.config.performance_fee_bps,
    {
        PerformanceReport {
            metrics: self.metrics,
            precision_report: self.safe_math.get_precision_report(),
            gas_optimization: self.estimate_gas_savings(),
            config_summary: self.summarize_config(),
        }
    }

    /// Clears the precision record and the metrics; the configuration stays.
    pub fn reset(&mut self)
        ensures
            final(self).safe_math == (SafeMath128 {
                cumulative_precision_loss: 0,
                operation_count: 0,
                max_single_operation_loss: 0,
            }),
            final(self).metrics == initial_metrics(),
            final(self).config == old(self).config,
    {
        self.safe_math.reset();
        self.metrics = YieldMetrics::default();
    }
}

/// A batch that failed on the deposits up to `n` fails on all of them.
proof fn lemma_batch_prefix_error(g: EnhancedYieldGenerator, inputs: Seq<YieldCalculationInput>, n: int)
    requires
        0 < n <= inputs.len(),
        batch_outcome(g, inputs.take(n)).0 is Err,
    ensures
        batch_outcome(g, inputs).0 == batch_outcome(g, inputs.take(n)).0,
        batch_outcome(g, inputs).1 == batch_outcome(g, inputs.take(n)).1,
    decreases inputs.len() - n,
{
    if n < inputs.len() {
        assert(inputs.take(n + 1).drop_last() =~= inputs.take(n));
        lemma_batch_prefix_error(g, inputs, n + 1);
    } else {
        assert(inputs.take(n) =~= inputs);
    }
}

} // verus!

verus! {

/// A calculated yield never exceeds the configured multiple of the
/// principal.
pub proof fn lemma_yield_within_cap(
    g: EnhancedYieldGenerator,
    principal: i128,
    elapsed: u64,
    total: u64,
    tier: u32,
)
    ensures
        complex_outcome(g, principal, elapsed, total, tier).0 matches Ok(y) ==> y <= principal * (
        g.config.max_yield_multiplier_bps / 10000),
{
}

/// A distribution hands out exactly the yield: the three shares, the
/// performance fee and the dust add up to it.
pub proof fn lemma_distribution_accounts_for_yield(
    g: EnhancedYieldGenerator,
    total_yield: i128,
    custom: Option<CustomDistribution>,
)
    ensures
        enhanced_distribution_outcome(g, total_yield, custom).0 matches Ok(d) ==> d.lessee_share
            + d.lessor_share + d.dao_share + d.performance_fee + d.dust == total_yield,
{
}

/// Compounding at a zero rate leaves every amount as it is: the factor
/// stays at 100%.
proof fn lemma_unit_factor_stays_unit(e: nat)
    ensures
        pow_steps(10000, 10000, e) == Some(10000int),
    decreases e,
{
    if e > 0 {
        lemma_unit_factor_stays_unit(e / 2);
    }
}

/// A factor of at least 100% compounded from at least 100% stays at least
/// 100%.
proof fn lemma_factor_at_least_unit(result: int, bp: int, e: nat)
    requires
        result >= 10000,
        bp >= 10000,
    ensures
        pow_steps(result, bp, e) matches Some(v) ==> v >= 10000,
    decreases e,
{
    if e > 0 {
        assert(result * bp >= result * 10000) by (nonlinear_arith)
            requires
                result >= 10000,
                bp >= 10000,
        ;
        assert(bp * bp >= bp * 10000) by (nonlinear_arith)
            requires
                bp >= 10000,
        ;
        let r = if e % 2 == 1 {
            result * bp / 10000
        } else {
            result
        };
        lemma_factor_at_least_unit(r, bp * bp / 10000, e / 2);
    }
}

/// Up to a thousand periods, a compounded yield is what compounding adds to
/// the principal, not the final amount: the principal grown by the
/// per-period rate (the annual rate over the compounding frequency, rounded
/// down) over the periods, rounded down, less the principal. It is never
/// negative, always below the final amount, and zero when the per-period
/// rate is zero.
pub proof fn lemma_compounded_yield_excludes_principal(
    g: EnhancedYieldGenerator,
    principal: i128,
    annual_rate_bps: u32,
    periods: u64,
)
    requires
        principal > 0,
        0 < periods <= 1000,
        g.config.compounding_frequency > 0,
    ensures
        compounded_outcome(g, principal, annual_rate_bps, periods).0 matches Ok(y) ==> {
            let factor = bps_power(
                10000 + annual_rate_bps / g.config.compounding_frequency,
                periods as nat,
            );
            &&& factor is Some
            &&& y == principal * factor->Some_0 / 10000 - principal
            &&& 0 <= y < principal * factor->Some_0 / 10000
            &&& annual_rate_bps / g.config.compounding_frequency == 0 ==> y == 0
            &&& periods == 1 ==> y == principal * (10000 + annual_rate_bps
                / g.config.compounding_frequency) / 10000 - principal
        },
{
    let per_period = annual_rate_bps / g.config.compounding_frequency;
    let base = 10000 + per_period;
    if let Some(f) = bps_power(base, periods as nat) {
        if periods >= 2 {
            lemma_factor_at_least_unit(10000, base, periods as nat);
        }
        assert(f >= 10000);
        assert(principal * f >= principal * 10000) by (nonlinear_arith)
            requires
                principal > 0,
                f >= 10000,
        ;
        assert(principal * f / 10000 >= principal);
        if per_period == 0 {
            if periods >= 2 {
                lemma_unit_factor_stays_unit(periods as nat);
            }
            assert(f == 10000);
            assert(principal * f / 10000 == principal);
        }
    }
}

/// The multiplier, in basis points, of a deposit size tier: 80%, 100%,
/// 120% and 150% for tiers 1 to 4.
pub open spec fn tier_bps(tier: u32) -> int {
    if tier == 1 {
        8000
    } else if tier == 2 {
        10000
    } else if tier == 3 {
        12000
    } else {
        15000
    }
}

/// The size bonus, in basis points, of a principal: 110% above a million,
/// 105% above a hundred thousand, else 100%.
pub open spec fn size_bonus_bps(principal: int) -> int {
    if principal > 1_000_000 {
        11000
    } else if principal > 100_000 {
        10500
    } else {
        10000
    }
}

/// With the risk multiplier on, a deposit of tier 1 to 4 earns the plain
/// yield (the base rate over the elapsed share of the lock period, in
/// basis points, rounded down) scaled by the average of its tier multiplier
/// (80%, 100%, 120%, 150%) and its size bonus, held to the maximum
/// multiplier, then by the time boost when that is on (130%, 120%, 110%
/// or 105% once 90%, 70%, 50% or 30% of the lock period has passed, else
/// 100%, also held to the maximum), each rounded down, and finally held to
/// the yield cap.
pub proof fn lemma_complex_yield_scales_by_tier(
    g: EnhancedYieldGenerator,
    principal: i128,
    elapsed: u64,
    total: u64,
    tier: u32,
)
    requires
        g.config.risk_multiplier_enabled,
        1 <= tier <= 4,
    ensures
        complex_outcome(g, principal, elapsed, total, tier).0 matches Ok(y) ==> {
            let c = g.config;
            let plain = principal * c.base_rate_bps * (elapsed * 10000 / (total as int)) / 10000;
            let combined = (tier_bps(tier) + size_bonus_bps(principal as int)) / 2;
            let m = if combined <= c.max_yield_multiplier_bps {
                combined
            } else {
                c.max_yield_multiplier_bps as int
            };
            let adjusted = plain * m / 10000;
            let share = elapsed * 10000 / (total as int);
            let boost = if share >= 9000 {
                13000
            } else if share >= 7000 {
                12000
            } else if share >= 5000 {
                11000
            } else if share >= 3000 {
                10500
            } else {
                10000int
            };
            let tb = if boost <= c.max_yield_multiplier_bps {
                boost
            } else {
                c.max_yield_multiplier_bps as int
            };
            let boosted = if c.time_boost_enabled {
                adjusted * tb / 10000
            } else {
                adjusted
            };
            let cap = principal * (c.max_yield_multiplier_bps / 10000);
            y == if boosted <= cap {
                boosted
            } else {
                cap
            }
        },
{
    if principal > 0 && elapsed <= total && total > 0 {
        assert(elapsed * 10000 / (total as int) <= 10000) by (nonlinear_arith)
            requires
                elapsed <= total,
                total > 0,
        ;
        assert(0 <= elapsed * 10000 / (total as int));
        assert(time_factor(elapsed, total) == elapsed * 10000 / (total as int));
        let c = g.config;
        let combined = (tier_bps(tier) + size_bonus_bps(principal as int)) / 2;
        let m = if combined <= c.max_yield_multiplier_bps {
            combined
        } else {
            c.max_yield_multiplier_bps as int
        };
        assert(risk_multiplier(tier, principal, c.max_yield_multiplier_bps) as int == m);
        let tf = time_factor(elapsed, total);
        let (r1, s1) = crate::safe_math_128::mul_yield_outcome(g.safe_math, principal, c.base_rate_bps, tf);
        if let Ok(base) = r1 {
            assert(base == principal * c.base_rate_bps * (elapsed * 10000 / (total as int)) / 10000);
            let rm = risk_multiplier(tier, principal, c.max_yield_multiplier_bps);
            let (r2, s2) = crate::safe_math_128::scale_floor_outcome(s1, base, rm);
            if let Ok(adjusted) = r2 {
                assert(adjusted == base * m / 10000);
                if c.time_boost_enabled {
                    let tb = time_boost(elapsed, total, c.max_yield_multiplier_bps);
                    let (r3, s3) = crate::safe_math_128::scale_floor_outcome(s2, adjusted, tb);
                    if let Ok(boosted) = r3 {
                        assert(boosted == adjusted * tb / 10000);
                    }
                }
            }
        }
    }
}

/// A deposit of a higher size tier never earns less: with the risk
/// multiplier on and all else equal, the yield of tier `a` is at most that
/// of any higher tier `b` up to 4.
pub proof fn lemma_higher_tier_never_earns_less(
    g: EnhancedYieldGenerator,
    principal: i128,
    elapsed: u64,
    total: u64,
    a: u32,
    b: u32,
)
    requires
        g.config.risk_multiplier_enabled,
        1 <= a < b <= 4,
    ensures
        complex_outcome(g, principal, elapsed, total, a).0 matches Ok(ya) ==> (complex_outcome(
            g,
            principal,
            elapsed,
            total,
            b,
        ).0 matches Ok(yb) ==> ya <= yb),
{
    lemma_complex_yield_scales_by_tier(g, principal, elapsed, total, a);
    lemma_complex_yield_scales_by_tier(g, principal, elapsed, total, b);
    let c = g.config;
    if complex_outcome(g, principal, elapsed, total, a).0 is Ok && complex_outcome(
        g,
        principal,
        elapsed,
        total,
        b,
    ).0 is Ok {
        let plain = principal * c.base_rate_bps * (elapsed * 10000 / (total as int)) / 10000;
        assert(principal > 0 && elapsed <= total && total > 0);
        assert(0 <= elapsed * 10000 / (total as int));
        assert(0 <= principal * c.base_rate_bps * (elapsed * 10000 / (total as int))) by (nonlinear_arith)
            requires
                principal > 0,
                0 <= elapsed * 10000 / (total as int),
        ;
        assert(plain >= 0);
        let ca = (tier_bps(a) + size_bonus_bps(principal as int)) / 2;
        let cb = (tier_bps(b) + size_bonus_bps(principal as int)) / 2;
        assert(tier_bps(a) < tier_bps(b));
        assert(ca <= cb);
        let ma = if ca <= c.max_yield_multiplier_bps {
            ca
        } else {
            c.max_yield_multiplier_bps as int
        };
        let mb = if cb <= c.max_yield_multiplier_bps {
            cb
        } else {
            c.max_yield_multiplier_bps as int
        };
        assert(0 <= ma <= mb);
        assert(plain * ma <= plain * mb) by (nonlinear_arith)
            requires
                plain >= 0,
                0 <= ma <= mb,
        ;
        assert(0 <= plain * ma) by (nonlinear_arith)
            requires
                plain >= 0,
                0 <= ma,
        ;
        let xa = plain * ma / 10000;
        let xb = plain * mb / 10000;
        assert(0 <= xa <= xb);
        if c.time_boost_enabled {
            let tb = time_boost(elapsed, total, c.max_yield_multiplier_bps) as int;
            assert(xa * tb <= xb * tb) by (nonlinear_arith)
                requires
                    0 <= xa <= xb,
                    tb >= 0,
            ;
            assert(xa * tb / 10000 <= xb * tb / 10000) by (nonlinear_arith)
                requires
                    xa * tb <= xb * tb,
                    0 <= xa * tb,
            ;
        }
    }
}

/// Beyond a thousand periods, the compounded yield approximates continuous
/// compounding from the exponent `x` = rate times periods: the principal
/// times `x + x²/20000` below ten thousand, `x + x²/15000` below twenty
/// thousand, `x + x²/10000` below fifty thousand, and 10x up to a hundred
/// thousand, in basis points and rounded down; past that the multiplier is
/// a thousand times the principal.
pub proof fn lemma_long_compounding_approximates_continuous(
    g: EnhancedYieldGenerator,
    principal: i128,
    annual_rate_bps: u32,
    periods: u64,
)
    requires
        principal > 0,
        periods > 1000,
    ensures
        compounded_outcome(g, principal, annual_rate_bps, periods).0 matches Ok(y) ==> {
            let x = annual_rate_bps * periods;
            let m = if x < 10000 {
                x + x * x / 20000
            } else if x < 20000 {
                x + x * x / 15000
            } else if x < 50000 {
                x + x * x / 10000
            } else if x < 100000 {
                100000
            } else {
                principal * 1000
            };
            y == principal * m / 10000
        },
{
}

} // verus!
