//! Risk-aware yield on lease deposits: risk adjustments, confidence levels,
//! portfolio metrics and stress tests, built on the yield generator and the
//! tracked 128-bit safe math.
//!
//! Every failure of the underlying arithmetic is reported as
//! `LeaseError::InvalidDeduction`.
use vstd::prelude::*;
use crate::safe_math_128::{SafeMath128, PrecisionQuality};
use crate::enhanced_yield_generation::EnhancedYieldGenerator;
use crate::lease_contract::{LeaseError, LeaseInstance};

verus! {

/// Seconds a deposit is taken to have been locked.
pub const ELAPSED_LOCK_SECONDS: u64 = 2_592_000;
/// Seconds of a full lock period.
pub const TOTAL_LOCK_SECONDS: u64 = 31_536_000;

/// Risk figures of the yields.
#[derive(Copy, Clone, Debug, Eq, PartialEq, Structural)]
pub struct RiskMetrics {
    /// Volatility of yields (standard deviation).
    pub volatility: i128,
    /// Largest drawdown from peak to trough.
    pub max_drawdown: i128,
    /// Risk-adjusted return.
    pub sharpe_ratio: i128,
    /// Value at risk at 95% confidence.
    pub var_95: i128,
    /// Beta relative to the market.
    pub beta: i128,
}

/// Figures of a portfolio of deposits.
#[derive(Copy, Clone, Debug, Eq, PartialEq, Structural)]
pub struct PortfolioMetrics {
    pub total_value: i128,
    pub weighted_yield_rate: i128,
    /// Diversity in basis points.
    pub diversity_score: i128,
    /// Concentration in basis points.
    pub concentration_risk: i128,
    pub efficiency_score: i128,
}

/// A yield with its risk analysis.
#[derive(Clone, Debug)]
pub struct AdvancedYieldResult {
    pub yield_amount: i128,
    /// The yield after the risk adjustments.
    pub risk_adjusted_yield: i128,
    /// Confidence in basis points.
    pub confidence_level: i128,
    pub expected_precision_loss: i128,
    pub recommendations: Vec<String>,
}

/// Market figures that temper a yield.
#[derive(Copy, Clone, Debug, Eq, PartialEq, Structural)]
pub struct MarketData {
    /// Correlation risk in basis points.
    pub correlation_risk: i128,
    pub market_volatility: i128,
    pub risk_free_rate: i128,
}

/// A stress scenario.
#[derive(Clone, Debug)]
pub struct StressScenario {
    pub name: String,
    /// Fall of the deposit's value, in basis points.
    pub market_stress_bps: u32,
    pub liquidity_stress_bps: u32,
    pub duration_factor: u32,
}

/// The yield of a deposit under one stress scenario.
#[derive(Clone, Debug)]
pub struct StressScenarioResult {
    pub scenario: StressScenario,
    pub stressed_yield: AdvancedYieldResult,
    /// Change of the risk-adjusted yield from the unstressed one, in basis
    /// points.
    pub yield_impact_bps: i128,
    /// Whether a positive yield is left.
    pub survivable: bool,
}

/// The results of a stress test.
#[derive(Clone, Debug)]
pub struct StressTestResults {
    pub scenario_results: Vec<StressScenarioResult>,
    /// Position in `scenario_results` of the first scenario with the lowest
    /// risk-adjusted yield.
    pub worst_case_scenario: Option<usize>,
    /// Share of the scenarios that leave a positive yield, in basis points.
    pub stress_resilience_score: i128,
}

/// How much risk a portfolio may take.
#[derive(Copy, Clone, Debug, Eq, PartialEq, Structural)]
pub enum OptimizationStrategy {
    Conservative,
    Balanced,
    Aggressive,
    Speculative,
}

/// Expected figures of an allocation.
#[derive(Copy, Clone, Debug, Eq, PartialEq, Structural)]
pub struct ExpectedPerformance {
    pub expected_yield: i128,
    pub expected_risk: i128,
    pub risk_adjusted_return: i128,
}

/// A portfolio's allocation, as (deposit, risk-adjusted yield) pairs, and
/// what is expected of it.
#[derive(Clone, Debug)]
pub struct PortfolioOptimizationResult {
    pub current_allocation: Vec<(i128, i128)>,
    pub optimized_allocation: Vec<(i128, i128)>,
    pub expected_performance: ExpectedPerformance,
    pub risk_metrics: RiskMetrics,
    pub portfolio_metrics: PortfolioMetrics,
}

/// A report on the yield of one lease.
#[derive(Clone, Debug)]
pub struct YieldReport {
    pub lease_id: u64,
    pub security_deposit: i128,
    pub base_yield: i128,
    pub risk_adjusted_yield: i128,
    pub confidence_level: i128,
    pub precision_quality: PrecisionQuality,
    pub precision_loss: i128,
    pub efficiency_score: u32,
    pub recommendations: Vec<String>,
    pub risk_metrics: RiskMetrics,
    pub timestamp: u64,
}

/// All risk figures zero.
pub open spec fn zero_risk_metrics() -> RiskMetrics {
    RiskMetrics { volatility: 0, max_drawdown: 0, sharpe_ratio: 0, var_95: 0, beta: 0 }
}

/// All portfolio figures zero.
pub open spec fn zero_portfolio_metrics() -> PortfolioMetrics {
    PortfolioMetrics {
        total_value: 0,
        weighted_yield_rate: 0,
        diversity_score: 0,
        concentration_risk: 0,
        efficiency_score: 0,
    }
}

impl Default for RiskMetrics {
    fn default() -> (r: Self)
        ensures
            r == zero_risk_metrics(),
    {
        RiskMetrics { volatility: 0, max_drawdown: 0, sharpe_ratio: 0, var_95: 0, beta: 0 }
    }
}

impl Default for PortfolioMetrics {
    fn default() -> (r: Self)
        ensures
            r == zero_portfolio_metrics(),
    {
        PortfolioMetrics {
            total_value: 0,
            weighted_yield_rate: 0,
            diversity_score: 0,
            concentration_risk: 0,
            efficiency_score: 0,
        }
    }
}

/// The size tier of a deposit: 1 below 100 000, 2 below a million, 3
/// below ten million, 4 above (and for negative amounts).
pub open spec fn deposit_tier(amount: i128) -> u32 {
    if 0 <= amount <= 99_999 {
        1
    } else if 100_000 <= amount <= 999_999 {
        2
    } else if 1_000_000 <= amount <= 9_999_999 {
        3
    } else {
        4
    }
}

/// The strategy for a risk tolerance in basis points.
pub open spec fn strategy_for(target_risk_level: u32) -> OptimizationStrategy {
    if target_risk_level <= 2000 {
        OptimizationStrategy::Conservative
    } else if target_risk_level <= 5000 {
        OptimizationStrategy::Balanced
    } else if target_risk_level <= 8000 {
        OptimizationStrategy::Aggressive
    } else {
        OptimizationStrategy::Speculative
    }
}

/// `x` clamped to `[lo, hi]`.
pub open spec fn clamp(x: int, lo: int, hi: int) -> int {
    if x < lo {
        lo
    } else if x > hi {
        hi
    } else {
        x
    }
}

/// The confidence, in basis points, in a yield computed with the precision
/// record `s` and a history of `history_len` yields (`None` without one):
/// 80%, moved by the precision quality and the amount of history, kept
/// between 10% and 100%.
pub open spec fn confidence_level(s: SafeMath128, history_len: Option<nat>) -> i128 {
    let by_quality: int = match crate::safe_math_128::quality_of(s) {
        PrecisionQuality::Perfect => 9500,
        PrecisionQuality::Excellent => 9000,
        PrecisionQuality::Good => 8500,
        PrecisionQuality::Fair => 7500,
        PrecisionQuality::Poor => 7000,
        PrecisionQuality::Critical => 6000,
    };
    let by_history: int = match history_len {
        Some(n) => if n >= 10 {
            by_quality + 500
        } else if n < 3 {
            by_quality - 1000
        } else {
            by_quality
        },
        None => by_quality - 1500,
    };
    clamp(by_history, 1000, 10000) as i128
}

/// The texts of the recommendations on a yield.
pub open spec fn yield_recommendation_texts(
    quality: PrecisionQuality,
    confidence: i128,
    expected_loss: i128,
    efficiency: u32,
) -> Seq<Seq<char>> {
    let first = match quality {
        PrecisionQuality::Critical => seq![
            "CRITICAL: High precision loss detected. Consider using higher precision arithmetic."@,
        ],
        PrecisionQuality::Poor => seq![
            "Consider implementing batch processing to reduce cumulative precision loss."@,
        ],
        _ => seq!["Precision levels are acceptable."@],
    };
    let with_confidence = if confidence < 5000 {
        first.push("Low confidence in yield calculation. Consider additional risk mitigation."@)
    } else {
        first
    };
    let with_loss = if expected_loss > 1000 {
        with_confidence.push("High precision loss expected. Monitor calculations closely."@)
    } else {
        with_confidence
    };
    if efficiency < 70 {
        with_loss.push("Low efficiency detected. Consider optimizing calculation patterns."@)
    } else {
        with_loss
    }
}

/// Whether `i` is the first position of a smallest element of `values`.
pub open spec fn is_first_minimum(values: Seq<i128>, i: int) -> bool {
    &&& 0 <= i < values.len()
    &&& forall|j: int| 0 <= j < values.len() ==> values[i] <= #[trigger] values[j]
    &&& forall|j: int| 0 <= j < i ==> values[i] < #[trigger] values[j]
}

/// How many of `values` are positive.
pub open spec fn positive_count(values: Seq<i128>) -> nat
    decreases values.len(),
{
    if values.len() == 0 {
        0
    } else {
        positive_count(values.drop_last()) + if values.last() > 0 {
            1nat
        } else {
            0nat
        }
    }
}

/// The deposit under a fall of `stress_bps` basis points of its value,
/// rounded toward zero; the deposit itself where that overflows.
pub open spec fn stressed_deposit(deposit: i128, stress_bps: u32) -> i128 {
    let kept = 10000 - stress_bps;
    if crate::rent_escalation::fits_i128(deposit * kept) {
        crate::rates::trunc_div(deposit * kept, 10000) as i128
    } else {
        deposit
    }
}

/// The Herfindahl index of the deposits of `allocation` against `total`:
/// the sum of the squared shares in basis points (0 for a non-positive
/// total), or the overflow met on the way.
pub open spec fn herfindahl(allocation: Seq<(i128, i128)>, total: i128) -> Result<int, LeaseError>
    decreases allocation.len(),
{
    if allocation.len() == 0 {
        Ok(0)
    } else {
        match herfindahl(allocation.drop_last(), total) {
            Err(e) => Err(e),
            Ok(h) => if total <= 0 {
                Ok(h)
            } else {
                let p = allocation.last().0;
                let share = crate::rates::trunc_div(p * 10000, total as int);
                if !crate::rent_escalation::fits_i128(p * 10000) || !crate::rent_escalation::fits_i128(
                    share * share,
                ) || !crate::rent_escalation::fits_i128(h + share * share) {
                    Err(LeaseError::InvalidDeduction)
                } else {
                    Ok(h + share * share)
                }
            },
        }
    }
}

/// The concentration of `allocation` in basis points: its Herfindahl index
/// scaled down by 10000, at most 10000.
pub open spec fn concentration_outcome(allocation: Seq<(i128, i128)>, total: i128) -> Result<
    i128,
    LeaseError,
> {
    match herfindahl(allocation, total) {
        Err(e) => Err(e),
        Ok(h) => {
            let c = crate::rates::trunc_div(h, 10000);
            Ok(
                if c <= 10000 {
                    c as i128
                } else {
                    10000
                },
            )
        },
    }
}

/// The yields of an allocation.
pub open spec fn yields_of(allocation: Seq<(i128, i128)>) -> Seq<i128> {
    allocation.map_values(|p: (i128, i128)| p.1)
}

/// The yields of an allocation, each with weight one.
pub open spec fn unit_weighted(allocation: Seq<(i128, i128)>) -> Seq<(i128, i128)> {
    allocation.map_values(|p: (i128, i128)| (p.1, 1i128))
}

/// The diversity of the yields of `allocation` in basis points: 10000 less
/// their coefficient of variation (capped at 10000); 0 for fewer than two.
pub open spec fn diversity_outcome(allocation: Seq<(i128, i128)>) -> Result<i128, LeaseError> {
    if allocation.len() <= 1 {
        Ok(0)
    } else {
        match crate::safe_math_128::weighted_average_outcome(unit_weighted(allocation)) {
            Err(_) => Err(LeaseError::InvalidDeduction),
            Ok(mean) => match crate::safe_math_128::volatility_outcome(yields_of(allocation)) {
                Err(_) => Err(LeaseError::InvalidDeduction),
                Ok(volatility) => {
                    let cv: int = if mean > 0 {
                        crate::rates::trunc_div(volatility * 10000, mean as int)
                    } else {
                        10000
                    };
                    if mean > 0 && !crate::rent_escalation::fits_i128(volatility * 10000) {
                        Err(LeaseError::InvalidDeduction)
                    } else if !crate::rent_escalation::fits_i128(
                        10000 - (if cv <= 10000 {
                            cv
                        } else {
                            10000
                        }),
                    ) {
                        Err(LeaseError::InvalidDeduction)
                    } else {
                        Ok(
                            (10000 - (if cv <= 10000 {
                                cv
                            } else {
                                10000
                            })) as i128,
                        )
                    }
                },
            },
        }
    }
}

/// Checked running sum of the deposits of `allocation`.
pub open spec fn deposit_sum(allocation: Seq<(i128, i128)>) -> Option<int>
    decreases allocation.len(),
{
    if allocation.len() == 0 {
        Some(0)
    } else {
        match deposit_sum(allocation.drop_last()) {
            None => None,
            Some(t) => if crate::rent_escalation::fits_i128(t + allocation.last().0) {
                Some(t + allocation.last().0)
            } else {
                None
            },
        }
    }
}

/// The weight of one pair in the portfolio risk: its deposit times its
/// yield in thousands (0 where that overflows).
pub open spec fn risk_weight(pair: (i128, i128)) -> int {
    let factor = crate::rates::trunc_div(pair.1 as int, 1000);
    if crate::rent_escalation::fits_i128(pair.0 * factor) {
        pair.0 * factor
    } else {
        0
    }
}

/// Checked running sum of the risk weights of `allocation`.
pub open spec fn risk_weight_sum(allocation: Seq<(i128, i128)>) -> Option<int>
    decreases allocation.len(),
{
    if allocation.len() == 0 {
        Some(0)
    } else {
        match risk_weight_sum(allocation.drop_last()) {
            None => None,
            Some(t) => if crate::rent_escalation::fits_i128(t + risk_weight(allocation.last())) {
                Some(t + risk_weight(allocation.last()))
            } else {
                None
            },
        }
    }
}

/// The risk of an allocation: its risk weights averaged over its deposits
/// (0 for a zero total).
pub open spec fn portfolio_risk_outcome(allocation: Seq<(i128, i128)>) -> Result<i128, LeaseError> {
    match deposit_sum(allocation) {
        None => Err(LeaseError::InvalidDeduction),
        Some(total) => if total == 0 {
            Ok(0)
        } else {
            match risk_weight_sum(allocation) {
                None => Err(LeaseError::InvalidDeduction),
                Some(w) => if !crate::rent_escalation::fits_i128(crate::rates::trunc_div(w, total)) {
                    Err(LeaseError::InvalidDeduction)
                } else {
                    Ok(crate::rates::trunc_div(w, total) as i128)
                },
            }
        },
    }
}

/// The risk-adjusted return of a yield: the yield per unit of risk, in
/// basis points (the yield itself for no risk).
pub open spec fn risk_adjusted_return_outcome(expected_yield: i128, risk: i128) -> Result<
    i128,
    LeaseError,
> {
    if risk == 0 {
        Ok(expected_yield)
    } else if !crate::rent_escalation::fits_i128(expected_yield * 10000)
        || !crate::rent_escalation::fits_i128(
        crate::rates::trunc_div(expected_yield * 10000, risk as int),
    ) {
        Err(LeaseError::InvalidDeduction)
    } else {
        Ok(crate::rates::trunc_div(expected_yield * 10000, risk as int) as i128)
    }
}

/// The size tier of a deposit.
pub fn get_deposit_tier(deposit_amount: i128) -> (r: u32)
    ensures
        r == deposit_tier(deposit_amount),
{
    if 0 <= deposit_amount && deposit_amount <= 99_999 {
        1
    } else if 100_000 <= deposit_amount && deposit_amount <= 999_999 {
        2
    } else if 1_000_000 <= deposit_amount && deposit_amount <= 9_999_999 {
        3
    } else {
        4
    }
}

/// The strategy for a risk tolerance in basis points.
pub fn determine_optimization_strategy(target_risk_level: u32) -> (r: OptimizationStrategy)
    ensures
        r == strategy_for(target_risk_level),
{
    if target_risk_level <= 2000 {
        OptimizationStrategy::Conservative
    } else if target_risk_level <= 5000 {
        OptimizationStrategy::Balanced
    } else if target_risk_level <= 8000 {
        OptimizationStrategy::Aggressive
    } else {
        OptimizationStrategy::Speculative
    }
}

/// The deposit of `lease` under `scenario`'s market stress.
pub fn apply_stress_factors(lease: &LeaseInstance, scenario: &StressScenario) -> (r: i128)
    ensures
        r == stressed_deposit(lease.security_deposit, scenario.market_stress_bps),
{
    let kept: i128 = 10000 - scenario.market_stress_bps as i128;
    match lease.security_deposit.checked_mul(kept) {
        Some(x) => x / 10000,
        None => lease.security_deposit,
    }
}

/// The concentration of the deposits of `allocation` against `total`, in
/// basis points.
pub fn calculate_concentration_risk(allocation: &[(i128, i128)], total: i128) -> (r: Result<
    i128,
    LeaseError,
>)
    ensures
        r == concentration_outcome(allocation@, total),
{
    let mut hhi: i128 = 0;
    let mut i: usize = 0;
    while i < allocation.len()
        invariant
            0 <= i <= allocation@.len(),
            herfindahl(allocation@.take(i as int), total) == Ok::<int, LeaseError>(hhi as int),
        decreases allocation@.len() - i,
    {
        assert(allocation@.take(i as int + 1).drop_last() =~= allocation@.take(i as int));
        let (principal, _) = allocation[i];
        if total > 0 {
            let scaled = match principal.checked_mul(10000) {
                Some(x) => x,
                None => {
                    proof {
                        lemma_herfindahl_error_persists(allocation@, total, i as int + 1);
                    }
                    return Err(LeaseError::InvalidDeduction);
                },
            };
            let share = scaled / total;
            assert(share == crate::rates::trunc_div(principal * 10000, total as int));
            let squared = match share.checked_mul(share) {
                Some(x) => x,
                None => {
                    proof {
                        lemma_herfindahl_error_persists(allocation@, total, i as int + 1);
                    }
                    return Err(LeaseError::InvalidDeduction);
                },
            };
            hhi = match hhi.checked_add(squared) {
                Some(x) => x,
                None => {
                    proof {
                        lemma_herfindahl_error_persists(allocation@, total, i as int + 1);
                    }
                    return Err(LeaseError::InvalidDeduction);
                },
            };
        }
        i = i + 1;
    }
    assert(allocation@.take(allocation@.len() as int) =~= allocation@);
    let c = hhi / 10000;
    Ok(
        if c <= 10000 {
            c
        } else {
            10000
        },
    )
}

/// An overflow of the Herfindahl index on a prefix stays an overflow.
proof fn lemma_herfindahl_error_persists(allocation: Seq<(i128, i128)>, total: i128, k: int)
    requires
        0 <= k <= allocation.len(),
        herfindahl(allocation.take(k), total) == Err::<int, LeaseError>(LeaseError::InvalidDeduction),
    ensures
        herfindahl(allocation, total) == Err::<int, LeaseError>(LeaseError::InvalidDeduction),
    decreases allocation.len() - k,
{
    if k < allocation.len() {
        assert(allocation.take(k + 1).drop_last() =~= allocation.take(k));
        lemma_herfindahl_error_persists(allocation, total, k + 1);
    } else {
        assert(allocation.take(k) =~= allocation);
    }
}

/// The yields of `allocation`, and each with weight one.
fn split_yields(allocation: &[(i128, i128)]) -> (r: (Vec<i128>, Vec<(i128, i128)>))
    ensures
        r.0@ == yields_of(allocation@),
        r.1@ == unit_weighted(allocation@),
{
    let mut values: Vec<i128> = Vec::new();
    let mut weighted: Vec<(i128, i128)> = Vec::new();
    let mut i: usize = 0;
    while i < allocation.len()
        invariant
            0 <= i <= allocation@.len(),
            values@ == yields_of(allocation@.take(i as int)),
            weighted@ == unit_weighted(allocation@.take(i as int)),
        decreases allocation@.len() - i,
    {
        let (_, y) = allocation[i];
        values.push(y);
        weighted.push((y, 1));
        assert(values@ =~= yields_of(allocation@.take(i as int + 1)));
        assert(weighted@ =~= unit_weighted(allocation@.take(i as int + 1)));
        i = i + 1;
    }
    assert(allocation@.take(allocation@.len() as int) =~= allocation@);
    (values, weighted)
}

/// The risk weights of `allocation` averaged over its deposits.
pub fn calculate_portfolio_risk(allocation: &[(i128, i128)]) -> (r: Result<i128, LeaseError>)
    ensures
        r == portfolio_risk_outcome(allocation@),
{
    let mut total: i128 = 0;
    let mut i: usize = 0;
    while i < allocation.len()
        invariant
            0 <= i <= allocation@.len(),
            deposit_sum(allocation@.take(i as int)) == Some(total as int),
        decreases allocation@.len() - i,
    {
        assert(allocation@.take(i as int + 1).drop_last() =~= allocation@.take(i as int));
        let (principal, _) = allocation[i];
        total = match total.checked_add(principal) {
            Some(t) => t,
            None => {
                proof {
                    lemma_deposit_sum_error_persists(allocation@, i as int + 1);
                }
                return Err(LeaseError::InvalidDeduction);
            },
        };
        i = i + 1;
    }
    assert(allocation@.take(allocation@.len() as int) =~= allocation@);
    if total == 0 {
        return Ok(0);
    }
    let mut weighted: i128 = 0;
    let mut j: usize = 0;
    while j < allocation.len()
        invariant
            0 <= j <= allocation@.len(),
            risk_weight_sum(allocation@.take(j as int)) == Some(weighted as int),
            deposit_sum(allocation@) == Some(total as int),
            total != 0,
        decreases allocation@.len() - j,
    {
        assert(allocation@.take(j as int + 1).drop_last() =~= allocation@.take(j as int));
        let (principal, yield_amount) = allocation[j];
        let factor = yield_amount / 1000;
        assert(factor == crate::rates::trunc_div(yield_amount as int, 1000));
        let w = match principal.checked_mul(factor) {
            Some(x) => x,
            None => 0,
        };
        weighted = match weighted.checked_add(w) {
            Some(x) => x,
            None => {
                proof {
                    lemma_risk_weight_sum_error_persists(allocation@, j as int + 1);
                }
                return Err(LeaseError::InvalidDeduction);
            },
        };
        j = j + 1;
    }
    assert(allocation@.take(allocation@.len() as int) =~= allocation@);
    proof {
        crate::rates::lemma_trunc_div_by_signs(weighted as int, total as int);
    }
    match weighted.checked_div(total) {
        Some(x) => Ok(x),
        None => Err(LeaseError::InvalidDeduction),
    }
}

/// An overflow of the deposit sum on a prefix stays an overflow.
proof fn lemma_deposit_sum_error_persists(allocation: Seq<(i128, i128)>, k: int)
    requires
        0 <= k <= allocation.len(),
        deposit_sum(allocation.take(k)) is None,
    ensures
        deposit_sum(allocation) is None,
    decreases allocation.len() - k,
{
    if k < allocation.len() {
        assert(allocation.take(k + 1).drop_last() =~= allocation.take(k));
        lemma_deposit_sum_error_persists(allocation, k + 1);
    } else {
        assert(allocation.take(k) =~= allocation);
    }
}

/// An overflow of the risk weights on a prefix stays an overflow.
proof fn lemma_risk_weight_sum_error_persists(allocation: Seq<(i128, i128)>, k: int)
    requires
        0 <= k <= allocation.len(),
        risk_weight_sum(allocation.take(k)) is None,
    ensures
        risk_weight_sum(allocation) is None,
    decreases allocation.len() - k,
{
    if k < allocation.len() {
        assert(allocation.take(k + 1).drop_last() =~= allocation.take(k));
        lemma_risk_weight_sum_error_persists(allocation, k + 1);
    } else {
        assert(allocation.take(k) =~= allocation);
    }
}

/// The yield per unit of risk, in basis points.
pub fn calculate_risk_adjusted_return(expected_yield: i128, risk: i128) -> (r: Result<
    i128,
    LeaseError,
>)
    ensures
        r == risk_adjusted_return_outcome(expected_yield, risk),
{
    if risk == 0 {
        return Ok(expected_yield);
    }
    proof {
        crate::rates::lemma_trunc_div_by_signs(expected_yield * 10000, risk as int);
    }
    match expected_yield.checked_mul(10000) {
        None => Err(LeaseError::InvalidDeduction),
        Some(x) => match x.checked_div(risk) {
            Some(q) => Ok(q),
            None => Err(LeaseError::InvalidDeduction),
        },
    }
}

/// The confidence in a yield computed with the record `s` and a history
/// of `history_len` yields.
pub fn calculate_confidence_level(s: &SafeMath128, history_len: Option<usize>) -> (r: i128)
    ensures
        r == confidence_level(
            *s,
            match history_len {
                Some(n) => Some(n as nat),
                None => None,
            },
        ),
{
    let report = s.get_detailed_precision_report();
    let mut confidence: i128 = 8000;
    match report.precision_quality {
        PrecisionQuality::Perfect => confidence = confidence + 1500,
        PrecisionQuality::Excellent => confidence = confidence + 1000,
        PrecisionQuality::Good => confidence = confidence + 500,
        PrecisionQuality::Fair => confidence = confidence - 500,
        PrecisionQuality::Poor => confidence = confidence - 1000,
        PrecisionQuality::Critical => confidence = confidence - 2000,
    }
    match history_len {
        Some(n) => {
            if n >= 10 {
                confidence = confidence + 500;
            } else if n < 3 {
                confidence = confidence - 1000;
            }
        },
        None => {
            confidence = confidence - 1500;
        },
    }
    if confidence < 1000 {
        confidence = 1000;
    }
    if confidence > 10000 {
        confidence = 10000;
    }
    confidence
}

/// The recommendations on a yield.
pub fn generate_yield_recommendations(
    quality: PrecisionQuality,
    confidence: i128,
    expected_loss: i128,
    efficiency: u32,
) -> (r: Vec<String>)
    ensures
        r@.map_values(|t: String| t@) == yield_recommendation_texts(
            quality,
            confidence,
            expected_loss,
            efficiency,
        ),
{
    let mut recommendations: Vec<String> = Vec::new();
    match quality {
        PrecisionQuality::Critical => {
            recommendations.push(
                "CRITICAL: High precision loss detected. Consider using higher precision arithmetic.".to_owned(),
            );
        },
        PrecisionQuality::Poor => {
            recommendations.push(
                "Consider implementing batch processing to reduce cumulative precision loss.".to_owned(),
            );
        },
        _ => {
            recommendations.push("Precision levels are acceptable.".to_owned());
        },
    }
    if confidence < 5000 {
        recommendations.push(
            "Low confidence in yield calculation. Consider additional risk mitigation.".to_owned(),
        );
    }
    if expected_loss > 1000 {
        recommendations.push("High precision loss expected. Monitor calculations closely.".to_owned());
    }
    if efficiency < 70 {
        recommendations.push(
            "Low efficiency detected. Consider optimizing calculation patterns.".to_owned(),
        );
    }
    assert(recommendations@.map_values(|t: String| t@) =~= yield_recommendation_texts(
        quality,
        confidence,
        expected_loss,
        efficiency,
    ));
    recommendations
}

/// The position of the first smallest element, `None` for no elements.
pub fn find_worst_case_scenario(values: &[i128]) -> (r: Option<usize>)
    ensures
        r is None <==> values@.len() == 0,
        r matches Some(i) ==> is_first_minimum(values@, i as int),
{
    if values.len() == 0 {
        return None;
    }
    let mut best: usize = 0;
    let mut i: usize = 1;
    while i < values.len()
        invariant
            1 <= i <= values@.len(),
            best < i,
            forall|j: int| 0 <= j < i ==> values@[best as int] <= #[trigger] values@[j],
            forall|j: int| 0 <= j < best ==> values@[best as int] < #[trigger] values@[j],
        decreases values@.len() - i,
    {
        if values[i] < values[best] {
            best = i;
        }
        i = i + 1;
    }
    Some(best)
}

/// The share of `values` that is positive, in basis points (0 for none).
pub fn calculate_stress_resilience(values: &[i128]) -> (r: i128)
    ensures
        values@.len() == 0 ==> r == 0,
        values@.len() > 0 ==> r == (positive_count(values@) * 10000) as int / (values@.len() as int),
{
    if values.len() == 0 {
        return 0;
    }
    let mut surviving: usize = 0;
    let mut i: usize = 0;
    while i < values.len()
        invariant
            0 <= i <= values@.len(),
            surviving == positive_count(values@.take(i as int)),
            surviving <= i,
        decreases values@.len() - i,
    {
        assert(values@.take(i as int + 1).drop_last() =~= values@.take(i as int));
        if values[i] > 0 {
            surviving = surviving + 1;
        }
        i = i + 1;
    }
    assert(values@.take(values@.len() as int) =~= values@);
    assert(surviving * 10000 <= values@.len() * 10000) by (nonlinear_arith)
        requires
            surviving <= values@.len(),
    ;
    (surviving as i128 * 10000) / values.len() as i128
}

/// Manager of risk-aware yields.
#[derive(Copy, Clone, Debug, Eq, PartialEq, Structural)]
pub struct AdvancedYieldManager {
    /// Precision record of the risk adjustments.
    pub safe_math: SafeMath128,
    pub yield_generator: EnhancedYieldGenerator,
    pub risk_metrics: RiskMetrics,
    pub portfolio_metrics: PortfolioMetrics,
}

/// The yields of a history, as a sequence.
pub open spec fn history_view(history: Option<Vec<i128>>) -> Option<Seq<i128>> {
    match history {
        Some(v) => Some(v@),
        None => None,
    }
}

/// The length of a history.
pub open spec fn history_len(history: Option<Seq<i128>>) -> Option<nat> {
    match history {
        Some(ys) => Some(ys.len()),
        None => None,
    }
}

/// `base` less `cut`, or `InvalidDeduction` where that does not fit.
pub open spec fn reduced(base: i128, cut: i128) -> Result<i128, LeaseError> {
    if crate::rent_escalation::fits_i128(base - cut) {
        Ok((base - cut) as i128)
    } else {
        Err(LeaseError::InvalidDeduction)
    }
}

/// `amount` less its `bps` share rounded down, with the record after that
/// share was computed.
pub open spec fn cut_by_bps(s: SafeMath128, amount: i128, bps: u32) -> (
    Result<i128, LeaseError>,
    SafeMath128,
) {
    let (r, s1) = crate::safe_math_128::bps_floor_outcome(s, amount, bps);
    match r {
        Err(_) => (Err(LeaseError::InvalidDeduction), s1),
        Ok(cut) => (reduced(amount, cut), s1),
    }
}

/// The risk-adjusted yield and record: a history of at least two yields
/// takes off its volatility (at most 50%) in basis points, and market data
/// its correlation risk (at most 30%).
pub open spec fn risk_adjustment_outcome(
    s: SafeMath128,
    base: i128,
    history: Option<Seq<i128>>,
    market: Option<MarketData>,
) -> (Result<i128, LeaseError>, SafeMath128) {
    let (r1, s1) = match history {
        Some(ys) => if ys.len() >= 2 {
            match crate::safe_math_128::volatility_outcome(ys) {
                Err(_) => (Err(LeaseError::InvalidDeduction), s),
                Ok(v) => cut_by_bps(
                    s,
                    base,
                    (if v <= 5000 {
                        v
                    } else {
                        5000
                    }) as u32,
                ),
            }
        } else {
            (Ok(base), s)
        },
        None => (Ok(base), s),
    };
    match r1 {
        Err(e) => (Err(e), s1),
        Ok(a) => match market {
            None => (Ok(a), s1),
            Some(m) => cut_by_bps(
                s1,
                a,
                (if m.correlation_risk <= 3000 {
                    m.correlation_risk
                } else {
                    3000
                }) as u32,
            ),
        },
    }
}

/// What a risk-aware yield calculation for a deposit answers, as (yield,
/// risk-adjusted yield, confidence, expected precision loss), and the
/// manager after it. The yield is that of the deposit locked for 30 days
/// of a year at its size tier.
pub open spec fn advanced_outcome(
    m: AdvancedYieldManager,
    deposit: i128,
    history: Option<Seq<i128>>,
    market: Option<MarketData>,
) -> (Result<(i128, i128, i128, i128), LeaseError>, AdvancedYieldManager) {
    let (r1, g1) = crate::enhanced_yield_generation::complex_outcome(
        m.yield_generator,
        deposit,
        ELAPSED_LOCK_SECONDS,
        TOTAL_LOCK_SECONDS,
        deposit_tier(deposit),
    );
    let m1 = AdvancedYieldManager { yield_generator: g1, ..m };
    match r1 {
        Err(_) => (Err(LeaseError::InvalidDeduction), m1),
        Ok(base) => {
            let (r2, s2) = risk_adjustment_outcome(m.safe_math, base, history, market);
            let m2 = AdvancedYieldManager { safe_math: s2, ..m1 };
            match r2 {
                Err(e) => (Err(e), m2),
                Ok(adjusted) => (
                    Ok(
                        (
                            base,
                            adjusted,
                            confidence_level(s2, history_len(history)),
                            s2.cumulative_precision_loss,
                        ),
                    ),
                    m2,
                ),
            }
        },
    }
}

/// The recommendations owed with a yield computed with the record `s`.
pub open spec fn advanced_recommendations(s: SafeMath128, confidence: i128) -> Seq<Seq<char>> {
    yield_recommendation_texts(
        crate::safe_math_128::quality_of(s),
        confidence,
        s.cumulative_precision_loss,
        crate::safe_math_128::efficiency_score_of(s),
    )
}

/// Room in the counters for `n` more calculations, each with up to three
/// tracked operations of the generator and two of the manager.
pub open spec fn has_room(m: AdvancedYieldManager, n: int) -> bool {
    &&& m.yield_generator.safe_math.operation_count + 3 * n <= u64::MAX
    &&& m.yield_generator.metrics.calculation_count + n < u64::MAX
    &&& m.safe_math.operation_count + 2 * n <= u64::MAX
}

/// A calculation without history or market data leaves the manager's own
/// record and figures alone and uses up at most one calculation's room.
pub proof fn lemma_plain_calculation_room(m: AdvancedYieldManager, deposit: i128, n: int)
    requires
        n >= 1,
        has_room(m, n),
    ensures
        ({
            let m2 = advanced_outcome(m, deposit, None, None).1;
            &&& has_room(m2, n - 1)
            &&& m2.safe_math == m.safe_math
            &&& m2.risk_metrics == m.risk_metrics
            &&& m2.portfolio_metrics == m.portfolio_metrics
        }),
{
    crate::enhanced_yield_generation::lemma_complex_counts(
        m.yield_generator,
        deposit,
        ELAPSED_LOCK_SECONDS,
        TOTAL_LOCK_SECONDS,
        deposit_tier(deposit),
    );
}

impl AdvancedYieldManager {
    /// A manager with fresh records, the default yield configuration and
    /// zero figures.
    pub fn new() -> (r: Self)
        ensures
            r.safe_math == (SafeMath128 {
                cumulative_precision_loss: 0,
                operation_count: 0,
                max_single_operation_loss: 0,
            }),
            r.yield_generator.safe_math == r.safe_math,
            r.yield_generator.config == crate::enhanced_yield_generation::default_config(),
            r.yield_generator.metrics == crate::enhanced_yield_generation::initial_metrics(),
            r.risk_metrics == zero_risk_metrics(),
            r.portfolio_metrics == zero_portfolio_metrics(),
    {
        AdvancedYieldManager {
            safe_math: SafeMath128::new(),
            yield_generator: EnhancedYieldGenerator::new(),
            risk_metrics: RiskMetrics::default(),
            portfolio_metrics: PortfolioMetrics::default(),
        }
    }

    fn cut(&mut self, amount: i128, bps: u32) -> (r: Result<i128, LeaseError>)
        requires
            old(self).safe_math.operation_count < u64::MAX,
        ensures
            (r, final(self).safe_math) == cut_by_bps(old(self).safe_math, amount, bps),
            final(self).yield_generator == old(self).yield_generator,
            final(self).risk_metrics == old(self).risk_metrics,
            final(self).portfolio_metrics == old(self).portfolio_metrics,
    {
        match self.safe_math.safe_bps_division_floor(amount, bps) {
            Err(_) => Err(LeaseError::InvalidDeduction),
            Ok(c) => match amount.checked_sub(c) {
                Some(x) => Ok(x),
                None => Err(LeaseError::InvalidDeduction),
            },
        }
    }

    /// Takes the volatility of a history of at least two yields (at most
    /// 50%) and the market's correlation risk (at most 30%) off `base_yield`.
    pub fn apply_risk_adjustments(
        &mut self,
        base_yield: i128,
        historical_yields: &Option<Vec<i128>>,
        market_data: Option<MarketData>,
    ) -> (r: Result<i128, LeaseError>)
        requires
            old(self).safe_math.operation_count + 2 <= u64::MAX,
        ensures
            (r, final(self).safe_math) == risk_adjustment_outcome(
                old(self).safe_math,
                base_yield,
                history_view(*historical_yields),
                market_data,
            ),
            final(self).yield_generator == old(self).yield_generator,
            final(self).risk_metrics == old(self).risk_metrics,
            final(self).portfolio_metrics == old(self).portfolio_metrics,
    {
        let mut adjusted_yield = base_yield;
        match historical_yields {
            Some(yields) => {
                if yields.len() >= 2 {
                    let volatility = match self.safe_math.safe_volatility_calculation(yields.as_slice()) {
                        Ok(v) => v,
                        Err(_) => {
                            return Err(LeaseError::InvalidDeduction);
                        },
                    };
                    let capped = if volatility <= 5000 {
                        volatility
                    } else {
                        5000
                    };
                    adjusted_yield = match self.cut(adjusted_yield, capped as u32) {
                        Ok(a) => a,
                        Err(e) => {
                            return Err(e);
                        },
                    };
                }
            },
            None => {},
        }
        match market_data {
            Some(market) => {
                let capped = if market.correlation_risk <= 3000 {
                    market.correlation_risk
                } else {
                    3000
                };
                self.cut(adjusted_yield, capped as u32)
            },
            None => Ok(adjusted_yield),
        }
    }

    /// The risk-aware yield of a deposit of `security_deposit`.
    fn advanced_yield_of(
        &mut self,
        security_deposit: i128,
        start_date: u64,
        historical_yields: &Option<Vec<i128>>,
        market_data: Option<MarketData>,
    ) -> (r: Result<AdvancedYieldResult, LeaseError>)
        requires
            has_room(*old(self), 1),
        ensures
            ({
                let (o, m) = advanced_outcome(
                    *old(self),
                    security_deposit,
                    history_view(*historical_yields),
                    market_data,
                );
                &&& *final(self) == m
                &&& match o {
                    Err(e) => r == Err::<AdvancedYieldResult, LeaseError>(e),
                    Ok(t) => r matches Ok(res) && res.yield_amount == t.0 && res.risk_adjusted_yield
                        == t.1 && res.confidence_level == t.2 && res.expected_precision_loss == t.3
                        && res.recommendations@.map_values(|x: String| x@)
                        == advanced_recommendations(m.safe_math, t.2),
                }
            }),
    {
        let base_yield = match self.yield_generator.calculate_complex_yield(
            security_deposit,
            ELAPSED_LOCK_SECONDS,
            TOTAL_LOCK_SECONDS,
            get_deposit_tier(security_deposit),
            start_date,
        ) {
            Ok(y) => y,
            Err(_) => {
                return Err(LeaseError::InvalidDeduction);
            },
        };
        let risk_adjusted_yield = match self.apply_risk_adjustments(
            base_yield,
            historical_yields,
            market_data,
        ) {
            Ok(y) => y,
            Err(e) => {
                return Err(e);
            },
        };
        let history_len = match historical_yields {
            Some(v) => Some(v.len()),
            None => None,
        };
        let confidence_level = calculate_confidence_level(&self.safe_math, history_len);
        let report = self.safe_math.get_detailed_precision_report();
        let expected_precision_loss = report.cumulative_precision_loss;
        let recommendations = generate_yield_recommendations(
            report.precision_quality,
            confidence_level,
            expected_precision_loss,
            report.efficiency_score,
        );
        Ok(
            AdvancedYieldResult {
                yield_amount: base_yield,
                risk_adjusted_yield,
                confidence_level,
                expected_precision_loss,
                recommendations,
            },
        )
    }

    /// The risk-aware yield of `lease`'s security deposit, locked for 30
    /// days of a year, with its confidence level and recommendations.
    pub fn calculate_advanced_yield(
        &mut self,
        lease: &LeaseInstance,
        historical_yields: Option<Vec<i128>>,
        market_data: Option<MarketData>,
    ) -> (r: Result<AdvancedYieldResult, LeaseError>)
        requires
            has_room(*old(self), 1),
        ensures
            ({
                let (o, m) = advanced_outcome(
                    *old(self),
                    lease.security_deposit,
                    history_view(historical_yields),
                    market_data,
                );
                &&& *final(self) == m
                &&& match o {
                    Err(e) => r == Err::<AdvancedYieldResult, LeaseError>(e),
                    Ok(t) => r matches Ok(res) && res.yield_amount == t.0 && res.risk_adjusted_yield
                        == t.1 && res.confidence_level == t.2 && res.expected_precision_loss == t.3
                        && res.recommendations@.map_values(|x: String| x@)
                        == advanced_recommendations(m.safe_math, t.2),
                }
            }),
    {
        self.advanced_yield_of(lease.security_deposit, lease.start_date, &historical_yields, market_data)
    }

    /// The diversity of the yields of `allocation`, in basis points.
    pub fn calculate_diversity_score(&self, allocation: &[(i128, i128)]) -> (r: Result<
        i128,
        LeaseError,
    >)
        ensures
            r == diversity_outcome(allocation@),
    {
        if allocation.len() <= 1 {
            return Ok(0);
        }
        let (values, weighted) = split_yields(allocation);
        let mut math = self.safe_math;
        let mean_yield = match math.safe_weighted_average(weighted.as_slice()) {
            Ok(m) => m,
            Err(_) => {
                return Err(LeaseError::InvalidDeduction);
            },
        };
        let volatility = match math.safe_volatility_calculation(values.as_slice()) {
            Ok(v) => v,
            Err(_) => {
                return Err(LeaseError::InvalidDeduction);
            },
        };
        let cv_ratio: i128 = if mean_yield > 0 {
            match volatility.checked_mul(10000) {
                Some(x) => x / mean_yield,
                None => {
                    return Err(LeaseError::InvalidDeduction);
                },
            }
        } else {
            10000
        };
        let capped = if cv_ratio <= 10000 {
            cv_ratio
        } else {
            10000
        };
        match 10000i128.checked_sub(capped) {
            Some(d) => Ok(d),
            None => Err(LeaseError::InvalidDeduction),
        }
    }

    /// Sets the portfolio figures of `allocation`, whose deposits add up to
    /// `total`: the deposits weighted by yield, the diversity and the
    /// concentration. On failure the figures stay as they were.
    pub fn update_portfolio_metrics(&mut self, allocation: &[(i128, i128)], total: i128) -> (r: Result<
        (),
        LeaseError,
    >)
        ensures
            match portfolio_metrics_outcome(allocation@, total) {
                Err(e) => r == Err::<(), LeaseError>(e) && *final(self) == *old(self),
                Ok(pm) => r is Ok && *final(self) == (AdvancedYieldManager {
                    portfolio_metrics: pm,
                    ..*old(self)
                }),
            },
    {
        let mut math = self.safe_math;
        let weighted_yield = match math.safe_weighted_average(allocation) {
            Ok(w) => w,
            Err(_) => {
                return Err(LeaseError::InvalidDeduction);
            },
        };
        let diversity_score = match self.calculate_diversity_score(allocation) {
            Ok(d) => d,
            Err(e) => {
                return Err(e);
            },
        };
        let concentration_risk = match calculate_concentration_risk(allocation, total) {
            Ok(c) => c,
            Err(e) => {
                return Err(e);
            },
        };
        self.portfolio_metrics = PortfolioMetrics {
            total_value: total,
            weighted_yield_rate: weighted_yield,
            diversity_score,
            concentration_risk,
            efficiency_score: 8000,
        };
        Ok(())
    }

    /// The risk-aware yield of every lease, the portfolio figures of the
    /// resulting allocation and what is expected of it. The first failure
    /// ends the optimization; the strategy for `target_risk_level` keeps
    /// the current allocation.
    pub fn optimize_portfolio_yield(&mut self, leases: &[LeaseInstance], target_risk_level: u32) -> (r:
        Result<PortfolioOptimizationResult, LeaseError>)
        requires
            has_room(*old(self), leases@.len() as int),
        ensures
            ({
                let (fr, m1) = portfolio_fold(*old(self), deposits_of(leases@));
                match fr {
                    Err(e) => r == Err::<PortfolioOptimizationResult, LeaseError>(e) && *final(self)
                        == m1,
                    Ok((pairs, total)) => match portfolio_metrics_outcome(pairs, total as i128) {
                        Err(e) => r == Err::<PortfolioOptimizationResult, LeaseError>(e)
                            && *final(self) == m1,
                        Ok(pm) => {
                            &&& *final(self) == (AdvancedYieldManager { portfolio_metrics: pm, ..m1 })
                            &&& match expected_performance_outcome(pairs) {
                                Err(e) => r == Err::<PortfolioOptimizationResult, LeaseError>(e),
                                Ok(ep) => r matches Ok(res) && res.current_allocation@ == pairs
                                    && res.optimized_allocation@ == pairs
                                    && res.expected_performance == ep && res.risk_metrics
                                    == m1.risk_metrics && res.portfolio_metrics == pm,
                            }
                        },
                    },
                }
            }),
    {
        let mut individual_yields: Vec<(i128, i128)> = Vec::new();
        let mut total_principal: i128 = 0;
        let mut i: usize = 0;
        while i < leases.len()
            invariant
                0 <= i <= leases@.len(),
                ({
                    let (fr, m1) = portfolio_fold(
                        *old(self),
                        deposits_of(leases@).take(i as int),
                    );
                    &&& fr == Ok::<(Seq<(i128, i128)>, int), LeaseError>(
                        (individual_yields@, total_principal as int),
                    )
                    &&& *self == m1
                }),
                has_room(*self, leases@.len() - i),
            decreases leases@.len() - i,
        {
            let ghost before = *self;
            proof {
                assert(deposits_of(leases@).take(i as int + 1).drop_last() =~= deposits_of(
                    leases@,
                ).take(i as int));
                assert(deposits_of(leases@).take(i as int + 1).last() == leases@[i as int].security_deposit);
                lemma_plain_calculation_room(before, leases@[i as int].security_deposit, leases@.len() - i);
            }
            let yield_result = match self.advanced_yield_of(
                leases[i].security_deposit,
                leases[i].start_date,
                &None,
                None,
            ) {
                Ok(y) => y,
                Err(e) => {
                    proof {
                        lemma_portfolio_error_persists(*old(self), deposits_of(leases@), i as int + 1);
                        assert(deposits_of(leases@).take(leases@.len() as int) =~= deposits_of(leases@));
                    }
                    return Err(e);
                },
            };
            let deposit = leases[i].security_deposit;
            individual_yields.push((deposit, yield_result.risk_adjusted_yield));
            total_principal = match total_principal.checked_add(deposit) {
                Some(t) => t,
                None => {
                    proof {
                        lemma_portfolio_error_persists(*old(self), deposits_of(leases@), i as int + 1);
                        assert(deposits_of(leases@).take(leases@.len() as int) =~= deposits_of(leases@));
                    }
                    return Err(LeaseError::InvalidDeduction);
                },
            };
            i = i + 1;
        }
        assert(deposits_of(leases@).take(leases@.len() as int) =~= deposits_of(leases@));
        match self.update_portfolio_metrics(individual_yields.as_slice(), total_principal) {
            Ok(()) => {},
            Err(e) => {
                return Err(e);
            },
        }
        let strategy = determine_optimization_strategy(target_risk_level);
        let optimized_allocation = optimize_allocation(individual_yields.as_slice(), strategy);
        let expected_performance = match calculate_expected_portfolio_performance(
            optimized_allocation.as_slice(),
        ) {
            Ok(p) => p,
            Err(e) => {
                return Err(e);
            },
        };
        Ok(
            PortfolioOptimizationResult {
                current_allocation: individual_yields,
                optimized_allocation,
                expected_performance,
                risk_metrics: self.risk_metrics,
                portfolio_metrics: self.portfolio_metrics,
            },
        )
    }
}

/// The security deposits of `leases`.
pub open spec fn deposits_of(leases: Seq<LeaseInstance>) -> Seq<i128> {
    leases.map_values(|l: LeaseInstance| l.security_deposit)
}

/// The allocation built from the risk-aware yields of `deposits`, in
/// order, with the sum of the deposits, and the manager after computing
/// them; the first failure ends it.
pub open spec fn portfolio_fold(m: AdvancedYieldManager, deposits: Seq<i128>) -> (
    Result<(Seq<(i128, i128)>, int), LeaseError>,
    AdvancedYieldManager,
)
    decreases deposits.len(),
{
    if deposits.len() == 0 {
        (Ok((Seq::empty(), 0)), m)
    } else {
        let (r, m1) = portfolio_fold(m, deposits.drop_last());
        match r {
            Err(e) => (Err(e), m1),
            Ok((pairs, total)) => {
                let d = deposits.last();
                let (r2, m2) = advanced_outcome(m1, d, None, None);
                match r2 {
                    Err(e) => (Err(e), m2),
                    Ok(t) => if crate::rent_escalation::fits_i128(total + d) {
                        (Ok((pairs.push((d, t.1)), total + d)), m2)
                    } else {
                        (Err(LeaseError::InvalidDeduction), m2)
                    },
                }
            },
        }
    }
}

/// A failure on a prefix ends the whole fold with that failure and state.
proof fn lemma_portfolio_error_persists(m: AdvancedYieldManager, deposits: Seq<i128>, k: int)
    requires
        0 <= k <= deposits.len(),
        portfolio_fold(m, deposits.take(k)).0 is Err,
    ensures
        portfolio_fold(m, deposits) == portfolio_fold(m, deposits.take(k)),
    decreases deposits.len() - k,
{
    if k < deposits.len() {
        assert(deposits.take(k + 1).drop_last() =~= deposits.take(k));
        lemma_portfolio_error_persists(m, deposits, k + 1);
    } else {
        assert(deposits.take(k) =~= deposits);
    }
}

/// The portfolio figures of `allocation`, or the first failure.
pub open spec fn portfolio_metrics_outcome(allocation: Seq<(i128, i128)>, total: i128) -> Result<
    PortfolioMetrics,
    LeaseError,
> {
    match crate::safe_math_128::weighted_average_outcome(allocation) {
        Err(_) => Err(LeaseError::InvalidDeduction),
        Ok(w) => match diversity_outcome(allocation) {
            Err(e) => Err(e),
            Ok(d) => match concentration_outcome(allocation, total) {
                Err(e) => Err(e),
                Ok(c) => Ok(
                    PortfolioMetrics {
                        total_value: total,
                        weighted_yield_rate: w,
                        diversity_score: d,
                        concentration_risk: c,
                        efficiency_score: 8000,
                    },
                ),
            },
        },
    }
}

/// What is expected of `allocation`: its total yield, its risk and its
/// risk-adjusted return.
pub open spec fn expected_performance_outcome(allocation: Seq<(i128, i128)>) -> Result<
    ExpectedPerformance,
    LeaseError,
> {
    match crate::safe_math_128::checked_sum(yields_of(allocation)) {
        None => Err(LeaseError::InvalidDeduction),
        Some(y) => match portfolio_risk_outcome(allocation) {
            Err(e) => Err(e),
            Ok(risk) => match risk_adjusted_return_outcome(y as i128, risk) {
                Err(e) => Err(e),
                Ok(rar) => Ok(
                    ExpectedPerformance {
                        expected_yield: y as i128,
                        expected_risk: risk,
                        risk_adjusted_return: rar,
                    },
                ),
            },
        },
    }
}

/// The allocation for a strategy: every strategy keeps the current one.
pub fn optimize_allocation(current_allocation: &[(i128, i128)], strategy: OptimizationStrategy) -> (r:
    Vec<(i128, i128)>)
    ensures
        r@ == current_allocation@,
{
    let mut out: Vec<(i128, i128)> = Vec::new();
    let mut i: usize = 0;
    while i < current_allocation.len()
        invariant
            0 <= i <= current_allocation@.len(),
            out@ == current_allocation@.take(i as int),
        decreases current_allocation@.len() - i,
    {
        out.push(current_allocation[i]);
        assert(out@ =~= current_allocation@.take(i as int + 1));
        i = i + 1;
    }
    assert(current_allocation@.take(current_allocation@.len() as int) =~= current_allocation@);
    out
}

/// The total yield, risk and risk-adjusted return of `allocation`.
pub fn calculate_expected_portfolio_performance(allocation: &[(i128, i128)]) -> (r: Result<
    ExpectedPerformance,
    LeaseError,
>)
    ensures
        r == expected_performance_outcome(allocation@),
{
    let mut total_expected_yield: i128 = 0;
    let mut i: usize = 0;
    while i < allocation.len()
        invariant
            0 <= i <= allocation@.len(),
            crate::safe_math_128::checked_sum(yields_of(allocation@.take(i as int))) == Some(
                total_expected_yield as int,
            ),
        decreases allocation@.len() - i,
    {
        assert(yields_of(allocation@.take(i as int + 1)).drop_last() =~= yields_of(
            allocation@.take(i as int),
        ));
        let (_, y) = allocation[i];
        total_expected_yield = match total_expected_yield.checked_add(y) {
            Some(t) => t,
            None => {
                proof {
                    lemma_yield_sum_error_persists(allocation@, i as int + 1);
                }
                return Err(LeaseError::InvalidDeduction);
            },
        };
        i = i + 1;
    }
    assert(allocation@.take(allocation@.len() as int) =~= allocation@);
    let weighted_risk = match calculate_portfolio_risk(allocation) {
        Ok(r) => r,
        Err(e) => {
            return Err(e);
        },
    };
    let risk_adjusted_return = match calculate_risk_adjusted_return(total_expected_yield, weighted_risk) {
        Ok(r) => r,
        Err(e) => {
            return Err(e);
        },
    };
    Ok(
        ExpectedPerformance {
            expected_yield: total_expected_yield,
            expected_risk: weighted_risk,
            risk_adjusted_return,
        },
    )
}

/// An overflow of the yield sum on a prefix stays an overflow.
proof fn lemma_yield_sum_error_persists(allocation: Seq<(i128, i128)>, k: int)
    requires
        0 <= k <= allocation.len(),
        crate::safe_math_128::checked_sum(yields_of(allocation.take(k))) is None,
    ensures
        crate::safe_math_128::checked_sum(yields_of(allocation)) is None,
    decreases allocation.len() - k,
{
    if k < allocation.len() {
        assert(yields_of(allocation.take(k + 1)).drop_last() =~= yields_of(allocation.take(k)));
        lemma_yield_sum_error_persists(allocation, k + 1);
    } else {
        assert(allocation.take(k) =~= allocation);
    }
}

/// The market stress of each scenario.
pub open spec fn stresses_of(scenarios: Seq<StressScenario>) -> Seq<u32> {
    scenarios.map_values(|sc: StressScenario| sc.market_stress_bps)
}

/// For each stress, in order: the risk-aware yield of the stressed deposit
/// and its change, in basis points, from the yield of `base` computed
/// right after it; with the manager after all of them. The first failure
/// ends it.
pub open spec fn stress_fold(m: AdvancedYieldManager, base: i128, stresses: Seq<u32>) -> (
    Result<Seq<((i128, i128, i128, i128), i128)>, LeaseError>,
    AdvancedYieldManager,
)
    decreases stresses.len(),
{
    if stresses.len() == 0 {
        (Ok(Seq::empty()), m)
    } else {
        let (r, m1) = stress_fold(m, base, stresses.drop_last());
        match r {
            Err(e) => (Err(e), m1),
            Ok(rs) => {
                let (r2, m2) = advanced_outcome(
                    m1,
                    stressed_deposit(base, stresses.last()),
                    None,
                    None,
                );
                match r2 {
                    Err(e) => (Err(e), m2),
                    Ok(st) => {
                        let (r3, m3) = advanced_outcome(m2, base, None, None);
                        match r3 {
                            Err(e) => (Err(e), m3),
                            Ok(bl) => match crate::safe_math_128::percentage_change_outcome(
                                bl.1,
                                st.1,
                            ) {
                                Err(_) => (Err(LeaseError::InvalidDeduction), m3),
                                Ok(impact) => (Ok(rs.push((st, impact))), m3),
                            },
                        }
                    },
                }
            },
        }
    }
}

/// A failure on a prefix ends the whole stress test with that failure and
/// state.
proof fn lemma_stress_error_persists(m: AdvancedYieldManager, base: i128, stresses: Seq<u32>, k: int)
    requires
        0 <= k <= stresses.len(),
        stress_fold(m, base, stresses.take(k)).0 is Err,
    ensures
        stress_fold(m, base, stresses) == stress_fold(m, base, stresses.take(k)),
    decreases stresses.len() - k,
{
    if k < stresses.len() {
        assert(stresses.take(k + 1).drop_last() =~= stresses.take(k));
        lemma_stress_error_persists(m, base, stresses, k + 1);
    } else {
        assert(stresses.take(k) =~= stresses);
    }
}

/// A stress test leaves the manager's own record and figures alone.
proof fn lemma_stress_keeps_record(m: AdvancedYieldManager, base: i128, stresses: Seq<u32>)
    requires
        has_room(m, 2 * (stresses.len() as int)),
    ensures
        ({
            let m2 = stress_fold(m, base, stresses).1;
            &&& m2.safe_math == m.safe_math
            &&& m2.risk_metrics == m.risk_metrics
            &&& m2.portfolio_metrics == m.portfolio_metrics
            &&& has_room(m2, 0)
        }),
    decreases stresses.len(),
{
    if stresses.len() > 0 {
        let prev = stresses.drop_last();
        lemma_stress_keeps_record(m, base, prev);
        let m1 = stress_fold(m, base, prev).1;
        lemma_stress_room(m, base, prev);
        lemma_plain_calculation_room(m1, stressed_deposit(base, stresses.last()), 2);
        let m2 = advanced_outcome(m1, stressed_deposit(base, stresses.last()), None, None).1;
        lemma_plain_calculation_room(m2, base, 1);
    }
}

/// After a stress test of some scenarios, the room for two calculations
/// per scenario is used up at most.
proof fn lemma_stress_room(m: AdvancedYieldManager, base: i128, stresses: Seq<u32>)
    requires
        has_room(m, 2 * (stresses.len() as int)),
    ensures
        has_room(stress_fold(m, base, stresses).1, 0),
        forall|n: int| n >= 0 && has_room(m, 2 * (stresses.len() as int) + n) ==> has_room(
            #[trigger] stress_fold(m, base, stresses).1,
            n,
        ),
    decreases stresses.len(),
{
    if stresses.len() > 0 {
        let prev = stresses.drop_last();
        lemma_stress_room(m, base, prev);
        let m1 = stress_fold(m, base, prev).1;
        assert forall|n: int| n >= 0 && has_room(m, 2 * (stresses.len() as int) + n) implies has_room(
            stress_fold(m, base, stresses).1,
            n,
        ) by {
            assert(has_room(m, 2 * prev.len() + (n + 2)));
            lemma_plain_calculation_room(m1, stressed_deposit(base, stresses.last()), n + 2);
            let m2 = advanced_outcome(m1, stressed_deposit(base, stresses.last()), None, None).1;
            lemma_plain_calculation_room(m2, base, n + 1);
        }
        assert(has_room(m, 2 * (stresses.len() as int) + 0));
    }
}

/// A copy of a scenario.
fn copy_scenario(scenario: &StressScenario) -> (r: StressScenario)
    ensures
        r.name@ == scenario.name@,
        r.market_stress_bps == scenario.market_stress_bps,
        r.liquidity_stress_bps == scenario.liquidity_stress_bps,
        r.duration_factor == scenario.duration_factor,
{
    StressScenario {
        name: scenario.name.clone(),
        market_stress_bps: scenario.market_stress_bps,
        liquidity_stress_bps: scenario.liquidity_stress_bps,
        duration_factor: scenario.duration_factor,
    }
}

/// The risk-adjusted yields of stress results.
pub open spec fn stressed_yields(results: Seq<StressScenarioResult>) -> Seq<i128> {
    results.map_values(|x: StressScenarioResult| x.stressed_yield.risk_adjusted_yield)
}

/// `res` reports the scenario `sc` with the outcome `o` and the
/// recommendations owed with the record `s`.
pub open spec fn reports_scenario(
    res: StressScenarioResult,
    sc: StressScenario,
    o: ((i128, i128, i128, i128), i128),
    s: SafeMath128,
) -> bool {
    &&& res.scenario.name@ == sc.name@
    &&& res.scenario.market_stress_bps == sc.market_stress_bps
    &&& res.scenario.liquidity_stress_bps == sc.liquidity_stress_bps
    &&& res.scenario.duration_factor == sc.duration_factor
    &&& res.stressed_yield.yield_amount == o.0.0
    &&& res.stressed_yield.risk_adjusted_yield == o.0.1
    &&& res.stressed_yield.confidence_level == o.0.2
    &&& res.stressed_yield.expected_precision_loss == o.0.3
    &&& res.stressed_yield.recommendations@.map_values(|x: String| x@) == advanced_recommendations(
        s,
        o.0.2,
    )
    &&& res.yield_impact_bps == o.1
    &&& res.survivable == (o.0.1 > 0)
}

impl AdvancedYieldManager {
    /// The risk-aware yield of `base_lease`'s deposit under each scenario's
    /// market stress, with its change from the unstressed yield, the worst
    /// scenario and the share of scenarios that leave a positive yield. The
    /// first failure ends the test.
    pub fn stress_test_yield_scenarios(&mut self, base_lease: &LeaseInstance, stress_scenarios: &[StressScenario]) -> (r:
        Result<StressTestResults, LeaseError>)
        requires
            has_room(*old(self), 2 * (stress_scenarios@.len() as int)),
        ensures
            ({
                let (fr, m1) = stress_fold(
                    *old(self),
                    base_lease.security_deposit,
                    stresses_of(stress_scenarios@),
                );
                &&& *final(self) == m1
                &&& match fr {
                    Err(e) => r == Err::<StressTestResults, LeaseError>(e),
                    Ok(rs) => r matches Ok(res) && res.scenario_results@.len() == rs.len() && (
                    forall|i: int|
                        0 <= i < rs.len() ==> reports_scenario(
                            #[trigger] res.scenario_results@[i],
                            stress_scenarios@[i],
                            rs[i],
                            old(self).safe_math,
                        )) && (res.worst_case_scenario is None <==> rs.len() == 0) && (
                    res.worst_case_scenario matches Some(w) ==> is_first_minimum(
                        stressed_yields(res.scenario_results@),
                        w as int,
                    )) && (rs.len() == 0 ==> res.stress_resilience_score == 0) && (rs.len() > 0
                        ==> res.stress_resilience_score == (positive_count(
                        stressed_yields(res.scenario_results@),
                    ) * 10000) as int / (rs.len() as int)),
                }
            }),
    {
        let ghost stresses = stresses_of(stress_scenarios@);
        let ghost base = base_lease.security_deposit;
        let mut scenario_results: Vec<StressScenarioResult> = Vec::new();
        let mut yields: Vec<i128> = Vec::new();
        let mut i: usize = 0;
        while i < stress_scenarios.len()
            invariant
                0 <= i <= stress_scenarios@.len(),
                stresses == stresses_of(stress_scenarios@),
                base == base_lease.security_deposit,
                has_room(*old(self), 2 * (stress_scenarios@.len() as int)),
                ({
                    let (fr, m1) = stress_fold(*old(self), base, stresses.take(i as int));
                    &&& fr matches Ok(rs) && rs.len() == i && (forall|j: int|
                        0 <= j < i ==> reports_scenario(
                            #[trigger] scenario_results@[j],
                            stress_scenarios@[j],
                            rs[j],
                            old(self).safe_math,
                        ))
                    &&& *self == m1
                }),
                scenario_results@.len() == i,
                yields@ == stressed_yields(scenario_results@),
            decreases stress_scenarios@.len() - i,
        {
            let ghost before = *self;
            let ghost prefix = stresses.take(i as int);
            proof {
                assert(stresses.take(i as int + 1).drop_last() =~= prefix);
                assert(stresses.take(i as int + 1).last() == stress_scenarios@[i as int].market_stress_bps);
                assert(has_room(*old(self), 2 * prefix.len() + 2 * (stress_scenarios@.len() - i)));
                lemma_stress_room(*old(self), base, prefix);
                lemma_stress_keeps_record(*old(self), base, prefix);
                assert(has_room(before, 2 * (stress_scenarios@.len() - i)));
                lemma_plain_calculation_room(
                    before,
                    stressed_deposit(base, stress_scenarios@[i as int].market_stress_bps),
                    2,
                );
            }
            let stressed = apply_stress_factors(base_lease, &stress_scenarios[i]);
            let yield_result = match self.advanced_yield_of(stressed, base_lease.start_date, &None, None) {
                Ok(y) => y,
                Err(e) => {
                    proof {
                        lemma_stress_error_persists(*old(self), base, stresses, i as int + 1);
                        assert(stresses.take(stresses.len() as int) =~= stresses);
                    }
                    return Err(e);
                },
            };
            let ghost middle = *self;
            proof {
                lemma_plain_calculation_room(middle, base, 1);
            }
            let baseline_yield = match self.advanced_yield_of(
                base_lease.security_deposit,
                base_lease.start_date,
                &None,
                None,
            ) {
                Ok(y) => y,
                Err(e) => {
                    proof {
                        lemma_stress_error_persists(*old(self), base, stresses, i as int + 1);
                        assert(stresses.take(stresses.len() as int) =~= stresses);
                    }
                    return Err(e);
                },
            };
            let mut math = self.safe_math;
            let yield_impact = match math.safe_percentage_change(
                baseline_yield.risk_adjusted_yield,
                yield_result.risk_adjusted_yield,
            ) {
                Ok(x) => x,
                Err(_) => {
                    proof {
                        lemma_stress_error_persists(*old(self), base, stresses, i as int + 1);
                        assert(stresses.take(stresses.len() as int) =~= stresses);
                    }
                    return Err(LeaseError::InvalidDeduction);
                },
            };
            let survivable = yield_result.risk_adjusted_yield > 0;
            let adjusted = yield_result.risk_adjusted_yield;
            let scenario = copy_scenario(&stress_scenarios[i]);
            scenario_results.push(
                StressScenarioResult {
                    scenario,
                    stressed_yield: yield_result,
                    yield_impact_bps: yield_impact,
                    survivable,
                },
            );
            yields.push(adjusted);
            proof {
                assert(yields@ =~= stressed_yields(scenario_results@));
            }
            i = i + 1;
        }
        proof {
            assert(stresses.take(stresses.len() as int) =~= stresses);
        }
        let worst_case_scenario = find_worst_case_scenario(yields.as_slice());
        let stress_resilience_score = calculate_stress_resilience(yields.as_slice());
        Ok(StressTestResults { scenario_results, worst_case_scenario, stress_resilience_score })
    }

    /// A report on the yield of `lease`: its risk-aware yield (zeros and an
    /// error note where it cannot be computed) beside the precision record
    /// as it stood before the calculation.
    pub fn generate_yield_report(&mut self, lease: &LeaseInstance) -> (r: YieldReport)
        requires
            has_room(*old(self), 1),
        ensures
            ({
                let (o, m) = advanced_outcome(*old(self), lease.security_deposit, None, None);
                &&& *final(self) == m
                &&& r.lease_id == 0
                &&& r.timestamp == 0
                &&& r.security_deposit == lease.security_deposit
                &&& r.precision_quality == crate::safe_math_128::quality_of(old(self).safe_math)
                &&& r.precision_loss == old(self).safe_math.cumulative_precision_loss
                &&& r.efficiency_score == crate::safe_math_128::efficiency_score_of(
                    old(self).safe_math,
                )
                &&& r.risk_metrics == old(self).risk_metrics
                &&& match o {
                    Err(_) => r.base_yield == 0 && r.risk_adjusted_yield == 0 && r.confidence_level
                        == 0 && r.recommendations@.map_values(|x: String| x@) == seq![
                        "Error in yield calculation"@,
                    ],
                    Ok(t) => r.base_yield == t.0 && r.risk_adjusted_yield == t.1
                        && r.confidence_level == t.2 && r.recommendations@.map_values(
                        |x: String| x@,
                    ) == advanced_recommendations(m.safe_math, t.2),
                }
            }),
    {
        let precision_report = self.safe_math.get_detailed_precision_report();
        proof {
            lemma_plain_calculation_room(*self, lease.security_deposit, 1);
        }
        let (base_yield, risk_adjusted_yield, confidence_level, recommendations) = match self.advanced_yield_of(
            lease.security_deposit,
            lease.start_date,
            &None,
            None,
        ) {
            Ok(y) => (y.yield_amount, y.risk_adjusted_yield, y.confidence_level, y.recommendations),
            Err(_) => {
                let mut notes: Vec<String> = Vec::new();
                notes.push("Error in yield calculation".to_owned());
                assert(notes@.map_values(|x: String| x@) =~= seq!["Error in yield calculation"@]);
                (0, 0, 0, notes)
            },
        };
        YieldReport {
            lease_id: 0,
            security_deposit: lease.security_deposit,
            base_yield,
            risk_adjusted_yield,
            confidence_level,
            precision_quality: precision_report.precision_quality,
            precision_loss: precision_report.cumulative_precision_loss,
            efficiency_score: precision_report.efficiency_score,
            recommendations,
            risk_metrics: self.risk_metrics,
            timestamp: 0,
        }
    }
}

/// Risk adjustments only ever lower a non-negative yield, and never below
/// zero.
pub proof fn lemma_risk_adjustment_never_raises(
    s: SafeMath128,
    base: i128,
    history: Option<Seq<i128>>,
    market: Option<MarketData>,
)
    requires
        base >= 0,
    ensures
        risk_adjustment_outcome(s, base, history, market).0 matches Ok(a) ==> 0 <= a <= base,
{
    let (r1, s1) = match history {
        Some(ys) => if ys.len() >= 2 {
            match crate::safe_math_128::volatility_outcome(ys) {
                Err(_) => (Err(LeaseError::InvalidDeduction), s),
                Ok(v) => cut_by_bps(
                    s,
                    base,
                    (if v <= 5000 {
                        v
                    } else {
                        5000
                    }) as u32,
                ),
            }
        } else {
            (Ok(base), s)
        },
        None => (Ok(base), s),
    };
    if let Some(ys) = history {
        if ys.len() >= 2 {
            if let Ok(v) = crate::safe_math_128::volatility_outcome(ys) {
                let bps = (if v <= 5000 {
                    v
                } else {
                    5000
                }) as u32;
                lemma_cut_keeps_within(s, base, bps);
            }
        }
    }
    if let Ok(a) = r1 {
        assert(0 <= a <= base);
        if let Some(m) = market {
            let bps = (if m.correlation_risk <= 3000 {
                m.correlation_risk
            } else {
                3000
            }) as u32;
            lemma_cut_keeps_within(s1, a, bps);
        }
    }
}

/// Taking a basis-point share off a non-negative amount leaves between
/// zero and the amount.
/// With market data and no yield history, the market adjustment takes off
/// the correlation risk in basis points, but never more than 30%: a
/// successful risk-adjusted yield is the base less its share at the
/// correlation risk capped at 3000 bps, rounded down, and so never less
/// than the base less 30% of it.
pub proof fn lemma_market_adjustment_takes_at_most_thirty_percent(
    s: SafeMath128,
    base: i128,
    market: MarketData,
)
    requires
        base >= 0,
        market.correlation_risk >= 0,
    ensures
        risk_adjustment_outcome(s, base, None, Some(market)).0 matches Ok(a) ==> {
            &&& base - base * 3000 / 10000 <= a <= base
            &&& market.correlation_risk <= 3000 ==> a == base - base * market.correlation_risk
                / 10000
            &&& market.correlation_risk > 3000 ==> a == base - base * 3000 / 10000
        },
{
    let bps: u32 = (if market.correlation_risk <= 3000 {
        market.correlation_risk
    } else {
        3000
    }) as u32;
    assert(bps as int == if market.correlation_risk <= 3000 {
        market.correlation_risk as int
    } else {
        3000
    });
    assert(0 <= base * bps <= base * 3000) by (nonlinear_arith)
        requires
            base >= 0,
            0 <= bps <= 3000,
    ;
    assert((base * bps) / 10000 <= (base * 3000) / 10000) by (nonlinear_arith)
        requires
            0 <= base * bps <= base * 3000,
    ;
    assert(0 <= (base * bps) / 10000);
}

/// With a yield history of at least two entries and no market data, the
/// volatility adjustment never removes more than half of the yield.
pub proof fn lemma_volatility_adjustment_takes_at_most_half(
    s: SafeMath128,
    base: i128,
    history: Seq<i128>,
)
    requires
        base >= 0,
        history.len() >= 2,
    ensures
        risk_adjustment_outcome(s, base, Some(history), None).0 matches Ok(a) ==> base - base * 5000
            / 10000 <= a <= base,
{
    crate::safe_math_128::lemma_volatility_never_negative(history);
    if let Ok(v) = crate::safe_math_128::volatility_outcome(history) {
        let bps: u32 = (if v <= 5000 {
            v
        } else {
            5000
        }) as u32;
        if base * bps <= i128::MAX && bps <= 5000 {
            assert(0 <= base * bps <= base * 5000) by (nonlinear_arith)
                requires
                    base >= 0,
                    0 <= bps <= 5000,
            ;
            assert((base * bps) / 10000 <= (base * 5000) / 10000) by (nonlinear_arith)
                requires
                    0 <= base * bps <= base * 5000,
            ;
        }
        lemma_cut_keeps_within(s, base, bps);
    }
}

proof fn lemma_cut_keeps_within(s: SafeMath128, amount: i128, bps: u32)
    requires
        amount >= 0,
    ensures
        cut_by_bps(s, amount, bps).0 matches Ok(a) ==> 0 <= a <= amount,
{
    if amount * bps <= i128::MAX && bps <= 10000 {
        assert(0 <= amount * bps <= amount * 10000) by (nonlinear_arith)
            requires
                amount >= 0,
                0 <= bps <= 10000,
        ;
        assert((amount * bps) / 10000 <= amount) by (nonlinear_arith)
            requires
                amount >= 0,
                0 <= amount * bps <= amount * 10000,
        ;
    }
}

} // verus!
