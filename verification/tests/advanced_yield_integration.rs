use leaseflow::advanced_yield_integration::{
    calculate_concentration_risk, calculate_portfolio_risk, calculate_risk_adjusted_return,
    determine_optimization_strategy, get_deposit_tier, AdvancedYieldManager, MarketData, OptimizationStrategy,
    StressScenario,
};
use leaseflow::lease_contract::{LeaseError, LeaseInstance, LeaseStatus};

fn lease_with_deposit(security_deposit: i128) -> LeaseInstance {
    LeaseInstance {
        landlord: 1,
        tenant: 2,
        rent_amount: 1000,
        deposit_amount: 2000,
        security_deposit,
        start_date: 1_700_000_000,
        end_date: 1_702_592_000,
        status: LeaseStatus::Active,
        nft_contract: None,
        token_id: None,
        active: true,
        rent_paid: 0,
        expiry_time: 1_702_592_000,
        property_uri: String::from("ipfs://lease"),
        buyout_price: None,
        cumulative_payments: 0,
        debt: 0,
        rent_per_sec: 0,
        late_fee_per_sec: 0,
        grace_period_end: 1_702_592_000,
        late_fee_flat: 0,
        flat_fee_applied: false,
        seconds_late_charged: 0,
    }
}

fn scenario(name: &str, market_stress_bps: u32) -> StressScenario {
    StressScenario { name: String::from(name), market_stress_bps, liquidity_stress_bps: 0, duration_factor: 1 }
}

#[test]
fn test_advanced_yield_manager_creation() {
    let manager = AdvancedYieldManager::new();
    assert_eq!(manager.portfolio_metrics.total_value, 0);
    assert_eq!(manager.risk_metrics.volatility, 0);
}

#[test]
fn test_concentration_risk_calculation() {
    let concentrated = vec![(9000, 100), (500, 50), (500, 25)];
    let risk = calculate_concentration_risk(&concentrated, 10000).unwrap();
    assert!(risk > 8000);
    let diversified = vec![(3333, 100), (3333, 100), (3334, 100)];
    let risk = calculate_concentration_risk(&diversified, 10000).unwrap();
    assert!(risk < 4000);
}

#[test]
fn diverse_yields_score_between_zero_and_full() {
    let manager = AdvancedYieldManager::new();
    let diverse = vec![(1000, 100), (2000, 150), (3000, 200)];
    let diversity = manager.calculate_diversity_score(&diverse).unwrap();
    assert!(diversity > 0 && diversity <= 10000);
    // Identical yields have no spread at all: the full score.
    let identical = vec![(1000, 100), (2000, 100), (3000, 100)];
    assert_eq!(manager.calculate_diversity_score(&identical), Ok(10000));
    assert_eq!(manager.calculate_diversity_score(&[(1000, 100)]), Ok(0));
}

#[test]
fn a_deposit_yields_its_capped_thirty_day_return() {
    let mut manager = AdvancedYieldManager::new();
    let result = manager.calculate_advanced_yield(&lease_with_deposit(50_000), None, None).unwrap();
    // 50 000 at 5% over 821 bps of a year, at 90% for its tier, capped at five times the deposit.
    assert_eq!(result.yield_amount, 250_000);
    assert_eq!(result.risk_adjusted_yield, 250_000);
    // Perfect precision (95%) without history (-15%).
    assert_eq!(result.confidence_level, 8000);
    assert_eq!(result.expected_precision_loss, 0);
    assert_eq!(result.recommendations, vec![String::from("Precision levels are acceptable.")]);
    assert_eq!(manager.yield_generator.metrics.calculation_count, 1);
}

#[test]
fn history_and_market_temper_the_yield() {
    let mut manager = AdvancedYieldManager::new();
    let history = Some(vec![100, 110, 90, 120, 80]);
    let market = Some(MarketData { correlation_risk: 500, market_volatility: 0, risk_free_rate: 0 });
    let result = manager.calculate_advanced_yield(&lease_with_deposit(50_000), history, market).unwrap();
    assert_eq!(result.yield_amount, 250_000);
    // A volatility of 14 bps takes 350 off, then 5% correlation risk 12 482.
    assert_eq!(result.risk_adjusted_yield, 237_168);
    assert_eq!(result.expected_precision_loss, 5000);
    assert_eq!(result.confidence_level, 7000);
    assert_eq!(
        result.recommendations,
        vec![
            String::from("Consider implementing batch processing to reduce cumulative precision loss."),
            String::from("High precision loss expected. Monitor calculations closely."),
        ]
    );
}

#[test]
fn a_deposit_of_nothing_has_no_yield() {
    let mut manager = AdvancedYieldManager::new();
    let result = manager.calculate_advanced_yield(&lease_with_deposit(0), None, None);
    assert_eq!(result.unwrap_err(), LeaseError::InvalidDeduction);
    let report = manager.generate_yield_report(&lease_with_deposit(0));
    assert_eq!(report.base_yield, 0);
    assert_eq!(report.recommendations, vec![String::from("Error in yield calculation")]);
}

#[test]
fn a_portfolio_reports_its_allocation_and_expected_figures() {
    let mut manager = AdvancedYieldManager::new();
    let leases = vec![lease_with_deposit(50_000), lease_with_deposit(60_000), lease_with_deposit(30_000)];
    let result = manager.optimize_portfolio_yield(&leases, 3000).unwrap();
    let expected = vec![(50_000, 250_000), (60_000, 300_000), (30_000, 150_000)];
    assert_eq!(result.current_allocation, expected);
    assert_eq!(result.optimized_allocation, expected);
    assert_eq!(result.portfolio_metrics.total_value, 140_000);
    assert_eq!(result.portfolio_metrics.weighted_yield_rate, 50_000);
    assert_eq!(result.portfolio_metrics.concentration_risk, 3570);
    assert_eq!(result.portfolio_metrics.efficiency_score, 8000);
    assert!(result.portfolio_metrics.diversity_score >= 0 && result.portfolio_metrics.diversity_score <= 10000);
    assert_eq!(result.expected_performance.expected_yield, 700_000);
    assert_eq!(result.expected_performance.expected_risk, 250);
    assert_eq!(result.expected_performance.risk_adjusted_return, 28_000_000);
    assert_eq!(manager.portfolio_metrics, result.portfolio_metrics);
}

#[test]
fn a_portfolio_prices_deposits_with_multipliers_above_one_hundred_percent() {
    let mut manager = AdvancedYieldManager::new();
    // A deposit above 100 000 takes a multiplier above 100%; both yields
    // reach the cap of five times the deposit.
    let leases = vec![lease_with_deposit(50_000), lease_with_deposit(150_000)];
    let result = manager.optimize_portfolio_yield(&leases, 3000).unwrap();
    assert_eq!(result.current_allocation, vec![(50_000, 250_000), (150_000, 750_000)]);
    assert_eq!(result.expected_performance.expected_yield, 1_000_000);
    assert_eq!(result.portfolio_metrics.total_value, 200_000);
}

#[test]
fn stress_scenarios_report_impact_worst_case_and_resilience() {
    let mut manager = AdvancedYieldManager::new();
    let scenarios = vec![scenario("crash", 5000), scenario("dip", 2000)];
    let results = manager.stress_test_yield_scenarios(&lease_with_deposit(50_000), &scenarios).unwrap();
    assert_eq!(results.scenario_results.len(), 2);
    let crash = &results.scenario_results[0];
    assert_eq!(crash.scenario.name, "crash");
    assert_eq!(crash.stressed_yield.risk_adjusted_yield, 125_000);
    assert_eq!(crash.yield_impact_bps, -5000);
    assert!(crash.survivable);
    let dip = &results.scenario_results[1];
    assert_eq!(dip.stressed_yield.risk_adjusted_yield, 200_000);
    assert_eq!(dip.yield_impact_bps, -2000);
    assert_eq!(results.worst_case_scenario, Some(0));
    assert_eq!(results.stress_resilience_score, 10000);
    // Each scenario prices the stressed and the plain deposit.
    assert_eq!(manager.yield_generator.metrics.calculation_count, 4);
}

#[test]
fn a_total_loss_scenario_fails_the_test() {
    let mut manager = AdvancedYieldManager::new();
    let scenarios = vec![scenario("wipeout", 10000)];
    let results = manager.stress_test_yield_scenarios(&lease_with_deposit(50_000), &scenarios);
    assert_eq!(results.unwrap_err(), LeaseError::InvalidDeduction);
    let empty = manager.stress_test_yield_scenarios(&lease_with_deposit(50_000), &[]).unwrap();
    assert_eq!(empty.worst_case_scenario, None);
    assert_eq!(empty.stress_resilience_score, 0);
}

#[test]
fn a_report_pairs_the_yield_with_the_earlier_precision_record() {
    let mut manager = AdvancedYieldManager::new();
    let report = manager.generate_yield_report(&lease_with_deposit(50_000));
    assert_eq!(report.security_deposit, 50_000);
    assert_eq!(report.base_yield, 250_000);
    assert_eq!(report.risk_adjusted_yield, 250_000);
    assert_eq!(report.confidence_level, 8000);
    assert_eq!(report.precision_loss, 0);
    assert_eq!(report.efficiency_score, 100);
    assert_eq!((report.lease_id, report.timestamp), (0, 0));
}

#[test]
fn tiers_strategies_and_returns_follow_their_thresholds() {
    assert_eq!(get_deposit_tier(99_999), 1);
    assert_eq!(get_deposit_tier(100_000), 2);
    assert_eq!(get_deposit_tier(9_999_999), 3);
    assert_eq!(get_deposit_tier(10_000_000), 4);
    assert_eq!(get_deposit_tier(-1), 4);
    assert_eq!(determine_optimization_strategy(2000), OptimizationStrategy::Conservative);
    assert_eq!(determine_optimization_strategy(2001), OptimizationStrategy::Balanced);
    assert_eq!(determine_optimization_strategy(8000), OptimizationStrategy::Aggressive);
    assert_eq!(determine_optimization_strategy(8001), OptimizationStrategy::Speculative);
    assert_eq!(calculate_risk_adjusted_return(700, 0), Ok(700));
    assert_eq!(calculate_risk_adjusted_return(700, 250), Ok(28_000));
    assert_eq!(calculate_risk_adjusted_return(i128::MAX, 3), Err(LeaseError::InvalidDeduction));
    assert_eq!(calculate_portfolio_risk(&[]), Ok(0));
    assert_eq!(calculate_portfolio_risk(&[(1000, 5000)]), Ok(5));
}
