use leaseflow::enhanced_yield_generation::{CustomDistribution, EnhancedYieldGenerator, YieldCalculationInput, YieldGenerationError};


#[test]
fn enhanced_yield_generation_test_complex_yield_calculation() {
    let mut generator = EnhancedYieldGenerator::new();
    
    let result = generator.calculate_complex_yield(
        1000,      // principal
        86400 * 30, // 30 days elapsed
        86400 * 365, // 1 year total
        2,         // medium deposit tier
        1640995200, // current timestamp
    ).unwrap();
    
    assert!(result > 0);
    assert!(result < 1000 * 100); // Should be reasonable
}

#[test]
fn test_compounded_yield() {
    let mut generator = EnhancedYieldGenerator::new();
    
    // Test with small number of periods
    let result = generator.calculate_compounded_yield(1000, 500, 365).unwrap();
    assert!(result > 0);
    
    // Test with large number of periods (should use approximation)
    let result = generator.calculate_compounded_yield(1000, 500, 10000).unwrap();
    assert!(result > 0);
}

#[test]
fn enhanced_yield_generation_test_error_conditions() {
    let mut generator = EnhancedYieldGenerator::new();
    
    // Invalid principal
    assert!(matches!(
        generator.calculate_complex_yield(-100, 86400, 86400 * 365, 2, 1640995200),
        Err(YieldGenerationError::InvalidPrincipal(_))
    ));
    
    // Invalid duration
    assert!(matches!(
        generator.calculate_complex_yield(100, 86400 * 400, 86400 * 365, 2, 1640995200),
        Err(YieldGenerationError::InvalidDuration { .. })
    ));
}

#[test]
fn the_performance_fee_comes_out_of_the_dao_share() {
    let mut generator = EnhancedYieldGenerator::new();
    let distribution = generator.calculate_enhanced_distribution(1000, None).unwrap();
    assert_eq!(distribution.lessee_share, 500);
    assert_eq!(distribution.lessor_share, 300);
    // The 10% fee on the 1000 distributed is taken from the DAO's 200.
    assert_eq!(distribution.performance_fee, 100);
    assert_eq!(distribution.dao_share, 100);
    assert!(!distribution.custom_applied);

    let custom = CustomDistribution { lessee_bps: 6000, lessor_bps: 2500, dao_bps: 1500 };
    let distribution = generator.calculate_enhanced_distribution(1000, Some(custom)).unwrap();
    assert_eq!(distribution.lessee_share, 600);
    assert_eq!(distribution.lessor_share, 250);
    assert_eq!(distribution.dao_share, 50);
    assert!(distribution.custom_applied);
}

#[test]
fn multipliers_above_one_hundred_percent_raise_the_yield() {
    let mut generator = EnhancedYieldGenerator::new();
    // One day of a year: a time factor of 27 bps, 1000 * 5% * 27 = 1350.
    assert_eq!(generator.calculate_complex_yield(1000, 86400, 86400 * 365, 2, 1640995200), Ok(1350));
    // Tier 3 takes a 110% risk multiplier: 2000 * 5% * 27 = 2700, then 2970.
    assert_eq!(generator.calculate_complex_yield(2000, 86400, 86400 * 365, 3, 1640995200), Ok(2970));
    let report = generator.get_performance_report();
    assert_eq!(report.metrics.calculation_count, 2);
    assert_eq!(report.metrics.total_yield_generated, 1350 + 2970);
}

#[test]
fn a_time_boost_above_one_hundred_percent_is_applied_before_the_cap() {
    let mut generator = EnhancedYieldGenerator::new();
    // Half of a 30-day lock: time factor 5000 bps, 1000 * 5% * 5000 = 250_000,
    // 90% for tier 1 gives 225_000 and the 110% boost 247_500, which the
    // cap of five times the principal brings down to 5000.
    assert_eq!(generator.calculate_complex_yield(1000, 86400 * 15, 86400 * 30, 1, 1640995200), Ok(5000));
}

#[test]
fn test_batch_calculation() {
    let mut generator = EnhancedYieldGenerator::new();
    let deposits = vec![
        YieldCalculationInput {
            deposit_id: 1,
            principal: 1000,
            lock_duration_seconds: 86400,
            total_lock_period: 86400 * 30,
            deposit_size_tier: 1,
            current_timestamp: 1640995200,
        },
        YieldCalculationInput {
            deposit_id: 2,
            principal: 2000,
            lock_duration_seconds: 86400 * 15,
            total_lock_period: 86400 * 30,
            deposit_size_tier: 2,
            current_timestamp: 1640995200,
        },
    ];
    let results = generator.batch_calculate_yield(deposits).unwrap();
    assert_eq!(results.len(), 2);
    assert!(results[0].yield_amount > 0);
    assert!(results[1].yield_amount > 0);
}

#[test]
fn test_performance_metrics() {
    let mut generator = EnhancedYieldGenerator::new();
    let _ = generator.calculate_complex_yield(1000, 86400, 86400 * 365, 2, 1640995200);
    let _ = generator.calculate_complex_yield(2000, 86400 * 30, 86400 * 365, 3, 1640995200);
    let report = generator.get_performance_report();
    assert_eq!(report.metrics.calculation_count, 2);
    assert!(report.metrics.total_yield_generated > 0);
    assert!(report.gas_optimization.total_gas_saved > 0);
}

#[test]
fn a_batch_stops_at_its_first_failure() {
    let mut generator = EnhancedYieldGenerator::new();
    let ok = YieldCalculationInput {
        deposit_id: 1,
        principal: 1000,
        lock_duration_seconds: 86400,
        total_lock_period: 86400 * 30,
        deposit_size_tier: 1,
        current_timestamp: 1640995200,
    };
    let results = generator.batch_calculate_yield(vec![ok]).unwrap();
    assert_eq!(results.len(), 1);
    assert_eq!(results[0].deposit_id, 1);
    assert!(results[0].yield_amount > 0);
    // A deposit locked longer than its lock period is refused.
    let invalid = YieldCalculationInput { lock_duration_seconds: 86400 * 31, ..ok };
    assert!(generator.batch_calculate_yield(vec![ok, invalid]).is_err());
}
