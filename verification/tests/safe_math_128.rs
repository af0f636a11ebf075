use leaseflow::safe_math_128::{optimized_ops, SafeMath128, SafeMathError, MAX_SAFE_YIELD_AMOUNT};


#[test]
fn safe_math_128_test_safe_mul_yield_overflow_protection() {
    let mut math = SafeMath128::new();
    
    // Test overflow protection
    let large_principal = MAX_SAFE_YIELD_AMOUNT + 1;
    assert!(matches!(
        math.safe_mul_yield(large_principal, 5000, 86400),
        Err(SafeMathError::PrincipalTooLarge(_))
    ));
}

#[test]
fn safe_math_128_test_yield_distribution() {
    let mut math = SafeMath128::new();
    
    let distribution = math.yield_distribution_with_dust_tracking(
        1000, 5000, 3000, 2000
    ).unwrap();
    
    assert_eq!(distribution.lessee_share, 500); // 50%
    assert_eq!(distribution.lessor_share, 300); // 30%
    assert_eq!(distribution.dao_share, 200);    // 20%
    assert_eq!(distribution.total_distributed, 1000);
    assert_eq!(distribution.dust, 0);
}

#[test]
fn safe_math_128_test_precision_tracking() {
    let mut math = SafeMath128::new();
    
    // Perform operations that create precision loss
    let _ = math.safe_bps_division_floor(1000, 3333);
    let _ = math.safe_bps_division_floor(1000, 3333);
    
    let report = math.get_precision_report();
    assert_eq!(report.operation_count, 2);
    assert!(report.cumulative_precision_loss > 0);
    assert!(report.efficiency_score > 0);
}

#[test]
fn safe_math_128_test_overflow_detection() {
    // Test multiplication overflow detection
    assert!(optimized_ops::will_multiply_overflow(i128::MAX, 2));
    assert!(!optimized_ops::will_multiply_overflow(1000, 1000));
    
    // Test addition overflow detection
    assert!(optimized_ops::will_add_overflow(i128::MAX, 1));
    assert!(!optimized_ops::will_add_overflow(1000, 1000));
}

#[test]
fn safe_math_128_test_error_conditions() {
    let mut math = SafeMath128::new();
    
    // Negative principal
    assert!(matches!(
        math.safe_mul_yield(-100, 5000, 86400),
        Err(SafeMathError::NegativePrincipal(_))
    ));
    
    // Invalid rate
    assert!(matches!(
        math.safe_mul_yield(100, 10001, 86400),
        Err(SafeMathError::InvalidRate(_))
    ));
    
    // Distribution exceeding yield
    assert!(matches!(
        math.yield_distribution_with_dust_tracking(100, 6000, 6000, 6000),
        Err(SafeMathError::InvalidDistributionBps(_))
    ));
}

#[test]
fn test_safe_add_yield_operations() {
    let mut math = SafeMath128::new();
    
    // Test basic addition
    let result = math.safe_add_yield(1000, 500).unwrap();
    assert_eq!(result, 1500);
    
    // Test adding zero
    assert_eq!(math.safe_add_yield(1000, 0).unwrap(), 1000);
    assert_eq!(math.safe_add_yield(0, 1000).unwrap(), 1000);
    
    // Test overflow protection
    let large_amount = MAX_SAFE_YIELD_AMOUNT;
    let result = math.safe_add_yield(large_amount, 1);
    assert!(matches!(result, Err(SafeMathError::YieldExceedsMaximum(_))));
}

#[test]
fn test_safe_sub_yield_operations() {
    let mut math = SafeMath128::new();
    
    // Test basic subtraction
    let result = math.safe_sub_yield(1000, 400).unwrap();
    assert_eq!(result, 600);
    
    // Test subtracting zero
    assert_eq!(math.safe_sub_yield(1000, 0).unwrap(), 1000);
    
    // Test underflow protection
    let result = math.safe_sub_yield(1000, 1500);
    assert!(matches!(result, Err(SafeMathError::DistributionExceedsYield { .. })));
}

#[test]
fn test_bps_division_precision() {
    let mut math = SafeMath128::new();
    
    // Test exact division
    let result = math.safe_bps_division_floor(1000, 5000).unwrap();
    assert_eq!(result, 500); // 50%
    
    // Test ceiling division
    let result = math.safe_bps_division_ceiling(1000, 5000).unwrap();
    assert_eq!(result, 500); // 50% (exact)
    
    // Test with remainder - floor should round down
    let result = math.safe_bps_division_floor(1000, 3333).unwrap();
    assert_eq!(result, 333); // floor(1000 * 0.3333)
    
    // Test with remainder - ceiling should round up
    let result = math.safe_bps_division_ceiling(1000, 3333).unwrap();
    assert_eq!(result, 334); // ceil(1000 * 0.3333)
}

#[test]
fn safe_math_128_tests_test_precision_tracking() {
    let mut math = SafeMath128::new();
    
    // Perform operations that create precision loss
    let _ = math.safe_bps_division_floor(1000, 3333);
    let _ = math.safe_bps_division_floor(2000, 3333);
    let _ = math.safe_bps_division_ceiling(3000, 3333);
    
    let report = math.get_precision_report();
    assert_eq!(report.operation_count, 3);
    assert!(report.cumulative_precision_loss > 0);
    assert!(report.max_single_operation_loss > 0);
    assert!(report.efficiency_score > 0 && report.efficiency_score <= 100);
}

#[test]
fn safe_math_128_tests_test_overflow_detection() {
    // Test multiplication overflow detection
    assert!(optimized_ops::will_multiply_overflow(i128::MAX, 2));
    assert!(!optimized_ops::will_multiply_overflow(1000, 1000));
    assert!(!optimized_ops::will_multiply_overflow(0, i128::MAX));
    
    // Test addition overflow detection
    assert!(optimized_ops::will_add_overflow(i128::MAX, 1));
    assert!(!optimized_ops::will_add_overflow(1000, 1000));
    assert!(!optimized_ops::will_add_overflow(0, i128::MAX));
}

#[test]
fn safe_math_128_tests_test_error_conditions() {
    let mut math = SafeMath128::new();
    
    // Test negative inputs
    assert!(matches!(
        math.safe_mul_yield(-100, 5000, 86400),
        Err(SafeMathError::NegativePrincipal(_))
    ));
    
    assert!(matches!(
        math.safe_add_yield(-100, 500),
        Err(SafeMathError::NegativeYield { .. })
    ));
    
    assert!(matches!(
        math.safe_bps_division_floor(-100, 5000),
        Err(SafeMathError::NegativeAmount(_))
    ));
    
    // Test invalid rates
    assert!(matches!(
        math.safe_mul_yield(100, 10001, 86400),
        Err(SafeMathError::InvalidRate(_))
    ));
    
    assert!(matches!(
        math.safe_bps_division_floor(100, 10001),
        Err(SafeMathError::InvalidBps(_))
    ));
    
    // Test distribution errors
    assert!(matches!(
        math.yield_distribution_with_dust_tracking(100, 6000, 6000, 6000),
        Err(SafeMathError::InvalidDistributionBps(_))
    ));
}

#[test]
fn test_extreme_values() {
    let mut math = SafeMath128::new();
    
    // Test with maximum safe values
    let max_safe = MAX_SAFE_YIELD_AMOUNT;
    let result = math.safe_mul_yield(max_safe, 1, 1);
    assert!(result.is_ok());
    assert_eq!(result.unwrap(), max_safe / 10000);
    
    // Test with minimum non-zero values
    let result = math.safe_mul_yield(1, 1, 1);
    assert!(result.is_ok());
    assert_eq!(result.unwrap(), 0); // 1 * 0.0001 * 1 = 0 (integer division)
    
    // Test BPS with edge cases
    assert_eq!(math.safe_bps_division_floor(1, 1).unwrap(), 0);
    assert_eq!(math.safe_bps_division_ceiling(1, 1).unwrap(), 1);
}

#[test]
fn test_reset_functionality() {
    let mut math = SafeMath128::new();
    
    // Perform some operations
    let _ = math.safe_mul_yield(1000, 5000, 86400);
    let _ = math.safe_add_yield(1000, 500);
    
    // Verify state changed
    let report_before = math.get_precision_report();
    assert!(report_before.operation_count > 0);
    
    // Reset and verify state cleared
    math.reset();
    let report_after = math.get_precision_report();
    assert_eq!(report_after.operation_count, 0);
    assert_eq!(report_after.cumulative_precision_loss, 0);
    assert_eq!(report_after.max_single_operation_loss, 0);
    assert_eq!(report_after.efficiency_score, 100);
}

#[test]
fn test_gas_optimization_scenarios() {
    let mut math = SafeMath128::new();
    
    // Test scenario: many small operations vs one large operation
    let base_amount = 1000;
    
    // Many small operations
    for i in 0..100 {
        let _ = math.safe_add_yield(base_amount, i);
    }
    
    let report_many = math.get_precision_report();
    math.reset();
    
    // One large operation (equivalent total)
    let total_small_ops = (0..100).sum::<i128>();
    let _ = math.safe_add_yield(base_amount * 100, total_small_ops);
    
    let report_one = math.get_precision_report();
    
    // Both should produce valid results, but with different efficiency characteristics
    assert!(report_many.operation_count == 100);
    assert!(report_one.operation_count == 1);
    assert!(report_many.efficiency_score > 0);
    assert!(report_one.efficiency_score > 0);
}

#[test]
fn test_safe_sqrt_approximation() {
    let mut math = SafeMath128::new();
    
    // Test basic square root
    assert_eq!(math.safe_sqrt_approximation(0, 10).unwrap(), 0);
    assert_eq!(math.safe_sqrt_approximation(1, 10).unwrap(), 1);
    
    let result = math.safe_sqrt_approximation(100, 10).unwrap();
    assert!(result >= 9 && result <= 11); // Should be close to 10
    
    let result = math.safe_sqrt_approximation(10000, 10).unwrap();
    assert!(result >= 99 && result <= 101); // Should be close to 100
    
    // Test edge cases
    assert!(matches!(
        math.safe_sqrt_approximation(-1, 10),
        Err(SafeMathError::NegativeAmount(_))
    ));
}

#[test]
fn test_safe_percentage_change() {
    let mut math = SafeMath128::new();
    
    // Test basic percentage change
    let result = math.safe_percentage_change(100, 150).unwrap(); // 50% increase
    assert_eq!(result, 5000); // 50% in BPS
    
    let result = math.safe_percentage_change(100, 50).unwrap(); // 50% decrease
    assert_eq!(result, -5000); // -50% in BPS
    
    // Test no change
    assert_eq!(math.safe_percentage_change(100, 100).unwrap(), 0);
    
    // Test edge cases
    assert!(matches!(
        math.safe_percentage_change(0, 100),
        Err(SafeMathError::DivisionByZero)
    ));
    assert!(matches!(
        math.safe_percentage_change(-1, 100),
        Err(SafeMathError::DivisionByZero)
    ));
}

#[test]
fn test_safe_ema() {
    let mut math = SafeMath128::new();
    
    // Test basic EMA calculation
    let result = math.safe_ema(100, 80, 2000).unwrap(); // 20% alpha
    assert!(result > 80 && result < 100); // Should be between old and new values
    
    // Test edge cases
    assert_eq!(math.safe_ema(100, 100, 5000).unwrap(), 100); // Same values
    assert_eq!(math.safe_ema(100, 80, 0).unwrap(), 80); // 0% alpha = old value
    assert_eq!(math.safe_ema(100, 80, 10000).unwrap(), 100); // 100% alpha = new value
    
    // Test invalid alpha
    assert!(matches!(
        math.safe_ema(100, 80, 10001),
        Err(SafeMathError::InvalidBps(_))
    ));
}

#[test]
fn test_safe_volatility_calculation() {
    let mut math = SafeMath128::new();
    
    // Test basic volatility calculation
    let values = vec![100, 110, 90, 120, 80]; // Some variance
    let result = math.safe_volatility_calculation(&values).unwrap();
    assert!(result > 0); // Should have some volatility
    
    // Test constant values (no volatility)
    let values = vec![100, 100, 100, 100, 100];
    assert_eq!(math.safe_volatility_calculation(&values).unwrap(), 0);
    
    // Test edge cases
    assert!(matches!(
        math.safe_volatility_calculation(&[100]),
        Err(SafeMathError::InsufficientData)
    ));
    
    assert!(matches!(
        math.safe_volatility_calculation(&[]),
        Err(SafeMathError::InsufficientData)
    ));
}

#[test]
fn test_safe_max_drawdown() {
    let mut math = SafeMath128::new();
    
    // Test basic drawdown calculation
    let values = vec![100, 120, 80, 150, 70]; // Peak 150, trough 70
    let result = math.safe_max_drawdown(&values).unwrap();
    assert!(result > 0); // Should have drawdown
    
    // Test monotonically increasing (no drawdown)
    let values = vec![100, 110, 120, 130, 140];
    assert_eq!(math.safe_max_drawdown(&values).unwrap(), 0);
    
    // Test edge cases
    assert!(matches!(
        math.safe_max_drawdown(&[100]),
        Err(SafeMathError::InsufficientData)
    ));
}

#[test]
fn test_detailed_precision_report() {
    let mut math = SafeMath128::new();
    
    // Perform some operations
    let _ = math.safe_bps_division_floor(1000, 3333);
    let _ = math.safe_bps_division_floor(2000, 3333);
    
    let report = math.get_detailed_precision_report();
    assert_eq!(report.operation_count, 2);
    assert!(report.cumulative_precision_loss > 0);
    assert!(report.efficiency_score > 0);
    assert!(!report.recommended_optimizations.is_empty());
    
    // Test precision quality assessment
    match report.precision_quality {
        leaseflow::safe_math_128::PrecisionQuality::Perfect => {
            assert_eq!(report.cumulative_precision_loss, 0);
        }
        _ => {
            assert!(report.cumulative_precision_loss > 0);
        }
    }
}

#[test]
fn test_precision_quality_assessment() {
    let mut math = SafeMath128::new();
    
    // Test perfect precision (no operations)
    let report = math.get_detailed_precision_report();
    assert!(matches!(report.precision_quality, leaseflow::safe_math_128::PrecisionQuality::Perfect));
    
    // Perform operations with minimal precision loss
    let _ = math.safe_bps_division_floor(10000, 5000); // Exact division
    let report = math.get_detailed_precision_report();
    assert!(matches!(
        report.precision_quality,
        leaseflow::safe_math_128::PrecisionQuality::Perfect | leaseflow::safe_math_128::PrecisionQuality::Excellent
    ));
    
    // Perform operations with significant precision loss
    for _ in 0..100 {
        let _ = math.safe_bps_division_floor(1, 3333); // Creates precision loss
    }
    let report = math.get_detailed_precision_report();
    assert!(matches!(
        report.precision_quality,
        leaseflow::safe_math_128::PrecisionQuality::Fair | leaseflow::safe_math_128::PrecisionQuality::Poor
    ));
}


#[test]
fn mul_yield_scales_by_basis_points() {
    let mut math = SafeMath128::new();
    // 1000 * 50% * 100 = 50_000, fifty times the principal.
    assert_eq!(math.safe_mul_yield(1000, 5000, 100), Ok(50_000));
    assert_eq!(math.safe_mul_yield(1000, 10000, 1), Ok(1000));
    // 1000 * 50% * 86400 = 43_200_000: large yields are not capped.
    assert_eq!(math.safe_mul_yield(1000, 5000, 86400), Ok(43_200_000));
    assert_eq!(math.safe_mul_yield(1, 1, 1), Ok(0));
    assert_eq!(optimized_ops::mul_yield_optimized(1000, 5000, 86400), Some(43_200_000));
    assert_eq!(optimized_ops::mul_yield_optimized(1000, 5000, 100), Some(50_000));
}

#[test]
fn distribution_rounds_each_share_down_and_keeps_the_rest_as_dust() {
    let mut math = SafeMath128::new();
    // 500.5, 300.3 and 200.2 round down to 500 + 300 + 200; 1 is dust.
    let d = math.yield_distribution_with_dust_tracking(1001, 5000, 3000, 2000).unwrap();
    assert_eq!((d.lessee_share, d.lessor_share, d.dao_share, d.dust, d.total_distributed), (500, 300, 200, 1, 1000));
    // 332.97, 332.97 and 333.07 round down to 332 + 332 + 333; 2 is dust.
    let d = math.yield_distribution_with_dust_tracking(999, 3333, 3333, 3334).unwrap();
    assert_eq!((d.lessee_share, d.lessor_share, d.dao_share, d.dust, d.total_distributed), (332, 332, 333, 2, 997));
    let d = math.yield_distribution_with_dust_tracking(1000, 4000, 3000, 2000).unwrap();
    assert_eq!((d.lessee_share, d.lessor_share, d.dao_share, d.dust, d.total_distributed), (400, 300, 200, 100, 900));
    assert_eq!(
        math.yield_distribution_with_dust_tracking(1000, 5000, 3000, 2001),
        Err(SafeMathError::InvalidDistributionBps(10001))
    );
}

#[test]
fn test_safe_mul_yield_basic() {
    let mut math = SafeMath128::new();
    // Test basic multiplication
    let result = math.safe_mul_yield(1000, 5000, 86400).unwrap(); // 50% for 1 day
    // 1000 * 5000 * 86400 / 10000 = 43_200_000.
    assert_eq!(result, 43_200_000); // 1000 * 0.5 * 86400
    // Test zero values
    assert_eq!(math.safe_mul_yield(1000, 0, 86400).unwrap(), 0);
    assert_eq!(math.safe_mul_yield(0, 5000, 86400).unwrap(), 0);
    assert_eq!(math.safe_mul_yield(1000, 5000, 0).unwrap(), 0);
}

#[test]
fn test_safe_mul_yield_basic_operations() {
    let mut math = SafeMath128::new();
    // Test basic multiplication with reasonable values
    let result = math.safe_mul_yield(1000, 5000, 86400).unwrap();
    // 1000 * 5000 * 86400 / 10000 = 43_200_000.
    assert_eq!(result, 43_200_000); // 1000 * 0.5 * 86400
    // Test zero values
    assert_eq!(math.safe_mul_yield(0, 5000, 86400).unwrap(), 0);
    assert_eq!(math.safe_mul_yield(1000, 0, 86400).unwrap(), 0);
    assert_eq!(math.safe_mul_yield(1000, 5000, 0).unwrap(), 0);
    // Test unit rate (100%)
    let result = math.safe_mul_yield(1000, 10000, 1).unwrap();
    assert_eq!(result, 1000);
}

#[test]
fn safe_math_128_test_yield_distribution_with_dust() {
    let mut math = SafeMath128::new();
    // Amount that creates dust
    let distribution = math.yield_distribution_with_dust_tracking(999, 3333, 3333, 3334).unwrap();
    assert!(distribution.dust > 0);
    assert!(distribution.total_distributed <= 999);
}

#[test]
fn safe_math_128_tests_test_yield_distribution_with_dust() {
    let mut math = SafeMath128::new();
    // Test distribution that creates dust
    let distribution = math.yield_distribution_with_dust_tracking(999, 3333, 3333, 3334).unwrap();
    assert!(distribution.total_distributed <= 999);
    assert!(distribution.dust > 0);
    assert_eq!(distribution.lessee_share + distribution.lessor_share + distribution.dao_share + distribution.dust, 999);
}

#[test]
fn test_yield_distribution_edge_cases() {
    let mut math = SafeMath128::new();
    // Test with zero total yield
    let distribution = math.yield_distribution_with_dust_tracking(0, 5000, 3000, 2000).unwrap();
    assert_eq!(distribution.lessee_share, 0);
    assert_eq!(distribution.lessor_share, 0);
    assert_eq!(distribution.dao_share, 0);
    assert_eq!(distribution.dust, 0);
    // Test with very small amounts
    let distribution = math.yield_distribution_with_dust_tracking(1, 5000, 3000, 2000).unwrap();
    assert!(distribution.total_distributed <= 1);
    assert!(distribution.dust >= 0);
    // Test with maximum distribution BPS
    let distribution = math.yield_distribution_with_dust_tracking(1000, 10000, 0, 0).unwrap();
    assert_eq!(distribution.lessee_share, 1000);
    assert_eq!(distribution.lessor_share, 0);
    assert_eq!(distribution.dao_share, 0);
}

#[test]
fn safe_math_128_test_optimized_operations() {
    // Test optimized multiplication
    // 1000 * 5000 * 86400 / 10000 = 43_200_000.
    assert_eq!(optimized_ops::mul_yield_optimized(1000, 5000, 86400), Some(43_200_000));
    // Test edge cases
    assert_eq!(optimized_ops::mul_yield_optimized(0, 5000, 86400), Some(0));
    assert_eq!(optimized_ops::mul_yield_optimized(1000, 0, 86400), Some(0));
    assert_eq!(optimized_ops::mul_yield_optimized(1000, 5000, 0), Some(0));
    // Test fast path optimizations
    assert_eq!(optimized_ops::bps_floor_optimized(1000, 10000), Some(1000));
    assert_eq!(optimized_ops::bps_ceiling_optimized(1000, 10000), Some(1000));
}

#[test]
fn safe_math_128_tests_test_optimized_operations() {
    // Test optimized multiplication
    // 1000 * 5000 * 86400 / 10000 = 43_200_000.
    assert_eq!(optimized_ops::mul_yield_optimized(1000, 5000, 86400), Some(43_200_000));
    // Test edge cases that should return 0
    assert_eq!(optimized_ops::mul_yield_optimized(0, 5000, 86400), Some(0));
    assert_eq!(optimized_ops::mul_yield_optimized(1000, 0, 86400), Some(0));
    assert_eq!(optimized_ops::mul_yield_optimized(1000, 5000, 0), Some(0));
    // Test fast path optimizations
    assert_eq!(optimized_ops::bps_floor_optimized(1000, 10000), Some(1000));
    assert_eq!(optimized_ops::bps_ceiling_optimized(1000, 10000), Some(1000));
    // Test BPS with remainder
    assert_eq!(optimized_ops::bps_floor_optimized(1000, 3333), Some(333));
    assert_eq!(optimized_ops::bps_ceiling_optimized(1000, 3333), Some(334));
}

#[test]
fn test_batch_safe_mul_yield() {
    let mut math = SafeMath128::new();
    let inputs = vec![(1000, 5000, 86400), (2000, 3000, 43200), (500, 8000, 172800)];
    let results = math.batch_safe_mul_yield(&inputs).unwrap();
    assert_eq!(results.len(), 3);
    // Verify each result matches individual calculation
    for (i, &(principal, rate, time)) in inputs.iter().enumerate() {
        let expected = math.safe_mul_yield(principal, rate, time).unwrap();
        assert_eq!(results[i], expected);
    }
}

#[test]
fn test_safe_weighted_average() {
    let mut math = SafeMath128::new();
    // Test basic weighted average
    // (100*2 + 200*3 + 300*5) / (2 + 3 + 5) = 2300 / 10 = 230.
    let values = vec![(100, 2), (200, 3), (300, 5)];
    let result = math.safe_weighted_average(&values).unwrap();
    assert_eq!(result, 230);
    // Test single value
    let values = vec![(100, 1)];
    assert_eq!(math.safe_weighted_average(&values).unwrap(), 100);
    // Test edge cases
    assert!(matches!(math.safe_weighted_average(&[]), Err(SafeMathError::EmptyInput)));
    assert!(matches!(math.safe_weighted_average(&[(100, -1)]), Err(SafeMathError::NegativeWeight(_))));
    // Test zero weights
    let values = vec![(100, 0), (200, 0)];
    assert!(matches!(math.safe_weighted_average(&values), Err(SafeMathError::DivisionByZero)));
}

#[test]
fn test_boundary_conditions() {
    let mut math = SafeMath128::new();
    // Test at the boundaries of safe ranges
    let max_principal = MAX_SAFE_YIELD_AMOUNT;
    let min_rate = 1;
    let max_rate = 10000;
    let min_time = 1;
    // Test maximum principal with minimum rate and time
    let result = math.safe_mul_yield(max_principal, min_rate, min_time);
    assert!(result.is_ok());
    assert!(result.unwrap() > 0);
    // Test minimum principal with maximum rate and reasonable time
    let result = math.safe_mul_yield(1, max_rate, 86400);
    assert!(result.is_ok());
    assert!(result.unwrap() > 0);
    // Test edge case where result should be exactly principal
    let result = math.safe_mul_yield(1000, 10000, 1);
    assert!(result.is_ok());
    assert_eq!(result.unwrap(), 1000);
}

#[test]
fn powers_roots_and_averages_follow_integer_arithmetic() {
    let mut math = SafeMath128::new();
    assert_eq!(math.safe_power(2, 10), Ok(1024));
    assert_eq!(math.safe_power(3, 3), Ok(27));
    assert_eq!(math.safe_power(0, 5), Ok(0));
    assert_eq!(math.safe_power(5, 0), Ok(1));
    assert_eq!(math.safe_power(i128::MAX, 2), Err(SafeMathError::MultiplicationOverflow));
    // ln(1.1) approximated as 2 * (1100 - 1) / (1100 + 1), scaled by a thousand.
    assert_eq!(math.safe_ln_approximation(1100), Ok(1996));
    assert_eq!(math.safe_sqrt_approximation(10000, 10), Ok(100));
    // 10% a year compounded once: 1000 * 11000 / 10000 - 1000.
    assert_eq!(math.safe_compound_interest(1000, 1000, 1, 1), Ok(100));
    assert_eq!(math.safe_compound_interest(1000, 1000, 12, 1), Err(SafeMathError::MultiplicationOverflow));
}

#[test]
fn precision_loss_is_the_dropped_remainder() {
    let mut math = SafeMath128::new();
    // 10000 * 3333 divides evenly by 10000: nothing is lost.
    let _ = math.safe_bps_division_floor(10000, 3333);
    assert_eq!(math.get_precision_report().cumulative_precision_loss, 0);
    // 1 * 3333 loses all of 3333.
    let _ = math.safe_bps_division_floor(1, 3333);
    let report = math.get_precision_report();
    assert_eq!(report.cumulative_precision_loss, 3333);
    assert_eq!(report.operation_count, 2);
    assert_eq!(report.max_single_operation_loss, 3333);
}

#[test]
fn safe_math_128_test_complex_yield_calculation() {
    let mut math = SafeMath128::new();

    let result = math.complex_yield_calculation(
        1000,    // principal
        5000,    // 50% rate
        86400,   // 1 day time factor
        11000,   // 110% multiplier
    ).unwrap();

    assert!(result > 0);
    // 1000 * 5000 * 86400 / 10000 = 43_200_000, times 11000 / 10000 = 47_520_000.
    assert_eq!(result, 47_520_000);
}

#[test]
fn safe_math_128_tests_test_complex_yield_calculation() {
    let mut math = SafeMath128::new();

    // Test complex calculation with multiple factors
    let result = math.complex_yield_calculation(
        1000,    // principal
        5000,    // 50% rate
        86400,   // 1 day time factor
        11000,   // 110% multiplier
    ).unwrap();

    assert!(result > 0);
    // 1000 * 5000 * 86400 / 10000 = 43_200_000, times 11000 / 10000 = 47_520_000.
    assert_eq!(result, 47_520_000);

    // Test with 100% multiplier (should equal base yield)
    let base_yield = math.safe_mul_yield(1000, 5000, 86400).unwrap();
    let same_yield = math.complex_yield_calculation(1000, 5000, 86400, 10000).unwrap();
    assert_eq!(base_yield, same_yield);
}

#[test]
fn test_complex_yield_edge_cases() {
    let mut math = SafeMath128::new();

    // Test with zero time factor
    let result = math.complex_yield_calculation(1000, 5000, 0, 10000);
    assert!(result.is_ok());
    assert_eq!(result.unwrap(), 0);

    // Test with zero multiplier
    let result = math.complex_yield_calculation(1000, 5000, 86400, 0);
    assert!(result.is_ok());
    assert_eq!(result.unwrap(), 0);

    // Test with maximum multiplier
    let result = math.complex_yield_calculation(1, 1, 1, MAX_SAFE_YIELD_AMOUNT as u32);
    assert!(result.is_ok());
}

#[test]
fn complex_yield_refuses_a_principal_above_its_limit() {
    let mut math = SafeMath128::new();
    let too_large = MAX_SAFE_YIELD_AMOUNT / 1000 + 1;
    assert_eq!(
        math.complex_yield_calculation(too_large, 5000, 86400, 10000),
        Err(SafeMathError::PrincipalTooLarge(too_large))
    );
    // A yield too large for i128 is refused rather than wrapped.
    assert_eq!(
        math.complex_yield_calculation(MAX_SAFE_YIELD_AMOUNT / 1000, 10000, u64::MAX, u32::MAX),
        Err(SafeMathError::MultiplicationOverflow)
    );
}
