use leaseflow::performance_benchmarks::{
    baseline_bps_division, baseline_mul_yield, baseline_yield_distribution, calculate_summary_statistics,
    estimate_gas_cost, BenchmarkResult, SummaryStatistics,
};

fn result(name: &str, total: u128, avg: u128, ops: u64, gas: u64) -> BenchmarkResult {
    BenchmarkResult {
        operation_name: String::from(name),
        iterations: 10,
        total_time_nanos: total,
        avg_time_per_op_nanos: avg,
        ops_per_second: ops,
        gas_estimate: gas,
    }
}

#[test]
fn test_gas_estimation() {
    let gas_cost = estimate_gas_cost("safe_mul_yield");
    assert!(gas_cost > 0);
    // The savings percentage of the optimized operation against its baseline.
    let optimized = estimate_gas_cost("safe_mul_yield");
    let baseline = estimate_gas_cost("baseline_mul_yield");
    let gas_savings = ((baseline - optimized) as f64 / baseline as f64) * 100.0;
    assert!(gas_savings >= 0.0);
}

#[test]
fn test_baseline_implementations() {
    // Test baseline multiplication
    let result = baseline_mul_yield(1000, 5000, 86400);
    // 1000 * 5000 * 86400 / 10000 = 43_200_000.
    assert_eq!(result, Some(43200000));
    // Test baseline BPS division
    let result = baseline_bps_division(1000, 3333);
    assert_eq!(result, Some(333));
    // Test baseline yield distribution
    let result = baseline_yield_distribution(1000);
    assert_eq!(result, Some((500, 300, 200)));
}

#[test]
fn the_gas_model_charges_each_operation() {
    assert_eq!(estimate_gas_cost("safe_mul_yield"), 15000);
    assert_eq!(estimate_gas_cost("safe_bps_division_ceiling"), 13000);
    assert_eq!(estimate_gas_cost("batch_yield_calculation"), 50000);
    assert_eq!(estimate_gas_cost("baseline_yield_distribution"), 25000);
    assert_eq!(estimate_gas_cost("something_else"), 10000);
    assert_eq!(estimate_gas_cost(""), 10000);
}

#[test]
fn reference_implementations_round_towards_zero() {
    assert_eq!(baseline_mul_yield(-1000, 3, 7), Some(-2));
    assert_eq!(baseline_bps_division(-1000, 3333), Some(-333));
    assert_eq!(baseline_yield_distribution(7), Some((3, 2, 1)));
}

#[test]
fn summary_of_no_results() {
    assert_eq!(
        calculate_summary_statistics(&Vec::new()),
        SummaryStatistics {
            total_operations_benchmarked: 0,
            average_time_per_operation_nanos: 0,
            fastest_operation_nanos: u128::MAX,
            slowest_operation_nanos: 0,
            total_gas_saved_estimate: 0,
            number_of_benchmarks: 0,
        }
    );
}

#[test]
fn summary_totals_and_extremes() {
    let results = vec![
        result("a", 1000, 100, 10, 15000),
        result("b", 3000, 300, 3, 8000),
        result("c", 2001, 200, 5, 12000),
    ];
    assert_eq!(
        calculate_summary_statistics(&results),
        SummaryStatistics {
            total_operations_benchmarked: 18,
            average_time_per_operation_nanos: 2000,
            fastest_operation_nanos: 100,
            slowest_operation_nanos: 300,
            total_gas_saved_estimate: 35000,
            number_of_benchmarks: 3,
        }
    );
}
