//! What the performance benchmarks compute besides timing: the gas model of
//! each benchmarked operation, the unchecked reference implementations the
//! safe math is compared against, and the summary of a set of results.
use vstd::prelude::*;

verus! {

/// The timing of one benchmarked operation.
#[derive(Clone, Debug, PartialEq, Eq)]
pub struct BenchmarkResult {
    pub operation_name: String,
    pub iterations: u64,
    pub total_time_nanos: u128,
    pub avg_time_per_op_nanos: u128,
    pub ops_per_second: u64,
    pub gas_estimate: u64,
}

/// Totals and extremes over a set of benchmark results.
#[derive(Copy, Clone, Debug, PartialEq, Eq, Structural)]
pub struct SummaryStatistics {
    /// The sum of the operations per second of every result.
    pub total_operations_benchmarked: u64,
    pub average_time_per_operation_nanos: u128,
    pub fastest_operation_nanos: u128,
    pub slowest_operation_nanos: u128,
    /// The sum of the gas estimates of every result.
    pub total_gas_saved_estimate: u64,
    pub number_of_benchmarks: u64,
}

/// The gas the cost model charges for the operation named `op`.
pub open spec fn gas_cost_of(op: Seq<char>) -> u64 {
    if op == "safe_mul_yield"@ {
        15000
    } else if op == "safe_add_yield"@ {
        8000
    } else if op == "safe_sub_yield"@ {
        8000
    } else if op == "safe_bps_division_floor"@ {
        12000
    } else if op == "safe_bps_division_ceiling"@ {
        13000
    } else if op == "complex_yield_calculation"@ {
        25000
    } else if op == "enhanced_yield_generation"@ {
        35000
    } else if op == "batch_yield_calculation"@ {
        50000
    } else if op == "yield_distribution"@ {
        20000
    } else if op == "overflow_detection"@ {
        10000
    } else if op == "precision_tracking"@ {
        9000
    } else if op == "memory_allocation"@ {
        5000
    } else if op == "baseline_mul_yield"@ {
        20000
    } else if op == "baseline_bps_division"@ {
        18000
    } else if op == "baseline_yield_distribution"@ {
        25000
    } else {
        10000
    }
}

fn is_named(op: &String, name: &str) -> (r: bool)
    ensures
        r == (op@ == name@),
{
    *op == name.to_owned()
}

/// The gas the cost model charges for `operation`; operations it does not
/// know cost 10000.
pub fn estimate_gas_cost(operation: &str) -> (r: u64)
    ensures
        r == gas_cost_of(operation@),
{
    let op = operation.to_owned();
    if is_named(&op, "safe_mul_yield") {
        15000
    } else if is_named(&op, "safe_add_yield") {
        8000
    } else if is_named(&op, "safe_sub_yield") {
        8000
    } else if is_named(&op, "safe_bps_division_floor") {
        12000
    } else if is_named(&op, "safe_bps_division_ceiling") {
        13000
    } else if is_named(&op, "complex_yield_calculation") {
        25000
    } else if is_named(&op, "enhanced_yield_generation") {
        35000
    } else if is_named(&op, "batch_yield_calculation") {
        50000
    } else if is_named(&op, "yield_distribution") {
        20000
    } else if is_named(&op, "overflow_detection") {
        10000
    } else if is_named(&op, "precision_tracking") {
        9000
    } else if is_named(&op, "memory_allocation") {
        5000
    } else if is_named(&op, "baseline_mul_yield") {
        20000
    } else if is_named(&op, "baseline_bps_division") {
        18000
    } else if is_named(&op, "baseline_yield_distribution") {
        25000
    } else {
        10000
    }
}

/// `principal * rate_bps * time_factor / 10000`, unchecked but for the
/// products fitting an `i128`; rounded towards zero.
pub fn baseline_mul_yield(principal: i128, rate_bps: u32, time_factor: u64) -> (r: Option<i128>)
    requires
        i128::MIN <= principal * rate_bps <= i128::MAX,
        i128::MIN <= principal * rate_bps * time_factor <= i128::MAX,
    ensures
        r == Some(crate::rates::trunc_div(principal * rate_bps * time_factor, 10000) as i128),
{
    let product = principal * (rate_bps as i128) * (time_factor as i128);
    Some(product / 10000)
}

/// `amount * bps / 10000`, rounded towards zero.
pub fn baseline_bps_division(amount: i128, bps: u32) -> (r: Option<i128>)
    requires
        i128::MIN <= amount * bps <= i128::MAX,
    ensures
        r == Some(crate::rates::trunc_div(amount * bps, 10000) as i128),
{
    let product = amount * (bps as i128);
    Some(product / 10000)
}

/// A 50/30/20 split of `total_yield`, each share rounded towards zero and
/// the dust dropped.
pub fn baseline_yield_distribution(total_yield: i128) -> (r: Option<(i128, i128, i128)>)
    requires
        i128::MIN <= total_yield * 5000 <= i128::MAX,
    ensures
        r == Some(
            (
                crate::rates::trunc_div(total_yield * 5000, 10000) as i128,
                crate::rates::trunc_div(total_yield * 3000, 10000) as i128,
                crate::rates::trunc_div(total_yield * 2000, 10000) as i128,
            ),
        ),
{
    let half = total_yield * 5000;
    let lessor = total_yield * 3000;
    let dao = total_yield * 2000;
    Some((half / 10000, lessor / 10000, dao / 10000))
}

/// The sum of the operations per second of `results`.
pub open spec fn ops_total(results: Seq<BenchmarkResult>) -> int
    decreases results.len(),
{
    if results.len() == 0 {
        0
    } else {
        ops_total(results.drop_last()) + results.last().ops_per_second
    }
}

/// The sum of the total times of `results`.
pub open spec fn time_total(results: Seq<BenchmarkResult>) -> int
    decreases results.len(),
{
    if results.len() == 0 {
        0
    } else {
        time_total(results.drop_last()) + results.last().total_time_nanos
    }
}

/// The sum of the gas estimates of `results`.
pub open spec fn gas_total(results: Seq<BenchmarkResult>) -> int
    decreases results.len(),
{
    if results.len() == 0 {
        0
    } else {
        gas_total(results.drop_last()) + results.last().gas_estimate
    }
}

/// The least average time per operation of `results`, `u128::MAX` for none.
pub open spec fn fastest(results: Seq<BenchmarkResult>) -> u128
    decreases results.len(),
{
    if results.len() == 0 {
        u128::MAX
    } else {
        let rest = fastest(results.drop_last());
        let t = results.last().avg_time_per_op_nanos;
        if t < rest { t } else { rest }
    }
}

/// The greatest average time per operation of `results`, 0 for none.
pub open spec fn slowest(results: Seq<BenchmarkResult>) -> u128
    decreases results.len(),
{
    if results.len() == 0 {
        0
    } else {
        let rest = slowest(results.drop_last());
        let t = results.last().avg_time_per_op_nanos;
        if t > rest { t } else { rest }
    }
}

/// The summary of `results`.
pub open spec fn summary_of(results: Seq<BenchmarkResult>) -> SummaryStatistics {
    SummaryStatistics {
        total_operations_benchmarked: ops_total(results) as u64,
        average_time_per_operation_nanos: if results.len() > 0 {
            (time_total(results) / (results.len() as int)) as u128
        } else {
            0
        },
        fastest_operation_nanos: fastest(results),
        slowest_operation_nanos: slowest(results),
        total_gas_saved_estimate: gas_total(results) as u64,
        number_of_benchmarks: results.len() as u64,
    }
}

proof fn lemma_prefix_totals(results: Seq<BenchmarkResult>, i: int)
    requires
        0 <= i <= results.len(),
    ensures
        0 <= ops_total(results.take(i)) <= ops_total(results),
        0 <= time_total(results.take(i)) <= time_total(results),
        0 <= gas_total(results.take(i)) <= gas_total(results),
    decreases results.len(),
{
    if i == results.len() {
        assert(results.take(i) =~= results);
        lemma_totals_nonnegative(results);
    } else {
        lemma_prefix_totals(results.drop_last(), i);
        assert(results.drop_last().take(i) =~= results.take(i));
    }
}

proof fn lemma_totals_nonnegative(results: Seq<BenchmarkResult>)
    ensures
        ops_total(results) >= 0,
        time_total(results) >= 0,
        gas_total(results) >= 0,
    decreases results.len(),
{
    if results.len() > 0 {
        lemma_totals_nonnegative(results.drop_last());
    }
}

/// Sums the operations per second, the times and the gas estimates of
/// `results`, averages the times over the results and finds the fastest
/// and slowest average time per operation.
pub fn calculate_summary_statistics(results: &Vec<BenchmarkResult>) -> (r: SummaryStatistics)
    requires
        ops_total(results@) <= u64::MAX,
        time_total(results@) <= u128::MAX,
        gas_total(results@) <= u64::MAX,
    ensures
        r == summary_of(results@),
{
    let mut total_ops: u64 = 0;
    let mut total_time: u128 = 0;
    let mut fastest_op: u128 = u128::MAX;
    let mut slowest_op: u128 = 0;
    let mut gas_saved_total: u64 = 0;
    let mut i: usize = 0;
    while i < results.len()
        invariant
            0 <= i <= results@.len(),
            ops_total(results@) <= u64::MAX,
            time_total(results@) <= u128::MAX,
            gas_total(results@) <= u64::MAX,
            total_ops == ops_total(results@.take(i as int)),
            total_time == time_total(results@.take(i as int)),
            gas_saved_total == gas_total(results@.take(i as int)),
            fastest_op == fastest(results@.take(i as int)),
            slowest_op == slowest(results@.take(i as int)),
        decreases results@.len() - i,
    {
        let ghost next = results@.take(i as int + 1);
        assert(next.drop_last() =~= results@.take(i as int));
        proof {
            lemma_prefix_totals(results@, i as int + 1);
        }
        let result = &results[i];
        total_ops = total_ops + result.ops_per_second;
        total_time = total_time + result.total_time_nanos;
        if result.avg_time_per_op_nanos < fastest_op {
            fastest_op = result.avg_time_per_op_nanos;
        }
        if result.avg_time_per_op_nanos > slowest_op {
            slowest_op = result.avg_time_per_op_nanos;
        }
        gas_saved_total = gas_saved_total + result.gas_estimate;
        i = i + 1;
    }
    assert(results@.take(results@.len() as int) =~= results@);
    let count = results.len();
    let avg_time_per_op = if count > 0 {
        total_time / (count as u128)
    } else {
        0
    };
    SummaryStatistics {
        total_operations_benchmarked: total_ops,
        average_time_per_operation_nanos: avg_time_per_op,
        fastest_operation_nanos: fastest_op,
        slowest_operation_nanos: slowest_op,
        total_gas_saved_estimate: gas_saved_total,
        number_of_benchmarks: count as u64,
    }
}

} // verus!
