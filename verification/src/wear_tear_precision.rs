//! Precision-safe wear-and-tear deductions.
//!
//! Deductions are prorated over the elapsed share of a lease and taken as a
//! percentage of the deposit. Ceiling division favours the landlord, floor
//! division the tenant; the dropped remainders are recorded as dust. Products
//! saturate at the `i128` bounds instead of overflowing.
use vstd::prelude::*;

verus! {

/// Calculator that records the rounding dust of its deductions.
#[derive(Debug, Clone, Copy, PartialEq, Eq, Structural)]
pub struct WearTearCalculator {
    /// Sum of the remainders dropped by all deductions.
    pub cumulative_dust: i128,
    /// Number of deductions computed.
    pub operation_count: u64,
}

/// Summary of the dust record.
#[derive(Debug, Clone, Copy, PartialEq, Eq, Structural)]
pub struct WearTearPrecisionReport {
    pub cumulative_dust: i128,
    pub operation_count: u64,
    pub average_dust_per_operation: i128,
}

/// Errors of the deduction calculations.
#[derive(Debug, Clone, Copy, PartialEq, Eq, Structural)]
pub enum WearTearError {
    NegativeAmount(i128),
    DivisionByZero,
    InvalidTimeRange { elapsed: u64, total: u64 },
    InvalidBps(u32),
    InvalidPercentage(u32),
}

/// `v` clamped to the `i128` range, as saturating arithmetic gives it.
pub open spec fn saturate(v: int) -> int {
    if v > i128::MAX {
        i128::MAX as int
    } else if v < i128::MIN {
        i128::MIN as int
    } else {
        v
    }
}

/// The smaller of two integers.
pub open spec fn min_int(a: int, b: int) -> int {
    if a <= b { a } else { b }
}

/// The record after one more deduction that dropped `remainder`.
pub open spec fn with_dust(c: WearTearCalculator, remainder: int) -> WearTearCalculator {
    WearTearCalculator {
        cumulative_dust: saturate(c.cumulative_dust + remainder) as i128,
        operation_count: (c.operation_count + 1) as u64,
    }
}

/// Result and record of a prorated deduction (`ceiling` selects rounding).
pub open spec fn prorated_outcome(
    c: WearTearCalculator,
    total_amount: i128,
    elapsed_time: u64,
    total_time: u64,
    ceiling: bool,
) -> (Result<i128, WearTearError>, WearTearCalculator) {
    if total_amount < 0 {
        (Err(WearTearError::NegativeAmount(total_amount)), c)
    } else if total_time == 0 {
        (Err(WearTearError::DivisionByZero), c)
    } else if elapsed_time > total_time {
        (Err(WearTearError::InvalidTimeRange { elapsed: elapsed_time, total: total_time }), c)
    } else {
        let n = saturate(total_amount * elapsed_time);
        let q = if ceiling { saturate(n + total_time - 1) / total_time as int } else { n / total_time as int };
        (Ok(min_int(q, total_amount as int) as i128), with_dust(c, n % total_time as int))
    }
}

/// Result and record of a percentage deduction (`ceiling` selects rounding).
pub open spec fn percentage_outcome(c: WearTearCalculator, amount: i128, percentage_bps: u32, ceiling: bool) -> (
    Result<i128, WearTearError>,
    WearTearCalculator,
) {
    if amount < 0 {
        (Err(WearTearError::NegativeAmount(amount)), c)
    } else if percentage_bps > 10_000 {
        (Err(WearTearError::InvalidBps(percentage_bps)), c)
    } else {
        let n = saturate(amount * percentage_bps);
        let q = if ceiling { saturate(n + 9_999) / 10_000 } else { n / 10_000 };
        (Ok(min_int(q, amount as int) as i128), with_dust(c, n % 10_000))
    }
}

/// Result and record of `calculate_wear_tear_deduction`.
pub open spec fn wear_tear_outcome(
    c: WearTearCalculator,
    total_deposit: i128,
    damage_severity_percentage: u32,
    lease_elapsed_time: u64,
    lease_total_time: u64,
    ceiling: bool,
) -> (Result<i128, WearTearError>, WearTearCalculator) {
    if total_deposit < 0 {
        (Err(WearTearError::NegativeAmount(total_deposit)), c)
    } else if damage_severity_percentage > 100 {
        (Err(WearTearError::InvalidPercentage(damage_severity_percentage)), c)
    } else {
        let (r1, c1) = percentage_outcome(
            c,
            total_deposit,
            (damage_severity_percentage * 100) as u32,
            ceiling,
        );
        match r1 {
            Err(e) => (Err(e), c1),
            Ok(base) => if lease_elapsed_time < lease_total_time && lease_total_time > 0 {
                prorated_outcome(c1, base, lease_elapsed_time, lease_total_time, ceiling)
            } else {
                (Ok(base), c1)
            },
        }
    }
}

fn saturating_mul_i128(a: i128, b: i128) -> (r: i128)
    requires
        a >= 0,
        b >= 0,
    ensures
        r == saturate(a * b),
{
    match a.checked_mul(b) {
        Some(v) => v,
        None => {
            assert(a * b >= 0) by (nonlinear_arith)
                requires
                    a >= 0,
                    b >= 0,
            ;
            i128::MAX
        },
    }
}

fn saturating_add_i128(a: i128, b: i128) -> (r: i128)
    ensures
        r == saturate(a + b),
{
    match a.checked_add(b) {
        Some(v) => v,
        None => if a > 0 {
            i128::MAX
        } else {
            i128::MIN
        },
    }
}

impl WearTearCalculator {
    /// A calculator with an empty dust record.
    pub fn new() -> (r: Self)
        ensures
            r == (WearTearCalculator { cumulative_dust: 0, operation_count: 0 }),
    {
        WearTearCalculator { cumulative_dust: 0, operation_count: 0 }
    }

    fn record_dust(&mut self, remainder: i128)
        requires
            old(self).operation_count < u64::MAX,
        ensures
            *final(self) == with_dust(*old(self), remainder as int),
    {
        self.cumulative_dust = saturating_add_i128(self.cumulative_dust, remainder);
        self.operation_count = self.operation_count + 1;
    }

    /// `ceil(total_amount * elapsed_time / total_time)`, capped at the total
    /// amount, so the landlord never loses to rounding.
    pub fn calculate_prorated_deduction_ceiling(
        &mut self,
        total_amount: i128,
        elapsed_time: u64,
        total_time: u64,
    ) -> (r: Result<i128, WearTearError>)
        requires
            old(self).operation_count < u64::MAX,
        ensures
            (r, *final(self)) == prorated_outcome(*old(self), total_amount, elapsed_time, total_time, true),
    {
        if total_amount < 0 {
            return Err(WearTearError::NegativeAmount(total_amount));
        }
        if total_time == 0 {
            return Err(WearTearError::DivisionByZero);
        }
        if elapsed_time > total_time {
            return Err(WearTearError::InvalidTimeRange { elapsed: elapsed_time, total: total_time });
        }
        let numerator = saturating_mul_i128(total_amount, elapsed_time as i128);
        let denominator = total_time as i128;
        let ceiling_result = saturating_add_i128(numerator, denominator - 1) / denominator;
        let result = if ceiling_result <= total_amount { ceiling_result } else { total_amount };
        let remainder = numerator % denominator;
        self.record_dust(remainder);
        Ok(result)
    }

    /// `floor(total_amount * elapsed_time / total_time)`, capped at the total
    /// amount, so the tenant never loses to rounding.
    pub fn calculate_prorated_deduction_floor(
        &mut self,
        total_amount: i128,
        elapsed_time: u64,
        total_time: u64,
    ) -> (r: Result<i128, WearTearError>)
        requires
            old(self).operation_count < u64::MAX,
        ensures
            (r, *final(self)) == prorated_outcome(*old(self), total_amount, elapsed_time, total_time, false),
    {
        if total_amount < 0 {
            return Err(WearTearError::NegativeAmount(total_amount));
        }
        if total_time == 0 {
            return Err(WearTearError::DivisionByZero);
        }
        if elapsed_time > total_time {
            return Err(WearTearError::InvalidTimeRange { elapsed: elapsed_time, total: total_time });
        }
        let numerator = saturating_mul_i128(total_amount, elapsed_time as i128);
        let denominator = total_time as i128;
        let floor_result = numerator / denominator;
        let result = if floor_result <= total_amount { floor_result } else { total_amount };
        let remainder = numerator % denominator;
        self.record_dust(remainder);
        Ok(result)
    }

    /// `ceil(amount * percentage_bps / 10000)`, capped at the amount.
    pub fn calculate_percentage_deduction_ceiling(&mut self, amount: i128, percentage_bps: u32) -> (r:
        Result<i128, WearTearError>)
        requires
            old(self).operation_count < u64::MAX,
        ensures
            (r, *final(self)) == percentage_outcome(*old(self), amount, percentage_bps, true),
    {
        if amount < 0 {
            return Err(WearTearError::NegativeAmount(amount));
        }
        if percentage_bps > 10_000 {
            return Err(WearTearError::InvalidBps(percentage_bps));
        }
        let numerator = saturating_mul_i128(amount, percentage_bps as i128);
        let result = saturating_add_i128(numerator, 9_999) / 10_000;
        let remainder = numerator % 10_000;
        self.record_dust(remainder);
        Ok(if result <= amount { result } else { amount })
    }

    /// `floor(amount * percentage_bps / 10000)`, capped at the amount.
    pub fn calculate_percentage_deduction_floor(&mut self, amount: i128, percentage_bps: u32) -> (r:
        Result<i128, WearTearError>)
        requires
            old(self).operation_count < u64::MAX,
        ensures
            (r, *final(self)) == percentage_outcome(*old(self), amount, percentage_bps, false),
    {
        if amount < 0 {
            return Err(WearTearError::NegativeAmount(amount));
        }
        if percentage_bps > 10_000 {
            return Err(WearTearError::InvalidBps(percentage_bps));
        }
        let numerator = saturating_mul_i128(amount, percentage_bps as i128);
        let result = numerator / 10_000;
        let remainder = numerator % 10_000;
        self.record_dust(remainder);
        Ok(if result <= amount { result } else { amount })
    }

    /// Deduction for damage of the given severity (0–100% of the deposit),
    /// prorated over the elapsed share of the lease when the lease ended
    /// early. `use_ceiling_division` rounds for the landlord, otherwise for
    /// the tenant. The operation counter, incremented without wrapping, must
    /// have room for the two operations the deduction records.
    pub fn calculate_wear_tear_deduction(
        &mut self,
        total_deposit: i128,
        damage_severity_percentage: u32,
        lease_elapsed_time: u64,
        lease_total_time: u64,
        use_ceiling_division: bool,
    ) -> (r: Result<i128, WearTearError>)
        requires
            old(self).operation_count + 2 <= u64::MAX,
        ensures
            (r, *final(self)) == wear_tear_outcome(
                *old(self),
                total_deposit,
                damage_severity_percentage,
                lease_elapsed_time,
                lease_total_time,
                use_ceiling_division,
            ),
    {
        if total_deposit < 0 {
            return Err(WearTearError::NegativeAmount(total_deposit));
        }
        if damage_severity_percentage > 100 {
            return Err(WearTearError::InvalidPercentage(damage_severity_percentage));
        }
        let base_deduction = if use_ceiling_division {
            match self.calculate_percentage_deduction_ceiling(
                total_deposit,
                damage_severity_percentage * 100,
            ) {
                Err(e) => return Err(e),
                Ok(v) => v,
            }
        } else {
            match self.calculate_percentage_deduction_floor(
                total_deposit,
                damage_severity_percentage * 100,
            ) {
                Err(e) => return Err(e),
                Ok(v) => v,
            }
        };
        if lease_elapsed_time < lease_total_time && lease_total_time > 0 {
            if use_ceiling_division {
                self.calculate_prorated_deduction_ceiling(
                    base_deduction,
                    lease_elapsed_time,
                    lease_total_time,
                )
            } else {
                self.calculate_prorated_deduction_floor(
                    base_deduction,
                    lease_elapsed_time,
                    lease_total_time,
                )
            }
        } else {
            Ok(base_deduction)
        }
    }

    /// The dust record with its average per deduction.
    pub fn get_precision_report(&self) -> (r: WearTearPrecisionReport)
        ensures
            r == (WearTearPrecisionReport {
                cumulative_dust: self.cumulative_dust,
                operation_count: self.operation_count,
                average_dust_per_operation: if self.operation_count > 0 {
                    crate::rates::trunc_div(self.cumulative_dust as int, self.operation_count as int) as i128
                } else {
                    0
                },
            }),
    {
        WearTearPrecisionReport {
            cumulative_dust: self.cumulative_dust,
            operation_count: self.operation_count,
            average_dust_per_operation: if self.operation_count > 0 {
                self.cumulative_dust / (self.operation_count as i128)
            } else {
                0
            },
        }
    }

    /// Clears the dust record.
    pub fn reset(&mut self)
        ensures
            *final(self) == (WearTearCalculator { cumulative_dust: 0, operation_count: 0 }),
    {
        *self = Self::new();
    }
}

/// Every successful deduction lies between zero and the amount it is taken
/// from.
pub proof fn lemma_deductions_are_bounded(
    c: WearTearCalculator,
    amount: i128,
    elapsed_time: u64,
    total_time: u64,
    percentage_bps: u32,
    ceiling: bool,
)
    ensures
        prorated_outcome(c, amount, elapsed_time, total_time, ceiling).0 is Ok ==> 0
            <= prorated_outcome(c, amount, elapsed_time, total_time, ceiling).0->Ok_0 <= amount,
        percentage_outcome(c, amount, percentage_bps, ceiling).0 is Ok ==> 0 <= percentage_outcome(
            c,
            amount,
            percentage_bps,
            ceiling,
        ).0->Ok_0 <= amount,
{
    if amount >= 0 {
        assert(amount * elapsed_time >= 0 && amount * percentage_bps >= 0) by (nonlinear_arith)
            requires
                amount >= 0,
                elapsed_time >= 0,
                percentage_bps >= 0,
        ;
    }
}

/// Without saturation, the floor and the ceiling deduction bracket the
/// exact prorated share and differ by at most one.
pub proof fn lemma_prorated_rounding_brackets_exact_share(
    c: WearTearCalculator,
    amount: i128,
    elapsed_time: u64,
    total_time: u64,
)
    requires
        prorated_outcome(c, amount, elapsed_time, total_time, false).0 is Ok,
        amount * elapsed_time + total_time <= i128::MAX,
    ensures
        ({
            let f = prorated_outcome(c, amount, elapsed_time, total_time, false).0->Ok_0 as int;
            let g = prorated_outcome(c, amount, elapsed_time, total_time, true).0->Ok_0 as int;
            &&& f * total_time <= amount * elapsed_time <= g * total_time
            &&& f <= g <= f + 1
        }),
{
    let n = amount * elapsed_time;
    let t = total_time as int;
    assert(0 <= n <= amount * t) by (nonlinear_arith)
        requires
            amount >= 0,
            0 <= elapsed_time <= t,
            n == amount * elapsed_time,
    ;
    assert((n / t) * t <= n) by (nonlinear_arith)
        requires
            t > 0,
            n >= 0,
    ;
    assert(n <= ((n + t - 1) / t) * t) by (nonlinear_arith)
        requires
            t > 0,
            n >= 0,
    ;
    assert(n / t <= (n + t - 1) / t <= n / t + 1) by (nonlinear_arith)
        requires
            t > 0,
            n >= 0,
    ;
    assert(n / t <= amount) by (nonlinear_arith)
        requires
            t > 0,
            0 <= n <= amount * t,
    ;
    assert((n + t - 1) / t <= amount) by (nonlinear_arith)
        requires
            t > 0,
            0 <= n <= amount * t,
            amount >= 0,
    ;
}

proof fn lemma_prorated_rounding_ordered(
    c1: WearTearCalculator,
    c2: WearTearCalculator,
    a1: i128,
    a2: i128,
    elapsed_time: u64,
    total_time: u64,
)
    requires
        0 <= a1 <= a2,
        0 < total_time,
        elapsed_time <= total_time,
    ensures
        prorated_outcome(c1, a1, elapsed_time, total_time, false).0 is Ok,
        prorated_outcome(c2, a2, elapsed_time, total_time, true).0 is Ok,
        prorated_outcome(c1, a1, elapsed_time, total_time, false).0->Ok_0 <= prorated_outcome(
            c2,
            a2,
            elapsed_time,
            total_time,
            true,
        ).0->Ok_0,
{
    let t = total_time as int;
    assert(0 <= a1 * elapsed_time <= a2 * elapsed_time) by (nonlinear_arith)
        requires
            0 <= a1 <= a2,
            elapsed_time >= 0,
    ;
    let n1 = saturate(a1 * elapsed_time);
    let n2 = saturate(a2 * elapsed_time);
    assert(0 <= n1 <= n2);
    assert(n2 <= saturate(n2 + t - 1));
    vstd::arithmetic::div_mod::lemma_div_is_ordered(n1, saturate(n2 + t - 1), t);
}

proof fn lemma_percentage_rounding_ordered(
    c1: WearTearCalculator,
    c2: WearTearCalculator,
    amount: i128,
    percentage_bps: u32,
)
    requires
        0 <= amount,
        percentage_bps <= 10_000,
    ensures
        ({
            let f = percentage_outcome(c1, amount, percentage_bps, false).0;
            let g = percentage_outcome(c2, amount, percentage_bps, true).0;
            &&& f is Ok
            &&& g is Ok
            &&& 0 <= f->Ok_0 <= g->Ok_0
        }),
{
    assert(0 <= amount * percentage_bps) by (nonlinear_arith)
        requires
            0 <= amount,
            percentage_bps >= 0,
    ;
    let n = saturate(amount * percentage_bps);
    assert(n <= saturate(n + 9_999));
    vstd::arithmetic::div_mod::lemma_div_is_ordered(n, saturate(n + 9_999), 10_000);
}

/// Rounding in the landlord's favour never deducts less than rounding in
/// the tenant's: for the same deposit, severity and lease times, the
/// ceiling deduction is at least the floor deduction, whatever either
/// calculator recorded before.
pub proof fn lemma_ceiling_deduction_at_least_floor(
    landlord: WearTearCalculator,
    tenant: WearTearCalculator,
    total_deposit: i128,
    damage_severity_percentage: u32,
    lease_elapsed_time: u64,
    lease_total_time: u64,
)
    requires
        wear_tear_outcome(
            landlord,
            total_deposit,
            damage_severity_percentage,
            lease_elapsed_time,
            lease_total_time,
            true,
        ).0 is Ok,
        wear_tear_outcome(
            tenant,
            total_deposit,
            damage_severity_percentage,
            lease_elapsed_time,
            lease_total_time,
            false,
        ).0 is Ok,
    ensures
        wear_tear_outcome(
            tenant,
            total_deposit,
            damage_severity_percentage,
            lease_elapsed_time,
            lease_total_time,
            false,
        ).0->Ok_0 <= wear_tear_outcome(
            landlord,
            total_deposit,
            damage_severity_percentage,
            lease_elapsed_time,
            lease_total_time,
            true,
        ).0->Ok_0,
{
    let bps = (damage_severity_percentage * 100) as u32;
    lemma_percentage_rounding_ordered(tenant, landlord, total_deposit, bps);
    let (rf, cf) = percentage_outcome(tenant, total_deposit, bps, false);
    let (rc, cc) = percentage_outcome(landlord, total_deposit, bps, true);
    if lease_elapsed_time < lease_total_time && lease_total_time > 0 {
        lemma_prorated_rounding_ordered(
            cf,
            cc,
            rf->Ok_0,
            rc->Ok_0,
            lease_elapsed_time,
            lease_total_time,
        );
    }
}

} // verus!
