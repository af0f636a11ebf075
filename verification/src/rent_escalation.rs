//! Overflow-safe rent escalation for lease instances.
//!
//! Every step raises the rent by `rate_bps` basis points of the current rent,
//! rounded toward zero. All arithmetic is checked; a step that would leave the
//! agreed cap is refused rather than clamped.
use vstd::prelude::*;

verus! {

/// Basis-points denominator (10_000 = 100%).
pub const BPS_DENOMINATOR: i128 = 10_000;

/// Maximum single-step escalation: 50% in basis points.
pub const MAX_ESCALATION_RATE_BPS: i128 = 5_000;

/// Absolute rent ceiling in stroops.
pub const MAX_RENT_AMOUNT: i128 = 1_000_000_000_000;

/// Maximum number of escalation steps over a lease lifetime.
pub const MAX_ESCALATION_STEPS: u32 = 120;

/// Reasons an escalation schedule is refused.
#[derive(Clone, Copy, Debug, PartialEq, Eq, Structural)]
pub enum EscalationError {
    /// The rate is negative.
    EscalationRateNegative,
    /// The rate exceeds `MAX_ESCALATION_RATE_BPS`.
    EscalationRateTooHigh,
    /// The interval is zero while the rate is not.
    EscalationIntervalZero,
    /// A single escalation step would overflow `i128`.
    EscalatedRentOverflow,
    /// The escalated rent would exceed the agreed cap.
    EscalatedRentExceedsCap,
    /// The base rent (or the cap) exceeds `MAX_RENT_AMOUNT`.
    RentAmountExceedsMaxAllowed,
    /// The compounded schedule over the lease lifetime is out of bounds.
    CumulativeEscalationOverflow,
    /// The cap is set below the base rent.
    RentCapBelowBaseRent,
}

impl EscalationError {
    /// The numeric contract error code of this error.
    pub fn code(&self) -> (c: u32)
        ensures
            c == escalation_error_code(*self),
    {
        match self {
            EscalationError::EscalationRateNegative => 100,
            EscalationError::EscalationRateTooHigh => 101,
            EscalationError::EscalationIntervalZero => 102,
            EscalationError::EscalatedRentOverflow => 103,
            EscalationError::EscalatedRentExceedsCap => 104,
            EscalationError::RentAmountExceedsMaxAllowed => 105,
            EscalationError::CumulativeEscalationOverflow => 106,
            EscalationError::RentCapBelowBaseRent => 107,
        }
    }
}

/// The numeric code of each escalation error.
pub open spec fn escalation_error_code(e: EscalationError) -> u32 {
    match e {
        EscalationError::EscalationRateNegative => 100,
        EscalationError::EscalationRateTooHigh => 101,
        EscalationError::EscalationIntervalZero => 102,
        EscalationError::EscalatedRentOverflow => 103,
        EscalationError::EscalatedRentExceedsCap => 104,
        EscalationError::RentAmountExceedsMaxAllowed => 105,
        EscalationError::CumulativeEscalationOverflow => 106,
        EscalationError::RentCapBelowBaseRent => 107,
    }
}

/// Escalation state attached to a lease.
#[derive(Clone, Copy, Debug, PartialEq, Eq, Structural)]
pub struct EscalationConfig {
    /// Periodic increase in basis points (0 = fixed rent).
    pub rate_bps: i128,
    /// Ledgers between escalation steps.
    pub interval_ledgers: u32,
    /// Ledger sequence at which the next step becomes due.
    pub next_escalation_ledger: u32,
    /// Steps applied so far.
    pub steps_applied: u32,
    /// Hard cap on the rent (0 or less = use `MAX_RENT_AMOUNT`).
    pub rent_cap: i128,
    /// The current, possibly escalated, rent.
    pub current_rent: i128,
}

/// `true` iff `v` fits in an `i128`.
pub open spec fn fits_i128(v: int) -> bool {
    i128::MIN <= v <= i128::MAX
}

/// One escalation step on mathematical integers.
pub open spec fn escalation_step(rent: int, rate_bps: int) -> int {
    rent + crate::rates::trunc_div(rent * rate_bps, 10_000)
}

/// The rent after `steps` escalation steps from `base`.
pub open spec fn compounded_rent(base: int, rate_bps: int, steps: nat) -> int
    decreases steps,
{
    if steps == 0 {
        base
    } else {
        escalation_step(compounded_rent(base, rate_bps, (steps - 1) as nat), rate_bps)
    }
}

/// The cap that a schedule is held to.
pub open spec fn effective_cap(rent_cap: int) -> int {
    if rent_cap > 0 {
        if rent_cap < MAX_RENT_AMOUNT { rent_cap } else { MAX_RENT_AMOUNT as int }
    } else {
        MAX_RENT_AMOUNT as int
    }
}

/// What `validate_escalation_config` decides.
pub open spec fn escalation_validation(
    rate_bps: int,
    interval_ledgers: int,
    base_rent: int,
    rent_cap: int,
) -> Result<(), EscalationError> {
    if rate_bps < 0 {
        Err(EscalationError::EscalationRateNegative)
    } else if rate_bps == 0 {
        Ok(())
    } else if rate_bps > MAX_ESCALATION_RATE_BPS {
        Err(EscalationError::EscalationRateTooHigh)
    } else if interval_ledgers == 0 {
        Err(EscalationError::EscalationIntervalZero)
    } else if base_rent > MAX_RENT_AMOUNT {
        Err(EscalationError::RentAmountExceedsMaxAllowed)
    } else if rent_cap > 0 && rent_cap < base_rent {
        Err(EscalationError::RentCapBelowBaseRent)
    } else if rent_cap > 0 && rent_cap > MAX_RENT_AMOUNT {
        Err(EscalationError::RentAmountExceedsMaxAllowed)
    } else if !fits_i128(base_rent * rate_bps) || !fits_i128(
        base_rent + crate::rates::trunc_div(base_rent * rate_bps, 10_000),
    ) {
        Err(EscalationError::EscalatedRentOverflow)
    } else if base_rent < 0 {
        Err(EscalationError::CumulativeEscalationOverflow)
    } else if rent_cap <= 0 && escalation_step(base_rent, rate_bps) > MAX_RENT_AMOUNT {
        Err(EscalationError::CumulativeEscalationOverflow)
    } else {
        Ok(())
    }
}

/// A step never lowers a non-negative rent under a non-negative rate.
pub proof fn lemma_step_grows(rent: int, rate_bps: int)
    requires
        rent >= 0,
        rate_bps >= 0,
    ensures
        escalation_step(rent, rate_bps) >= rent,
{
    assert(rent * rate_bps >= 0) by (nonlinear_arith)
        requires
            rent >= 0,
            rate_bps >= 0,
    ;
}

/// A step keeps a rent at most `MAX_RENT_AMOUNT` under one and a half times it.
pub proof fn lemma_step_bounded(rent: int, rate_bps: int)
    requires
        0 <= rent <= MAX_RENT_AMOUNT,
        0 <= rate_bps <= MAX_ESCALATION_RATE_BPS,
    ensures
        0 <= rent * rate_bps <= MAX_RENT_AMOUNT * MAX_ESCALATION_RATE_BPS,
        rent <= escalation_step(rent, rate_bps) <= rent + rent / 2,
{
    assert(0 <= rent * rate_bps <= rent * MAX_ESCALATION_RATE_BPS) by (nonlinear_arith)
        requires
            0 <= rent,
            0 <= rate_bps <= MAX_ESCALATION_RATE_BPS,
    ;
    assert(rent * MAX_ESCALATION_RATE_BPS <= MAX_RENT_AMOUNT * MAX_ESCALATION_RATE_BPS)
        by (nonlinear_arith)
        requires
            0 <= rent <= MAX_RENT_AMOUNT,
    ;
    assert((rent * rate_bps) / 10_000 <= (rent * 5_000) / 10_000) by (nonlinear_arith)
        requires
            rent * rate_bps <= rent * 5_000,
            0 <= rent * rate_bps,
    ;
}

/// The compounded rent of a non-negative base never decreases with more steps.
pub proof fn lemma_compounded_monotone(base: int, rate_bps: int, i: nat, j: nat)
    requires
        base >= 0,
        rate_bps >= 0,
        i <= j,
    ensures
        base <= compounded_rent(base, rate_bps, i) <= compounded_rent(base, rate_bps, j),
    decreases j,
{
    if j == 0 {
    } else {
        let k = (j - 1) as nat;
        if i == j {
            lemma_compounded_monotone(base, rate_bps, k, k);
        } else {
            lemma_compounded_monotone(base, rate_bps, i, k);
        }
        lemma_step_grows(compounded_rent(base, rate_bps, k), rate_bps);
    }
}

/// Validates an escalation schedule before a lease is stored.
///
/// A fixed-rent schedule (rate 0) is always accepted. Otherwise the rate, the
/// interval, the base rent and the cap are checked in turn, the first step is
/// checked for overflow, a negative base rent is refused, and a schedule
/// without its own cap is refused when its first step already exceeds
/// `MAX_RENT_AMOUNT`. Later steps beyond the cap are not refused here: the
/// runtime escalation refuses each of them when it comes due.
pub fn validate_escalation_config(
    rate_bps: i128,
    interval_ledgers: u32,
    base_rent: i128,
    rent_cap: i128,
) -> (r: Result<(), EscalationError>)
    ensures
        r == escalation_validation(rate_bps as int, interval_ledgers as int, base_rent as int, rent_cap as int),
{
    if rate_bps < 0 {
        return Err(EscalationError::EscalationRateNegative);
    }
    if rate_bps == 0 {
        return Ok(());
    }
    if rate_bps > MAX_ESCALATION_RATE_BPS {
        return Err(EscalationError::EscalationRateTooHigh);
    }
    if interval_ledgers == 0 {
        return Err(EscalationError::EscalationIntervalZero);
    }
    if base_rent > MAX_RENT_AMOUNT {
        return Err(EscalationError::RentAmountExceedsMaxAllowed);
    }
    if rent_cap > 0 {
        if rent_cap < base_rent {
            return Err(EscalationError::RentCapBelowBaseRent);
        }
        if rent_cap > MAX_RENT_AMOUNT {
            return Err(EscalationError::RentAmountExceedsMaxAllowed);
        }
    }
    // The first step must not overflow.
    let product = match base_rent.checked_mul(rate_bps) {
        Some(p) => p,
        None => return Err(EscalationError::EscalatedRentOverflow),
    };
    let increment = product / BPS_DENOMINATOR;
    match base_rent.checked_add(increment) {
        Some(_) => {},
        None => return Err(EscalationError::EscalatedRentOverflow),
    }
    // A negative base rent has no meaningful compounded schedule.
    if base_rent < 0 {
        return Err(EscalationError::CumulativeEscalationOverflow);
    }
    // Without its own cap, a schedule whose very first step already leaves
    // `MAX_RENT_AMOUNT` could never escalate; later steps that would leave
    // it are refused one by one at runtime.
    if rent_cap <= 0 && base_rent + increment > MAX_RENT_AMOUNT {
        return Err(EscalationError::CumulativeEscalationOverflow);
    }
    Ok(())
}

/// What `apply_escalation` does to a configuration at a given ledger.
pub open spec fn escalation_applied(config: EscalationConfig, current_ledger: u32) -> Result<
    EscalationConfig,
    EscalationError,
> {
    if config.rate_bps == 0 || current_ledger < config.next_escalation_ledger
        || config.steps_applied >= MAX_ESCALATION_STEPS {
        Ok(config)
    } else if !fits_i128(config.current_rent * config.rate_bps) || !fits_i128(
        escalation_step(config.current_rent as int, config.rate_bps as int),
    ) {
        Err(EscalationError::EscalatedRentOverflow)
    } else if escalation_step(config.current_rent as int, config.rate_bps as int) > effective_cap(
        config.rent_cap as int,
    ) {
        Err(EscalationError::EscalatedRentExceedsCap)
    } else {
        Ok(
            EscalationConfig {
                current_rent: escalation_step(
                    config.current_rent as int,
                    config.rate_bps as int,
                ) as i128,
                steps_applied: (config.steps_applied + 1) as u32,
                next_escalation_ledger: saturating_add_u32(current_ledger, config.interval_ledgers),
                ..config
            },
        )
    }
}

/// `a + b`, or `u32::MAX` where that overflows.
pub open spec fn saturating_add_u32(a: u32, b: u32) -> u32 {
    if a + b > u32::MAX { u32::MAX } else { (a + b) as u32 }
}

/// Applies the next escalation step if it is due at `current_ledger`.
///
/// The configuration comes back unchanged for a fixed-rent lease, when the
/// step is not yet due, or once `MAX_ESCALATION_STEPS` steps were applied.
pub fn apply_escalation(config: EscalationConfig, current_ledger: u32) -> (r: Result<
    EscalationConfig,
    EscalationError,
>)
    ensures
        r == escalation_applied(config, current_ledger),
{
    if config.rate_bps == 0 {
        return Ok(config);
    }
    if current_ledger < config.next_escalation_ledger {
        return Ok(config);
    }
    if config.steps_applied >= MAX_ESCALATION_STEPS {
        return Ok(config);
    }
    let product = match config.current_rent.checked_mul(config.rate_bps) {
        Some(p) => p,
        None => return Err(EscalationError::EscalatedRentOverflow),
    };
    let increment = product / BPS_DENOMINATOR;
    let new_rent = match config.current_rent.checked_add(increment) {
        Some(v) => v,
        None => return Err(EscalationError::EscalatedRentOverflow),
    };
    let cap = if config.rent_cap > 0 {
        if config.rent_cap < MAX_RENT_AMOUNT {
            config.rent_cap
        } else {
            MAX_RENT_AMOUNT
        }
    } else {
        MAX_RENT_AMOUNT
    };
    if new_rent > cap {
        return Err(EscalationError::EscalatedRentExceedsCap);
    }
    let next_ledger = current_ledger.saturating_add(config.interval_ledgers);
    Ok(
        EscalationConfig {
            current_rent: new_rent,
            steps_applied: config.steps_applied + 1,
            next_escalation_ledger: next_ledger,
            ..config
        },
    )
}

/// What `build_escalation_config` returns.
pub open spec fn escalation_built(
    current_ledger: u32,
    base_rent: i128,
    rate_bps: i128,
    interval_ledgers: u32,
    rent_cap: i128,
) -> Result<EscalationConfig, EscalationError> {
    match escalation_validation(rate_bps as int, interval_ledgers as int, base_rent as int, rent_cap as int) {
        Err(e) => Err(e),
        Ok(_) => Ok(
            EscalationConfig {
                rate_bps,
                interval_ledgers,
                next_escalation_ledger: if rate_bps > 0 && interval_ledgers > 0 {
                    saturating_add_u32(current_ledger, interval_ledgers)
                } else {
                    u32::MAX
                },
                steps_applied: 0,
                rent_cap,
                current_rent: base_rent,
            },
        ),
    }
}

/// Builds and validates a fresh escalation configuration for a lease
/// created at ledger `current_ledger`.
pub fn build_escalation_config(
    current_ledger: u32,
    base_rent: i128,
    rate_bps: i128,
    interval_ledgers: u32,
    rent_cap: i128,
) -> (r: Result<EscalationConfig, EscalationError>)
    ensures
        r == escalation_built(current_ledger, base_rent, rate_bps, interval_ledgers, rent_cap),
{
    match validate_escalation_config(rate_bps, interval_ledgers, base_rent, rent_cap) {
        Err(e) => return Err(e),
        Ok(()) => {},
    }
    let next_escalation_ledger = if rate_bps > 0 && interval_ledgers > 0 {
        current_ledger.saturating_add(interval_ledgers)
    } else {
        u32::MAX
    };
    Ok(
        EscalationConfig {
            rate_bps,
            interval_ledgers,
            next_escalation_ledger,
            steps_applied: 0,
            rent_cap,
            current_rent: base_rent,
        },
    )
}

/// An applied escalation keeps the rent within the schedule's effective cap
/// and never takes the step count past `MAX_ESCALATION_STEPS`.
pub proof fn lemma_escalation_respects_cap_and_step_limit(config: EscalationConfig, current_ledger: u32)
    requires
        config.steps_applied <= MAX_ESCALATION_STEPS,
        escalation_applied(config, current_ledger) is Ok,
    ensures
        escalation_applied(config, current_ledger)->Ok_0.steps_applied <= MAX_ESCALATION_STEPS,
        escalation_applied(config, current_ledger)->Ok_0 != config ==> escalation_applied(
            config,
            current_ledger,
        )->Ok_0.current_rent <= effective_cap(config.rent_cap as int),
{
}

/// Runtime escalation follows the compounded schedule: a rent that equals
/// the schedule after `k` steps equals it after `k + 1` steps once a step
/// was applied.
pub proof fn lemma_escalation_follows_schedule(
    config: EscalationConfig,
    current_ledger: u32,
    base_rent: int,
)
    requires
        config.current_rent == compounded_rent(base_rent, config.rate_bps as int, config.steps_applied as nat),
        escalation_applied(config, current_ledger) is Ok,
        escalation_applied(config, current_ledger)->Ok_0.steps_applied == config.steps_applied + 1,
    ensures
        escalation_applied(config, current_ledger)->Ok_0.current_rent == compounded_rent(
            base_rent,
            config.rate_bps as int,
            (config.steps_applied + 1) as nat,
        ),
{
}

/// A schedule without its own cap that passed validation never overflows at
/// runtime: from any rent within `MAX_RENT_AMOUNT`, a due step is applied or
/// refused only for leaving the cap, and the first step from the base rent
/// is always applied.
pub proof fn lemma_validated_uncapped_schedule_never_overflows(
    config: EscalationConfig,
    current_ledger: u32,
    base_rent: i128,
)
    requires
        escalation_validation(
            config.rate_bps as int,
            config.interval_ledgers as int,
            base_rent as int,
            config.rent_cap as int,
        ) is Ok,
        config.rent_cap <= 0,
        0 <= config.current_rent <= MAX_RENT_AMOUNT,
    ensures
        escalation_applied(config, current_ledger) is Ok || escalation_applied(
            config,
            current_ledger,
        )->Err_0 == EscalationError::EscalatedRentExceedsCap,
        config.current_rent == base_rent ==> escalation_applied(config, current_ledger) is Ok,
{
    if config.rate_bps != 0 {
        lemma_step_bounded(config.current_rent as int, config.rate_bps as int);
    }
}

} // verus!
