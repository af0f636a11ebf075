//! Lease lifecycle with dunning, escrowed security deposits, arrears
//! deduction, protocol credit records and fiat-pegged rent.
//!
//! All contract state lives in one `ContractData` value; every operation
//! either succeeds and updates it, or fails and leaves it as it was.
use vstd::prelude::*;
use std::collections::HashMap;
use crate::accounts::AccountId;
use super::Error;
use super::lease_creation_rate_limit::{CreationTracker, CREATION_WINDOW};

verus! {

broadcast use vstd::std_specs::hash::group_hash_axioms;

/// Grace period granted by default, in seconds (five days).
pub const DEFAULT_GRACE_PERIOD: u64 = 432_000;
/// Shortest holding period before a termination refund is paid in full.
pub const MINIMUM_HOLDING_PERIOD: u64 = 86_400;
/// Oldest oracle price accepted, in seconds.
pub const MAX_ORACLE_PRICE_AGE: u64 = 3_600;

/// Lifecycle state of a lease.
#[derive(Copy, Clone, Debug, Eq, PartialEq, Structural)]
pub enum LeaseState {
    Pending,
    Active,
    GracePeriod,
    EvictionPending,
    Closed,
}

/// A price reading of a SEP-40 oracle.
#[derive(Copy, Clone, Debug, Eq, PartialEq, Structural)]
pub struct PriceData {
    pub price: i128,
    pub timestamp: u64,
    pub asset: AccountId,
    pub decimals: u32,
}

/// Global oracle configuration.
#[derive(Copy, Clone, Debug, Eq, PartialEq, Structural)]
pub struct OracleConfig {
    pub oracle_address: AccountId,
    pub staleness_threshold: u64,
    pub volatility_threshold: u32,
    pub max_price_age: u64,
}

/// Residual debt of a lessee after arrears deductions.
#[derive(Clone, Debug)]
pub struct ProtocolCreditRecord {
    pub lessee: AccountId,
    pub total_debt_amount: i64,
    pub default_count: u32,
    pub last_default_timestamp: u64,
    pub associated_lease_ids: Vec<u64>,
}

/// Escrow holding the security deposits.
#[derive(Copy, Clone, Debug, Eq, PartialEq, Structural)]
pub struct EscrowVault {
    pub total_locked: i64,
    pub available_balance: i64,
    pub lessor_treasury: i64,
}

/// Fiat peg of a lease's rent.
#[derive(Copy, Clone, Debug, Eq, PartialEq, Structural)]
pub struct FiatPegConfig {
    pub enabled: bool,
    pub target_usd_amount: i64,
    pub asset_address: AccountId,
    pub oracle_address: AccountId,
    pub staleness_threshold: u64,
    pub volatility_threshold: u32,
}

/// A lease record.
#[derive(Clone, Debug)]
pub struct Lease {
    pub lease_id: u64,
    pub lessor: AccountId,
    pub lessee: AccountId,
    pub rent_amount: i64,
    pub deposit_amount: i64,
    pub start_date: u64,
    pub end_date: u64,
    pub state: LeaseState,
    pub max_grace_period: u64,
    pub late_fee_rate: u32,
    pub dunning_start_timestamp: Option<u64>,
    pub outstanding_balance: i64,
    pub accumulated_late_fees: i64,
    pub last_rent_payment_timestamp: u64,
    pub property_uri: Vec<u8>,
    pub arrears_processed: bool,
    pub prorated_initial_rent: i64,
    pub total_paid_rent: i64,
    pub fiat_peg_config: Option<FiatPegConfig>,
    pub last_oracle_price: Option<i128>,
    pub last_oracle_timestamp: Option<u64>,
}

/// The whole contract state.
#[derive(Debug)]
pub struct ContractData {
    pub leases: HashMap<u64, Lease>,
    pub next_lease_id: u64,
    pub escrow_vault: EscrowVault,
    pub credit_records: HashMap<AccountId, ProtocolCreditRecord>,
    pub oracle_config: OracleConfig,
}

/// Reported when the arrears of a lease are settled against its deposit.
#[derive(Copy, Clone, Debug, Eq, PartialEq, Structural)]
pub struct DepositSlashedForArrearsEvent {
    pub lease_id: u64,
    /// Time from the start of dunning to the settlement.
    pub unpaid_duration: u64,
    pub deducted_amount: i64,
    pub remaining_escrow_balance: i64,
    /// What the deposit did not cover.
    pub residual_debt: i64,
}

/// Reported when the grace period of a lease ran out.
#[derive(Copy, Clone, Debug, Eq, PartialEq, Structural)]
pub struct EvictionPendingEvent {
    pub lease_id: u64,
    pub eviction_timestamp: u64,
    /// Unpaid rent plus late fees.
    pub total_outstanding: i64,
}

/// Reported when the rent of a lease failed and its grace period began.
#[derive(Copy, Clone, Debug, Eq, PartialEq, Structural)]
pub struct RentDelinquencyStartedEvent {
    pub lease_id: u64,
    pub dunning_start_timestamp: u64,
    pub grace_period_end_timestamp: u64,
    pub outstanding_amount: i64,
    pub late_fee_amount: i64,
}

/// Reported when a lease in its grace period is paid up.
#[derive(Copy, Clone, Debug, Eq, PartialEq, Structural)]
pub struct LeaseRecoveredEvent {
    pub lease_id: u64,
    pub recovery_timestamp: u64,
    pub total_paid: i64,
    /// The late fees the payment settled: the lease's accumulated late fees
    /// as they stood before the payment cleared them. (Read after the
    /// reset, the field could only ever report zero.)
    pub late_fee_paid: i64,
}

/// Reported when a lease is activated.
#[derive(Copy, Clone, Debug, Eq, PartialEq, Structural)]
pub struct LeaseActivatedEvent {
    pub lease_id: u64,
    pub activation_timestamp: u64,
}

/// Which prorated amount a `ProratedRentCalculatedEvent` reports.
#[derive(Copy, Clone, Debug, Eq, PartialEq, Structural)]
pub enum ProrationKind {
    /// The first, partial rent of a lease.
    Initialization,
    /// The refund of a lease ended early.
    Termination,
}

/// Reported when a prorated amount applies.
#[derive(Copy, Clone, Debug, Eq, PartialEq, Structural)]
pub struct ProratedRentCalculatedEvent {
    pub lease_id: u64,
    pub monthly_rent: i64,
    /// Time from now to the end of the lease.
    pub elapsed_seconds: u64,
    pub prorated_amount: i64,
    pub calculation_type: ProrationKind,
}

/// Reported when a fiat-pegged rent is billed.
#[derive(Copy, Clone, Debug, Eq, PartialEq, Structural)]
pub struct FiatPeggedRentBilledEvent {
    pub lease_id: u64,
    pub target_usd_amount: i64,
    pub oracle_exchange_rate: i128,
    pub final_crypto_deduction: i64,
    pub billing_timestamp: u64,
    pub asset_address: AccountId,
}

/// `true` iff `v` fits in an `i64`.
pub open spec fn fits_i64(v: int) -> bool {
    i64::MIN <= v <= i64::MAX
}

/// `a - b`, or 0 where that would be negative.
pub open spec fn saturating_sub_u64(a: u64, b: u64) -> u64 {
    if a >= b { (a - b) as u64 } else { 0 }
}

/// The vault's balances are non-negative and account for every locked unit.
pub open spec fn vault_balanced(v: EscrowVault) -> bool {
    &&& v.available_balance >= 0
    &&& v.lessor_treasury >= 0
    &&& v.available_balance + v.lessor_treasury == v.total_locked
}

/// `lease` after its deposit was received at `now`.
pub open spec fn activated(lease: Lease, now: u64) -> Lease {
    Lease { state: LeaseState::Active, last_rent_payment_timestamp: now, ..lease }
}

/// Rust's `a.saturating_sub(b)` on `u64`.
pub open spec fn u64_saturating_sub(a: u64, b: u64) -> u64 {
    if a >= b { (a - b) as u64 } else { 0 }
}

/// Late fee on `base` at `rate` basis points: `base * rate / 10000`,
/// rounded down.
pub open spec fn late_fee(base: int, rate: int) -> int {
    base * rate / 10000
}

/// What `activate_lease` answers.
pub open spec fn activation_outcome(leases: Map<u64, Lease>, id: u64, lessee: AccountId) -> Result<
    (),
    Error,
> {
    if !leases.contains_key(id) {
        Err(Error::LeaseNotFound)
    } else if lessee != leases[id].lessee {
        Err(Error::Unauthorized)
    } else if leases[id].state != LeaseState::Pending {
        Err(Error::LeaseAlreadyActive)
    } else {
        Ok(())
    }
}

/// What activating `lease` at `now` reports: the activation and, where
/// its first rent is prorated, that rent.
pub open spec fn activation_notice(lease: Lease, now: u64) -> (
    LeaseActivatedEvent,
    Option<ProratedRentCalculatedEvent>,
) {
    (
        LeaseActivatedEvent { lease_id: lease.lease_id, activation_timestamp: now },
        if lease.prorated_initial_rent != lease.rent_amount {
            Some(
                ProratedRentCalculatedEvent {
                    lease_id: lease.lease_id,
                    monthly_rent: lease.rent_amount,
                    elapsed_seconds: u64_saturating_sub(lease.end_date, now),
                    prorated_amount: lease.prorated_initial_rent,
                    calculation_type: ProrationKind::Initialization,
                },
            )
        } else {
            None
        },
    )
}

/// What `process_rent_payment` answers.
pub open spec fn payment_outcome(leases: Map<u64, Lease>, id: u64, amount: i64) -> Result<
    (),
    Error,
> {
    if !leases.contains_key(id) {
        Err(Error::LeaseNotFound)
    } else {
        let l = leases[id];
        if amount < l.rent_amount {
            Err(Error::InsufficientRentFunds)
        } else {
            match l.state {
                LeaseState::Active => Ok(()),
                LeaseState::GracePeriod => {
                    if amount < l.rent_amount + l.accumulated_late_fees {
                        Err(Error::InsufficientRentFunds)
                    } else {
                        Ok(())
                    }
                },
                _ => Err(Error::LeaseNotActive),
            }
        }
    }
}

/// `lease` after a rent payment of `amount` at `now` was accepted: it is
/// active and owes nothing; a lease in its grace period leaves dunning.
pub open spec fn paid(lease: Lease, amount: i64, now: u64) -> Lease {
    Lease {
        state: LeaseState::Active,
        last_rent_payment_timestamp: now,
        outstanding_balance: 0,
        accumulated_late_fees: 0,
        dunning_start_timestamp: if lease.state == LeaseState::GracePeriod {
            None
        } else {
            lease.dunning_start_timestamp
        },
        total_paid_rent: (lease.total_paid_rent + amount) as i64,
        ..lease
    }
}

/// What a rent payment of `amount` at `now` on `lease` reports: a lease
/// in its grace period recovers.
pub open spec fn recovery_notice(lease: Lease, amount: i64, now: u64) -> Option<LeaseRecoveredEvent> {
    if lease.state == LeaseState::GracePeriod {
        Some(
            LeaseRecoveredEvent {
                lease_id: lease.lease_id,
                recovery_timestamp: now,
                total_paid: amount,
                late_fee_paid: lease.accumulated_late_fees,
            },
        )
    } else {
        None
    }
}

/// What `handle_rent_payment_failure` answers.
pub open spec fn failure_outcome(leases: Map<u64, Lease>, id: u64) -> Result<(), Error> {
    if !leases.contains_key(id) {
        Err(Error::LeaseNotFound)
    } else if leases[id].state != LeaseState::Active {
        Err(Error::InvalidStateTransition)
    } else if late_fee(leases[id].rent_amount as int, leases[id].late_fee_rate as int) > i64::MAX {
        Err(Error::LateFeeCalculationError)
    } else {
        Ok(())
    }
}

/// `lease` after its rent failed at `now`: it enters its grace period owing
/// one rent and the late fee on it.
pub open spec fn delinquent(lease: Lease, now: u64) -> Lease {
    Lease {
        state: LeaseState::GracePeriod,
        dunning_start_timestamp: Some(now),
        outstanding_balance: lease.rent_amount,
        accumulated_late_fees: late_fee(lease.rent_amount as int, lease.late_fee_rate as int) as i64,
        ..lease
    }
}

/// What is reported when the rent of `lease` failed at `now`.
pub open spec fn delinquency_notice(lease: Lease, now: u64) -> RentDelinquencyStartedEvent {
    RentDelinquencyStartedEvent {
        lease_id: lease.lease_id,
        dunning_start_timestamp: now,
        grace_period_end_timestamp: (now + lease.max_grace_period) as u64,
        outstanding_amount: lease.rent_amount,
        late_fee_amount: late_fee(lease.rent_amount as int, lease.late_fee_rate as int) as i64,
    }
}

/// The late fee on `base_amount` at the lease's rate, or
/// `LateFeeCalculationError` where it does not fit an `i64`.
pub fn calculate_late_fee(lease: &Lease, base_amount: i64) -> (r: Result<i64, Error>)
    requires
        base_amount >= 0,
    ensures
        late_fee(base_amount as int, lease.late_fee_rate as int) <= i64::MAX ==> r == Ok::<i64, Error>(
            late_fee(base_amount as int, lease.late_fee_rate as int) as i64,
        ),
        late_fee(base_amount as int, lease.late_fee_rate as int) > i64::MAX ==> r == Err::<i64, Error>(
            Error::LateFeeCalculationError,
        ),
{
    let base: i128 = base_amount as i128;
    let rate: i128 = lease.late_fee_rate as i128;
    assert(0 <= base * rate <= 0x8000_0000_0000_0000 * 0x1_0000_0000) by (nonlinear_arith)
        requires
            0 <= base < 0x8000_0000_0000_0000,
            0 <= rate < 0x1_0000_0000,
    ;
    let fee: i128 = base * rate / 10000;
    if fee > i64::MAX as i128 {
        Err(Error::LateFeeCalculationError)
    } else {
        Ok(fee as i64)
    }
}

/// What an arrears deduction takes from a deposit: all of it when the
/// arrears reach it, else exactly the arrears.
pub open spec fn deduction(total_arrears: int, deposit: int) -> int {
    if total_arrears >= deposit {
        deposit
    } else {
        total_arrears
    }
}

/// Unpaid rent plus late fees of a lease.
pub open spec fn arrears_total(lease: Lease) -> int {
    lease.outstanding_balance + lease.accumulated_late_fees
}

/// What `execute_arrears_deduction` answers, success aside.
pub open spec fn arrears_outcome(leases: Map<u64, Lease>, vault: EscrowVault, id: u64) -> Result<
    (),
    Error,
> {
    if !leases.contains_key(id) {
        Err(Error::LeaseNotFound)
    } else {
        let l = leases[id];
        if l.state != LeaseState::EvictionPending {
            Err(Error::InvalidStateTransition)
        } else if l.arrears_processed {
            Err(Error::ArrearsAlreadyProcessed)
        } else if l.dunning_start_timestamp is None {
            Err(Error::InvalidStateTransition)
        } else if arrears_total(l) <= 0 {
            Err(Error::InvalidAmount)
        } else if vault.available_balance < deduction(arrears_total(l), l.deposit_amount as int) {
            Err(Error::EscrowVaultUnderflow)
        } else {
            Ok(())
        }
    }
}

/// The settlement of the arrears of `lease` against `vault` at `now`.
pub open spec fn settlement(lease: Lease, vault: EscrowVault, now: u64) -> DepositSlashedForArrearsEvent {
    let ded = deduction(arrears_total(lease), lease.deposit_amount as int);
    DepositSlashedForArrearsEvent {
        lease_id: lease.lease_id,
        unpaid_duration: u64_saturating_sub(now, lease.dunning_start_timestamp->Some_0),
        deducted_amount: ded as i64,
        remaining_escrow_balance: (vault.available_balance - ded) as i64,
        residual_debt: (arrears_total(lease) - ded) as i64,
    }
}

/// `r` is the credit record of `lessee` in `records` after a default on
/// lease `lease_id` at `now` that left `residual` unpaid: the debt and the
/// default count grow, and the lease is listed once.
pub open spec fn debited(
    records: Map<AccountId, ProtocolCreditRecord>,
    lessee: AccountId,
    residual: int,
    lease_id: u64,
    now: u64,
    r: ProtocolCreditRecord,
) -> bool {
    let ids = prior_lease_ids(records, lessee);
    &&& r.lessee == lessee
    &&& r.total_debt_amount == prior_debt(records, lessee) + residual
    &&& r.default_count == prior_default_count(records, lessee) + 1
    &&& r.last_default_timestamp == now
    &&& r.associated_lease_ids@ == if ids.contains(lease_id) {
        ids
    } else {
        ids.push(lease_id)
    }
}

/// The recorded debt of `lessee`, 0 without a record.
pub open spec fn prior_debt(records: Map<AccountId, ProtocolCreditRecord>, lessee: AccountId) -> int {
    if records.contains_key(lessee) {
        records[lessee].total_debt_amount as int
    } else {
        0
    }
}

/// The recorded default count of `lessee`, 0 without a record.
pub open spec fn prior_default_count(
    records: Map<AccountId, ProtocolCreditRecord>,
    lessee: AccountId,
) -> int {
    if records.contains_key(lessee) {
        records[lessee].default_count as int
    } else {
        0
    }
}

/// The leases recorded against `lessee`, none without a record.
pub open spec fn prior_lease_ids(records: Map<AccountId, ProtocolCreditRecord>, lessee: AccountId) -> Seq<
    u64,
> {
    if records.contains_key(lessee) {
        records[lessee].associated_lease_ids@
    } else {
        Seq::empty()
    }
}

/// `post` holds the state after the arrears of lease `id` were settled at
/// `now` from the leases, vault and credit records given.
pub open spec fn arrears_settled(
    leases: Map<u64, Lease>,
    vault: EscrowVault,
    records: Map<AccountId, ProtocolCreditRecord>,
    id: u64,
    now: u64,
    post: &ContractData,
) -> bool {
    let l = leases[id];
    let ded = deduction(arrears_total(l), l.deposit_amount as int);
    let residual = arrears_total(l) - ded;
    &&& post.leases@ =~= leases.insert(id, Lease { arrears_processed: true, ..l })
    &&& post.escrow_vault == (EscrowVault {
        total_locked: vault.total_locked,
        available_balance: (vault.available_balance - ded) as i64,
        lessor_treasury: (vault.lessor_treasury + ded) as i64,
    })
    &&& residual > 0 ==> {
        &&& post.credit_records@.contains_key(l.lessee)
        &&& post.credit_records@ =~= records.insert(l.lessee, post.credit_records@[l.lessee])
        &&& debited(records, l.lessee, residual, id, now, post.credit_records@[l.lessee])
    }
    &&& residual <= 0 ==> post.credit_records@ =~= records
}

/// `a` and `b` hold the same leases, counters, vault, records and oracle.
pub open spec fn same_contents(a: &ContractData, b: &ContractData) -> bool {
    &&& a.leases@ =~= b.leases@
    &&& a.next_lease_id == b.next_lease_id
    &&& a.escrow_vault == b.escrow_vault
    &&& a.credit_records@ =~= b.credit_records@
    &&& a.oracle_config == b.oracle_config
}

/// Whether the grace period of `lease` is over at `now`.
pub open spec fn grace_expired(lease: Lease, now: u64) -> bool {
    now > lease.dunning_start_timestamp->Some_0 + lease.max_grace_period
}

/// What is reported when the grace period of `lease` ran out at `now`.
pub open spec fn eviction_notice(lease: Lease, now: u64) -> EvictionPendingEvent {
    EvictionPendingEvent {
        lease_id: lease.lease_id,
        eviction_timestamp: now,
        total_outstanding: arrears_total(lease) as i64,
    }
}

/// `lease` once its eviction is pending.
pub open spec fn evicted(lease: Lease) -> Lease {
    Lease { state: LeaseState::EvictionPending, ..lease }
}

/// What `check_grace_period_expiry` answers: nothing to do, a failure, or
/// an eviction whose arrears are to be settled.
pub open spec fn expiry_outcome(leases: Map<u64, Lease>, vault: EscrowVault, id: u64, now: u64) -> Result<
    bool,
    Error,
> {
    if !leases.contains_key(id) {
        Err(Error::LeaseNotFound)
    } else {
        let l = leases[id];
        if l.state != LeaseState::GracePeriod {
            Ok(false)
        } else if l.dunning_start_timestamp is None {
            Err(Error::InvalidStateTransition)
        } else if !grace_expired(l, now) {
            Ok(false)
        } else {
            match arrears_outcome(leases.insert(id, evicted(l)), vault, id) {
                Err(e) => Err(e),
                Ok(_) => Ok(true),
            }
        }
    }
}

/// What `terminate_lease` answers, success aside.
pub open spec fn termination_outcome(leases: Map<u64, Lease>, id: u64, caller: AccountId) -> Result<
    (),
    Error,
> {
    if !leases.contains_key(id) {
        Err(Error::LeaseNotFound)
    } else if caller != leases[id].lessor && caller != leases[id].lessee {
        Err(Error::Unauthorized)
    } else if leases[id].state != LeaseState::Active {
        Err(Error::LeaseNotActive)
    } else {
        Ok(())
    }
}

/// The refund paid on termination at `now`: a positive refund loses a tenth
/// (rounded down) when the last payment is less than a day old.
pub open spec fn termination_payout(lease: Lease, now: u64, refund: i64) -> i64 {
    if u64_saturating_sub(now, lease.last_rent_payment_timestamp) < MINIMUM_HOLDING_PERIOD && refund
        > 0 {
        (refund - refund / 10) as i64
    } else {
        refund
    }
}

/// The ids below `n`, ascending, of the leases where `user` is lessor or
/// lessee.
pub open spec fn user_lease_ids(leases: Map<u64, Lease>, user: AccountId, n: nat) -> Seq<u64>
    decreases n,
{
    if n == 0 {
        Seq::empty()
    } else {
        let prev = user_lease_ids(leases, user, (n - 1) as nat);
        let id = (n - 1) as u64;
        if leases.contains_key(id) && (leases[id].lessor == user || leases[id].lessee == user) {
            prev.push(id)
        } else {
            prev
        }
    }
}

/// What `create_lease` answers on its own inputs, before rate limiting.
pub open spec fn creation_input_outcome(
    rent_amount: i64,
    deposit_amount: i64,
    start_date: u64,
    end_date: u64,
    fiat_peg_config: Option<FiatPegConfig>,
) -> Result<(), Error> {
    if rent_amount <= 0 || deposit_amount <= 0 || start_date >= end_date {
        Err(Error::InvalidAmount)
    } else {
        match fiat_peg_config {
            Some(c) => if c.target_usd_amount <= 0 || c.staleness_threshold == 0
                || c.volatility_threshold == 0 {
                Err(Error::InvalidFiatPegConfig)
            } else {
                Ok(())
            },
            None => Ok(()),
        }
    }
}

/// The rent charged for the first period: the prorated rent when the lease
/// starts before `now` and the prorated rent is known, else the full rent.
pub open spec fn initial_rent(rent_amount: i64, start_date: u64, now: u64, prorated_rent: Option<i64>) -> i64 {
    if now > start_date {
        match prorated_rent {
            Some(a) => a,
            None => rent_amount,
        }
    } else {
        rent_amount
    }
}

/// `10` to the power `n`.
pub open spec fn pow10(n: nat) -> int
    decreases n,
{
    if n == 0 {
        1
    } else {
        10 * pow10((n - 1) as nat)
    }
}

/// Powers of ten grow with the exponent.
pub proof fn lemma_pow10_monotone(a: nat, b: nat)
    requires
        a <= b,
    ensures
        1 <= pow10(a) <= pow10(b),
    decreases b,
{
    if a < b {
        lemma_pow10_monotone(a, (b - 1) as nat);
    } else if a > 0 {
        lemma_pow10_monotone((a - 1) as nat, (a - 1) as nat);
    }
}

/// Seconds since the price was published, 0 for a price from the future.
pub open spec fn price_age(price: PriceData, now: u64) -> u64 {
    u64_saturating_sub(now, price.timestamp)
}

/// Whether the volatility guard applies to a new price for `lease` at
/// `now`: the lease cached a positive price less than an hour ago.
pub open spec fn volatility_guarded(lease: Lease, now: u64) -> bool {
    &&& lease.last_oracle_price is Some
    &&& lease.last_oracle_timestamp is Some
    &&& u64_saturating_sub(now, lease.last_oracle_timestamp->Some_0) <= MAX_ORACLE_PRICE_AGE
    &&& lease.last_oracle_price->Some_0 > 0
}

/// The move from `last` to `price`, in basis points of `last`, rounded down.
pub open spec fn price_change_bps(price: int, last: int) -> int {
    if price > last {
        (price - last) * 10000 / last
    } else {
        (last - price) * 10000 / last
    }
}

/// What fetching the oracle price for `lease` at `now` answers, given what
/// the oracle returned (`None` where the call failed): stale prices and
/// moves beyond the lease's volatility threshold are refused.
pub open spec fn oracle_price_outcome(lease: Lease, fetched: Option<PriceData>, now: u64) -> Result<
    PriceData,
    Error,
> {
    match fetched {
        None => Err(Error::OracleCallFailed),
        Some(p) => {
            let config = lease.fiat_peg_config->Some_0;
            if price_age(p, now) > config.staleness_threshold || price_age(p, now)
                > MAX_ORACLE_PRICE_AGE {
                Err(Error::OracleDataStale)
            } else if volatility_guarded(lease, now) && price_change_bps(
                p.price as int,
                lease.last_oracle_price->Some_0 as int,
            ) > config.volatility_threshold {
                Err(Error::VolatilityCircuitBreaker)
            } else {
                Ok(p)
            }
        },
    }
}

/// The volatility guard's arithmetic stays within `i128`.
pub open spec fn volatility_arith_fits(lease: Lease, fetched: Option<PriceData>, now: u64) -> bool {
    fetched is Some && volatility_guarded(lease, now) ==> {
        let d = fetched->Some_0.price - lease.last_oracle_price->Some_0;
        &&& crate::rent_escalation::fits_i128(d * 10000)
        &&& crate::rent_escalation::fits_i128(-d * 10000)
    }
}

/// The crypto amount worth `target_usd_amount` at `price`:
/// `target * 10^decimals / price`, rounded toward zero.
pub open spec fn pegged_amount(target_usd_amount: i64, price: PriceData) -> int {
    crate::rates::trunc_div(target_usd_amount * pow10(price.decimals as nat), price.price as int)
}

/// The fiat conversion's arithmetic stays within `i128` and divides by a
/// non-zero price.
pub open spec fn peg_arith_fits(lease: Lease, fetched: Option<PriceData>, now: u64) -> bool {
    lease.fiat_peg_config is Some && lease.fiat_peg_config->Some_0.enabled && oracle_price_outcome(
        lease,
        fetched,
        now,
    ) is Ok ==> {
        let p = fetched->Some_0;
        let x = lease.fiat_peg_config->Some_0.target_usd_amount * pow10(p.decimals as nat);
        &&& p.decimals <= 38
        &&& p.price != 0
        &&& crate::rent_escalation::fits_i128(x)
        &&& crate::rent_escalation::fits_i128(crate::rates::trunc_div(x, p.price as int))
    }
}

/// What `calculate_fiat_pegged_rent` answers.
pub open spec fn fiat_rent_outcome(lease: Lease, fetched: Option<PriceData>, now: u64) -> Result<
    i64,
    Error,
> {
    match lease.fiat_peg_config {
        None => Err(Error::InvalidFiatPegConfig),
        Some(c) => if !c.enabled {
            Ok(lease.rent_amount)
        } else {
            match oracle_price_outcome(lease, fetched, now) {
                Err(e) => Err(e),
                Ok(p) => {
                    let a = pegged_amount(c.target_usd_amount, p);
                    if a > i64::MAX || (a as i64) <= 0 {
                        Err(Error::InvalidAmount)
                    } else {
                        Ok(a as i64)
                    }
                },
            }
        },
    }
}

/// `lease` after `amount` of fiat-pegged rent was billed at `now` at the
/// oracle price `price`, which is cached for the next volatility check.
pub open spec fn fiat_billed(lease: Lease, price: PriceData, amount: i64, now: u64) -> Lease {
    Lease {
        last_oracle_price: Some(price.price),
        last_oracle_timestamp: Some(price.timestamp),
        last_rent_payment_timestamp: now,
        total_paid_rent: (lease.total_paid_rent + amount) as i64,
        ..lease
    }
}

/// What `process_fiat_pegged_rent_payment` answers.
pub open spec fn fiat_payment_outcome(
    leases: Map<u64, Lease>,
    id: u64,
    fetched: Option<PriceData>,
    now: u64,
) -> Result<i64, Error> {
    if !leases.contains_key(id) {
        Err(Error::LeaseNotFound)
    } else {
        let l = leases[id];
        if l.state != LeaseState::Active {
            Err(Error::LeaseNotActive)
        } else if l.fiat_peg_config is None || !l.fiat_peg_config->Some_0.enabled {
            Err(Error::InvalidFiatPegConfig)
        } else {
            fiat_rent_outcome(l, fetched, now)
        }
    }
}

/// Checks a price `fetched` from the oracle for `lease` at `now` (`None`
/// where the oracle call failed).
pub fn get_oracle_price(lease: &Lease, fetched: Option<PriceData>, now: u64) -> (r: Result<
    PriceData,
    Error,
>)
    requires
        lease.fiat_peg_config is Some,
        volatility_arith_fits(*lease, fetched, now),
    ensures
        r == oracle_price_outcome(*lease, fetched, now),
{
    let price_data = match fetched {
        Some(p) => p,
        None => {
            return Err(Error::OracleCallFailed);
        },
    };
    let config = match &lease.fiat_peg_config {
        Some(c) => c,
        None => {
            return Err(Error::InvalidFiatPegConfig);
        },
    };
    let age = now.saturating_sub(price_data.timestamp);
    if age > config.staleness_threshold {
        return Err(Error::OracleDataStale);
    }
    if age > MAX_ORACLE_PRICE_AGE {
        return Err(Error::OracleDataStale);
    }
    match (lease.last_oracle_price, lease.last_oracle_timestamp) {
        (Some(last_price), Some(last_timestamp)) => {
            let time_diff = now.saturating_sub(last_timestamp);
            if time_diff <= MAX_ORACLE_PRICE_AGE && last_price > 0 {
                let price_change_percent = if price_data.price > last_price {
                    ((price_data.price - last_price) * 10000) / last_price
                } else {
                    ((last_price - price_data.price) * 10000) / last_price
                };
                if price_change_percent > config.volatility_threshold as i128 {
                    return Err(Error::VolatilityCircuitBreaker);
                }
            }
        },
        _ => {},
    }
    Ok(price_data)
}

fn checked_pow10(n: u32) -> (r: i128)
    requires
        n <= 38,
    ensures
        r == pow10(n as nat),
{
    let mut f: i128 = 1;
    let mut i: u32 = 0;
    proof {
        lemma_pow10_monotone(38, 38);
        reveal_with_fuel(pow10, 39);
    }
    while i < n
        invariant
            i <= n <= 38,
            f == pow10(i as nat),
            pow10(38) == 100000000000000000000000000000000000000,
        decreases n - i,
    {
        proof {
            lemma_pow10_monotone((i + 1) as nat, 38);
        }
        f = f * 10;
        i = i + 1;
    }
    f
}

/// The rent due for `lease` at `now`: the fixed rent where the fiat peg is
/// off, else the crypto amount worth the peg's USD target at the checked
/// oracle price `fetched`.
pub fn calculate_fiat_pegged_rent(lease: &Lease, fetched: Option<PriceData>, now: u64) -> (r: Result<
    i64,
    Error,
>)
    requires
        volatility_arith_fits(*lease, fetched, now),
        peg_arith_fits(*lease, fetched, now),
    ensures
        r == fiat_rent_outcome(*lease, fetched, now),
{
    let config = match &lease.fiat_peg_config {
        Some(c) => c,
        None => {
            return Err(Error::InvalidFiatPegConfig);
        },
    };
    if !config.enabled {
        return Ok(lease.rent_amount);
    }
    let price_data = match get_oracle_price(lease, fetched, now) {
        Ok(p) => p,
        Err(e) => {
            return Err(e);
        },
    };
    let decimals_factor = checked_pow10(price_data.decimals);
    let usd_target_i128 = config.target_usd_amount as i128;
    let scaled = usd_target_i128 * decimals_factor;
    let price = price_data.price;
    // Rust's `/` rounds toward zero; a negative price divides by its magnitude.
    let crypto_amount_i128 = if price > 0 {
        scaled / price
    } else if price == i128::MIN {
        if scaled == i128::MIN {
            1
        } else {
            0
        }
    } else {
        let q = scaled / (-price);
        assert(q == -crate::rates::trunc_div(scaled as int, price as int));
        -q
    };
    if crypto_amount_i128 > i64::MAX as i128 {
        return Err(Error::InvalidAmount);
    }
    let crypto_amount = crypto_amount_i128 as i64;
    if crypto_amount <= 0 {
        return Err(Error::InvalidAmount);
    }
    Ok(crypto_amount)
}

/// What `calculate_deduction_amount` answers.
pub fn calculate_deduction_amount(total_arrears: i64, deposit_amount: i64) -> (r: Result<i64, Error>)
    ensures
        total_arrears <= 0 || deposit_amount <= 0 ==> r == Err::<i64, Error>(Error::InvalidAmount),
        total_arrears > 0 && deposit_amount > 0 ==> r == Ok::<i64, Error>(
            deduction(total_arrears as int, deposit_amount as int) as i64,
        ),
{
    if total_arrears <= 0 || deposit_amount <= 0 {
        return Err(Error::InvalidAmount);
    }
    if total_arrears >= deposit_amount {
        return Ok(deposit_amount);
    }
    Ok(total_arrears)
}

impl ContractData {
    /// Leases are stored under their own ids, which run from 1 below
    /// `next_lease_id`, and every lease has a positive rent and deposit.
    ///
    /// The escrow vault never loses track of a deposit: what is still
    /// available plus what went to the lessors' treasury is what was locked.
    pub open spec fn wf(&self) -> bool {
        &&& self.next_lease_id >= 1
        &&& forall|id: u64| #[trigger]
            self.leases@.contains_key(id) <==> 1 <= id < self.next_lease_id
        &&& forall|id: u64| #[trigger]
            self.leases@.contains_key(id) ==> {
                let l = self.leases@[id];
                &&& l.lease_id == id
                &&& l.rent_amount > 0
                &&& l.deposit_amount > 0
            }
        &&& vault_balanced(self.escrow_vault)
        &&& forall|a: AccountId| #[trigger]
            self.credit_records@.contains_key(a) ==> self.credit_records@[a].lessee == a
    }

    /// The lease stored under `id`.
    pub open spec fn lease(&self, id: u64) -> Lease {
        self.leases@[id]
    }

    /// Whether a lease is stored under `id`.
    pub open spec fn has_lease(&self, id: u64) -> bool {
        self.leases@.contains_key(id)
    }

    /// A fresh contract state with the given oracle.
    pub fn initialize(oracle_address: AccountId) -> (r: Self)
        ensures
            r.wf(),
            r.leases@ == Map::<u64, Lease>::empty(),
            r.next_lease_id == 1,
            r.escrow_vault == (EscrowVault { total_locked: 0, available_balance: 0, lessor_treasury: 0 }),
            r.credit_records@ == Map::<AccountId, ProtocolCreditRecord>::empty(),
            r.oracle_config == (OracleConfig {
                oracle_address,
                staleness_threshold: 900,
                volatility_threshold: 2000,
                max_price_age: 3600,
            }),
    {
        ContractData {
            leases: HashMap::new(),
            next_lease_id: 1,
            escrow_vault: EscrowVault { total_locked: 0, available_balance: 0, lessor_treasury: 0 },
            credit_records: HashMap::new(),
            oracle_config: OracleConfig {
                oracle_address,
                staleness_threshold: 900,
                volatility_threshold: 2000,
                max_price_age: 3600,
            },
        }
    }

    /// The lessor creates a pending lease at `now`, subject to the lessor's
    /// creation rate limits, kept in `tracker`. `prorated_rent` is the rent
    /// prorated over the time from `now` to `end_date`, where it could be
    /// computed. The new lease's id is returned.
    pub fn create_lease(
        &mut self,
        tracker: &mut CreationTracker,
        lessor: AccountId,
        lessee: AccountId,
        rent_amount: i64,
        deposit_amount: i64,
        start_date: u64,
        end_date: u64,
        max_grace_period: u64,
        late_fee_rate: u32,
        property_uri: Vec<u8>,
        fiat_peg_config: Option<FiatPegConfig>,
        now: u64,
        prorated_rent: Option<i64>,
    ) -> (r: Result<u64, Error>)
        requires
            old(self).wf(),
            old(self).next_lease_id < u64::MAX,
            old(tracker).address == lessor,
            24 * CREATION_WINDOW <= now <= u64::MAX - CREATION_WINDOW,
            old(tracker).creation_timestamps_1h@.len() <= u32::MAX,
            old(tracker).creation_timestamps_24h@.len() <= u32::MAX,
            old(tracker).creations_1h < u32::MAX,
            old(tracker).creations_24h < u32::MAX,
        ensures
            final(self).wf(),
            final(tracker).address == lessor,
            creation_input_outcome(rent_amount, deposit_amount, start_date, end_date, fiat_peg_config)
                matches Err(e) ==> r == Err::<u64, Error>(e) && *final(tracker) == *old(tracker),
            creation_input_outcome(rent_amount, deposit_amount, start_date, end_date, fiat_peg_config)
                is Ok && !super::lease_creation_rate_limit::creation_allowed(*old(tracker), now) ==> r == Err::<u64, Error>(
                Error::RateLimitExceeded,
            ) && (!super::lease_creation_rate_limit::block_active(*old(tracker), now) ==> final(tracker).is_rate_limited
                && final(tracker).rate_limit_until == Some((now + CREATION_WINDOW) as u64)),
            r is Err ==> *final(self) == *old(self),
            creation_input_outcome(rent_amount, deposit_amount, start_date, end_date, fiat_peg_config)
                is Ok && super::lease_creation_rate_limit::creation_allowed(*old(tracker), now) ==> {
                let id = old(self).next_lease_id;
                &&& r == Ok::<u64, Error>(id)
                &&& final(self).leases@ == old(self).leases@.insert(
                    id,
                    Lease {
                        lease_id: id,
                        lessor,
                        lessee,
                        rent_amount,
                        deposit_amount,
                        start_date,
                        end_date,
                        state: LeaseState::Pending,
                        max_grace_period,
                        late_fee_rate,
                        dunning_start_timestamp: None,
                        outstanding_balance: 0,
                        accumulated_late_fees: 0,
                        last_rent_payment_timestamp: 0,
                        property_uri,
                        arrears_processed: false,
                        prorated_initial_rent: initial_rent(rent_amount, start_date, now, prorated_rent),
                        total_paid_rent: 0,
                        fiat_peg_config,
                        last_oracle_price: None,
                        last_oracle_timestamp: None,
                    },
                )
                &&& final(self).next_lease_id == id + 1
                &&& final(self).escrow_vault == old(self).escrow_vault
                &&& final(self).credit_records == old(self).credit_records
                &&& final(self).oracle_config == old(self).oracle_config
                &&& !final(tracker).is_rate_limited
                &&& final(tracker).creation_timestamps_1h@ == old(tracker).creation_timestamps_1h@.push(now)
                &&& final(tracker).creation_timestamps_24h@ == old(tracker).creation_timestamps_24h@.push(now)
                &&& final(tracker).creations_1h == old(tracker).creations_1h + 1
                &&& final(tracker).creations_24h == old(tracker).creations_24h + 1
            },
    {
        if rent_amount <= 0 || deposit_amount <= 0 {
            return Err(Error::InvalidAmount);
        }
        if start_date >= end_date {
            return Err(Error::InvalidAmount);
        }
        match &fiat_peg_config {
            Some(config) => {
                if config.target_usd_amount <= 0 {
                    return Err(Error::InvalidFiatPegConfig);
                }
                if config.staleness_threshold == 0 || config.volatility_threshold == 0 {
                    return Err(Error::InvalidFiatPegConfig);
                }
            },
            None => {},
        }
        match tracker.check_creation_limits(now) {
            Ok(()) => {},
            Err(e) => {
                return Err(e);
            },
        }
        let lease_id = self.next_lease_id;
        let prorated_initial_rent = if now > start_date {
            match prorated_rent {
                Some(a) => a,
                None => rent_amount,
            }
        } else {
            rent_amount
        };
        let lease = Lease {
            lease_id,
            lessor,
            lessee,
            rent_amount,
            deposit_amount,
            start_date,
            end_date,
            state: LeaseState::Pending,
            max_grace_period,
            late_fee_rate,
            dunning_start_timestamp: None,
            outstanding_balance: 0,
            accumulated_late_fees: 0,
            last_rent_payment_timestamp: 0,
            property_uri,
            arrears_processed: false,
            prorated_initial_rent,
            total_paid_rent: 0,
            fiat_peg_config,
            last_oracle_price: None,
            last_oracle_timestamp: None,
        };
        self.leases.insert(lease_id, lease);
        self.next_lease_id = self.next_lease_id + 1;
        tracker.record_creation(now);
        Ok(lease_id)
    }

    /// The lessee of a pending lease pays its deposit at `now`: the deposit
    /// is locked in the vault and the lease becomes active.
    pub fn activate_lease(&mut self, lease_id: u64, lessee: AccountId, now: u64) -> (r: Result<
        (LeaseActivatedEvent, Option<ProratedRentCalculatedEvent>),
        Error,
    >)
        requires
            old(self).wf(),
            activation_outcome(old(self).leases@, lease_id, lessee) is Ok
                ==> old(self).escrow_vault.total_locked + old(self).lease(lease_id).deposit_amount
                <= i64::MAX,
        ensures
            final(self).wf(),
            match activation_outcome(old(self).leases@, lease_id, lessee) {
                Err(e) => r == Err::<
                    (LeaseActivatedEvent, Option<ProratedRentCalculatedEvent>),
                    Error,
                >(e),
                Ok(_) => r == Ok::<
                    (LeaseActivatedEvent, Option<ProratedRentCalculatedEvent>),
                    Error,
                >(activation_notice(old(self).lease(lease_id), now)),
            },
            r is Err ==> *final(self) == *old(self),
            r is Ok ==> {
                let deposit = old(self).lease(lease_id).deposit_amount;
                &&& final(self).leases@ == old(self).leases@.insert(
                    lease_id,
                    activated(old(self).lease(lease_id), now),
                )
                &&& final(self).escrow_vault == (EscrowVault {
                    total_locked: (old(self).escrow_vault.total_locked + deposit) as i64,
                    available_balance: (old(self).escrow_vault.available_balance + deposit) as i64,
                    lessor_treasury: old(self).escrow_vault.lessor_treasury,
                })
                &&& final(self).next_lease_id == old(self).next_lease_id
                &&& final(self).credit_records == old(self).credit_records
                &&& final(self).oracle_config == old(self).oracle_config
            },
    {
        match self.leases.get(&lease_id) {
            None => {
                return Err(Error::LeaseNotFound);
            },
            Some(lease) => {
                if lessee != lease.lessee {
                    return Err(Error::Unauthorized);
                }
                if lease.state != LeaseState::Pending {
                    return Err(Error::LeaseAlreadyActive);
                }
            },
        }
        let mut lease = self.leases.remove(&lease_id).unwrap();
        let deposit = lease.deposit_amount;
        self.escrow_vault.total_locked = self.escrow_vault.total_locked + deposit;
        self.escrow_vault.available_balance = self.escrow_vault.available_balance + deposit;
        lease.state = LeaseState::Active;
        lease.last_rent_payment_timestamp = now;
        let prorated = if lease.prorated_initial_rent != lease.rent_amount {
            Some(
                ProratedRentCalculatedEvent {
                    lease_id,
                    monthly_rent: lease.rent_amount,
                    elapsed_seconds: lease.end_date.saturating_sub(now),
                    prorated_amount: lease.prorated_initial_rent,
                    calculation_type: ProrationKind::Initialization,
                },
            )
        } else {
            None
        };
        self.leases.insert(lease_id, lease);
        Ok((LeaseActivatedEvent { lease_id, activation_timestamp: now }, prorated))
    }

    /// A rent payment of `amount` at `now`. An active lease records it; a
    /// lease in its grace period recovers when the payment also covers the
    /// late fees, which is reported together with the late fees it settled
    /// (taken before the lease's accumulated fees are reset to zero).
    pub fn process_rent_payment(&mut self, lease_id: u64, amount: i64, now: u64) -> (r: Result<
        Option<LeaseRecoveredEvent>,
        Error,
    >)
        requires
            old(self).wf(),
            payment_outcome(old(self).leases@, lease_id, amount) is Ok ==> fits_i64(
                old(self).lease(lease_id).total_paid_rent + amount,
            ),
            old(self).has_lease(lease_id) && amount >= old(self).lease(lease_id).rent_amount
                && old(self).lease(lease_id).state == LeaseState::GracePeriod ==> fits_i64(
                old(self).lease(lease_id).rent_amount + old(self).lease(
                    lease_id,
                ).accumulated_late_fees,
            ),
        ensures
            final(self).wf(),
            match payment_outcome(old(self).leases@, lease_id, amount) {
                Err(e) => r == Err::<Option<LeaseRecoveredEvent>, Error>(e),
                Ok(_) => r == Ok::<Option<LeaseRecoveredEvent>, Error>(
                    recovery_notice(old(self).lease(lease_id), amount, now),
                ),
            },
            r is Err ==> *final(self) == *old(self),
            r is Ok ==> {
                &&& final(self).leases@ == old(self).leases@.insert(
                    lease_id,
                    paid(old(self).lease(lease_id), amount, now),
                )
                &&& final(self).escrow_vault == old(self).escrow_vault
                &&& final(self).next_lease_id == old(self).next_lease_id
                &&& final(self).credit_records == old(self).credit_records
                &&& final(self).oracle_config == old(self).oracle_config
            },
    {
        match self.leases.get(&lease_id) {
            None => {
                return Err(Error::LeaseNotFound);
            },
            Some(lease) => {
                if amount < lease.rent_amount {
                    return Err(Error::InsufficientRentFunds);
                }
                match lease.state {
                    LeaseState::Active => {},
                    LeaseState::GracePeriod => {
                        let total_required = lease.rent_amount + lease.accumulated_late_fees;
                        if amount < total_required {
                            return Err(Error::InsufficientRentFunds);
                        }
                    },
                    _ => {
                        return Err(Error::LeaseNotActive);
                    },
                }
            },
        }
        let mut lease = self.leases.remove(&lease_id).unwrap();
        let notice = if lease.state == LeaseState::GracePeriod {
            lease.dunning_start_timestamp = None;
            Some(
                LeaseRecoveredEvent {
                    lease_id,
                    recovery_timestamp: now,
                    total_paid: amount,
                    late_fee_paid: lease.accumulated_late_fees,
                },
            )
        } else {
            None
        };
        lease.state = LeaseState::Active;
        lease.last_rent_payment_timestamp = now;
        lease.outstanding_balance = 0;
        lease.accumulated_late_fees = 0;
        lease.total_paid_rent = lease.total_paid_rent + amount;
        self.leases.insert(lease_id, lease);
        Ok(notice)
    }

    /// Adds `residual_debt` left by lease `lease_id` at `now` to the credit
    /// record of `lessee`, opening the record where there is none.
    pub fn update_credit_record(
        &mut self,
        lessee: AccountId,
        residual_debt: i64,
        lease_id: u64,
        now: u64,
    )
        requires
            old(self).wf(),
            fits_i64(prior_debt(old(self).credit_records@, lessee) + residual_debt),
            prior_default_count(old(self).credit_records@, lessee) < u32::MAX,
        ensures
            final(self).wf(),
            final(self).credit_records@.contains_key(lessee),
            final(self).credit_records@ == old(self).credit_records@.insert(
                lessee,
                final(self).credit_records@[lessee],
            ),
            debited(
                old(self).credit_records@,
                lessee,
                residual_debt as int,
                lease_id,
                now,
                final(self).credit_records@[lessee],
            ),
            final(self).leases == old(self).leases,
            final(self).escrow_vault == old(self).escrow_vault,
            final(self).next_lease_id == old(self).next_lease_id,
            final(self).oracle_config == old(self).oracle_config,
    {
        let mut record = match self.credit_records.remove(&lessee) {
            Some(r) => r,
            None => ProtocolCreditRecord {
                lessee,
                total_debt_amount: 0,
                default_count: 0,
                last_default_timestamp: 0,
                associated_lease_ids: Vec::new(),
            },
        };
        record.total_debt_amount = record.total_debt_amount + residual_debt;
        record.default_count = record.default_count + 1;
        record.last_default_timestamp = now;
        if !crate::accounts::contains_id(&record.associated_lease_ids, lease_id) {
            record.associated_lease_ids.push(lease_id);
        }
        self.credit_records.insert(lessee, record);
    }

    /// Settles the arrears of a lease pending eviction against its deposit
    /// at `now`: the vault pays the lessor's treasury up to the deposit, and
    /// what the deposit does not cover is added to the lessee's credit record.
    pub fn execute_arrears_deduction(&mut self, lease_id: u64, now: u64) -> (r: Result<
        DepositSlashedForArrearsEvent,
        Error,
    >)
        requires
            old(self).wf(),
            old(self).has_lease(lease_id) && old(self).lease(lease_id).state
                == LeaseState::EvictionPending && !old(self).lease(lease_id).arrears_processed
                && old(self).lease(lease_id).dunning_start_timestamp is Some ==> fits_i64(
                arrears_total(old(self).lease(lease_id)),
            ),
            arrears_outcome(old(self).leases@, old(self).escrow_vault, lease_id) is Ok ==> {
                let l = old(self).lease(lease_id);
                let residual = arrears_total(l) - deduction(arrears_total(l), l.deposit_amount as int);
                residual > 0 ==> {
                    &&& fits_i64(prior_debt(old(self).credit_records@, l.lessee) + residual)
                    &&& prior_default_count(old(self).credit_records@, l.lessee) < u32::MAX
                }
            },
        ensures
            final(self).wf(),
            match arrears_outcome(old(self).leases@, old(self).escrow_vault, lease_id) {
                Err(e) => r == Err::<DepositSlashedForArrearsEvent, Error>(e),
                Ok(_) => r == Ok::<DepositSlashedForArrearsEvent, Error>(
                    settlement(old(self).lease(lease_id), old(self).escrow_vault, now),
                ),
            },
            r is Err ==> *final(self) == *old(self),
            r is Ok ==> arrears_settled(
                old(self).leases@,
                old(self).escrow_vault,
                old(self).credit_records@,
                lease_id,
                now,
                final(self),
            ) && final(self).next_lease_id == old(self).next_lease_id && final(self).oracle_config
                == old(self).oracle_config,
    {
        let (dunning_start, total_arrears, deposit, lessee) = match self.leases.get(&lease_id) {
            None => {
                return Err(Error::LeaseNotFound);
            },
            Some(lease) => {
                if lease.state != LeaseState::EvictionPending {
                    return Err(Error::InvalidStateTransition);
                }
                if lease.arrears_processed {
                    return Err(Error::ArrearsAlreadyProcessed);
                }
                let dunning_start = match lease.dunning_start_timestamp {
                    Some(t) => t,
                    None => {
                        return Err(Error::InvalidStateTransition);
                    },
                };
                (
                    dunning_start,
                    lease.outstanding_balance + lease.accumulated_late_fees,
                    lease.deposit_amount,
                    lease.lessee,
                )
            },
        };
        let unpaid_duration = now.saturating_sub(dunning_start);
        let deduction_amount = match calculate_deduction_amount(total_arrears, deposit) {
            Ok(d) => d,
            Err(e) => {
                return Err(e);
            },
        };
        if self.escrow_vault.available_balance < deduction_amount {
            return Err(Error::EscrowVaultUnderflow);
        }
        self.escrow_vault.available_balance = self.escrow_vault.available_balance
            - deduction_amount;
        self.escrow_vault.lessor_treasury = self.escrow_vault.lessor_treasury + deduction_amount;
        let residual_debt = total_arrears - deduction_amount;
        let mut lease = self.leases.remove(&lease_id).unwrap();
        lease.arrears_processed = true;
        self.leases.insert(lease_id, lease);
        if residual_debt > 0 {
            self.update_credit_record(lessee, residual_debt, lease_id, now);
        }
        Ok(
            DepositSlashedForArrearsEvent {
                lease_id,
                unpaid_duration,
                deducted_amount: deduction_amount,
                remaining_escrow_balance: self.escrow_vault.available_balance,
                residual_debt,
            },
        )
    }

    /// Checks at `now` whether the grace period of a lease is over; if so the
    /// lease is marked for eviction and its arrears are settled against the
    /// deposit, and the settlement is returned.
    pub fn check_grace_period_expiry(&mut self, lease_id: u64, now: u64) -> (r: Result<
        Option<(EvictionPendingEvent, DepositSlashedForArrearsEvent)>,
        Error,
    >)
        requires
            old(self).wf(),
            old(self).has_lease(lease_id) && old(self).lease(lease_id).state
                == LeaseState::GracePeriod && old(self).lease(lease_id).dunning_start_timestamp is Some
                ==> {
                let l = old(self).lease(lease_id);
                &&& l.dunning_start_timestamp->Some_0 + l.max_grace_period <= u64::MAX
                &&& grace_expired(l, now) ==> fits_i64(arrears_total(l))
                &&& grace_expired(l, now) && arrears_outcome(
                    old(self).leases@.insert(lease_id, evicted(l)),
                    old(self).escrow_vault,
                    lease_id,
                ) is Ok ==> {
                    let residual = arrears_total(l) - deduction(
                        arrears_total(l),
                        l.deposit_amount as int,
                    );
                    residual > 0 ==> {
                        &&& fits_i64(prior_debt(old(self).credit_records@, l.lessee) + residual)
                        &&& prior_default_count(old(self).credit_records@, l.lessee) < u32::MAX
                    }
                }
            },
        ensures
            final(self).wf(),
            match expiry_outcome(old(self).leases@, old(self).escrow_vault, lease_id, now) {
                Err(e) => r == Err::<Option<(EvictionPendingEvent, DepositSlashedForArrearsEvent)>, Error>(e) && same_contents(
                    final(self),
                    old(self),
                ),
                Ok(false) => r == Ok::<Option<(EvictionPendingEvent, DepositSlashedForArrearsEvent)>, Error>(None) && *final(self)
                    == *old(self),
                Ok(true) => {
                    let l = evicted(old(self).lease(lease_id));
                    &&& r == Ok::<Option<(EvictionPendingEvent, DepositSlashedForArrearsEvent)>, Error>(
                        Some(
                            (
                                eviction_notice(old(self).lease(lease_id), now),
                                settlement(l, old(self).escrow_vault, now),
                            ),
                        ),
                    )
                    &&& arrears_settled(
                        old(self).leases@.insert(lease_id, l),
                        old(self).escrow_vault,
                        old(self).credit_records@,
                        lease_id,
                        now,
                        final(self),
                    )
                    &&& final(self).next_lease_id == old(self).next_lease_id
                    &&& final(self).oracle_config == old(self).oracle_config
                },
            },
    {
        match self.leases.get(&lease_id) {
            None => {
                return Err(Error::LeaseNotFound);
            },
            Some(lease) => {
                if lease.state != LeaseState::GracePeriod {
                    return Ok(None);
                }
                let dunning_start = match lease.dunning_start_timestamp {
                    Some(t) => t,
                    None => {
                        return Err(Error::InvalidStateTransition);
                    },
                };
                if now <= dunning_start + lease.max_grace_period {
                    return Ok(None);
                }
            },
        }
        let total_outstanding = {
            let lease = self.leases.get(&lease_id).unwrap();
            lease.outstanding_balance + lease.accumulated_late_fees
        };
        let notice = EvictionPendingEvent {
            lease_id,
            eviction_timestamp: now,
            total_outstanding,
        };
        let ghost before = self.leases@;
        let mut lease = self.leases.remove(&lease_id).unwrap();
        lease.state = LeaseState::EvictionPending;
        self.leases.insert(lease_id, lease);
        match self.execute_arrears_deduction(lease_id, now) {
            Ok(settled) => Ok(Some((notice, settled))),
            Err(e) => {
                let mut lease = self.leases.remove(&lease_id).unwrap();
                lease.state = LeaseState::GracePeriod;
                self.leases.insert(lease_id, lease);
                assert(self.leases@ =~= before);
                Err(e)
            },
        }
    }

    /// The lessor asks at `now` for the grace period of a lease to be
    /// checked; see `check_grace_period_expiry`.
    pub fn trigger_grace_period_check(&mut self, lease_id: u64, caller: AccountId, now: u64) -> (r:
        Result<Option<(EvictionPendingEvent, DepositSlashedForArrearsEvent)>, Error>)
        requires
            old(self).wf(),
            old(self).has_lease(lease_id) && old(self).lease(lease_id).state
                == LeaseState::GracePeriod && old(self).lease(lease_id).dunning_start_timestamp is Some
                ==> {
                let l = old(self).lease(lease_id);
                &&& l.dunning_start_timestamp->Some_0 + l.max_grace_period <= u64::MAX
                &&& grace_expired(l, now) ==> fits_i64(arrears_total(l))
                &&& grace_expired(l, now) && arrears_outcome(
                    old(self).leases@.insert(lease_id, evicted(l)),
                    old(self).escrow_vault,
                    lease_id,
                ) is Ok ==> {
                    let residual = arrears_total(l) - deduction(
                        arrears_total(l),
                        l.deposit_amount as int,
                    );
                    residual > 0 ==> {
                        &&& fits_i64(prior_debt(old(self).credit_records@, l.lessee) + residual)
                        &&& prior_default_count(old(self).credit_records@, l.lessee) < u32::MAX
                    }
                }
            },
        ensures
            final(self).wf(),
            !old(self).has_lease(lease_id) ==> r == Err::<Option<(EvictionPendingEvent, DepositSlashedForArrearsEvent)>, Error>(
                Error::LeaseNotFound,
            ) && *final(self) == *old(self),
            old(self).has_lease(lease_id) && caller != old(self).lease(lease_id).lessor ==> r
                == Err::<Option<(EvictionPendingEvent, DepositSlashedForArrearsEvent)>, Error>(Error::Unauthorized) && *final(self)
                == *old(self),
            old(self).has_lease(lease_id) && caller == old(self).lease(lease_id).lessor ==> match expiry_outcome(
                old(self).leases@,
                old(self).escrow_vault,
                lease_id,
                now,
            ) {
                Err(e) => r == Err::<Option<(EvictionPendingEvent, DepositSlashedForArrearsEvent)>, Error>(e) && same_contents(
                    final(self),
                    old(self),
                ),
                Ok(false) => r == Ok::<Option<(EvictionPendingEvent, DepositSlashedForArrearsEvent)>, Error>(None) && *final(self)
                    == *old(self),
                Ok(true) => {
                    let l = evicted(old(self).lease(lease_id));
                    &&& r == Ok::<Option<(EvictionPendingEvent, DepositSlashedForArrearsEvent)>, Error>(
                        Some(
                            (
                                eviction_notice(old(self).lease(lease_id), now),
                                settlement(l, old(self).escrow_vault, now),
                            ),
                        ),
                    )
                    &&& arrears_settled(
                        old(self).leases@.insert(lease_id, l),
                        old(self).escrow_vault,
                        old(self).credit_records@,
                        lease_id,
                        now,
                        final(self),
                    )
                    &&& final(self).next_lease_id == old(self).next_lease_id
                    &&& final(self).oracle_config == old(self).oracle_config
                },
            },
    {
        match self.leases.get(&lease_id) {
            None => {
                return Err(Error::LeaseNotFound);
            },
            Some(lease) => {
                if caller != lease.lessor {
                    return Err(Error::Unauthorized);
                }
            },
        }
        self.check_grace_period_expiry(lease_id, now)
    }

    /// Bills the fiat-pegged rent of an active lease at `now` at the oracle
    /// price `fetched` (`None` where the oracle call failed); the bill is
    /// reported.
    pub fn process_fiat_pegged_rent_payment(
        &mut self,
        lease_id: u64,
        fetched: Option<PriceData>,
        now: u64,
    ) -> (r: Result<FiatPeggedRentBilledEvent, Error>)
        requires
            old(self).wf(),
            old(self).has_lease(lease_id) ==> volatility_arith_fits(
                old(self).lease(lease_id),
                fetched,
                now,
            ) && peg_arith_fits(old(self).lease(lease_id), fetched, now),
            fiat_payment_outcome(old(self).leases@, lease_id, fetched, now) matches Ok(a)
                ==> fits_i64(old(self).lease(lease_id).total_paid_rent + a),
        ensures
            final(self).wf(),
            match fiat_payment_outcome(old(self).leases@, lease_id, fetched, now) {
                Err(e) => r == Err::<FiatPeggedRentBilledEvent, Error>(e),
                Ok(a) => {
                    let config = old(self).lease(lease_id).fiat_peg_config->Some_0;
                    r == Ok::<FiatPeggedRentBilledEvent, Error>(
                        FiatPeggedRentBilledEvent {
                            lease_id,
                            target_usd_amount: config.target_usd_amount,
                            oracle_exchange_rate: fetched->Some_0.price,
                            final_crypto_deduction: a,
                            billing_timestamp: now,
                            asset_address: config.asset_address,
                        },
                    )
                },
            },
            r is Err ==> *final(self) == *old(self),
            r matches Ok(ev) ==> {
                let a = ev.final_crypto_deduction;
                &&& final(self).leases@ == old(self).leases@.insert(
                    lease_id,
                    fiat_billed(old(self).lease(lease_id), fetched->Some_0, a, now),
                )
                &&& final(self).escrow_vault == old(self).escrow_vault
                &&& final(self).next_lease_id == old(self).next_lease_id
                &&& final(self).credit_records == old(self).credit_records
                &&& final(self).oracle_config == old(self).oracle_config
            },
    {
        let (amount, price_data, config) = match self.leases.get(&lease_id) {
            None => {
                return Err(Error::LeaseNotFound);
            },
            Some(lease) => {
                if lease.state != LeaseState::Active {
                    return Err(Error::LeaseNotActive);
                }
                let config = match lease.fiat_peg_config {
                    None => {
                        return Err(Error::InvalidFiatPegConfig);
                    },
                    Some(config) => {
                        if !config.enabled {
                            return Err(Error::InvalidFiatPegConfig);
                        }
                        config
                    },
                };
                let amount = match calculate_fiat_pegged_rent(lease, fetched, now) {
                    Ok(a) => a,
                    Err(e) => {
                        return Err(e);
                    },
                };
                let price_data = match get_oracle_price(lease, fetched, now) {
                    Ok(p) => p,
                    Err(e) => {
                        return Err(e);
                    },
                };
                (amount, price_data, config)
            },
        };
        let mut lease = self.leases.remove(&lease_id).unwrap();
        lease.last_oracle_price = Some(price_data.price);
        lease.last_oracle_timestamp = Some(price_data.timestamp);
        lease.last_rent_payment_timestamp = now;
        lease.total_paid_rent = lease.total_paid_rent + amount;
        self.leases.insert(lease_id, lease);
        Ok(
            FiatPeggedRentBilledEvent {
                lease_id,
                target_usd_amount: config.target_usd_amount,
                oracle_exchange_rate: price_data.price,
                final_crypto_deduction: amount,
                billing_timestamp: now,
                asset_address: config.asset_address,
            },
        )
    }

    /// The lessor or the lessee ends an active lease at `now`; the lease is
    /// closed and the refund is returned and reported. `termination_refund`
    /// is the prorated refund for the unused period, where it could be
    /// computed.
    pub fn terminate_lease(
        &mut self,
        lease_id: u64,
        caller: AccountId,
        now: u64,
        termination_refund: Option<i64>,
    ) -> (r: Result<(i64, ProratedRentCalculatedEvent), Error>)
        requires
            old(self).wf(),
        ensures
            final(self).wf(),
            match termination_outcome(old(self).leases@, lease_id, caller) {
                Err(e) => r == Err::<(i64, ProratedRentCalculatedEvent), Error>(e) && *final(self)
                    == *old(self),
                Ok(_) => {
                    let l = old(self).lease(lease_id);
                    let refund = match termination_refund {
                        Some(a) => a,
                        None => 0,
                    };
                    &&& r == Ok::<(i64, ProratedRentCalculatedEvent), Error>(
                        (
                            termination_payout(l, now, refund),
                            ProratedRentCalculatedEvent {
                                lease_id,
                                monthly_rent: l.rent_amount,
                                elapsed_seconds: u64_saturating_sub(l.end_date, now),
                                prorated_amount: termination_payout(l, now, refund),
                                calculation_type: ProrationKind::Termination,
                            },
                        ),
                    )
                    &&& final(self).leases@ == old(self).leases@.insert(
                        lease_id,
                        Lease { state: LeaseState::Closed, ..l },
                    )
                    &&& final(self).escrow_vault == old(self).escrow_vault
                    &&& final(self).next_lease_id == old(self).next_lease_id
                    &&& final(self).credit_records == old(self).credit_records
                    &&& final(self).oracle_config == old(self).oracle_config
                },
            },
    {
        let (last_payment, monthly_rent, end_date) = match self.leases.get(&lease_id) {
            None => {
                return Err(Error::LeaseNotFound);
            },
            Some(lease) => {
                if caller != lease.lessor && caller != lease.lessee {
                    return Err(Error::Unauthorized);
                }
                if lease.state != LeaseState::Active {
                    return Err(Error::LeaseNotActive);
                }
                (lease.last_rent_payment_timestamp, lease.rent_amount, lease.end_date)
            },
        };
        let refund_amount = match termination_refund {
            Some(a) => a,
            None => 0,
        };
        let lease_duration = now.saturating_sub(last_payment);
        let payout = if lease_duration < MINIMUM_HOLDING_PERIOD && refund_amount > 0 {
            let penalty_amount = refund_amount / 10;
            refund_amount - penalty_amount
        } else {
            refund_amount
        };
        let mut lease = self.leases.remove(&lease_id).unwrap();
        lease.state = LeaseState::Closed;
        self.leases.insert(lease_id, lease);
        let notice = ProratedRentCalculatedEvent {
            lease_id,
            monthly_rent,
            elapsed_seconds: end_date.saturating_sub(now),
            prorated_amount: payout,
            calculation_type: ProrationKind::Termination,
        };
        Ok((payout, notice))
    }

    /// The lease stored under `lease_id`.
    pub fn get_lease(&self, lease_id: u64) -> (r: Result<&Lease, Error>)
        ensures
            self.has_lease(lease_id) ==> r == Ok::<&Lease, Error>(&self.lease(lease_id)),
            !self.has_lease(lease_id) ==> r == Err::<&Lease, Error>(Error::LeaseNotFound),
    {
        match self.leases.get(&lease_id) {
            Some(l) => Ok(l),
            None => Err(Error::LeaseNotFound),
        }
    }

    /// The ids, ascending, of the leases where `user` is lessor or lessee.
    pub fn get_user_leases(&self, user: AccountId) -> (r: Vec<u64>)
        ensures
            r@ == user_lease_ids(self.leases@, user, self.next_lease_id as nat),
    {
        let mut ids: Vec<u64> = Vec::new();
        let mut id: u64 = 0;
        while id < self.next_lease_id
            invariant
                id <= self.next_lease_id,
                ids@ == user_lease_ids(self.leases@, user, id as nat),
            decreases self.next_lease_id - id,
        {
            match self.leases.get(&id) {
                Some(l) => {
                    if l.lessor == user || l.lessee == user {
                        ids.push(id);
                    }
                },
                None => {},
            }
            id = id + 1;
        }
        ids
    }

    /// The credit record of `lessee`.
    pub fn get_credit_record(&self, lessee: AccountId) -> (r: Result<&ProtocolCreditRecord, Error>)
        ensures
            self.credit_records@.contains_key(lessee) ==> r == Ok::<&ProtocolCreditRecord, Error>(
                &self.credit_records@[lessee],
            ),
            !self.credit_records@.contains_key(lessee) ==> r == Err::<&ProtocolCreditRecord, Error>(
                Error::CreditRecordError,
            ),
    {
        match self.credit_records.get(&lessee) {
            Some(rec) => Ok(rec),
            None => Err(Error::CreditRecordError),
        }
    }

    /// The escrow vault.
    pub fn get_escrow_vault(&self) -> (r: Result<EscrowVault, Error>)
        ensures
            r == Ok::<EscrowVault, Error>(self.escrow_vault),
    {
        Ok(self.escrow_vault)
    }

    /// The rent of an active lease failed at `now`: the lease enters its
    /// grace period owing one rent plus the late fee, and the end of the
    /// grace period is reported.
    pub fn handle_rent_payment_failure(&mut self, lease_id: u64, now: u64) -> (r: Result<
        RentDelinquencyStartedEvent,
        Error,
    >)
        requires
            old(self).wf(),
            failure_outcome(old(self).leases@, lease_id) is Ok ==> now + old(self).lease(
                lease_id,
            ).max_grace_period <= u64::MAX,
        ensures
            final(self).wf(),
            match failure_outcome(old(self).leases@, lease_id) {
                Err(e) => r == Err::<RentDelinquencyStartedEvent, Error>(e),
                Ok(_) => r == Ok::<RentDelinquencyStartedEvent, Error>(
                    delinquency_notice(old(self).lease(lease_id), now),
                ),
            },
            r is Err ==> *final(self) == *old(self),
            r is Ok ==> {
                &&& final(self).leases@ == old(self).leases@.insert(
                    lease_id,
                    delinquent(old(self).lease(lease_id), now),
                )
                &&& final(self).escrow_vault == old(self).escrow_vault
                &&& final(self).next_lease_id == old(self).next_lease_id
                &&& final(self).credit_records == old(self).credit_records
                &&& final(self).oracle_config == old(self).oracle_config
            },
    {
        let fee = match self.leases.get(&lease_id) {
            None => {
                return Err(Error::LeaseNotFound);
            },
            Some(lease) => {
                if lease.state != LeaseState::Active {
                    return Err(Error::InvalidStateTransition);
                }
                match calculate_late_fee(lease, lease.rent_amount) {
                    Ok(fee) => fee,
                    Err(e) => {
                        return Err(e);
                    },
                }
            },
        };
        let mut lease = self.leases.remove(&lease_id).unwrap();
        lease.state = LeaseState::GracePeriod;
        lease.dunning_start_timestamp = Some(now);
        lease.outstanding_balance = lease.rent_amount;
        lease.accumulated_late_fees = fee;
        let notice = RentDelinquencyStartedEvent {
            lease_id,
            dunning_start_timestamp: now,
            grace_period_end_timestamp: now + lease.max_grace_period,
            outstanding_amount: lease.rent_amount,
            late_fee_amount: fee,
        };
        self.leases.insert(lease_id, lease);
        Ok(notice)
    }
}

} // verus!

verus! {

/// A lease whose rent failed recovers with a single payment covering its
/// rent and late fee, and only with such a payment; once recovered it is
/// active again and owes nothing.
pub proof fn lemma_failed_rent_recovers_with_rent_and_fee(
    leases: Map<u64, Lease>,
    id: u64,
    failed_at: u64,
    amount: i64,
    paid_at: u64,
)
    requires
        failure_outcome(leases, id) is Ok,
        leases[id].rent_amount > 0,
    ensures
        ({
            let l = leases[id];
            let fee = late_fee(l.rent_amount as int, l.late_fee_rate as int);
            let after = leases.insert(id, delinquent(l, failed_at));
            &&& payment_outcome(after, id, amount) is Ok <==> amount >= l.rent_amount + fee
            &&& payment_outcome(after, id, amount) is Ok ==> {
                let recovered = paid(delinquent(l, failed_at), amount, paid_at);
                &&& recovered.state == LeaseState::Active
                &&& recovered.outstanding_balance == 0
                &&& recovered.accumulated_late_fees == 0
                &&& recovered.dunning_start_timestamp is None
            }
        }),
{
    let l = leases[id];
    assert(late_fee(l.rent_amount as int, l.late_fee_rate as int) >= 0) by (nonlinear_arith)
        requires
            l.rent_amount >= 0,
            l.late_fee_rate >= 0,
    ;
}

/// An arrears settlement splits the arrears exactly: the deposit pays a
/// positive part no larger than itself, and the rest is residual debt.
pub proof fn lemma_arrears_split(total_arrears: int, deposit: int)
    requires
        total_arrears > 0,
        deposit > 0,
    ensures
        0 < deduction(total_arrears, deposit) <= deposit,
        deduction(total_arrears, deposit) <= total_arrears,
        total_arrears - deduction(total_arrears, deposit) >= 0,
        total_arrears - deduction(total_arrears, deposit) > 0 <==> total_arrears > deposit,
{
}

/// The ids listed for a user are exactly the user's leases below the
/// bound, in strictly ascending order.
pub proof fn lemma_user_lease_ids_exact(leases: Map<u64, Lease>, user: AccountId, n: nat)
    requires
        n <= u64::MAX + 1,
    ensures
        ({
            let ids = user_lease_ids(leases, user, n);
            &&& forall|i: int, j: int| 0 <= i < j < ids.len() ==> ids[i] < ids[j]
            &&& forall|id: u64|
                ids.contains(id) <==> (id < n && leases.contains_key(id) && (leases[id].lessor
                    == user || leases[id].lessee == user))
        }),
    decreases n,
{
    if n > 0 {
        lemma_user_lease_ids_exact(leases, user, (n - 1) as nat);
        let prev = user_lease_ids(leases, user, (n - 1) as nat);
        let ids = user_lease_ids(leases, user, n);
        broadcast use vstd::seq_lib::group_seq_properties;

        assert forall|i: int, j: int| 0 <= i < j < ids.len() implies ids[i] < ids[j] by {
            if ids != prev && j == ids.len() - 1 {
                assert(prev.contains(prev[i]));
            }
        }
    }
}

} // verus!
