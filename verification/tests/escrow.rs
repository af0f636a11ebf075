use leaseflow::flow::escrow::{
    calculate_deduction_amount, calculate_late_fee, ContractData, FiatPegConfig, LeaseActivatedEvent,
    LeaseRecoveredEvent, LeaseState, PriceData, ProrationKind, RentDelinquencyStartedEvent,
};
use leaseflow::flow::lease_creation_rate_limit::CreationTracker;
use leaseflow::flow::Error;

/// The ledger time at which the leases below are created.
const NOW: u64 = 1_700_000_000;
const DAY: u64 = 86_400;
const LESSOR: u64 = 1;
const LESSEE: u64 = 2;
const ORACLE: u64 = 90;
const ASSET: u64 = 91;

struct Setup {
    data: ContractData,
    tracker: CreationTracker,
}

impl Setup {
    fn new() -> Self {
        Setup { data: ContractData::initialize(ORACLE), tracker: CreationTracker::fresh(LESSOR) }
    }

    #[allow(clippy::too_many_arguments)]
    fn lease(
        &mut self,
        rent: i64,
        deposit: i64,
        start: u64,
        end: u64,
        peg: Option<FiatPegConfig>,
        now: u64,
        prorated: Option<i64>,
    ) -> Result<u64, Error> {
        self.data.create_lease(
            &mut self.tracker,
            LESSOR,
            LESSEE,
            rent,
            deposit,
            start,
            end,
            432_000,
            500,
            b"property_uri".to_vec(),
            peg,
            now,
            prorated,
        )
    }

    fn plain(&mut self, rent: i64, deposit: i64) -> u64 {
        self.lease(rent, deposit, 1000, 5000, None, NOW, None).unwrap()
    }
}

fn peg() -> FiatPegConfig {
    FiatPegConfig {
        enabled: true,
        target_usd_amount: 100,
        asset_address: ASSET,
        oracle_address: ORACLE,
        staleness_threshold: 900,
        volatility_threshold: 2000,
    }
}

/// A price with 7 decimals published at `timestamp`.
fn price(value: i128, timestamp: u64) -> Option<PriceData> {
    Some(PriceData { price: value, timestamp, asset: ASSET, decimals: 7 })
}

#[test]
fn test_lease_creation_and_states() {
    let mut s = Setup::new();
    let lease_id = s.plain(1000, 2000);
    assert_eq!(lease_id, 1);
    let lease = s.data.get_lease(lease_id).unwrap();
    assert_eq!(lease.lease_id, 1);
    assert_eq!(lease.state, LeaseState::Pending);
    assert_eq!(lease.max_grace_period, 432_000);
    assert_eq!(lease.late_fee_rate, 500);
    assert!(!lease.arrears_processed);
}

#[test]
fn test_grace_period_flow() {
    let mut s = Setup::new();
    let lease_id = s.plain(1000, 2000);
    s.data.activate_lease(lease_id, LESSEE, NOW).unwrap();
    assert_eq!(s.data.get_lease(lease_id).unwrap().state, LeaseState::Active);

    s.data.handle_rent_payment_failure(lease_id, NOW + 10).unwrap();
    let grace = s.data.get_lease(lease_id).unwrap();
    assert_eq!(grace.state, LeaseState::GracePeriod);
    assert!(grace.dunning_start_timestamp.is_some());
    assert_eq!(grace.outstanding_balance, 1000);
    assert_eq!(grace.accumulated_late_fees, 50);

    s.data.process_rent_payment(lease_id, 1050, NOW + 20).unwrap();
    let recovered = s.data.get_lease(lease_id).unwrap();
    assert_eq!(recovered.state, LeaseState::Active);
    assert_eq!(recovered.outstanding_balance, 0);
    assert_eq!(recovered.accumulated_late_fees, 0);
    assert!(recovered.dunning_start_timestamp.is_none());
}

#[test]
fn lease_operations_report_what_they_did() {
    let mut s = Setup::new();
    let lease_id = s.plain(1000, 2000);
    assert_eq!(
        s.data.activate_lease(lease_id, LESSEE, NOW),
        Ok((LeaseActivatedEvent { lease_id, activation_timestamp: NOW }, None))
    );
    assert_eq!(s.data.process_rent_payment(lease_id, 1000, NOW + 5), Ok(None));
    assert_eq!(
        s.data.handle_rent_payment_failure(lease_id, NOW + 10),
        Ok(RentDelinquencyStartedEvent {
            lease_id,
            dunning_start_timestamp: NOW + 10,
            grace_period_end_timestamp: NOW + 10 + 432_000,
            outstanding_amount: 1000,
            late_fee_amount: 50,
        })
    );
    assert_eq!(
        s.data.process_rent_payment(lease_id, 1050, NOW + 20),
        Ok(Some(LeaseRecoveredEvent {
            lease_id,
            recovery_timestamp: NOW + 20,
            total_paid: 1050,
            late_fee_paid: 50,
        }))
    );
}

#[test]
fn a_prorated_first_rent_is_reported_on_activation() {
    let mut s = Setup::new();
    let past_start = NOW - 5 * DAY;
    let end_date = past_start + 31 * DAY;
    let lease_id = s.lease(3100, 2000, past_start, end_date, None, NOW, Some(2600)).unwrap();
    let (activated, prorated) = s.data.activate_lease(lease_id, LESSEE, NOW).unwrap();
    assert_eq!(activated.activation_timestamp, NOW);
    let prorated = prorated.unwrap();
    assert_eq!(prorated.prorated_amount, 2600);
    assert_eq!(prorated.monthly_rent, 3100);
    assert_eq!(prorated.elapsed_seconds, 26 * DAY);
    assert_eq!(prorated.calculation_type, ProrationKind::Initialization);
}

#[test]
fn rent_alone_does_not_end_the_grace_period() {
    let mut s = Setup::new();
    let lease_id = s.plain(1000, 2000);
    s.data.activate_lease(lease_id, LESSEE, NOW).unwrap();
    s.data.handle_rent_payment_failure(lease_id, NOW).unwrap();
    assert_eq!(s.data.process_rent_payment(lease_id, 1000, NOW), Err(Error::InsufficientRentFunds));
    assert_eq!(s.data.process_rent_payment(lease_id, 999, NOW), Err(Error::InsufficientRentFunds));
    assert_eq!(s.data.get_lease(lease_id).unwrap().state, LeaseState::GracePeriod);
}

#[test]
fn test_automated_arrears_deduction_basic() {
    let mut s = Setup::new();
    let (rent, deposit) = (1000i64, 2000i64);
    let lease_id = s.plain(rent, deposit);
    s.data.activate_lease(lease_id, LESSEE, NOW).unwrap();
    let vault = s.data.get_escrow_vault().unwrap();
    assert_eq!(vault.total_locked, deposit);
    assert_eq!(vault.available_balance, deposit);
    assert_eq!(vault.lessor_treasury, 0);

    s.data.handle_rent_payment_failure(lease_id, NOW).unwrap();
    // Still inside the grace period: nothing happens.
    assert_eq!(s.data.check_grace_period_expiry(lease_id, NOW + 432_000), Ok(None));
    let (eviction, settlement) = s.data.check_grace_period_expiry(lease_id, NOW + 432_001).unwrap().unwrap();
    assert_eq!(eviction.lease_id, lease_id);
    assert_eq!(eviction.eviction_timestamp, NOW + 432_001);
    assert_eq!(eviction.total_outstanding, rent + rent * 500 / 10000);
    let lease = s.data.get_lease(lease_id).unwrap();
    assert_eq!(lease.state, LeaseState::EvictionPending);
    assert!(lease.arrears_processed);

    let vault_after = s.data.get_escrow_vault().unwrap();
    let expected_deduction = rent + (rent * 500 / 10000);
    assert_eq!(vault_after.available_balance, deposit - expected_deduction);
    assert_eq!(vault_after.lessor_treasury, expected_deduction);
    assert_eq!(settlement.deducted_amount, expected_deduction);
    assert_eq!(settlement.residual_debt, 0);
    assert_eq!(settlement.unpaid_duration, 432_001);
    assert_eq!(settlement.lease_id, lease_id);
    assert_eq!(settlement.remaining_escrow_balance, deposit - expected_deduction);
    assert!(s.data.get_credit_record(LESSEE).is_err());
}

#[test]
fn test_arrears_deduction_with_residual_debt() {
    let mut s = Setup::new();
    let (rent, deposit) = (1000i64, 500i64);
    let lease_id = s.plain(rent, deposit);
    s.data.activate_lease(lease_id, LESSEE, NOW).unwrap();
    s.data.handle_rent_payment_failure(lease_id, NOW).unwrap();
    s.data.check_grace_period_expiry(lease_id, NOW + 500_000).unwrap();

    let lease = s.data.get_lease(lease_id).unwrap();
    assert_eq!(lease.state, LeaseState::EvictionPending);
    assert!(lease.arrears_processed);
    let vault_after = s.data.get_escrow_vault().unwrap();
    assert_eq!(vault_after.available_balance, 0);
    assert_eq!(vault_after.lessor_treasury, deposit);

    let credit_record = s.data.get_credit_record(LESSEE).unwrap();
    let total_arrears = rent + (rent * 500 / 10000);
    assert_eq!(credit_record.total_debt_amount, total_arrears - deposit);
    assert_eq!(credit_record.default_count, 1);
    assert!(credit_record.associated_lease_ids.contains(&lease_id));
}

#[test]
fn test_manual_arrears_deduction() {
    let mut s = Setup::new();
    let lease_id = s.plain(1000, 2000);
    s.data.activate_lease(lease_id, LESSEE, NOW).unwrap();
    s.data.handle_rent_payment_failure(lease_id, NOW).unwrap();
    s.data.check_grace_period_expiry(lease_id, NOW + 500_000).unwrap();
    let result = s.data.execute_arrears_deduction(lease_id, NOW + 500_001);
    assert_eq!(result, Err(Error::ArrearsAlreadyProcessed));
    assert!(s.data.get_lease(lease_id).unwrap().arrears_processed);
}

#[test]
fn test_arrears_deduction_state_validation() {
    let mut s = Setup::new();
    let lease_id = s.plain(1000, 2000);
    assert_eq!(s.data.execute_arrears_deduction(lease_id, NOW), Err(Error::InvalidStateTransition));
    s.data.activate_lease(lease_id, LESSEE, NOW).unwrap();
    assert_eq!(s.data.execute_arrears_deduction(lease_id, NOW), Err(Error::InvalidStateTransition));
    s.data.handle_rent_payment_failure(lease_id, NOW).unwrap();
    assert_eq!(s.data.execute_arrears_deduction(lease_id, NOW), Err(Error::InvalidStateTransition));
    assert_eq!(s.data.execute_arrears_deduction(77, NOW), Err(Error::LeaseNotFound));
}

#[test]
fn test_credit_record_accumulation() {
    let mut s = Setup::new();
    let lease_id1 = s.lease(1000, 300, 1000, 5000, None, NOW, None).unwrap();
    s.data.activate_lease(lease_id1, LESSEE, NOW).unwrap();
    s.data.handle_rent_payment_failure(lease_id1, NOW).unwrap();
    s.data.check_grace_period_expiry(lease_id1, NOW + 500_000).unwrap();

    let lease_id2 = s.lease(1000, 300, 6000, 10000, None, NOW + 500_000, None).unwrap();
    s.data.activate_lease(lease_id2, LESSEE, NOW + 500_000).unwrap();
    s.data.handle_rent_payment_failure(lease_id2, NOW + 500_000).unwrap();
    s.data.check_grace_period_expiry(lease_id2, NOW + 1_000_000).unwrap();

    let credit_record = s.data.get_credit_record(LESSEE).unwrap();
    assert_eq!(credit_record.default_count, 2);
    assert!(credit_record.associated_lease_ids.contains(&lease_id1));
    assert!(credit_record.associated_lease_ids.contains(&lease_id2));
    assert!(credit_record.total_debt_amount > 0);
    assert_eq!(credit_record.total_debt_amount, 750 + 750);
    assert_eq!(credit_record.last_default_timestamp, NOW + 1_000_000);
}

#[test]
fn test_prorated_rent_initialization() {
    let mut s = Setup::new();
    let past_start = NOW - 5 * DAY;
    let end_date = past_start + 31 * DAY;
    // 26 of 31 days remain: 3100 * 26 / 31.
    let lease_id = s.lease(3100, 2000, past_start, end_date, None, NOW, Some(2600)).unwrap();
    let lease = s.data.get_lease(lease_id).unwrap();
    assert_eq!(lease.prorated_initial_rent, 2600);
    assert_eq!(lease.total_paid_rent, 0);
}

#[test]
fn test_prorated_rent_future_start() {
    let mut s = Setup::new();
    let future_start = NOW + 10 * DAY;
    let end_date = future_start + 30 * DAY;
    let lease_id = s.lease(1000, 2000, future_start, end_date, None, NOW, Some(1333)).unwrap();
    assert_eq!(s.data.get_lease(lease_id).unwrap().prorated_initial_rent, 1000);
}

#[test]
fn test_lease_termination_with_refund() {
    let mut s = Setup::new();
    let start_date = NOW;
    let end_date = start_date + 31 * DAY;
    let lease_id = s.lease(3100, 2000, start_date, end_date, None, NOW, None).unwrap();
    s.data.activate_lease(lease_id, LESSEE, NOW).unwrap();
    s.data.process_rent_payment(lease_id, 3100, NOW).unwrap();
    // Ten days later the refund for the 21 unused days is 2099.
    let (refund, prorated) = s.data.terminate_lease(lease_id, LESSOR, start_date + 10 * DAY, Some(2099)).unwrap();
    assert_eq!(refund, 2099);
    assert_eq!(prorated.prorated_amount, 2099);
    assert_eq!(prorated.monthly_rent, 3100);
    assert_eq!(prorated.elapsed_seconds, 21 * DAY);
    assert_eq!(prorated.calculation_type, ProrationKind::Termination);
    assert_eq!(s.data.get_lease(lease_id).unwrap().state, LeaseState::Closed);
}

#[test]
fn test_lease_termination_security_penalty() {
    let mut s = Setup::new();
    let lease_id = s.lease(1000, 2000, NOW, NOW + 30 * DAY, None, NOW, None).unwrap();
    s.data.activate_lease(lease_id, LESSEE, NOW).unwrap();
    s.data.process_rent_payment(lease_id, 1000, NOW).unwrap();
    let (refund, prorated) = s.data.terminate_lease(lease_id, LESSOR, NOW, Some(1000)).unwrap();
    assert_eq!(prorated.prorated_amount, refund);
    assert!(refund < 1000);
    assert!(refund > 800);
    assert_eq!(refund, 900);
}

#[test]
fn a_failed_refund_computation_refunds_nothing() {
    let mut s = Setup::new();
    let lease_id = s.plain(1000, 2000);
    s.data.activate_lease(lease_id, LESSEE, NOW).unwrap();
    assert_eq!(s.data.terminate_lease(lease_id, LESSEE, NOW + 2 * DAY, None).unwrap().0, 0);
}

#[test]
fn test_lease_termination_unauthorized() {
    let mut s = Setup::new();
    let lease_id = s.plain(1000, 2000);
    s.data.activate_lease(lease_id, LESSEE, NOW).unwrap();
    let result = s.data.terminate_lease(lease_id, 33, NOW, Some(10));
    assert_eq!(result, Err(Error::Unauthorized));
    assert_eq!(s.data.get_lease(lease_id).unwrap().state, LeaseState::Active);
}

#[test]
fn test_prorated_rent_tracking() {
    let mut s = Setup::new();
    let lease_id = s.plain(1000, 2000);
    s.data.activate_lease(lease_id, LESSEE, NOW).unwrap();
    s.data.process_rent_payment(lease_id, 1000, NOW).unwrap();
    s.data.process_rent_payment(lease_id, 1000, NOW + 1).unwrap();
    assert_eq!(s.data.get_lease(lease_id).unwrap().total_paid_rent, 2000);
}

#[test]
fn test_fiat_pegged_lease_creation() {
    let mut s = Setup::new();
    let lease_id = s.lease(1000, 2000, 1000, 5000, Some(peg()), NOW, None).unwrap();
    let lease = s.data.get_lease(lease_id).unwrap();
    assert!(lease.fiat_peg_config.is_some());
    let config = lease.fiat_peg_config.unwrap();
    assert_eq!(config.target_usd_amount, 100);
    assert_eq!(config.asset_address, ASSET);
    assert_eq!(config.oracle_address, ORACLE);
}

#[test]
fn test_fiat_pegged_rent_calculation_bull_market() {
    let mut s = Setup::new();
    let lease_id = s.lease(1000, 2000, 1000, 5000, Some(peg()), NOW, None).unwrap();
    s.data.activate_lease(lease_id, LESSEE, NOW).unwrap();
    // $0.20 with 7 decimals: $100 buys 500 units.
    let billed = s.data.process_fiat_pegged_rent_payment(lease_id, price(2_000_000, NOW), NOW).unwrap();
    assert_eq!(s.data.get_lease(lease_id).unwrap().total_paid_rent, 500);
    assert_eq!(billed.final_crypto_deduction, 500);
    assert_eq!(billed.oracle_exchange_rate, 2_000_000);
    assert_eq!((billed.target_usd_amount, billed.asset_address), (100, ASSET));
    assert_eq!((billed.lease_id, billed.billing_timestamp), (lease_id, NOW));
}

#[test]
fn test_fiat_pegged_rent_calculation_bear_market() {
    let mut s = Setup::new();
    let lease_id = s.lease(1000, 2000, 1000, 5000, Some(peg()), NOW, None).unwrap();
    s.data.activate_lease(lease_id, LESSEE, NOW).unwrap();
    // $0.05 with 7 decimals: $100 buys 2000 units.
    s.data.process_fiat_pegged_rent_payment(lease_id, price(500_000, NOW), NOW).unwrap();
    assert_eq!(s.data.get_lease(lease_id).unwrap().total_paid_rent, 2000);
}

#[test]
fn test_oracle_staleness_protection() {
    let mut s = Setup::new();
    let lease_id = s.lease(1000, 2000, 1000, 5000, Some(peg()), NOW, None).unwrap();
    s.data.activate_lease(lease_id, LESSEE, NOW).unwrap();
    let result = s.data.process_fiat_pegged_rent_payment(lease_id, price(100_000_000, NOW - 1200), NOW);
    assert!(result.is_err());
    assert_eq!(result.unwrap_err(), Error::OracleDataStale);
}

#[test]
fn test_volatility_circuit_breaker() {
    let mut s = Setup::new();
    let lease_id = s.lease(1000, 2000, 1000, 5000, Some(peg()), NOW, None).unwrap();
    s.data.activate_lease(lease_id, LESSEE, NOW).unwrap();
    s.data.process_fiat_pegged_rent_payment(lease_id, price(1_000_000, NOW), NOW).unwrap();
    let later = NOW + 1800;
    let result = s.data.process_fiat_pegged_rent_payment(lease_id, price(1_500_000, later), later);
    assert!(result.is_err());
    assert_eq!(result.unwrap_err(), Error::VolatilityCircuitBreaker);
}

#[test]
fn test_12_month_lease_simulation_bull_market() {
    let mut s = Setup::new();
    let start_time = NOW;
    let end_time = start_time + 12 * 30 * DAY;
    let lease_id = s.lease(1000, 2000, start_time, end_time, Some(peg()), NOW, None).unwrap();
    s.data.activate_lease(lease_id, LESSEE, NOW).unwrap();
    let mut total_paid = 0;
    for month in 0..12u64 {
        // From $0.10 up by about $0.033 a month.
        let value = 1_000_000 + month as i128 * 333_333;
        let now = start_time + (month + 1) * 30 * DAY;
        s.data.process_fiat_pegged_rent_payment(lease_id, price(value, now), now).unwrap();
        total_paid = s.data.get_lease(lease_id).unwrap().total_paid_rent;
    }
    assert!(total_paid < 12000);
    assert!(total_paid > 2400);
}

#[test]
fn test_12_month_lease_simulation_bear_market() {
    let mut s = Setup::new();
    let start_time = NOW;
    let end_time = start_time + 12 * 30 * DAY;
    let lease_id = s.lease(1000, 2000, start_time, end_time, Some(peg()), NOW, None).unwrap();
    s.data.activate_lease(lease_id, LESSEE, NOW).unwrap();
    let mut total_paid = 0;
    for month in 0..12u64 {
        // From $0.10 down by about $0.0067 a month, never below $0.02.
        let value = (1_000_000 - month as i128 * 66_666).max(200_000);
        let now = start_time + (month + 1) * 30 * DAY;
        s.data.process_fiat_pegged_rent_payment(lease_id, price(value, now), now).unwrap();
        total_paid = s.data.get_lease(lease_id).unwrap().total_paid_rent;
    }
    assert!(total_paid > 12000);
    assert!(total_paid < 60000);
}

#[test]
fn test_flash_loan_attack_protection() {
    let mut s = Setup::new();
    let lease_id = s.lease(1000, 2000, 1000, 5000, Some(peg()), NOW, None).unwrap();
    s.data.activate_lease(lease_id, LESSEE, NOW).unwrap();
    s.data.process_fiat_pegged_rent_payment(lease_id, price(1_000_000, NOW), NOW).unwrap();
    let result = s.data.process_fiat_pegged_rent_payment(lease_id, price(500_000, NOW), NOW);
    assert!(result.is_err());
    assert_eq!(result.unwrap_err(), Error::VolatilityCircuitBreaker);
}

#[test]
fn a_failed_oracle_call_is_reported() {
    let mut s = Setup::new();
    let lease_id = s.lease(1000, 2000, 1000, 5000, Some(peg()), NOW, None).unwrap();
    s.data.activate_lease(lease_id, LESSEE, NOW).unwrap();
    assert_eq!(s.data.process_fiat_pegged_rent_payment(lease_id, None, NOW), Err(Error::OracleCallFailed));
    let plain = s.plain(1000, 2000);
    s.data.activate_lease(plain, LESSEE, NOW).unwrap();
    assert_eq!(
        s.data.process_fiat_pegged_rent_payment(plain, price(1_000_000, NOW), NOW),
        Err(Error::InvalidFiatPegConfig)
    );
}

#[test]
fn creation_checks_its_inputs_and_the_rate_limit() {
    let mut s = Setup::new();
    assert_eq!(s.lease(0, 2000, 1000, 5000, None, NOW, None), Err(Error::InvalidAmount));
    assert_eq!(s.lease(1000, 0, 1000, 5000, None, NOW, None), Err(Error::InvalidAmount));
    assert_eq!(s.lease(1000, 2000, 5000, 5000, None, NOW, None), Err(Error::InvalidAmount));
    let mut bad_peg = peg();
    bad_peg.volatility_threshold = 0;
    assert_eq!(s.lease(1000, 2000, 1000, 5000, Some(bad_peg), NOW, None), Err(Error::InvalidFiatPegConfig));
    for expected in 1..=10u64 {
        assert_eq!(s.plain(1000, 2000), expected);
    }
    assert_eq!(s.lease(1000, 2000, 1000, 5000, None, NOW, None), Err(Error::RateLimitExceeded));
    assert_eq!(s.data.get_user_leases(LESSEE).len(), 10);
    assert_eq!(s.data.get_user_leases(LESSOR), (1..=10).collect::<Vec<u64>>());
    assert!(s.data.get_user_leases(55).is_empty());
}

#[test]
fn activation_checks_the_lessee_and_the_state() {
    let mut s = Setup::new();
    let lease_id = s.plain(1000, 2000);
    assert_eq!(s.data.activate_lease(lease_id, LESSOR, NOW), Err(Error::Unauthorized));
    assert_eq!(s.data.activate_lease(99, LESSEE, NOW), Err(Error::LeaseNotFound));
    s.data.activate_lease(lease_id, LESSEE, NOW).unwrap();
    assert_eq!(s.data.activate_lease(lease_id, LESSEE, NOW), Err(Error::LeaseAlreadyActive));
    assert_eq!(s.data.handle_rent_payment_failure(99, NOW), Err(Error::LeaseNotFound));
}

#[test]
fn late_fees_and_deductions_round_as_stated() {
    let mut s = Setup::new();
    let lease_id = s.plain(1999, 2000);
    let lease = s.data.get_lease(lease_id).unwrap();
    // 5% of 1999 is 99.95, rounded down.
    assert_eq!(calculate_late_fee(lease, 1999), Ok(99));
    assert_eq!(calculate_deduction_amount(1050, 500), Ok(500));
    assert_eq!(calculate_deduction_amount(1050, 2000), Ok(1050));
}

#[test]
fn test_get_user_leases_bounded_iteration() {
    let mut s = Setup::new();
    assert_eq!(s.data.get_user_leases(LESSEE).len(), 0);
    // Creations are spread out so that the lessor stays within its rate limits.
    for i in 0..95u64 {
        s.lease(1000, 500, 100, 200, None, NOW + i * 2_000, None).unwrap();
    }
    let user_leases = s.data.get_user_leases(LESSEE);
    assert!(user_leases.len() <= 100);
    assert_eq!(user_leases.len(), 95);
}

#[test]
fn test_credit_record_bounded_iteration() {
    let mut s = Setup::new();
    let lease_id = s.lease(1000, 500, 100, 200, None, NOW, None).unwrap();
    s.data.activate_lease(lease_id, LESSEE, NOW).unwrap();
    s.data.handle_rent_payment_failure(lease_id, NOW).unwrap();
    assert!(s.data.check_grace_period_expiry(lease_id, NOW + 432_001).is_ok());
    let credit_record = s.data.get_credit_record(LESSEE).unwrap();
    assert!(credit_record.associated_lease_ids.len() <= 50);
    assert_eq!(credit_record.associated_lease_ids, vec![lease_id]);
}
