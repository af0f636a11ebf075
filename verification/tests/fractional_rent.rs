use leaseflow::fractional_rent::{
    has_month_boundary_crossing, is_leap_year, is_near_leap_year_boundary,
    test_payment_idempotency, verify_extreme_value_handling, FractionalPayment,
    InvariantViolation, PaymentError, SimulatedLease,
};

/// 1 January 2024 plus three months: 1 April 2024, 00:00 UTC.
const THREE_MONTHS_FROM_JAN_2024: u64 = 1_711_929_600;
/// 1 January 2024 plus six months: 1 July 2024, 00:00 UTC.
const SIX_MONTHS_FROM_JAN_2024: u64 = 1_719_792_000;

#[test]
fn test_fractional_payment_month_boundary() {
    let mut lease = SimulatedLease::new(1000, 1704067200, SIX_MONTHS_FROM_JAN_2024);
    let payment = FractionalPayment {
        payment_timestamp: 1706745600,
        payment_amount: 500,
        crosses_boundary: true,
    };
    lease.process_fractional_payment(&payment, Some(0)).unwrap();
    assert_eq!(lease.total_paid, 500);
    assert_eq!(lease.outstanding_balance, 500);
}

#[test]
fn test_multiple_fractional_payments() {
    let mut lease = SimulatedLease::new(1000, 1704067200, THREE_MONTHS_FROM_JAN_2024);
    let payments = vec![
        FractionalPayment { payment_timestamp: 1704153600, payment_amount: 300, crosses_boundary: false },
        FractionalPayment { payment_timestamp: 1706745600, payment_amount: 400, crosses_boundary: true },
        FractionalPayment { payment_timestamp: 1709251200, payment_amount: 300, crosses_boundary: false },
    ];
    for payment in &payments {
        lease.process_fractional_payment(payment, None).unwrap();
    }
    assert_eq!(lease.total_paid, 1000);
    assert_eq!(lease.payment_history.len(), 3);
    lease.verify_invariants().unwrap();
}

#[test]
fn test_invariant_violation_detection() {
    let mut lease = SimulatedLease::new(1000, 1704067200, THREE_MONTHS_FROM_JAN_2024);
    lease.total_paid = -100;
    assert!(matches!(
        lease.verify_invariants(),
        Err(InvariantViolation::NegativeTotalPaid)
    ));
}

#[test]
fn payments_outside_the_lease_or_not_positive_are_refused() {
    let mut lease = SimulatedLease::new(1000, 1_000_000, 2_000_000);
    let early = FractionalPayment { payment_timestamp: 999_999, payment_amount: 10, crosses_boundary: false };
    assert_eq!(lease.process_fractional_payment(&early, None), Err(PaymentError::PaymentBeforeLeaseStart));
    let late = FractionalPayment { payment_timestamp: 2_000_001, payment_amount: 10, crosses_boundary: false };
    assert_eq!(lease.process_fractional_payment(&late, None), Err(PaymentError::PaymentAfterLeaseEnd));
    let zero = FractionalPayment { payment_timestamp: 1_500_000, payment_amount: 0, crosses_boundary: false };
    assert_eq!(lease.process_fractional_payment(&zero, None), Err(PaymentError::InvalidAmount));
    assert_eq!(lease.total_paid, 0);
    assert!(lease.payment_history.is_empty());
}

#[test]
fn a_payment_in_a_new_cycle_starts_from_one_rent() {
    let start = 1_000_000u64;
    let mut lease = SimulatedLease::new(1000, start, start + 10 * 2_592_000);
    let p = FractionalPayment { payment_timestamp: start + 2 * 2_592_000 + 5, payment_amount: 400, crosses_boundary: true };
    lease.process_fractional_payment(&p, Some(123)).unwrap();
    assert_eq!(lease.billing_cycle_count, 2);
    assert_eq!(lease.outstanding_balance, 600);
    let q = FractionalPayment { payment_timestamp: start + 2 * 2_592_000 + 9, payment_amount: 100, crosses_boundary: false };
    lease.process_fractional_payment(&q, Some(7)).unwrap();
    assert_eq!(lease.outstanding_balance, 500);
    assert_eq!(lease.payment_history[1].prorated_amount, None);
    assert_eq!(lease.payment_history[0].billing_cycle, 2);
    assert_eq!(lease.payment_history[0].prorated_amount, Some(123));
    assert_eq!(lease.get_billing_cycle(start - 1), 0);
    assert_eq!(lease.get_billing_cycle(start + 2_592_000 - 1), 0);
    assert_eq!(lease.get_billing_cycle(start + 2_592_000), 1);
}

#[test]
fn out_of_order_payments_are_reported() {
    let start = 1_000_000u64;
    let mut lease = SimulatedLease::new(1000, start, start + 10 * 2_592_000);
    let later = FractionalPayment { payment_timestamp: start + 100, payment_amount: 10, crosses_boundary: false };
    let earlier = FractionalPayment { payment_timestamp: start + 50, payment_amount: 10, crosses_boundary: false };
    lease.process_fractional_payment(&later, None).unwrap();
    lease.process_fractional_payment(&earlier, None).unwrap();
    assert_eq!(lease.verify_invariants(), Err(InvariantViolation::NonMonotonicTimestamps));
    lease.total_paid = 25;
    assert_eq!(
        lease.verify_invariants(),
        Err(InvariantViolation::PaymentHistoryMismatch { expected: 25, actual: 20 })
    );
}

#[test]
fn leap_years_follow_the_gregorian_rule() {
    assert!(is_leap_year(2024));
    assert!(!is_leap_year(2023));
    assert!(!is_leap_year(1900));
    assert!(is_leap_year(2000));
    assert!(is_near_leap_year_boundary(2023, 2));
    assert!(is_near_leap_year_boundary(2025, 2));
    assert!(!is_near_leap_year_boundary(2022, 2));
    assert!(!is_near_leap_year_boundary(2024, 3));
}

#[test]
fn month_boundary_crossings_are_detected() {
    let none = [FractionalPayment { payment_timestamp: 1, payment_amount: 1, crosses_boundary: false }];
    assert!(!has_month_boundary_crossing(&none));
    let some = [
        FractionalPayment { payment_timestamp: 1, payment_amount: 1, crosses_boundary: false },
        FractionalPayment { payment_timestamp: 2, payment_amount: 1, crosses_boundary: true },
    ];
    assert!(has_month_boundary_crossing(&some));
    assert!(!has_month_boundary_crossing(&[]));
}

#[test]
fn idempotency_claim_holds_only_for_refused_payments() {
    let accepted = FractionalPayment { payment_timestamp: 1704153600, payment_amount: 300, crosses_boundary: false };
    assert!(!test_payment_idempotency(1000, 1704067200, THREE_MONTHS_FROM_JAN_2024, &accepted, None));
    let refused = FractionalPayment { payment_timestamp: 1, payment_amount: 300, crosses_boundary: false };
    assert!(test_payment_idempotency(1000, 1704067200, THREE_MONTHS_FROM_JAN_2024, &refused, None));
}

#[test]
fn extreme_values_keep_the_invariants() {
    assert!(verify_extreme_value_handling(1000, 1704067200, THREE_MONTHS_FROM_JAN_2024));
    assert!(verify_extreme_value_handling(1000, 1704067200, 1704067200));
}

/// 1 February 2023 plus twelve months: 1 February 2024, 00:00 UTC.
const TWELVE_MONTHS_FROM_FEB_2023: u64 = 1_706_745_600;

#[test]
fn test_leap_year_boundary() {
    let mut lease = SimulatedLease::new(1000, 1675209600, TWELVE_MONTHS_FROM_FEB_2023);
    let payment = FractionalPayment {
        payment_timestamp: 1706745600,
        payment_amount: 1000,
        crosses_boundary: true,
    };
    lease.process_fractional_payment(&payment, None).unwrap();
    lease.verify_invariants().unwrap();
}
