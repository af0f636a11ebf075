use leaseflow::rent_escalation::{
    apply_escalation, build_escalation_config, validate_escalation_config, EscalationError,
    MAX_ESCALATION_RATE_BPS, MAX_ESCALATION_STEPS, MAX_RENT_AMOUNT,
};

#[test]
fn test_fixed_rent_always_valid() {
    assert!(validate_escalation_config(0, 0, 1_000, 0).is_ok());
    assert!(validate_escalation_config(0, 0, MAX_RENT_AMOUNT, 0).is_ok());
}

#[test]
fn test_valid_escalation_params() {
    assert!(validate_escalation_config(300, 1_000, 10_000, 500_000).is_ok());
}

#[test]
fn test_reject_negative_rate() {
    let err = validate_escalation_config(-1, 1_000, 10_000, 0).unwrap_err();
    assert_eq!(err, EscalationError::EscalationRateNegative);
}

#[test]
fn test_reject_rate_above_max() {
    let err = validate_escalation_config(MAX_ESCALATION_RATE_BPS + 1, 1_000, 10_000, 0).unwrap_err();
    assert_eq!(err, EscalationError::EscalationRateTooHigh);
}

#[test]
fn test_accept_rate_exactly_at_max() {
    assert!(validate_escalation_config(MAX_ESCALATION_RATE_BPS, 1_000, 1_000, 1_000_000_000).is_ok());
}

#[test]
fn test_reject_zero_interval_when_rate_nonzero() {
    let err = validate_escalation_config(300, 0, 10_000, 0).unwrap_err();
    assert_eq!(err, EscalationError::EscalationIntervalZero);
}

#[test]
fn test_reject_base_rent_above_global_ceiling() {
    let err = validate_escalation_config(300, 1_000, MAX_RENT_AMOUNT + 1, 0).unwrap_err();
    assert_eq!(err, EscalationError::RentAmountExceedsMaxAllowed);
}

#[test]
fn test_reject_cap_below_base_rent() {
    let err = validate_escalation_config(300, 1_000, 10_000, 5_000).unwrap_err();
    assert_eq!(err, EscalationError::RentCapBelowBaseRent);
}

#[test]
fn test_reject_cumulative_overflow() {
    let err = validate_escalation_config(MAX_ESCALATION_RATE_BPS, 1_000, MAX_RENT_AMOUNT, 0).unwrap_err();
    assert_eq!(err, EscalationError::CumulativeEscalationOverflow);
}

#[test]
fn test_apply_escalation_single_step_correct_math() {
    let config = build_escalation_config(0, 10_000, 1_000, 1, 200_000).unwrap();
    let updated = apply_escalation(config, 2).unwrap();
    assert_eq!(updated.current_rent, 11_000);
    assert_eq!(updated.steps_applied, 1);
}

#[test]
fn test_apply_escalation_not_yet_due_returns_unchanged() {
    let config = build_escalation_config(0, 10_000, 500, 10_000, 0).unwrap();
    let updated = apply_escalation(config, 0).unwrap();
    assert_eq!(updated.current_rent, config.current_rent);
    assert_eq!(updated.steps_applied, 0);
}

#[test]
fn test_apply_escalation_fixed_rent_unchanged() {
    let config = build_escalation_config(0, 10_000, 0, 0, 0).unwrap();
    let updated = apply_escalation(config, 1_000_000).unwrap();
    assert_eq!(updated.current_rent, 10_000);
}

#[test]
fn test_apply_escalation_stops_at_max_steps() {
    let mut config = build_escalation_config(0, 1_000, 100, 1, 0).unwrap();
    config.steps_applied = MAX_ESCALATION_STEPS;
    let updated = apply_escalation(config, 2).unwrap();
    assert_eq!(updated.current_rent, config.current_rent);
    assert_eq!(updated.steps_applied, MAX_ESCALATION_STEPS);
}

#[test]
fn test_apply_escalation_rejects_when_exceeds_cap() {
    let config = build_escalation_config(0, 10_000, 5_000, 1, 14_000).unwrap();
    let err = apply_escalation(config, 2).unwrap_err();
    assert_eq!(err, EscalationError::EscalatedRentExceedsCap);
}

#[test]
fn test_apply_escalation_schedules_next_ledger_correctly() {
    let interval = 500u32;
    let config = build_escalation_config(0, 10_000, 200, interval, 0).unwrap();
    let initial_seq = 0u32;
    let now = initial_seq + interval + 1;
    let updated = apply_escalation(config, now).unwrap();
    let expected_next = now.saturating_add(interval);
    assert_eq!(updated.next_escalation_ledger, expected_next);
}

#[test]
fn test_build_config_propagates_validation_errors() {
    let err = build_escalation_config(0, 10_000, -1, 1_000, 0).unwrap_err();
    assert_eq!(err, EscalationError::EscalationRateNegative);
}

#[test]
fn test_build_config_fixed_rent_sets_max_next_ledger() {
    let config = build_escalation_config(0, 10_000, 0, 0, 0).unwrap();
    assert_eq!(config.next_escalation_ledger, u32::MAX);
}

#[test]
fn escalation_never_passes_its_cap() {
    let mut config = build_escalation_config(0, 10_000, 1_000, 1, 12_100).unwrap();
    config = apply_escalation(config, 1).unwrap();
    assert_eq!(config.current_rent, 11_000);
    config = apply_escalation(config, 2).unwrap();
    assert_eq!(config.current_rent, 12_100);
    assert_eq!(config.steps_applied, 2);
    assert_eq!(
        apply_escalation(config, 3).unwrap_err(),
        EscalationError::EscalatedRentExceedsCap
    );
}

#[test]
fn escalation_error_codes() {
    assert_eq!(EscalationError::EscalationRateNegative.code(), 100);
    assert_eq!(EscalationError::CumulativeEscalationOverflow.code(), 106);
}

#[test]
fn an_uncapped_schedule_that_compounds_past_the_ceiling_is_accepted() {
    // The first step, 750_000_000_000, stays within MAX_RENT_AMOUNT.
    assert!(validate_escalation_config(MAX_ESCALATION_RATE_BPS, 1, 500_000_000_000, 0).is_ok());
    assert!(validate_escalation_config(MAX_ESCALATION_RATE_BPS, 1, 1_000_000, 0).is_ok());
    // A first step landing exactly on the ceiling is accepted too.
    assert!(validate_escalation_config(MAX_ESCALATION_RATE_BPS, 1, 666_666_666_667, 0).is_ok());
    assert_eq!(
        validate_escalation_config(MAX_ESCALATION_RATE_BPS, 1, 666_666_666_668, 0),
        Err(EscalationError::CumulativeEscalationOverflow)
    );
    // A negative base rent is refused.
    assert_eq!(
        validate_escalation_config(MAX_ESCALATION_RATE_BPS, 1, -1, 0),
        Err(EscalationError::CumulativeEscalationOverflow)
    );
}

#[test]
fn an_uncapped_schedule_stops_at_the_ceiling_at_runtime() {
    let config = build_escalation_config(0, 500_000_000_000, MAX_ESCALATION_RATE_BPS, 1, 0).unwrap();
    let config = apply_escalation(config, 1).unwrap();
    assert_eq!(config.current_rent, 750_000_000_000);
    assert_eq!(
        apply_escalation(config, 2).unwrap_err(),
        EscalationError::EscalatedRentExceedsCap
    );
}
