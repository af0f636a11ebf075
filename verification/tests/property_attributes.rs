use leaseflow::property_attributes::flag;
use leaseflow::property_attributes::{
    PropertyAttrError, PropertyAttributes, ASSET_CONDITION_MASK, DAMAGE_SEVERITY_MASK,
    DEPOSIT_STATUS_MASK, LEASE_STATUS_MASK, LEASE_STATUS_SHIFT, MAINTENANCE_STATUS_MASK,
    MAX_ASSET_CONDITION, MAX_DAMAGE_SEVERITY, MAX_DEPOSIT_STATUS, MAX_LEASE_STATUS,
    MAX_MAINTENANCE_STATUS,
};

#[test]
fn new_is_all_zero() {
    let a = PropertyAttributes::new();
    assert_eq!(a.raw(), 0);
    assert!(!a.has_flag(flag::ACTIVE));
    assert_eq!(a.lease_status_code(), 0);
    assert_eq!(a.deposit_status_code(), 0);
    assert_eq!(a.maintenance_status_code(), 0);
    assert_eq!(a.asset_condition_code(), 0);
    assert_eq!(a.damage_severity_code(), 0);
    assert!(a.validate().is_ok());
}

#[test]
fn flag_set_and_clear_round_trip() {
    let mut a = PropertyAttributes::new();
    a.set_flag(flag::ACTIVE, true);
    a.set_flag(flag::HAS_PET, true);
    assert!(a.has_flag(flag::ACTIVE));
    assert!(a.has_flag(flag::HAS_PET));
    assert!(!a.has_flag(flag::PAUSED));

    a.set_flag(flag::HAS_PET, false);
    assert!(!a.has_flag(flag::HAS_PET));
    assert!(a.has_flag(flag::ACTIVE));
}

#[test]
fn flag_set_is_idempotent() {
    let mut a = PropertyAttributes::new();
    a.set_flag(flag::PAUSED, true);
    let after_first = a.raw();
    a.set_flag(flag::PAUSED, true);
    assert_eq!(a.raw(), after_first);
}

#[test]
fn toggle_flag_reverses_state() {
    let mut a = PropertyAttributes::new();
    a.toggle_flag(flag::KYC_VERIFIED);
    assert!(a.has_flag(flag::KYC_VERIFIED));
    a.toggle_flag(flag::KYC_VERIFIED);
    assert!(!a.has_flag(flag::KYC_VERIFIED));
}

#[test]
fn enum_setters_round_trip() {
    let mut a = PropertyAttributes::new();
    a.set_lease_status_code(MAX_LEASE_STATUS).unwrap();
    a.set_deposit_status_code(MAX_DEPOSIT_STATUS).unwrap();
    a.set_maintenance_status_code(MAX_MAINTENANCE_STATUS).unwrap();
    a.set_asset_condition_code(MAX_ASSET_CONDITION).unwrap();
    a.set_damage_severity_code(MAX_DAMAGE_SEVERITY).unwrap();

    assert_eq!(a.lease_status_code(), MAX_LEASE_STATUS);
    assert_eq!(a.deposit_status_code(), MAX_DEPOSIT_STATUS);
    assert_eq!(a.maintenance_status_code(), MAX_MAINTENANCE_STATUS);
    assert_eq!(a.asset_condition_code(), MAX_ASSET_CONDITION);
    assert_eq!(a.damage_severity_code(), MAX_DAMAGE_SEVERITY);
    assert!(a.validate().is_ok());
}

#[test]
fn enum_fields_are_independent() {
    let mut a = PropertyAttributes::new();
    for f in [
        flag::ACTIVE,
        flag::FLAT_FEE_APPLIED,
        flag::HAD_LATE_PAYMENT,
        flag::HAS_PET,
        flag::YIELD_DELEGATION_ENABLED,
        flag::PAUSED,
        flag::CONTINUOUS_BILLING_ENABLED,
        flag::KYC_VERIFIED,
    ] {
        a.set_flag(f, true);
    }
    a.set_lease_status_code(MAX_LEASE_STATUS).unwrap();
    a.set_deposit_status_code(MAX_DEPOSIT_STATUS).unwrap();
    a.set_maintenance_status_code(MAX_MAINTENANCE_STATUS).unwrap();
    a.set_asset_condition_code(MAX_ASSET_CONDITION).unwrap();
    a.set_damage_severity_code(MAX_DAMAGE_SEVERITY).unwrap();

    a.set_lease_status_code(0).unwrap();
    assert_eq!(a.lease_status_code(), 0);
    assert_eq!(a.deposit_status_code(), MAX_DEPOSIT_STATUS);
    assert_eq!(a.maintenance_status_code(), MAX_MAINTENANCE_STATUS);
    assert_eq!(a.asset_condition_code(), MAX_ASSET_CONDITION);
    assert_eq!(a.damage_severity_code(), MAX_DAMAGE_SEVERITY);
    assert_eq!(a.raw() & flag::ALL, flag::ALL);
}

#[test]
fn out_of_range_enum_values_are_rejected() {
    let mut a = PropertyAttributes::new();
    assert_eq!(
        a.set_lease_status_code(MAX_LEASE_STATUS + 1),
        Err(PropertyAttrError::InvalidLeaseStatus)
    );
    assert_eq!(
        a.set_deposit_status_code(MAX_DEPOSIT_STATUS + 1),
        Err(PropertyAttrError::InvalidDepositStatus)
    );
    assert_eq!(
        a.set_maintenance_status_code(MAX_MAINTENANCE_STATUS + 1),
        Err(PropertyAttrError::InvalidMaintenanceStatus)
    );
    assert_eq!(
        a.set_asset_condition_code(MAX_ASSET_CONDITION + 1),
        Err(PropertyAttrError::InvalidAssetCondition)
    );
    assert_eq!(
        a.set_damage_severity_code(MAX_DAMAGE_SEVERITY + 1),
        Err(PropertyAttrError::InvalidDamageSeverity)
    );
    assert_eq!(a.raw(), 0);
}

#[test]
fn validate_catches_reserved_bits() {
    let bad = PropertyAttributes::from_raw(1u32 << 20);
    assert_eq!(bad.validate(), Err(PropertyAttrError::ReservedBitSet));
}

#[test]
fn validate_catches_corrupt_enum_codes() {
    let bad = PropertyAttributes::from_raw((6u32) << LEASE_STATUS_SHIFT);
    assert_eq!(bad.validate(), Err(PropertyAttrError::InvalidLeaseStatus));
}

#[test]
fn legacy_u8_widening_preserves_low_bits() {
    let legacy: u8 = 0b0010_1001;
    let widened: PropertyAttributes = legacy.into();
    assert!(widened.has_flag(flag::ACTIVE));
    assert!(widened.has_flag(flag::HAS_PET));
    assert!(widened.has_flag(flag::PAUSED));
    assert!(!widened.has_flag(flag::CONTINUOUS_BILLING_ENABLED));
    assert!(widened.validate().is_ok());
}

#[test]
fn raw_round_trip_is_lossless() {
    let mut a = PropertyAttributes::new();
    a.set_flag(flag::ACTIVE, true);
    a.set_flag(flag::CONTINUOUS_BILLING_ENABLED, true);
    a.set_lease_status_code(3).unwrap();
    a.set_damage_severity_code(4).unwrap();

    let bits = a.raw();
    let copy = PropertyAttributes::from_raw(bits);
    assert_eq!(a, copy);
}

#[test]
fn reserved_mask_only_covers_unused_bits() {
    let used = flag::ALL
        | LEASE_STATUS_MASK
        | DEPOSIT_STATUS_MASK
        | MAINTENANCE_STATUS_MASK
        | ASSET_CONDITION_MASK
        | DAMAGE_SEVERITY_MASK;
    assert_eq!(used & PropertyAttributes::RESERVED_MASK, 0);
    assert_eq!(used | PropertyAttributes::RESERVED_MASK, u32::MAX);
}

#[test]
fn storage_footprint_is_four_bytes() {
    assert_eq!(core::mem::size_of::<PropertyAttributes>(), 4);
}

#[test]
fn field_write_leaves_other_fields_and_flags() {
    let mut a = PropertyAttributes::from_raw(flag::ALL);
    a.set_deposit_status_code(2).unwrap();
    a.set_asset_condition_code(1).unwrap();
    assert_eq!(a.raw() & flag::ALL, flag::ALL);
    assert_eq!(a.deposit_status_code(), 2);
    assert_eq!(a.asset_condition_code(), 1);
    assert_eq!(a.lease_status_code(), 0);
    assert_eq!(a.raw(), 0xFF | (2 << 11) | (1 << 15));
}

#[test]
fn toggling_twice_restores_raw_value() {
    let mut a = PropertyAttributes::from_raw(0x0001_2345 & !PropertyAttributes::RESERVED_MASK);
    let before = a.raw();
    a.toggle_flag(flag::HAS_PET | flag::PAUSED);
    assert_ne!(a.raw(), before);
    a.toggle_flag(flag::HAS_PET | flag::PAUSED);
    assert_eq!(a.raw(), before);
}

#[test]
fn byte_decoding_accepts_valid_and_rejects_bad_input() {
    let ok = PropertyAttributes::try_from_bytes(&[0x29, 0x03, 0x00, 0x00]).unwrap();
    assert_eq!(ok.raw(), 0x0000_0329);
    assert_eq!(ok.lease_status_code(), 3);
    assert_eq!(
        PropertyAttributes::try_from_bytes(&[0x00, 0x00, 0x10, 0x00]),
        Err(PropertyAttrError::ReservedBitSet)
    );
    assert_eq!(
        PropertyAttributes::try_from_bytes(&[0x01, 0x02, 0x03]),
        Err(PropertyAttrError::ReservedBitSet)
    );
    assert_eq!(
        PropertyAttributes::try_from_bytes(&[0x00, 0x07, 0x00, 0x00]),
        Err(PropertyAttrError::InvalidLeaseStatus)
    );
}

#[test]
fn try_from_decodes_like_try_from_bytes() {
    let bytes: &[u8] = &[0x29, 0x03, 0x00, 0x00];
    assert_eq!(PropertyAttributes::try_from(bytes), PropertyAttributes::try_from_bytes(bytes));
    assert_eq!(PropertyAttributes::try_from(bytes).unwrap().raw(), 0x0000_0329);
    let short: &[u8] = &[0x01];
    assert_eq!(PropertyAttributes::try_from(short), Err(PropertyAttrError::ReservedBitSet));
}

#[test]
fn legacy_flags_and_u32_conversions_agree() {
    let from_flags = PropertyAttributes::from_legacy_flags(0x3F);
    assert_eq!(from_flags.raw(), 0x3F);
    let via_u32: PropertyAttributes = 0x0000_0801u32.into();
    assert_eq!(via_u32.deposit_status_code(), 1);
    let back: u32 = via_u32.into();
    assert_eq!(back, 0x0000_0801);
    assert_eq!(PropertyAttributes::reserved_mask(), 0xFFF0_0000);
}
