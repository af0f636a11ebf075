//! Boolean-flag bit positions (bits 0–7 of the packed `u32`).
//!
//! The first six bits are byte-compatible with the legacy `lease_flags`
//! constants, so a legacy `u8` flag value widens into a `PropertyAttributes`
//! without remapping bits.
use vstd::prelude::*;

verus! {

/// The lease is currently active.
pub const ACTIVE: u32 = 0x01;
/// The flat late-fee component has already been charged.
pub const FLAT_FEE_APPLIED: u32 = 0x02;
/// The lease has experienced at least one late payment.
pub const HAD_LATE_PAYMENT: u32 = 0x04;
/// A pet is registered against the lease.
pub const HAS_PET: u32 = 0x08;
/// Yield delegation to the protocol treasury is enabled.
pub const YIELD_DELEGATION_ENABLED: u32 = 0x10;
/// The lease is paused (rent accrual halted).
pub const PAUSED: u32 = 0x20;
/// Continuous (sub-monthly) billing is enabled.
pub const CONTINUOUS_BILLING_ENABLED: u32 = 0x40;
/// The tenant has completed KYC against the registered identity provider.
pub const KYC_VERIFIED: u32 = 0x80;
/// Mask covering all currently-defined flag bits.
pub const ALL: u32 = 0xFF;

} // verus!
