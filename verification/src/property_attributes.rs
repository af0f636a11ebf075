//! Bitwise compression for lease property attributes.
//!
//! Eight booleans and five small enums are packed into a single `u32`:
//!
//! ```text
//!  31              19 18    17 16    15 14    13 12    11 10     8 7      0
//! ┌──────────────────┬────────┬────────┬────────┬────────┬────────┬────────┐
//! │     reserved     │ damage │ asset  │ maint. │ deposit│ lease  │ flags  │
//! │     (12 bits)    │ sevty. │ cond.  │ status │ status │ status │ (8 b.) │
//! │                  │ (3 b.) │ (2 b.) │ (2 b.) │ (2 b.) │ (3 b.) │        │
//! └──────────────────┴────────┴────────┴────────┴────────┴────────┴────────┘
//! ```
//!
//! Every write clears its field before setting it, so setters are idempotent
//! and order-independent; every read masks its field, so reserved bits never
//! leak into observable state.
use vstd::prelude::*;

pub mod flag;

verus! {

/// Bit offset of the `LeaseStatus` field.
pub const LEASE_STATUS_SHIFT: u32 = 8;
/// Bits 8–10: `LeaseStatus`.
pub const LEASE_STATUS_MASK: u32 = 0x0000_0700;
/// Bit offset of the `DepositStatus` field.
pub const DEPOSIT_STATUS_SHIFT: u32 = 11;
/// Bits 11–12: `DepositStatus`.
pub const DEPOSIT_STATUS_MASK: u32 = 0x0000_1800;
/// Bit offset of the `MaintenanceStatus` field.
pub const MAINTENANCE_STATUS_SHIFT: u32 = 13;
/// Bits 13–14: `MaintenanceStatus`.
pub const MAINTENANCE_STATUS_MASK: u32 = 0x0000_6000;
/// Bit offset of the `AssetCondition` field.
pub const ASSET_CONDITION_SHIFT: u32 = 15;
/// Bits 15–16: `AssetCondition`.
pub const ASSET_CONDITION_MASK: u32 = 0x0001_8000;
/// Bit offset of the `DamageSeverity` field.
pub const DAMAGE_SEVERITY_SHIFT: u32 = 17;
/// Bits 17–19: `DamageSeverity`.
pub const DAMAGE_SEVERITY_MASK: u32 = 0x000E_0000;
/// Bits 20–31, reserved for future attributes.
pub const RESERVED_BITS: u32 = 0xFFF0_0000;

/// Largest legal `LeaseStatus` discriminant.
pub const MAX_LEASE_STATUS: u8 = 5;
/// Largest legal `DepositStatus` discriminant.
pub const MAX_DEPOSIT_STATUS: u8 = 2;
/// Largest legal `MaintenanceStatus` discriminant.
pub const MAX_MAINTENANCE_STATUS: u8 = 3;
/// Largest legal `AssetCondition` discriminant.
pub const MAX_ASSET_CONDITION: u8 = 3;
/// Largest legal `DamageSeverity` discriminant.
pub const MAX_DAMAGE_SEVERITY: u8 = 5;

/// Reasons a packed value or a field write is rejected.
#[derive(Clone, Copy, Debug, Eq, PartialEq, Structural)]
pub enum PropertyAttrError {
    /// `LeaseStatus` discriminant exceeded `MAX_LEASE_STATUS`.
    InvalidLeaseStatus,
    /// `DepositStatus` discriminant exceeded `MAX_DEPOSIT_STATUS`.
    InvalidDepositStatus,
    /// `MaintenanceStatus` discriminant exceeded `MAX_MAINTENANCE_STATUS`.
    InvalidMaintenanceStatus,
    /// `AssetCondition` discriminant exceeded `MAX_ASSET_CONDITION`.
    InvalidAssetCondition,
    /// `DamageSeverity` discriminant exceeded `MAX_DAMAGE_SEVERITY`.
    InvalidDamageSeverity,
    /// A reserved bit (bits 20–31) was set.
    ReservedBitSet,
}

/// The value of the field under `mask`, shifted down to bit 0.
pub open spec fn field_of(bits: u32, mask: u32, shift: u32) -> u32 {
    (bits & mask) >> shift
}

/// `bits` with the field under `mask` replaced by `code`.
pub open spec fn with_field(bits: u32, mask: u32, shift: u32, code: u32) -> u32 {
    (bits & !mask) | ((code << shift) & mask)
}

/// The `LeaseStatus` code stored in `bits`.
pub open spec fn lease_status_of(bits: u32) -> u32 {
    field_of(bits, LEASE_STATUS_MASK, LEASE_STATUS_SHIFT)
}

/// The `DepositStatus` code stored in `bits`.
pub open spec fn deposit_status_of(bits: u32) -> u32 {
    field_of(bits, DEPOSIT_STATUS_MASK, DEPOSIT_STATUS_SHIFT)
}

/// The `MaintenanceStatus` code stored in `bits`.
pub open spec fn maintenance_status_of(bits: u32) -> u32 {
    field_of(bits, MAINTENANCE_STATUS_MASK, MAINTENANCE_STATUS_SHIFT)
}

/// The `AssetCondition` code stored in `bits`.
pub open spec fn asset_condition_of(bits: u32) -> u32 {
    field_of(bits, ASSET_CONDITION_MASK, ASSET_CONDITION_SHIFT)
}

/// The `DamageSeverity` code stored in `bits`.
pub open spec fn damage_severity_of(bits: u32) -> u32 {
    field_of(bits, DAMAGE_SEVERITY_MASK, DAMAGE_SEVERITY_SHIFT)
}

/// What `validate` decides about a packed value.
pub open spec fn validation_of(bits: u32) -> Result<(), PropertyAttrError> {
    if bits & RESERVED_BITS != 0 {
        Err(PropertyAttrError::ReservedBitSet)
    } else if lease_status_of(bits) > MAX_LEASE_STATUS {
        Err(PropertyAttrError::InvalidLeaseStatus)
    } else if deposit_status_of(bits) > MAX_DEPOSIT_STATUS {
        Err(PropertyAttrError::InvalidDepositStatus)
    } else if maintenance_status_of(bits) > MAX_MAINTENANCE_STATUS {
        Err(PropertyAttrError::InvalidMaintenanceStatus)
    } else if asset_condition_of(bits) > MAX_ASSET_CONDITION {
        Err(PropertyAttrError::InvalidAssetCondition)
    } else if damage_severity_of(bits) > MAX_DAMAGE_SEVERITY {
        Err(PropertyAttrError::InvalidDamageSeverity)
    } else {
        Ok(())
    }
}

/// Packed representation of every small-cardinality lease attribute.
#[derive(Clone, Copy, Debug, Default, Eq, PartialEq, Structural)]
pub struct PropertyAttributes(u32);

impl View for PropertyAttributes {
    type V = u32;

    /// The packed bits.
    closed spec fn view(&self) -> u32 {
        self.0
    }
}

/// Two attribute sets with the same bits are the same value.
pub proof fn lemma_view_injective(a: PropertyAttributes, b: PropertyAttributes)
    requires
        a@ == b@,
    ensures
        a == b,
{
}

/// A field code never exceeds the width of its field.
proof fn lemma_field_widths(bits: u32)
    ensures
        lease_status_of(bits) < 8,
        deposit_status_of(bits) < 4,
        maintenance_status_of(bits) < 4,
        asset_condition_of(bits) < 4,
        damage_severity_of(bits) < 8,
{
    assert((bits & 0x0000_0700u32) >> 8u32 < 8u32) by (bit_vector);
    assert((bits & 0x0000_1800u32) >> 11u32 < 4u32) by (bit_vector);
    assert((bits & 0x0000_6000u32) >> 13u32 < 4u32) by (bit_vector);
    assert((bits & 0x0001_8000u32) >> 15u32 < 4u32) by (bit_vector);
    assert((bits & 0x000E_0000u32) >> 17u32 < 8u32) by (bit_vector);
}

impl PropertyAttributes {
    /// Bits reserved for future attributes; setting any of them is rejected
    /// by `validate`.
    pub const RESERVED_MASK: u32 = 0xFFF0_0000;

    /// An empty attribute set: every flag false, every enum at zero.
    pub fn new() -> (r: Self)
        ensures
            r@ == 0,
    {
        PropertyAttributes(0)
    }

    /// Wraps a raw packed value without validating it.
    pub fn from_raw(bits: u32) -> (r: Self)
        ensures
            r@ == bits,
    {
        PropertyAttributes(bits)
    }

    /// The packed value, for storage.
    pub fn raw(self) -> (r: u32)
        ensures
            r == self@,
    {
        self.0
    }

    /// Bits reserved for future attributes.
    pub fn reserved_mask() -> (r: u32)
        ensures
            r == RESERVED_BITS,
    {
        RESERVED_BITS
    }

    /// Checks that no reserved bit is set and every enum code is in range.
    ///
    /// `Ok` means every typed getter returns a legal discriminant.
    pub fn validate(self) -> (r: Result<(), PropertyAttrError>)
        ensures
            r == validation_of(self@),
    {
        if self.0 & RESERVED_BITS != 0 {
            return Err(PropertyAttrError::ReservedBitSet);
        }
        if self.lease_status_code() > MAX_LEASE_STATUS {
            return Err(PropertyAttrError::InvalidLeaseStatus);
        }
        if self.deposit_status_code() > MAX_DEPOSIT_STATUS {
            return Err(PropertyAttrError::InvalidDepositStatus);
        }
        if self.maintenance_status_code() > MAX_MAINTENANCE_STATUS {
            return Err(PropertyAttrError::InvalidMaintenanceStatus);
        }
        if self.asset_condition_code() > MAX_ASSET_CONDITION {
            return Err(PropertyAttrError::InvalidAssetCondition);
        }
        if self.damage_severity_code() > MAX_DAMAGE_SEVERITY {
            return Err(PropertyAttrError::InvalidDamageSeverity);
        }
        Ok(())
    }

    /// `true` iff every bit of `mask` is set.
    pub fn has_flag(self, mask: u32) -> (r: bool)
        ensures
            r == (self@ & mask == mask),
    {
        self.0 & mask == mask
    }

    /// Sets (`value`) or clears every bit of `mask`.
    pub fn set_flag(&mut self, mask: u32, value: bool)
        ensures
            final(self)@ == if value { old(self)@ | mask } else { old(self)@ & !mask },
    {
        if value {
            self.0 = self.0 | mask;
        } else {
            self.0 = self.0 & !mask;
        }
    }

    /// Flips every bit of `mask`.
    pub fn toggle_flag(&mut self, mask: u32)
        ensures
            final(self)@ == old(self)@ ^ mask,
    {
        self.0 = self.0 ^ mask;
    }

    fn write_field(&mut self, mask: u32, shift: u32, code: u8)
        requires
            shift < 32,
        ensures
            final(self)@ == with_field(old(self)@, mask, shift, code as u32),
    {
        self.0 = (self.0 & !mask) | (((code as u32) << shift) & mask);
    }

    fn read_field(self, mask: u32, shift: u32) -> (r: u8)
        requires
            shift < 32,
            field_of(self@, mask, shift) < 256,
        ensures
            r as u32 == field_of(self@, mask, shift),
    {
        ((self.0 & mask) >> shift) as u8
    }

    /// The packed `LeaseStatus` discriminant.
    pub fn lease_status_code(self) -> (r: u8)
        ensures
            r as u32 == lease_status_of(self@),
    {
        proof {
            lemma_field_widths(self@);
        }
        self.read_field(LEASE_STATUS_MASK, LEASE_STATUS_SHIFT)
    }

    /// The packed `DepositStatus` discriminant.
    pub fn deposit_status_code(self) -> (r: u8)
        ensures
            r as u32 == deposit_status_of(self@),
    {
        proof {
            lemma_field_widths(self@);
        }
        self.read_field(DEPOSIT_STATUS_MASK, DEPOSIT_STATUS_SHIFT)
    }

    /// The packed `MaintenanceStatus` discriminant.
    pub fn maintenance_status_code(self) -> (r: u8)
        ensures
            r as u32 == maintenance_status_of(self@),
    {
        proof {
            lemma_field_widths(self@);
        }
        self.read_field(MAINTENANCE_STATUS_MASK, MAINTENANCE_STATUS_SHIFT)
    }

    /// The packed `AssetCondition` discriminant.
    pub fn asset_condition_code(self) -> (r: u8)
        ensures
            r as u32 == asset_condition_of(self@),
    {
        proof {
            lemma_field_widths(self@);
        }
        self.read_field(ASSET_CONDITION_MASK, ASSET_CONDITION_SHIFT)
    }

    /// The packed `DamageSeverity` discriminant.
    pub fn damage_severity_code(self) -> (r: u8)
        ensures
            r as u32 == damage_severity_of(self@),
    {
        proof {
            lemma_field_widths(self@);
        }
        self.read_field(DAMAGE_SEVERITY_MASK, DAMAGE_SEVERITY_SHIFT)
    }

    /// Packs a `LeaseStatus` discriminant; a code above `MAX_LEASE_STATUS`
    /// is rejected and leaves the value unchanged.
    pub fn set_lease_status_code(&mut self, code: u8) -> (r: Result<(), PropertyAttrError>)
        ensures
            code > MAX_LEASE_STATUS ==> r == Err::<(), _>(PropertyAttrError::InvalidLeaseStatus)
                && final(self)@ == old(self)@,
            code <= MAX_LEASE_STATUS ==> r is Ok && final(self)@ == with_field(
                old(self)@,
                LEASE_STATUS_MASK,
                LEASE_STATUS_SHIFT,
                code as u32,
            ),
    {
        if code > MAX_LEASE_STATUS {
            return Err(PropertyAttrError::InvalidLeaseStatus);
        }
        self.write_field(LEASE_STATUS_MASK, LEASE_STATUS_SHIFT, code);
        Ok(())
    }

    /// Packs a `DepositStatus` discriminant; a code above
    /// `MAX_DEPOSIT_STATUS` is rejected and leaves the value unchanged.
    pub fn set_deposit_status_code(&mut self, code: u8) -> (r: Result<(), PropertyAttrError>)
        ensures
            code > MAX_DEPOSIT_STATUS ==> r == Err::<(), _>(PropertyAttrError::InvalidDepositStatus)
                && final(self)@ == old(self)@,
            code <= MAX_DEPOSIT_STATUS ==> r is Ok && final(self)@ == with_field(
                old(self)@,
                DEPOSIT_STATUS_MASK,
                DEPOSIT_STATUS_SHIFT,
                code as u32,
            ),
    {
        if code > MAX_DEPOSIT_STATUS {
            return Err(PropertyAttrError::InvalidDepositStatus);
        }
        self.write_field(DEPOSIT_STATUS_MASK, DEPOSIT_STATUS_SHIFT, code);
        Ok(())
    }

    /// Packs a `MaintenanceStatus` discriminant; a code above
    /// `MAX_MAINTENANCE_STATUS` is rejected and leaves the value unchanged.
    pub fn set_maintenance_status_code(&mut self, code: u8) -> (r: Result<(), PropertyAttrError>)
        ensures
            code > MAX_MAINTENANCE_STATUS ==> r == Err::<(), _>(
                PropertyAttrError::InvalidMaintenanceStatus,
            ) && final(self)@ == old(self)@,
            code <= MAX_MAINTENANCE_STATUS ==> r is Ok && final(self)@ == with_field(
                old(self)@,
                MAINTENANCE_STATUS_MASK,
                MAINTENANCE_STATUS_SHIFT,
                code as u32,
            ),
    {
        if code > MAX_MAINTENANCE_STATUS {
            return Err(PropertyAttrError::InvalidMaintenanceStatus);
        }
        self.write_field(MAINTENANCE_STATUS_MASK, MAINTENANCE_STATUS_SHIFT, code);
        Ok(())
    }

    /// Packs an `AssetCondition` discriminant; a code above
    /// `MAX_ASSET_CONDITION` is rejected and leaves the value unchanged.
    pub fn set_asset_condition_code(&mut self, code: u8) -> (r: Result<(), PropertyAttrError>)
        ensures
            code > MAX_ASSET_CONDITION ==> r == Err::<(), _>(
                PropertyAttrError::InvalidAssetCondition,
            ) && final(self)@ == old(self)@,
            code <= MAX_ASSET_CONDITION ==> r is Ok && final(self)@ == with_field(
                old(self)@,
                ASSET_CONDITION_MASK,
                ASSET_CONDITION_SHIFT,
                code as u32,
            ),
    {
        if code > MAX_ASSET_CONDITION {
            return Err(PropertyAttrError::InvalidAssetCondition);
        }
        self.write_field(ASSET_CONDITION_MASK, ASSET_CONDITION_SHIFT, code);
        Ok(())
    }

    /// Packs a `DamageSeverity` discriminant; a code above
    /// `MAX_DAMAGE_SEVERITY` is rejected and leaves the value unchanged.
    pub fn set_damage_severity_code(&mut self, code: u8) -> (r: Result<(), PropertyAttrError>)
        ensures
            code > MAX_DAMAGE_SEVERITY ==> r == Err::<(), _>(
                PropertyAttrError::InvalidDamageSeverity,
            ) && final(self)@ == old(self)@,
            code <= MAX_DAMAGE_SEVERITY ==> r is Ok && final(self)@ == with_field(
                old(self)@,
                DAMAGE_SEVERITY_MASK,
                DAMAGE_SEVERITY_SHIFT,
                code as u32,
            ),
    {
        if code > MAX_DAMAGE_SEVERITY {
            return Err(PropertyAttrError::InvalidDamageSeverity);
        }
        self.write_field(DAMAGE_SEVERITY_MASK, DAMAGE_SEVERITY_SHIFT, code);
        Ok(())
    }

    /// Widens the legacy six-bit `lease_flags` byte: bits 0–5 map to the flag
    /// bits one to one, bits 6–7 of the byte are dropped.
    pub fn from_legacy_flags(legacy_flags: u8) -> (r: Self)
        ensures
            r@ == (legacy_flags as u32) & 0x3F,
    {
        PropertyAttributes((legacy_flags as u32) & 0x3F)
    }

    /// Decodes four little-endian bytes and validates the result.
    ///
    /// Any length other than four is rejected as `ReservedBitSet`.
    pub fn try_from_bytes(bytes: &[u8]) -> (r: Result<Self, PropertyAttrError>)
        ensures
            bytes@.len() != 4 ==> r == Err::<Self, _>(PropertyAttrError::ReservedBitSet),
            bytes@.len() == 4 ==> {
                let raw = le_u32(bytes@[0], bytes@[1], bytes@[2], bytes@[3]);
                match validation_of(raw) {
                    Err(e) => r == Err::<Self, _>(e),
                    Ok(_) => r is Ok && r->Ok_0@ == raw,
                }
            },
    {
        if bytes.len() != 4 {
            return Err(PropertyAttrError::ReservedBitSet);
        }
        let raw = (bytes[0] as u32) | ((bytes[1] as u32) << 8) | ((bytes[2] as u32) << 16) | ((
        bytes[3] as u32) << 24);
        let attrs = PropertyAttributes(raw);
        match attrs.validate() {
            Err(e) => Err(e),
            Ok(()) => Ok(attrs),
        }
    }
}

/// The attribute set whose packed bits are `bits`.
pub closed spec fn attributes_with_bits(bits: u32) -> PropertyAttributes {
    PropertyAttributes(bits)
}

/// `attributes_with_bits` packs exactly the given bits.
pub broadcast proof fn lemma_attributes_with_bits(bits: u32)
    ensures
        (#[trigger] attributes_with_bits(bits))@ == bits,
{
}

impl From<u32> for PropertyAttributes {
    fn from(bits: u32) -> (r: Self) {
        PropertyAttributes(bits)
    }
}

impl vstd::std_specs::convert::FromSpecImpl<u32> for PropertyAttributes {
    open spec fn obeys_from_spec() -> bool {
        true
    }

    open spec fn from_spec(bits: u32) -> Self {
        attributes_with_bits(bits)
    }
}

impl From<PropertyAttributes> for u32 {
    fn from(attrs: PropertyAttributes) -> (r: u32) {
        attrs.0
    }
}

impl vstd::std_specs::convert::FromSpecImpl<PropertyAttributes> for u32 {
    open spec fn obeys_from_spec() -> bool {
        true
    }

    open spec fn from_spec(attrs: PropertyAttributes) -> u32 {
        attrs@
    }
}

impl From<u8> for PropertyAttributes {
    fn from(legacy_flags: u8) -> (r: Self) {
        PropertyAttributes((legacy_flags as u32) & 0x3F)
    }
}

impl vstd::std_specs::convert::FromSpecImpl<u8> for PropertyAttributes {
    open spec fn obeys_from_spec() -> bool {
        true
    }

    open spec fn from_spec(legacy_flags: u8) -> Self {
        attributes_with_bits((legacy_flags as u32) & 0x3F)
    }
}

/// What four little-endian bytes decode to: anything but four bytes is
/// refused as `ReservedBitSet`, and the decoded word must be valid.
pub open spec fn decoded(bytes: Seq<u8>) -> Result<PropertyAttributes, PropertyAttrError> {
    if bytes.len() != 4 {
        Err(PropertyAttrError::ReservedBitSet)
    } else {
        let raw = le_u32(bytes[0], bytes[1], bytes[2], bytes[3]);
        match validation_of(raw) {
            Err(e) => Err(e),
            Ok(_) => Ok(attributes_with_bits(raw)),
        }
    }
}

impl<'a> TryFrom<&'a [u8]> for PropertyAttributes {
    type Error = PropertyAttrError;

    fn try_from(bytes: &'a [u8]) -> (r: Result<Self, PropertyAttrError>) {
        let r = PropertyAttributes::try_from_bytes(bytes);
        proof {
            broadcast use lemma_attributes_with_bits;

            if bytes@.len() == 4 {
                let raw = le_u32(bytes@[0], bytes@[1], bytes@[2], bytes@[3]);
                if r is Ok {
                    lemma_view_injective(r->Ok_0, attributes_with_bits(raw));
                }
            }
        }
        r
    }
}

impl<'a> vstd::std_specs::convert::TryFromSpecImpl<&'a [u8]> for PropertyAttributes {
    open spec fn obeys_try_from_spec() -> bool {
        true
    }

    open spec fn try_from_spec(bytes: &'a [u8]) -> Result<Self, PropertyAttrError> {
        decoded(bytes@)
    }
}

/// The `u32` whose little-endian bytes are `b0..b3`.
pub open spec fn le_u32(b0: u8, b1: u8, b2: u8, b3: u8) -> u32 {
    (b0 as u32) | ((b1 as u32) << 8) | ((b2 as u32) << 16) | ((b3 as u32) << 24)
}

/// Writing the `lease_status` field stores `code` there and changes no other bit:
/// the flags, the other four fields and the reserved bits keep their values.
pub proof fn lemma_lease_status_write_is_isolated(bits: u32, code: u32)
    by (bit_vector)
    requires
        code <= 5,
    ensures
        lease_status_of(with_field(bits, LEASE_STATUS_MASK, LEASE_STATUS_SHIFT, code)) == code,
        with_field(bits, LEASE_STATUS_MASK, LEASE_STATUS_SHIFT, code) & !LEASE_STATUS_MASK == bits & !LEASE_STATUS_MASK,
        with_field(bits, LEASE_STATUS_MASK, LEASE_STATUS_SHIFT, code) & flag::ALL == bits & flag::ALL,
        with_field(bits, LEASE_STATUS_MASK, LEASE_STATUS_SHIFT, code) & RESERVED_BITS == bits & RESERVED_BITS,
        deposit_status_of(with_field(bits, LEASE_STATUS_MASK, LEASE_STATUS_SHIFT, code)) == deposit_status_of(bits),
        maintenance_status_of(with_field(bits, LEASE_STATUS_MASK, LEASE_STATUS_SHIFT, code)) == maintenance_status_of(bits),
        asset_condition_of(with_field(bits, LEASE_STATUS_MASK, LEASE_STATUS_SHIFT, code)) == asset_condition_of(bits),
        damage_severity_of(with_field(bits, LEASE_STATUS_MASK, LEASE_STATUS_SHIFT, code)) == damage_severity_of(bits),
{
}

/// Writing the `deposit_status` field stores `code` there and changes no other bit:
/// the flags, the other four fields and the reserved bits keep their values.
pub proof fn lemma_deposit_status_write_is_isolated(bits: u32, code: u32)
    by (bit_vector)
    requires
        code <= 2,
    ensures
        deposit_status_of(with_field(bits, DEPOSIT_STATUS_MASK, DEPOSIT_STATUS_SHIFT, code)) == code,
        with_field(bits, DEPOSIT_STATUS_MASK, DEPOSIT_STATUS_SHIFT, code) & !DEPOSIT_STATUS_MASK == bits & !DEPOSIT_STATUS_MASK,
        with_field(bits, DEPOSIT_STATUS_MASK, DEPOSIT_STATUS_SHIFT, code) & flag::ALL == bits & flag::ALL,
        with_field(bits, DEPOSIT_STATUS_MASK, DEPOSIT_STATUS_SHIFT, code) & RESERVED_BITS == bits & RESERVED_BITS,
        lease_status_of(with_field(bits, DEPOSIT_STATUS_MASK, DEPOSIT_STATUS_SHIFT, code)) == lease_status_of(bits),
        maintenance_status_of(with_field(bits, DEPOSIT_STATUS_MASK, DEPOSIT_STATUS_SHIFT, code)) == maintenance_status_of(bits),
        asset_condition_of(with_field(bits, DEPOSIT_STATUS_MASK, DEPOSIT_STATUS_SHIFT, code)) == asset_condition_of(bits),
        damage_severity_of(with_field(bits, DEPOSIT_STATUS_MASK, DEPOSIT_STATUS_SHIFT, code)) == damage_severity_of(bits),
{
}

/// Writing the `maintenance_status` field stores `code` there and changes no other bit:
/// the flags, the other four fields and the reserved bits keep their values.
pub proof fn lemma_maintenance_status_write_is_isolated(bits: u32, code: u32)
    by (bit_vector)
    requires
        code <= 3,
    ensures
        maintenance_status_of(with_field(bits, MAINTENANCE_STATUS_MASK, MAINTENANCE_STATUS_SHIFT, code)) == code,
        with_field(bits, MAINTENANCE_STATUS_MASK, MAINTENANCE_STATUS_SHIFT, code) & !MAINTENANCE_STATUS_MASK == bits & !MAINTENANCE_STATUS_MASK,
        with_field(bits, MAINTENANCE_STATUS_MASK, MAINTENANCE_STATUS_SHIFT, code) & flag::ALL == bits & flag::ALL,
        with_field(bits, MAINTENANCE_STATUS_MASK, MAINTENANCE_STATUS_SHIFT, code) & RESERVED_BITS == bits & RESERVED_BITS,
        lease_status_of(with_field(bits, MAINTENANCE_STATUS_MASK, MAINTENANCE_STATUS_SHIFT, code)) == lease_status_of(bits),
        deposit_status_of(with_field(bits, MAINTENANCE_STATUS_MASK, MAINTENANCE_STATUS_SHIFT, code)) == deposit_status_of(bits),
        asset_condition_of(with_field(bits, MAINTENANCE_STATUS_MASK, MAINTENANCE_STATUS_SHIFT, code)) == asset_condition_of(bits),
        damage_severity_of(with_field(bits, MAINTENANCE_STATUS_MASK, MAINTENANCE_STATUS_SHIFT, code)) == damage_severity_of(bits),
{
}

/// Writing the `asset_condition` field stores `code` there and changes no other bit:
/// the flags, the other four fields and the reserved bits keep their values.
pub proof fn lemma_asset_condition_write_is_isolated(bits: u32, code: u32)
    by (bit_vector)
    requires
        code <= 3,
    ensures
        asset_condition_of(with_field(bits, ASSET_CONDITION_MASK, ASSET_CONDITION_SHIFT, code)) == code,
        with_field(bits, ASSET_CONDITION_MASK, ASSET_CONDITION_SHIFT, code) & !ASSET_CONDITION_MASK == bits & !ASSET_CONDITION_MASK,
        with_field(bits, ASSET_CONDITION_MASK, ASSET_CONDITION_SHIFT, code) & flag::ALL == bits & flag::ALL,
        with_field(bits, ASSET_CONDITION_MASK, ASSET_CONDITION_SHIFT, code) & RESERVED_BITS == bits & RESERVED_BITS,
        lease_status_of(with_field(bits, ASSET_CONDITION_MASK, ASSET_CONDITION_SHIFT, code)) == lease_status_of(bits),
        deposit_status_of(with_field(bits, ASSET_CONDITION_MASK, ASSET_CONDITION_SHIFT, code)) == deposit_status_of(bits),
        maintenance_status_of(with_field(bits, ASSET_CONDITION_MASK, ASSET_CONDITION_SHIFT, code)) == maintenance_status_of(bits),
        damage_severity_of(with_field(bits, ASSET_CONDITION_MASK, ASSET_CONDITION_SHIFT, code)) == damage_severity_of(bits),
{
}

/// Writing the `damage_severity` field stores `code` there and changes no other bit:
/// the flags, the other four fields and the reserved bits keep their values.
pub proof fn lemma_damage_severity_write_is_isolated(bits: u32, code: u32)
    by (bit_vector)
    requires
        code <= 5,
    ensures
        damage_severity_of(with_field(bits, DAMAGE_SEVERITY_MASK, DAMAGE_SEVERITY_SHIFT, code)) == code,
        with_field(bits, DAMAGE_SEVERITY_MASK, DAMAGE_SEVERITY_SHIFT, code) & !DAMAGE_SEVERITY_MASK == bits & !DAMAGE_SEVERITY_MASK,
        with_field(bits, DAMAGE_SEVERITY_MASK, DAMAGE_SEVERITY_SHIFT, code) & flag::ALL == bits & flag::ALL,
        with_field(bits, DAMAGE_SEVERITY_MASK, DAMAGE_SEVERITY_SHIFT, code) & RESERVED_BITS == bits & RESERVED_BITS,
        lease_status_of(with_field(bits, DAMAGE_SEVERITY_MASK, DAMAGE_SEVERITY_SHIFT, code)) == lease_status_of(bits),
        deposit_status_of(with_field(bits, DAMAGE_SEVERITY_MASK, DAMAGE_SEVERITY_SHIFT, code)) == deposit_status_of(bits),
        maintenance_status_of(with_field(bits, DAMAGE_SEVERITY_MASK, DAMAGE_SEVERITY_SHIFT, code)) == maintenance_status_of(bits),
        asset_condition_of(with_field(bits, DAMAGE_SEVERITY_MASK, DAMAGE_SEVERITY_SHIFT, code)) == asset_condition_of(bits),
{
}

/// Setting a flag twice is the same as setting it once; so is clearing.
pub proof fn lemma_set_flag_idempotent(bits: u32, mask: u32)
    by (bit_vector)
    ensures
        (bits | mask) | mask == bits | mask,
        (bits & !mask) & !mask == bits & !mask,
{
}

/// A set flag reads back as set; a cleared non-empty flag reads back as clear.
pub proof fn lemma_set_flag_reads_back(bits: u32, mask: u32)
    by (bit_vector)
    ensures
        (bits | mask) & mask == mask,
        mask != 0 ==> (bits & !mask) & mask != mask,
{
}

/// Toggling a flag twice restores the bits it started from.
pub proof fn lemma_toggle_involution(bits: u32, mask: u32)
    by (bit_vector)
    ensures
        (bits ^ mask) ^ mask == bits,
{
}

/// Changing flag bits never disturbs an enum field or a reserved bit.
pub proof fn lemma_flag_writes_keep_fields(bits: u32, mask: u32)
    by (bit_vector)
    requires
        mask & !flag::ALL == 0,
    ensures
        lease_status_of(bits | mask) == lease_status_of(bits),
        deposit_status_of(bits | mask) == deposit_status_of(bits),
        maintenance_status_of(bits | mask) == maintenance_status_of(bits),
        asset_condition_of(bits | mask) == asset_condition_of(bits),
        damage_severity_of(bits | mask) == damage_severity_of(bits),
        (bits | mask) & RESERVED_BITS == bits & RESERVED_BITS,
        lease_status_of(bits & !mask) == lease_status_of(bits),
        deposit_status_of(bits & !mask) == deposit_status_of(bits),
        maintenance_status_of(bits & !mask) == maintenance_status_of(bits),
        asset_condition_of(bits & !mask) == asset_condition_of(bits),
        damage_severity_of(bits & !mask) == damage_severity_of(bits),
        (bits & !mask) & RESERVED_BITS == bits & RESERVED_BITS,
        lease_status_of(bits ^ mask) == lease_status_of(bits),
        deposit_status_of(bits ^ mask) == deposit_status_of(bits),
        maintenance_status_of(bits ^ mask) == maintenance_status_of(bits),
        asset_condition_of(bits ^ mask) == asset_condition_of(bits),
        damage_severity_of(bits ^ mask) == damage_severity_of(bits),
        (bits ^ mask) & RESERVED_BITS == bits & RESERVED_BITS,
{
}

/// The reserved mask and the documented fields partition the 32 bits.
pub proof fn lemma_reserved_mask_partitions_bits()
    by (bit_vector)
    ensures
        (flag::ALL | LEASE_STATUS_MASK | DEPOSIT_STATUS_MASK | MAINTENANCE_STATUS_MASK
            | ASSET_CONDITION_MASK | DAMAGE_SEVERITY_MASK) & RESERVED_BITS == 0,
        (flag::ALL | LEASE_STATUS_MASK | DEPOSIT_STATUS_MASK | MAINTENANCE_STATUS_MASK
            | ASSET_CONDITION_MASK | DAMAGE_SEVERITY_MASK) | RESERVED_BITS == 0xFFFF_FFFFu32,
{
}

/// A widened legacy flag byte always validates.
pub proof fn lemma_legacy_flags_are_valid(legacy_flags: u8)
    ensures
        validation_of((legacy_flags as u32) & 0x3F) is Ok,
{
    let l = legacy_flags as u32;
    let b = l & 0x3F;
    assert(b & RESERVED_BITS == 0 && lease_status_of(b) == 0 && deposit_status_of(b) == 0
        && maintenance_status_of(b) == 0 && asset_condition_of(b) == 0 && damage_severity_of(b)
        == 0) by (bit_vector)
        requires
            b == l & 0x3Fu32,
    ;
}

/// Every successful field write keeps a valid value valid.
pub proof fn lemma_field_writes_preserve_validity(bits: u32, code: u32)
    requires
        validation_of(bits) is Ok,
    ensures
        code <= MAX_LEASE_STATUS ==> validation_of(
            with_field(bits, LEASE_STATUS_MASK, LEASE_STATUS_SHIFT, code),
        ) is Ok,
        code <= MAX_DEPOSIT_STATUS ==> validation_of(
            with_field(bits, DEPOSIT_STATUS_MASK, DEPOSIT_STATUS_SHIFT, code),
        ) is Ok,
        code <= MAX_MAINTENANCE_STATUS ==> validation_of(
            with_field(bits, MAINTENANCE_STATUS_MASK, MAINTENANCE_STATUS_SHIFT, code),
        ) is Ok,
        code <= MAX_ASSET_CONDITION ==> validation_of(
            with_field(bits, ASSET_CONDITION_MASK, ASSET_CONDITION_SHIFT, code),
        ) is Ok,
        code <= MAX_DAMAGE_SEVERITY ==> validation_of(
            with_field(bits, DAMAGE_SEVERITY_MASK, DAMAGE_SEVERITY_SHIFT, code),
        ) is Ok,
{
    if code <= MAX_LEASE_STATUS {
        lemma_lease_status_write_is_isolated(bits, code);
    }
    if code <= MAX_DEPOSIT_STATUS {
        lemma_deposit_status_write_is_isolated(bits, code);
    }
    if code <= MAX_MAINTENANCE_STATUS {
        lemma_maintenance_status_write_is_isolated(bits, code);
    }
    if code <= MAX_ASSET_CONDITION {
        lemma_asset_condition_write_is_isolated(bits, code);
    }
    if code <= MAX_DAMAGE_SEVERITY {
        lemma_damage_severity_write_is_isolated(bits, code);
    }
}

} // verus!
