//! The lease contract: lease instances with per-second late fees, buyouts,
//! rent receipts, deposit release and NFT usage rights.
//!
//! Transfers of NFTs and storage time-to-live are the host's business; this
//! module decides what each entry point does to the contract state.
use vstd::prelude::*;
use std::collections::HashMap;
use crate::accounts::AccountId;
use crate::rates::{RateType, to_per_second};

verus! {

broadcast use vstd::std_specs::hash::group_hash_axioms;

/// A lease id. Lease ids are short symbols; the host maps each one to a
/// stable identifier, compared by identity only.
pub type LeaseKey = u64;

/// Seconds in one day.
pub const SECS_PER_UNIT: u64 = 86_400;

/// The simple lease record kept for older callers.
#[derive(Copy, Clone, Debug, Eq, PartialEq, Structural)]
pub struct Lease {
    pub landlord: AccountId,
    pub tenant: AccountId,
    pub amount: i128,
    pub active: bool,
    /// Price at which the tenant may buy the asset out.
    pub buyout_price: Option<i128>,
    /// Everything the tenant paid so far.
    pub cumulative_payments: i128,
}

/// State of a security deposit.
#[derive(Copy, Clone, Debug, Eq, PartialEq, Structural)]
pub enum DepositStatus {
    Held,
    Settled,
    Disputed,
}

/// The right of a renter to use a leased NFT until `valid_until`.
#[derive(Copy, Clone, Debug, Eq, PartialEq, Structural)]
pub struct UsageRights {
    pub renter: AccountId,
    pub nft_contract: AccountId,
    pub token_id: u128,
    pub lease_id: LeaseKey,
    pub valid_until: u64,
}

/// Lifecycle status of a lease instance.
#[derive(Copy, Clone, Debug, Eq, PartialEq, Structural)]
pub enum LeaseStatus {
    Pending,
    Active,
    Expired,
    Disputed,
    Terminated,
}

/// A full lease record.
#[derive(Clone, Debug)]
pub struct LeaseInstance {
    pub landlord: AccountId,
    pub tenant: AccountId,
    pub rent_amount: i128,
    pub deposit_amount: i128,
    /// Additional security deposit for damage protection.
    pub security_deposit: i128,
    /// Unix timestamp of the start.
    pub start_date: u64,
    pub end_date: u64,
    pub status: LeaseStatus,
    pub nft_contract: Option<AccountId>,
    pub token_id: Option<u128>,
    pub active: bool,
    pub rent_paid: i128,
    pub expiry_time: u64,
    /// URI of the off-chain lease document.
    pub property_uri: String,
    /// Price at which the tenant may buy the asset out.
    pub buyout_price: Option<i128>,
    /// Everything the tenant paid so far.
    pub cumulative_payments: i128,
    pub debt: i128,
    pub rent_per_sec: i128,
    pub late_fee_per_sec: i128,
    pub grace_period_end: u64,
    pub late_fee_flat: i128,
    pub flat_fee_applied: bool,
    /// Late seconds already charged.
    pub seconds_late_charged: u64,
}

/// A rent receipt.
#[derive(Copy, Clone, Debug, Eq, PartialEq, Structural)]
pub struct Receipt {
    pub lease_id: LeaseKey,
    pub month: u32,
    pub amount: i128,
    pub date: u64,
}

/// An amendment signed by both parties.
#[derive(Copy, Clone, Debug)]
pub struct LeaseAmendment {
    pub new_rent_amount: Option<i128>,
    pub new_end_date: Option<u64>,
    pub landlord_signature: [u8; 32],
    pub tenant_signature: [u8; 32],
}

/// The terms of a new lease instance.
#[derive(Clone, Debug)]
pub struct CreateLeaseParams {
    pub tenant: AccountId,
    pub rent_amount: i128,
    pub deposit_amount: i128,
    pub security_deposit: i128,
    pub start_date: u64,
    pub end_date: u64,
    pub property_uri: String,
}

/// How a deposit is split between tenant and landlord.
#[derive(Copy, Clone, Debug, Eq, PartialEq, Structural)]
pub struct DepositReleasePartial {
    pub tenant_amount: i128,
    pub landlord_amount: i128,
}

/// How a deposit is released.
#[derive(Copy, Clone, Debug, Eq, PartialEq, Structural)]
pub enum DepositRelease {
    FullRefund,
    PartialRefund(DepositReleasePartial),
    Disputed,
}

/// Reported when a lease is terminated.
#[derive(Copy, Clone, Debug, Eq, PartialEq, Structural)]
pub struct LeaseTerminated {
    pub lease_id: LeaseKey,
}

/// Reported when a lease starts and the asset becomes available.
#[derive(Copy, Clone, Debug, Eq, PartialEq, Structural)]
pub struct LeaseStarted {
    pub id: u64,
    pub renter: AccountId,
    pub rate: i128,
}

/// The NFT a lease takes into the contract's escrow: token `token_id` of
/// `nft_contract`, moved from `from` to the contract.
#[derive(Copy, Clone, Debug, Eq, PartialEq, Structural)]
pub struct NftEscrowDeposit {
    pub nft_contract: AccountId,
    pub from: AccountId,
    pub token_id: u128,
}

/// Reported when a lease ends.
#[derive(Copy, Clone, Debug, Eq, PartialEq, Structural)]
pub struct LeaseEnded {
    pub id: u64,
    pub duration: u64,
    pub total_paid: i128,
}

/// Reported when an asset is reclaimed.
#[derive(Clone, Debug)]
pub struct AssetReclaimed {
    pub id: u64,
    pub reason: String,
}

/// Errors of the lease contract.
#[derive(Copy, Clone, Debug, Eq, PartialEq, Structural)]
pub enum LeaseError {
    LeaseNotFound,
    LeaseNotExpired,
    RentOutstanding,
    DepositNotSettled,
    Unauthorised,
    InvalidDeduction,
    NftTransferFailed,
    NftNotReturned,
    UsageRightsNotFound,
    UsageRightsExpired,
    ActiveLeasesLimitExceeded,
    BatchOperationsLimitExceeded,
    VelocityTrackingLimitExceeded,
    ApprovalEntriesLimitExceeded,
}

/// The contract error code of each error.
pub open spec fn lease_error_code(e: LeaseError) -> u32 {
    match e {
        LeaseError::LeaseNotFound => 1,
        LeaseError::LeaseNotExpired => 2,
        LeaseError::RentOutstanding => 3,
        LeaseError::DepositNotSettled => 4,
        LeaseError::Unauthorised => 5,
        LeaseError::InvalidDeduction => 6,
        LeaseError::NftTransferFailed => 7,
        LeaseError::NftNotReturned => 8,
        LeaseError::UsageRightsNotFound => 9,
        LeaseError::UsageRightsExpired => 10,
        LeaseError::ActiveLeasesLimitExceeded => 42,
        LeaseError::BatchOperationsLimitExceeded => 43,
        LeaseError::VelocityTrackingLimitExceeded => 44,
        LeaseError::ApprovalEntriesLimitExceeded => 45,
    }
}

impl LeaseError {
    /// The contract error code.
    pub fn code(&self) -> (c: u32)
        ensures
            c == lease_error_code(*self),
    {
        match self {
            LeaseError::LeaseNotFound => 1,
            LeaseError::LeaseNotExpired => 2,
            LeaseError::RentOutstanding => 3,
            LeaseError::DepositNotSettled => 4,
            LeaseError::Unauthorised => 5,
            LeaseError::InvalidDeduction => 6,
            LeaseError::NftTransferFailed => 7,
            LeaseError::NftNotReturned => 8,
            LeaseError::UsageRightsNotFound => 9,
            LeaseError::UsageRightsExpired => 10,
            LeaseError::ActiveLeasesLimitExceeded => 42,
            LeaseError::BatchOperationsLimitExceeded => 43,
            LeaseError::VelocityTrackingLimitExceeded => 44,
            LeaseError::ApprovalEntriesLimitExceeded => 45,
        }
    }
}

/// Seconds past the grace period at `now`, 0 within it.
pub open spec fn late_seconds(lease: LeaseInstance, now: u64) -> int {
    if now > lease.grace_period_end {
        now - lease.grace_period_end
    } else {
        0
    }
}

/// The late fees due at `now` on top of those already charged: the flat
/// fee once, on the first late second, and the per-second fee for every
/// late second not charged yet.
pub open spec fn accrual(lease: LeaseInstance, now: u64) -> int {
    if now > lease.grace_period_end {
        let flat = if !lease.flat_fee_applied {
            lease.late_fee_flat as int
        } else {
            0
        };
        let per_second = if late_seconds(lease, now) > lease.seconds_late_charged {
            (late_seconds(lease, now) - lease.seconds_late_charged) * lease.late_fee_per_sec
        } else {
            0
        };
        flat + per_second
    } else {
        0
    }
}

/// `lease` with the late fees due at `now` added to its debt.
pub open spec fn accrued(lease: LeaseInstance, now: u64) -> LeaseInstance {
    if now > lease.grace_period_end {
        LeaseInstance {
            debt: (lease.debt + accrual(lease, now)) as i128,
            flat_fee_applied: true,
            seconds_late_charged: if late_seconds(lease, now) > lease.seconds_late_charged {
                late_seconds(lease, now) as u64
            } else {
                lease.seconds_late_charged
            },
            ..lease
        }
    } else {
        lease
    }
}

/// The late-fee arithmetic at `now` stays within `i128`.
pub open spec fn accrual_fits(lease: LeaseInstance, now: u64) -> bool {
    now > lease.grace_period_end ==> {
        let flat = if !lease.flat_fee_applied {
            lease.late_fee_flat as int
        } else {
            0
        };
        let newly = late_seconds(lease, now) - lease.seconds_late_charged;
        &&& crate::rent_escalation::fits_i128(lease.debt + flat)
        &&& newly > 0 ==> crate::rent_escalation::fits_i128(newly * lease.late_fee_per_sec)
        &&& crate::rent_escalation::fits_i128(lease.debt + accrual(lease, now))
    }
}

/// `lease` after a payment of `amount` at `now`: late fees accrue, the
/// payment is recorded, and a payment that completes the buyout ends the
/// lease.
pub open spec fn rent_paid(lease: LeaseInstance, amount: i128, now: u64) -> LeaseInstance {
    let a = accrued(lease, now);
    let p = LeaseInstance {
        rent_paid: (a.rent_paid + amount) as i128,
        cumulative_payments: (a.cumulative_payments + amount) as i128,
        ..a
    };
    if p.buyout_price is Some && p.cumulative_payments >= p.buyout_price->Some_0 {
        LeaseInstance { active: false, status: LeaseStatus::Terminated, ..p }
    } else {
        p
    }
}

impl LeaseInstance {
    /// Adds the late fees due at `now` to the debt.
    pub fn accrue_late_fees(&mut self, now: u64)
        requires
            accrual_fits(*old(self), now),
        ensures
            *final(self) == accrued(*old(self), now),
    {
        if now > self.grace_period_end {
            let seconds_late = now - self.grace_period_end;
            if !self.flat_fee_applied {
                self.debt = self.debt + self.late_fee_flat;
                self.flat_fee_applied = true;
            }
            if seconds_late > self.seconds_late_charged {
                let newly_accrued = seconds_late - self.seconds_late_charged;
                self.debt = self.debt + (newly_accrued as i128) * self.late_fee_per_sec;
                self.seconds_late_charged = seconds_late;
            }
        }
    }
}

} // verus!

verus! {

/// Late fees do not depend on how often they are accrued: accruing at `t1`
/// and again at a later `t2` leaves the lease as accruing once at `t2`
/// does. In particular accruing twice at the same time charges once.
pub proof fn lemma_accrual_path_independent(lease: LeaseInstance, t1: u64, t2: u64)
    requires
        t1 <= t2,
        crate::rent_escalation::fits_i128(lease.debt + accrual(lease, t1)),
        crate::rent_escalation::fits_i128(lease.debt + accrual(lease, t2)),
    ensures
        accrued(accrued(lease, t1), t2) == accrued(lease, t2),
{
    if t1 > lease.grace_period_end {
        let c = lease.seconds_late_charged as int;
        let l1 = late_seconds(lease, t1);
        let l2 = late_seconds(lease, t2);
        let p = lease.late_fee_per_sec as int;
        assert(l1 <= l2);
        if l1 > c {
            assert((l2 - l1) * p + (l1 - c) * p == (l2 - c) * p) by (nonlinear_arith);
        }
    }
}

} // verus!

verus! {

/// The contract state.
#[derive(Debug)]
pub struct LeaseContract {
    pub leases: HashMap<LeaseKey, LeaseInstance>,
    /// Receipts by lease, then by month.
    pub receipts: HashMap<LeaseKey, HashMap<u32, Receipt>>,
    /// Usage rights by NFT contract, then by token.
    pub usage_rights: HashMap<AccountId, HashMap<u128, UsageRights>>,
    /// The administrator, where one was set.
    pub admin: Option<AccountId>,
}

impl LeaseContract {
    /// The receipts, by lease and month.
    pub open spec fn receipt_map(&self) -> Map<(LeaseKey, u32), Receipt> {
        Map::new(
            |k: (LeaseKey, u32)|
                self.receipts@.contains_key(k.0) && self.receipts@[k.0]@.contains_key(k.1),
            |k: (LeaseKey, u32)| self.receipts@[k.0]@[k.1],
        )
    }

    /// The usage rights, by NFT contract and token.
    pub open spec fn rights_map(&self) -> Map<(AccountId, u128), UsageRights> {
        Map::new(
            |k: (AccountId, u128)|
                self.usage_rights@.contains_key(k.0) && self.usage_rights@[k.0]@.contains_key(
                    k.1,
                ),
            |k: (AccountId, u128)| self.usage_rights@[k.0]@[k.1],
        )
    }

    /// The lease stored under `id`.
    pub open spec fn lease(&self, id: LeaseKey) -> LeaseInstance {
        self.leases@[id]
    }

    /// Whether a lease is stored under `id`.
    pub open spec fn has_lease(&self, id: LeaseKey) -> bool {
        self.leases@.contains_key(id)
    }

    /// Whether `caller` is the administrator.
    pub open spec fn is_admin(&self, caller: AccountId) -> bool {
        self.admin == Some(caller)
    }

    /// A contract with no lease, receipt or usage right.
    pub fn new(admin: Option<AccountId>) -> (r: Self)
        ensures
            r.leases@ == Map::<LeaseKey, LeaseInstance>::empty(),
            r.receipt_map() == Map::<(LeaseKey, u32), Receipt>::empty(),
            r.rights_map() == Map::<(AccountId, u128), UsageRights>::empty(),
            r.admin == admin,
    {
        let r = LeaseContract {
            leases: HashMap::new(),
            receipts: HashMap::new(),
            usage_rights: HashMap::new(),
            admin,
        };
        assert(r.receipt_map() =~= Map::<(LeaseKey, u32), Receipt>::empty());
        assert(r.rights_map() =~= Map::<(AccountId, u128), UsageRights>::empty());
        r
    }

    /// The usage rights of an NFT, if any.
    pub fn load_usage_rights(&self, nft_contract: AccountId, token_id: u128) -> (r: Option<
        UsageRights,
    >)
        ensures
            r == self.rights_map().get((nft_contract, token_id)),
    {
        match self.usage_rights.get(&nft_contract) {
            Some(by_token) => match by_token.get(&token_id) {
                Some(u) => Some(*u),
                None => None,
            },
            None => None,
        }
    }

    /// Records the usage rights of an NFT.
    pub fn save_usage_rights(
        &mut self,
        nft_contract: AccountId,
        token_id: u128,
        usage_rights: &UsageRights,
    )
        ensures
            final(self).rights_map() == old(self).rights_map().insert(
                (nft_contract, token_id),
                *usage_rights,
            ),
            final(self).leases == old(self).leases,
            final(self).receipts == old(self).receipts,
            final(self).admin == old(self).admin,
    {
        let mut by_token = match self.usage_rights.remove(&nft_contract) {
            Some(m) => m,
            None => HashMap::new(),
        };
        by_token.insert(token_id, *usage_rights);
        self.usage_rights.insert(nft_contract, by_token);
        assert(self.rights_map() =~= old(self).rights_map().insert(
            (nft_contract, token_id),
            *usage_rights,
        ));
    }

    /// Removes the usage rights of an NFT.
    pub fn delete_usage_rights(&mut self, nft_contract: AccountId, token_id: u128)
        ensures
            final(self).rights_map() == old(self).rights_map().remove((nft_contract, token_id)),
            final(self).leases == old(self).leases,
            final(self).receipts == old(self).receipts,
            final(self).admin == old(self).admin,
    {
        match self.usage_rights.remove(&nft_contract) {
            Some(mut by_token) => {
                by_token.remove(&token_id);
                self.usage_rights.insert(nft_contract, by_token);
            },
            None => {},
        }
        assert(self.rights_map() =~= old(self).rights_map().remove((nft_contract, token_id)));
    }

    /// The lease stored under `lease_id`, if any.
    pub fn load_lease(&self, lease_id: LeaseKey) -> (r: Option<&LeaseInstance>)
        ensures
            r == (if self.has_lease(lease_id) {
                Some(&self.lease(lease_id))
            } else {
                None
            }),
    {
        self.leases.get(&lease_id)
    }

    /// Stores `lease` under `lease_id`, replacing any lease there.
    pub fn save_lease(&mut self, lease_id: LeaseKey, lease: LeaseInstance)
        ensures
            final(self).leases@ == old(self).leases@.insert(lease_id, lease),
            final(self).receipts == old(self).receipts,
            final(self).usage_rights == old(self).usage_rights,
            final(self).admin == old(self).admin,
    {
        self.leases.insert(lease_id, lease);
    }

    /// The landlord leases an NFT to `tenant` from `now` for `duration`
    /// seconds; the tenant may use the NFT until the lease expires. Rates are
    /// converted to per-second rates. The NFT goes from the landlord into
    /// the contract's escrow: that transfer is returned with the event.
    pub fn create_lease_with_nft(
        &mut self,
        lease_id: LeaseKey,
        landlord: AccountId,
        tenant: AccountId,
        rent_amount: i128,
        rent_rate_type: RateType,
        duration: u64,
        grace_period_end: u64,
        late_fee_flat: i128,
        late_fee_amount: i128,
        late_fee_rate_type: RateType,
        nft_contract_addr: AccountId,
        token_id: u128,
        now: u64,
    ) -> (r: (LeaseStarted, NftEscrowDeposit))
        ensures
            ({
                let expiry = if now + duration > u64::MAX {
                    u64::MAX
                } else {
                    (now + duration) as u64
                };
                let rent_per_sec = crate::rates::trunc_div(
                    rent_amount as int,
                    crate::rates::seconds_per_unit(rent_rate_type),
                ) as i128;
                let l = final(self).lease(lease_id);
                &&& final(self).leases@ == old(self).leases@.insert(lease_id, l)
                &&& l == LeaseInstance {
                    landlord,
                    tenant,
                    rent_amount,
                    rent_per_sec,
                    late_fee_per_sec: crate::rates::trunc_div(
                        late_fee_amount as int,
                        crate::rates::seconds_per_unit(late_fee_rate_type),
                    ) as i128,
                    deposit_amount: 0,
                    security_deposit: 0,
                    start_date: now,
                    end_date: expiry,
                    property_uri: l.property_uri,
                    status: LeaseStatus::Active,
                    nft_contract: Some(nft_contract_addr),
                    token_id: Some(token_id),
                    active: true,
                    grace_period_end,
                    late_fee_flat,
                    debt: 0,
                    flat_fee_applied: false,
                    seconds_late_charged: 0,
                    rent_paid: 0,
                    expiry_time: expiry,
                    buyout_price: None,
                    cumulative_payments: 0,
                }
                &&& l.property_uri@ == Seq::<char>::empty()
                &&& final(self).rights_map() == old(self).rights_map().insert(
                    (nft_contract_addr, token_id),
                    UsageRights {
                        renter: tenant,
                        nft_contract: nft_contract_addr,
                        token_id,
                        lease_id,
                        valid_until: expiry,
                    },
                )
                &&& r.0 == (LeaseStarted { id: now, renter: tenant, rate: rent_per_sec })
                &&& r.1 == (NftEscrowDeposit { nft_contract: nft_contract_addr, from: landlord, token_id })
            }),
            final(self).receipts == old(self).receipts,
            final(self).admin == old(self).admin,
    {
        let expiry_time = now.saturating_add(duration);
        let rent_per_sec = to_per_second(rent_amount, rent_rate_type);
        let lease = LeaseInstance {
            landlord,
            tenant,
            rent_amount,
            rent_per_sec,
            late_fee_per_sec: to_per_second(late_fee_amount, late_fee_rate_type),
            deposit_amount: 0,
            security_deposit: 0,
            start_date: now,
            end_date: expiry_time,
            property_uri: String::new(),
            status: LeaseStatus::Active,
            nft_contract: Some(nft_contract_addr),
            token_id: Some(token_id),
            active: true,
            grace_period_end,
            late_fee_flat,
            debt: 0,
            flat_fee_applied: false,
            seconds_late_charged: 0,
            rent_paid: 0,
            expiry_time,
            buyout_price: None,
            cumulative_payments: 0,
        };
        let usage_rights = UsageRights {
            renter: tenant,
            nft_contract: nft_contract_addr,
            token_id,
            lease_id,
            valid_until: expiry_time,
        };
        self.save_usage_rights(nft_contract_addr, token_id, &usage_rights);
        self.save_lease(lease_id, lease);
        (
            LeaseStarted { id: now, renter: tenant, rate: rent_per_sec },
            NftEscrowDeposit { nft_contract: nft_contract_addr, from: landlord, token_id },
        )
    }

    /// The landlord or the tenant ends a lease: the tenant's usage rights
    /// end and the lease is terminated. The NFT held in escrow for the lease,
    /// if any, is returned, to go back to the landlord.
    pub fn end_lease(&mut self, lease_id: LeaseKey, caller: AccountId) -> (r: Option<(AccountId, u128)>)
        requires
            old(self).has_lease(lease_id),
            old(self).lease(lease_id).landlord == caller || old(self).lease(lease_id).tenant == caller,
        ensures
            ({
                let l = old(self).lease(lease_id);
                &&& final(self).leases@ == old(self).leases@.insert(
                    lease_id,
                    LeaseInstance { status: LeaseStatus::Terminated, active: false, ..l },
                )
                &&& if l.nft_contract is Some && l.token_id is Some {
                    let key = (l.nft_contract->Some_0, l.token_id->Some_0);
                    &&& r == Some(key)
                    &&& final(self).rights_map() == old(self).rights_map().remove(key)
                } else {
                    &&& r is None
                    &&& final(self).rights_map() == old(self).rights_map()
                }
            }),
            final(self).receipts == old(self).receipts,
            final(self).admin == old(self).admin,
    {
        let mut lease = self.leases.remove(&lease_id).unwrap();
        let nft = match (lease.nft_contract, lease.token_id) {
            (Some(nft_contract_addr), Some(token_id)) => {
                self.delete_usage_rights(nft_contract_addr, token_id);
                Some((nft_contract_addr, token_id))
            },
            _ => None,
        };
        lease.status = LeaseStatus::Terminated;
        lease.active = false;
        self.leases.insert(lease_id, lease);
        nft
    }

    /// The tenant activates a pending lease at `now`.
    pub fn activate_lease(&mut self, lease_id: LeaseKey, tenant: AccountId, now: u64) -> (ev:
        LeaseStarted)
        requires
            old(self).has_lease(lease_id),
            old(self).lease(lease_id).tenant == tenant,
            old(self).lease(lease_id).status == LeaseStatus::Pending,
        ensures
            final(self).leases@ == old(self).leases@.insert(
                lease_id,
                LeaseInstance { status: LeaseStatus::Active, ..old(self).lease(lease_id) },
            ),
            ev == (LeaseStarted { id: now, renter: tenant, rate: old(self).lease(lease_id).rent_per_sec }),
            final(self).receipts == old(self).receipts,
            final(self).usage_rights == old(self).usage_rights,
            final(self).admin == old(self).admin,
    {
        let mut lease = self.leases.remove(&lease_id).unwrap();
        lease.status = LeaseStatus::Active;
        let rate = lease.rent_per_sec;
        self.leases.insert(lease_id, lease);
        LeaseStarted { id: now, renter: tenant, rate }
    }

    /// The landlord replaces the lease document's URI.
    pub fn update_property_uri(&mut self, lease_id: LeaseKey, landlord: AccountId, property_uri: String)
        requires
            old(self).has_lease(lease_id),
            old(self).lease(lease_id).landlord == landlord,
        ensures
            final(self).leases@ == old(self).leases@.insert(
                lease_id,
                LeaseInstance { property_uri, ..old(self).lease(lease_id) },
            ),
            final(self).receipts == old(self).receipts,
            final(self).usage_rights == old(self).usage_rights,
            final(self).admin == old(self).admin,
    {
        let mut lease = self.leases.remove(&lease_id).unwrap();
        lease.property_uri = property_uri;
        self.leases.insert(lease_id, lease);
    }

    /// Applies a signed amendment to an active lease: a new rent and a new
    /// end date, each where given.
    pub fn amend_lease(&mut self, lease_id: LeaseKey, amendment: LeaseAmendment)
        requires
            old(self).has_lease(lease_id),
            old(self).lease(lease_id).status == LeaseStatus::Active,
        ensures
            ({
                let l = old(self).lease(lease_id);
                final(self).leases@ == old(self).leases@.insert(
                    lease_id,
                    LeaseInstance {
                        rent_amount: match amendment.new_rent_amount {
                            Some(r) => r,
                            None => l.rent_amount,
                        },
                        end_date: match amendment.new_end_date {
                            Some(d) => d,
                            None => l.end_date,
                        },
                        ..l
                    },
                )
            }),
            final(self).receipts == old(self).receipts,
            final(self).usage_rights == old(self).usage_rights,
            final(self).admin == old(self).admin,
    {
        let mut lease = self.leases.remove(&lease_id).unwrap();
        match amendment.new_rent_amount {
            Some(new_rent) => {
                lease.rent_amount = new_rent;
            },
            None => {},
        }
        match amendment.new_end_date {
            Some(new_end_date) => {
                lease.end_date = new_end_date;
            },
            None => {},
        }
        self.leases.insert(lease_id, lease);
    }

    /// Releases the deposit of an active or expired lease: a full refund,
    /// a split whose parts add up to the deposit, or a dispute, which marks
    /// the lease disputed.
    pub fn release_deposit(&mut self, lease_id: LeaseKey, release_type: DepositRelease)
        requires
            old(self).has_lease(lease_id),
            old(self).lease(lease_id).status == LeaseStatus::Active || old(self).lease(
                lease_id,
            ).status == LeaseStatus::Expired,
            release_type matches DepositRelease::PartialRefund(p) ==> p.tenant_amount
                + p.landlord_amount == old(self).lease(lease_id).deposit_amount,
        ensures
            release_type is Disputed ==> final(self).leases@ == old(self).leases@.insert(
                lease_id,
                LeaseInstance { status: LeaseStatus::Disputed, ..old(self).lease(lease_id) },
            ),
            !(release_type is Disputed) ==> final(self).leases == old(self).leases,
            final(self).receipts == old(self).receipts,
            final(self).usage_rights == old(self).usage_rights,
            final(self).admin == old(self).admin,
    {
        match release_type {
            DepositRelease::FullRefund => {},
            DepositRelease::PartialRefund(_) => {},
            DepositRelease::Disputed => {
                let mut lease = self.leases.remove(&lease_id).unwrap();
                lease.status = LeaseStatus::Disputed;
                self.leases.insert(lease_id, lease);
            },
        }
    }

    /// The usage rights of an NFT held by `user` at `now`: recorded for
    /// that user and not yet expired.
    pub fn check_usage_rights(&self, nft_contract: AccountId, token_id: u128, user: AccountId, now: u64) -> (r:
        Option<UsageRights>)
        ensures
            ({
                let k = (nft_contract, token_id);
                if self.rights_map().contains_key(k) && self.rights_map()[k].renter == user && now
                    <= self.rights_map()[k].valid_until {
                    r == Some(self.rights_map()[k])
                } else {
                    r is None
                }
            }),
    {
        match self.load_usage_rights(nft_contract, token_id) {
            Some(usage_rights) => {
                if usage_rights.renter == user && now <= usage_rights.valid_until {
                    Some(usage_rights)
                } else {
                    None
                }
            },
            None => None,
        }
    }

    /// A rent payment of `payment_amount` at `now` on an active lease: late
    /// fees accrue first, then the payment is recorded; a payment that
    /// reaches the buyout price ends the lease.
    pub fn pay_rent(&mut self, lease_id: LeaseKey, payment_amount: i128, now: u64)
        requires
            old(self).has_lease(lease_id),
            old(self).lease(lease_id).active,
            accrual_fits(old(self).lease(lease_id), now),
            crate::rent_escalation::fits_i128(old(self).lease(lease_id).rent_paid + payment_amount),
            crate::rent_escalation::fits_i128(
                old(self).lease(lease_id).cumulative_payments + payment_amount,
            ),
        ensures
            final(self).leases@ == old(self).leases@.insert(
                lease_id,
                rent_paid(old(self).lease(lease_id), payment_amount, now),
            ),
            final(self).receipts == old(self).receipts,
            final(self).usage_rights == old(self).usage_rights,
            final(self).admin == old(self).admin,
    {
        let mut lease = self.leases.remove(&lease_id).unwrap();
        lease.accrue_late_fees(now);
        lease.rent_paid = lease.rent_paid + payment_amount;
        lease.cumulative_payments = lease.cumulative_payments + payment_amount;
        match lease.buyout_price {
            Some(buyout_price) => {
                if lease.cumulative_payments >= buyout_price {
                    lease.active = false;
                    lease.status = LeaseStatus::Terminated;
                }
            },
            None => {},
        }
        self.leases.insert(lease_id, lease);
    }

    /// A payment of `amount` for `month` at `now`, recorded with a receipt.
    pub fn pay_rent_with_receipt(&mut self, lease_id: LeaseKey, month: u32, amount: i128, now: u64) -> (r:
        bool)
        requires
            old(self).has_lease(lease_id),
            crate::rent_escalation::fits_i128(old(self).lease(lease_id).rent_paid + amount),
            crate::rent_escalation::fits_i128(old(self).lease(lease_id).cumulative_payments + amount),
        ensures
            r,
            ({
                let l = old(self).lease(lease_id);
                final(self).leases@ == old(self).leases@.insert(
                    lease_id,
                    LeaseInstance {
                        rent_paid: (l.rent_paid + amount) as i128,
                        cumulative_payments: (l.cumulative_payments + amount) as i128,
                        ..l
                    },
                )
            }),
            final(self).receipt_map() == old(self).receipt_map().insert(
                (lease_id, month),
                Receipt { lease_id, month, amount, date: now },
            ),
            final(self).usage_rights == old(self).usage_rights,
            final(self).admin == old(self).admin,
    {
        let receipt = Receipt { lease_id, month, amount, date: now };
        let mut by_month = match self.receipts.remove(&lease_id) {
            Some(m) => m,
            None => HashMap::new(),
        };
        by_month.insert(month, receipt);
        self.receipts.insert(lease_id, by_month);
        assert(self.receipt_map() =~= old(self).receipt_map().insert((lease_id, month), receipt));
        let mut lease = self.leases.remove(&lease_id).unwrap();
        lease.rent_paid = lease.rent_paid + amount;
        lease.cumulative_payments = lease.cumulative_payments + amount;
        self.leases.insert(lease_id, lease);
        true
    }

    /// The landlord sets a positive buyout price.
    pub fn set_buyout_price(&mut self, lease_id: LeaseKey, landlord: AccountId, buyout_price: i128)
        requires
            old(self).has_lease(lease_id),
            old(self).lease(lease_id).landlord == landlord,
            buyout_price > 0,
        ensures
            final(self).leases@ == old(self).leases@.insert(
                lease_id,
                LeaseInstance { buyout_price: Some(buyout_price), ..old(self).lease(lease_id) },
            ),
            final(self).receipts == old(self).receipts,
            final(self).usage_rights == old(self).usage_rights,
            final(self).admin == old(self).admin,
    {
        let mut lease = self.leases.remove(&lease_id).unwrap();
        lease.buyout_price = Some(buyout_price);
        self.leases.insert(lease_id, lease);
    }

    /// The buyout price of a lease, if one was set.
    pub fn get_buyout_price(&self, lease_id: LeaseKey) -> (r: Option<i128>)
        requires
            self.has_lease(lease_id),
        ensures
            r == self.lease(lease_id).buyout_price,
    {
        self.get_lease(lease_id).buyout_price
    }

    /// The landlord, the tenant or the administrator removes a lease at
    /// `now`; what the lease ran and collected is returned.
    pub fn terminate_lease(&mut self, lease_id: LeaseKey, caller: AccountId, now: u64) -> (r: Result<
        LeaseEnded,
        LeaseError,
    >)
        ensures
            !old(self).has_lease(lease_id) ==> r == Err::<LeaseEnded, LeaseError>(
                LeaseError::LeaseNotFound,
            ),
            old(self).has_lease(lease_id) && caller != old(self).lease(lease_id).landlord && caller
                != old(self).lease(lease_id).tenant && !old(self).is_admin(caller) ==> r == Err::<
                LeaseEnded,
                LeaseError,
            >(LeaseError::Unauthorised),
            r is Err ==> *final(self) == *old(self),
            old(self).has_lease(lease_id) && (caller == old(self).lease(lease_id).landlord || caller
                == old(self).lease(lease_id).tenant || old(self).is_admin(caller)) ==> {
                let l = old(self).lease(lease_id);
                &&& r == Ok::<LeaseEnded, LeaseError>(
                    LeaseEnded {
                        id: now,
                        duration: if l.end_date >= l.start_date {
                            (l.end_date - l.start_date) as u64
                        } else {
                            0
                        },
                        total_paid: l.rent_paid,
                    },
                )
                &&& final(self).leases@ == old(self).leases@.remove(lease_id)
                &&& final(self).receipts == old(self).receipts
                &&& final(self).usage_rights == old(self).usage_rights
                &&& final(self).admin == old(self).admin
            },
    {
        let (landlord, tenant, start_date, end_date, rent_paid) = match self.leases.get(&lease_id) {
            None => {
                return Err(LeaseError::LeaseNotFound);
            },
            Some(l) => (l.landlord, l.tenant, l.start_date, l.end_date, l.rent_paid),
        };
        let is_admin = match self.admin {
            Some(a) => a == caller,
            None => false,
        };
        if caller != landlord && caller != tenant && !is_admin {
            return Err(LeaseError::Unauthorised);
        }
        self.leases.remove(&lease_id);
        Ok(LeaseEnded { id: now, duration: end_date.saturating_sub(start_date), total_paid: rent_paid })
    }

    /// The landlord or the administrator reclaims the asset of a lease at
    /// `now` for `reason`; this is reported and changes nothing.
    pub fn reclaim_asset(&self, lease_id: LeaseKey, caller: AccountId, reason: String, now: u64) -> (r:
        Result<AssetReclaimed, LeaseError>)
        requires
            self.has_lease(lease_id),
            caller == self.lease(lease_id).landlord || self.is_admin(caller),
        ensures
            r matches Ok(ev) && ev.id == now && ev.reason@ == reason@,
    {
        Ok(AssetReclaimed { id: now, reason })
    }

    /// The landlord concludes a lease, keeping `damage_deduction` of the
    /// security deposit; the lease is terminated and the rest of the
    /// deposit is returned as the tenant's refund.
    pub fn conclude_lease(&mut self, lease_id: LeaseKey, landlord: AccountId, damage_deduction: i128) -> (r:
        Result<i128, LeaseError>)
        ensures
            !old(self).has_lease(lease_id) ==> r == Err::<i128, LeaseError>(LeaseError::LeaseNotFound),
            old(self).has_lease(lease_id) && old(self).lease(lease_id).landlord != landlord ==> r
                == Err::<i128, LeaseError>(LeaseError::Unauthorised),
            old(self).has_lease(lease_id) && old(self).lease(lease_id).landlord == landlord && (
            damage_deduction < 0 || damage_deduction > old(self).lease(lease_id).security_deposit)
                ==> r == Err::<i128, LeaseError>(LeaseError::InvalidDeduction),
            r is Err ==> *final(self) == *old(self),
            old(self).has_lease(lease_id) && old(self).lease(lease_id).landlord == landlord && 0
                <= damage_deduction <= old(self).lease(lease_id).security_deposit ==> {
                let l = old(self).lease(lease_id);
                &&& r == Ok::<i128, LeaseError>((l.security_deposit - damage_deduction) as i128)
                &&& final(self).leases@ == old(self).leases@.insert(
                    lease_id,
                    LeaseInstance { status: LeaseStatus::Terminated, active: false, ..l },
                )
                &&& final(self).receipts == old(self).receipts
                &&& final(self).usage_rights == old(self).usage_rights
                &&& final(self).admin == old(self).admin
            },
    {
        let security_deposit = match self.leases.get(&lease_id) {
            None => {
                return Err(LeaseError::LeaseNotFound);
            },
            Some(l) => {
                if l.landlord != landlord {
                    return Err(LeaseError::Unauthorised);
                }
                l.security_deposit
            },
        };
        if damage_deduction < 0 || damage_deduction > security_deposit {
            return Err(LeaseError::InvalidDeduction);
        }
        let refund_amount = security_deposit - damage_deduction;
        let mut lease = self.leases.remove(&lease_id).unwrap();
        lease.status = LeaseStatus::Terminated;
        lease.active = false;
        self.leases.insert(lease_id, lease);
        Ok(refund_amount)
    }

    /// The landlord stores a pending lease under `lease_id` on the terms of
    /// `params`, replacing any lease stored there.
    pub fn create_lease_instance(&mut self, lease_id: LeaseKey, landlord: AccountId, params: CreateLeaseParams) -> (r:
        Result<(), LeaseError>)
        ensures
            r is Ok,
            final(self).leases@ == old(self).leases@.insert(
                lease_id,
                LeaseInstance {
                    landlord,
                    tenant: params.tenant,
                    rent_amount: params.rent_amount,
                    deposit_amount: params.deposit_amount,
                    security_deposit: params.security_deposit,
                    start_date: params.start_date,
                    end_date: params.end_date,
                    status: LeaseStatus::Pending,
                    property_uri: params.property_uri,
                    rent_per_sec: 0,
                    grace_period_end: params.end_date,
                    late_fee_flat: 0,
                    late_fee_per_sec: 0,
                    debt: 0,
                    flat_fee_applied: false,
                    seconds_late_charged: 0,
                    rent_paid: 0,
                    expiry_time: params.end_date,
                    nft_contract: None,
                    token_id: None,
                    active: true,
                    buyout_price: None,
                    cumulative_payments: 0,
                },
            ),
            final(self).receipts == old(self).receipts,
            final(self).usage_rights == old(self).usage_rights,
            final(self).admin == old(self).admin,
    {
        let lease = LeaseInstance {
            landlord,
            tenant: params.tenant,
            rent_amount: params.rent_amount,
            deposit_amount: params.deposit_amount,
            security_deposit: params.security_deposit,
            start_date: params.start_date,
            end_date: params.end_date,
            status: LeaseStatus::Pending,
            property_uri: params.property_uri,
            rent_per_sec: 0,
            grace_period_end: params.end_date,
            late_fee_flat: 0,
            late_fee_per_sec: 0,
            debt: 0,
            flat_fee_applied: false,
            seconds_late_charged: 0,
            rent_paid: 0,
            expiry_time: params.end_date,
            nft_contract: None,
            token_id: None,
            active: true,
            buyout_price: None,
            cumulative_payments: 0,
        };
        self.save_lease(lease_id, lease);
        Ok(())
    }

    /// The receipt of `month` for a lease.
    pub fn get_receipt(&self, lease_id: LeaseKey, month: u32) -> (r: Receipt)
        requires
            self.receipt_map().contains_key((lease_id, month)),
        ensures
            r == self.receipt_map()[(lease_id, month)],
    {
        *self.receipts.get(&lease_id).unwrap().get(&month).unwrap()
    }

    /// The lease stored under `lease_id`.
    pub fn get_lease(&self, lease_id: LeaseKey) -> (r: &LeaseInstance)
        requires
            self.has_lease(lease_id),
        ensures
            *r == self.lease(lease_id),
    {
        self.leases.get(&lease_id).unwrap()
    }
}

} // verus!
