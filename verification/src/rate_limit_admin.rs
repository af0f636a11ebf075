//! Administration of the lease creation rate limits: the policy, its
//! switch, and the addresses exempt from it.
use vstd::prelude::*;
use std::collections::HashMap;
use crate::accounts::AccountId;
use crate::lease_contract::LeaseError;

verus! {

broadcast use vstd::std_specs::hash::group_hash_axioms;

/// The rate limit policy.
#[derive(Copy, Clone, Debug, Eq, PartialEq, Structural)]
pub struct RateLimitPolicy {
    pub max_creations_per_hour: u32,
    pub max_creations_per_day: u32,
    pub rate_limit_duration: u64,
    pub enabled: bool,
}

/// An address exempt from rate limits.
#[derive(Clone, Debug)]
pub struct WhitelistedAddress {
    pub address: AccountId,
    pub whitelisted_at: u64,
    pub whitelisted_by: AccountId,
    pub reason: String,
}

/// Reported when the limits change.
#[derive(Copy, Clone, Debug, PartialEq, Eq)]
pub struct RateLimitPolicyUpdated {
    pub old_max_per_hour: u32,
    pub new_max_per_hour: u32,
    pub old_max_per_day: u32,
    pub new_max_per_day: u32,
    pub updated_by: AccountId,
    pub timestamp: u64,
}

/// Reported when an address is exempted.
#[derive(Clone, Debug, PartialEq, Eq)]
pub struct AddressWhitelisted {
    pub address: AccountId,
    pub whitelisted_by: AccountId,
    pub reason: String,
    pub timestamp: u64,
}

/// Reported when an exemption ends.
#[derive(Copy, Clone, Debug, PartialEq, Eq)]
pub struct AddressRemovedFromWhitelist {
    pub address: AccountId,
    pub removed_by: AccountId,
    pub timestamp: u64,
}

/// Reported when rate limiting is turned on or off.
#[derive(Copy, Clone, Debug, PartialEq, Eq)]
pub struct RateLimitToggled {
    pub enabled: bool,
    pub toggled_by: AccountId,
    pub timestamp: u64,
}

/// The policy in force when none was set.
pub open spec fn default_policy() -> RateLimitPolicy {
    RateLimitPolicy {
        max_creations_per_hour: 10,
        max_creations_per_day: 50,
        rate_limit_duration: 3600,
        enabled: true,
    }
}

/// The rate limit administration state.
#[derive(Debug)]
pub struct RateLimitAdmin {
    /// The contract administrator, where one was set.
    pub admin: Option<AccountId>,
    pub policy: Option<RateLimitPolicy>,
    pub whitelist: HashMap<AccountId, WhitelistedAddress>,
}

impl RateLimitAdmin {
    /// The policy in force.
    pub open spec fn policy_in_force(&self) -> RateLimitPolicy {
        match self.policy {
            Some(p) => p,
            None => default_policy(),
        }
    }

    /// Whether `caller` is the administrator.
    pub open spec fn is_admin(&self, caller: AccountId) -> bool {
        self.admin == Some(caller)
    }

    /// Administration with the given administrator, no policy set and no
    /// exempt address.
    pub fn new(admin: Option<AccountId>) -> (r: Self)
        ensures
            r.admin == admin,
            r.policy is None,
            r.whitelist@ == Map::<AccountId, WhitelistedAddress>::empty(),
    {
        RateLimitAdmin { admin, policy: None, whitelist: HashMap::new() }
    }

    fn verify_admin(&self, admin: AccountId) -> (r: Result<(), LeaseError>)
        ensures
            r == (if self.is_admin(admin) {
                Ok(())
            } else {
                Err(LeaseError::Unauthorised)
            }),
    {
        match self.admin {
            Some(stored) => if stored == admin {
                Ok(())
            } else {
                Err(LeaseError::Unauthorised)
            },
            None => Err(LeaseError::Unauthorised),
        }
    }

    /// The policy in force.
    pub fn get_policy(&self) -> (r: RateLimitPolicy)
        ensures
            r == self.policy_in_force(),
    {
        match self.policy {
            Some(p) => p,
            None => RateLimitPolicy {
                max_creations_per_hour: 10,
                max_creations_per_day: 50,
                rate_limit_duration: 3600,
                enabled: true,
            },
        }
    }

    /// The administrator sets the limits: both positive, the hourly one no
    /// larger than the daily one, at `now`. Whether limiting is on is
    /// kept.
    pub fn update_policy(
        &mut self,
        admin: AccountId,
        max_per_hour: u32,
        max_per_day: u32,
        rate_limit_duration: u64,
        now: u64,
    ) -> (r: Result<RateLimitPolicyUpdated, LeaseError>)
        ensures
            !old(self).is_admin(admin) ==> r == Err::<RateLimitPolicyUpdated, LeaseError>(
                LeaseError::Unauthorised,
            ),
            old(self).is_admin(admin) && (max_per_hour == 0 || max_per_day == 0 || max_per_hour
                > max_per_day) ==> r == Err::<RateLimitPolicyUpdated, LeaseError>(
                LeaseError::InvalidDeduction,
            ),
            r is Err ==> *final(self) == *old(self),
            old(self).is_admin(admin) && 0 < max_per_hour <= max_per_day ==> r
                == Ok::<RateLimitPolicyUpdated, LeaseError>(
                RateLimitPolicyUpdated {
                    old_max_per_hour: old(self).policy_in_force().max_creations_per_hour,
                    new_max_per_hour: max_per_hour,
                    old_max_per_day: old(self).policy_in_force().max_creations_per_day,
                    new_max_per_day: max_per_day,
                    updated_by: admin,
                    timestamp: now,
                },
            ) && final(self).policy == Some(
                RateLimitPolicy {
                    max_creations_per_hour: max_per_hour,
                    max_creations_per_day: max_per_day,
                    rate_limit_duration,
                    enabled: old(self).policy_in_force().enabled,
                },
            ),
            final(self).admin == old(self).admin,
            final(self).whitelist == old(self).whitelist,
    {
        match self.verify_admin(admin) {
            Ok(()) => {},
            Err(e) => {
                return Err(e);
            },
        }
        if max_per_hour == 0 || max_per_day == 0 {
            return Err(LeaseError::InvalidDeduction);
        }
        if max_per_hour > max_per_day {
            return Err(LeaseError::InvalidDeduction);
        }
        let old_policy = self.get_policy();
        self.policy = Some(
            RateLimitPolicy {
                max_creations_per_hour: max_per_hour,
                max_creations_per_day: max_per_day,
                rate_limit_duration,
                enabled: old_policy.enabled,
            },
        );
        Ok(
            RateLimitPolicyUpdated {
                old_max_per_hour: old_policy.max_creations_per_hour,
                new_max_per_hour: max_per_hour,
                old_max_per_day: old_policy.max_creations_per_day,
                new_max_per_day: max_per_day,
                updated_by: admin,
                timestamp: now,
            },
        )
    }

    /// The administrator turns rate limiting on or off at `now`.
    pub fn toggle_rate_limiting(&mut self, admin: AccountId, enabled: bool, now: u64) -> (r: Result<
        RateLimitToggled,
        LeaseError,
    >)
        ensures
            !old(self).is_admin(admin) ==> r == Err::<RateLimitToggled, LeaseError>(
                LeaseError::Unauthorised,
            ) && *final(self) == *old(self),
            old(self).is_admin(admin) ==> r == Ok::<RateLimitToggled, LeaseError>(
                RateLimitToggled { enabled, toggled_by: admin, timestamp: now },
            ) && final(self).policy == Some(
                RateLimitPolicy { enabled, ..old(self).policy_in_force() },
            ),
            final(self).admin == old(self).admin,
            final(self).whitelist == old(self).whitelist,
    {
        match self.verify_admin(admin) {
            Ok(()) => {},
            Err(e) => {
                return Err(e);
            },
        }
        let mut policy = self.get_policy();
        policy.enabled = enabled;
        self.policy = Some(policy);
        Ok(RateLimitToggled { enabled, toggled_by: admin, timestamp: now })
    }

    /// Whether `address` is exempt from rate limits.
    pub fn is_whitelisted(&self, address: AccountId) -> (r: bool)
        ensures
            r == self.whitelist@.contains_key(address),
    {
        self.whitelist.contains_key(&address)
    }

    /// The administrator exempts `address` at `now` for `reason`.
    pub fn whitelist_address(&mut self, admin: AccountId, address: AccountId, reason: String, now: u64) -> (r:
        Result<AddressWhitelisted, LeaseError>)
        ensures
            !old(self).is_admin(admin) ==> r == Err::<AddressWhitelisted, LeaseError>(
                LeaseError::Unauthorised,
            ) && *final(self) == *old(self),
            old(self).is_admin(admin) ==> r is Ok && r->Ok_0.address == address
                && r->Ok_0.whitelisted_by == admin && r->Ok_0.reason@ == reason@
                && r->Ok_0.timestamp == now && final(self).whitelist@ == old(
                self,
            ).whitelist@.insert(
                address,
                WhitelistedAddress { address, whitelisted_at: now, whitelisted_by: admin, reason },
            ),
            final(self).admin == old(self).admin,
            final(self).policy == old(self).policy,
    {
        match self.verify_admin(admin) {
            Ok(()) => {},
            Err(e) => {
                return Err(e);
            },
        }
        let event = AddressWhitelisted {
            address,
            whitelisted_by: admin,
            reason: reason.clone(),
            timestamp: now,
        };
        let entry = WhitelistedAddress {
            address,
            whitelisted_at: now,
            whitelisted_by: admin,
            reason,
        };
        self.whitelist.insert(address, entry);
        Ok(event)
    }

    /// The administrator ends the exemption of `address` at `now`.
    pub fn remove_from_whitelist(&mut self, admin: AccountId, address: AccountId, now: u64) -> (r:
        Result<AddressRemovedFromWhitelist, LeaseError>)
        ensures
            !old(self).is_admin(admin) ==> r == Err::<AddressRemovedFromWhitelist, LeaseError>(
                LeaseError::Unauthorised,
            ),
            old(self).is_admin(admin) && !old(self).whitelist@.contains_key(address) ==> r == Err::<
                AddressRemovedFromWhitelist,
                LeaseError,
            >(LeaseError::LeaseNotFound),
            r is Err ==> *final(self) == *old(self),
            old(self).is_admin(admin) && old(self).whitelist@.contains_key(address) ==> r
                == Ok::<AddressRemovedFromWhitelist, LeaseError>(
                AddressRemovedFromWhitelist { address, removed_by: admin, timestamp: now },
            ) && final(self).whitelist@ == old(self).whitelist@.remove(address),
            final(self).admin == old(self).admin,
            final(self).policy == old(self).policy,
    {
        match self.verify_admin(admin) {
            Ok(()) => {},
            Err(e) => {
                return Err(e);
            },
        }
        if !self.whitelist.contains_key(&address) {
            return Err(LeaseError::LeaseNotFound);
        }
        self.whitelist.remove(&address);
        Ok(AddressRemovedFromWhitelist { address, removed_by: admin, timestamp: now })
    }

    /// The exempt addresses. No index of them is kept, so the list is
    /// always empty.
    pub fn get_whitelist(&self) -> (r: Vec<AccountId>)
        ensures
            r@ == Seq::<AccountId>::empty(),
    {
        Vec::new()
    }

    /// The exemption of `address`, if any.
    pub fn get_whitelist_entry(&self, address: AccountId) -> (r: Option<&WhitelistedAddress>)
        ensures
            r == (if self.whitelist@.contains_key(address) {
                Some(&self.whitelist@[address])
            } else {
                None
            }),
    {
        self.whitelist.get(&address)
    }
}

} // verus!
