//! Oracle whitelist and blacklist governance.
//!
//! Governance admins whitelist oracles, suspend or reactivate them, and
//! blacklist a compromised oracle at once; leases are migrated from one
//! oracle to a whitelisted one. A blacklisted oracle is never reactivated
//! or suspended.
use vstd::prelude::*;
use std::collections::{HashMap, HashSet};
use crate::accounts::AccountId;

verus! {

broadcast use vstd::std_specs::hash::group_hash_axioms;

/// Governance status of an oracle.
#[derive(Copy, Clone, Debug, Eq, PartialEq, Structural)]
pub enum OracleGovernanceStatus {
    Whitelisted,
    Blacklisted,
    Suspended,
}

/// The registry entry of an oracle, keyed by its public key.
#[derive(Clone, Debug)]
pub struct OracleGovernanceRecord {
    pub oracle_pubkey: [u8; 32],
    pub status: OracleGovernanceStatus,
    pub added_at: u64,
    pub updated_at: u64,
    pub reason: String,
    pub affected_leases: Vec<u64>,
    pub added_by: AccountId,
}

/// A lease's move from one oracle to another.
#[derive(Copy, Clone, Debug)]
pub struct OracleMigration {
    pub lease_id: u64,
    pub old_oracle: [u8; 32],
    pub new_oracle: [u8; 32],
    pub migrated_at: u64,
    pub migrated_by: AccountId,
}

/// Reported when an oracle is whitelisted.
#[derive(Clone, Debug, PartialEq, Eq)]
pub struct OracleWhitelisted {
    pub oracle_pubkey: [u8; 32],
    pub added_by: AccountId,
    pub timestamp: u64,
}

/// Reported when an oracle is blacklisted.
#[derive(Clone, Debug, PartialEq, Eq)]
pub struct OracleBlacklisted {
    pub oracle_pubkey: [u8; 32],
    pub reason: String,
    pub blacklisted_by: AccountId,
    pub timestamp: u64,
}

/// Reported when an oracle is suspended.
#[derive(Clone, Debug, PartialEq, Eq)]
pub struct OracleSuspended {
    pub oracle_pubkey: [u8; 32],
    pub reason: String,
    pub suspended_by: AccountId,
    pub timestamp: u64,
}

/// Reported when a suspended oracle is whitelisted again.
#[derive(Clone, Debug, PartialEq, Eq)]
pub struct OracleReactivated {
    pub oracle_pubkey: [u8; 32],
    pub reactivated_by: AccountId,
    pub timestamp: u64,
}

/// Reported when a lease moves to another oracle.
#[derive(Clone, Debug, PartialEq, Eq)]
pub struct LeaseOracleMigrated {
    pub lease_id: u64,
    pub old_oracle: [u8; 32],
    pub new_oracle: [u8; 32],
    pub migrated_by: AccountId,
    pub timestamp: u64,
}

/// Reported, before `OracleBlacklisted`, when an oracle is blacklisted at
/// once: how many leases it affects.
#[derive(Clone, Debug, PartialEq, Eq)]
pub struct EmergencyBlacklist {
    pub oracle_pubkey: [u8; 32],
    pub reason: String,
    pub emergency_by: AccountId,
    pub affected_leases_count: u32,
    pub timestamp: u64,
}

/// Why a governance operation was refused.
#[derive(Copy, Clone, Debug, Eq, PartialEq, Structural)]
pub enum OracleGovernanceError {
    NotGovernanceAdmin,
    OracleAlreadyInRegistry,
    OracleNotFound,
    OracleAlreadyBlacklisted,
    CannotReactivateBlacklisted,
    NewOracleNotWhitelisted,
    NewOracleNotActive,
    AlreadyInitialized,
}

impl OracleGovernanceError {
    /// The message the contract reports for this error.
    pub fn message(&self) -> (r: &'static str)
        ensures
            match self {
                OracleGovernanceError::NotGovernanceAdmin => r@ == "Not a governance admin"@,
                OracleGovernanceError::OracleAlreadyInRegistry => r@ == "Oracle already in registry"@,
                OracleGovernanceError::OracleNotFound => r@ == "Oracle not found in registry"@,
                OracleGovernanceError::OracleAlreadyBlacklisted => r@ == "Oracle already blacklisted"@,
                OracleGovernanceError::CannotReactivateBlacklisted => r@
                    == "Cannot reactivate blacklisted oracle"@,
                OracleGovernanceError::NewOracleNotWhitelisted => r@ == "New oracle not whitelisted"@,
                OracleGovernanceError::NewOracleNotActive => r@ == "New oracle not active"@,
                OracleGovernanceError::AlreadyInitialized => r@ == "Already initialized"@,
            },
    {
        match self {
            OracleGovernanceError::NotGovernanceAdmin => "Not a governance admin",
            OracleGovernanceError::OracleAlreadyInRegistry => "Oracle already in registry",
            OracleGovernanceError::OracleNotFound => "Oracle not found in registry",
            OracleGovernanceError::OracleAlreadyBlacklisted => "Oracle already blacklisted",
            OracleGovernanceError::CannotReactivateBlacklisted => "Cannot reactivate blacklisted oracle",
            OracleGovernanceError::NewOracleNotWhitelisted => "New oracle not whitelisted",
            OracleGovernanceError::NewOracleNotActive => "New oracle not active",
            OracleGovernanceError::AlreadyInitialized => "Already initialized",
        }
    }
}

/// Whether an existing entry keeps an oracle from being whitelisted: only
/// a blacklisted oracle may be whitelisted again.
pub open spec fn blocks_whitelisting(entry: Option<OracleGovernanceRecord>) -> bool {
    match entry {
        Some(rec) => rec.status != OracleGovernanceStatus::Blacklisted,
        None => false,
    }
}

/// Whether `records` holds an entry for `key`.
pub open spec fn has_oracle(records: Seq<OracleGovernanceRecord>, key: Seq<u8>) -> bool {
    exists|i: int| 0 <= i < records.len() && #[trigger] records[i].oracle_pubkey@ == key
}

/// The position of the entry for `key` in `records`, where there is one.
pub open spec fn oracle_index(records: Seq<OracleGovernanceRecord>, key: Seq<u8>) -> int {
    choose|i: int| 0 <= i < records.len() && #[trigger] records[i].oracle_pubkey@ == key
}

/// No two entries share a key.
pub open spec fn keys_unique(records: Seq<OracleGovernanceRecord>) -> bool {
    forall|i: int, j: int|
        0 <= i < records.len() && 0 <= j < records.len() && #[trigger] records[i].oracle_pubkey@
            == #[trigger] records[j].oracle_pubkey@ ==> i == j
}

/// The entry for `key`, where there is one.
pub open spec fn oracle_record(records: Seq<OracleGovernanceRecord>, key: Seq<u8>) -> Option<
    OracleGovernanceRecord,
> {
    if has_oracle(records, key) {
        Some(records[oracle_index(records, key)])
    } else {
        None
    }
}

/// `records` with `rec` stored under its key: in place of the entry for
/// that key, or appended.
pub open spec fn stored(records: Seq<OracleGovernanceRecord>, rec: OracleGovernanceRecord) -> Seq<
    OracleGovernanceRecord,
> {
    if has_oracle(records, rec.oracle_pubkey@) {
        records.update(oracle_index(records, rec.oracle_pubkey@), rec)
    } else {
        records.push(rec)
    }
}

/// The governance module's state.
#[derive(Debug)]
pub struct OracleGovernanceModule {
    pub records: Vec<OracleGovernanceRecord>,
    pub whitelist_count: u64,
    pub blacklist_count: u64,
    pub admins: HashSet<AccountId>,
    /// The oracle each migrated lease now uses.
    pub lease_oracles: HashMap<u64, [u8; 32]>,
    /// The last migration of each lease.
    pub migrations: HashMap<u64, OracleMigration>,
}

impl OracleGovernanceModule {
    /// No two registry entries share a key.
    pub open spec fn wf(&self) -> bool {
        keys_unique(self.records@)
    }

    /// The registry entry of `key`, where there is one.
    pub open spec fn record(&self, key: Seq<u8>) -> Option<OracleGovernanceRecord> {
        oracle_record(self.records@, key)
    }

    /// A module without admins, oracles or leases.
    pub fn new() -> (r: Self)
        ensures
            r.wf(),
            r.records@ == Seq::<OracleGovernanceRecord>::empty(),
            r.whitelist_count == 0,
            r.blacklist_count == 0,
            r.admins@ == Set::<AccountId>::empty(),
            r.lease_oracles@ == Map::<u64, [u8; 32]>::empty(),
            r.migrations@ == Map::<u64, OracleMigration>::empty(),
    {
        OracleGovernanceModule {
            records: Vec::new(),
            whitelist_count: 0,
            blacklist_count: 0,
            admins: HashSet::new(),
            lease_oracles: HashMap::new(),
            migrations: HashMap::new(),
        }
    }

    fn require_admin(&self, address: AccountId) -> (r: Result<(), OracleGovernanceError>)
        ensures
            r == (if self.admins@.contains(address) {
                Ok(())
            } else {
                Err(OracleGovernanceError::NotGovernanceAdmin)
            }),
    {
        if !self.admins.contains(&address) {
            return Err(OracleGovernanceError::NotGovernanceAdmin);
        }
        Ok(())
    }

    fn find(&self, key: &[u8; 32]) -> (r: Option<usize>)
        requires
            self.wf(),
        ensures
            match r {
                Some(i) => has_oracle(self.records@, key@) && i == oracle_index(self.records@, key@)
                    && i < self.records@.len(),
                None => !has_oracle(self.records@, key@),
            },
    {
        let mut i: usize = 0;
        while i < self.records.len()
            invariant
                0 <= i <= self.records@.len(),
                forall|j: int| 0 <= j < i ==> self.records@[j].oracle_pubkey@ != key@,
                keys_unique(self.records@),
            decreases self.records@.len() - i,
        {
            if crate::accounts::same_key(&self.records[i].oracle_pubkey, key) {
                proof {
                    assert(self.records@[i as int].oracle_pubkey@ == key@);
                    let j = oracle_index(self.records@, key@);
                    assert(self.records@[j].oracle_pubkey@ == self.records@[i as int].oracle_pubkey@);
                }
                return Some(i);
            }
            i = i + 1;
        }
        None
    }

    fn store(&mut self, rec: OracleGovernanceRecord)
        requires
            old(self).wf(),
        ensures
            final(self).wf(),
            final(self).records@ == stored(old(self).records@, rec),
            final(self).whitelist_count == old(self).whitelist_count,
            final(self).blacklist_count == old(self).blacklist_count,
            final(self).admins == old(self).admins,
            final(self).lease_oracles == old(self).lease_oracles,
            final(self).migrations == old(self).migrations,
    {
        match self.find(&rec.oracle_pubkey) {
            Some(i) => {
                self.records.set(i, rec);
            },
            None => {
                self.records.push(rec);
            },
        }
    }

    /// Whether `key` is whitelisted.
    pub fn is_oracle_active(&self, key: &[u8; 32]) -> (r: bool)
        requires
            self.wf(),
        ensures
            r == (self.record(key@) matches Some(rec) && rec.status
                == OracleGovernanceStatus::Whitelisted),
    {
        match self.find(key) {
            Some(i) => self.records[i].status == OracleGovernanceStatus::Whitelisted,
            None => false,
        }
    }

    /// Whether `key` is blacklisted.
    pub fn is_oracle_blacklisted(&self, key: &[u8; 32]) -> (r: bool)
        requires
            self.wf(),
        ensures
            r == (self.record(key@) matches Some(rec) && rec.status
                == OracleGovernanceStatus::Blacklisted),
    {
        match self.find(key) {
            Some(i) => self.records[i].status == OracleGovernanceStatus::Blacklisted,
            None => false,
        }
    }

    /// The registry entry of `key`.
    pub fn get_oracle_record(&self, key: &[u8; 32]) -> (r: Result<
        &OracleGovernanceRecord,
        OracleGovernanceError,
    >)
        requires
            self.wf(),
        ensures
            match self.record(key@) {
                Some(rec) => r == Ok::<&OracleGovernanceRecord, OracleGovernanceError>(&rec),
                None => r == Err::<&OracleGovernanceRecord, OracleGovernanceError>(
                    OracleGovernanceError::OracleNotFound,
                ),
            },
    {
        match self.find(key) {
            Some(i) => Ok(&self.records[i]),
            None => Err(OracleGovernanceError::OracleNotFound),
        }
    }

    /// An admin whitelists an oracle at `now`; an oracle already in the
    /// registry may be whitelisted again only once blacklisted, and then
    /// starts a fresh entry.
    pub fn whitelist_oracle(&mut self, admin: AccountId, key: [u8; 32], reason: String, now: u64) -> (r:
        Result<OracleWhitelisted, OracleGovernanceError>)
        requires
            old(self).wf(),
            old(self).whitelist_count < u64::MAX,
        ensures
            final(self).wf(),
            !old(self).admins@.contains(admin) ==> r == Err::<OracleWhitelisted, OracleGovernanceError>(
                OracleGovernanceError::NotGovernanceAdmin,
            ),
            old(self).admins@.contains(admin) && blocks_whitelisting(old(self).record(key@)) ==> r
                == Err::<OracleWhitelisted, OracleGovernanceError>(
                OracleGovernanceError::OracleAlreadyInRegistry,
            ),
            r is Err ==> *final(self) == *old(self),
            old(self).admins@.contains(admin) ==> (r == Err::<OracleWhitelisted, OracleGovernanceError>(
                OracleGovernanceError::OracleAlreadyInRegistry,
            ) <==> (old(self).record(key@) matches Some(e) && e.status
                != OracleGovernanceStatus::Blacklisted)),
            old(self).admins@.contains(admin) && (old(self).record(key@) is None || old(self).record(
                key@,
            )->Some_0.status == OracleGovernanceStatus::Blacklisted) ==> {
                &&& r is Ok
                &&& final(self).record(key@) matches Some(n) && n.status
                    == OracleGovernanceStatus::Whitelisted && n.added_by == admin && n.added_at == now
            },
            old(self).admins@.contains(admin) && !blocks_whitelisting(old(self).record(key@)) ==> {
                &&& r == Ok::<OracleWhitelisted, OracleGovernanceError>(
                    OracleWhitelisted { oracle_pubkey: key, added_by: admin, timestamp: now },
                )
                &&& final(self).records@ == stored(
                    old(self).records@,
                    OracleGovernanceRecord {
                        oracle_pubkey: key,
                        status: OracleGovernanceStatus::Whitelisted,
                        added_at: now,
                        updated_at: now,
                        reason,
                        affected_leases: final(self).record(key@)->Some_0.affected_leases,
                        added_by: admin,
                    },
                )
                &&& final(self).record(key@)->Some_0.affected_leases@ == Seq::<u64>::empty()
                &&& final(self).whitelist_count == old(self).whitelist_count + 1
                &&& final(self).blacklist_count == old(self).blacklist_count
                &&& final(self).admins == old(self).admins
                &&& final(self).lease_oracles == old(self).lease_oracles
                &&& final(self).migrations == old(self).migrations
            },
    {
        match self.require_admin(admin) {
            Ok(()) => {},
            Err(e) => {
                return Err(e);
            },
        }
        match self.find(&key) {
            Some(i) => {
                if self.records[i].status != OracleGovernanceStatus::Blacklisted {
                    return Err(OracleGovernanceError::OracleAlreadyInRegistry);
                }
            },
            None => {},
        }
        let rec = OracleGovernanceRecord {
            oracle_pubkey: key,
            status: OracleGovernanceStatus::Whitelisted,
            added_at: now,
            updated_at: now,
            reason,
            affected_leases: Vec::new(),
            added_by: admin,
        };
        self.store(rec);
        proof {
            lemma_stored_is_found(old(self).records@, rec);
        }
        self.whitelist_count = self.whitelist_count + 1;
        Ok(OracleWhitelisted { oracle_pubkey: key, added_by: admin, timestamp: now })
    }

    /// An admin blacklists an oracle at once at `now`, listing the leases
    /// it affects; an oracle not in the registry gets a blacklisted entry.
    pub fn emergency_blacklist(
        &mut self,
        admin: AccountId,
        key: [u8; 32],
        reason: String,
        affected_leases: Vec<u64>,
        now: u64,
    ) -> (r: Result<(EmergencyBlacklist, OracleBlacklisted), OracleGovernanceError>)
        requires
            old(self).wf(),
            old(self).blacklist_count < u64::MAX,
        ensures
            final(self).wf(),
            !old(self).admins@.contains(admin) ==> r == Err::<
                (EmergencyBlacklist, OracleBlacklisted),
                OracleGovernanceError,
            >(OracleGovernanceError::NotGovernanceAdmin) && *final(self) == *old(self),
            old(self).admins@.contains(admin) ==> {
                let (added_at, added_by) = match old(self).record(key@) {
                    Some(rec) => (rec.added_at, rec.added_by),
                    None => (now, admin),
                };
                &&& r is Ok
                &&& r->Ok_0.0.oracle_pubkey == key
                &&& r->Ok_0.0.reason@ == reason@
                &&& r->Ok_0.0.emergency_by == admin
                &&& r->Ok_0.0.affected_leases_count == affected_leases@.len() as u32
                &&& r->Ok_0.0.timestamp == now
                &&& r->Ok_0.1.oracle_pubkey == key
                &&& r->Ok_0.1.reason@ == reason@
                &&& r->Ok_0.1.blacklisted_by == admin
                &&& r->Ok_0.1.timestamp == now
                &&& final(self).records@ == stored(
                    old(self).records@,
                    OracleGovernanceRecord {
                        oracle_pubkey: key,
                        status: OracleGovernanceStatus::Blacklisted,
                        added_at,
                        updated_at: now,
                        reason,
                        affected_leases,
                        added_by,
                    },
                )
                &&& final(self).blacklist_count == old(self).blacklist_count + 1
                &&& final(self).whitelist_count == old(self).whitelist_count
                &&& final(self).admins == old(self).admins
                &&& final(self).lease_oracles == old(self).lease_oracles
                &&& final(self).migrations == old(self).migrations
            },
    {
        match self.require_admin(admin) {
            Ok(()) => {},
            Err(e) => {
                return Err(e);
            },
        }
        let (added_at, added_by) = match self.find(&key) {
            Some(i) => (self.records[i].added_at, self.records[i].added_by),
            None => (now, admin),
        };
        let affected_leases_count = affected_leases.len() as u32;
        let emergency = EmergencyBlacklist {
            oracle_pubkey: key,
            reason: reason.clone(),
            emergency_by: admin,
            affected_leases_count,
            timestamp: now,
        };
        let blacklisted = OracleBlacklisted {
            oracle_pubkey: key,
            reason: reason.clone(),
            blacklisted_by: admin,
            timestamp: now,
        };
        let rec = OracleGovernanceRecord {
            oracle_pubkey: key,
            status: OracleGovernanceStatus::Blacklisted,
            added_at,
            updated_at: now,
            reason,
            affected_leases,
            added_by,
        };
        self.store(rec);
        self.blacklist_count = self.blacklist_count + 1;
        Ok((emergency, blacklisted))
    }

    /// An admin suspends an oracle in the registry that is not
    /// blacklisted, at `now` and for `reason`.
    pub fn suspend_oracle(&mut self, admin: AccountId, key: [u8; 32], reason: String, now: u64) -> (r:
        Result<OracleSuspended, OracleGovernanceError>)
        requires
            old(self).wf(),
        ensures
            final(self).wf(),
            !old(self).admins@.contains(admin) ==> r == Err::<OracleSuspended, OracleGovernanceError>(
                OracleGovernanceError::NotGovernanceAdmin,
            ),
            old(self).admins@.contains(admin) && old(self).record(key@) is None ==> r == Err::<
                OracleSuspended,
                OracleGovernanceError,
            >(OracleGovernanceError::OracleNotFound),
            old(self).admins@.contains(admin) && old(self).record(key@) is Some && old(self).record(
                key@,
            )->Some_0.status == OracleGovernanceStatus::Blacklisted ==> r == Err::<
                OracleSuspended,
                OracleGovernanceError,
            >(OracleGovernanceError::OracleAlreadyBlacklisted),
            r is Err ==> *final(self) == *old(self),
            old(self).admins@.contains(admin) && old(self).record(key@) is Some && old(self).record(
                key@,
            )->Some_0.status != OracleGovernanceStatus::Blacklisted ==> {
                let rec = old(self).record(key@)->Some_0;
                &&& r is Ok
                &&& r->Ok_0.oracle_pubkey == key
                &&& r->Ok_0.reason@ == reason@
                &&& r->Ok_0.suspended_by == admin
                &&& r->Ok_0.timestamp == now
                &&& final(self).records@ == stored(
                    old(self).records@,
                    OracleGovernanceRecord {
                        status: OracleGovernanceStatus::Suspended,
                        updated_at: now,
                        reason,
                        ..rec
                    },
                )
            },
            final(self).whitelist_count == old(self).whitelist_count,
            final(self).blacklist_count == old(self).blacklist_count,
            final(self).admins == old(self).admins,
            final(self).lease_oracles == old(self).lease_oracles,
            final(self).migrations == old(self).migrations,
    {
        match self.require_admin(admin) {
            Ok(()) => {},
            Err(e) => {
                return Err(e);
            },
        }
        let i = match self.find(&key) {
            Some(i) => i,
            None => {
                return Err(OracleGovernanceError::OracleNotFound);
            },
        };
        if self.records[i].status == OracleGovernanceStatus::Blacklisted {
            return Err(OracleGovernanceError::OracleAlreadyBlacklisted);
        }
        let mut rec = self.records.remove(i);
        rec.status = OracleGovernanceStatus::Suspended;
        rec.updated_at = now;
        let event = OracleSuspended {
            oracle_pubkey: key,
            reason: reason.clone(),
            suspended_by: admin,
            timestamp: now,
        };
        rec.reason = reason;
        self.records.insert(i, rec);
        assert(self.records@ =~= old(self).records@.update(i as int, rec));
        proof {
            lemma_update_keeps_keys(old(self).records@, i as int, rec);
        }
        Ok(event)
    }

    /// An admin makes an oracle in the registry that is not blacklisted
    /// whitelisted again, at `now`.
    pub fn reactivate_oracle(&mut self, admin: AccountId, key: [u8; 32], now: u64) -> (r: Result<
        OracleReactivated,
        OracleGovernanceError,
    >)
        requires
            old(self).wf(),
        ensures
            final(self).wf(),
            !old(self).admins@.contains(admin) ==> r == Err::<OracleReactivated, OracleGovernanceError>(
                OracleGovernanceError::NotGovernanceAdmin,
            ),
            old(self).admins@.contains(admin) && old(self).record(key@) is None ==> r == Err::<
                OracleReactivated,
                OracleGovernanceError,
            >(OracleGovernanceError::OracleNotFound),
            old(self).admins@.contains(admin) && old(self).record(key@) is Some && old(self).record(
                key@,
            )->Some_0.status == OracleGovernanceStatus::Blacklisted ==> r == Err::<
                OracleReactivated,
                OracleGovernanceError,
            >(OracleGovernanceError::CannotReactivateBlacklisted),
            r is Err ==> *final(self) == *old(self),
            old(self).admins@.contains(admin) && old(self).record(key@) is Some && old(self).record(
                key@,
            )->Some_0.status != OracleGovernanceStatus::Blacklisted ==> {
                let rec = old(self).record(key@)->Some_0;
                let reason = final(self).record(key@)->Some_0.reason;
                &&& r == Ok::<OracleReactivated, OracleGovernanceError>(
                    OracleReactivated { oracle_pubkey: key, reactivated_by: admin, timestamp: now },
                )
                &&& final(self).records@ == stored(
                    old(self).records@,
                    OracleGovernanceRecord {
                        status: OracleGovernanceStatus::Whitelisted,
                        updated_at: now,
                        reason,
                        ..rec
                    },
                )
                &&& reason@ == "Reactivated by governance"@
            },
            final(self).whitelist_count == old(self).whitelist_count,
            final(self).blacklist_count == old(self).blacklist_count,
            final(self).admins == old(self).admins,
            final(self).lease_oracles == old(self).lease_oracles,
            final(self).migrations == old(self).migrations,
    {
        match self.require_admin(admin) {
            Ok(()) => {},
            Err(e) => {
                return Err(e);
            },
        }
        let i = match self.find(&key) {
            Some(i) => i,
            None => {
                return Err(OracleGovernanceError::OracleNotFound);
            },
        };
        if self.records[i].status == OracleGovernanceStatus::Blacklisted {
            return Err(OracleGovernanceError::CannotReactivateBlacklisted);
        }
        let mut rec = self.records.remove(i);
        rec.status = OracleGovernanceStatus::Whitelisted;
        rec.updated_at = now;
        rec.reason = "Reactivated by governance".to_owned();
        self.records.insert(i, rec);
        assert(self.records@ =~= old(self).records@.update(i as int, rec));
        proof {
            lemma_update_keeps_keys(old(self).records@, i as int, rec);
            lemma_stored_is_found(old(self).records@, rec);
        }
        Ok(OracleReactivated { oracle_pubkey: key, reactivated_by: admin, timestamp: now })
    }

    /// `caller` moves lease `lease_id` from `old_oracle` to `new_oracle`,
    /// which must be whitelisted, at `now`.
    pub fn migrate_lease_oracle(
        &mut self,
        caller: AccountId,
        lease_id: u64,
        old_oracle: [u8; 32],
        new_oracle: [u8; 32],
        now: u64,
    ) -> (r: Result<LeaseOracleMigrated, OracleGovernanceError>)
        requires
            old(self).wf(),
        ensures
            final(self).wf(),
            old(self).record(new_oracle@) is None ==> r == Err::<LeaseOracleMigrated, OracleGovernanceError>(
                OracleGovernanceError::NewOracleNotWhitelisted,
            ),
            old(self).record(new_oracle@) matches Some(rec) && rec.status
                != OracleGovernanceStatus::Whitelisted ==> r == Err::<LeaseOracleMigrated, OracleGovernanceError>(
                OracleGovernanceError::NewOracleNotActive,
            ),
            r is Err ==> *final(self) == *old(self),
            old(self).record(new_oracle@) matches Some(rec) && rec.status
                == OracleGovernanceStatus::Whitelisted ==> {
                &&& r == Ok::<LeaseOracleMigrated, OracleGovernanceError>(
                    LeaseOracleMigrated {
                        lease_id,
                        old_oracle,
                        new_oracle,
                        migrated_by: caller,
                        timestamp: now,
                    },
                )
                &&& final(self).lease_oracles@ == old(self).lease_oracles@.insert(lease_id, new_oracle)
                &&& final(self).migrations@.contains_key(lease_id)
                &&& final(self).migrations@ == old(self).migrations@.insert(
                    lease_id,
                    final(self).migrations@[lease_id],
                )
                &&& final(self).migrations@[lease_id].lease_id == lease_id
                &&& final(self).migrations@[lease_id].old_oracle == old_oracle
                &&& final(self).migrations@[lease_id].new_oracle == new_oracle
                &&& final(self).migrations@[lease_id].migrated_at == now
                &&& final(self).migrations@[lease_id].migrated_by == caller
                &&& final(self).records == old(self).records
                &&& final(self).whitelist_count == old(self).whitelist_count
                &&& final(self).blacklist_count == old(self).blacklist_count
                &&& final(self).admins == old(self).admins
            },
    {
        match self.find(&new_oracle) {
            None => {
                return Err(OracleGovernanceError::NewOracleNotWhitelisted);
            },
            Some(i) => {
                if self.records[i].status != OracleGovernanceStatus::Whitelisted {
                    return Err(OracleGovernanceError::NewOracleNotActive);
                }
            },
        }
        let migration = OracleMigration {
            lease_id,
            old_oracle,
            new_oracle,
            migrated_at: now,
            migrated_by: caller,
        };
        self.migrations.insert(lease_id, migration);
        self.lease_oracles.insert(lease_id, new_oracle);
        Ok(LeaseOracleMigrated { lease_id, old_oracle, new_oracle, migrated_by: caller, timestamp: now })
    }

    /// The oracle a migrated lease uses.
    pub fn get_lease_oracle(&self, lease_id: u64) -> (r: Option<[u8; 32]>)
        ensures
            r == self.lease_oracles@.get(lease_id),
    {
        match self.lease_oracles.get(&lease_id) {
            Some(k) => Some(*k),
            None => None,
        }
    }

    /// The last migration of a lease.
    pub fn get_migration_history(&self, lease_id: u64) -> (r: Option<OracleMigration>)
        ensures
            r == self.migrations@.get(lease_id),
    {
        match self.migrations.get(&lease_id) {
            Some(m) => Some(*m),
            None => None,
        }
    }

    /// An admin makes `new_admin` an admin.
    pub fn add_governance_admin(&mut self, caller: AccountId, new_admin: AccountId) -> (r: Result<
        (),
        OracleGovernanceError,
    >)
        requires
            old(self).wf(),
        ensures
            final(self).wf(),
            !old(self).admins@.contains(caller) ==> r == Err::<(), OracleGovernanceError>(
                OracleGovernanceError::NotGovernanceAdmin,
            ) && *final(self) == *old(self),
            old(self).admins@.contains(caller) ==> r is Ok && final(self).admins@ == old(
                self,
            ).admins@.insert(new_admin),
            final(self).records == old(self).records,
            final(self).lease_oracles == old(self).lease_oracles,
            final(self).migrations == old(self).migrations,
            final(self).whitelist_count == old(self).whitelist_count,
            final(self).blacklist_count == old(self).blacklist_count,
    {
        match self.require_admin(caller) {
            Ok(()) => {},
            Err(e) => {
                return Err(e);
            },
        }
        self.admins.insert(new_admin);
        Ok(())
    }

    /// An admin removes an admin.
    pub fn remove_governance_admin(&mut self, caller: AccountId, admin_to_remove: AccountId) -> (r:
        Result<(), OracleGovernanceError>)
        requires
            old(self).wf(),
        ensures
            final(self).wf(),
            !old(self).admins@.contains(caller) ==> r == Err::<(), OracleGovernanceError>(
                OracleGovernanceError::NotGovernanceAdmin,
            ) && *final(self) == *old(self),
            old(self).admins@.contains(caller) ==> r is Ok && final(self).admins@ == old(
                self,
            ).admins@.remove(admin_to_remove),
            final(self).records == old(self).records,
            final(self).lease_oracles == old(self).lease_oracles,
            final(self).migrations == old(self).migrations,
            final(self).whitelist_count == old(self).whitelist_count,
            final(self).blacklist_count == old(self).blacklist_count,
    {
        match self.require_admin(caller) {
            Ok(()) => {},
            Err(e) => {
                return Err(e);
            },
        }
        self.admins.remove(&admin_to_remove);
        Ok(())
    }

    /// Makes `admin` an admin, unless it already is one.
    pub fn initialize_governance(&mut self, admin: AccountId) -> (r: Result<(), OracleGovernanceError>)
        requires
            old(self).wf(),
        ensures
            final(self).wf(),
            old(self).admins@.contains(admin) ==> r == Err::<(), OracleGovernanceError>(
                OracleGovernanceError::AlreadyInitialized,
            ),
            !old(self).admins@.contains(admin) ==> r is Ok,
            final(self).admins@ == old(self).admins@.insert(admin),
            final(self).records == old(self).records,
            final(self).lease_oracles == old(self).lease_oracles,
            final(self).migrations == old(self).migrations,
            final(self).whitelist_count == old(self).whitelist_count,
            final(self).blacklist_count == old(self).blacklist_count,
    {
        if self.admins.contains(&admin) {
            return Err(OracleGovernanceError::AlreadyInitialized);
        }
        self.admins.insert(admin);
        Ok(())
    }
}

/// Storing a record keeps the keys unique and makes it the entry for its
/// key.
pub proof fn lemma_stored_is_found(records: Seq<OracleGovernanceRecord>, rec: OracleGovernanceRecord)
    requires
        keys_unique(records),
    ensures
        keys_unique(stored(records, rec)),
        oracle_record(stored(records, rec), rec.oracle_pubkey@) == Some(rec),
{
    let s = stored(records, rec);
    let k = rec.oracle_pubkey@;
    if has_oracle(records, k) {
        let i = oracle_index(records, k);
        assert(s[i].oracle_pubkey@ == k);
        assert forall|a: int, b: int|
            0 <= a < s.len() && 0 <= b < s.len() && #[trigger] s[a].oracle_pubkey@
                == #[trigger] s[b].oracle_pubkey@ implies a == b by {
            if a != i && b != i {
                assert(records[a].oracle_pubkey@ == records[b].oracle_pubkey@);
            } else if a == i && b != i {
                assert(records[b].oracle_pubkey@ == records[i].oracle_pubkey@);
            } else if b == i && a != i {
                assert(records[a].oracle_pubkey@ == records[i].oracle_pubkey@);
            }
        }
        let j = oracle_index(s, k);
        assert(s[j].oracle_pubkey@ == s[i].oracle_pubkey@);
    } else {
        let n = records.len() as int;
        assert(s[n].oracle_pubkey@ == k);
        assert forall|a: int, b: int|
            0 <= a < s.len() && 0 <= b < s.len() && #[trigger] s[a].oracle_pubkey@
                == #[trigger] s[b].oracle_pubkey@ implies a == b by {
            if a < n && b < n {
                assert(records[a].oracle_pubkey@ == records[b].oracle_pubkey@);
            } else if a == n && b < n {
                assert(records[b].oracle_pubkey@ == k);
            } else if b == n && a < n {
                assert(records[a].oracle_pubkey@ == k);
            }
        }
        let j = oracle_index(s, k);
        assert(s[j].oracle_pubkey@ == s[n].oracle_pubkey@);
    }
}

/// Replacing the entry at `i` by a record with the same key is storing it.
pub proof fn lemma_update_keeps_keys(records: Seq<OracleGovernanceRecord>, i: int, rec: OracleGovernanceRecord)
    requires
        keys_unique(records),
        0 <= i < records.len(),
        records[i].oracle_pubkey@ == rec.oracle_pubkey@,
    ensures
        stored(records, rec) == records.update(i, rec),
        keys_unique(records.update(i, rec)),
{
    let k = rec.oracle_pubkey@;
    assert(has_oracle(records, k));
    let j = oracle_index(records, k);
    assert(records[j].oracle_pubkey@ == records[i].oracle_pubkey@);
    lemma_stored_is_found(records, rec);
}

} // verus!
