//! Registry of SEP-12 identity providers.
//!
//! Providers register themselves; each lessor keeps its own list of trusted
//! providers; a governance council suspends providers and revokes them by
//! vote.
use vstd::prelude::*;
use std::collections::{HashMap, HashSet};
use crate::accounts::AccountId;

verus! {

broadcast use vstd::std_specs::hash::group_hash_axioms;

/// Trust score of a newly registered provider, in basis points.
pub const INITIAL_TRUST_SCORE: u32 = 5000;
/// Fewest votes on which a revocation may pass.
pub const MIN_REVOCATION_VOTES: u32 = 3;

/// Status of an identity provider.
#[derive(Copy, Clone, Debug, Eq, PartialEq, Structural)]
pub enum IdentityProviderStatus {
    Active,
    Suspended,
    Revoked,
}

/// A registered identity provider.
#[derive(Clone, Debug)]
pub struct IdentityProvider {
    pub provider_id: [u8; 32],
    pub provider_address: AccountId,
    pub name: String,
    pub status: IdentityProviderStatus,
    pub registered_at: u64,
    pub last_updated: u64,
    pub verification_count: u64,
    /// Trust score in basis points.
    pub trust_score: u32,
}

/// The providers a lessor trusts.
#[derive(Clone, Debug)]
pub struct LessorTrustedProviders {
    pub lessor: AccountId,
    pub trusted_providers: Vec<[u8; 32]>,
    pub auto_accept_new_providers: bool,
}

/// A proposal to revoke a provider.
#[derive(Clone, Debug)]
pub struct RevocationProposal {
    pub proposal_id: u64,
    pub provider_id: [u8; 32],
    pub proposer: AccountId,
    pub reason: String,
    pub votes_for: u32,
    pub votes_against: u32,
    pub created_at: u64,
    pub executed: bool,
}

/// Reported when a provider registers.
#[derive(Clone, Debug, PartialEq, Eq)]
pub struct IdentityProviderRegistered {
    pub provider_id: [u8; 32],
    pub provider_address: AccountId,
    pub name: String,
    pub timestamp: u64,
}

/// Reported when a provider is suspended.
#[derive(Clone, Debug, PartialEq, Eq)]
pub struct IdentityProviderSuspended {
    pub provider_id: [u8; 32],
    pub reason: String,
    pub timestamp: u64,
}

/// Reported when a provider is revoked.
#[derive(Clone, Debug, PartialEq, Eq)]
pub struct IdentityProviderRevoked {
    pub provider_id: [u8; 32],
    pub reason: String,
    pub timestamp: u64,
}

/// Reported when a lessor trusts a provider.
#[derive(Copy, Clone, Debug, PartialEq, Eq)]
pub struct LessorTrustedProviderAdded {
    pub lessor: AccountId,
    pub provider_id: [u8; 32],
    pub timestamp: u64,
}

/// Reported when a lessor stops trusting a provider.
#[derive(Copy, Clone, Debug, PartialEq, Eq)]
pub struct LessorTrustedProviderRemoved {
    pub lessor: AccountId,
    pub provider_id: [u8; 32],
    pub timestamp: u64,
}

/// Reported when a revocation is proposed.
#[derive(Copy, Clone, Debug, PartialEq, Eq)]
pub struct RevocationProposalCreated {
    pub proposal_id: u64,
    pub provider_id: [u8; 32],
    pub proposer: AccountId,
    pub timestamp: u64,
}

/// Reported when a revocation is carried out.
#[derive(Copy, Clone, Debug, PartialEq, Eq)]
pub struct RevocationProposalExecuted {
    pub proposal_id: u64,
    pub provider_id: [u8; 32],
    pub timestamp: u64,
}

/// Why an identity operation was refused.
#[derive(Copy, Clone, Debug, Eq, PartialEq, Structural)]
pub enum Sep12Error {
    ProviderAlreadyRegistered,
    ProviderNotFound,
    ProviderNotActive,
    ProviderAlreadyTrusted,
    NoTrustedProvidersConfigured,
    ProviderNotInTrustedList,
    ProviderAlreadyRevoked,
    ProposalNotFound,
    ProposalAlreadyExecuted,
    InsufficientVotes,
    NotCouncilMember,
}

impl Sep12Error {
    /// The message the contract reports for this error.
    pub fn message(&self) -> (r: &'static str)
        ensures
            match self {
                Sep12Error::ProviderAlreadyRegistered => r@ == "Provider already registered"@,
                Sep12Error::ProviderNotFound => r@ == "Provider not found"@,
                Sep12Error::ProviderNotActive => r@ == "Provider is not active"@,
                Sep12Error::ProviderAlreadyTrusted => r@ == "Provider already trusted"@,
                Sep12Error::NoTrustedProvidersConfigured => r@ == "No trusted providers configured"@,
                Sep12Error::ProviderNotInTrustedList => r@ == "Provider not in trusted list"@,
                Sep12Error::ProviderAlreadyRevoked => r@ == "Provider already revoked"@,
                Sep12Error::ProposalNotFound => r@ == "Proposal not found"@,
                Sep12Error::ProposalAlreadyExecuted => r@ == "Proposal already executed"@,
                Sep12Error::InsufficientVotes => r@ == "Insufficient votes for revocation"@,
                Sep12Error::NotCouncilMember => r@ == "Not a governance council member"@,
            },
    {
        match self {
            Sep12Error::ProviderAlreadyRegistered => "Provider already registered",
            Sep12Error::ProviderNotFound => "Provider not found",
            Sep12Error::ProviderNotActive => "Provider is not active",
            Sep12Error::ProviderAlreadyTrusted => "Provider already trusted",
            Sep12Error::NoTrustedProvidersConfigured => "No trusted providers configured",
            Sep12Error::ProviderNotInTrustedList => "Provider not in trusted list",
            Sep12Error::ProviderAlreadyRevoked => "Provider already revoked",
            Sep12Error::ProposalNotFound => "Proposal not found",
            Sep12Error::ProposalAlreadyExecuted => "Proposal already executed",
            Sep12Error::InsufficientVotes => "Insufficient votes for revocation",
            Sep12Error::NotCouncilMember => "Not a governance council member",
        }
    }
}

/// Whether `providers` holds `id`.
pub open spec fn has_provider(providers: Seq<IdentityProvider>, id: Seq<u8>) -> bool {
    exists|i: int| 0 <= i < providers.len() && #[trigger] providers[i].provider_id@ == id
}

/// The position of provider `id`, where it is registered.
pub open spec fn provider_index(providers: Seq<IdentityProvider>, id: Seq<u8>) -> int {
    choose|i: int| 0 <= i < providers.len() && #[trigger] providers[i].provider_id@ == id
}

/// No provider is registered twice.
pub open spec fn ids_unique(providers: Seq<IdentityProvider>) -> bool {
    forall|i: int, j: int|
        0 <= i < providers.len() && 0 <= j < providers.len() && #[trigger] providers[i].provider_id@
            == #[trigger] providers[j].provider_id@ ==> i == j
}

/// The keys of `keys`, as byte sequences.
pub open spec fn key_views(keys: Seq<[u8; 32]>) -> Seq<Seq<u8>> {
    keys.map_values(|k: [u8; 32]| k@)
}

/// Whether a vote passes: at least three votes, at least two thirds of
/// them for.
pub open spec fn revocation_passes(votes_for: int, votes_against: int) -> bool {
    votes_for + votes_against >= MIN_REVOCATION_VOTES && votes_for * 3 >= (votes_for
        + votes_against) * 2
}

/// The identity module's state.
#[derive(Debug)]
pub struct Sep12IdentityModule {
    pub providers: Vec<IdentityProvider>,
    pub registry_count: u64,
    pub trusted: HashMap<AccountId, LessorTrustedProviders>,
    pub council: HashSet<AccountId>,
    pub proposals: HashMap<u64, RevocationProposal>,
}

impl Sep12IdentityModule {
    /// Providers are registered once, and each trust list belongs to its
    /// lessor and names each provider once.
    pub open spec fn wf(&self) -> bool {
        &&& ids_unique(self.providers@)
        &&& forall|a: AccountId| #[trigger]
            self.trusted@.contains_key(a) ==> self.trusted@[a].lessor == a && key_views(
                self.trusted@[a].trusted_providers@,
            ).no_duplicates()
    }

    /// The provider registered as `id`, where there is one.
    pub open spec fn provider(&self, id: Seq<u8>) -> Option<IdentityProvider> {
        if has_provider(self.providers@, id) {
            Some(self.providers@[provider_index(self.providers@, id)])
        } else {
            None
        }
    }

    /// The providers `lessor` trusts, as byte sequences.
    pub open spec fn trusted_by(&self, lessor: AccountId) -> Seq<Seq<u8>> {
        if self.trusted@.contains_key(lessor) {
            key_views(self.trusted@[lessor].trusted_providers@)
        } else {
            Seq::empty()
        }
    }

    /// An empty registry without council.
    pub fn new() -> (r: Self)
        ensures
            r.wf(),
            r.providers@ == Seq::<IdentityProvider>::empty(),
            r.registry_count == 0,
            r.trusted@ == Map::<AccountId, LessorTrustedProviders>::empty(),
            r.council@ == Set::<AccountId>::empty(),
            r.proposals@ == Map::<u64, RevocationProposal>::empty(),
    {
        Sep12IdentityModule {
            providers: Vec::new(),
            registry_count: 0,
            trusted: HashMap::new(),
            council: HashSet::new(),
            proposals: HashMap::new(),
        }
    }

    fn require_governance_council(&self, address: AccountId) -> (r: Result<(), Sep12Error>)
        ensures
            r == (if self.council@.contains(address) {
                Ok(())
            } else {
                Err(Sep12Error::NotCouncilMember)
            }),
    {
        if !self.council.contains(&address) {
            return Err(Sep12Error::NotCouncilMember);
        }
        Ok(())
    }

    fn find(&self, id: &[u8; 32]) -> (r: Option<usize>)
        requires
            ids_unique(self.providers@),
        ensures
            match r {
                Some(i) => has_provider(self.providers@, id@) && i == provider_index(
                    self.providers@,
                    id@,
                ) && i < self.providers@.len(),
                None => !has_provider(self.providers@, id@),
            },
    {
        let mut i: usize = 0;
        while i < self.providers.len()
            invariant
                0 <= i <= self.providers@.len(),
                forall|j: int| 0 <= j < i ==> self.providers@[j].provider_id@ != id@,
                ids_unique(self.providers@),
            decreases self.providers@.len() - i,
        {
            if crate::accounts::same_key(&self.providers[i].provider_id, id) {
                proof {
                    assert(self.providers@[i as int].provider_id@ == id@);
                    let j = provider_index(self.providers@, id@);
                    assert(self.providers@[j].provider_id@ == self.providers@[i as int].provider_id@);
                }
                return Some(i);
            }
            i = i + 1;
        }
        None
    }

    /// The provider registered as `id`.
    pub fn get_provider(&self, id: &[u8; 32]) -> (r: Result<&IdentityProvider, Sep12Error>)
        requires
            self.wf(),
        ensures
            match self.provider(id@) {
                Some(p) => r == Ok::<&IdentityProvider, Sep12Error>(&p),
                None => r == Err::<&IdentityProvider, Sep12Error>(Sep12Error::ProviderNotFound),
            },
    {
        match self.find(id) {
            Some(i) => Ok(&self.providers[i]),
            None => Err(Sep12Error::ProviderNotFound),
        }
    }

    /// The trust list of `lessor`.
    pub fn get_trusted_providers(&self, lessor: AccountId) -> (r: Result<
        &LessorTrustedProviders,
        Sep12Error,
    >)
        ensures
            self.trusted@.contains_key(lessor) ==> r == Ok::<&LessorTrustedProviders, Sep12Error>(
                &self.trusted@[lessor],
            ),
            !self.trusted@.contains_key(lessor) ==> r == Err::<&LessorTrustedProviders, Sep12Error>(
                Sep12Error::NoTrustedProvidersConfigured,
            ),
    {
        match self.trusted.get(&lessor) {
            Some(t) => Ok(t),
            None => Err(Sep12Error::NoTrustedProvidersConfigured),
        }
    }

    /// Whether `lessor` trusts provider `id`.
    pub fn is_provider_trusted(&self, lessor: AccountId, id: &[u8; 32]) -> (r: bool)
        ensures
            r == self.trusted_by(lessor).contains(id@),
    {
        match self.trusted.get(&lessor) {
            Some(t) => {
                let r = position_of(&t.trusted_providers, id).is_some();
                r
            },
            None => false,
        }
    }
}

impl Sep12IdentityModule {
    /// A provider registers itself as `provider_id` at `now`, active and
    /// with the initial trust score.
    pub fn register_identity_provider(
        &mut self,
        provider_id: [u8; 32],
        provider_address: AccountId,
        name: String,
        now: u64,
    ) -> (r: Result<IdentityProviderRegistered, Sep12Error>)
        requires
            old(self).wf(),
            old(self).registry_count < u64::MAX,
        ensures
            final(self).wf(),
            has_provider(old(self).providers@, provider_id@) ==> r == Err::<IdentityProviderRegistered, Sep12Error>(
                Sep12Error::ProviderAlreadyRegistered,
            ) && *final(self) == *old(self),
            !has_provider(old(self).providers@, provider_id@) ==> {
                &&& r is Ok
                &&& r->Ok_0.provider_id == provider_id
                &&& r->Ok_0.provider_address == provider_address
                &&& r->Ok_0.name@ == name@
                &&& r->Ok_0.timestamp == now
                &&& final(self).providers@ == old(self).providers@.push(
                    IdentityProvider {
                        provider_id,
                        provider_address,
                        name,
                        status: IdentityProviderStatus::Active,
                        registered_at: now,
                        last_updated: now,
                        verification_count: 0,
                        trust_score: INITIAL_TRUST_SCORE,
                    },
                )
                &&& final(self).registry_count == old(self).registry_count + 1
                &&& final(self).trusted == old(self).trusted
                &&& final(self).council == old(self).council
                &&& final(self).proposals == old(self).proposals
            },
    {
        if self.find(&provider_id).is_some() {
            return Err(Sep12Error::ProviderAlreadyRegistered);
        }
        let event = IdentityProviderRegistered {
            provider_id,
            provider_address,
            name: name.clone(),
            timestamp: now,
        };
        let provider = IdentityProvider {
            provider_id,
            provider_address,
            name,
            status: IdentityProviderStatus::Active,
            registered_at: now,
            last_updated: now,
            verification_count: 0,
            trust_score: INITIAL_TRUST_SCORE,
        };
        let ghost before = self.providers@;
        self.providers.push(provider);
        assert forall|i: int, j: int|
            0 <= i < self.providers@.len() && 0 <= j < self.providers@.len()
                && #[trigger] self.providers@[i].provider_id@ == #[trigger] self.providers@[j].provider_id@
                implies i == j by {
            let n = before.len() as int;
            if i < n && j < n {
                assert(before[i].provider_id@ == before[j].provider_id@);
            } else if i < n {
                assert(before[i].provider_id@ == provider_id@);
            } else if j < n {
                assert(before[j].provider_id@ == provider_id@);
            }
        }
        self.registry_count = self.registry_count + 1;
        Ok(event)
    }

    /// `lessor` adds an active provider to its trust list at `now`.
    pub fn add_trusted_provider(&mut self, lessor: AccountId, provider_id: [u8; 32], now: u64) -> (r:
        Result<LessorTrustedProviderAdded, Sep12Error>)
        requires
            old(self).wf(),
        ensures
            final(self).wf(),
            old(self).provider(provider_id@) is None ==> r == Err::<LessorTrustedProviderAdded, Sep12Error>(
                Sep12Error::ProviderNotFound,
            ),
            old(self).provider(provider_id@) matches Some(p) ==> {
                &&& p.status != IdentityProviderStatus::Active ==> r == Err::<LessorTrustedProviderAdded, Sep12Error>(
                    Sep12Error::ProviderNotActive,
                )
                &&& p.status == IdentityProviderStatus::Active && old(self).trusted_by(
                    lessor,
                ).contains(provider_id@) ==> r == Err::<LessorTrustedProviderAdded, Sep12Error>(
                    Sep12Error::ProviderAlreadyTrusted,
                )
                &&& p.status == IdentityProviderStatus::Active && !old(self).trusted_by(
                    lessor,
                ).contains(provider_id@) ==> {
                    &&& r == Ok::<LessorTrustedProviderAdded, Sep12Error>(
                        LessorTrustedProviderAdded { lessor, provider_id, timestamp: now },
                    )
                    &&& final(self).trusted_by(lessor) == old(self).trusted_by(lessor).push(
                        provider_id@,
                    )
                    &&& final(self).trusted@.contains_key(lessor)
                    &&& final(self).trusted@ == old(self).trusted@.insert(
                        lessor,
                        final(self).trusted@[lessor],
                    )
                    &&& old(self).trusted@.contains_key(lessor)
                        ==> final(self).trusted@[lessor].auto_accept_new_providers == old(
                        self,
                    ).trusted@[lessor].auto_accept_new_providers
                    &&& !old(self).trusted@.contains_key(lessor)
                        ==> !final(self).trusted@[lessor].auto_accept_new_providers
                }
            },
            r is Err ==> *final(self) == *old(self),
            final(self).providers == old(self).providers,
            final(self).registry_count == old(self).registry_count,
            final(self).council == old(self).council,
            final(self).proposals == old(self).proposals,
    {
        match self.find(&provider_id) {
            None => {
                return Err(Sep12Error::ProviderNotFound);
            },
            Some(i) => {
                if self.providers[i].status != IdentityProviderStatus::Active {
                    return Err(Sep12Error::ProviderNotActive);
                }
            },
        }
        match self.trusted.get(&lessor) {
            Some(t) => {
                if position_of(&t.trusted_providers, &provider_id).is_some() {
                    return Err(Sep12Error::ProviderAlreadyTrusted);
                }
            },
            None => {},
        }
        let mut list = match self.trusted.remove(&lessor) {
            Some(t) => t,
            None => LessorTrustedProviders {
                lessor,
                trusted_providers: Vec::new(),
                auto_accept_new_providers: false,
            },
        };
        let ghost before = list.trusted_providers@;
        list.trusted_providers.push(provider_id);
        assert(key_views(list.trusted_providers@) =~= key_views(before).push(provider_id@));
        self.trusted.insert(lessor, list);
        Ok(LessorTrustedProviderAdded { lessor, provider_id, timestamp: now })
    }

    /// `lessor` removes a provider from its trust list at `now`.
    pub fn remove_trusted_provider(&mut self, lessor: AccountId, provider_id: [u8; 32], now: u64) -> (r:
        Result<LessorTrustedProviderRemoved, Sep12Error>)
        requires
            old(self).wf(),
        ensures
            final(self).wf(),
            !old(self).trusted@.contains_key(lessor) ==> r == Err::<LessorTrustedProviderRemoved, Sep12Error>(
                Sep12Error::NoTrustedProvidersConfigured,
            ),
            old(self).trusted@.contains_key(lessor) && !old(self).trusted_by(lessor).contains(
                provider_id@,
            ) ==> r == Err::<LessorTrustedProviderRemoved, Sep12Error>(Sep12Error::ProviderNotInTrustedList),
            r is Err ==> *final(self) == *old(self),
            old(self).trusted@.contains_key(lessor) && old(self).trusted_by(lessor).contains(
                provider_id@,
            ) ==> {
                &&& r == Ok::<LessorTrustedProviderRemoved, Sep12Error>(
                    LessorTrustedProviderRemoved { lessor, provider_id, timestamp: now },
                )
                &&& exists|i: int|
                    0 <= i < old(self).trusted_by(lessor).len() && old(self).trusted_by(lessor)[i]
                        == provider_id@ && #[trigger] final(self).trusted_by(lessor) == old(
                        self,
                    ).trusted_by(lessor).remove(i)
                &&& !final(self).trusted_by(lessor).contains(provider_id@)
                &&& final(self).trusted@.contains_key(lessor)
                &&& final(self).trusted@ == old(self).trusted@.insert(
                    lessor,
                    final(self).trusted@[lessor],
                )
                &&& final(self).trusted@[lessor].auto_accept_new_providers == old(
                    self,
                ).trusted@[lessor].auto_accept_new_providers
            },
            final(self).providers == old(self).providers,
            final(self).registry_count == old(self).registry_count,
            final(self).council == old(self).council,
            final(self).proposals == old(self).proposals,
    {
        match self.trusted.get(&lessor) {
            None => {
                return Err(Sep12Error::NoTrustedProvidersConfigured);
            },
            Some(t) => {
                if position_of(&t.trusted_providers, &provider_id).is_none() {
                    return Err(Sep12Error::ProviderNotInTrustedList);
                }
            },
        }
        let mut list = self.trusted.remove(&lessor).unwrap();
        let p = position_of(&list.trusted_providers, &provider_id).unwrap();
        let ghost before = key_views(list.trusted_providers@);
        list.trusted_providers.remove(p);
        let ghost after = key_views(list.trusted_providers@);
        assert(after =~= before.remove(p as int));
        assert(after.no_duplicates()) by {
            assert forall|a: int, b: int| 0 <= a < b < after.len() implies after[a] != after[b] by {
                if a < p {
                    if b < p {
                        assert(before[a] != before[b]);
                    } else {
                        assert(before[a] != before[b + 1]);
                    }
                } else {
                    assert(before[a + 1] != before[b + 1]);
                }
            }
        }
        assert(!after.contains(provider_id@)) by {
            if after.contains(provider_id@) {
                let k = choose|k: int| 0 <= k < after.len() && after[k] == provider_id@;
                if k < p {
                    assert(before[k] == before[p as int]);
                } else {
                    assert(before[k + 1] == before[p as int]);
                }
            }
        }
        self.trusted.insert(lessor, list);
        Ok(LessorTrustedProviderRemoved { lessor, provider_id, timestamp: now })
    }

    /// A council member suspends a provider that is not revoked, for
    /// `reason`, at `now`.
    pub fn suspend_provider(
        &mut self,
        admin: AccountId,
        provider_id: [u8; 32],
        reason: String,
        now: u64,
    ) -> (r: Result<IdentityProviderSuspended, Sep12Error>)
        requires
            old(self).wf(),
        ensures
            final(self).wf(),
            !old(self).council@.contains(admin) ==> r == Err::<IdentityProviderSuspended, Sep12Error>(
                Sep12Error::NotCouncilMember,
            ),
            old(self).council@.contains(admin) && old(self).provider(provider_id@) is None ==> r
                == Err::<IdentityProviderSuspended, Sep12Error>(Sep12Error::ProviderNotFound),
            old(self).council@.contains(admin) && old(self).provider(provider_id@) is Some && old(
                self,
            ).provider(provider_id@)->Some_0.status == IdentityProviderStatus::Revoked ==> r == Err::<
                IdentityProviderSuspended,
                Sep12Error,
            >(Sep12Error::ProviderAlreadyRevoked),
            r is Err ==> *final(self) == *old(self),
            old(self).council@.contains(admin) && old(self).provider(provider_id@) is Some && old(
                self,
            ).provider(provider_id@)->Some_0.status != IdentityProviderStatus::Revoked ==> {
                let i = provider_index(old(self).providers@, provider_id@);
                let p = old(self).providers@[i];
                &&& r == Ok::<IdentityProviderSuspended, Sep12Error>(
                    IdentityProviderSuspended { provider_id, reason, timestamp: now },
                )
                &&& final(self).providers@ == old(self).providers@.update(
                    i,
                    IdentityProvider {
                        status: IdentityProviderStatus::Suspended,
                        last_updated: now,
                        ..p
                    },
                )
            },
            final(self).registry_count == old(self).registry_count,
            final(self).trusted == old(self).trusted,
            final(self).council == old(self).council,
            final(self).proposals == old(self).proposals,
    {
        match self.require_governance_council(admin) {
            Ok(()) => {},
            Err(e) => {
                return Err(e);
            },
        }
        let i = match self.find(&provider_id) {
            Some(i) => i,
            None => {
                return Err(Sep12Error::ProviderNotFound);
            },
        };
        if self.providers[i].status == IdentityProviderStatus::Revoked {
            return Err(Sep12Error::ProviderAlreadyRevoked);
        }
        self.set_status(i, IdentityProviderStatus::Suspended, now);
        Ok(IdentityProviderSuspended { provider_id, reason, timestamp: now })
    }

    fn set_status(&mut self, i: usize, status: IdentityProviderStatus, now: u64)
        requires
            old(self).wf(),
            i < old(self).providers@.len(),
        ensures
            final(self).wf(),
            final(self).providers@ == old(self).providers@.update(
                i as int,
                IdentityProvider { status, last_updated: now, ..old(self).providers@[i as int] },
            ),
            final(self).registry_count == old(self).registry_count,
            final(self).trusted == old(self).trusted,
            final(self).council == old(self).council,
            final(self).proposals == old(self).proposals,
    {
        let mut p = self.providers.remove(i);
        p.status = status;
        p.last_updated = now;
        self.providers.insert(i, p);
        assert(self.providers@ =~= old(self).providers@.update(i as int, p));
        assert forall|a: int, b: int|
            0 <= a < self.providers@.len() && 0 <= b < self.providers@.len()
                && #[trigger] self.providers@[a].provider_id@ == #[trigger] self.providers@[b].provider_id@
                implies a == b by {
            assert(old(self).providers@[a].provider_id@ == old(self).providers@[b].provider_id@);
        }
    }

    /// A council member proposes at `now` to revoke a registered provider;
    /// the proposal's id is the registry count, and the proposal is
    /// reported.
    pub fn create_revocation_proposal(
        &mut self,
        proposer: AccountId,
        provider_id: [u8; 32],
        reason: String,
        now: u64,
    ) -> (r: Result<RevocationProposalCreated, Sep12Error>)
        requires
            old(self).wf(),
        ensures
            final(self).wf(),
            !old(self).council@.contains(proposer) ==> r == Err::<RevocationProposalCreated, Sep12Error>(
                Sep12Error::NotCouncilMember,
            ),
            old(self).council@.contains(proposer) && old(self).provider(provider_id@) is None ==> r
                == Err::<RevocationProposalCreated, Sep12Error>(Sep12Error::ProviderNotFound),
            r is Err ==> *final(self) == *old(self),
            old(self).council@.contains(proposer) && old(self).provider(provider_id@) is Some ==> {
                let id = old(self).registry_count;
                &&& r == Ok::<RevocationProposalCreated, Sep12Error>(
                    RevocationProposalCreated { proposal_id: id, provider_id, proposer, timestamp: now },
                )
                &&& final(self).proposals@ == old(self).proposals@.insert(
                    id,
                    RevocationProposal {
                        proposal_id: id,
                        provider_id,
                        proposer,
                        reason,
                        votes_for: 0,
                        votes_against: 0,
                        created_at: now,
                        executed: false,
                    },
                )
            },
            final(self).providers == old(self).providers,
            final(self).registry_count == old(self).registry_count,
            final(self).trusted == old(self).trusted,
            final(self).council == old(self).council,
    {
        match self.require_governance_council(proposer) {
            Ok(()) => {},
            Err(e) => {
                return Err(e);
            },
        }
        if self.find(&provider_id).is_none() {
            return Err(Sep12Error::ProviderNotFound);
        }
        let proposal_id = self.registry_count;
        let proposal = RevocationProposal {
            proposal_id,
            provider_id,
            proposer,
            reason,
            votes_for: 0,
            votes_against: 0,
            created_at: now,
            executed: false,
        };
        self.proposals.insert(proposal_id, proposal);
        Ok(RevocationProposalCreated { proposal_id, provider_id, proposer, timestamp: now })
    }

    /// A council member votes on a proposal not yet executed.
    pub fn vote_on_revocation(&mut self, voter: AccountId, proposal_id: u64, vote_for: bool) -> (r:
        Result<(), Sep12Error>)
        requires
            old(self).wf(),
            old(self).proposals@.contains_key(proposal_id) ==> old(self).proposals@[proposal_id].votes_for
                < u32::MAX && old(self).proposals@[proposal_id].votes_against < u32::MAX,
        ensures
            final(self).wf(),
            !old(self).council@.contains(voter) ==> r == Err::<(), Sep12Error>(
                Sep12Error::NotCouncilMember,
            ),
            old(self).council@.contains(voter) && !old(self).proposals@.contains_key(proposal_id)
                ==> r == Err::<(), Sep12Error>(Sep12Error::ProposalNotFound),
            old(self).council@.contains(voter) && old(self).proposals@.contains_key(proposal_id)
                && old(self).proposals@[proposal_id].executed ==> r == Err::<(), Sep12Error>(
                Sep12Error::ProposalAlreadyExecuted,
            ),
            r is Err ==> *final(self) == *old(self),
            old(self).council@.contains(voter) && old(self).proposals@.contains_key(proposal_id)
                && !old(self).proposals@[proposal_id].executed ==> {
                let p = old(self).proposals@[proposal_id];
                &&& r is Ok
                &&& final(self).proposals@ == old(self).proposals@.insert(
                    proposal_id,
                    if vote_for {
                        RevocationProposal { votes_for: (p.votes_for + 1) as u32, ..p }
                    } else {
                        RevocationProposal { votes_against: (p.votes_against + 1) as u32, ..p }
                    },
                )
            },
            final(self).providers == old(self).providers,
            final(self).registry_count == old(self).registry_count,
            final(self).trusted == old(self).trusted,
            final(self).council == old(self).council,
    {
        match self.require_governance_council(voter) {
            Ok(()) => {},
            Err(e) => {
                return Err(e);
            },
        }
        match self.proposals.get(&proposal_id) {
            None => {
                return Err(Sep12Error::ProposalNotFound);
            },
            Some(p) => {
                if p.executed {
                    return Err(Sep12Error::ProposalAlreadyExecuted);
                }
            },
        }
        let mut proposal = self.proposals.remove(&proposal_id).unwrap();
        if vote_for {
            proposal.votes_for = proposal.votes_for + 1;
        } else {
            proposal.votes_against = proposal.votes_against + 1;
        }
        self.proposals.insert(proposal_id, proposal);
        Ok(())
    }

    /// A council member executes a proposal at `now`: with at least three
    /// votes, at least two thirds of them for, the provider is revoked.
    pub fn execute_revocation(&mut self, executor: AccountId, proposal_id: u64, now: u64) -> (r: Result<
        (IdentityProviderRevoked, RevocationProposalExecuted),
        Sep12Error,
    >)
        requires
            old(self).wf(),
            old(self).proposals@.contains_key(proposal_id) ==> {
                let p = old(self).proposals@[proposal_id];
                &&& p.votes_for + p.votes_against <= u32::MAX
            },
        ensures
            final(self).wf(),
            !old(self).council@.contains(executor) ==> r == Err::<(IdentityProviderRevoked, RevocationProposalExecuted), Sep12Error>(
                Sep12Error::NotCouncilMember,
            ),
            old(self).council@.contains(executor) && !old(self).proposals@.contains_key(proposal_id)
                ==> r == Err::<(IdentityProviderRevoked, RevocationProposalExecuted), Sep12Error>(Sep12Error::ProposalNotFound),
            old(self).council@.contains(executor) && old(self).proposals@.contains_key(proposal_id)
                ==> {
                let p = old(self).proposals@[proposal_id];
                &&& p.executed ==> r == Err::<(IdentityProviderRevoked, RevocationProposalExecuted), Sep12Error>(Sep12Error::ProposalAlreadyExecuted)
                &&& !p.executed && !revocation_passes(p.votes_for as int, p.votes_against as int)
                    ==> r == Err::<(IdentityProviderRevoked, RevocationProposalExecuted), Sep12Error>(Sep12Error::InsufficientVotes)
                &&& !p.executed && revocation_passes(p.votes_for as int, p.votes_against as int)
                    && old(self).provider(p.provider_id@) is None ==> r == Err::<(IdentityProviderRevoked, RevocationProposalExecuted), Sep12Error>(
                    Sep12Error::ProviderNotFound,
                )
                &&& !p.executed && revocation_passes(p.votes_for as int, p.votes_against as int)
                    && old(self).provider(p.provider_id@) is Some ==> {
                    let i = provider_index(old(self).providers@, p.provider_id@);
                    &&& r is Ok
                    &&& r->Ok_0.0.provider_id == p.provider_id
                    &&& r->Ok_0.0.reason@ == p.reason@
                    &&& r->Ok_0.0.timestamp == now
                    &&& r->Ok_0.1 == RevocationProposalExecuted {
                        proposal_id,
                        provider_id: p.provider_id,
                        timestamp: now,
                    }
                    &&& final(self).providers@ == old(self).providers@.update(
                        i,
                        IdentityProvider {
                            status: IdentityProviderStatus::Revoked,
                            last_updated: now,
                            ..old(self).providers@[i]
                        },
                    )
                    &&& final(self).proposals@ == old(self).proposals@.insert(
                        proposal_id,
                        RevocationProposal { executed: true, ..p },
                    )
                }
            },
            r is Err ==> *final(self) == *old(self),
            final(self).registry_count == old(self).registry_count,
            final(self).trusted == old(self).trusted,
            final(self).council == old(self).council,
    {
        match self.require_governance_council(executor) {
            Ok(()) => {},
            Err(e) => {
                return Err(e);
            },
        }
        let provider_id = match self.proposals.get(&proposal_id) {
            None => {
                return Err(Sep12Error::ProposalNotFound);
            },
            Some(p) => {
                if p.executed {
                    return Err(Sep12Error::ProposalAlreadyExecuted);
                }
                let total_votes = p.votes_for + p.votes_against;
                if total_votes < MIN_REVOCATION_VOTES || (p.votes_for as u64) * 3 < (total_votes as u64)
                    * 2 {
                    return Err(Sep12Error::InsufficientVotes);
                }
                p.provider_id
            },
        };
        let i = match self.find(&provider_id) {
            Some(i) => i,
            None => {
                return Err(Sep12Error::ProviderNotFound);
            },
        };
        self.set_status(i, IdentityProviderStatus::Revoked, now);
        let mut proposal = self.proposals.remove(&proposal_id).unwrap();
        proposal.executed = true;
        let revoked = IdentityProviderRevoked {
            provider_id,
            reason: proposal.reason.clone(),
            timestamp: now,
        };
        self.proposals.insert(proposal_id, proposal);
        Ok((revoked, RevocationProposalExecuted { proposal_id, provider_id, timestamp: now }))
    }

    /// A council member adds `member` to the council.
    pub fn add_governance_council_member(&mut self, admin: AccountId, member: AccountId) -> (r: Result<
        (),
        Sep12Error,
    >)
        requires
            old(self).wf(),
        ensures
            final(self).wf(),
            !old(self).council@.contains(admin) ==> r == Err::<(), Sep12Error>(
                Sep12Error::NotCouncilMember,
            ) && *final(self) == *old(self),
            old(self).council@.contains(admin) ==> r is Ok && final(self).council@ == old(
                self,
            ).council@.insert(member),
            final(self).providers == old(self).providers,
            final(self).registry_count == old(self).registry_count,
            final(self).trusted == old(self).trusted,
            final(self).proposals == old(self).proposals,
    {
        match self.require_governance_council(admin) {
            Ok(()) => {},
            Err(e) => {
                return Err(e);
            },
        }
        self.council.insert(member);
        Ok(())
    }
}

/// The first position of `id` in `keys`.
fn position_of(keys: &Vec<[u8; 32]>, id: &[u8; 32]) -> (r: Option<usize>)
    ensures
        match r {
            Some(i) => i < keys@.len() && keys@[i as int]@ == id@ && key_views(keys@).contains(id@),
            None => !key_views(keys@).contains(id@),
        },
{
    let mut i: usize = 0;
    while i < keys.len()
        invariant
            0 <= i <= keys@.len(),
            forall|j: int| 0 <= j < i ==> keys@[j]@ != id@,
        decreases keys@.len() - i,
    {
        if crate::accounts::same_key(&keys[i], id) {
            assert(key_views(keys@)[i as int] == id@);
            return Some(i);
        }
        i = i + 1;
    }
    assert forall|j: int| 0 <= j < key_views(keys@).len() implies key_views(keys@)[j] != id@ by {
        assert(keys@[j]@ != id@);
    }
    None
}

} // verus!
