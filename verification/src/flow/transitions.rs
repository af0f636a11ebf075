//! The lease state machine with transition metrics.
//!
//! A lease is created `Pending`, becomes `Active` once its deposit is paid,
//! may move on to `Eviction`, `Defaulted` or `Disputed`, and ends `Closed`.
//! Every transition is reported as a `StateTransitionEvent` and counted in
//! the `TransitionMetrics`, whose total is always the sum of its counters.
use vstd::prelude::*;
use std::collections::HashMap;
use crate::accounts::AccountId;

verus! {

broadcast use vstd::std_specs::hash::group_hash_axioms;

/// Every state a lease can occupy.
#[derive(Copy, Clone, Debug, Eq, PartialEq, Structural)]
pub enum LeaseState {
    /// Created; waiting for the tenant's deposit.
    Pending,
    /// Deposit received; rent is streaming.
    Active,
    /// Funds exhausted before the end date; eviction started.
    Eviction,
    /// The tenant did not return the asset in time.
    Defaulted,
    /// The landlord disputes the condition of the returned asset.
    Disputed,
    /// Settled and closed.
    Closed,
}

/// Why a transition happened.
#[derive(Copy, Clone, Debug, Eq, PartialEq, Structural)]
pub enum TransitionReason {
    Created,
    Activated,
    Eviction,
    Defaulted,
    Disputed,
    Closed,
}

/// A lease record.
#[derive(Clone, Debug)]
pub struct Lease {
    pub lease_id: u64,
    pub landlord: AccountId,
    pub tenant: AccountId,
    pub rent_amount: i128,
    pub deposit_amount: i128,
    pub start_date: u64,
    pub end_date: u64,
    pub property_uri: String,
    pub status: LeaseState,
    /// Rent streamed so far.
    pub streamed_amount: i128,
    /// Deposit actually paid by the tenant.
    pub deposit_paid: i128,
    /// Ledger sequence of creation.
    pub created_at: u64,
    /// Ledger sequence of the last update.
    pub updated_at: u64,
}

/// What is reported on every transition.
#[derive(Copy, Clone, Debug, Eq, PartialEq, Structural)]
pub struct StateTransitionEvent {
    pub lease_id: u64,
    pub from_state: LeaseState,
    pub to_state: LeaseState,
    /// Ledger sequence of the transition.
    pub timestamp: u64,
    /// Who triggered it.
    pub actor: AccountId,
    pub reason: TransitionReason,
}

/// Per-transition counters.
#[derive(Copy, Clone, Debug, Default, Eq, PartialEq, Structural)]
pub struct TransitionMetrics {
    pub total_transitions: u32,
    pub pending_to_active: u32,
    pub active_to_eviction: u32,
    pub active_to_defaulted: u32,
    pub active_to_disputed: u32,
    pub active_to_closed: u32,
    pub eviction_to_closed: u32,
    pub disputed_to_closed: u32,
    pub defaulted_to_closed: u32,
}

/// The sum of the per-transition counters.
pub open spec fn counted(m: TransitionMetrics) -> int {
    m.pending_to_active + m.active_to_eviction + m.active_to_defaulted + m.active_to_disputed
        + m.active_to_closed + m.eviction_to_closed + m.disputed_to_closed + m.defaulted_to_closed
}

/// The transitions of the state machine.
pub open spec fn allowed_transition(from: LeaseState, to: LeaseState) -> bool {
    match (from, to) {
        (LeaseState::Pending, LeaseState::Active) => true,
        (LeaseState::Active, LeaseState::Eviction) => true,
        (LeaseState::Active, LeaseState::Defaulted) => true,
        (LeaseState::Eviction, LeaseState::Defaulted) => true,
        (LeaseState::Active, LeaseState::Disputed) => true,
        (LeaseState::Active, LeaseState::Closed) => true,
        (LeaseState::Eviction, LeaseState::Closed) => true,
        (LeaseState::Disputed, LeaseState::Closed) => true,
        (LeaseState::Defaulted, LeaseState::Closed) => true,
        _ => false,
    }
}

/// Whether a lease in `status` may be closed.
pub open spec fn closable(status: LeaseState) -> bool {
    status == LeaseState::Active || status == LeaseState::Eviction || status
        == LeaseState::Disputed || status == LeaseState::Defaulted
}

/// `lease` moved to `to` at ledger sequence `now`.
pub open spec fn moved(lease: Lease, to: LeaseState, now: u64) -> Lease {
    Lease { status: to, updated_at: now, ..lease }
}

/// `m` after a transition out of `from` into `to` was counted.
pub open spec fn counted_transition(m: TransitionMetrics, from: LeaseState, to: LeaseState) -> TransitionMetrics {
    let m1 = TransitionMetrics { total_transitions: (m.total_transitions + 1) as u32, ..m };
    match (from, to) {
        (LeaseState::Pending, LeaseState::Active) => TransitionMetrics {
            pending_to_active: (m.pending_to_active + 1) as u32,
            ..m1
        },
        (_, LeaseState::Eviction) => TransitionMetrics {
            active_to_eviction: (m.active_to_eviction + 1) as u32,
            ..m1
        },
        (_, LeaseState::Defaulted) => TransitionMetrics {
            active_to_defaulted: (m.active_to_defaulted + 1) as u32,
            ..m1
        },
        (_, LeaseState::Disputed) => TransitionMetrics {
            active_to_disputed: (m.active_to_disputed + 1) as u32,
            ..m1
        },
        (LeaseState::Active, LeaseState::Closed) => TransitionMetrics {
            active_to_closed: (m.active_to_closed + 1) as u32,
            ..m1
        },
        (LeaseState::Eviction, LeaseState::Closed) => TransitionMetrics {
            eviction_to_closed: (m.eviction_to_closed + 1) as u32,
            ..m1
        },
        (LeaseState::Disputed, LeaseState::Closed) => TransitionMetrics {
            disputed_to_closed: (m.disputed_to_closed + 1) as u32,
            ..m1
        },
        (LeaseState::Defaulted, LeaseState::Closed) => TransitionMetrics {
            defaulted_to_closed: (m.defaulted_to_closed + 1) as u32,
            ..m1
        },
        _ => m1,
    }
}

/// The event reporting a transition of lease `id` at `now`.
pub open spec fn transition_event(
    id: u64,
    from: LeaseState,
    to: LeaseState,
    now: u64,
    actor: AccountId,
    reason: TransitionReason,
) -> StateTransitionEvent {
    StateTransitionEvent { lease_id: id, from_state: from, to_state: to, timestamp: now, actor, reason }
}

/// The contract state: the leases, the lease counter and the metrics.
#[derive(Debug)]
pub struct LeaseFlowContract {
    pub leases: HashMap<u64, Lease>,
    pub lease_counter: u64,
    pub metrics: TransitionMetrics,
}

impl LeaseFlowContract {
    /// Leases are stored under their ids, which run from 1 to the counter,
    /// and the metrics' total is the sum of their counters.
    pub open spec fn wf(&self) -> bool {
        &&& forall|id: u64| #[trigger]
            self.leases@.contains_key(id) <==> 1 <= id <= self.lease_counter
        &&& forall|id: u64| #[trigger]
            self.leases@.contains_key(id) ==> self.leases@[id].lease_id == id
        &&& self.metrics.total_transitions == counted(self.metrics)
    }

    /// The lease stored under `id`.
    pub open spec fn lease(&self, id: u64) -> Lease {
        self.leases@[id]
    }

    /// Whether a lease is stored under `id`.
    pub open spec fn has_lease(&self, id: u64) -> bool {
        self.leases@.contains_key(id)
    }

    /// A contract with no lease and all counters at zero.
    pub fn new() -> (r: Self)
        ensures
            r.wf(),
            r.leases@ == Map::<u64, Lease>::empty(),
            r.lease_counter == 0,
            r.metrics == (TransitionMetrics {
                total_transitions: 0,
                pending_to_active: 0,
                active_to_eviction: 0,
                active_to_defaulted: 0,
                active_to_disputed: 0,
                active_to_closed: 0,
                eviction_to_closed: 0,
                disputed_to_closed: 0,
                defaulted_to_closed: 0,
            }),
    {
        LeaseFlowContract {
            leases: HashMap::new(),
            lease_counter: 0,
            metrics: TransitionMetrics {
                total_transitions: 0,
                pending_to_active: 0,
                active_to_eviction: 0,
                active_to_defaulted: 0,
                active_to_disputed: 0,
                active_to_closed: 0,
                eviction_to_closed: 0,
                disputed_to_closed: 0,
                defaulted_to_closed: 0,
            },
        }
    }

    /// Moves lease `id` to `to` at `now` and counts the transition.
    fn transition(&mut self, id: u64, to: LeaseState, now: u64)
        requires
            old(self).wf(),
            old(self).has_lease(id),
            allowed_transition(old(self).lease(id).status, to),
            old(self).metrics.total_transitions < u32::MAX,
        ensures
            final(self).wf(),
            final(self).leases@ == old(self).leases@.insert(id, moved(old(self).lease(id), to, now)),
            final(self).lease_counter == old(self).lease_counter,
            final(self).metrics == counted_transition(old(self).metrics, old(self).lease(id).status, to),
    {
        let mut lease = self.leases.remove(&id).unwrap();
        let from = lease.status;
        lease.status = to;
        lease.updated_at = now;
        self.leases.insert(id, lease);
        self.metrics.total_transitions = self.metrics.total_transitions + 1;
        match (from, to) {
            (LeaseState::Pending, LeaseState::Active) => {
                self.metrics.pending_to_active = self.metrics.pending_to_active + 1;
            },
            (_, LeaseState::Eviction) => {
                self.metrics.active_to_eviction = self.metrics.active_to_eviction + 1;
            },
            (_, LeaseState::Defaulted) => {
                self.metrics.active_to_defaulted = self.metrics.active_to_defaulted + 1;
            },
            (_, LeaseState::Disputed) => {
                self.metrics.active_to_disputed = self.metrics.active_to_disputed + 1;
            },
            (LeaseState::Active, LeaseState::Closed) => {
                self.metrics.active_to_closed = self.metrics.active_to_closed + 1;
            },
            (LeaseState::Eviction, LeaseState::Closed) => {
                self.metrics.eviction_to_closed = self.metrics.eviction_to_closed + 1;
            },
            (LeaseState::Disputed, LeaseState::Closed) => {
                self.metrics.disputed_to_closed = self.metrics.disputed_to_closed + 1;
            },
            (LeaseState::Defaulted, LeaseState::Closed) => {
                self.metrics.defaulted_to_closed = self.metrics.defaulted_to_closed + 1;
            },
            _ => {},
        }
    }

    /// The landlord creates a pending lease at ledger sequence `now`; its id
    /// is returned with the event reporting the creation, from `Pending` to
    /// `Pending`. Creation is not counted as a transition.
    pub fn create_lease(
        &mut self,
        landlord: AccountId,
        tenant: AccountId,
        rent_amount: i128,
        deposit_amount: i128,
        start_date: u64,
        end_date: u64,
        property_uri: String,
        now: u64,
    ) -> (r: (u64, StateTransitionEvent))
        requires
            old(self).wf(),
            old(self).lease_counter < u64::MAX,
        ensures
            ({
                let id = r.0;
                &&& id == old(self).lease_counter + 1
                &&& r.1 == transition_event(
                    id,
                    LeaseState::Pending,
                    LeaseState::Pending,
                    now,
                    landlord,
                    TransitionReason::Created,
                )
            }),
            final(self).wf(),
            final(self).lease_counter == r.0,
            final(self).leases@ == old(self).leases@.insert(
                r.0,
                Lease {
                    lease_id: r.0,
                    landlord,
                    tenant,
                    rent_amount,
                    deposit_amount,
                    start_date,
                    end_date,
                    property_uri,
                    status: LeaseState::Pending,
                    streamed_amount: 0,
                    deposit_paid: 0,
                    created_at: now,
                    updated_at: now,
                },
            ),
            final(self).metrics == old(self).metrics,
    {
        let lease_id = self.lease_counter + 1;
        self.lease_counter = lease_id;
        let lease = Lease {
            lease_id,
            landlord,
            tenant,
            rent_amount,
            deposit_amount,
            start_date,
            end_date,
            property_uri,
            status: LeaseState::Pending,
            streamed_amount: 0,
            deposit_paid: 0,
            created_at: now,
            updated_at: now,
        };
        self.leases.insert(lease_id, lease);
        (
            lease_id,
            StateTransitionEvent {
                lease_id,
                from_state: LeaseState::Pending,
                to_state: LeaseState::Pending,
                timestamp: now,
                actor: landlord,
                reason: TransitionReason::Created,
            },
        )
    }

    /// The tenant pays `deposit`, at least the lease's deposit, and the
    /// pending lease becomes active.
    pub fn activate_lease(&mut self, lease_id: u64, tenant: AccountId, deposit: i128, now: u64) -> (ev:
        StateTransitionEvent)
        requires
            old(self).wf(),
            old(self).has_lease(lease_id),
            old(self).lease(lease_id).status == LeaseState::Pending,
            deposit >= old(self).lease(lease_id).deposit_amount,
            old(self).metrics.total_transitions < u32::MAX,
        ensures
            final(self).wf(),
            final(self).leases@ == old(self).leases@.insert(
                lease_id,
                Lease { deposit_paid: deposit, ..moved(old(self).lease(lease_id), LeaseState::Active, now) },
            ),
            final(self).lease_counter == old(self).lease_counter,
            final(self).metrics == counted_transition(
                old(self).metrics,
                LeaseState::Pending,
                LeaseState::Active,
            ),
            ev == transition_event(
                lease_id,
                LeaseState::Pending,
                LeaseState::Active,
                now,
                tenant,
                TransitionReason::Activated,
            ),
    {
        self.transition(lease_id, LeaseState::Active, now);
        let mut lease = self.leases.remove(&lease_id).unwrap();
        lease.deposit_paid = deposit;
        self.leases.insert(lease_id, lease);
        StateTransitionEvent {
            lease_id,
            from_state: LeaseState::Pending,
            to_state: LeaseState::Active,
            timestamp: now,
            actor: tenant,
            reason: TransitionReason::Activated,
        }
    }

    /// The landlord starts the eviction of an active lease.
    pub fn trigger_eviction(&mut self, lease_id: u64, landlord: AccountId, now: u64) -> (ev:
        StateTransitionEvent)
        requires
            old(self).wf(),
            old(self).has_lease(lease_id),
            old(self).lease(lease_id).status == LeaseState::Active,
            old(self).lease(lease_id).landlord == landlord,
            old(self).metrics.total_transitions < u32::MAX,
        ensures
            final(self).wf(),
            final(self).leases@ == old(self).leases@.insert(
                lease_id,
                moved(old(self).lease(lease_id), LeaseState::Eviction, now),
            ),
            final(self).lease_counter == old(self).lease_counter,
            final(self).metrics == counted_transition(
                old(self).metrics,
                LeaseState::Active,
                LeaseState::Eviction,
            ),
            ev == transition_event(
                lease_id,
                LeaseState::Active,
                LeaseState::Eviction,
                now,
                landlord,
                TransitionReason::Eviction,
            ),
    {
        self.transition(lease_id, LeaseState::Eviction, now);
        StateTransitionEvent {
            lease_id,
            from_state: LeaseState::Active,
            to_state: LeaseState::Eviction,
            timestamp: now,
            actor: landlord,
            reason: TransitionReason::Eviction,
        }
    }

    /// The landlord marks an active or evicted lease defaulted.
    pub fn mark_defaulted(&mut self, lease_id: u64, landlord: AccountId, now: u64) -> (ev:
        StateTransitionEvent)
        requires
            old(self).wf(),
            old(self).has_lease(lease_id),
            old(self).lease(lease_id).status == LeaseState::Active || old(self).lease(
                lease_id,
            ).status == LeaseState::Eviction,
            old(self).lease(lease_id).landlord == landlord,
            old(self).metrics.total_transitions < u32::MAX,
        ensures
            final(self).wf(),
            final(self).leases@ == old(self).leases@.insert(
                lease_id,
                moved(old(self).lease(lease_id), LeaseState::Defaulted, now),
            ),
            final(self).lease_counter == old(self).lease_counter,
            final(self).metrics == counted_transition(
                old(self).metrics,
                old(self).lease(lease_id).status,
                LeaseState::Defaulted,
            ),
            ev == transition_event(
                lease_id,
                old(self).lease(lease_id).status,
                LeaseState::Defaulted,
                now,
                landlord,
                TransitionReason::Defaulted,
            ),
    {
        let prev = match self.leases.get(&lease_id) {
            Some(l) => l.status,
            None => LeaseState::Pending,
        };
        self.transition(lease_id, LeaseState::Defaulted, now);
        StateTransitionEvent {
            lease_id,
            from_state: prev,
            to_state: LeaseState::Defaulted,
            timestamp: now,
            actor: landlord,
            reason: TransitionReason::Defaulted,
        }
    }

    /// The landlord disputes the asset's return on an active lease.
    pub fn raise_dispute(&mut self, lease_id: u64, landlord: AccountId, now: u64) -> (ev:
        StateTransitionEvent)
        requires
            old(self).wf(),
            old(self).has_lease(lease_id),
            old(self).lease(lease_id).status == LeaseState::Active,
            old(self).lease(lease_id).landlord == landlord,
            old(self).metrics.total_transitions < u32::MAX,
        ensures
            final(self).wf(),
            final(self).leases@ == old(self).leases@.insert(
                lease_id,
                moved(old(self).lease(lease_id), LeaseState::Disputed, now),
            ),
            final(self).lease_counter == old(self).lease_counter,
            final(self).metrics == counted_transition(
                old(self).metrics,
                LeaseState::Active,
                LeaseState::Disputed,
            ),
            ev == transition_event(
                lease_id,
                LeaseState::Active,
                LeaseState::Disputed,
                now,
                landlord,
                TransitionReason::Disputed,
            ),
    {
        self.transition(lease_id, LeaseState::Disputed, now);
        StateTransitionEvent {
            lease_id,
            from_state: LeaseState::Active,
            to_state: LeaseState::Disputed,
            timestamp: now,
            actor: landlord,
            reason: TransitionReason::Disputed,
        }
    }

    /// `actor` closes a lease that is active, evicted, disputed or
    /// defaulted.
    pub fn close_lease(&mut self, lease_id: u64, actor: AccountId, now: u64) -> (ev:
        StateTransitionEvent)
        requires
            old(self).wf(),
            old(self).has_lease(lease_id),
            closable(old(self).lease(lease_id).status),
            old(self).metrics.total_transitions < u32::MAX,
        ensures
            final(self).wf(),
            final(self).leases@ == old(self).leases@.insert(
                lease_id,
                moved(old(self).lease(lease_id), LeaseState::Closed, now),
            ),
            final(self).lease_counter == old(self).lease_counter,
            final(self).metrics == counted_transition(
                old(self).metrics,
                old(self).lease(lease_id).status,
                LeaseState::Closed,
            ),
            ev == transition_event(
                lease_id,
                old(self).lease(lease_id).status,
                LeaseState::Closed,
                now,
                actor,
                TransitionReason::Closed,
            ),
    {
        let prev = match self.leases.get(&lease_id) {
            Some(l) => l.status,
            None => LeaseState::Pending,
        };
        self.transition(lease_id, LeaseState::Closed, now);
        StateTransitionEvent {
            lease_id,
            from_state: prev,
            to_state: LeaseState::Closed,
            timestamp: now,
            actor,
            reason: TransitionReason::Closed,
        }
    }

    /// The landlord advances the rent stream of an active lease by `amount`
    /// at `now`; once the stream reaches the deposit paid, eviction starts
    /// and is reported.
    pub fn stream_rent(&mut self, lease_id: u64, landlord: AccountId, amount: i128, now: u64) -> (ev:
        Option<StateTransitionEvent>)
        requires
            old(self).wf(),
            old(self).has_lease(lease_id),
            old(self).lease(lease_id).status == LeaseState::Active,
            old(self).lease(lease_id).landlord == landlord,
            crate::rent_escalation::fits_i128(old(self).lease(lease_id).streamed_amount + amount),
            old(self).lease(lease_id).streamed_amount + amount >= old(self).lease(
                lease_id,
            ).deposit_paid ==> old(self).metrics.total_transitions < u32::MAX,
        ensures
            final(self).wf(),
            final(self).lease_counter == old(self).lease_counter,
            ({
                let l = old(self).lease(lease_id);
                let streamed = Lease {
                    streamed_amount: (l.streamed_amount + amount) as i128,
                    updated_at: now,
                    ..l
                };
                if l.streamed_amount + amount >= l.deposit_paid {
                    &&& final(self).leases@ == old(self).leases@.insert(
                        lease_id,
                        moved(streamed, LeaseState::Eviction, now),
                    )
                    &&& final(self).metrics == counted_transition(
                        old(self).metrics,
                        LeaseState::Active,
                        LeaseState::Eviction,
                    )
                    &&& ev == Some(
                        transition_event(
                            lease_id,
                            LeaseState::Active,
                            LeaseState::Eviction,
                            now,
                            landlord,
                            TransitionReason::Eviction,
                        ),
                    )
                } else {
                    &&& final(self).leases@ == old(self).leases@.insert(lease_id, streamed)
                    &&& final(self).metrics == old(self).metrics
                    &&& ev is None
                }
            }),
    {
        let mut lease = self.leases.remove(&lease_id).unwrap();
        lease.streamed_amount = lease.streamed_amount + amount;
        lease.updated_at = now;
        let exhausted = lease.streamed_amount >= lease.deposit_paid;
        self.leases.insert(lease_id, lease);
        if exhausted {
            self.transition(lease_id, LeaseState::Eviction, now);
            Some(
                StateTransitionEvent {
                    lease_id,
                    from_state: LeaseState::Active,
                    to_state: LeaseState::Eviction,
                    timestamp: now,
                    actor: landlord,
                    reason: TransitionReason::Eviction,
                },
            )
        } else {
            None
        }
    }

    /// The lease stored under `lease_id`.
    pub fn get_lease(&self, lease_id: u64) -> (r: &Lease)
        requires
            self.has_lease(lease_id),
        ensures
            *r == self.lease(lease_id),
    {
        self.leases.get(&lease_id).unwrap()
    }

    /// The transition metrics.
    pub fn get_metrics(&self) -> (r: TransitionMetrics)
        ensures
            r == self.metrics,
    {
        self.metrics
    }

    /// The number of leases ever created.
    pub fn get_lease_count(&self) -> (r: u64)
        ensures
            r == self.lease_counter,
    {
        self.lease_counter
    }
}

} // verus!

verus! {

/// Counting an allowed transition adds one to the total and one to exactly
/// one counter, so the total stays the sum of the counters.
pub proof fn lemma_counting_keeps_total(m: TransitionMetrics, from: LeaseState, to: LeaseState)
    requires
        m.total_transitions == counted(m),
        m.total_transitions < u32::MAX,
        allowed_transition(from, to),
    ensures
        counted_transition(m, from, to).total_transitions == m.total_transitions + 1,
        counted(counted_transition(m, from, to)) == counted(m) + 1,
{
}

/// No transition leaves a closed lease, and none re-enters `Pending`.
pub proof fn lemma_closed_is_final(to: LeaseState, from: LeaseState)
    ensures
        !allowed_transition(LeaseState::Closed, to),
        !allowed_transition(from, LeaseState::Pending),
{
}

} // verus!
