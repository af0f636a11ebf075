//! Lease creation rate limiting.
//!
//! An address may create at most `MAX_CREATIONS_PER_WINDOW` leases per hour
//! and `MAX_CREATIONS_PER_DAY` per day; an address that hits either limit is
//! blocked for one window.
use vstd::prelude::*;
use std::collections::HashMap;
use crate::accounts::AccountId;
use super::Error;

verus! {

broadcast use vstd::std_specs::hash::group_hash_axioms;

/// Length of the short window, in seconds.
pub const CREATION_WINDOW: u64 = 3600;
/// Most creations per window and address.
pub const MAX_CREATIONS_PER_WINDOW: u32 = 10;
/// Most creations per day and address.
pub const MAX_CREATIONS_PER_DAY: u32 = 50;

/// Reported when the block of an address is lifted.
#[derive(Copy, Clone, Debug, Eq, PartialEq, Structural)]
pub struct LeaseCreationRateLimitReset {
    pub address: AccountId,
    pub reset_timestamp: u64,
}

/// Creation history of one address.
#[derive(Debug)]
pub struct CreationTracker {
    pub address: AccountId,
    pub creations_1h: u32,
    pub creations_24h: u32,
    pub creation_timestamps_1h: Vec<u64>,
    pub creation_timestamps_24h: Vec<u64>,
    pub is_rate_limited: bool,
    pub rate_limit_until: Option<u64>,
}

/// The timestamps of `ts` at or after `cutoff`, in order.
pub open spec fn kept_since(ts: Seq<u64>, cutoff: u64) -> Seq<u64>
    decreases ts.len(),
{
    if ts.len() == 0 {
        Seq::empty()
    } else if ts.last() >= cutoff {
        kept_since(ts.drop_last(), cutoff).push(ts.last())
    } else {
        kept_since(ts.drop_last(), cutoff)
    }
}

/// The timestamps kept are never more than the timestamps given.
pub proof fn lemma_kept_since_len(ts: Seq<u64>, cutoff: u64)
    ensures
        kept_since(ts, cutoff).len() <= ts.len(),
    decreases ts.len(),
{
    if ts.len() > 0 {
        lemma_kept_since_len(ts.drop_last(), cutoff);
    }
}

/// Whether `t` is blocked at `now`: a block whose end has come is over.
pub open spec fn block_active(t: CreationTracker, now: u64) -> bool {
    t.is_rate_limited && !(t.rate_limit_until is Some && now >= t.rate_limit_until->Some_0)
}

/// Whether `t` lets its address create a lease at `now`: it is not blocked
/// and, counting only the creations still inside each window, both windows
/// are below their limits.
pub open spec fn creation_allowed(t: CreationTracker, now: u64) -> bool {
    &&& !block_active(t, now)
    &&& kept_since(t.creation_timestamps_1h@, (now - CREATION_WINDOW) as u64).len()
        < MAX_CREATIONS_PER_WINDOW
    &&& kept_since(t.creation_timestamps_24h@, (now - 24 * CREATION_WINDOW) as u64).len()
        < MAX_CREATIONS_PER_DAY
}

fn keep_since(ts: &Vec<u64>, cutoff: u64) -> (r: Vec<u64>)
    ensures
        r@ == kept_since(ts@, cutoff),
{
    let mut kept: Vec<u64> = Vec::new();
    let mut i: usize = 0;
    while i < ts.len()
        invariant
            0 <= i <= ts@.len(),
            kept@ == kept_since(ts@.take(i as int), cutoff),
        decreases ts@.len() - i,
    {
        assert(ts@.take(i as int + 1).drop_last() =~= ts@.take(i as int));
        if ts[i] >= cutoff {
            kept.push(ts[i]);
        }
        i = i + 1;
    }
    assert(ts@.take(ts@.len() as int) =~= ts@);
    kept
}

impl CreationTracker {
    /// The tracker of an address that has created nothing yet.
    pub fn fresh(address: AccountId) -> (r: Self)
        ensures
            r.address == address,
            r.creations_1h == 0,
            r.creations_24h == 0,
            r.creation_timestamps_1h@ == Seq::<u64>::empty(),
            r.creation_timestamps_24h@ == Seq::<u64>::empty(),
            !r.is_rate_limited,
            r.rate_limit_until == None::<u64>,
    {
        CreationTracker {
            address,
            creations_1h: 0,
            creations_24h: 0,
            creation_timestamps_1h: Vec::new(),
            creation_timestamps_24h: Vec::new(),
            is_rate_limited: false,
            rate_limit_until: None,
        }
    }

    /// Whether the address is blocked at `now`. A block whose time has come
    /// is lifted (the tracker is reset) and reported as not blocking.
    pub fn is_rate_limited(&mut self, now: u64) -> (r: bool)
        ensures
            r == block_active(*old(self), now),
            old(self).is_rate_limited && old(self).rate_limit_until is Some && now
                >= old(self).rate_limit_until->Some_0 ==> !final(self).is_rate_limited
                && final(self).rate_limit_until is None,
            !(old(self).is_rate_limited && old(self).rate_limit_until is Some && now
                >= old(self).rate_limit_until->Some_0) ==> final(self).is_rate_limited
                == old(self).is_rate_limited && final(self).rate_limit_until
                == old(self).rate_limit_until,
            final(self).address == old(self).address,
            final(self).creations_1h == old(self).creations_1h,
            final(self).creations_24h == old(self).creations_24h,
            final(self).creation_timestamps_1h@ == old(self).creation_timestamps_1h@,
            final(self).creation_timestamps_24h@ == old(self).creation_timestamps_24h@,
    {
        if !self.is_rate_limited {
            return false;
        }
        match self.rate_limit_until {
            Some(until) => {
                if now >= until {
                    self.reset_rate_limit();
                    return false;
                }
            },
            None => {},
        }
        self.is_rate_limited
    }

    /// Lifts a block.
    pub fn reset_rate_limit(&mut self)
        ensures
            !final(self).is_rate_limited,
            final(self).rate_limit_until is None,
            final(self).address == old(self).address,
            final(self).creations_1h == old(self).creations_1h,
            final(self).creations_24h == old(self).creations_24h,
            final(self).creation_timestamps_1h@ == old(self).creation_timestamps_1h@,
            final(self).creation_timestamps_24h@ == old(self).creation_timestamps_24h@,
    {
        self.is_rate_limited = false;
        self.rate_limit_until = None;
    }

    /// Decides whether the address may create a lease at `now`.
    ///
    /// A blocked address is refused. Otherwise the windows are recounted; an
    /// address at either limit is blocked for one window (and the recounted
    /// history is kept) and refused. An accepted request leaves the history
    /// as it was.
    pub fn check_creation_limits(&mut self, now: u64) -> (r: Result<(), Error>)
        requires
            24 * CREATION_WINDOW <= now <= u64::MAX - CREATION_WINDOW,
            old(self).creation_timestamps_1h@.len() <= u32::MAX,
            old(self).creation_timestamps_24h@.len() <= u32::MAX,
        ensures
            r is Err ==> r == Err::<(), _>(Error::RateLimitExceeded),
            r is Ok <==> creation_allowed(*old(self), now),
            r is Ok ==> final(self).creation_timestamps_1h@ == old(self).creation_timestamps_1h@
                && final(self).creation_timestamps_24h@ == old(self).creation_timestamps_24h@
                && final(self).creations_1h == old(self).creations_1h && final(self).creations_24h
                == old(self).creations_24h && !final(self).is_rate_limited,
            r is Err && !block_active(*old(self), now) ==> final(self).is_rate_limited
                && final(self).rate_limit_until == Some((now + CREATION_WINDOW) as u64)
                && final(self).creation_timestamps_1h@ == kept_since(
                old(self).creation_timestamps_1h@,
                (now - CREATION_WINDOW) as u64,
            ) && final(self).creation_timestamps_24h@ == kept_since(
                old(self).creation_timestamps_24h@,
                (now - 24 * CREATION_WINDOW) as u64,
            ),
            r is Ok && block_expired(*old(self), now) ==> final(self).rate_limit_until is None,
            final(self).address == old(self).address,
    {
        if self.is_rate_limited(now) {
            return Err(Error::RateLimitExceeded);
        }
        let cutoff_1h = now - CREATION_WINDOW;
        let cutoff_24h = now - CREATION_WINDOW * 24;
        let kept_1h = keep_since(&self.creation_timestamps_1h, cutoff_1h);
        let kept_24h = keep_since(&self.creation_timestamps_24h, cutoff_24h);
        if kept_1h.len() >= MAX_CREATIONS_PER_WINDOW as usize || kept_24h.len()
            >= MAX_CREATIONS_PER_DAY as usize {
            proof {
                lemma_kept_since_len(self.creation_timestamps_1h@, cutoff_1h);
                lemma_kept_since_len(self.creation_timestamps_24h@, cutoff_24h);
            }
            self.creations_1h = kept_1h.len() as u32;
            self.creations_24h = kept_24h.len() as u32;
            self.creation_timestamps_1h = kept_1h;
            self.creation_timestamps_24h = kept_24h;
            self.is_rate_limited = true;
            self.rate_limit_until = Some(now + CREATION_WINDOW);
            return Err(Error::RateLimitExceeded);
        }
        Ok(())
    }

    /// Whether the address may create a lease at `now`, without changing
    /// the tracker.
    pub fn allows_creation(&self, now: u64) -> (r: bool)
        requires
            24 * CREATION_WINDOW <= now,
        ensures
            r == creation_allowed(*self, now),
    {
        if self.is_rate_limited {
            let lifted = match self.rate_limit_until {
                Some(until) => now >= until,
                None => false,
            };
            if !lifted {
                return false;
            }
        }
        let kept_1h = keep_since(&self.creation_timestamps_1h, now - CREATION_WINDOW);
        let kept_24h = keep_since(&self.creation_timestamps_24h, now - CREATION_WINDOW * 24);
        kept_1h.len() < MAX_CREATIONS_PER_WINDOW as usize && kept_24h.len()
            < MAX_CREATIONS_PER_DAY as usize
    }

    /// Records a creation at `now` in both windows.
    pub fn record_creation(&mut self, now: u64)
        requires
            old(self).creations_1h < u32::MAX,
            old(self).creations_24h < u32::MAX,
        ensures
            final(self).creation_timestamps_1h@ == old(self).creation_timestamps_1h@.push(now),
            final(self).creation_timestamps_24h@ == old(self).creation_timestamps_24h@.push(now),
            final(self).creations_1h == old(self).creations_1h + 1,
            final(self).creations_24h == old(self).creations_24h + 1,
            final(self).address == old(self).address,
            final(self).is_rate_limited == old(self).is_rate_limited,
            final(self).rate_limit_until == old(self).rate_limit_until,
    {
        self.creation_timestamps_1h.push(now);
        self.creation_timestamps_24h.push(now);
        self.creations_1h = self.creations_1h + 1;
        self.creations_24h = self.creations_24h + 1;
    }

    /// `(creations_1h, creations_24h, is_rate_limited, rate_limit_until)`.
    pub fn get_creation_stats(&self) -> (r: (u32, u32, bool, Option<u64>))
        ensures
            r == (self.creations_1h, self.creations_24h, self.is_rate_limited, self.rate_limit_until),
    {
        (self.creations_1h, self.creations_24h, self.is_rate_limited, self.rate_limit_until)
    }

    /// Drops the creations that left the hour and the day windows and
    /// recounts both windows.
    pub fn cleanup_old_creations(&mut self, now: u64)
        requires
            now >= 24 * CREATION_WINDOW,
            old(self).creation_timestamps_1h@.len() <= u32::MAX,
            old(self).creation_timestamps_24h@.len() <= u32::MAX,
        ensures
            final(self).creation_timestamps_1h@ == kept_since(
                old(self).creation_timestamps_1h@,
                (now - CREATION_WINDOW) as u64,
            ),
            final(self).creation_timestamps_24h@ == kept_since(
                old(self).creation_timestamps_24h@,
                (now - 24 * CREATION_WINDOW) as u64,
            ),
            final(self).creations_1h == final(self).creation_timestamps_1h@.len(),
            final(self).creations_24h == final(self).creation_timestamps_24h@.len(),
            final(self).address == old(self).address,
            final(self).is_rate_limited == old(self).is_rate_limited,
            final(self).rate_limit_until == old(self).rate_limit_until,
    {
        let cutoff_1h = now - CREATION_WINDOW;
        let cutoff_24h = now - CREATION_WINDOW * 24;
        let kept_1h = keep_since(&self.creation_timestamps_1h, cutoff_1h);
        let kept_24h = keep_since(&self.creation_timestamps_24h, cutoff_24h);
        proof {
            lemma_kept_since_len(self.creation_timestamps_1h@, cutoff_1h);
            lemma_kept_since_len(self.creation_timestamps_24h@, cutoff_24h);
        }
        self.creations_1h = kept_1h.len() as u32;
        self.creations_24h = kept_24h.len() as u32;
        self.creation_timestamps_1h = kept_1h;
        self.creation_timestamps_24h = kept_24h;
    }
}

/// `a` and `b` hold the same creation history and block.
pub open spec fn same_tracker(a: CreationTracker, b: CreationTracker) -> bool {
    &&& a.address == b.address
    &&& a.creations_1h == b.creations_1h
    &&& a.creations_24h == b.creations_24h
    &&& a.creation_timestamps_1h@ == b.creation_timestamps_1h@
    &&& a.creation_timestamps_24h@ == b.creation_timestamps_24h@
    &&& a.is_rate_limited == b.is_rate_limited
    &&& a.rate_limit_until == b.rate_limit_until
}

/// `t` is the tracker of an address that has created nothing yet.
pub open spec fn is_fresh(t: CreationTracker, address: AccountId) -> bool {
    &&& t.address == address
    &&& t.creations_1h == 0
    &&& t.creations_24h == 0
    &&& t.creation_timestamps_1h@ == Seq::<u64>::empty()
    &&& t.creation_timestamps_24h@ == Seq::<u64>::empty()
    &&& !t.is_rate_limited
    &&& t.rate_limit_until is None
}

/// Whether the tracker `t` holds a block whose time has come.
pub open spec fn block_expired(t: CreationTracker, now: u64) -> bool {
    t.is_rate_limited && t.rate_limit_until is Some && now >= t.rate_limit_until->Some_0
}

/// Whether the address may create a lease at `now`, given the stored
/// trackers: an address without a tracker always may.
pub open spec fn allowed_for(trackers: Map<AccountId, CreationTracker>, address: AccountId, now: u64) -> bool {
    match trackers.get(address) {
        Some(t) => creation_allowed(t, now),
        None => true,
    }
}

/// The counters of every stored tracker have room for one more creation
/// and its histories fit the counters.
pub open spec fn trackers_have_room(trackers: Map<AccountId, CreationTracker>, address: AccountId) -> bool {
    trackers.get(address) matches Some(t) ==> {
        &&& t.creations_1h < u32::MAX
        &&& t.creations_24h < u32::MAX
        &&& t.creation_timestamps_1h@.len() <= u32::MAX
        &&& t.creation_timestamps_24h@.len() <= u32::MAX
    }
}

fn copy_timestamps(v: &Vec<u64>) -> (r: Vec<u64>)
    ensures
        r@ == v@,
{
    let mut out: Vec<u64> = Vec::new();
    let mut i: usize = 0;
    while i < v.len()
        invariant
            0 <= i <= v@.len(),
            out@ == v@.take(i as int),
        decreases v@.len() - i,
    {
        out.push(v[i]);
        assert(out@ =~= v@.take(i as int + 1));
        i = i + 1;
    }
    assert(v@.take(v@.len() as int) =~= v@);
    out
}

fn copy_tracker(t: &CreationTracker) -> (r: CreationTracker)
    ensures
        same_tracker(r, *t),
{
    CreationTracker {
        address: t.address,
        creations_1h: t.creations_1h,
        creations_24h: t.creations_24h,
        creation_timestamps_1h: copy_timestamps(&t.creation_timestamps_1h),
        creation_timestamps_24h: copy_timestamps(&t.creation_timestamps_24h),
        is_rate_limited: t.is_rate_limited,
        rate_limit_until: t.rate_limit_until,
    }
}

/// The creation trackers of all addresses.
#[derive(Debug)]
pub struct LeaseCreationRateLimit {
    pub trackers: HashMap<AccountId, CreationTracker>,
}

impl LeaseCreationRateLimit {
    /// No tracker yet.
    pub fn new() -> (r: Self)
        ensures
            r.trackers@ == Map::<AccountId, CreationTracker>::empty(),
    {
        LeaseCreationRateLimit { trackers: HashMap::new() }
    }

    /// Whether `address` has a tracker.
    pub fn has_creation_tracker(&self, address: AccountId) -> (r: bool)
        ensures
            r == self.trackers@.contains_key(address),
    {
        self.trackers.contains_key(&address)
    }

    /// The tracker of `address`; a fresh one where none is stored.
    pub fn get_creation_tracker(&self, address: AccountId) -> (r: CreationTracker)
        ensures
            match self.trackers@.get(address) {
                Some(t) => same_tracker(r, t),
                None => is_fresh(r, address),
            },
    {
        match self.trackers.get(&address) {
            Some(t) => copy_tracker(t),
            None => CreationTracker::fresh(address),
        }
    }

    /// Stores `tracker` as the tracker of `address`.
    pub fn save_creation_tracker(&mut self, address: AccountId, tracker: CreationTracker)
        ensures
            final(self).trackers@ == old(self).trackers@.insert(address, tracker),
    {
        self.trackers.insert(address, tracker);
    }

    /// Stores a fresh tracker for `address` unless it has one.
    pub fn initialize_address(&mut self, address: AccountId) -> (r: Result<(), Error>)
        ensures
            r is Ok,
            old(self).trackers@.contains_key(address) ==> final(self).trackers@ == old(
                self,
            ).trackers@,
            !old(self).trackers@.contains_key(address) ==> {
                &&& final(self).trackers@.contains_key(address)
                &&& is_fresh(final(self).trackers@[address], address)
                &&& final(self).trackers@.remove(address) == old(self).trackers@.remove(address)
            },
    {
        if self.trackers.contains_key(&address) {
            return Ok(());
        }
        self.trackers.insert(address, CreationTracker::fresh(address));
        assert(self.trackers@.remove(address) =~= old(self).trackers@.remove(address));
        Ok(())
    }

    /// The tracker of `address` taken out of the store; a fresh one where
    /// none is stored.
    fn take_tracker(&mut self, address: AccountId) -> (r: CreationTracker)
        ensures
            final(self).trackers@ == old(self).trackers@.remove(address),
            match old(self).trackers@.get(address) {
                Some(t) => r == t,
                None => is_fresh(r, address),
            },
    {
        match self.trackers.remove(&address) {
            Some(t) => t,
            None => CreationTracker::fresh(address),
        }
    }

    /// Whether `address` is blocked at `now`; a block whose time has come
    /// is lifted and stored so.
    pub fn is_rate_limited(&mut self, address: AccountId, now: u64) -> (r: bool)
        ensures
            r == (old(self).trackers@.get(address) matches Some(t) && block_active(t, now)),
            old(self).trackers@.get(address) matches Some(t) && block_expired(t, now) ==> {
                let t = old(self).trackers@[address];
                &&& final(self).trackers@.contains_key(address)
                &&& !final(self).trackers@[address].is_rate_limited
                &&& final(self).trackers@[address].rate_limit_until is None
                &&& final(self).trackers@[address].creation_timestamps_1h@
                    == t.creation_timestamps_1h@
                &&& final(self).trackers@[address].creation_timestamps_24h@
                    == t.creation_timestamps_24h@
                &&& final(self).trackers@.remove(address) == old(self).trackers@.remove(address)
            },
            !(old(self).trackers@.get(address) matches Some(t) && block_expired(t, now))
                ==> final(self).trackers@ == old(self).trackers@,
    {
        match self.trackers.get(&address) {
            None => {
                return false;
            },
            Some(t) => {
                if !t.is_rate_limited {
                    return false;
                }
                match t.rate_limit_until {
                    Some(until) => {
                        if now < until {
                            return true;
                        }
                    },
                    None => {
                        return true;
                    },
                }
            },
        }
        let mut t = self.take_tracker(address);
        t.reset_rate_limit();
        self.trackers.insert(address, t);
        assert(self.trackers@.remove(address) =~= old(self).trackers@.remove(address));
        false
    }

    /// Lifts the block of `address` at `now`, storing its tracker (a fresh
    /// one where none was stored).
    pub fn reset_rate_limit(&mut self, address: AccountId, now: u64) -> (r: Result<
        LeaseCreationRateLimitReset,
        Error,
    >)
        ensures
            r == Ok::<LeaseCreationRateLimitReset, Error>(
                LeaseCreationRateLimitReset { address, reset_timestamp: now },
            ),
            final(self).trackers@.contains_key(address),
            !final(self).trackers@[address].is_rate_limited,
            final(self).trackers@[address].rate_limit_until is None,
            match old(self).trackers@.get(address) {
                Some(t) => final(self).trackers@[address].creation_timestamps_1h@
                    == t.creation_timestamps_1h@ && final(self).trackers@[address].creation_timestamps_24h@
                    == t.creation_timestamps_24h@ && final(self).trackers@[address].creations_1h
                    == t.creations_1h && final(self).trackers@[address].creations_24h
                    == t.creations_24h,
                None => is_fresh(final(self).trackers@[address], address),
            },
            final(self).trackers@.remove(address) == old(self).trackers@.remove(address),
    {
        let mut t = self.take_tracker(address);
        t.reset_rate_limit();
        self.trackers.insert(address, t);
        assert(self.trackers@.remove(address) =~= old(self).trackers@.remove(address));
        Ok(LeaseCreationRateLimitReset { address, reset_timestamp: now })
    }

    /// Decides whether `address` may create a lease at `now`. A block
    /// whose time has come is lifted; an address at either limit is
    /// blocked for one window, with its history recounted.
    pub fn check_creation_limits(&mut self, address: AccountId, now: u64) -> (r: Result<(), Error>)
        requires
            24 * CREATION_WINDOW <= now <= u64::MAX - CREATION_WINDOW,
            trackers_have_room(old(self).trackers@, address),
        ensures
            r is Err ==> r == Err::<(), Error>(Error::RateLimitExceeded),
            r is Ok <==> allowed_for(old(self).trackers@, address, now),
            final(self).trackers@.remove(address) == old(self).trackers@.remove(address),
            r is Ok && !(old(self).trackers@.get(address) matches Some(t) && block_expired(t, now))
                ==> final(self).trackers@ == old(self).trackers@,
            r is Ok && (old(self).trackers@.get(address) matches Some(t) && block_expired(t, now))
                ==> {
                let t = old(self).trackers@[address];
                &&& final(self).trackers@.contains_key(address)
                &&& !final(self).trackers@[address].is_rate_limited
                &&& final(self).trackers@[address].rate_limit_until is None
                &&& final(self).trackers@[address].creation_timestamps_1h@
                    == t.creation_timestamps_1h@
                &&& final(self).trackers@[address].creation_timestamps_24h@
                    == t.creation_timestamps_24h@
            },
            r is Err && (old(self).trackers@.get(address) matches Some(t) && !block_active(t, now))
                ==> {
                let t = old(self).trackers@[address];
                &&& final(self).trackers@.contains_key(address)
                &&& final(self).trackers@[address].is_rate_limited
                &&& final(self).trackers@[address].rate_limit_until == Some(
                    (now + CREATION_WINDOW) as u64,
                )
                &&& final(self).trackers@[address].creation_timestamps_1h@ == kept_since(
                    t.creation_timestamps_1h@,
                    (now - CREATION_WINDOW) as u64,
                )
                &&& final(self).trackers@[address].creation_timestamps_24h@ == kept_since(
                    t.creation_timestamps_24h@,
                    (now - 24 * CREATION_WINDOW) as u64,
                )
            },
    {
        match self.trackers.get(&address) {
            None => {
                return Ok(());
            },
            Some(t) => {
                let expired = match t.rate_limit_until {
                    Some(until) => t.is_rate_limited && now >= until,
                    None => false,
                };
                if !expired && t.allows_creation(now) {
                    return Ok(());
                }
            },
        }
        let mut t = self.take_tracker(address);
        let r = t.check_creation_limits(now);
        self.trackers.insert(address, t);
        assert(self.trackers@.remove(address) =~= old(self).trackers@.remove(address));
        r
    }

    /// Records a creation by `address` at `now`.
    pub fn record_creation(&mut self, address: AccountId, now: u64) -> (r: Result<(), Error>)
        requires
            trackers_have_room(old(self).trackers@, address),
        ensures
            r is Ok,
            final(self).trackers@.contains_key(address),
            final(self).trackers@.remove(address) == old(self).trackers@.remove(address),
            match old(self).trackers@.get(address) {
                Some(t) => {
                    let n = final(self).trackers@[address];
                    &&& n.creation_timestamps_1h@ == t.creation_timestamps_1h@.push(now)
                    &&& n.creation_timestamps_24h@ == t.creation_timestamps_24h@.push(now)
                    &&& n.creations_1h == t.creations_1h + 1
                    &&& n.creations_24h == t.creations_24h + 1
                    &&& n.is_rate_limited == t.is_rate_limited
                    &&& n.rate_limit_until == t.rate_limit_until
                },
                None => {
                    let n = final(self).trackers@[address];
                    &&& n.creation_timestamps_1h@ == seq![now]
                    &&& n.creation_timestamps_24h@ == seq![now]
                    &&& n.creations_1h == 1
                    &&& n.creations_24h == 1
                    &&& !n.is_rate_limited
                    &&& n.rate_limit_until is None
                },
            },
    {
        let mut t = self.take_tracker(address);
        t.record_creation(now);
        self.trackers.insert(address, t);
        assert(self.trackers@.remove(address) =~= old(self).trackers@.remove(address));
        Ok(())
    }

    /// `(creations_1h, creations_24h, is_rate_limited, rate_limit_until)`
    /// of `address` (zeros for an address without a tracker).
    pub fn get_creation_stats(&self, address: AccountId) -> (r: Result<(u32, u32, bool, Option<u64>), Error>)
        ensures
            r == Ok::<(u32, u32, bool, Option<u64>), Error>(
                match self.trackers@.get(address) {
                    Some(t) => (t.creations_1h, t.creations_24h, t.is_rate_limited, t.rate_limit_until),
                    None => (0u32, 0u32, false, None::<u64>),
                },
            ),
    {
        match self.trackers.get(&address) {
            Some(t) => Ok(t.get_creation_stats()),
            None => Ok((0, 0, false, None)),
        }
    }
}

} // verus!
