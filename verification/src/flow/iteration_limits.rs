//! Bounded iteration limits for the lease-flow contract.
//!
//! Every loop over on-chain lease history is held to a fixed bound so that
//! no call can exhaust its budget.
use vstd::prelude::*;

verus! {

/// Most leases of one user iterated in one call.
pub const MAX_USER_LEASES_ITERATIONS: u32 = 100;
/// Most active leases iterated in one call.
pub const MAX_ACTIVE_LEASES_ITERATIONS: u32 = 200;
/// Most operations in one batch.
pub const MAX_BATCH_OPERATIONS: u32 = 50;
/// Most lease ids kept on one credit record.
pub const MAX_ASSOCIATED_LEASE_IDS: u32 = 50;
/// Most entries kept on one credit record.
pub const MAX_CREDIT_RECORD_ENTRIES: u32 = 100;

/// The limits in force.
#[derive(Clone, Copy, Debug, PartialEq, Eq, Structural)]
pub struct IterationLimits {
    pub max_user_leases: u32,
    pub max_active_leases: u32,
    pub max_batch_operations: u32,
    pub max_associated_lease_ids: u32,
    pub max_credit_record_entries: u32,
}

/// A collection exceeded its limit.
#[derive(Clone, Copy, Debug, PartialEq, Eq, Structural)]
pub enum IterationLimitError {
    UserLeasesLimitExceeded,
    ActiveLeasesLimitExceeded,
    BatchOperationsLimitExceeded,
    AssociatedLeaseIdsLimitExceeded,
    CreditRecordLimitExceeded,
    InvalidIterationLimit,
}

/// The contract error code of each iteration-limit error.
pub open spec fn iteration_error_code(e: IterationLimitError) -> u32 {
    match e {
        IterationLimitError::UserLeasesLimitExceeded => 1001,
        IterationLimitError::ActiveLeasesLimitExceeded => 1002,
        IterationLimitError::BatchOperationsLimitExceeded => 1003,
        IterationLimitError::AssociatedLeaseIdsLimitExceeded => 1004,
        IterationLimitError::CreditRecordLimitExceeded => 1005,
        IterationLimitError::InvalidIterationLimit => 1006,
    }
}

impl IterationLimitError {
    /// The contract error code.
    pub fn code(&self) -> (c: u32)
        ensures
            c == iteration_error_code(*self),
    {
        match self {
            IterationLimitError::UserLeasesLimitExceeded => 1001,
            IterationLimitError::ActiveLeasesLimitExceeded => 1002,
            IterationLimitError::BatchOperationsLimitExceeded => 1003,
            IterationLimitError::AssociatedLeaseIdsLimitExceeded => 1004,
            IterationLimitError::CreditRecordLimitExceeded => 1005,
            IterationLimitError::InvalidIterationLimit => 1006,
        }
    }
}

/// The default limits.
pub open spec fn default_limits() -> IterationLimits {
    IterationLimits {
        max_user_leases: MAX_USER_LEASES_ITERATIONS,
        max_active_leases: MAX_ACTIVE_LEASES_ITERATIONS,
        max_batch_operations: MAX_BATCH_OPERATIONS,
        max_associated_lease_ids: MAX_ASSOCIATED_LEASE_IDS,
        max_credit_record_entries: MAX_CREDIT_RECORD_ENTRIES,
    }
}

impl Default for IterationLimits {
    fn default() -> (r: Self)
        ensures
            r == default_limits(),
    {
        IterationLimits {
            max_user_leases: MAX_USER_LEASES_ITERATIONS,
            max_active_leases: MAX_ACTIVE_LEASES_ITERATIONS,
            max_batch_operations: MAX_BATCH_OPERATIONS,
            max_associated_lease_ids: MAX_ASSOCIATED_LEASE_IDS,
            max_credit_record_entries: MAX_CREDIT_RECORD_ENTRIES,
        }
    }
}

/// Walks a collection, stopping after at most `limit` items.
pub struct BoundedIterator<'a, T> {
    pub items: &'a [T],
    pub current_index: u32,
    pub limit: u32,
}

impl<'a, T> BoundedIterator<'a, T> {
    /// An iterator over `items` bounded by a positive `limit`.
    pub fn new(items: &'a [T], limit: u32) -> (r: Result<Self, IterationLimitError>)
        ensures
            limit == 0 ==> (r matches Err(e) && e == IterationLimitError::InvalidIterationLimit),
            limit > 0 ==> (r matches Ok(it) && it.items@ == items@ && it.current_index == 0
                && it.limit == limit),
    {
        if limit == 0 {
            return Err(IterationLimitError::InvalidIterationLimit);
        }
        Ok(BoundedIterator { items, current_index: 0, limit })
    }

    /// The next item, unless the limit or the end was reached.
    pub fn next(&mut self) -> (r: Option<&'a T>)
        ensures
            final(self).items@ == old(self).items@,
            final(self).limit == old(self).limit,
            old(self).current_index >= old(self).limit || old(self).current_index >= old(
                self,
            ).items@.len() ==> r is None && final(self).current_index == old(self).current_index,
            old(self).current_index < old(self).limit && old(self).current_index < old(
                self,
            ).items@.len() ==> r == Some(&old(self).items@[old(self).current_index as int])
                && final(self).current_index == old(self).current_index + 1,
    {
        if self.current_index >= self.limit || (self.current_index as usize) >= self.items.len() {
            return None;
        }
        let items: &'a [T] = self.items;
        let item = &items[self.current_index as usize];
        self.current_index = self.current_index + 1;
        Some(item)
    }

    /// How many items the iterator yields in all: the collection's length,
    /// at most the limit.
    pub fn count(&self) -> (r: u32)
        requires
            self.items@.len() <= u32::MAX,
        ensures
            r == if self.items@.len() <= self.limit {
                self.items@.len() as u32
            } else {
                self.limit
            },
    {
        let actual_len = self.items.len() as u32;
        if actual_len <= self.limit {
            actual_len
        } else {
            self.limit
        }
    }
}

/// Checks collection sizes against the limits.
pub struct IterationController;

impl IterationController {
    /// An iterator over user leases, bounded by their limit.
    pub fn create_bounded_user_leases_iterator<'a, T>(items: &'a [T]) -> (r: Result<BoundedIterator<'a, T>, IterationLimitError>)
        ensures
            r matches Ok(it) && it.items@ == items@ && it.current_index == 0 && it.limit
                == default_limits().max_user_leases,
    {
        let limits = Self::get_limits();
        BoundedIterator::new(items, limits.max_user_leases)
    }

    /// An iterator over active leases, bounded by their limit.
    pub fn create_bounded_active_leases_iterator<'a, T>(items: &'a [T]) -> (r: Result<BoundedIterator<'a, T>, IterationLimitError>)
        ensures
            r matches Ok(it) && it.items@ == items@ && it.current_index == 0 && it.limit
                == default_limits().max_active_leases,
    {
        let limits = Self::get_limits();
        BoundedIterator::new(items, limits.max_active_leases)
    }

    /// An iterator over a batch, bounded by their limit.
    pub fn create_bounded_batch_iterator<'a, T>(items: &'a [T]) -> (r: Result<BoundedIterator<'a, T>, IterationLimitError>)
        ensures
            r matches Ok(it) && it.items@ == items@ && it.current_index == 0 && it.limit
                == default_limits().max_batch_operations,
    {
        let limits = Self::get_limits();
        BoundedIterator::new(items, limits.max_batch_operations)
    }

    /// An iterator over associated lease ids, bounded by their limit.
    pub fn create_bounded_associated_leases_iterator<'a, T>(items: &'a [T]) -> (r: Result<BoundedIterator<'a, T>, IterationLimitError>)
        ensures
            r matches Ok(it) && it.items@ == items@ && it.current_index == 0 && it.limit
                == default_limits().max_associated_lease_ids,
    {
        let limits = Self::get_limits();
        BoundedIterator::new(items, limits.max_associated_lease_ids)
    }

    /// The limits in force.
    pub fn get_limits() -> (r: IterationLimits)
        ensures
            r == default_limits(),
    {
        IterationLimits::default()
    }

    /// Refuses more than `MAX_USER_LEASES_ITERATIONS` leases of one user.
    pub fn validate_user_leases_iteration(total_leases: u32) -> (r: Result<(), IterationLimitError>)
        ensures
            r is Ok <==> total_leases <= MAX_USER_LEASES_ITERATIONS,
            r is Err ==> r == Err::<(), _>(IterationLimitError::UserLeasesLimitExceeded),
    {
        let limits = Self::get_limits();
        if total_leases > limits.max_user_leases {
            Err(IterationLimitError::UserLeasesLimitExceeded)
        } else {
            Ok(())
        }
    }

    /// Refuses more than `MAX_ACTIVE_LEASES_ITERATIONS` active leases.
    pub fn validate_active_leases_iteration(total_leases: u32) -> (r: Result<(), IterationLimitError>)
        ensures
            r is Ok <==> total_leases <= MAX_ACTIVE_LEASES_ITERATIONS,
            r is Err ==> r == Err::<(), _>(IterationLimitError::ActiveLeasesLimitExceeded),
    {
        let limits = Self::get_limits();
        if total_leases > limits.max_active_leases {
            Err(IterationLimitError::ActiveLeasesLimitExceeded)
        } else {
            Ok(())
        }
    }

    /// Refuses batches of more than `MAX_BATCH_OPERATIONS` operations.
    pub fn validate_batch_operations(batch_size: u32) -> (r: Result<(), IterationLimitError>)
        ensures
            r is Ok <==> batch_size <= MAX_BATCH_OPERATIONS,
            r is Err ==> r == Err::<(), _>(IterationLimitError::BatchOperationsLimitExceeded),
    {
        let limits = Self::get_limits();
        if batch_size > limits.max_batch_operations {
            Err(IterationLimitError::BatchOperationsLimitExceeded)
        } else {
            Ok(())
        }
    }

    /// Refuses more than `MAX_ASSOCIATED_LEASE_IDS` lease ids on a record.
    pub fn validate_associated_lease_ids(lease_ids_count: u32) -> (r: Result<(), IterationLimitError>)
        ensures
            r is Ok <==> lease_ids_count <= MAX_ASSOCIATED_LEASE_IDS,
            r is Err ==> r == Err::<(), _>(IterationLimitError::AssociatedLeaseIdsLimitExceeded),
    {
        let limits = Self::get_limits();
        if lease_ids_count > limits.max_associated_lease_ids {
            Err(IterationLimitError::AssociatedLeaseIdsLimitExceeded)
        } else {
            Ok(())
        }
    }

    /// Refuses more than `MAX_CREDIT_RECORD_ENTRIES` credit-record entries.
    pub fn validate_credit_record_entries(entries_count: u32) -> (r: Result<(), IterationLimitError>)
        ensures
            r is Ok <==> entries_count <= MAX_CREDIT_RECORD_ENTRIES,
            r is Err ==> r == Err::<(), _>(IterationLimitError::CreditRecordLimitExceeded),
    {
        let limits = Self::get_limits();
        if entries_count > limits.max_credit_record_entries {
            Err(IterationLimitError::CreditRecordLimitExceeded)
        } else {
            Ok(())
        }
    }
}

/// Helpers for bounded iteration.
pub struct IterationUtils;

impl IterationUtils {
    /// `true` iff `size` is within `limit`.
    pub fn is_safe_collection_size(size: u32, limit: u32) -> (r: bool)
        ensures
            r == (size <= limit),
    {
        size <= limit
    }

    /// The number of items that may be iterated: the collection size, capped
    /// at `max_limit`.
    pub fn get_safe_iteration_limit(collection_size: u32, max_limit: u32) -> (r: u32)
        ensures
            r == if collection_size <= max_limit { collection_size } else { max_limit },
    {
        if collection_size <= max_limit {
            collection_size
        } else {
            max_limit
        }
    }

    /// Keeps only the first `limit` items of a collection that is longer.
    pub fn truncate_to_safe_limit<T: Copy>(items: &mut Vec<T>, limit: u32)
        ensures
            old(items)@.len() > limit ==> final(items)@ == old(items)@.take(limit as int),
            old(items)@.len() <= limit ==> final(items)@ == old(items)@,
    {
        if items.len() > limit as usize {
            let mut kept: Vec<T> = Vec::new();
            let mut i: usize = 0;
            while i < limit as usize
                invariant
                    0 <= i <= limit,
                    limit < old(items)@.len(),
                    items@ == old(items)@,
                    kept@ == old(items)@.take(i as int),
                decreases limit - i,
            {
                kept.push(items[i]);
                assert(kept@ =~= old(items)@.take(i as int + 1));
                i = i + 1;
            }
            *items = kept;
        }
    }
}

} // verus!
