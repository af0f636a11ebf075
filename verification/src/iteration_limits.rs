//! Bounded iteration limits for the protocol contracts.
//!
//! Every loop over on-chain collections is held to a fixed bound so that no
//! call can exhaust its budget.
use vstd::prelude::*;

verus! {

/// Most active leases iterated in one call.
pub const MAX_ACTIVE_LEASES_ITERATIONS: u32 = 200;
/// Most operations in one batch.
pub const MAX_BATCH_OPERATIONS: u32 = 50;
/// Most velocity-tracking entries kept.
pub const MAX_VELOCITY_TRACKING_ENTRIES: u32 = 100;
/// Most approval entries iterated.
pub const MAX_APPROVAL_ENTRIES: u32 = 10;

/// The limits in force.
#[derive(Clone, Copy, Debug, PartialEq, Eq, Structural)]
pub struct IterationLimits {
    pub max_active_leases: u32,
    pub max_batch_operations: u32,
    pub max_velocity_tracking: u32,
    pub max_approval_entries: u32,
}

/// A collection exceeded its limit.
#[derive(Clone, Copy, Debug, PartialEq, Eq, Structural)]
pub enum IterationLimitError {
    ActiveLeasesLimitExceeded,
    BatchOperationsLimitExceeded,
    VelocityTrackingLimitExceeded,
    ApprovalEntriesLimitExceeded,
    InvalidIterationLimit,
}

/// The contract error code of each iteration-limit error.
pub open spec fn iteration_error_code(e: IterationLimitError) -> u32 {
    match e {
        IterationLimitError::ActiveLeasesLimitExceeded => 2001,
        IterationLimitError::BatchOperationsLimitExceeded => 2002,
        IterationLimitError::VelocityTrackingLimitExceeded => 2003,
        IterationLimitError::ApprovalEntriesLimitExceeded => 2004,
        IterationLimitError::InvalidIterationLimit => 2005,
    }
}

impl IterationLimitError {
    /// The contract error code.
    pub fn code(&self) -> (c: u32)
        ensures
            c == iteration_error_code(*self),
    {
        match self {
            IterationLimitError::ActiveLeasesLimitExceeded => 2001,
            IterationLimitError::BatchOperationsLimitExceeded => 2002,
            IterationLimitError::VelocityTrackingLimitExceeded => 2003,
            IterationLimitError::ApprovalEntriesLimitExceeded => 2004,
            IterationLimitError::InvalidIterationLimit => 2005,
        }
    }
}

/// The default limits.
pub open spec fn default_limits() -> IterationLimits {
    IterationLimits {
        max_active_leases: MAX_ACTIVE_LEASES_ITERATIONS,
        max_batch_operations: MAX_BATCH_OPERATIONS,
        max_velocity_tracking: MAX_VELOCITY_TRACKING_ENTRIES,
        max_approval_entries: MAX_APPROVAL_ENTRIES,
    }
}

impl Default for IterationLimits {
    fn default() -> (r: Self)
        ensures
            r == default_limits(),
    {
        IterationLimits {
            max_active_leases: MAX_ACTIVE_LEASES_ITERATIONS,
            max_batch_operations: MAX_BATCH_OPERATIONS,
            max_velocity_tracking: MAX_VELOCITY_TRACKING_ENTRIES,
            max_approval_entries: MAX_APPROVAL_ENTRIES,
        }
    }
}

/// Walks a collection, stopping after at most `limit` items.
pub struct BoundedIterator<'a, T> {
    pub items: &'a [T],
    pub current_index: u32,
    pub limit: u32,
}

impl<'a, T> BoundedIterator<'a, T> {
    /// An iterator over `items` bounded by a positive `limit`.
    pub fn new(items: &'a [T], limit: u32) -> (r: Result<Self, IterationLimitError>)
        ensures
            limit == 0 ==> (r matches Err(e) && e == IterationLimitError::InvalidIterationLimit),
            limit > 0 ==> (r matches Ok(it) && it.items@ == items@ && it.current_index == 0
                && it.limit == limit),
    {
        if limit == 0 {
            return Err(IterationLimitError::InvalidIterationLimit);
        }
        Ok(BoundedIterator { items, current_index: 0, limit })
    }

    /// The next item, unless the limit or the end was reached.
    pub fn next(&mut self) -> (r: Option<&'a T>)
        ensures
            final(self).items@ == old(self).items@,
            final(self).limit == old(self).limit,
            old(self).current_index >= old(self).limit || old(self).current_index >= old(
                self,
            ).items@.len() ==> r is None && final(self).current_index == old(self).current_index,
            old(self).current_index < old(self).limit && old(self).current_index < old(
                self,
            ).items@.len() ==> r == Some(&old(self).items@[old(self).current_index as int])
                && final(self).current_index == old(self).current_index + 1,
    {
        if self.current_index >= self.limit || (self.current_index as usize) >= self.items.len() {
            return None;
        }
        let items: &'a [T] = self.items;
        let item = &items[self.current_index as usize];
        self.current_index = self.current_index + 1;
        Some(item)
    }

    /// How many items the iterator yields in all: the collection's length,
    /// at most the limit.
    pub fn count(&self) -> (r: u32)
        requires
            self.items@.len() <= u32::MAX,
        ensures
            r == if self.items@.len() <= self.limit {
                self.items@.len() as u32
            } else {
                self.limit
            },
    {
        let actual_len = self.items.len() as u32;
        if actual_len <= self.limit {
            actual_len
        } else {
            self.limit
        }
    }
}

/// Checks collection sizes against the limits.
pub struct IterationController;

impl IterationController {
    /// An iterator over active leases, bounded by their limit.
    pub fn create_bounded_active_leases_iterator<'a, T>(items: &'a [T]) -> (r: Result<BoundedIterator<'a, T>, IterationLimitError>)
        ensures
            r matches Ok(it) && it.items@ == items@ && it.current_index == 0 && it.limit
                == default_limits().max_active_leases,
    {
        let limits = Self::get_limits();
        BoundedIterator::new(items, limits.max_active_leases)
    }

    /// An iterator over a batch, bounded by their limit.
    pub fn create_bounded_batch_iterator<'a, T>(items: &'a [T]) -> (r: Result<BoundedIterator<'a, T>, IterationLimitError>)
        ensures
            r matches Ok(it) && it.items@ == items@ && it.current_index == 0 && it.limit
                == default_limits().max_batch_operations,
    {
        let limits = Self::get_limits();
        BoundedIterator::new(items, limits.max_batch_operations)
    }

    /// An iterator over velocity tracking entries, bounded by their limit.
    pub fn create_bounded_velocity_iterator<'a, T>(items: &'a [T]) -> (r: Result<BoundedIterator<'a, T>, IterationLimitError>)
        ensures
            r matches Ok(it) && it.items@ == items@ && it.current_index == 0 && it.limit
                == default_limits().max_velocity_tracking,
    {
        let limits = Self::get_limits();
        BoundedIterator::new(items, limits.max_velocity_tracking)
    }

    /// An iterator over approval entries, bounded by their limit.
    pub fn create_bounded_approval_iterator<'a, T>(items: &'a [T]) -> (r: Result<BoundedIterator<'a, T>, IterationLimitError>)
        ensures
            r matches Ok(it) && it.items@ == items@ && it.current_index == 0 && it.limit
                == default_limits().max_approval_entries,
    {
        let limits = Self::get_limits();
        BoundedIterator::new(items, limits.max_approval_entries)
    }

    /// The limits in force.
    pub fn get_limits() -> (r: IterationLimits)
        ensures
            r == default_limits(),
    {
        IterationLimits::default()
    }

    /// Refuses more than `MAX_ACTIVE_LEASES_ITERATIONS` active leases.
    pub fn validate_active_leases_iteration(total_leases: u32) -> (r: Result<(), IterationLimitError>)
        ensures
            r is Ok <==> total_leases <= MAX_ACTIVE_LEASES_ITERATIONS,
            r is Err ==> r == Err::<(), _>(IterationLimitError::ActiveLeasesLimitExceeded),
    {
        let limits = Self::get_limits();
        if total_leases > limits.max_active_leases {
            Err(IterationLimitError::ActiveLeasesLimitExceeded)
        } else {
            Ok(())
        }
    }

    /// Refuses batches of more than `MAX_BATCH_OPERATIONS` operations.
    pub fn validate_batch_operations(batch_size: u32) -> (r: Result<(), IterationLimitError>)
        ensures
            r is Ok <==> batch_size <= MAX_BATCH_OPERATIONS,
            r is Err ==> r == Err::<(), _>(IterationLimitError::BatchOperationsLimitExceeded),
    {
        let limits = Self::get_limits();
        if batch_size > limits.max_batch_operations {
            Err(IterationLimitError::BatchOperationsLimitExceeded)
        } else {
            Ok(())
        }
    }

    /// Refuses more than `MAX_VELOCITY_TRACKING_ENTRIES` tracking entries.
    pub fn validate_velocity_tracking(entries_count: u32) -> (r: Result<(), IterationLimitError>)
        ensures
            r is Ok <==> entries_count <= MAX_VELOCITY_TRACKING_ENTRIES,
            r is Err ==> r == Err::<(), _>(IterationLimitError::VelocityTrackingLimitExceeded),
    {
        let limits = Self::get_limits();
        if entries_count > limits.max_velocity_tracking {
            Err(IterationLimitError::VelocityTrackingLimitExceeded)
        } else {
            Ok(())
        }
    }

    /// Refuses more than `MAX_APPROVAL_ENTRIES` approval entries.
    pub fn validate_approval_entries(entries_count: u32) -> (r: Result<(), IterationLimitError>)
        ensures
            r is Ok <==> entries_count <= MAX_APPROVAL_ENTRIES,
            r is Err ==> r == Err::<(), _>(IterationLimitError::ApprovalEntriesLimitExceeded),
    {
        let limits = Self::get_limits();
        if entries_count > limits.max_approval_entries {
            Err(IterationLimitError::ApprovalEntriesLimitExceeded)
        } else {
            Ok(())
        }
    }
}

/// Helpers for bounded iteration.
pub struct IterationUtils;

impl IterationUtils {
    /// `true` iff `size` is within `limit`.
    pub fn is_safe_collection_size(size: u32, limit: u32) -> (r: bool)
        ensures
            r == (size <= limit),
    {
        size <= limit
    }

    /// The number of items that may be iterated: the collection size, capped
    /// at `max_limit`.
    pub fn get_safe_iteration_limit(collection_size: u32, max_limit: u32) -> (r: u32)
        ensures
            r == if collection_size <= max_limit { collection_size } else { max_limit },
    {
        if collection_size <= max_limit {
            collection_size
        } else {
            max_limit
        }
    }

    /// `true` iff `item` occurs among the first `max_search` elements.
    pub fn bounded_contains(items: &[u64], item: u64, max_search: u32) -> (r: bool)
        ensures
            r == exists|i: int| 0 <= i < items@.len() && i < max_search && items@[i] == item,
    {
        match Self::bounded_find(items, item, max_search) {
            Some(_) => true,
            None => false,
        }
    }

    /// The first index, below `max_search`, at which `item` occurs.
    pub fn bounded_find(items: &[u64], item: u64, max_search: u32) -> (r: Option<u32>)
        ensures
            match r {
                Some(i) => i < items@.len() && i < max_search && items@[i as int] == item && forall|
                    j: int,
                | 0 <= j < i ==> items@[j] != item,
                None => forall|j: int| 0 <= j < items@.len() && j < max_search ==> items@[j] != item,
            },
    {
        let mut index: usize = 0;
        while index < items.len() && index < max_search as usize
            invariant
                0 <= index <= items@.len(),
                index <= max_search,
                forall|j: int| 0 <= j < index ==> items@[j] != item,
            decreases items@.len() - index,
        {
            if items[index] == item {
                return Some(index as u32);
            }
            index = index + 1;
        }
        None
    }
}

} // verus!
