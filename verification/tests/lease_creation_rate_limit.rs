use leaseflow::flow::lease_creation_rate_limit::{
    CreationTracker, LeaseCreationRateLimit, LeaseCreationRateLimitReset, CREATION_WINDOW,
};
use leaseflow::flow::Error;

/// A ledger time late enough for both windows to be measured back from it.
const NOW: u64 = 1_700_000_000;

#[test]
fn test_initialize_address() {
    let mut limits = LeaseCreationRateLimit::new();
    let address = 7;
    assert!(limits.initialize_address(address).is_ok());
    // Initialising again is no error.
    assert!(limits.initialize_address(address).is_ok());
    assert!(limits.has_creation_tracker(address));
}

#[test]
fn test_check_creation_limits_within_threshold() {
    let mut limits = LeaseCreationRateLimit::new();
    let address = 1;
    limits.initialize_address(address).unwrap();
    assert!(limits.check_creation_limits(address, NOW).is_ok());
}

#[test]
fn test_record_creation() {
    let mut limits = LeaseCreationRateLimit::new();
    let address = 1;
    limits.initialize_address(address).unwrap();
    assert!(limits.record_creation(address, NOW).is_ok());
    let stats = limits.get_creation_stats(address).unwrap();
    assert_eq!(stats.0, 1);
    assert_eq!(stats.1, 1);
    assert!(!stats.2);
}

#[test]
fn test_multiple_recordings() {
    let mut limits = LeaseCreationRateLimit::new();
    let address = 1;
    limits.initialize_address(address).unwrap();
    for _ in 0..5 {
        limits.record_creation(address, NOW).unwrap();
    }
    let stats = limits.get_creation_stats(address).unwrap();
    assert_eq!(stats.0, 5);
    assert_eq!(stats.1, 5);
}

#[test]
fn test_rate_limit_exceeded() {
    let mut limits = LeaseCreationRateLimit::new();
    let address = 1;
    limits.initialize_address(address).unwrap();
    for _ in 0..10 {
        limits.record_creation(address, NOW).unwrap();
    }
    let result = limits.check_creation_limits(address, NOW);
    assert!(result.is_err());
    assert_eq!(result.unwrap_err(), Error::RateLimitExceeded);
    let stats = limits.get_creation_stats(address).unwrap();
    assert!(stats.2);
}

#[test]
fn test_reset_rate_limit() {
    let mut limits = LeaseCreationRateLimit::new();
    let address = 1;
    limits.initialize_address(address).unwrap();
    for _ in 0..10 {
        limits.record_creation(address, NOW).unwrap();
    }
    assert!(limits.check_creation_limits(address, NOW).is_err());
    assert_eq!(limits.reset_rate_limit(address, NOW), Ok(LeaseCreationRateLimitReset { address, reset_timestamp: NOW }));
    let stats = limits.get_creation_stats(address).unwrap();
    assert!(!stats.2);
    // The ten creations are still inside the hour.
    assert!(limits.check_creation_limits(address, NOW).is_err());
}

#[test]
fn test_different_addresses_independent() {
    let mut limits = LeaseCreationRateLimit::new();
    let first = 1;
    let second = 2;
    limits.initialize_address(first).unwrap();
    limits.initialize_address(second).unwrap();
    for _ in 0..10 {
        limits.record_creation(first, NOW).unwrap();
    }
    assert!(limits.check_creation_limits(first, NOW).is_err());
    assert!(limits.check_creation_limits(second, NOW).is_ok());
}

#[test]
fn test_get_creation_stats() {
    let mut limits = LeaseCreationRateLimit::new();
    let address = 1;
    limits.initialize_address(address).unwrap();
    for _ in 0..3 {
        limits.record_creation(address, NOW).unwrap();
    }
    let stats = limits.get_creation_stats(address).unwrap();
    assert_eq!(stats.0, 3);
    assert_eq!(stats.1, 3);
    assert!(!stats.2);
    assert!(stats.3.is_none());
}

#[test]
fn an_address_without_a_tracker_reads_as_zero_and_may_create() {
    let mut limits = LeaseCreationRateLimit::new();
    assert_eq!(limits.get_creation_stats(9), Ok((0, 0, false, None)));
    assert!(limits.check_creation_limits(9, NOW).is_ok());
    assert!(!limits.has_creation_tracker(9));
    limits.record_creation(9, NOW).unwrap();
    assert_eq!(limits.get_creation_stats(9), Ok((1, 1, false, None)));
}

#[test]
fn a_stored_block_is_lifted_when_its_time_has_come() {
    let mut limits = LeaseCreationRateLimit::new();
    for _ in 0..10 {
        limits.record_creation(3, NOW).unwrap();
    }
    assert!(limits.check_creation_limits(3, NOW).is_err());
    assert!(limits.is_rate_limited(3, NOW + 10));
    assert!(!limits.is_rate_limited(3, NOW + CREATION_WINDOW));
    assert_eq!(limits.get_creation_stats(3), Ok((10, 10, false, None)));
    assert!(limits.check_creation_limits(3, NOW + CREATION_WINDOW + 1).is_ok());
}

#[test]
fn tracker_starts_empty() {
    let tracker = CreationTracker::fresh(7);
    assert_eq!(tracker.address, 7);
    assert_eq!(tracker.get_creation_stats(), (0, 0, false, None));
}

#[test]
fn tracker_blocks_at_ten_creations_in_the_hour() {
    let mut tracker = CreationTracker::fresh(1);
    for _ in 0..10 {
        tracker.record_creation(NOW);
    }
    assert!(!tracker.allows_creation(NOW));
    let result = tracker.check_creation_limits(NOW);
    assert_eq!(result, Err(Error::RateLimitExceeded));
    assert_eq!(tracker.get_creation_stats(), (10, 10, true, Some(NOW + CREATION_WINDOW)));
}

#[test]
fn a_block_ends_after_one_window() {
    let mut tracker = CreationTracker::fresh(1);
    for _ in 0..10 {
        tracker.record_creation(NOW);
    }
    assert!(tracker.check_creation_limits(NOW).is_err());
    assert!(tracker.is_rate_limited(NOW + CREATION_WINDOW - 1));
    // The block has run out and the creations have left the hour window.
    assert!(!tracker.is_rate_limited(NOW + CREATION_WINDOW + 1));
    assert!(tracker.check_creation_limits(NOW + CREATION_WINDOW + 1).is_ok());
}

#[test]
fn the_daily_limit_counts_older_creations() {
    let mut tracker = CreationTracker::fresh(1);
    for i in 0..50u64 {
        tracker.record_creation(NOW - 20 * CREATION_WINDOW + i * 600);
    }
    let result = tracker.check_creation_limits(NOW);
    assert_eq!(result, Err(Error::RateLimitExceeded));
    assert_eq!(tracker.get_creation_stats(), (0, 50, true, Some(NOW + CREATION_WINDOW)));
}

#[test]
fn cleanup_drops_creations_outside_the_windows() {
    let mut tracker = CreationTracker::fresh(1);
    tracker.record_creation(NOW - 30 * CREATION_WINDOW);
    tracker.record_creation(NOW - 2 * CREATION_WINDOW);
    tracker.record_creation(NOW - 10);
    tracker.cleanup_old_creations(NOW);
    assert_eq!(tracker.creation_timestamps_1h, vec![NOW - 10]);
    assert_eq!(tracker.creation_timestamps_24h, vec![NOW - 2 * CREATION_WINDOW, NOW - 10]);
    assert_eq!(tracker.creations_1h, 1);
    assert_eq!(tracker.creations_24h, 2);
}
