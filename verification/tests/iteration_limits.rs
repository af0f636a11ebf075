use leaseflow::flow::iteration_limits as flow_limits;
use leaseflow::flow::Error;
use leaseflow::iteration_limits as lease_limits;
use leaseflow::lease_contract::LeaseError;

#[test]
fn iteration_limits_test_bounded_iterator() {
    let items: Vec<u32> = (0..150).collect();
    let mut iterator = flow_limits::BoundedIterator::new(&items, 100).unwrap();
    let mut count = 0;
    while let Some(_) = iterator.next() {
        count += 1;
    }
    assert_eq!(count, 100);
    assert_eq!(iterator.count(), 100);

    let items: Vec<u32> = (0..250).collect();
    let mut iterator = lease_limits::BoundedIterator::new(&items, 200).unwrap();
    let mut count = 0;
    while let Some(_) = iterator.next() {
        count += 1;
    }
    assert_eq!(count, 200);
    assert_eq!(iterator.count(), 200);
}

#[test]
fn iteration_limits_test_iteration_controller_validation() {
    assert!(flow_limits::IterationController::validate_user_leases_iteration(50).is_ok());
    assert!(flow_limits::IterationController::validate_user_leases_iteration(150).is_err());
    assert!(flow_limits::IterationController::validate_active_leases_iteration(100).is_ok());
    assert!(flow_limits::IterationController::validate_active_leases_iteration(250).is_err());
    assert!(flow_limits::IterationController::validate_batch_operations(25).is_ok());
    assert!(flow_limits::IterationController::validate_batch_operations(75).is_err());

    assert!(lease_limits::IterationController::validate_active_leases_iteration(150).is_ok());
    assert!(lease_limits::IterationController::validate_active_leases_iteration(250).is_err());
    assert!(lease_limits::IterationController::validate_batch_operations(25).is_ok());
    assert!(lease_limits::IterationController::validate_batch_operations(75).is_err());
    assert!(lease_limits::IterationController::validate_velocity_tracking(50).is_ok());
    assert!(lease_limits::IterationController::validate_velocity_tracking(150).is_err());
}

#[test]
fn iteration_limits_test_iteration_utils() {
    assert!(flow_limits::IterationUtils::is_safe_collection_size(50, 100));
    assert!(!flow_limits::IterationUtils::is_safe_collection_size(150, 100));
    assert_eq!(flow_limits::IterationUtils::get_safe_iteration_limit(50, 100), 50);
    assert_eq!(flow_limits::IterationUtils::get_safe_iteration_limit(150, 100), 100);

    let items: Vec<u64> = (0..10).collect();
    assert!(lease_limits::IterationUtils::bounded_contains(&items, 5, 20));
    assert!(!lease_limits::IterationUtils::bounded_contains(&items, 15, 20));
    assert_eq!(lease_limits::IterationUtils::bounded_find(&items, 5, 20), Some(5));
    assert_eq!(lease_limits::IterationUtils::bounded_find(&items, 15, 20), None);
}

#[test]
fn iteration_limits_tests_test_iteration_limits_default_values() {
    let limits = flow_limits::IterationController::get_limits();
    assert_eq!(limits.max_user_leases, 100);
    assert_eq!(limits.max_active_leases, 200);
    assert_eq!(limits.max_batch_operations, 50);
    assert_eq!(limits.max_associated_lease_ids, 50);
    assert_eq!(limits.max_credit_record_entries, 100);

    let limits = lease_limits::IterationController::get_limits();
    assert_eq!(limits.max_active_leases, 200);
    assert_eq!(limits.max_batch_operations, 50);
    assert_eq!(limits.max_velocity_tracking, 100);
    assert_eq!(limits.max_approval_entries, 10);
}

#[test]
fn test_user_leases_validation() {
    assert!(flow_limits::IterationController::validate_user_leases_iteration(50).is_ok());
    assert!(flow_limits::IterationController::validate_user_leases_iteration(100).is_ok());
    assert!(flow_limits::IterationController::validate_user_leases_iteration(101).is_err());
    assert!(flow_limits::IterationController::validate_user_leases_iteration(200).is_err());
}

#[test]
fn test_associated_lease_ids_validation() {
    assert!(flow_limits::IterationController::validate_associated_lease_ids(25).is_ok());
    assert!(flow_limits::IterationController::validate_associated_lease_ids(50).is_ok());
    assert!(flow_limits::IterationController::validate_associated_lease_ids(51).is_err());
    assert!(flow_limits::IterationController::validate_associated_lease_ids(100).is_err());
}

#[test]
fn iteration_limits_tests_test_bounded_iterator() {
    let small: Vec<u32> = (0..10).collect();
    let mut iterator = flow_limits::BoundedIterator::new(&small, 20).unwrap();
    let mut count = 0;
    let mut values = Vec::new();
    while let Some(value) = iterator.next() {
        values.push(*value);
        count += 1;
    }
    assert_eq!(count, 10);
    assert_eq!(iterator.count(), 10);
    assert_eq!(values, small);

    let large: Vec<u32> = (0..150).collect();
    let mut iterator = flow_limits::BoundedIterator::new(&large, 50).unwrap();
    let mut count = 0;
    while let Some(_) = iterator.next() {
        count += 1;
    }
    assert_eq!(count, 50);
    assert_eq!(iterator.count(), 50);

    let large: Vec<u32> = (0..250).collect();
    let mut iterator = lease_limits::BoundedIterator::new(&large, 200).unwrap();
    let mut count = 0;
    while let Some(_) = iterator.next() {
        count += 1;
    }
    assert_eq!(count, 200);
    assert_eq!(iterator.count(), 200);
}

#[test]
fn test_bounded_iterator_invalid_limit() {
    let empty: Vec<u32> = Vec::new();
    assert!(flow_limits::BoundedIterator::new(&empty, 0).is_err());
    assert!(lease_limits::BoundedIterator::new(&empty, 0).is_err());
}

#[test]
fn iteration_limits_tests_test_iteration_utils() {
    assert!(flow_limits::IterationUtils::is_safe_collection_size(50, 100));
    assert!(!flow_limits::IterationUtils::is_safe_collection_size(150, 100));
    assert_eq!(flow_limits::IterationUtils::get_safe_iteration_limit(50, 100), 50);
    assert_eq!(flow_limits::IterationUtils::get_safe_iteration_limit(150, 100), 100);
}

#[test]
fn iteration_limits_tests_test_iteration_limit_error_codes() {
    assert_eq!(flow_limits::IterationLimitError::UserLeasesLimitExceeded.code(), 1001);
    assert_eq!(flow_limits::IterationLimitError::ActiveLeasesLimitExceeded.code(), 1002);
    assert_eq!(flow_limits::IterationLimitError::BatchOperationsLimitExceeded.code(), 1003);
    assert_eq!(flow_limits::IterationLimitError::AssociatedLeaseIdsLimitExceeded.code(), 1004);
    assert_eq!(flow_limits::IterationLimitError::CreditRecordLimitExceeded.code(), 1005);
    assert_eq!(flow_limits::IterationLimitError::InvalidIterationLimit.code(), 1006);

    assert_eq!(lease_limits::IterationLimitError::ActiveLeasesLimitExceeded.code(), 2001);
    assert_eq!(lease_limits::IterationLimitError::BatchOperationsLimitExceeded.code(), 2002);
    assert_eq!(lease_limits::IterationLimitError::VelocityTrackingLimitExceeded.code(), 2003);
    assert_eq!(lease_limits::IterationLimitError::ApprovalEntriesLimitExceeded.code(), 2004);
    assert_eq!(lease_limits::IterationLimitError::InvalidIterationLimit.code(), 2005);
}

#[test]
fn iteration_limits_tests_test_main_contract_error_integration() {
    assert_eq!(Error::UserLeasesLimitExceeded.code(), 21);
    assert_eq!(Error::AssociatedLeaseIdsLimitExceeded.code(), 22);

    assert_eq!(LeaseError::ActiveLeasesLimitExceeded.code(), 42);
    assert_eq!(LeaseError::BatchOperationsLimitExceeded.code(), 43);
    assert_eq!(LeaseError::VelocityTrackingLimitExceeded.code(), 44);
    assert_eq!(LeaseError::ApprovalEntriesLimitExceeded.code(), 45);
}

#[test]
fn test_active_leases_validation() {
    assert!(lease_limits::IterationController::validate_active_leases_iteration(150).is_ok());
    assert!(lease_limits::IterationController::validate_active_leases_iteration(200).is_ok());
    assert!(lease_limits::IterationController::validate_active_leases_iteration(201).is_err());
    assert!(lease_limits::IterationController::validate_active_leases_iteration(300).is_err());
}

#[test]
fn test_batch_operations_validation() {
    assert!(lease_limits::IterationController::validate_batch_operations(25).is_ok());
    assert!(lease_limits::IterationController::validate_batch_operations(50).is_ok());
    assert!(lease_limits::IterationController::validate_batch_operations(51).is_err());
    assert!(lease_limits::IterationController::validate_batch_operations(100).is_err());
}

#[test]
fn test_velocity_tracking_validation() {
    assert!(lease_limits::IterationController::validate_velocity_tracking(50).is_ok());
    assert!(lease_limits::IterationController::validate_velocity_tracking(100).is_ok());
    assert!(lease_limits::IterationController::validate_velocity_tracking(101).is_err());
    assert!(lease_limits::IterationController::validate_velocity_tracking(200).is_err());
}

#[test]
fn test_approval_entries_validation() {
    assert!(lease_limits::IterationController::validate_approval_entries(5).is_ok());
    assert!(lease_limits::IterationController::validate_approval_entries(10).is_ok());
    assert!(lease_limits::IterationController::validate_approval_entries(11).is_err());
    assert!(lease_limits::IterationController::validate_approval_entries(20).is_err());
}

#[test]
fn test_iteration_utils_bounded_contains() {
    let items: Vec<u64> = (0..50).map(|i| i * 2).collect();
    assert!(lease_limits::IterationUtils::bounded_contains(&items, 20, 30));
    assert!(lease_limits::IterationUtils::bounded_contains(&items, 0, 10));
    assert!(!lease_limits::IterationUtils::bounded_contains(&items, 21, 30));
    assert!(!lease_limits::IterationUtils::bounded_contains(&items, 100, 30));
    assert!(lease_limits::IterationUtils::bounded_contains(&items, 80, 50));
    assert!(!lease_limits::IterationUtils::bounded_contains(&items, 80, 40));
}

#[test]
fn test_iteration_utils_bounded_find() {
    let items: Vec<u64> = (0..30).map(|i| i + 10).collect();
    assert_eq!(lease_limits::IterationUtils::bounded_find(&items, 15, 50), Some(5));
    assert_eq!(lease_limits::IterationUtils::bounded_find(&items, 25, 50), Some(15));
    assert_eq!(lease_limits::IterationUtils::bounded_find(&items, 5, 50), None);
    assert_eq!(lease_limits::IterationUtils::bounded_find(&items, 50, 50), None);
    assert_eq!(lease_limits::IterationUtils::bounded_find(&items, 35, 30), Some(25));
    assert_eq!(lease_limits::IterationUtils::bounded_find(&items, 35, 20), None);
}

#[test]
fn bounded_iterator_creators_use_their_limits() {
    let items: Vec<u64> = (0..300).collect();
    let it = flow_limits::IterationController::create_bounded_user_leases_iterator(&items).unwrap();
    assert_eq!(it.count(), 100);
    let it = flow_limits::IterationController::create_bounded_active_leases_iterator(&items).unwrap();
    assert_eq!(it.count(), 200);
    let it = flow_limits::IterationController::create_bounded_batch_iterator(&items).unwrap();
    assert_eq!(it.count(), 50);
    let it = flow_limits::IterationController::create_bounded_associated_leases_iterator(&items).unwrap();
    assert_eq!(it.count(), 50);
    let it = lease_limits::IterationController::create_bounded_velocity_iterator(&items).unwrap();
    assert_eq!(it.count(), 100);
    let it = lease_limits::IterationController::create_bounded_approval_iterator(&items).unwrap();
    assert_eq!(it.count(), 10);
}

#[test]
fn truncation_keeps_the_first_items() {
    let mut items: Vec<u64> = (0..10).collect();
    flow_limits::IterationUtils::truncate_to_safe_limit(&mut items, 4);
    assert_eq!(items, vec![0, 1, 2, 3]);
    flow_limits::IterationUtils::truncate_to_safe_limit(&mut items, 10);
    assert_eq!(items, vec![0, 1, 2, 3]);
}

#[test]
fn iteration_limits_tests_test_gas_efficiency_with_bounded_iteration() {
    let large: Vec<u32> = (0..1000).collect();
    let mut iterator = flow_limits::BoundedIterator::new(&large, 100).unwrap();
    let mut count = 0;
    while let Some(_) = iterator.next() {
        count += 1;
    }
    assert_eq!(count, 100);
}

#[test]
fn iteration_limits_tests_test_concurrent_iteration_safety() {
    let items: Vec<u32> = (0..200).collect();
    let mut iterator1 = flow_limits::BoundedIterator::new(&items, 50).unwrap();
    let mut iterator2 = flow_limits::BoundedIterator::new(&items, 75).unwrap();
    let mut count1 = 0;
    let mut count2 = 0;
    while let Some(_) = iterator1.next() {
        count1 += 1;
    }
    while let Some(_) = iterator2.next() {
        count2 += 1;
    }
    assert_eq!(count1, 50);
    assert_eq!(count2, 75);
    let mut iterator3 = lease_limits::BoundedIterator::new(&items, 60).unwrap();
    let mut count3 = 0;
    while let Some(_) = iterator3.next() {
        count3 += 1;
    }
    assert_eq!(count3, 60);
}

#[test]
fn iteration_limits_tests_test_edge_cases() {
    let empty: Vec<u32> = Vec::new();
    let mut iterator = flow_limits::BoundedIterator::new(&empty, 10).unwrap();
    let mut count = 0;
    while let Some(_) = iterator.next() {
        count += 1;
    }
    assert_eq!(count, 0);
    assert_eq!(iterator.count(), 0);

    let single: Vec<u32> = vec![42];
    let mut iterator = flow_limits::BoundedIterator::new(&single, 10).unwrap();
    let mut count = 0;
    let mut found_value = None;
    while let Some(value) = iterator.next() {
        found_value = Some(*value);
        count += 1;
    }
    assert_eq!(count, 1);
    assert_eq!(found_value, Some(42));
    assert_eq!(iterator.count(), 1);
}

#[test]
fn test_bounded_iterator_with_different_types() {
    let accounts: Vec<u64> = (100..110).collect();
    let mut iterator = lease_limits::BoundedIterator::new(&accounts, 5).unwrap();
    let mut count = 0;
    while let Some(_) = iterator.next() {
        count += 1;
    }
    assert_eq!(count, 5);

    let symbols: Vec<String> = (0..10).map(|i| format!("sym_{}", i)).collect();
    let mut iterator = lease_limits::BoundedIterator::new(&symbols, 7).unwrap();
    let mut count = 0;
    while let Some(_) = iterator.next() {
        count += 1;
    }
    assert_eq!(count, 7);
}
