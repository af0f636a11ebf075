use leaseflow::lease_contract::LeaseError;
use leaseflow::rate_limit_admin::{
    AddressRemovedFromWhitelist, RateLimitAdmin, RateLimitPolicy, RateLimitPolicyUpdated,
    RateLimitToggled,
};

const NOW: u64 = 5_000;

#[test]
fn the_default_policy_applies_until_one_is_set() {
    let admin = RateLimitAdmin::new(Some(1));
    assert_eq!(
        admin.get_policy(),
        RateLimitPolicy {
            max_creations_per_hour: 10,
            max_creations_per_day: 50,
            rate_limit_duration: 3600,
            enabled: true,
        }
    );
}

#[test]
fn only_the_administrator_changes_the_policy() {
    let mut admin = RateLimitAdmin::new(Some(1));
    assert_eq!(admin.update_policy(2, 5, 20, 600, NOW), Err(LeaseError::Unauthorised));
    assert_eq!(admin.update_policy(1, 0, 20, 600, NOW), Err(LeaseError::InvalidDeduction));
    assert_eq!(admin.update_policy(1, 30, 20, 600, NOW), Err(LeaseError::InvalidDeduction));
    assert_eq!(
        admin.update_policy(1, 5, 20, 600, NOW),
        Ok(RateLimitPolicyUpdated {
            old_max_per_hour: 10,
            new_max_per_hour: 5,
            old_max_per_day: 50,
            new_max_per_day: 20,
            updated_by: 1,
            timestamp: NOW,
        })
    );
    assert_eq!(admin.get_policy().max_creations_per_hour, 5);
    assert_eq!(admin.get_policy().rate_limit_duration, 600);
    let mut without_admin = RateLimitAdmin::new(None);
    assert_eq!(without_admin.update_policy(1, 5, 20, 600, NOW), Err(LeaseError::Unauthorised));
}

#[test]
fn toggling_keeps_the_limits() {
    let mut admin = RateLimitAdmin::new(Some(1));
    admin.update_policy(1, 4, 8, 60, NOW).unwrap();
    assert_eq!(
        admin.toggle_rate_limiting(1, false, NOW + 1),
        Ok(RateLimitToggled { enabled: false, toggled_by: 1, timestamp: NOW + 1 })
    );
    let policy = admin.get_policy();
    assert!(!policy.enabled);
    assert_eq!((policy.max_creations_per_hour, policy.max_creations_per_day), (4, 8));
    assert_eq!(admin.toggle_rate_limiting(3, true, NOW), Err(LeaseError::Unauthorised));
}

#[test]
fn exemptions_are_added_and_removed() {
    let mut admin = RateLimitAdmin::new(Some(1));
    let added = admin.whitelist_address(1, 7, String::from("market maker"), NOW).unwrap();
    assert_eq!((added.address, added.whitelisted_by, added.timestamp), (7, 1, NOW));
    assert_eq!(added.reason, "market maker");
    assert!(admin.is_whitelisted(7));
    let entry = admin.get_whitelist_entry(7).unwrap();
    assert_eq!((entry.whitelisted_at, entry.whitelisted_by), (NOW, 1));
    assert!(admin.get_whitelist().is_empty());
    assert_eq!(
        admin.remove_from_whitelist(1, 7, NOW + 2),
        Ok(AddressRemovedFromWhitelist { address: 7, removed_by: 1, timestamp: NOW + 2 })
    );
    assert!(!admin.is_whitelisted(7));
    assert_eq!(admin.remove_from_whitelist(1, 7, NOW), Err(LeaseError::LeaseNotFound));
    assert!(admin.whitelist_address(2, 8, String::from("x"), NOW).is_err());
}
