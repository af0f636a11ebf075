use leaseflow::lease_contract::{NftEscrowDeposit, 
    CreateLeaseParams, DepositRelease, DepositReleasePartial, LeaseAmendment, LeaseContract, LeaseError,
    LeaseStatus, UsageRights,
};
use leaseflow::rates::RateType;

const LANDLORD: u64 = 1;
const TENANT: u64 = 2;
const ADMIN: u64 = 3;
const NFT: u64 = 40;
const NOW: u64 = 1_000_000;

fn params(security_deposit: i128) -> CreateLeaseParams {
    CreateLeaseParams {
        tenant: TENANT,
        rent_amount: 1000,
        deposit_amount: 2000,
        security_deposit,
        start_date: NOW,
        end_date: NOW + 30 * 86_400,
        property_uri: String::from("ipfs://lease"),
    }
}

/// A lease of token 42 at 3600 per hour for one day, late fees of 100 flat
/// plus 36 per hour after `grace_end`.
fn nft_lease(contract: &mut LeaseContract, grace_end: u64) {
    contract.create_lease_with_nft(
        7,
        LANDLORD,
        TENANT,
        3600,
        RateType::PerHour,
        86_400,
        grace_end,
        100,
        36,
        RateType::PerHour,
        NFT,
        42,
        NOW,
    );
}

#[test]
fn test_usage_rights_persistent_storage() {
    let mut contract = LeaseContract::new(None);
    let usage_rights = UsageRights { renter: TENANT, nft_contract: NFT, token_id: 42, lease_id: 1, valid_until: 987_654_321 };
    contract.save_usage_rights(NFT, 42, &usage_rights);
    let loaded = contract.load_usage_rights(NFT, 42).unwrap();
    assert_eq!(loaded.valid_until, 987_654_321);
    assert_eq!(loaded, usage_rights);
    assert_eq!(contract.load_usage_rights(NFT, 43), None);
    contract.delete_usage_rights(NFT, 42);
    assert_eq!(contract.load_usage_rights(NFT, 42), None);
}

#[test]
fn a_lease_with_an_nft_grants_usage_until_expiry() {
    let mut contract = LeaseContract::new(None);
    nft_lease(&mut contract, NOW + 86_400);
    let lease = contract.get_lease(7);
    assert_eq!(lease.landlord, LANDLORD);
    assert_eq!(lease.tenant, TENANT);
    assert_eq!(lease.rent_amount, 3600);
    assert_eq!(lease.rent_per_sec, 1);
    assert_eq!(lease.late_fee_per_sec, 0);
    assert_eq!(lease.nft_contract, Some(NFT));
    assert_eq!(lease.token_id, Some(42));
    assert!(lease.active);
    assert_eq!(lease.status, LeaseStatus::Active);
    assert_eq!(lease.expiry_time, NOW + 86_400);

    assert!(contract.check_usage_rights(NFT, 42, TENANT, NOW + 86_400).is_some());
    assert!(contract.check_usage_rights(NFT, 42, TENANT, NOW + 86_401).is_none());
    assert!(contract.check_usage_rights(NFT, 42, LANDLORD, NOW).is_none());

    // Ending the lease hands the NFT back and ends the usage rights.
    assert_eq!(contract.end_lease(7, LANDLORD), Some((NFT, 42)));
    assert_eq!(contract.load_usage_rights(NFT, 42), None);
    assert_eq!(contract.get_lease(7).status, LeaseStatus::Terminated);
    assert!(!contract.get_lease(7).active);
}

#[test]
fn late_fees_accrue_once_per_late_second() {
    let mut contract = LeaseContract::new(None);
    contract.create_lease_with_nft(
        8, LANDLORD, TENANT, 86_400, RateType::PerDay, 86_400 * 30, NOW, 100, 2, RateType::PerSecond, NFT, 1, NOW,
    );
    // Within the grace period nothing accrues.
    contract.pay_rent(8, 10, NOW);
    assert_eq!(contract.get_lease(8).debt, 0);
    // Ten seconds late: the flat fee plus 2 per second.
    contract.pay_rent(8, 10, NOW + 10);
    assert_eq!(contract.get_lease(8).debt, 100 + 20);
    // Five more seconds: only the new seconds are charged.
    contract.pay_rent(8, 10, NOW + 15);
    let lease = contract.get_lease(8);
    assert_eq!(lease.debt, 100 + 30);
    assert_eq!(lease.seconds_late_charged, 15);
    assert_eq!(lease.rent_paid, 30);
    // Paying again at the same time charges nothing new.
    contract.pay_rent(8, 10, NOW + 15);
    assert_eq!(contract.get_lease(8).debt, 130);
}

#[test]
fn reaching_the_buyout_price_ends_the_lease() {
    let mut contract = LeaseContract::new(None);
    nft_lease(&mut contract, NOW + 86_400);
    contract.set_buyout_price(7, LANDLORD, 500);
    assert_eq!(contract.get_buyout_price(7), Some(500));
    contract.pay_rent(7, 300, NOW);
    assert!(contract.get_lease(7).active);
    contract.pay_rent(7, 200, NOW + 1);
    let lease = contract.get_lease(7);
    assert!(!lease.active);
    assert_eq!(lease.status, LeaseStatus::Terminated);
    assert_eq!(lease.cumulative_payments, 500);
}

#[test]
fn receipts_record_each_month() {
    let mut contract = LeaseContract::new(None);
    contract.create_lease_instance(5, LANDLORD, params(500)).unwrap();
    assert!(contract.pay_rent_with_receipt(5, 1, 1000, NOW));
    assert!(contract.pay_rent_with_receipt(5, 2, 900, NOW + 10));
    let receipt = contract.get_receipt(5, 1);
    assert_eq!((receipt.lease_id, receipt.month, receipt.amount, receipt.date), (5, 1, 1000, NOW));
    assert_eq!(contract.get_receipt(5, 2).amount, 900);
    assert_eq!(contract.get_lease(5).rent_paid, 1900);
}

#[test]
fn a_new_lease_instance_is_pending_until_activated() {
    let mut contract = LeaseContract::new(None);
    assert_eq!(contract.create_lease_instance(5, LANDLORD, params(500)), Ok(()));
    let lease = contract.get_lease(5);
    assert_eq!(lease.status, LeaseStatus::Pending);
    assert_eq!(lease.security_deposit, 500);
    assert_eq!(lease.grace_period_end, NOW + 30 * 86_400);
    let started = contract.activate_lease(5, TENANT, NOW + 1);
    assert_eq!(started.renter, TENANT);
    assert_eq!(started.id, NOW + 1);
    assert_eq!(contract.get_lease(5).status, LeaseStatus::Active);
    contract.update_property_uri(5, LANDLORD, String::from("ipfs://v2"));
    assert_eq!(contract.get_lease(5).property_uri, "ipfs://v2");
}

#[test]
fn amendments_change_only_what_they_give() {
    let mut contract = LeaseContract::new(None);
    contract.create_lease_instance(5, LANDLORD, params(500)).unwrap();
    contract.activate_lease(5, TENANT, NOW);
    let amendment = LeaseAmendment {
        new_rent_amount: Some(1200),
        new_end_date: None,
        landlord_signature: [1; 32],
        tenant_signature: [2; 32],
    };
    contract.amend_lease(5, amendment);
    let lease = contract.get_lease(5);
    assert_eq!(lease.rent_amount, 1200);
    assert_eq!(lease.end_date, NOW + 30 * 86_400);
}

#[test]
fn a_disputed_deposit_marks_the_lease() {
    let mut contract = LeaseContract::new(None);
    contract.create_lease_instance(5, LANDLORD, params(500)).unwrap();
    contract.activate_lease(5, TENANT, NOW);
    contract.release_deposit(5, DepositRelease::PartialRefund(DepositReleasePartial { tenant_amount: 1500, landlord_amount: 500 }));
    assert_eq!(contract.get_lease(5).status, LeaseStatus::Active);
    contract.release_deposit(5, DepositRelease::Disputed);
    assert_eq!(contract.get_lease(5).status, LeaseStatus::Disputed);
}

#[test]
fn concluding_refunds_the_undamaged_part_of_the_deposit() {
    let mut contract = LeaseContract::new(None);
    contract.create_lease_instance(5, LANDLORD, params(500)).unwrap();
    assert_eq!(contract.conclude_lease(5, TENANT, 100), Err(LeaseError::Unauthorised));
    assert_eq!(contract.conclude_lease(5, LANDLORD, 501), Err(LeaseError::InvalidDeduction));
    assert_eq!(contract.conclude_lease(5, LANDLORD, -1), Err(LeaseError::InvalidDeduction));
    assert_eq!(contract.conclude_lease(6, LANDLORD, 0), Err(LeaseError::LeaseNotFound));
    assert_eq!(contract.conclude_lease(5, LANDLORD, 120), Ok(380));
    assert_eq!(contract.get_lease(5).status, LeaseStatus::Terminated);
}

#[test]
fn termination_reports_what_the_lease_ran_and_collected() {
    let mut contract = LeaseContract::new(Some(ADMIN));
    contract.create_lease_instance(5, LANDLORD, params(500)).unwrap();
    contract.pay_rent_with_receipt(5, 1, 1000, NOW);
    assert_eq!(contract.terminate_lease(5, 99, NOW), Err(LeaseError::Unauthorised));
    let ended = contract.terminate_lease(5, ADMIN, NOW + 5).unwrap();
    assert_eq!((ended.id, ended.duration, ended.total_paid), (NOW + 5, 30 * 86_400, 1000));
    assert!(contract.load_lease(5).is_none());
    assert_eq!(contract.terminate_lease(5, ADMIN, NOW), Err(LeaseError::LeaseNotFound));
}

#[test]
fn reclaiming_reports_the_reason() {
    let mut contract = LeaseContract::new(Some(ADMIN));
    contract.create_lease_instance(5, LANDLORD, params(500)).unwrap();
    let reclaimed = contract.reclaim_asset(5, ADMIN, String::from("unpaid"), NOW).unwrap();
    assert_eq!(reclaimed.id, NOW);
    assert_eq!(reclaimed.reason, "unpaid");
}

#[test]
fn error_codes_are_stable() {
    assert_eq!(LeaseError::LeaseNotFound.code(), 1);
    assert_eq!(LeaseError::UsageRightsExpired.code(), 10);
    assert_eq!(LeaseError::InvalidDeduction.code(), 6);
}

#[test]
fn an_nft_lease_takes_the_token_from_the_landlord_into_escrow() {
    let mut contract = LeaseContract::new(None);
    let (started, deposit) = contract.create_lease_with_nft(
        9, LANDLORD, TENANT, 3600, RateType::PerHour, 86_400, NOW, 0, 0, RateType::PerHour, NFT, 77, NOW,
    );
    assert_eq!(deposit, NftEscrowDeposit { nft_contract: NFT, from: LANDLORD, token_id: 77 });
    assert_eq!((started.id, started.renter, started.rate), (NOW, TENANT, 1));
}
