use leaseflow::mock_nft::{MockNftContract, TransferRecord};

#[test]
fn the_mock_nft_remembers_the_last_transfer() {
    let mut nft = MockNftContract::new();
    assert!(nft.last_transfer.is_none());
    nft.transfer_from(9, 1, 2, 42);
    assert_eq!(nft.get_last_transfer(), TransferRecord { from: 1, to: 2, token_id: 42 });
    nft.transfer_from(9, 2, 3, 43);
    assert_eq!(nft.get_last_transfer(), TransferRecord { from: 2, to: 3, token_id: 43 });
}
