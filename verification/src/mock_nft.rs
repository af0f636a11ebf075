//! A stand-in NFT contract that accepts every transfer and remembers the
//! last one, so that a lease's NFT movements can be checked.
use vstd::prelude::*;
use crate::accounts::AccountId;

verus! {

/// One NFT transfer.
#[derive(Copy, Clone, Debug, Eq, PartialEq, Structural)]
pub struct TransferRecord {
    pub from: AccountId,
    pub to: AccountId,
    pub token_id: u128,
}

/// The stand-in contract's storage: the last transfer, once there was one.
#[derive(Copy, Clone, Debug)]
pub struct MockNftContract {
    pub last_transfer: Option<TransferRecord>,
}

impl MockNftContract {
    /// A contract that has seen no transfer.
    pub fn new() -> (r: Self)
        ensures
            r.last_transfer is None,
    {
        MockNftContract { last_transfer: None }
    }

    /// Records a transfer of `token_id` from `from` to `to`; the spender
    /// is not checked.
    pub fn transfer_from(&mut self, spender: AccountId, from: AccountId, to: AccountId, token_id: u128)
        ensures
            final(self).last_transfer == Some(TransferRecord { from, to, token_id }),
    {
        self.last_transfer = Some(TransferRecord { from, to, token_id });
    }

    /// The last transfer recorded; there must have been one.
    pub fn get_last_transfer(&self) -> (r: TransferRecord)
        requires
            self.last_transfer is Some,
        ensures
            r == self.last_transfer->Some_0,
    {
        self.last_transfer.unwrap()
    }
}

} // verus!
