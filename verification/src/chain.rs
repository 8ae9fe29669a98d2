//! What a canonical-chain notification carries: the new tip, the state changes
//! of its blocks, and their receipts.

use vstd::prelude::*;
use crate::primitives::{AccountInfo, Address, B256, U256};

verus! {

/// A storage slot that a block wrote, with the value it holds afterwards.
#[derive(Clone, Copy, Debug)]
pub struct SlotChange {
    pub slot: U256,
    pub present_value: U256,
}

/// An account that a block changed.
#[derive(Debug)]
pub struct AccountChange {
    pub address: Address,
    /// The account afterwards, if it exists.
    pub info: Option<AccountInfo>,
    /// Whether the account was destroyed on the way.
    pub was_destroyed: bool,
    pub storage: Vec<SlotChange>,
}

/// A log record of a transaction.
#[derive(Debug)]
pub struct Log {
    pub address: Address,
    pub topics: Vec<B256>,
    pub data: Vec<u8>,
}

/// The receipt of a transaction, as far as its logs.
#[derive(Debug)]
pub struct Receipt {
    pub logs: Vec<Log>,
}

/// The head of a chain.
#[derive(Clone, Copy, Debug)]
pub struct Tip {
    pub number: u64,
    pub hash: B256,
}

/// A run of executed blocks with the outcome of executing them.
#[derive(Debug)]
pub struct Chain {
    /// The last block, unless the run is empty.
    pub tip: Option<Tip>,
    /// The changed accounts.
    pub accounts: Vec<AccountChange>,
    /// The receipts, block by block.
    pub receipts: Vec<Vec<Receipt>>,
}

/// A change of the canonical chain.
#[derive(Debug)]
pub enum CanonStateNotification {
    /// The chain grew by `new`.
    Commit { new: Chain },
    /// Blocks were dropped, and `new` took their place.
    Reorg { new: Chain },
}

impl CanonStateNotification {
    /// The blocks that are canonical now.
    pub open spec fn new_chain(self) -> Chain {
        match self {
            CanonStateNotification::Commit { new } => new,
            CanonStateNotification::Reorg { new } => new,
        }
    }

    /// The blocks that are canonical now.
    pub fn committed(&self) -> (chain: &Chain)
        ensures
            *chain == self.new_chain(),
    {
        match self {
            CanonStateNotification::Commit { new } => new,
            CanonStateNotification::Reorg { new } => new,
        }
    }
}

} // verus!
