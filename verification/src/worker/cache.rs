//! The cache that each worker has to itself.

use vstd::prelude::*;
use crate::keyed_map::{read_word, word_at, KeyedMap, MapKey};
use crate::primitives::{AccountInfo, Address, B256, Bytecode, U256};

verus! {

impl MapKey for Address {
    type Key = Address;

    open spec fn key(self) -> Address {
        self
    }

    closed spec fn fingerprint(key: Address) -> u64 {
        word_at(key.0@, 12)
    }

    fn to_fingerprint(&self) -> (print: u64) {
        read_word(self.0.as_slice(), 12)
    }

    fn same_key(&self, other: &Self) -> (same: bool) {
        self.same(other)
    }
}

impl MapKey for B256 {
    type Key = B256;

    open spec fn key(self) -> B256 {
        self
    }

    closed spec fn fingerprint(key: B256) -> u64 {
        word_at(key.0@, 24)
    }

    fn to_fingerprint(&self) -> (print: u64) {
        read_word(self.0.as_slice(), 24)
    }

    fn same_key(&self, other: &Self) -> (same: bool) {
        self.same(other)
    }
}

impl MapKey for (Address, U256) {
    type Key = (Address, U256);

    open spec fn key(self) -> (Address, U256) {
        self
    }

    closed spec fn fingerprint(key: (Address, U256)) -> u64 {
        word_at(key.0.0@, 12) ^ word_at(key.1.0@, 24)
    }

    fn to_fingerprint(&self) -> (print: u64) {
        read_word(self.0.0.as_slice(), 12) ^ read_word(self.1.0.as_slice(), 24)
    }

    fn same_key(&self, other: &Self) -> (same: bool) {
        self.0.same(&other.0) && self.1.same(&other.1)
    }
}

/// A worker's own cache of clean reads at one epoch.
#[derive(Debug)]
pub struct WorkerL1Cache {
    pub epoch_id: u64,
    /// Accounts by address. `None` records that there is no such account.
    pub accounts: KeyedMap<Address, Option<AccountInfo>>,
    /// Code by its hash.
    pub bytecodes: KeyedMap<B256, Bytecode>,
    /// Storage values by address and slot.
    pub storage: KeyedMap<(Address, U256), U256>,
}

impl WorkerL1Cache {
    /// An empty cache for reads at the epoch `epoch_id`.
    pub fn new(epoch_id: u64) -> (cache: Self)
        ensures
            cache.epoch_id == epoch_id,
            cache.accounts@ == Map::<Address, Option<AccountInfo>>::empty(),
            cache.bytecodes@ == Map::<B256, Bytecode>::empty(),
            cache.storage@ == Map::<(Address, U256), U256>::empty(),
    {
        WorkerL1Cache {
            epoch_id,
            accounts: KeyedMap::new(),
            bytecodes: KeyedMap::new(),
            storage: KeyedMap::new(),
        }
    }

    /// Whether the cache holds reads at the epoch `epoch_id`.
    pub open spec fn valid_for(self, epoch_id: u64) -> bool {
        self.epoch_id == epoch_id
    }

    /// Whether this is `before` turned over to the epoch `epoch_id`.
    pub open spec fn is_reset(self, before: Self, epoch_id: u64) -> bool {
        &&& self.epoch_id == epoch_id
        &&& self.accounts@ =~= Map::<Address, Option<AccountInfo>>::empty()
        &&& self.storage@ =~= Map::<(Address, U256), U256>::empty()
        &&& self.bytecodes == before.bytecodes
    }

    /// Whether the cache holds reads at the epoch `epoch_id`.
    pub fn is_valid_for(&self, epoch_id: u64) -> (valid: bool)
        ensures
            valid == self.valid_for(epoch_id),
    {
        self.epoch_id == epoch_id
    }

    /// Turns the cache over to the epoch `new_epoch_id`. Code stays, everything
    /// else goes.
    pub fn reset(&mut self, new_epoch_id: u64)
        ensures
            final(self).is_reset(*old(self), new_epoch_id),
    {
        self.accounts.clear();
        self.storage.clear();
        self.epoch_id = new_epoch_id;
    }
}

/// A cache that was turned over to an epoch is valid for that one and for no other. It has
/// every piece of code that it had, and no account and no slot.
pub proof fn reset_caches_keep_only_code(
    before: WorkerL1Cache,
    after: WorkerL1Cache,
    epoch_id: u64,
    other: u64,
    address: Address,
    slot: U256,
    code_hash: B256,
)
    requires
        after.is_reset(before, epoch_id),
    ensures
        after.valid_for(other) <==> other == epoch_id,
        !after.accounts@.contains_key(address),
        !after.storage@.contains_key((address, slot)),
        before.bytecodes@.contains_key(code_hash) ==> after.bytecodes@.contains_pair(
            code_hash,
            before.bytecodes@[code_hash],
        ),
{
}

} // verus!
