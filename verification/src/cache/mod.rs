//! The cross-worker read cache.
//!
//! [`GlobalSharedCache`] keeps accounts, storage values and code that have been
//! read from the state database. Its methods take it by `&mut self`, so that a
//! contract can speak of what the cache may hand out before a call and after it.
//! Workers share it behind a lock; then of several that miss the same key at a
//! time, one reads the database and the others find what it put in.

use vstd::prelude::*;
use crate::chain::{AccountChange, CanonStateNotification, SlotChange};
use crate::primitives::{AccountInfo, Address, B256, Bytecode, ProviderError, U256};

pub mod diff;
pub mod store;
pub mod weight;

use diff::{
    lists_account, lists_slot, lists_storage, prefilled_accounts, prefilled_storage,
    surviving_accounts, surviving_storage, with_accounts, with_accounts_grows, with_slots,
    with_slots_grows, with_storage, with_storage_grows, without_accounts, without_storage,
    SHARED_EPOCH,
};
use store::{
    AccountCache, AccountEntries, BytecodeCache, BytecodeEntries, StorageCache, StorageEntries,
};
use weight::{
    account_budget, accounts_fit, budgets_are_seventy_and_twenty_five_percent, bytecode_budget,
    code_entry_weight, code_fits, code_weight, divide_budget, fewer_accounts_fit, fewer_slots_fit,
    new_code_adds_its_weight, storage_budget, storage_fits, Budgets,
};

verus! {

/// The value in the answer of a read, without word of where it comes from.
pub open spec fn value_of<T>(result: Result<(T, bool), ProviderError>) -> Result<T, ProviderError> {
    match result {
        Ok((value, _)) => Ok(value),
        Err(error) => Err(error),
    }
}

/// Cross-worker shared read cache.
pub struct GlobalSharedCache {
    accounts: AccountCache,
    storage: StorageCache,
    bytecodes: BytecodeCache,
    /// What the caches were made for.
    budgets: Budgets,
}

impl GlobalSharedCache {
    /// The accounts that the cache may hand out, by epoch and address.
    pub closed spec fn accounts(self) -> AccountEntries {
        store::account_entries(self.accounts)
    }

    /// The storage values that the cache may hand out, by epoch, address and slot.
    pub closed spec fn storage(self) -> StorageEntries {
        store::storage_entries(self.storage)
    }

    /// The code that the cache may hand out, by its hash.
    pub closed spec fn bytecodes(self) -> BytecodeEntries {
        store::bytecode_entries(self.bytecodes)
    }

    /// The weight that accounts are kept to.
    pub closed spec fn account_limit(self) -> u64 {
        store::account_limit(self.accounts)
    }

    /// The weight that storage values are kept to.
    pub closed spec fn storage_limit(self) -> u64 {
        store::storage_limit(self.storage)
    }

    /// The weight that code is kept to.
    pub closed spec fn bytecode_limit(self) -> u64 {
        store::bytecode_limit(self.bytecodes)
    }

    /// The number of accounts as of the last maintenance of the cache.
    pub closed spec fn account_count(self) -> u64 {
        store::account_count(self.accounts)
    }

    /// The number of storage values as of the last maintenance of the cache.
    pub closed spec fn storage_count(self) -> u64 {
        store::storage_count(self.storage)
    }

    /// The number of pieces of code as of the last maintenance of the cache.
    pub closed spec fn bytecode_count(self) -> u64 {
        store::bytecode_count(self.bytecodes)
    }

    /// The weight of the accounts as of the last maintenance of the cache.
    pub closed spec fn account_size(self) -> u64 {
        store::account_size(self.accounts)
    }

    /// The weight of the storage values as of the last maintenance of the cache.
    pub closed spec fn storage_size(self) -> u64 {
        store::storage_size(self.storage)
    }

    /// The weight of the code as of the last maintenance of the cache.
    pub closed spec fn bytecode_size(self) -> u64 {
        store::bytecode_size(self.bytecodes)
    }

    /// Whether the accounts have been within their limit all along, so that the cache
    /// still has every one of them.
    pub closed spec fn keeps_accounts(self) -> bool {
        store::account_kept(self.accounts)
    }

    /// Whether the storage values have been within their limit all along.
    pub closed spec fn keeps_storage(self) -> bool {
        store::storage_kept(self.storage)
    }

    /// Whether the code has been within its limit all along.
    pub closed spec fn keeps_bytecodes(self) -> bool {
        store::bytecode_kept(self.bytecodes)
    }

    /// Whether `result` is what a read of an account gives that leads from `before` to
    /// `self`, as far as it is fixed: an account that is there is found, and nothing is
    /// dropped while there is room.
    pub open spec fn answers_account(
        self,
        before: Self,
        key: (u64, Address),
        result: Result<Option<AccountInfo>, ProviderError>,
    ) -> bool {
        &&& before.keeps_accounts() && before.accounts().contains_key(key) ==> {
            &&& result == Ok::<Option<AccountInfo>, ProviderError>(before.accounts()[key])
            &&& self.accounts() == before.accounts()
        }
        &&& result matches Ok(info) ==> self.accounts() =~= before.accounts().insert(key, info)
        &&& before.keeps_accounts() && (self.accounts() == before.accounts() || accounts_fit(
            self.accounts(),
            before.account_limit(),
        )) ==> self.keeps_accounts()
        &&& self.keeps_storage() == before.keeps_storage()
        &&& self.keeps_bytecodes() == before.keeps_bytecodes()
    }

    /// Whether `result` is what a read of a storage value gives that leads from `before`
    /// to `self`, as far as it is fixed.
    pub open spec fn answers_storage(
        self,
        before: Self,
        key: (u64, Address, U256),
        result: Result<U256, ProviderError>,
    ) -> bool {
        &&& before.keeps_storage() && before.storage().contains_key(key) ==> {
            &&& result == Ok::<U256, ProviderError>(before.storage()[key])
            &&& self.storage() == before.storage()
        }
        &&& result matches Ok(value) ==> self.storage() =~= before.storage().insert(key, value)
        &&& before.keeps_storage() && (self.storage() == before.storage() || storage_fits(
            self.storage(),
            before.storage_limit(),
        )) ==> self.keeps_storage()
        &&& self.keeps_accounts() == before.keeps_accounts()
        &&& self.keeps_bytecodes() == before.keeps_bytecodes()
    }

    /// Whether `result` is what a read of code gives that leads from `before` to `self`,
    /// as far as it is fixed. Code that was not there adds its weight.
    pub open spec fn answers_bytecode(
        self,
        before: Self,
        key: B256,
        result: Result<Bytecode, ProviderError>,
    ) -> bool {
        &&& before.keeps_bytecodes() && before.bytecodes().contains_key(key) ==> {
            &&& result matches Ok(code) && code@ == before.bytecodes()[key]
            &&& self.bytecodes() == before.bytecodes()
        }
        &&& result matches Ok(code) ==> self.bytecodes() =~= before.bytecodes().insert(key, code@)
        &&& before.bytecodes().dom().finite() && !before.bytecodes().contains_key(key) ==> (
        result matches Ok(code) ==> code_weight(self.bytecodes()) == code_weight(before.bytecodes())
            + code_entry_weight(code@.len()))
        &&& before.keeps_bytecodes() && (self.bytecodes() == before.bytecodes() || code_fits(
            self.bytecodes(),
            before.bytecode_limit(),
        )) ==> self.keeps_bytecodes()
        &&& self.keeps_accounts() == before.keeps_accounts()
        &&& self.keeps_storage() == before.keeps_storage()
    }

    /// The accounts that the cache was asked for since they were last discarded, in this
    /// order, found or not.
    pub closed spec fn account_lookups(self) -> Seq<(u64, Address)> {
        store::account_lookups(self.accounts)
    }

    /// The storage values that the cache was asked for since they were last discarded, in
    /// this order.
    pub closed spec fn storage_lookups(self) -> Seq<(u64, Address, U256)> {
        store::storage_lookups(self.storage)
    }

    /// The code that the cache was asked for, in this order.
    pub closed spec fn bytecode_lookups(self) -> Seq<B256> {
        store::bytecode_lookups(self.bytecodes)
    }

    /// Whether `self` has been asked for nothing more than `other`.
    pub open spec fn same_lookups(self, other: Self) -> bool {
        &&& self.account_lookups() == other.account_lookups()
        &&& self.storage_lookups() == other.storage_lookups()
        &&& self.bytecode_lookups() == other.bytecode_lookups()
    }

    /// Whether `self` has been asked for what `before` was, and then for an account.
    pub open spec fn asked_for_account(self, before: Self, key: (u64, Address)) -> bool {
        &&& self.account_lookups() == before.account_lookups().push(key)
        &&& self.storage_lookups() == before.storage_lookups()
        &&& self.bytecode_lookups() == before.bytecode_lookups()
    }

    /// Whether `self` has been asked for what `before` was, and then for a storage
    /// value.
    pub open spec fn asked_for_storage(self, before: Self, key: (u64, Address, U256)) -> bool {
        &&& self.account_lookups() == before.account_lookups()
        &&& self.storage_lookups() == before.storage_lookups().push(key)
        &&& self.bytecode_lookups() == before.bytecode_lookups()
    }

    /// Whether `self` has been asked for what `before` was, and then for code.
    pub open spec fn asked_for_bytecode(self, before: Self, key: B256) -> bool {
        &&& self.account_lookups() == before.account_lookups()
        &&& self.storage_lookups() == before.storage_lookups()
        &&& self.bytecode_lookups() == before.bytecode_lookups().push(key)
    }

    /// The bytes that each kind of entry may take.
    pub closed spec fn budgets(self) -> Budgets {
        self.budgets
    }

    /// Whether each kind of entry is kept to its budget.
    pub open spec fn well_formed(self) -> bool {
        &&& self.account_limit() == self.budgets().accounts
        &&& self.storage_limit() == self.budgets().storage
        &&& self.bytecode_limit() == self.budgets().bytecodes
    }

    /// Whether `self` has been asked for nothing since its accounts and storage values
    /// were discarded, and for the code that `before` was asked for.
    pub open spec fn started_anew(self, before: Self) -> bool {
        &&& self.account_lookups() =~= Seq::<(u64, Address)>::empty()
        &&& self.storage_lookups() =~= Seq::<(u64, Address, U256)>::empty()
        &&& self.bytecode_lookups() == before.bytecode_lookups()
    }

    /// Whether `self` is kept to the same limits as `other`.
    pub open spec fn same_limits(self, other: Self) -> bool {
        &&& self.budgets() == other.budgets()
        &&& self.account_limit() == other.account_limit()
        &&& self.storage_limit() == other.storage_limit()
        &&& self.bytecode_limit() == other.bytecode_limit()
    }

    /// Whether this is an empty cache that is kept to `max_mb` megabytes.
    pub open spec fn is_new(self, max_mb: u64) -> bool {
        &&& self.accounts() == AccountEntries::empty()
        &&& self.storage() == StorageEntries::empty()
        &&& self.bytecodes() == BytecodeEntries::empty()
        &&& self.well_formed()
        &&& self.budgets().accounts == account_budget(max_mb as int)
        &&& self.budgets().storage == storage_budget(max_mb as int)
        &&& self.budgets().bytecodes == bytecode_budget(max_mb as int)
        &&& self.keeps_accounts()
        &&& self.keeps_storage()
        &&& self.keeps_bytecodes()
        &&& self.account_count() == 0
        &&& self.storage_count() == 0
        &&& self.bytecode_count() == 0
        &&& self.account_size() == 0
        &&& self.storage_size() == 0
        &&& self.bytecode_size() == 0
        &&& self.account_lookups() =~= Seq::<(u64, Address)>::empty()
        &&& self.storage_lookups() =~= Seq::<(u64, Address, U256)>::empty()
        &&& self.bytecode_lookups() =~= Seq::<B256>::empty()
    }

    /// An empty cache that is kept to `max_mb` megabytes.
    pub fn new(max_mb: u64) -> (cache: Self)
        ensures
            cache.is_new(max_mb),
    {
        let budgets = divide_budget(max_mb);
        GlobalSharedCache {
            accounts: store::build_accounts(budgets.accounts),
            storage: store::build_storage(budgets.storage),
            bytecodes: store::build_bytecodes(budgets.bytecodes),
            budgets,
        }
    }

    /// The account at `address` in the namespace of `epoch_id`, and whether `load`
    /// was asked for it. Only a value that `load` returned is put in.
    pub fn read_account<F>(&mut self, epoch_id: u64, address: Address, load: F) -> (result: Result<
        (Option<AccountInfo>, bool),
        ProviderError,
    >) where F: FnOnce() -> Result<Option<AccountInfo>, ProviderError>
        requires
            load.requires(()),
        ensures
            match result {
                Ok((info, true)) => {
                    &&& load.ensures((), Ok(info))
                    &&& final(self).accounts() == old(self).accounts().insert(
                        (epoch_id, address),
                        info,
                    )
                },
                Ok((info, false)) => {
                    &&& old(self).accounts().contains_pair((epoch_id, address), info)
                    &&& final(self).accounts() == old(self).accounts()
                },
                Err(error) => {
                    &&& load.ensures((), Err(error))
                    &&& final(self).accounts() == old(self).accounts()
                },
            },
            final(self).storage() == old(self).storage(),
            final(self).bytecodes() == old(self).bytecodes(),
            final(self).same_limits(*old(self)),
            final(self).asked_for_account(*old(self), (epoch_id, address)),
            final(self).answers_account(*old(self), (epoch_id, address), value_of(result)),
            old(self).keeps_accounts() && old(self).accounts().contains_key((epoch_id, address))
                ==> result is Ok && !result->Ok_0.1,
    {
        match store::read_account(&mut self.accounts, (epoch_id, address), load) {
            Ok(found) => Ok(found),
            Err(error) => Err((*error).clone()),
        }
    }

    /// The value of `slot` of the account at `address` in the namespace of
    /// `epoch_id`, and whether `load` was asked for it.
    pub fn read_storage<F>(
        &mut self,
        epoch_id: u64,
        address: Address,
        slot: U256,
        load: F,
    ) -> (result: Result<(U256, bool), ProviderError>) where
        F: FnOnce() -> Result<U256, ProviderError>,

        requires
            load.requires(()),
        ensures
            match result {
                Ok((value, true)) => {
                    &&& load.ensures((), Ok(value))
                    &&& final(self).storage() == old(self).storage().insert(
                        (epoch_id, address, slot),
                        value,
                    )
                },
                Ok((value, false)) => {
                    &&& old(self).storage().contains_pair((epoch_id, address, slot), value)
                    &&& final(self).storage() == old(self).storage()
                },
                Err(error) => {
                    &&& load.ensures((), Err(error))
                    &&& final(self).storage() == old(self).storage()
                },
            },
            final(self).accounts() == old(self).accounts(),
            final(self).bytecodes() == old(self).bytecodes(),
            final(self).same_limits(*old(self)),
            final(self).asked_for_storage(*old(self), (epoch_id, address, slot)),
            final(self).answers_storage(*old(self), (epoch_id, address, slot), value_of(result)),
            old(self).keeps_storage() && old(self).storage().contains_key((epoch_id, address, slot))
                ==> result is Ok && !result->Ok_0.1,
    {
        match store::read_storage(&mut self.storage, (epoch_id, address, slot), load) {
            Ok(found) => Ok(found),
            Err(error) => Err((*error).clone()),
        }
    }

    /// The code with the hash `code_hash`, and whether `load` was asked for it.
    pub fn read_bytecode<F>(&mut self, code_hash: B256, load: F) -> (result: Result<
        (Bytecode, bool),
        ProviderError,
    >) where F: FnOnce() -> Result<Bytecode, ProviderError>
        requires
            load.requires(()),
        ensures
            match result {
                Ok((code, true)) => {
                    &&& load.ensures((), Ok(code))
                    &&& final(self).bytecodes() == old(self).bytecodes().insert(code_hash, code@)
                },
                Ok((code, false)) => {
                    &&& old(self).bytecodes().contains_pair(code_hash, code@)
                    &&& final(self).bytecodes() == old(self).bytecodes()
                },
                Err(error) => {
                    &&& load.ensures((), Err(error))
                    &&& final(self).bytecodes() == old(self).bytecodes()
                },
            },
            final(self).accounts() == old(self).accounts(),
            final(self).storage() == old(self).storage(),
            final(self).same_limits(*old(self)),
            final(self).asked_for_bytecode(*old(self), code_hash),
            final(self).answers_bytecode(*old(self), code_hash, value_of(result)),
            old(self).keeps_bytecodes() && old(self).bytecodes().contains_key(code_hash)
                ==> result is Ok && !result->Ok_0.1,
    {
        let ghost before = self.bytecodes();
        match store::read_bytecode(&mut self.bytecodes, code_hash, load) {
            Ok(found) => {
                proof {
                    if before.dom().finite() && !before.contains_key(code_hash) {
                        new_code_adds_its_weight(before, code_hash, found.0@);
                    }
                }
                Ok(found)
            },
            Err(error) => Err((*error).clone()),
        }
    }

    /// The account at `address` in the namespace of `epoch_id`: an entry, or else
    /// what `load` returns. That an account does not exist is an entry, too.
    pub fn get_or_load_account<F>(&mut self, epoch_id: u64, address: Address, load: F) -> (result:
        Result<Option<AccountInfo>, ProviderError>) where
        F: FnOnce() -> Result<Option<AccountInfo>, ProviderError>,

        requires
            load.requires(()),
        ensures
            match result {
                Ok(info) => {
                    &&& old(self).accounts().contains_pair((epoch_id, address), info)
                        || load.ensures((), Ok(info))
                    &&& final(self).accounts() == old(self).accounts().insert(
                        (epoch_id, address),
                        info,
                    )
                },
                Err(error) => {
                    &&& load.ensures((), Err(error))
                    &&& final(self).accounts() == old(self).accounts()
                },
            },
            final(self).storage() == old(self).storage(),
            final(self).bytecodes() == old(self).bytecodes(),
            final(self).same_limits(*old(self)),
            final(self).asked_for_account(*old(self), (epoch_id, address)),
            final(self).answers_account(*old(self), (epoch_id, address), result),
    {
        let ghost before = self.accounts();
        match self.read_account(epoch_id, address, load) {
            Ok((info, _)) => {
                assert(self.accounts() =~= before.insert((epoch_id, address), info));
                Ok(info)
            },
            Err(error) => Err(error),
        }
    }

    /// The value of `slot` of the account at `address` in the namespace of
    /// `epoch_id`: an entry, or else what `load` returns.
    pub fn get_or_load_storage<F>(
        &mut self,
        epoch_id: u64,
        address: Address,
        slot: U256,
        load: F,
    ) -> (result: Result<U256, ProviderError>) where F: FnOnce() -> Result<U256, ProviderError>
        requires
            load.requires(()),
        ensures
            match result {
                Ok(value) => {
                    &&& old(self).storage().contains_pair((epoch_id, address, slot), value)
                        || load.ensures((), Ok(value))
                    &&& final(self).storage() == old(self).storage().insert(
                        (epoch_id, address, slot),
                        value,
                    )
                },
                Err(error) => {
                    &&& load.ensures((), Err(error))
                    &&& final(self).storage() == old(self).storage()
                },
            },
            final(self).accounts() == old(self).accounts(),
            final(self).bytecodes() == old(self).bytecodes(),
            final(self).same_limits(*old(self)),
            final(self).asked_for_storage(*old(self), (epoch_id, address, slot)),
            final(self).answers_storage(*old(self), (epoch_id, address, slot), result),
    {
        let ghost before = self.storage();
        match self.read_storage(epoch_id, address, slot, load) {
            Ok((value, _)) => {
                assert(self.storage() =~= before.insert((epoch_id, address, slot), value));
                Ok(value)
            },
            Err(error) => Err(error),
        }
    }

    /// The code with the hash `code_hash`: an entry, or else what `load` returns.
    pub fn get_or_load_bytecode<F>(&mut self, code_hash: B256, load: F) -> (result: Result<
        Bytecode,
        ProviderError,
    >) where F: FnOnce() -> Result<Bytecode, ProviderError>
        requires
            load.requires(()),
        ensures
            match result {
                Ok(code) => {
                    &&& old(self).bytecodes().contains_pair(code_hash, code@) || load.ensures(
                        (),
                        Ok(code),
                    )
                    &&& final(self).bytecodes() == old(self).bytecodes().insert(code_hash, code@)
                },
                Err(error) => {
                    &&& load.ensures((), Err(error))
                    &&& final(self).bytecodes() == old(self).bytecodes()
                },
            },
            final(self).accounts() == old(self).accounts(),
            final(self).storage() == old(self).storage(),
            final(self).same_limits(*old(self)),
            final(self).asked_for_bytecode(*old(self), code_hash),
            final(self).answers_bytecode(*old(self), code_hash, result),
    {
        let ghost before = self.bytecodes();
        match self.read_bytecode(code_hash, load) {
            Ok((code, _)) => {
                assert(self.bytecodes() =~= before.insert(code_hash, code@));
                Ok(code)
            },
            Err(error) => Err(error),
        }
    }

    /// Would read ahead what is known to stay the same. Nothing is known to, so
    /// it leaves the cache alone.
    pub fn eager_prefetch(&mut self, _new_epoch_id: u64, _safe_set: &SafeUnchangedSet)
        ensures
            *final(self) == *old(self),
    {
    }

    /// Discards every account and every storage value: from here on they are kept in
    /// fresh caches of the same size. Code stays: its hash says what it is, at whatever
    /// block.
    pub fn on_epoch_change(&mut self)
        ensures
            final(self).accounts() == AccountEntries::empty(),
            final(self).storage() == StorageEntries::empty(),
            final(self).bytecodes() == old(self).bytecodes(),
            final(self).budgets() == old(self).budgets(),
            old(self).well_formed() ==> final(self).same_limits(*old(self)),
            final(self).started_anew(*old(self)),
            final(self).keeps_accounts(),
            final(self).keeps_storage(),
            final(self).keeps_bytecodes() == old(self).keeps_bytecodes(),
            final(self).account_count() == 0,
            final(self).storage_count() == 0,
            final(self).bytecode_count() == old(self).bytecode_count(),
            final(self).account_size() == 0,
            final(self).storage_size() == 0,
            final(self).bytecode_size() == old(self).bytecode_size(),
    {
        self.accounts = store::build_accounts(self.budgets.accounts);
        self.storage = store::build_storage(self.budgets.storage);
    }

    /// Discards what `notification` makes stale: after a commit the accounts and
    /// the slots that it changed, after a reorganisation everything but code.
    pub fn on_epoch_change_diff(&mut self, notification: &CanonStateNotification)
        ensures
            final(self).accounts() == surviving_accounts(old(self).accounts(), *notification),
            final(self).storage() == surviving_storage(old(self).storage(), *notification),
            final(self).bytecodes() == old(self).bytecodes(),
            final(self).budgets() == old(self).budgets(),
            old(self).well_formed() ==> final(self).same_limits(*old(self)),
            old(self).keeps_accounts() ==> final(self).keeps_accounts(),
            old(self).keeps_storage() ==> final(self).keeps_storage(),
            final(self).keeps_bytecodes() == old(self).keeps_bytecodes(),
            match *notification {
                CanonStateNotification::Commit { .. } => {
                    &&& final(self).same_limits(*old(self))
                    &&& final(self).same_lookups(*old(self))
                },
                CanonStateNotification::Reorg { .. } => {
                    &&& final(self).started_anew(*old(self))
                    &&& final(self).keeps_accounts()
                    &&& final(self).keeps_storage()
                },
            },
    {
        let new = match notification {
            CanonStateNotification::Reorg { .. } => {
                self.on_epoch_change();
                return ;
            },
            CanonStateNotification::Commit { new } => new,
        };
        let ghost changes = new.accounts@;
        let ghost before = *self;
        let mut i: usize = 0;
        proof {
            assert(changes.take(0).len() == 0);
            assert(self.accounts() =~= without_accounts(before.accounts(), changes.take(0)));
            assert(self.storage() =~= without_storage(before.storage(), changes.take(0)));
        }
        while i < new.accounts.len()
            invariant
                i <= new.accounts.len(),
                changes == new.accounts@,
                self.accounts() == without_accounts(before.accounts(), changes.take(i as int)),
                self.storage() == without_storage(before.storage(), changes.take(i as int)),
                self.bytecodes() == before.bytecodes(),
                self.same_limits(before),
                self.same_lookups(before),
                before.keeps_accounts() ==> self.keeps_accounts(),
                before.keeps_storage() ==> self.keeps_storage(),
                self.keeps_bytecodes() == before.keeps_bytecodes(),
            decreases new.accounts.len() - i,
        {
            let change = &new.accounts[i];
            let ghost seen = changes.take(i as int);
            let ghost now = changes.take(i + 1);
            let ghost slots = change.storage@;
            assert(now == seen.push(*change));
            store::invalidate_account(&mut self.accounts, (SHARED_EPOCH, change.address));
            proof {
                without_account_step(before.accounts(), seen, *change);
                without_no_slots(self.storage(), change.address, slots.take(0));
            }
            let ghost entries = self.storage();
            let mut j: usize = 0;
            while j < change.storage.len()
                invariant
                    j <= change.storage.len(),
                    slots == change.storage@,
                    self.storage() == without_slots(entries, change.address, slots.take(j as int)),
                    self.accounts() == without_accounts(before.accounts(), now),
                    self.bytecodes() == before.bytecodes(),
                    self.same_limits(before),
                    self.same_lookups(before),
                    before.keeps_accounts() ==> self.keeps_accounts(),
                    before.keeps_storage() ==> self.keeps_storage(),
                    self.keeps_bytecodes() == before.keeps_bytecodes(),
                decreases change.storage.len() - j,
            {
                let slot = change.storage[j].slot;
                store::invalidate_storage(&mut self.storage, (SHARED_EPOCH, change.address, slot));
                proof {
                    assert(slots.take(j + 1) == slots.take(j as int).push(slots[j as int]));
                    without_slot_step(
                        entries,
                        change.address,
                        slots.take(j as int),
                        slots[j as int],
                    );
                }
                j += 1;
            }
            proof {
                assert(slots.take(slots.len() as int) == slots);
                without_storage_step(before.storage(), seen, *change);
            }
            i += 1;
        }
        assert(changes.take(changes.len() as int) == changes);
    }

    /// Puts in what `notification` brings, so that changed state need not be read
    /// anew. Comes after [`Self::on_epoch_change_diff`]. A reorganisation brings
    /// nothing.
    pub fn pre_fill_diff(&mut self, notification: &CanonStateNotification)
        ensures
            final(self).accounts() == prefilled_accounts(old(self).accounts(), *notification),
            final(self).storage() == prefilled_storage(old(self).storage(), *notification),
            final(self).bytecodes() == old(self).bytecodes(),
            final(self).same_limits(*old(self)),
            old(self).keeps_accounts() && accounts_fit(
                final(self).accounts(),
                old(self).account_limit(),
            ) ==> final(self).keeps_accounts(),
            old(self).keeps_storage() && storage_fits(
                final(self).storage(),
                old(self).storage_limit(),
            ) ==> final(self).keeps_storage(),
            *notification is Reorg ==> *final(self) == *old(self),
            final(self).keeps_bytecodes() == old(self).keeps_bytecodes(),
            final(self).same_lookups(*old(self)),
    {
        let new = match notification {
            CanonStateNotification::Reorg { .. } => {
                return ;
            },
            CanonStateNotification::Commit { new } => new,
        };
        let ghost changes = new.accounts@;
        let ghost before = *self;
        let ghost accounts_room = accounts_fit(
            with_accounts(before.accounts(), changes),
            before.account_limit(),
        );
        let ghost storage_room = storage_fits(
            with_storage(before.storage(), changes),
            before.storage_limit(),
        );
        let mut i: usize = 0;
        while i < new.accounts.len()
            invariant
                i <= new.accounts.len(),
                changes == new.accounts@,
                self.accounts() == with_accounts(before.accounts(), changes.take(i as int)),
                self.storage() == with_storage(before.storage(), changes.take(i as int)),
                self.bytecodes() == before.bytecodes(),
                self.same_limits(before),
                self.same_lookups(before),
                accounts_room == accounts_fit(
                    with_accounts(before.accounts(), changes),
                    before.account_limit(),
                ),
                storage_room == storage_fits(
                    with_storage(before.storage(), changes),
                    before.storage_limit(),
                ),
                before.keeps_accounts() && accounts_room ==> self.keeps_accounts(),
                before.keeps_storage() && storage_room ==> self.keeps_storage(),
                self.keeps_bytecodes() == before.keeps_bytecodes(),
            decreases new.accounts.len() - i,
        {
            let change = &new.accounts[i];
            let ghost seen = changes.take(i as int);
            let ghost now = changes.take(i + 1);
            let ghost slots = change.storage@;
            assert(now.drop_last() == seen);
            assert(now.last() == *change);
            if !change.was_destroyed {
                if let Some(info) = change.info {
                    store::insert_account(
                        &mut self.accounts,
                        (SHARED_EPOCH, change.address),
                        Some(info),
                    );
                    proof {
                        with_accounts_grows(before.accounts(), changes, i + 1);
                        if accounts_room {
                            fewer_accounts_fit(
                                self.accounts(),
                                with_accounts(before.accounts(), changes),
                                before.account_limit(),
                            );
                        }
                    }
                }
                let ghost entries = self.storage();
                let ghost filled = with_storage(before.storage(), changes);
                proof {
                    with_storage_grows(before.storage(), changes, i + 1);
                }
                let mut j: usize = 0;
                while j < change.storage.len()
                    invariant
                        j <= change.storage.len(),
                        slots == change.storage@,
                        filled == with_storage(before.storage(), changes),
                        with_slots(entries, change.address, slots).dom().subset_of(filled.dom()),
                        self.storage() == with_slots(entries, change.address, slots.take(j as int)),
                        self.accounts() == with_accounts(before.accounts(), now),
                        self.bytecodes() == before.bytecodes(),
                        self.same_limits(before),
                        self.same_lookups(before),
                        accounts_room == accounts_fit(
                            with_accounts(before.accounts(), changes),
                            before.account_limit(),
                        ),
                        storage_room == storage_fits(
                            with_storage(before.storage(), changes),
                            before.storage_limit(),
                        ),
                        before.keeps_accounts() && accounts_room ==> self.keeps_accounts(),
                        before.keeps_storage() && storage_room ==> self.keeps_storage(),
                        self.keeps_bytecodes() == before.keeps_bytecodes(),
                    decreases change.storage.len() - j,
                {
                    let written = change.storage[j];
                    store::insert_storage(
                        &mut self.storage,
                        (SHARED_EPOCH, change.address, written.slot),
                        written.present_value,
                    );
                    assert(slots.take(j + 1).drop_last() == slots.take(j as int));
                    proof {
                        with_slots_grows(entries, change.address, slots, j + 1);
                        if storage_room {
                            fewer_slots_fit(self.storage(), filled, before.storage_limit());
                        }
                    }
                    j += 1;
                }
                assert(slots.take(slots.len() as int) == slots);
            }
            i += 1;
        }
        assert(changes.take(changes.len() as int) == changes);
    }

    /// About how many accounts there are.
    pub fn account_entry_count(&self) -> (count: u64)
        ensures
            count == self.account_count(),
    {
        store::count_accounts(&self.accounts)
    }

    /// About how much the accounts weigh.
    pub fn account_weight(&self) -> (size: u64)
        ensures
            size == self.account_size(),
    {
        store::weigh_accounts(&self.accounts)
    }

    /// About how much the storage values weigh.
    pub fn storage_weight(&self) -> (size: u64)
        ensures
            size == self.storage_size(),
    {
        store::weigh_storage(&self.storage)
    }

    /// About how much the code weighs.
    pub fn bytecode_weight(&self) -> (size: u64)
        ensures
            size == self.bytecode_size(),
    {
        store::weigh_bytecodes(&self.bytecodes)
    }

    /// About how many storage values there are.
    pub fn storage_entry_count(&self) -> (count: u64)
        ensures
            count == self.storage_count(),
    {
        store::count_storage(&self.storage)
    }

    /// About how many pieces of code there are.
    pub fn bytecode_entry_count(&self) -> (count: u64)
        ensures
            count == self.bytecode_count(),
    {
        store::count_bytecodes(&self.bytecodes)
    }
}

/// `entries` without `slots` of the account at `address`.
spec fn without_slots(
    entries: StorageEntries,
    address: Address,
    slots: Seq<SlotChange>,
) -> StorageEntries {
    entries.restrict(
        Set::new(
            |key: (u64, Address, U256)|
                entries.contains_key(key) && !(key.0 == SHARED_EPOCH && key.1 == address
                    && lists_slot(slots, key.2)),
        ),
    )
}

proof fn without_no_slots(
    entries: StorageEntries,
    address: Address,
    slots: Seq<SlotChange>,
)
    requires
        slots.len() == 0,
    ensures
        without_slots(entries, address, slots) == entries,
{
    assert(without_slots(entries, address, slots) =~= entries);
}

proof fn without_account_step(
    entries: AccountEntries,
    seen: Seq<AccountChange>,
    change: AccountChange,
)
    ensures
        without_accounts(entries, seen.push(change)) == without_accounts(entries, seen).remove(
            (SHARED_EPOCH, change.address),
        ),
{
    let now = seen.push(change);
    assert forall|address: Address| #[trigger] lists_account(now, address) == (lists_account(
        seen,
        address,
    ) || address == change.address) by {
        if lists_account(seen, address) {
            let i = choose|i: int| 0 <= i < seen.len() && (#[trigger] seen[i]).address == address;
            assert(now[i].address == address);
        }
        assert(now[seen.len() as int] == change);
        if lists_account(now, address) {
            let i = choose|i: int| 0 <= i < now.len() && (#[trigger] now[i]).address == address;
            if i < seen.len() {
                assert(seen[i].address == address);
            }
        }
    }
    assert(without_accounts(entries, now) =~= without_accounts(entries, seen).remove(
        (SHARED_EPOCH, change.address),
    ));
}

proof fn without_slot_step(
    entries: StorageEntries,
    address: Address,
    seen: Seq<SlotChange>,
    change: SlotChange,
)
    ensures
        without_slots(entries, address, seen.push(change)) == without_slots(
            entries,
            address,
            seen,
        ).remove((SHARED_EPOCH, address, change.slot)),
{
    let now = seen.push(change);
    assert forall|slot: U256| #[trigger] lists_slot(now, slot) == (lists_slot(seen, slot) || slot
        == change.slot) by {
        if lists_slot(seen, slot) {
            let i = choose|i: int| 0 <= i < seen.len() && (#[trigger] seen[i]).slot == slot;
            assert(now[i].slot == slot);
        }
        assert(now[seen.len() as int] == change);
        if lists_slot(now, slot) {
            let i = choose|i: int| 0 <= i < now.len() && (#[trigger] now[i]).slot == slot;
            if i < seen.len() {
                assert(seen[i].slot == slot);
            }
        }
    }
    assert(without_slots(entries, address, now) =~= without_slots(entries, address, seen).remove(
        (SHARED_EPOCH, address, change.slot),
    ));
}

proof fn without_storage_step(
    entries: StorageEntries,
    seen: Seq<AccountChange>,
    change: AccountChange,
)
    ensures
        without_storage(entries, seen.push(change)) == without_slots(
            without_storage(entries, seen),
            change.address,
            change.storage@,
        ),
{
    let now = seen.push(change);
    assert forall|address: Address, slot: U256| #[trigger]
        lists_storage(now, address, slot) == (lists_storage(seen, address, slot) || (address
            == change.address && lists_slot(change.storage@, slot))) by {
        if lists_storage(seen, address, slot) {
            let i = choose|i: int|
                0 <= i < seen.len() && (#[trigger] seen[i]).address == address && lists_slot(
                    seen[i].storage@,
                    slot,
                );
            assert(now[i] == seen[i]);
        }
        assert(now[seen.len() as int] == change);
        if lists_storage(now, address, slot) {
            let i = choose|i: int|
                0 <= i < now.len() && (#[trigger] now[i]).address == address && lists_slot(
                    now[i].storage@,
                    slot,
                );
            if i < seen.len() {
                assert(seen[i] == now[i]);
            }
        }
    }
    assert(without_storage(entries, now) =~= without_slots(
        without_storage(entries, seen),
        change.address,
        change.storage@,
    ));
}

/// What is put in for one epoch is neither found nor lost for another.
pub proof fn epochs_are_apart(
    entries: AccountEntries,
    epoch_id: u64,
    other_epoch_id: u64,
    address: Address,
    other_address: Address,
    info: Option<AccountInfo>,
    other_info: Option<AccountInfo>,
)
    requires
        epoch_id != other_epoch_id,
    ensures
        entries.insert((epoch_id, address), info).contains_pair(
            (other_epoch_id, other_address),
            other_info,
        ) == entries.contains_pair((other_epoch_id, other_address), other_info),
{
}

/// What one read returned, found or loaded, the next read of the same account at the
/// same epoch can only find or load anew: an entry for it is what the first read
/// returned, an absent account as well as any other.
pub proof fn answers_are_entries(
    entries: AccountEntries,
    epoch_id: u64,
    address: Address,
    info: Option<AccountInfo>,
    again: Option<AccountInfo>,
)
    requires
        entries.insert((epoch_id, address), info).contains_pair((epoch_id, address), again),
    ensures
        again == info,
{
}

/// An account that one read gave, the next read of the same account at the same epoch
/// finds again, one that does not exist as well as any other: nothing is loaded, and the
/// entries stay as they are. It takes accounts that have been within their limit and are
/// so with the one that was read.
pub proof fn accounts_are_found_again(
    before: GlobalSharedCache,
    between: GlobalSharedCache,
    after: GlobalSharedCache,
    key: (u64, Address),
    info: Option<AccountInfo>,
    again: Result<Option<AccountInfo>, ProviderError>,
)
    requires
        before.keeps_accounts(),
        between.answers_account(before, key, Ok(info)),
        between.accounts() == before.accounts() || accounts_fit(
            between.accounts(),
            before.account_limit(),
        ),
        after.answers_account(between, key, again),
    ensures
        again == Ok::<Option<AccountInfo>, ProviderError>(info),
        after.accounts() == between.accounts(),
        after.keeps_accounts(),
{
}

/// A storage value that one read gave, the next read of the same slot at the same epoch
/// finds again, as [`accounts_are_found_again`] says of accounts.
pub proof fn slots_are_found_again(
    before: GlobalSharedCache,
    between: GlobalSharedCache,
    after: GlobalSharedCache,
    key: (u64, Address, U256),
    value: U256,
    again: Result<U256, ProviderError>,
)
    requires
        before.keeps_storage(),
        between.answers_storage(before, key, Ok(value)),
        between.storage() == before.storage() || storage_fits(
            between.storage(),
            before.storage_limit(),
        ),
        after.answers_storage(between, key, again),
    ensures
        again == Ok::<U256, ProviderError>(value),
        after.storage() == between.storage(),
        after.keeps_storage(),
{
}

/// Code that one read gave, a later read finds again, whether or not the epoch has
/// changed in between: `changed` is the cache once it has been told of a new epoch, which
/// leaves the code alone. It takes code that has been within its limit and is so with
/// what was read.
pub proof fn code_is_found_again(
    before: GlobalSharedCache,
    between: GlobalSharedCache,
    changed: GlobalSharedCache,
    after: GlobalSharedCache,
    code_hash: B256,
    code: Bytecode,
    again: Result<Bytecode, ProviderError>,
)
    requires
        before.keeps_bytecodes(),
        between.answers_bytecode(before, code_hash, Ok(code)),
        between.bytecodes() == before.bytecodes() || code_fits(
            between.bytecodes(),
            before.bytecode_limit(),
        ),
        changed.bytecodes() == between.bytecodes(),
        changed.keeps_bytecodes() == between.keeps_bytecodes(),
        after.answers_bytecode(changed, code_hash, again),
    ensures
        again matches Ok(found) && found@ == code@,
        after.bytecodes() == between.bytecodes(),
        after.keeps_bytecodes(),
{
}

/// A new cache has nothing in it and has dropped nothing. Its memory is divided among the
/// three kinds of entry, storage values, accounts and code, without rest.
pub proof fn new_caches_divide_the_memory(cache: GlobalSharedCache, max_mb: u64)
    requires
        cache.is_new(max_mb),
    ensures
        cache.accounts().len() == 0,
        cache.storage().len() == 0,
        cache.bytecodes().len() == 0,
        cache.keeps_accounts() && cache.keeps_storage() && cache.keeps_bytecodes(),
        max_mb * 1_048_576 * 70 <= u64::MAX ==> {
            let bytes = max_mb * 1_048_576;
            &&& cache.storage_limit() * 100 <= bytes * 70 < (cache.storage_limit() + 1) * 100
            &&& cache.account_limit() * 100 <= bytes * 25 < (cache.account_limit() + 1) * 100
            &&& cache.storage_limit() + cache.account_limit() + cache.bytecode_limit() == bytes
        },
{
    budgets_are_seventy_and_twenty_five_percent(max_mb as nat);
}

/// A set of state that is known not to have changed. Nothing is in it.
#[derive(Debug, Default)]
pub struct SafeUnchangedSet;

impl SafeUnchangedSet {
    pub fn empty() -> (set: Self)
        ensures
            set == SafeUnchangedSet,
    {
        SafeUnchangedSet
    }
}

} // verus!
