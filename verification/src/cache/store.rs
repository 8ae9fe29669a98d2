//! The `moka` caches that stand behind the shared read cache.
//!
//! What is said of the entries of a cache is which of them it may hand out: those that
//! were put in and have since been neither replaced nor invalidated. A `moka` cache drops
//! some of them for want of room, and for nothing else, since no entry is given a time to
//! live. As long as the entries have been within the limit all along, it still has every
//! one of them. The functions take the cache by `&mut`, so nobody else is at work on it
//! meanwhile.

use vstd::prelude::*;
use crate::primitives::{AccountInfo, Address, B256, Bytecode, ProviderError, U256};
use super::weight::{
    account_weigher, accounts_fit, bytecode_weigher, code_fits, storage_fits, storage_weigher,
};
use moka::sync::Cache;
use std::sync::Arc;

verus! {

/// The concurrent cache of the `moka` crate.
#[verifier::external_type_specification]
#[verifier::external_body]
#[verifier::reject_recursive_types(K)]
#[verifier::reject_recursive_types(V)]
#[verifier::reject_recursive_types(S)]
pub struct ExCache<K, V, S>(Cache<K, V, S>);

/// Accounts by epoch and the bytes of the address. `None` records that there is no
/// such account.
pub type AccountCache = Cache<(u64, [u8; 20]), Option<AccountInfo>>;

/// Storage values by epoch and the bytes of address and slot.
pub type StorageCache = Cache<(u64, [u8; 20], [u8; 32]), U256>;

/// Code by the bytes of its hash.
pub type BytecodeCache = Cache<[u8; 32], Bytecode>;

/// What an [`AccountCache`] holds.
pub type AccountEntries = Map<(u64, Address), Option<AccountInfo>>;

/// What a [`StorageCache`] holds.
pub type StorageEntries = Map<(u64, Address, U256), U256>;

/// What a [`BytecodeCache`] holds.
pub type BytecodeEntries = Map<B256, Seq<u8>>;

/// The accounts that were put into the cache and have since been neither
/// replaced nor invalidated.
pub uninterp spec fn account_entries(cache: AccountCache) -> AccountEntries;

/// The storage values that were put into the cache and have since been neither
/// replaced nor invalidated.
pub uninterp spec fn storage_entries(cache: StorageCache) -> StorageEntries;

/// The bytes of the code that was put into the cache and has since been neither
/// replaced nor invalidated.
pub uninterp spec fn bytecode_entries(cache: BytecodeCache) -> BytecodeEntries;

/// The weight that the accounts are kept to.
pub uninterp spec fn account_limit(cache: AccountCache) -> u64;

/// The weight that the storage values are kept to.
pub uninterp spec fn storage_limit(cache: StorageCache) -> u64;

/// The weight that the code is kept to.
pub uninterp spec fn bytecode_limit(cache: BytecodeCache) -> u64;

/// Whether the accounts have been within the limit all along, so that none was dropped.
pub uninterp spec fn account_kept(cache: AccountCache) -> bool;

/// Whether the storage values have been within the limit all along.
pub uninterp spec fn storage_kept(cache: StorageCache) -> bool;

/// Whether the code has been within the limit all along.
pub uninterp spec fn bytecode_kept(cache: BytecodeCache) -> bool;

/// The keys that the cache of accounts was asked for, in this order, found or not.
pub uninterp spec fn account_lookups(cache: AccountCache) -> Seq<(u64, Address)>;

/// The keys that the cache of storage values was asked for, in this order.
pub uninterp spec fn storage_lookups(cache: StorageCache) -> Seq<(u64, Address, U256)>;

/// The keys that the cache of code was asked for, in this order.
pub uninterp spec fn bytecode_lookups(cache: BytecodeCache) -> Seq<B256>;

/// The number of accounts as of the last maintenance of the cache. What was put in or
/// has left since then is not in it, so it says little of [`account_entries`].
pub uninterp spec fn account_count(cache: AccountCache) -> u64;

/// The number of storage values as of the last maintenance of the cache.
pub uninterp spec fn storage_count(cache: StorageCache) -> u64;

/// The number of pieces of code as of the last maintenance of the cache.
pub uninterp spec fn bytecode_count(cache: BytecodeCache) -> u64;

/// The weight of the accounts as of the last maintenance of the cache.
pub uninterp spec fn account_size(cache: AccountCache) -> u64;

/// The weight of the storage values as of the last maintenance of the cache.
pub uninterp spec fn storage_size(cache: StorageCache) -> u64;

/// The weight of the code as of the last maintenance of the cache.
pub uninterp spec fn bytecode_size(cache: BytecodeCache) -> u64;

/// Builds a cache with `moka::sync::CacheBuilder`, weighed by
/// [`account_weigher`]: it starts empty, with nothing dropped, counted, weighed or asked
/// for, and keeps the limit that it is given.
#[verifier::external_body]
pub(crate) fn build_accounts(max_capacity: u64) -> (cache: AccountCache)
    ensures
        account_entries(cache) == AccountEntries::empty(),
        account_limit(cache) == max_capacity,
        account_kept(cache),
        account_count(cache) == 0,
        account_size(cache) == 0,
        account_lookups(cache).len() == 0,
{
    Cache::builder().max_capacity(max_capacity).weigher(account_weigher).build()
}

/// Builds a cache with `moka::sync::CacheBuilder`, weighed by
/// [`storage_weigher`]: it starts empty, with nothing dropped, counted, weighed or asked
/// for, and keeps the limit that it is given.
#[verifier::external_body]
pub(crate) fn build_storage(max_capacity: u64) -> (cache: StorageCache)
    ensures
        storage_entries(cache) == StorageEntries::empty(),
        storage_limit(cache) == max_capacity,
        storage_kept(cache),
        storage_count(cache) == 0,
        storage_size(cache) == 0,
        storage_lookups(cache).len() == 0,
{
    Cache::builder().max_capacity(max_capacity).weigher(storage_weigher).build()
}

/// Builds a cache with `moka::sync::CacheBuilder`, weighed by
/// [`bytecode_weigher`]: it starts empty, with nothing dropped, counted, weighed or asked
/// for, and keeps the limit that it is given.
#[verifier::external_body]
pub(crate) fn build_bytecodes(max_capacity: u64) -> (cache: BytecodeCache)
    ensures
        bytecode_entries(cache) == BytecodeEntries::empty(),
        bytecode_limit(cache) == max_capacity,
        bytecode_kept(cache),
        bytecode_count(cache) == 0,
        bytecode_size(cache) == 0,
        bytecode_lookups(cache).len() == 0,
{
    Cache::builder().max_capacity(max_capacity).weigher(bytecode_weigher).build()
}

/// Reads through the cache with `entry(..).or_try_insert_with(..)`, the same
/// read-through as `try_get_with`, whose entry also tells whether it is fresh. What
/// is not fresh was an entry; what is fresh, and every error, `load` returned.
/// `load` runs for lack of an entry only, so never for one that was put in while nothing
/// has been dropped. A fresh value is put in, and nothing is dropped for it while there is
/// room. Either way the cache was asked for the key.
#[verifier::external_body]
pub(crate) fn read_account<F>(cache: &mut AccountCache, key: (u64, Address), load: F) -> (result:
    Result<(Option<AccountInfo>, bool), Arc<ProviderError>>) where
    F: FnOnce() -> Result<Option<AccountInfo>, ProviderError>,

    requires
        load.requires(()),
    ensures
        account_limit(*final(cache)) == account_limit(*old(cache)),
        account_lookups(*final(cache)) == account_lookups(*old(cache)).push(key),
        account_kept(*old(cache)) && account_entries(*old(cache)).contains_key(key)
            ==> (result matches Ok((_, false))),
        account_kept(*old(cache)) && (account_entries(*final(cache)) == account_entries(
            *old(cache),
        ) || accounts_fit(account_entries(*final(cache)), account_limit(*old(cache))))
            ==> account_kept(*final(cache)),
        match result {
            Ok((info, true)) => {
                &&& load.ensures((), Ok(info))
                &&& account_entries(*final(cache)) == account_entries(*old(cache)).insert(key, info)
            },
            Ok((info, false)) => {
                &&& account_entries(*old(cache)).contains_pair(key, info)
                &&& account_entries(*final(cache)) == account_entries(*old(cache))
            },
            Err(error) => {
                &&& load.ensures((), Err(*error))
                &&& account_entries(*final(cache)) == account_entries(*old(cache))
            },
        },
{
    cache.entry((key.0, key.1.0)).or_try_insert_with(load).map(
        |entry| (*entry.value(), entry.is_fresh()))
}

/// Reads a storage value through the cache, as [`read_account`] does an account.
#[verifier::external_body]
pub(crate) fn read_storage<F>(cache: &mut StorageCache, key: (u64, Address, U256), load: F) -> (result:
    Result<(U256, bool), Arc<ProviderError>>) where F: FnOnce() -> Result<U256, ProviderError>,

    requires
        load.requires(()),
    ensures
        storage_limit(*final(cache)) == storage_limit(*old(cache)),
        storage_lookups(*final(cache)) == storage_lookups(*old(cache)).push(key),
        storage_kept(*old(cache)) && storage_entries(*old(cache)).contains_key(key)
            ==> (result matches Ok((_, false))),
        storage_kept(*old(cache)) && (storage_entries(*final(cache)) == storage_entries(
            *old(cache),
        ) || storage_fits(storage_entries(*final(cache)), storage_limit(*old(cache))))
            ==> storage_kept(*final(cache)),
        match result {
            Ok((value, true)) => {
                &&& load.ensures((), Ok(value))
                &&& storage_entries(*final(cache)) == storage_entries(*old(cache)).insert(key, value)
            },
            Ok((value, false)) => {
                &&& storage_entries(*old(cache)).contains_pair(key, value)
                &&& storage_entries(*final(cache)) == storage_entries(*old(cache))
            },
            Err(error) => {
                &&& load.ensures((), Err(*error))
                &&& storage_entries(*final(cache)) == storage_entries(*old(cache))
            },
        },
{
    cache.entry((key.0, key.1.0, key.2.0)).or_try_insert_with(load).map(
        |entry| (*entry.value(), entry.is_fresh()))
}

/// Reads code through the cache, as [`read_account`] does an account.
#[verifier::external_body]
pub(crate) fn read_bytecode<F>(cache: &mut BytecodeCache, key: B256, load: F) -> (result: Result<
    (Bytecode, bool),
    Arc<ProviderError>,
>) where F: FnOnce() -> Result<Bytecode, ProviderError>,

    requires
        load.requires(()),
    ensures
        bytecode_limit(*final(cache)) == bytecode_limit(*old(cache)),
        bytecode_lookups(*final(cache)) == bytecode_lookups(*old(cache)).push(key),
        bytecode_kept(*old(cache)) && bytecode_entries(*old(cache)).contains_key(key)
            ==> (result matches Ok((_, false))),
        bytecode_kept(*old(cache)) && (bytecode_entries(*final(cache)) == bytecode_entries(
            *old(cache),
        ) || code_fits(bytecode_entries(*final(cache)), bytecode_limit(*old(cache))))
            ==> bytecode_kept(*final(cache)),
        match result {
            Ok((code, true)) => {
                &&& load.ensures((), Ok(code))
                &&& bytecode_entries(*final(cache)) == bytecode_entries(*old(cache)).insert(key, code@)
            },
            Ok((code, false)) => {
                &&& bytecode_entries(*old(cache)).contains_pair(key, code@)
                &&& bytecode_entries(*final(cache)) == bytecode_entries(*old(cache))
            },
            Err(error) => {
                &&& load.ensures((), Err(*error))
                &&& bytecode_entries(*final(cache)) == bytecode_entries(*old(cache))
            },
        },
{
    cache.entry(key.0).or_try_insert_with(load).map(
        |entry| { let fresh = entry.is_fresh(); (entry.into_value(), fresh) })
}

/// `Cache::insert`: puts an account in, in place of what was there. Nothing is dropped for
/// it while there is room.
#[verifier::external_body]
pub(crate) fn insert_account(cache: &mut AccountCache, key: (u64, Address), info: Option<AccountInfo>)
    ensures
        account_limit(*final(cache)) == account_limit(*old(cache)),
        account_lookups(*final(cache)) == account_lookups(*old(cache)),
        account_kept(*old(cache)) && (account_entries(*final(cache)) == account_entries(
            *old(cache),
        ) || accounts_fit(account_entries(*final(cache)), account_limit(*old(cache))))
            ==> account_kept(*final(cache)),
        account_entries(*final(cache)) == account_entries(*old(cache)).insert(key, info),
{
    cache.insert((key.0, key.1.0), info)
}

/// `Cache::insert`: puts a storage value in, as [`insert_account`] does an account.
#[verifier::external_body]
pub(crate) fn insert_storage(cache: &mut StorageCache, key: (u64, Address, U256), value: U256)
    ensures
        storage_limit(*final(cache)) == storage_limit(*old(cache)),
        storage_lookups(*final(cache)) == storage_lookups(*old(cache)),
        storage_kept(*old(cache)) && (storage_entries(*final(cache)) == storage_entries(
            *old(cache),
        ) || storage_fits(storage_entries(*final(cache)), storage_limit(*old(cache))))
            ==> storage_kept(*final(cache)),
        storage_entries(*final(cache)) == storage_entries(*old(cache)).insert(key, value),
{
    cache.insert((key.0, key.1.0, key.2.0), value)
}

/// `Cache::invalidate`: discards the account under `key`.
#[verifier::external_body]
pub(crate) fn invalidate_account(cache: &mut AccountCache, key: (u64, Address))
    ensures
        account_limit(*final(cache)) == account_limit(*old(cache)),
        account_lookups(*final(cache)) == account_lookups(*old(cache)),
        account_kept(*old(cache)) ==> account_kept(*final(cache)),
        account_entries(*final(cache)) == account_entries(*old(cache)).remove(key),
{
    cache.invalidate(&(key.0, key.1.0))
}

/// `Cache::invalidate`: discards the storage value under `key`.
#[verifier::external_body]
pub(crate) fn invalidate_storage(cache: &mut StorageCache, key: (u64, Address, U256))
    ensures
        storage_limit(*final(cache)) == storage_limit(*old(cache)),
        storage_lookups(*final(cache)) == storage_lookups(*old(cache)),
        storage_kept(*old(cache)) ==> storage_kept(*final(cache)),
        storage_entries(*final(cache)) == storage_entries(*old(cache)).remove(key),
{
    cache.invalidate(&(key.0, key.1.0, key.2.0))
}

/// `Cache::entry_count`: the count that the cache keeps. It is an estimate of the
/// number of accounts. Only maintenance changes it, which comes along with operations
/// that put something in, take something out or look something up; when that is so is
/// left open.
#[verifier::external_body]
pub(crate) fn count_accounts(cache: &AccountCache) -> (count: u64)
    ensures
        count == account_count(*cache),
{
    cache.entry_count()
}

/// `Cache::entry_count`: the count that the cache keeps, as [`count_accounts`].
#[verifier::external_body]
pub(crate) fn count_storage(cache: &StorageCache) -> (count: u64)
    ensures
        count == storage_count(*cache),
{
    cache.entry_count()
}

/// `Cache::entry_count`: the count that the cache keeps, as [`count_accounts`].
#[verifier::external_body]
pub(crate) fn count_bytecodes(cache: &BytecodeCache) -> (count: u64)
    ensures
        count == bytecode_count(*cache),
{
    cache.entry_count()
}

/// `Cache::weighted_size`: the weight that the cache keeps, an estimate as
/// [`count_accounts`] is.
#[verifier::external_body]
pub(crate) fn weigh_accounts(cache: &AccountCache) -> (size: u64)
    ensures
        size == account_size(*cache),
{
    cache.weighted_size()
}

/// `Cache::weighted_size`: the weight that the cache keeps, as [`weigh_accounts`].
#[verifier::external_body]
pub(crate) fn weigh_storage(cache: &StorageCache) -> (size: u64)
    ensures
        size == storage_size(*cache),
{
    cache.weighted_size()
}

/// `Cache::weighted_size`: the weight that the cache keeps, as [`weigh_accounts`].
#[verifier::external_body]
pub(crate) fn weigh_bytecodes(cache: &BytecodeCache) -> (size: u64)
    ensures
        size == bytecode_size(*cache),
{
    cache.weighted_size()
}

} // verus!
