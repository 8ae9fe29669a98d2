use reth_mev::cache::diff::SHARED_EPOCH;
use reth_mev::cache::weight::{
    account_weigher, bytecode_weigher, divide_budget, storage_weigher, ACCOUNT_WEIGHT, CODE_OVERHEAD,
    STORAGE_WEIGHT,
};
use reth_mev::cache::{GlobalSharedCache, SafeUnchangedSet};
use reth_mev::chain::{AccountChange, CanonStateNotification, Chain, SlotChange, Tip};
use reth_mev::primitives::{AccountInfo, Address, Bytecode, ProviderError, B256, U256};
use reth_mev::worker::cache::WorkerL1Cache;
use std::sync::atomic::{AtomicUsize, Ordering};
use std::sync::Arc;

fn word(n: u8) -> U256 {
    let mut bytes = [0u8; 32];
    bytes[31] = n;
    U256(bytes)
}

fn account(nonce: u64) -> Option<AccountInfo> {
    Some(AccountInfo { nonce, ..Default::default() })
}

fn failure(message: &str) -> ProviderError {
    ProviderError { message: message.to_string() }
}

fn cached_nonce(cache: &mut GlobalSharedCache, epoch: u64, address: Address) -> Option<u64> {
    match cache.read_account(epoch, address, || Err(failure("not cached"))) {
        Ok((info, false)) => Some(info.map(|info| info.nonce).unwrap_or(u64::MAX)),
        Ok((_, true)) => unreachable!(),
        Err(_) => None,
    }
}

fn cached_slot(cache: &mut GlobalSharedCache, epoch: u64, address: Address, slot: U256) -> Option<U256> {
    cache.get_or_load_storage(epoch, address, slot, || Err(failure("not cached"))).ok()
}

fn chain(accounts: Vec<AccountChange>) -> Chain {
    Chain {
        tip: Some(Tip { number: 7, hash: B256::from([7u8; 32]) }),
        accounts,
        receipts: vec![],
    }
}

#[test]
fn test_epoch_namespace_isolation() {
    let mut cache = GlobalSharedCache::new(256);
    let addr = Address::from([0x02u8; 20]);

    let v1 = cache
        .get_or_load_account(1_u64, addr, || {
            Ok(Some(AccountInfo { nonce: 10, ..Default::default() }))
        })
        .unwrap();
    assert_eq!(v1.unwrap().nonce, 10);

    let epoch2_called = Arc::new(AtomicUsize::new(0));
    let c = epoch2_called.clone();
    let v2 = cache
        .get_or_load_account(2_u64, addr, move || {
            c.fetch_add(1, Ordering::Relaxed);
            Ok(None)
        })
        .unwrap();

    assert_eq!(epoch2_called.load(Ordering::Relaxed), 1);
    assert!(v2.is_none());
}

#[test]
fn test_negative_cache() {
    let mut cache = GlobalSharedCache::new(256);
    let addr = Address::from([0x03u8; 20]);

    let v1 = cache.get_or_load_account(1_u64, addr, || Ok(None)).unwrap();
    assert!(v1.is_none());

    let db2_called = Arc::new(AtomicUsize::new(0));
    let c = db2_called.clone();
    let v2 = cache
        .get_or_load_account(1_u64, addr, move || {
            c.fetch_add(1, Ordering::Relaxed);
            Ok(Some(AccountInfo { nonce: 99, ..Default::default() }))
        })
        .unwrap();

    assert_eq!(db2_called.load(Ordering::Relaxed), 0);
    assert!(v2.is_none());
}

#[test]
fn test_l2_hit_backfills_l1() {
    let mut cache = GlobalSharedCache::new(256);
    let addr = Address::from([0x04u8; 20]);

    let _ = cache
        .get_or_load_account(1_u64, addr, || {
            Ok(Some(AccountInfo { nonce: 77, ..Default::default() }))
        })
        .unwrap();

    let mut l1_b = WorkerL1Cache::new(1);
    let db2_called = Arc::new(AtomicUsize::new(0));
    let c = db2_called.clone();
    let info = cache
        .get_or_load_account(1_u64, addr, move || {
            c.fetch_add(1, Ordering::Relaxed);
            Ok(Some(AccountInfo { nonce: 0, ..Default::default() }))
        })
        .unwrap();
    assert_eq!(db2_called.load(Ordering::Relaxed), 0);

    l1_b.accounts.insert(addr, info.clone());
    assert_eq!(l1_b.accounts.get(&addr).unwrap().as_ref().unwrap().nonce, 77);
}

#[test]
fn test_three_layer_l1_priority() {
    let mut cache = GlobalSharedCache::new(256);
    let mut l1 = WorkerL1Cache::new(1);
    let addr = Address::from([0x05u8; 20]);
    l1.accounts.insert(addr, Some(AccountInfo { nonce: 99, ..Default::default() }));

    let l2_called = Arc::new(AtomicUsize::new(0));
    let hit = if let Some(v) = l1.accounts.get(&addr) {
        v.clone()
    } else {
        let c = l2_called.clone();
        cache
            .get_or_load_account(1_u64, addr, move || {
                c.fetch_add(1, Ordering::Relaxed);
                Ok(None)
            })
            .unwrap()
    };

    assert_eq!(hit.unwrap().nonce, 99);
    assert_eq!(l2_called.load(Ordering::Relaxed), 0);
}

#[test]
fn test_bytecode_l2_dedup() {
    let mut cache = GlobalSharedCache::new(256);
    let code_hash = B256::from([0xabu8; 32]);
    let code = Bytecode::new_raw(vec![0x60, 0x01]);

    let c1 = cache.get_or_load_bytecode(code_hash, || Ok(code.clone())).unwrap();
    assert_eq!(c1.len(), 2);

    let db2_called = Arc::new(AtomicUsize::new(0));
    let c = db2_called.clone();
    let c2 = cache
        .get_or_load_bytecode(code_hash, move || {
            c.fetch_add(1, Ordering::Relaxed);
            Ok(Bytecode::new_raw(vec![0xff]))
        })
        .unwrap();

    assert_eq!(db2_called.load(Ordering::Relaxed), 0);
    assert_eq!(c2.len(), 2);
    assert_eq!(c2.bytes(), &vec![0x60, 0x01]);
}

#[test]
fn test_bytecodes_retained_after_reset() {
    let mut l1 = WorkerL1Cache::new(1);
    let hash = B256::from([0xabu8; 32]);
    l1.bytecodes.insert(hash, Bytecode::new_raw(vec![0x60]));

    l1.reset(2);

    assert!(l1.bytecodes.contains_key(&hash));
    assert!(l1.accounts.is_empty());
    assert!(l1.storage.is_empty());
    assert_eq!(l1.epoch_id, 2);
}

#[test]
fn reset_drops_accounts_and_storage() {
    let mut l1 = WorkerL1Cache::new(1);
    assert!(l1.is_valid_for(1));
    let addr = Address::from([9u8; 20]);
    l1.accounts.insert(addr, account(3));
    l1.storage.insert((addr, word(1)), word(2));
    assert!(!l1.accounts.is_empty());
    assert!(!l1.storage.is_empty());
    l1.reset(2);
    assert!(l1.accounts.get(&addr).is_none());
    assert!(l1.storage.get(&(addr, word(1))).is_none());
    assert!(l1.is_valid_for(2));
    assert!(!l1.is_valid_for(1));
}

#[test]
fn own_cache_tells_colliding_keys_apart() {
    let mut l1 = WorkerL1Cache::new(1);
    let mut a = [0u8; 20];
    let mut b = [0u8; 20];
    a[0] = 1;
    b[0] = 2;
    l1.accounts.insert(Address(a), account(1));
    l1.accounts.insert(Address(b), account(2));
    l1.accounts.insert(Address(a), account(3));
    assert_eq!(l1.accounts.get(&Address(a)).unwrap().unwrap().nonce, 3);
    assert_eq!(l1.accounts.get(&Address(b)).unwrap().unwrap().nonce, 2);
    assert!(l1.accounts.get(&Address([0u8; 20])).is_none());
}

#[test]
fn load_errors_come_through_and_are_not_kept() {
    let mut cache = GlobalSharedCache::new(256);
    let addr = Address::from([1u8; 20]);
    let error = cache.get_or_load_account(1, addr, || Err(failure("disk"))).unwrap_err();
    assert_eq!(error.message, "disk");
    let error = cache.get_or_load_storage(1, addr, word(1), || Err(failure("slot"))).unwrap_err();
    assert_eq!(error.message, "slot");
    let error = cache
        .get_or_load_bytecode(B256::from([1u8; 32]), || Err(failure("code")))
        .unwrap_err();
    assert_eq!(error.message, "code");
    let info = cache.get_or_load_account(1, addr, || Ok(account(4))).unwrap();
    assert_eq!(info.unwrap().nonce, 4);
}

#[test]
fn reads_tell_whether_they_loaded() {
    let mut cache = GlobalSharedCache::new(256);
    let addr = Address::from([1u8; 20]);
    assert!(matches!(cache.read_account(1, addr, || Ok(account(4))), Ok((Some(_), true))));
    assert!(matches!(cache.read_account(1, addr, || Ok(account(5))), Ok((Some(_), false))));
    assert!(matches!(cache.read_storage(1, addr, word(1), || Ok(word(2))), Ok((_, true))));
    let (value, fresh) = cache.read_storage(1, addr, word(1), || Ok(word(3))).unwrap();
    assert_eq!((value, fresh), (word(2), false));
    let hash = B256::from([1u8; 32]);
    let (_, fresh) = cache.read_bytecode(hash, || Ok(Bytecode::new_raw(vec![1]))).unwrap();
    assert!(fresh);
    let (code, fresh) = cache.read_bytecode(hash, || Ok(Bytecode::new_raw(vec![2]))).unwrap();
    assert!(!fresh);
    assert_eq!(code.bytes(), &vec![1]);
}

#[test]
fn epoch_change_drops_all_but_code() {
    let mut cache = GlobalSharedCache::new(256);
    let addr = Address::from([1u8; 20]);
    let hash = B256::from([1u8; 32]);
    cache.get_or_load_account(1, addr, || Ok(account(4))).unwrap();
    cache.get_or_load_storage(1, addr, word(1), || Ok(word(2))).unwrap();
    cache.get_or_load_bytecode(hash, || Ok(Bytecode::new_raw(vec![1]))).unwrap();
    cache.on_epoch_change();
    assert_eq!(cached_nonce(&mut cache, 1, addr), None);
    assert_eq!(cached_slot(&mut cache, 1, addr, word(1)), None);
    assert!(cache.get_or_load_bytecode(hash, || Err(failure("gone"))).is_ok());
}

#[test]
fn test_diff_invalidation() {
    let mut cache = GlobalSharedCache::new(256);
    let changed = Address::from([1u8; 20]);
    let unchanged = Address::from([2u8; 20]);
    let destroyed = Address::from([3u8; 20]);
    for address in [changed, unchanged, destroyed] {
        cache.get_or_load_account(SHARED_EPOCH, address, || Ok(account(1))).unwrap();
        cache.get_or_load_storage(SHARED_EPOCH, address, word(1), || Ok(word(1))).unwrap();
        cache.get_or_load_storage(SHARED_EPOCH, address, word(2), || Ok(word(2))).unwrap();
    }
    cache.get_or_load_account(5, changed, || Ok(account(50))).unwrap();
    let commit = CanonStateNotification::Commit {
        new: chain(vec![
            AccountChange {
                address: changed,
                info: account(9),
                was_destroyed: false,
                storage: vec![SlotChange { slot: word(1), present_value: word(11) }],
            },
            AccountChange {
                address: destroyed,
                info: None,
                was_destroyed: true,
                storage: vec![SlotChange { slot: word(1), present_value: word(0) }],
            },
        ]),
    };
    cache.on_epoch_change_diff(&commit);
    assert_eq!(cached_nonce(&mut cache, SHARED_EPOCH, changed), None);
    assert_eq!(cached_slot(&mut cache, SHARED_EPOCH, changed, word(1)), None);
    cache.pre_fill_diff(&commit);
    assert_eq!(cached_nonce(&mut cache, SHARED_EPOCH, changed), Some(9));
    assert_eq!(cached_slot(&mut cache, SHARED_EPOCH, changed, word(1)), Some(word(11)));
    assert_eq!(cached_slot(&mut cache, SHARED_EPOCH, changed, word(2)), Some(word(2)));
    assert_eq!(cached_nonce(&mut cache, SHARED_EPOCH, unchanged), Some(1));
    assert_eq!(cached_slot(&mut cache, SHARED_EPOCH, unchanged, word(1)), Some(word(1)));
    assert_eq!(cached_nonce(&mut cache, SHARED_EPOCH, destroyed), None);
    assert_eq!(cached_slot(&mut cache, SHARED_EPOCH, destroyed, word(1)), None);
    assert_eq!(cached_nonce(&mut cache, 5, changed), Some(50));
}

#[test]
fn reorg_drops_everything_and_fills_nothing() {
    let mut cache = GlobalSharedCache::new(256);
    let addr = Address::from([1u8; 20]);
    let other = Address::from([2u8; 20]);
    let hash = B256::from([1u8; 32]);
    cache.get_or_load_account(SHARED_EPOCH, other, || Ok(account(1))).unwrap();
    cache.get_or_load_bytecode(hash, || Ok(Bytecode::new_raw(vec![1]))).unwrap();
    let reorg = CanonStateNotification::Reorg {
        new: chain(vec![AccountChange {
            address: addr,
            info: account(9),
            was_destroyed: false,
            storage: vec![SlotChange { slot: word(1), present_value: word(11) }],
        }]),
    };
    cache.on_epoch_change_diff(&reorg);
    cache.pre_fill_diff(&reorg);
    assert_eq!(cached_nonce(&mut cache, SHARED_EPOCH, other), None);
    assert_eq!(cached_nonce(&mut cache, SHARED_EPOCH, addr), None);
    assert_eq!(cached_slot(&mut cache, SHARED_EPOCH, addr, word(1)), None);
    assert!(cache.get_or_load_bytecode(hash, || Err(failure("gone"))).is_ok());
}

#[test]
fn prefetch_changes_nothing() {
    let mut cache = GlobalSharedCache::new(256);
    let addr = Address::from([1u8; 20]);
    cache.get_or_load_account(1, addr, || Ok(account(4))).unwrap();
    cache.eager_prefetch(2, &SafeUnchangedSet::empty());
    assert_eq!(cached_nonce(&mut cache, 1, addr), Some(4));
    assert_eq!(cached_nonce(&mut cache, 2, addr), None);
}

#[test]
fn a_cache_without_room_still_reads() {
    let mut cache = GlobalSharedCache::new(0);
    let addr = Address::from([1u8; 20]);
    let info = cache.get_or_load_account(1, addr, || Ok(account(4))).unwrap();
    assert_eq!(info.unwrap().nonce, 4);
    assert_eq!(cache.account_entry_count(), 0);
    assert_eq!(cache.storage_entry_count(), 0);
    assert_eq!(cache.bytecode_entry_count(), 0);
}

#[test]
fn entries_weigh_what_they_take() {
    let addr = Address::from([1u8; 20]);
    assert_eq!(account_weigher(&(1, addr.0), &account(1)), 200);
    assert_eq!(account_weigher(&(1, addr.0), &None), 200);
    assert_eq!(storage_weigher(&(1, addr.0, word(1).0), &word(1)), 192);
    let code = Bytecode::new_raw(vec![0; 24_576]);
    assert_eq!(bytecode_weigher(&[1u8; 32], &code), 24_708);
}

#[test]
fn budget_is_divided_70_25_5() {
    let budgets = divide_budget(100);
    assert_eq!(budgets.storage, 73_400_320);
    assert_eq!(budgets.accounts, 26_214_400);
    assert_eq!(budgets.bytecodes, 5_242_880);
    let budgets = divide_budget(16_384);
    assert_eq!(
        budgets.storage + budgets.accounts + budgets.bytecodes,
        16_384 * 1024 * 1024
    );
}

#[test]
fn budget_saturates() {
    let budgets = divide_budget(u64::MAX);
    assert_eq!(budgets.storage, u64::MAX / 100);
    assert_eq!(budgets.accounts, u64::MAX / 100);
    assert_eq!(budgets.bytecodes, u64::MAX - 2 * (u64::MAX / 100));
    let budgets = divide_budget(0);
    assert_eq!((budgets.storage, budgets.accounts, budgets.bytecodes), (0, 0, 0));
}

#[test]
fn each_kind_of_entry_is_counted_apart() {
    let mut cache = GlobalSharedCache::new(256);
    assert_eq!(cache.account_entry_count(), 0);
    for i in 0..200u8 {
        cache.get_or_load_account(1, Address::from([i; 20]), || Ok(account(1))).unwrap();
    }
    let count = cache.account_entry_count();
    assert!(0 < count && count <= 200);
    assert_eq!(cache.account_entry_count(), count);
    assert_eq!(cache.storage_entry_count(), 0);
    assert_eq!(cache.bytecode_entry_count(), 0);
    let addr = Address::from([1u8; 20]);
    for i in 0..100u8 {
        cache.get_or_load_storage(1, addr, U256([i; 32]), || Ok(word(1))).unwrap();
    }
    let slots = cache.storage_entry_count();
    assert!(0 < slots && slots <= 100);
    assert_eq!(cache.account_entry_count(), count);
    assert_eq!(cache.bytecode_entry_count(), 0);
    assert_eq!(cache.account_weight(), 200 * count);
    assert_eq!(cache.storage_weight(), 192 * slots);
    assert_eq!(cache.bytecode_weight(), 0);
    cache.on_epoch_change();
    assert_eq!(cache.account_entry_count() + cache.account_weight(), 0);
    assert_eq!(cache.storage_entry_count() + cache.storage_weight(), 0);
    for i in 0..200u8 {
        assert_eq!(cached_nonce(&mut cache, 1, Address::from([i; 20])), None);
    }
}

fn numbered_address(n: u32) -> Address {
    let mut bytes = [0u8; 20];
    bytes[16..20].copy_from_slice(&n.to_be_bytes());
    Address::from(bytes)
}

#[test]
fn a_full_cache_finds_every_account_again() {
    let mut cache = GlobalSharedCache::new(1);
    let room = (divide_budget(1).accounts / ACCOUNT_WEIGHT as u64) as u32;
    assert_eq!(room, 1310);
    for n in 0..room {
        let info = if n % 3 == 0 { None } else { account(n as u64) };
        let (_, loaded) = cache
            .read_account(SHARED_EPOCH, numbered_address(n), || Ok(info))
            .unwrap();
        assert!(loaded);
    }
    for _ in 0..3 {
        for n in 0..room {
            let expected = if n % 3 == 0 { u64::MAX } else { n as u64 };
            assert_eq!(cached_nonce(&mut cache, SHARED_EPOCH, numbered_address(n)), Some(expected));
        }
    }
}

#[test]
fn a_full_cache_finds_every_slot_again() {
    let mut cache = GlobalSharedCache::new(1);
    let room = (divide_budget(1).storage / STORAGE_WEIGHT as u64) as u32;
    assert_eq!(room, 3822);
    for n in 0..room {
        let (_, loaded) = cache
            .read_storage(SHARED_EPOCH, numbered_address(n), word(1), || Ok(word((n % 251) as u8)))
            .unwrap();
        assert!(loaded);
    }
    for _ in 0..3 {
        for n in 0..room {
            assert_eq!(
                cached_slot(&mut cache, SHARED_EPOCH, numbered_address(n), word(1)),
                Some(word((n % 251) as u8))
            );
        }
    }
}

#[test]
fn a_full_cache_finds_code_again_in_the_next_epoch() {
    let mut cache = GlobalSharedCache::new(1);
    let room = (divide_budget(1).bytecodes / (CODE_OVERHEAD as u64 + 1000)) as u8;
    assert_eq!(room, 46);
    for n in 0..room {
        let hash = B256::from([n; 32]);
        cache.get_or_load_bytecode(hash, || Ok(Bytecode::new_raw(vec![n; 1000]))).unwrap();
    }
    cache.on_epoch_change();
    for n in 0..room {
        let hash = B256::from([n; 32]);
        let (code, loaded) = cache.read_bytecode(hash, || Err(failure("not cached"))).unwrap();
        assert!(!loaded);
        assert_eq!(*code.bytes(), vec![n; 1000]);
    }
}

#[test]
fn a_full_cache_keeps_up_with_the_chain() {
    let mut cache = GlobalSharedCache::new(1);
    let room = (divide_budget(1).accounts / ACCOUNT_WEIGHT as u64) as u32;
    for n in 0..room {
        cache.get_or_load_account(SHARED_EPOCH, numbered_address(n), || Ok(account(1))).unwrap();
    }
    for block in 2..6u64 {
        let changes = (0..room)
            .step_by(2)
            .map(|n| AccountChange {
                address: numbered_address(n),
                info: account(block),
                was_destroyed: false,
                storage: vec![],
            })
            .collect();
        let notification = CanonStateNotification::Commit { new: chain(changes) };
        cache.on_epoch_change_diff(&notification);
        cache.pre_fill_diff(&notification);
        for n in 0..room {
            let expected = if n % 2 == 0 { block } else { 1 };
            assert_eq!(cached_nonce(&mut cache, SHARED_EPOCH, numbered_address(n)), Some(expected));
        }
    }
}
