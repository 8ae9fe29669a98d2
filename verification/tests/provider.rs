use reth_mev::cache::diff::SHARED_EPOCH;
use reth_mev::cache::GlobalSharedCache;
use reth_mev::metrics::{Labels, Update};
use reth_mev::primitives::{AccountInfo, Address, Bytecode, ProviderError, B256, KECCAK_EMPTY, U256};
use reth_mev::provider::{record_provider_op, CachedStateProvider, ProviderStats};
use reth_mev::worker::cache::WorkerL1Cache;

fn account(nonce: u64) -> Option<AccountInfo> {
    Some(AccountInfo { nonce, ..Default::default() })
}

fn failure() -> ProviderError {
    ProviderError { message: "disk".to_string() }
}

#[test]
fn an_account_is_read_once() {
    let mut l1 = WorkerL1Cache::new(1);
    let mut global = GlobalSharedCache::new(64);
    let addr = Address::from([1u8; 20]);
    let mut provider = CachedStateProvider::new(&mut l1);
    let info = provider.basic(&mut global, addr, || Ok(account(5))).unwrap();
    assert_eq!(info.unwrap().nonce, 5);
    let info = provider.basic(&mut global, addr, || Err(failure())).unwrap();
    assert_eq!(info.unwrap().nonce, 5);
    assert_eq!(provider.stats.l1_misses_account, 1);
    assert_eq!(provider.stats.l1_hits_account, 1);
    assert_eq!(provider.stats.db_reads_account, 1);
    assert_eq!(l1.accounts.get(&addr).unwrap().unwrap().nonce, 5);

    let mut other = WorkerL1Cache::new(1);
    let mut provider = CachedStateProvider::new(&mut other);
    let info = provider.basic(&mut global, addr, || Err(failure())).unwrap();
    assert_eq!(info.unwrap().nonce, 5);
    assert_eq!(provider.stats.l1_misses_account, 1);
    assert_eq!(provider.stats.db_reads_account, 0);
}

#[test]
fn own_accounts_come_before_shared_ones() {
    let mut l1 = WorkerL1Cache::new(1);
    let mut global = GlobalSharedCache::new(64);
    let addr = Address::from([1u8; 20]);
    global.get_or_load_account(SHARED_EPOCH, addr, || Ok(account(1))).unwrap();
    l1.accounts.insert(addr, account(2));
    let mut provider = CachedStateProvider::new(&mut l1);
    let info = provider.basic(&mut global, addr, || Err(failure())).unwrap();
    assert_eq!(info.unwrap().nonce, 2);
}

#[test]
fn absent_accounts_are_remembered() {
    let mut l1 = WorkerL1Cache::new(1);
    let mut global = GlobalSharedCache::new(64);
    let addr = Address::from([1u8; 20]);
    let mut provider = CachedStateProvider::new(&mut l1);
    assert!(provider.basic(&mut global, addr, || Ok(None)).unwrap().is_none());
    assert!(provider.basic(&mut global, addr, || Ok(account(1))).unwrap().is_none());
    assert_eq!(provider.stats.l1_hits_account, 1);
}

#[test]
fn a_failed_read_is_counted_and_keeps_nothing() {
    let mut l1 = WorkerL1Cache::new(1);
    let mut global = GlobalSharedCache::new(64);
    let addr = Address::from([1u8; 20]);
    let hash = B256::from([1u8; 32]);
    let slot = U256([1u8; 32]);
    let mut provider = CachedStateProvider::new(&mut l1);
    assert_eq!(provider.basic(&mut global, addr, || Err(failure())).unwrap_err().message, "disk");
    assert!(provider.storage(&mut global, addr, slot, || Err(failure())).is_err());
    assert!(provider.code_by_hash(&mut global, hash, || Err(failure())).is_err());
    assert_eq!(provider.stats.l1_misses_account, 1);
    assert_eq!(provider.stats.l1_misses_storage, 1);
    assert_eq!(provider.stats.l1_misses_bytecode, 1);
    assert_eq!(provider.stats.db_reads_account, 1);
    assert_eq!(provider.stats.db_reads_storage, 1);
    assert_eq!(provider.stats.db_reads_bytecode, 1);
    assert!(l1.accounts.is_empty());
    assert!(l1.storage.is_empty());
    assert!(l1.bytecodes.is_empty());
}

#[test]
fn storage_and_code_are_read_once() {
    let mut l1 = WorkerL1Cache::new(1);
    let mut global = GlobalSharedCache::new(64);
    let addr = Address::from([1u8; 20]);
    let hash = B256::from([1u8; 32]);
    let slot = U256([1u8; 32]);
    let value = U256([2u8; 32]);
    let mut provider = CachedStateProvider::new(&mut l1);
    assert_eq!(provider.storage(&mut global, addr, slot, || Ok(value)).unwrap(), value);
    assert_eq!(provider.storage(&mut global, addr, slot, || Err(failure())).unwrap(), value);
    let code = provider
        .code_by_hash(&mut global, hash, || Ok(Bytecode::new_raw(vec![0x60])))
        .unwrap();
    assert_eq!(code.bytes(), &vec![0x60]);
    let code = provider.code_by_hash(&mut global, hash, || Err(failure())).unwrap();
    assert_eq!(code.bytes(), &vec![0x60]);
    assert_eq!(provider.stats.l1_hits_storage, 1);
    assert_eq!(provider.stats.l1_misses_storage, 1);
    assert_eq!(provider.stats.db_reads_storage, 1);
    assert_eq!(provider.stats.l1_hits_bytecode, 1);
    assert_eq!(provider.stats.l1_misses_bytecode, 1);
    assert_eq!(provider.stats.db_reads_bytecode, 1);
}

#[test]
fn answers_of_the_shared_cache_are_taken_in() {
    let mut l1 = WorkerL1Cache::new(1);
    let addr = Address::from([1u8; 20]);
    let mut provider = CachedStateProvider::new(&mut l1);
    assert!(provider.lookup_account(addr).is_none());
    provider.accept_account(addr, Ok((account(3), false))).unwrap();
    assert_eq!(provider.stats.db_reads_account, 0);
    assert_eq!(provider.lookup_account(addr).unwrap().unwrap().nonce, 3);
    provider.accept_account(addr, Ok((account(4), true))).unwrap();
    assert_eq!(provider.stats.db_reads_account, 1);
    assert!(provider.accept_account(addr, Err(failure())).is_err());
    assert_eq!(provider.stats.db_reads_account, 2);
    assert_eq!(provider.lookup_account(addr).unwrap().unwrap().nonce, 4);
}

#[test]
fn flush_skips_zeros_and_keeps_order() {
    assert!(ProviderStats::default().flush().is_empty());
    let mut stats = ProviderStats::default();
    stats.l1_hits_storage = 3;
    stats.l1_misses_account = 1;
    stats.db_reads_bytecode = 2;
    let out = stats.flush();
    assert_eq!(out.len(), 3);
    assert_eq!(out[0].metric, "mev_worker_l1_hits_total");
    assert!(matches!(out[0].labels, Labels::One("kind", "storage")));
    assert!(matches!(out[0].update, Update::Increment(3)));
    assert_eq!(out[1].metric, "mev_worker_l1_misses_total");
    assert!(matches!(out[1].labels, Labels::One("kind", "account")));
    assert!(matches!(out[1].update, Update::Increment(1)));
    assert_eq!(out[2].metric, "mev_global_cache_db_reads_total");
    assert!(matches!(out[2].labels, Labels::One("kind", "bytecode")));
    assert!(matches!(out[2].update, Update::Increment(2)));
}

#[test]
fn flush_reports_at_most_nine() {
    let stats = ProviderStats {
        l1_hits_account: 1,
        l1_hits_storage: 1,
        l1_hits_bytecode: 1,
        l1_misses_account: 1,
        l1_misses_storage: 1,
        l1_misses_bytecode: 1,
        db_reads_account: 1,
        db_reads_storage: 1,
        db_reads_bytecode: 1,
    };
    assert_eq!(stats.flush().len(), 9);
}

#[test]
fn provider_reads_are_timed_by_source() {
    let out = record_provider_op("account", "l1", 1_500);
    assert_eq!(out.metric, "mev_provider_op_seconds");
    assert!(matches!(out.labels, Labels::Two("op", "account", "source", "l1")));
    assert!(matches!(out.update, Update::RecordNanos(1_500)));
}

#[test]
fn a_default_account_has_no_code() {
    let info = AccountInfo::default();
    assert_eq!(info.nonce, 0);
    assert_eq!(info.balance, U256([0u8; 32]));
    assert_eq!(info.code_hash, B256(KECCAK_EMPTY));
    assert_eq!(KECCAK_EMPTY, alloy_primitives::keccak256([]).0);
}

#[test]
fn a_task_leaves_what_it_found_and_clean_reads() {
    let mut l1 = WorkerL1Cache::new(1);
    let mut global = GlobalSharedCache::new(64);
    let (first, second) = (Address::from([1u8; 20]), Address::from([2u8; 20]));
    let slot = U256([1u8; 32]);
    let mut task = CachedStateProvider::new(&mut l1);
    task.basic(&mut global, first, || Ok(account(3))).unwrap();
    task.storage(&mut global, first, slot, || Ok(U256([4u8; 32]))).unwrap();
    assert!(task.basic(&mut global, second, || Err(failure())).is_err());
    let mut next = CachedStateProvider::new(&mut l1);
    next.basic(&mut global, second, || Ok(account(5))).unwrap();
    let found = next.basic(&mut global, first, || Err(failure())).unwrap();
    assert_eq!(found.unwrap().nonce, 3);
    let value = next.storage(&mut global, first, slot, || Err(failure())).unwrap();
    assert_eq!(value, U256([4u8; 32]));
    assert_eq!(next.stats.db_reads_account, 1);
    assert_eq!(next.stats.l1_hits_storage, 1);
}

fn nonces_and_failures(l1: &mut WorkerL1Cache, global: &mut GlobalSharedCache) -> Vec<Option<u64>> {
    let mut task = CachedStateProvider::new(l1);
    (1..=4u8)
        .map(|n| {
            let read = task.basic(global, Address::from([n; 20]), || {
                if n == 3 { Err(failure()) } else { Ok(account(n as u64)) }
            });
            read.ok().map(|info| info.unwrap().nonce)
        })
        .collect()
}

#[test]
fn a_task_with_failing_reads_ends_alike_after_another() {
    let mut l1 = WorkerL1Cache::new(1);
    let mut global = GlobalSharedCache::new(64);
    let alone = nonces_and_failures(&mut l1, &mut global);
    assert_eq!(alone, vec![Some(1), Some(2), None, Some(4)]);

    let mut l1 = WorkerL1Cache::new(1);
    let mut global = GlobalSharedCache::new(64);
    let mut first = CachedStateProvider::new(&mut l1);
    first.basic(&mut global, Address::from([4u8; 20]), || Ok(account(4))).unwrap();
    assert!(first.basic(&mut global, Address::from([3u8; 20]), || Err(failure())).is_err());
    assert_eq!(nonces_and_failures(&mut l1, &mut global), alone);
}

#[test]
fn another_worker_finds_what_one_has_read() {
    let mut global = GlobalSharedCache::new(64);
    let (address, hash) = (Address::from([6u8; 20]), B256::from([7u8; 32]));
    let slot = U256([8u8; 32]);
    let mut one = WorkerL1Cache::new(1);
    let mut task = CachedStateProvider::new(&mut one);
    task.basic(&mut global, address, || Ok(None)).unwrap();
    task.storage(&mut global, address, slot, || Ok(U256([9u8; 32]))).unwrap();
    task.code_by_hash(&mut global, hash, || Ok(Bytecode::new_raw(vec![1, 2]))).unwrap();

    let mut other = WorkerL1Cache::new(1);
    let mut task = CachedStateProvider::new(&mut other);
    assert!(task.basic(&mut global, address, || Err(failure())).unwrap().is_none());
    assert_eq!(task.storage(&mut global, address, slot, || Err(failure())).unwrap(), U256([9u8; 32]));
    let code = task.code_by_hash(&mut global, hash, || Err(failure())).unwrap();
    assert_eq!(*code.bytes(), vec![1, 2]);
    assert_eq!(task.stats.l1_misses_account, 1);
    assert_eq!(task.stats.l1_misses_storage, 1);
    assert_eq!(task.stats.l1_misses_bytecode, 1);
    assert_eq!(task.stats.db_reads_account, 0);
    assert_eq!(task.stats.db_reads_storage, 0);
    assert_eq!(task.stats.db_reads_bytecode, 0);
}
