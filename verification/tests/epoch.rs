use reth_mev::api::types::{BlockId, BlockNumberOrTag};
use reth_mev::cache::diff::SHARED_EPOCH;
use reth_mev::cache::GlobalSharedCache;
use reth_mev::chain::{AccountChange, CanonStateNotification, Chain, SlotChange, Tip};
use reth_mev::config::{is_on, MevConfig};
use reth_mev::epoch::{
    delay_emissions, warmup_emissions, EpochManager, EpochStep, FixedBlock, FixedEpochError,
    Skipped, StartAction,
};
use reth_mev::metrics::Update;
use reth_mev::primitives::{AccountInfo, Address, ProviderError, B256, U256};
use reth_mev::EpochContext;

fn number(n: u64) -> Option<BlockId> {
    Some(BlockId::Number(BlockNumberOrTag::Number(n)))
}

fn tag(tag: BlockNumberOrTag) -> Option<BlockId> {
    Some(BlockId::Number(tag))
}

fn change(byte: u8, slots: u8) -> AccountChange {
    AccountChange {
        address: Address::from([byte; 20]),
        info: Some(AccountInfo { nonce: 8, ..Default::default() }),
        was_destroyed: false,
        storage: (0..slots)
            .map(|n| SlotChange { slot: U256([n; 32]), present_value: U256([n + 1; 32]) })
            .collect(),
    }
}

fn commit(n: u64, accounts: Vec<AccountChange>) -> CanonStateNotification {
    CanonStateNotification::Commit {
        new: Chain {
            tip: Some(Tip { number: n, hash: B256([n as u8; 32]) }),
            accounts,
            receipts: vec![],
        },
    }
}

fn cached(cache: &mut GlobalSharedCache, byte: u8) -> Option<u64> {
    cache
        .get_or_load_account(SHARED_EPOCH, Address::from([byte; 20]), || {
            Err(ProviderError { message: String::new() })
        })
        .ok()
        .map(|info| info.unwrap().nonce)
}

fn found(hash: [u8; 32]) -> FixedBlock {
    FixedBlock { header_found: Ok(true), hash: Ok(Some(B256(hash))), env_error: None }
}

fn at(n: u64) -> EpochManager {
    let mut manager = EpochManager::new(None, None);
    let mut cache = GlobalSharedCache::new(1);
    manager.on_notification(&commit(n, vec![]), true, &mut cache);
    manager
}

#[test]
fn starts_without_an_epoch() {
    let manager = EpochManager::new(None, None);
    assert_eq!(manager.current().epoch_id, 0);
    assert_eq!(manager.active_block_number(), 0);
    assert_eq!(manager.current().block_hash, B256([0; 32]));
    assert_eq!(EpochContext::placeholder().block_hash, B256([0; 32]));
    assert!(manager.diff_cache_enabled);
    assert!(matches!(manager.start(), StartAction::Subscribe));
    assert!(!EpochManager::new(None, Some("0")).diff_cache_enabled);
    assert!(EpochManager::new(None, Some("00")).diff_cache_enabled);
    assert!(matches!(EpochManager::new(Some("12"), None).start(), StartAction::LoadFixed(12)));
    assert!(matches!(EpochManager::new(Some("x"), None).start(), StartAction::Subscribe));
}

#[test]
fn a_commit_moves_the_epoch_and_the_cache() {
    let mut manager = EpochManager::new(None, None);
    let mut cache = GlobalSharedCache::new(16);
    for byte in [1, 2] {
        cache
            .get_or_load_account(SHARED_EPOCH, Address::from([byte; 20]), || {
                Ok(Some(AccountInfo { nonce: 3, ..Default::default() }))
            })
            .unwrap();
    }
    let step = manager.on_notification(&commit(5, vec![change(1, 2), change(3, 1)]), true, &mut cache);
    let EpochStep::Publish { epoch, gauges } = step else { panic!("skipped") };
    assert_eq!((epoch.epoch_id, epoch.block_number, epoch.block_hash), (1, 5, B256([5; 32])));
    assert_eq!(manager.current().epoch_id, 1);
    assert_eq!(gauges.len(), 3);
    assert_eq!(gauges[0].metric, "mev_epoch_diff_accounts_total");
    assert!(matches!(gauges[0].update, Update::Assign(2)));
    assert_eq!(gauges[1].metric, "mev_epoch_diff_storage_slots_total");
    assert!(matches!(gauges[1].update, Update::Assign(3)));
    assert_eq!(gauges[2].metric, "mev_epoch_current_block_number");
    assert!(matches!(gauges[2].update, Update::Assign(5)));
    assert_eq!(cached(&mut cache, 1), Some(8));
    assert_eq!(cached(&mut cache, 2), Some(3));
    assert_eq!(cached(&mut cache, 3), Some(8));
    manager.on_notification(&commit(6, vec![]), true, &mut cache);
    assert_eq!(manager.current().epoch_id, 2);
}

#[test]
fn without_diffs_everything_is_dropped() {
    let mut manager = EpochManager::new(None, Some("0"));
    let mut cache = GlobalSharedCache::new(16);
    cache
        .get_or_load_account(SHARED_EPOCH, Address::from([2; 20]), || Ok(Some(AccountInfo::default())))
        .unwrap();
    manager.on_notification(&commit(5, vec![change(1, 0)]), true, &mut cache);
    assert_eq!(cached(&mut cache, 1), None);
    assert_eq!(cached(&mut cache, 2), None);
}

#[test]
fn a_reorg_moves_the_epoch_without_gauges() {
    let mut manager = EpochManager::new(None, None);
    let mut cache = GlobalSharedCache::new(16);
    let reorg = CanonStateNotification::Reorg {
        new: Chain {
            tip: Some(Tip { number: 4, hash: B256([4; 32]) }),
            accounts: vec![change(1, 1)],
            receipts: vec![],
        },
    };
    let EpochStep::Publish { epoch, gauges } = manager.on_notification(&reorg, true, &mut cache)
    else {
        panic!("skipped")
    };
    assert_eq!(epoch.block_number, 4);
    assert!(gauges.is_empty());
    assert_eq!(cached(&mut cache, 1), None);
}

#[test]
fn notifications_can_be_skipped() {
    let mut manager = EpochManager::new(None, None);
    let mut cache = GlobalSharedCache::new(16);
    let empty = CanonStateNotification::Commit {
        new: Chain { tip: None, accounts: vec![change(1, 1)], receipts: vec![] },
    };
    assert!(matches!(
        manager.on_notification(&empty, true, &mut cache),
        EpochStep::Skipped(Skipped::EmptyChain)
    ));
    assert!(matches!(
        manager.on_notification(&commit(5, vec![change(1, 1)]), false, &mut cache),
        EpochStep::Skipped(Skipped::EnvFailed)
    ));
    assert_eq!(manager.current().epoch_id, 0);
    assert_eq!(cached(&mut cache, 1), None);
}

#[test]
fn epoch_ids_stop_at_the_end() {
    let mut manager = at(1);
    let mut cache = GlobalSharedCache::new(1);
    manager.epoch_counter = u64::MAX - 1;
    manager.on_notification(&commit(2, vec![]), true, &mut cache);
    assert_eq!(manager.current().epoch_id, u64::MAX);
    manager.on_notification(&commit(3, vec![]), true, &mut cache);
    assert_eq!(manager.current().epoch_id, u64::MAX);
}

#[test]
fn a_fixed_epoch_stays() {
    let mut manager = EpochManager::new(Some("21000000"), None);
    let mut cache = GlobalSharedCache::new(1);
    let epoch = manager.on_fixed_block(21_000_000, found([3; 32])).unwrap();
    assert_eq!((epoch.epoch_id, epoch.block_number, epoch.block_hash), (1, 21_000_000, B256([3; 32])));
    assert!(matches!(
        manager.on_notification(&commit(5, vec![]), true, &mut cache),
        EpochStep::Skipped(Skipped::Frozen)
    ));
    assert_eq!(manager.active_block_number(), 21_000_000);
    assert!(manager.matches_active(number(1)));
    assert!(manager.matches_active(tag(BlockNumberOrTag::Earliest)));
    assert!(manager.matches_active(Some(BlockId::Hash(B256([9; 32])))));
}

#[test]
fn a_block_that_cannot_be_had_fixes_nothing() {
    let mut manager = EpochManager::new(Some("7"), None);
    let mut missing = found([3; 32]);
    missing.header_found = Ok(false);
    assert!(matches!(
        manager.on_fixed_block(7, missing),
        Err(FixedEpochError::BlockNotFound(7))
    ));
    let mut unhashed = found([3; 32]);
    unhashed.hash = Ok(None);
    assert!(matches!(
        manager.on_fixed_block(7, unhashed),
        Err(FixedEpochError::HashNotFound(7))
    ));
    let mut odd = found([3; 32]);
    odd.env_error = Some("fork".to_string());
    let Err(FixedEpochError::Env(message)) = manager.on_fixed_block(7, odd) else { panic!() };
    assert_eq!(message, "fork");
    let mut broken = found([3; 32]);
    broken.header_found = Err("disk".to_string());
    let Err(FixedEpochError::Provider(message)) = manager.on_fixed_block(7, broken) else { panic!() };
    assert_eq!(message, "disk");
    let mut broken = found([3; 32]);
    broken.hash = Err("disk".to_string());
    assert!(matches!(manager.on_fixed_block(7, broken), Err(FixedEpochError::Provider(_))));
    assert_eq!(manager.current().epoch_id, 0);
    let mut cache = GlobalSharedCache::new(1);
    manager.on_notification(&commit(9, vec![]), true, &mut cache);
    assert_eq!(manager.active_block_number(), 9);
}

#[test]
fn requests_match_by_block() {
    let manager = at(100);
    assert!(manager.matches_active(None));
    assert!(manager.matches_active(tag(BlockNumberOrTag::Latest)));
    assert!(manager.matches_active(tag(BlockNumberOrTag::Pending)));
    assert!(!manager.matches_active(tag(BlockNumberOrTag::Safe)));
    assert!(!manager.matches_active(tag(BlockNumberOrTag::Finalized)));
    assert!(!manager.matches_active(tag(BlockNumberOrTag::Earliest)));
    assert!(manager.matches_active(number(100)));
    assert!(!manager.matches_active(number(99)));
    assert!(!manager.matches_active(number(101)));
    assert!(manager.matches_active(Some(BlockId::Hash(B256([100; 32])))));
    assert!(!manager.matches_active(Some(BlockId::Hash(B256([99; 32])))));
}

#[test]
fn gaps_are_counted_for_numbers() {
    let manager = at(100);
    assert_eq!(manager.block_gap(number(100)), Some(0));
    assert_eq!(manager.block_gap(number(99)), Some(1));
    assert_eq!(manager.block_gap(number(40)), Some(60));
    assert_eq!(manager.block_gap(number(101)), Some(0));
    assert_eq!(manager.block_gap(None), None);
    assert_eq!(manager.block_gap(tag(BlockNumberOrTag::Latest)), None);
    assert_eq!(manager.block_gap(Some(BlockId::Hash(B256([99; 32])))), None);
}

#[test]
fn delays_add_up() {
    let out = delay_emissions(Some(12_500_000_000), 12, 1_000);
    assert_eq!(out.len(), 6);
    assert_eq!(out[0].metric, "mev_net_engine_delay_seconds");
    assert!(matches!(out[0].update, Update::RecordNanos(500_000_000)));
    assert_eq!(out[1].metric, "mev_net_engine_delay_latest_seconds");
    assert!(matches!(out[1].update, Update::AssignNanos(500_000_000)));
    assert_eq!(out[2].metric, "mev_epoch_manager_delay_seconds");
    assert!(matches!(out[2].update, Update::RecordNanos(1_000)));
    assert_eq!(out[4].metric, "mev_epoch_block_delay_seconds");
    assert!(matches!(out[4].update, Update::RecordNanos(500_001_000)));
    assert!(matches!(delay_emissions(Some(1), 12, 5)[0].update, Update::RecordNanos(0)));
    assert!(matches!(delay_emissions(None, 12, 5)[4].update, Update::RecordNanos(5)));
    let out = warmup_emissions(9);
    assert_eq!(out[0].metric, "mev_epoch_warmup_duration_seconds");
    assert_eq!(out[1].metric, "mev_epoch_warmup_duration_latest_seconds");
}

#[test]
fn settings_have_defaults() {
    let config = MevConfig::from_settings(None, None, None, None);
    assert_eq!(config.num_workers, 40);
    assert_eq!(config.num_workers, reth_mev::DEFAULT_MEV_POOL_SIZE);
    assert_eq!(config.cache_max_mb, 16_384);
    assert_eq!(config.stats_interval_secs, 30);
    assert!(config.reject_stale_call);
}

#[test]
fn settings_are_read() {
    let config = MevConfig::from_settings(Some("8"), Some("1024"), Some("10"), Some("0"));
    assert_eq!(config.num_workers, 8);
    assert_eq!(config.cache_max_mb, 1024);
    assert_eq!(config.stats_interval_secs, 10);
    assert!(!config.reject_stale_call);
    let config = MevConfig::from_settings(Some("x"), Some(""), Some("0"), Some("no"));
    assert_eq!(config.num_workers, 40);
    assert_eq!(config.cache_max_mb, 16_384);
    assert_eq!(config.stats_interval_secs, 30);
    assert!(config.reject_stale_call);
    let config = MevConfig::from_settings(Some("0"), Some("0"), Some("1"), Some(""));
    assert_eq!(config.num_workers, 0);
    assert_eq!(config.cache_max_mb, 0);
    assert_eq!(config.stats_interval_secs, 1);
    assert!(config.reject_stale_call);
    assert!(is_on(Some("1")));
}

#[test]
fn unchanged_slots_stay_warm() {
    let mut manager = EpochManager::new(None, None);
    let mut cache = GlobalSharedCache::new(16);
    let (address, slot) = (Address::from([1u8; 20]), U256([9; 32]));
    cache.get_or_load_storage(SHARED_EPOCH, address, slot, || Ok(U256([4; 32]))).unwrap();
    for n in 5..8 {
        manager.on_notification(&commit(n, vec![change(1, 2)]), true, &mut cache);
        let (value, loaded) = cache
            .read_storage(SHARED_EPOCH, address, slot, || {
                Err(ProviderError { message: String::new() })
            })
            .unwrap();
        assert_eq!((value, loaded), (U256([4; 32]), false));
    }
}
