use reth_mev::api::types::MevNewBlock;
use reth_mev::chain::{AccountChange, CanonStateNotification, Chain, Log, Receipt, Tip};
use reth_mev::impact::handlers::{
    BalancerV2Handler, BalancerV3Handler, CoreSwapHandler, FluidDexLiteHandler, ImpactLogHandler,
    LogHandler, UniswapV4Handler,
};
use reth_mev::impact::raw_ids::RawIds;
use reth_mev::impact::{
    compute_changed_raw_ids, BlockImpactRegistry, ImpactEnv, BALANCER_V2_VAULT_DEFAULT,
};
use reth_mev::primitives::{Address, B256};
use reth_mev::text::{parse_u64, to_hex};

/// The first 20 bytes are the address of the checksum examples; the rest counts up.
fn pool_id() -> B256 {
    let mut bytes = [0u8; 32];
    bytes[..20].copy_from_slice(&vitalik());
    for i in 20..32 {
        bytes[i] = i as u8;
    }
    B256(bytes)
}

fn vitalik() -> [u8; 20] {
    [
        0xd8, 0xda, 0x6b, 0xf2, 0x69, 0x64, 0xaf, 0x9d, 0x7e, 0xed, 0x9e, 0x03, 0xe5, 0x34, 0x15,
        0xd3, 0x7a, 0xa9, 0x60, 0x45,
    ]
}

fn padded() -> B256 {
    let mut bytes = [0u8; 32];
    bytes[12..].copy_from_slice(&vitalik());
    B256(bytes)
}

fn log(topics: Vec<B256>, data: Vec<u8>) -> Log {
    Log { address: Address::from([1u8; 20]), topics, data }
}

fn ids_of<H: ImpactLogHandler>(handler: H, log: &Log) -> Vec<String> {
    let mut ids = RawIds::new();
    handler.process_log(log, &mut ids);
    ids.into_vec()
}

fn fluid_swap() -> B256 {
    B256(alloy_primitives::keccak256(b"LogSwap(uint256,uint256)").0)
}

fn no_env() -> ImpactEnv {
    ImpactEnv {
        balancer_v2_vault: None,
        balancer_v3_vault: None,
        uniswap_v4_pool_manager: None,
        fluid_dex_lite: None,
        core_swap_pool_manager: None,
        core_swap_v3_pool_manager: None,
    }
}

const CHECKSUMMED: &str = "0xd8dA6BF26964aF9D7eEd9e03E53415D37aA96045";

#[test]
fn balancer_v2_takes_the_front_of_the_pool_id() {
    let zero = B256([0u8; 32]);
    assert_eq!(ids_of(BalancerV2Handler, &log(vec![zero, pool_id()], vec![])), vec![CHECKSUMMED]);
    assert!(ids_of(BalancerV2Handler, &log(vec![pool_id()], vec![])).is_empty());
    assert!(ids_of(BalancerV2Handler, &log(vec![], vec![])).is_empty());
}

#[test]
fn balancer_v3_takes_the_padded_address() {
    let zero = B256([0u8; 32]);
    assert_eq!(ids_of(BalancerV3Handler, &log(vec![zero, padded()], vec![])), vec![CHECKSUMMED]);
    assert!(ids_of(BalancerV3Handler, &log(vec![zero], vec![])).is_empty());
}

#[test]
fn uniswap_v4_takes_the_whole_topic() {
    let zero = B256([0u8; 32]);
    let ids = ids_of(UniswapV4Handler, &log(vec![zero, pool_id()], vec![]));
    assert_eq!(ids, vec![format!("{:#x}", alloy_primitives::B256::from(pool_id().0))]);
    assert!(ids_of(UniswapV4Handler, &log(vec![zero], vec![])).is_empty());
}

#[test]
fn fluid_swaps_end_in_the_exchange_id() {
    let mut data = vec![0xffu8; 24];
    data.extend([0, 0, 0, 0, 0, 0, 0, 0x1a]);
    assert_eq!(
        ids_of(FluidDexLiteHandler, &log(vec![fluid_swap()], data.clone())),
        vec!["0x000000000000001a"]
    );
    data.pop();
    assert!(ids_of(FluidDexLiteHandler, &log(vec![fluid_swap()], data)).is_empty());
}

#[test]
fn other_fluid_events_hold_the_exchange_id_after_its_key() {
    let mut data = vec![0u8; 96];
    data.extend([0x01, 0x23, 0x45, 0x67, 0x89, 0xab, 0xcd, 0xef]);
    let expected = format!("{:#018x}", 0x0123456789abcdefu64);
    assert_eq!(
        ids_of(FluidDexLiteHandler, &log(vec![pool_id()], data.clone())),
        vec![expected.clone()]
    );
    assert_eq!(ids_of(FluidDexLiteHandler, &log(vec![], data.clone())), vec![expected]);
    data.pop();
    assert!(ids_of(FluidDexLiteHandler, &log(vec![pool_id()], data)).is_empty());
}

#[test]
fn core_swap_skips_the_caller_of_raw_logs() {
    let mut raw = vec![0xeeu8; 20];
    raw.extend([0x11u8; 32]);
    let expected = format!("0x{}", "11".repeat(32));
    assert_eq!(ids_of(CoreSwapHandler, &log(vec![], raw.clone())), vec![expected.clone()]);
    let zero = B256([0u8; 32]);
    assert_eq!(ids_of(CoreSwapHandler, &log(vec![zero], raw.clone())), vec![expected.clone()]);
    raw.pop();
    assert!(ids_of(CoreSwapHandler, &log(vec![], raw)).is_empty());
    assert_eq!(
        ids_of(CoreSwapHandler, &log(vec![pool_id()], vec![0x11u8; 32])),
        vec![expected]
    );
    assert!(ids_of(CoreSwapHandler, &log(vec![pool_id()], vec![0x11u8; 31])).is_empty());
}

#[test]
fn registry_has_a_default_vault() {
    let registry = BlockImpactRegistry::from_env(&no_env());
    let vault = Address(BALANCER_V2_VAULT_DEFAULT);
    assert_eq!(
        alloy_primitives::Address::new(vault.0).to_checksum(None),
        "0xBA12222222228d8Ba445958a75a0704d566BF2C8"
    );
    assert!(matches!(registry.get(&vault), Some(LogHandler::BalancerV2(_))));
    assert!(registry.get(&Address::from([1u8; 20])).is_none());
}

#[test]
fn registry_follows_the_environment() {
    let mut env = no_env();
    env.balancer_v2_vault = Some(CHECKSUMMED.to_string());
    env.balancer_v3_vault = Some("0101010101010101010101010101010101010101".to_string());
    env.uniswap_v4_pool_manager = Some("0X0202020202020202020202020202020202020202".to_string());
    env.fluid_dex_lite = Some("not an address".to_string());
    env.core_swap_pool_manager = Some("0x03".to_string());
    let registry = BlockImpactRegistry::from_env(&env);
    assert!(matches!(registry.get(&Address(vitalik())), Some(LogHandler::BalancerV2(_))));
    assert!(registry.get(&Address(BALANCER_V2_VAULT_DEFAULT)).is_none());
    assert!(matches!(registry.get(&Address::from([1u8; 20])), Some(LogHandler::BalancerV3(_))));
    assert!(matches!(registry.get(&Address::from([2u8; 20])), Some(LogHandler::UniswapV4(_))));
    env.core_swap_v3_pool_manager = Some("0101010101010101010101010101010101010101".to_string());
    let registry = BlockImpactRegistry::from_env(&env);
    assert!(matches!(registry.get(&Address::from([1u8; 20])), Some(LogHandler::CoreSwap(_))));
}

#[test]
fn an_unreadable_vault_is_the_default_one() {
    let mut env = no_env();
    env.balancer_v2_vault = Some("0xzz".to_string());
    let registry = BlockImpactRegistry::from_env(&env);
    assert!(registry.get(&Address(BALANCER_V2_VAULT_DEFAULT)).is_some());
}

fn notification(reorg: bool) -> CanonStateNotification {
    let vault = Address(BALANCER_V2_VAULT_DEFAULT);
    let change = |address| AccountChange {
        address,
        info: None,
        was_destroyed: false,
        storage: vec![],
    };
    let of_vault = |topics| Log { address: vault, topics, data: vec![] };
    let new = Chain {
        tip: Some(Tip { number: 9, hash: B256([0xab; 32]) }),
        accounts: vec![change(Address::from([1u8; 20])), change(Address::from([1u8; 20]))],
        receipts: vec![
            vec![Receipt { logs: vec![of_vault(vec![pool_id(), pool_id()])] }],
            vec![Receipt { logs: vec![] }, Receipt {
                logs: vec![
                    log(vec![padded(), padded()], vec![]),
                    of_vault(vec![pool_id()]),
                    of_vault(vec![padded(), pool_id()]),
                ],
            }],
        ],
    };
    if reorg {
        CanonStateNotification::Reorg { new }
    } else {
        CanonStateNotification::Commit { new }
    }
}

#[test]
fn changed_ids_name_accounts_and_pools_once() {
    let registry = BlockImpactRegistry::from_env(&no_env());
    for reorg in [false, true] {
        let mut ids = compute_changed_raw_ids(&notification(reorg), &registry);
        ids.sort();
        assert_eq!(ids, vec!["0x0101010101010101010101010101010101010101", CHECKSUMMED]);
    }
}

#[test]
fn new_blocks_are_announced() {
    let registry = BlockImpactRegistry::from_env(&no_env());
    let used = 30_000_000;
    let block = MevNewBlock::from_notification(
        &notification(false),
        &registry,
        123,
        used,
        used,
        Some(1_000_000_000),
    )
    .unwrap();
    assert_eq!(block.block_number, 9);
    assert_eq!(block.block_hash, format!("0x{}", "ab".repeat(32)));
    assert_eq!(block.timestamp, 123);
    assert_eq!(block.base_fee_per_gas, Some(1_000_000_000));
    assert_eq!(block.next_base_fee_per_gas, Some(1_125_000_000));
    assert_eq!(block.changed_raw_ids.len(), 2);
    let empty = CanonStateNotification::Commit {
        new: Chain { tip: None, accounts: vec![], receipts: vec![] },
    };
    assert!(MevNewBlock::from_notification(&empty, &registry, 0, 0, 0, None).is_none());
    let old =
        MevNewBlock::from_notification(&notification(true), &registry, 1, 5, 10, None).unwrap();
    assert_eq!(old.base_fee_per_gas, None);
    assert_eq!(old.next_base_fee_per_gas, None);
}

#[test]
fn raw_ids_are_a_set() {
    let mut ids = RawIds::new();
    ids.insert("b".to_string());
    ids.insert("a".to_string());
    ids.insert("b".to_string());
    assert!(ids.contains(&"a".to_string()));
    assert!(!ids.contains(&"c".to_string()));
    assert_eq!(ids.into_vec(), vec!["b", "a"]);
}

#[test]
fn checksums_agree_with_every_case() {
    let registry = BlockImpactRegistry::from_env(&no_env());
    let mut seed = [0u8; 20];
    for round in 0..50u8 {
        for (i, byte) in seed.iter_mut().enumerate() {
            *byte = byte.wrapping_mul(31).wrapping_add(round).wrapping_add(i as u8);
        }
        let new = Chain {
            tip: None,
            accounts: vec![AccountChange {
                address: Address(seed),
                info: None,
                was_destroyed: false,
                storage: vec![],
            }],
            receipts: vec![],
        };
        let ids = compute_changed_raw_ids(&CanonStateNotification::Commit { new }, &registry);
        assert_eq!(ids, vec![alloy_primitives::Address::new(seed).to_checksum(None)]);
        let digits = to_hex(&seed);
        assert_eq!(ids[0].to_lowercase(), digits);
        let hash = alloy_primitives::keccak256(digits[2..].as_bytes());
        for (i, c) in ids[0][2..].chars().enumerate() {
            let nibble = if i % 2 == 0 { hash[i / 2] / 16 } else { hash[i / 2] % 16 };
            if c.is_ascii_alphabetic() {
                assert_eq!(c.is_ascii_uppercase(), nibble >= 8);
            }
        }
    }
}

#[test]
fn hex_is_lower_case_and_prefixed() {
    assert_eq!(to_hex(&[]), "0x");
    assert_eq!(to_hex(&[0x0f, 0xa0]), "0x0fa0");
}

#[test]
fn numbers_are_read_as_std_reads_them() {
    for text in [
        "", "+", "-", "0", "+7", "++7", "007", "-1", " 1", "1 ", "18446744073709551615",
        "18446744073709551616", "99999999999999999999999", "12a", "\u{663}", "+\u{663}",
    ] {
        assert_eq!(parse_u64(text), text.parse::<u64>().ok(), "{}", text);
    }
}
