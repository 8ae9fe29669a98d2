//! Which pools a block may have moved.
//!
//! From the outcome of new blocks, [`compute_changed_raw_ids`] lists every changed
//! contract, and every pool that the logs of the registered shared contracts speak
//! of. Nothing is left out; the reader drops what it does not know.

use vstd::prelude::*;
use crate::chain::{AccountChange, CanonStateNotification, Chain, Log, Receipt};
use crate::keyed_map::KeyedMap;
use crate::primitives::Address;

pub mod encoding;
pub mod handlers;
pub mod raw_ids;

use encoding::{
    checksum_text, hex_value, is_address, parse_address, spells, to_checksum, unprefixed,
};
use handlers::{
    with_candidate, BalancerV2Handler, BalancerV3Handler, CoreSwapHandler, FluidDexLiteHandler,
    ImpactLogHandler, LogHandler, UniswapV4Handler,
};
use raw_ids::{each_once, texts, RawIds};

verus! {

/// The Balancer V2 vault on mainnet.
pub const BALANCER_V2_VAULT_DEFAULT: [u8; 20] = [
    0xBA, 0x12, 0x22, 0x22, 0x22, 0x22, 0x8d, 0x8B, 0xa4, 0x45, 0x95, 0x8a, 0x75, 0xa0, 0x70, 0x4d,
    0x56, 0x6B, 0xF2, 0xC8,
];

/// Where the shared contracts are, as the environment says. What is not set, or is
/// not an address, is as good as absent.
#[derive(Debug)]
pub struct ImpactEnv {
    /// `MEV_BALANCER_V2_VAULT`; if absent, the vault on mainnet.
    pub balancer_v2_vault: Option<String>,
    /// `MEV_BALANCER_V3_VAULT`
    pub balancer_v3_vault: Option<String>,
    /// `MEV_UNISWAP_V4_POOL_MANAGER`
    pub uniswap_v4_pool_manager: Option<String>,
    /// `MEV_FLUID_DEX_LITE`
    pub fluid_dex_lite: Option<String>,
    /// `MEV_CORE_SWAP_POOL_MANAGER`
    pub core_swap_pool_manager: Option<String>,
    /// `MEV_CORE_SWAP_V3_POOL_MANAGER`
    pub core_swap_v3_pool_manager: Option<String>,
}

/// The address that `setting` spells, if it does.
pub open spec fn address_in(setting: Option<String>) -> Option<Address> {
    match setting {
        Some(text) => if is_address(text@) {
            Some(choose|address: Address| spells(text@, address))
        } else {
            None
        },
        None => None,
    }
}

fn read_address(setting: &Option<String>) -> (address: Option<Address>)
    ensures
        address == address_in(*setting),
{
    match setting {
        Some(text) => {
            let address = parse_address(text.as_str());
            proof {
                if let Some(found) = address {
                    let chosen = choose|other: Address| spells(text@, other);
                    assert(spells(text@, chosen));
                    assert forall|i: int| 0 <= i < 20 implies chosen.0[i] == found.0[i] by {}
                    assert(chosen.0 =~= found.0);
                }
            }
            address
        },
        None => None,
    }
}

/// `handlers` with `handler` at the address that `setting` spells, if it does.
pub open spec fn registered(
    handlers: Map<Address, LogHandler>,
    setting: Option<String>,
    handler: LogHandler,
) -> Map<Address, LogHandler> {
    match address_in(setting) {
        Some(address) => handlers.insert(address, handler),
        None => handlers,
    }
}

/// The handlers that `env` asks for. Of two at one address the later stays.
pub open spec fn handlers_of(env: ImpactEnv) -> Map<Address, LogHandler> {
    let v2_vault = match address_in(env.balancer_v2_vault) {
        Some(address) => address,
        None => Address(BALANCER_V2_VAULT_DEFAULT),
    };
    let m = Map::<Address, LogHandler>::empty();
    let m = m.insert(v2_vault, LogHandler::BalancerV2(BalancerV2Handler));
    let m = registered(m, env.balancer_v3_vault, LogHandler::BalancerV3(BalancerV3Handler));
    let m = registered(m, env.uniswap_v4_pool_manager, LogHandler::UniswapV4(UniswapV4Handler));
    let m = registered(m, env.fluid_dex_lite, LogHandler::FluidDexLite(FluidDexLiteHandler));
    let m = registered(m, env.core_swap_pool_manager, LogHandler::CoreSwap(CoreSwapHandler));
    registered(m, env.core_swap_v3_pool_manager, LogHandler::CoreSwap(CoreSwapHandler))
}

/// The handlers of the shared contracts, by address.
#[derive(Debug)]
pub struct BlockImpactRegistry {
    handlers: KeyedMap<Address, LogHandler>,
}

impl View for BlockImpactRegistry {
    type V = Map<Address, LogHandler>;

    closed spec fn view(&self) -> Map<Address, LogHandler> {
        self.handlers@
    }
}

impl BlockImpactRegistry {
    fn register(&mut self, setting: &Option<String>, handler: LogHandler)
        ensures
            final(self)@ == registered(old(self)@, *setting, handler),
    {
        if let Some(address) = read_address(setting) {
            self.handlers.insert(address, handler);
        }
    }

    /// The registry that the environment asks for.
    pub fn from_env(env: &ImpactEnv) -> (registry: Self)
        ensures
            registry@ == handlers_of(*env),
    {
        let v2_vault = match read_address(&env.balancer_v2_vault) {
            Some(address) => address,
            None => Address(BALANCER_V2_VAULT_DEFAULT),
        };
        let mut registry = BlockImpactRegistry { handlers: KeyedMap::new() };
        registry.handlers.insert(v2_vault, LogHandler::BalancerV2(BalancerV2Handler));
        registry.register(&env.balancer_v3_vault, LogHandler::BalancerV3(BalancerV3Handler));
        registry.register(&env.uniswap_v4_pool_manager, LogHandler::UniswapV4(UniswapV4Handler));
        registry.register(&env.fluid_dex_lite, LogHandler::FluidDexLite(FluidDexLiteHandler));
        registry.register(&env.core_swap_pool_manager, LogHandler::CoreSwap(CoreSwapHandler));
        registry.register(&env.core_swap_v3_pool_manager, LogHandler::CoreSwap(CoreSwapHandler));
        registry
    }

    /// The handler of the contract at `addr`, if it is registered.
    pub fn get(&self, addr: &Address) -> (handler: Option<&LogHandler>)
        ensures
            match handler {
                Some(found) => self@.contains_pair(*addr, *found),
                None => !self@.contains_key(*addr),
            },
    {
        self.handlers.get(addr)
    }
}

/// Everything that is in `f` of some item.
pub open spec fn union_of<A>(items: Seq<A>, f: spec_fn(A) -> Set<Seq<char>>) -> Set<Seq<char>> {
    Set::new(
        |id: Seq<char>| exists|i: int| 0 <= i < items.len() && f(#[trigger] items[i]).contains(id),
    )
}

proof fn union_step<A>(items: Seq<A>, f: spec_fn(A) -> Set<Seq<char>>, n: int)
    requires
        0 <= n < items.len(),
    ensures
        union_of(items.take(n + 1), f) == union_of(items.take(n), f).union(f(items[n])),
{
    let now = items.take(n + 1);
    let seen = items.take(n);
    assert forall|id: Seq<char>| #[trigger] union_of(now, f).contains(id) == union_of(
        seen,
        f,
    ).union(f(items[n])).contains(id) by {
        if union_of(now, f).contains(id) {
            let i = choose|i: int| 0 <= i < now.len() && f(#[trigger] now[i]).contains(id);
            if i < n {
                assert(f(seen[i]).contains(id));
            }
        }
        if union_of(seen, f).contains(id) {
            let i = choose|i: int| 0 <= i < seen.len() && f(#[trigger] seen[i]).contains(id);
            assert(f(now[i]).contains(id));
        }
        assert(now[n] == items[n]);
    }
    assert(union_of(now, f) =~= union_of(seen, f).union(f(items[n])));
}

/// The identifier of a changed account: its checksummed address.
pub open spec fn account_ids(change: AccountChange) -> Set<Seq<char>> {
    set![checksum_text(change.address.0@)]
}

/// The identifier in `log`, if its contract is registered and there is one.
pub open spec fn log_ids(handlers: Map<Address, LogHandler>, log: Log) -> Set<Seq<char>> {
    if handlers.contains_key(log.address) {
        with_candidate(Set::empty(), handlers[log.address].candidate(log))
    } else {
        Set::empty()
    }
}

/// The identifiers in the logs of `receipt`.
pub open spec fn receipt_ids(handlers: Map<Address, LogHandler>, receipt: Receipt) -> Set<
    Seq<char>,
> {
    union_of(receipt.logs@, |log: Log| log_ids(handlers, log))
}

/// The identifiers in the logs of a block.
pub open spec fn block_ids(handlers: Map<Address, LogHandler>, receipts: Vec<Receipt>) -> Set<
    Seq<char>,
> {
    union_of(receipts@, |receipt: Receipt| receipt_ids(handlers, receipt))
}

/// The identifiers of what `chain` may have moved: every changed account, and every
/// candidate in the logs of registered contracts.
pub open spec fn changed_ids(handlers: Map<Address, LogHandler>, chain: Chain) -> Set<Seq<char>> {
    union_of(chain.accounts@, |change: AccountChange| account_ids(change)).union(
        union_of(chain.receipts@, |receipts: Vec<Receipt>| block_ids(handlers, receipts)),
    )
}

fn add_log(registry: &BlockImpactRegistry, log: &Log, ids: &mut RawIds)
    ensures
        final(ids)@ == old(ids)@.union(log_ids(registry@, *log)),
{
    let ghost before = ids@;
    if let Some(handler) = registry.get(&log.address) {
        handler.process_log(log, ids);
    }
    assert(ids@ =~= before.union(log_ids(registry@, *log)));
}

fn add_receipt(registry: &BlockImpactRegistry, receipt: &Receipt, ids: &mut RawIds)
    ensures
        final(ids)@ == old(ids)@.union(receipt_ids(registry@, *receipt)),
{
    let ghost before = ids@;
    let ghost logs = receipt.logs@;
    let ghost f = |log: Log| log_ids(registry@, log);
    let mut i: usize = 0;
    assert(ids@ =~= before.union(union_of(logs.take(0), f)));
    while i < receipt.logs.len()
        invariant
            i <= receipt.logs.len(),
            logs == receipt.logs@,
            f == |log: Log| log_ids(registry@, log),
            ids@ == before.union(union_of(logs.take(i as int), f)),
        decreases receipt.logs.len() - i,
    {
        add_log(registry, &receipt.logs[i], ids);
        proof {
            union_step(logs, f, i as int);
            assert(ids@ =~= before.union(union_of(logs.take(i + 1), f)));
        }
        i += 1;
    }
    assert(logs.take(logs.len() as int) =~= logs);
}

fn add_block(registry: &BlockImpactRegistry, receipts: &Vec<Receipt>, ids: &mut RawIds)
    ensures
        final(ids)@ == old(ids)@.union(block_ids(registry@, *receipts)),
{
    let ghost before = ids@;
    let ghost items = receipts@;
    let ghost f = |receipt: Receipt| receipt_ids(registry@, receipt);
    let mut i: usize = 0;
    assert(ids@ =~= before.union(union_of(items.take(0), f)));
    while i < receipts.len()
        invariant
            i <= receipts.len(),
            items == receipts@,
            f == |receipt: Receipt| receipt_ids(registry@, receipt),
            ids@ == before.union(union_of(items.take(i as int), f)),
        decreases receipts.len() - i,
    {
        add_receipt(registry, &receipts[i], ids);
        proof {
            union_step(items, f, i as int);
            assert(ids@ =~= before.union(union_of(items.take(i + 1), f)));
        }
        i += 1;
    }
    assert(items.take(items.len() as int) =~= items);
}

/// The identifiers of what the new blocks of `notification` may have moved, each
/// once.
pub fn compute_changed_raw_ids(
    notification: &CanonStateNotification,
    registry: &BlockImpactRegistry,
) -> (ids: Vec<String>)
    ensures
        each_once(ids@),
        texts(ids@) == changed_ids(registry@, notification.new_chain()),
{
    let chain = notification.committed();
    let ghost changes = chain.accounts@;
    let ghost blocks = chain.receipts@;
    let ghost f = |change: AccountChange| account_ids(change);
    let ghost g = |receipts: Vec<Receipt>| block_ids(registry@, receipts);
    let mut changed = RawIds::new();
    let mut i: usize = 0;
    assert(changed@ =~= union_of(changes.take(0), f));
    while i < chain.accounts.len()
        invariant
            i <= chain.accounts.len(),
            changes == chain.accounts@,
            f == |change: AccountChange| account_ids(change),
            changed@ == union_of(changes.take(i as int), f),
        decreases chain.accounts.len() - i,
    {
        changed.insert(to_checksum(&chain.accounts[i].address));
        proof {
            union_step(changes, f, i as int);
            assert(changed@ =~= union_of(changes.take(i + 1), f));
        }
        i += 1;
    }
    assert(changes.take(changes.len() as int) =~= changes);
    let ghost addresses = changed@;
    let mut j: usize = 0;
    assert(changed@ =~= addresses.union(union_of(blocks.take(0), g)));
    while j < chain.receipts.len()
        invariant
            j <= chain.receipts.len(),
            blocks == chain.receipts@,
            g == |receipts: Vec<Receipt>| block_ids(registry@, receipts),
            changed@ == addresses.union(union_of(blocks.take(j as int), g)),
        decreases chain.receipts.len() - j,
    {
        add_block(registry, &chain.receipts[j], &mut changed);
        proof {
            union_step(blocks, g, j as int);
            assert(changed@ =~= addresses.union(union_of(blocks.take(j + 1), g)));
        }
        j += 1;
    }
    assert(blocks.take(blocks.len() as int) =~= blocks);
    changed.into_vec()
}

/// No change goes unnamed: a changed account is named, and so is every candidate in
/// a log of a registered contract, wherever in the new blocks it stands.
pub proof fn nothing_is_missed(
    handlers: Map<Address, LogHandler>,
    chain: Chain,
    account: int,
    block: int,
    receipt: int,
    log: int,
)
    ensures
        0 <= account < chain.accounts@.len() ==> changed_ids(handlers, chain).contains(
            checksum_text(chain.accounts@[account].address.0@),
        ),
        ({
            &&& 0 <= block < chain.receipts@.len()
            &&& 0 <= receipt < chain.receipts@[block]@.len()
            &&& 0 <= log < chain.receipts@[block]@[receipt].logs@.len()
        }) ==> {
            let found = chain.receipts@[block]@[receipt].logs@[log];
            handlers.contains_key(found.address) ==> (handlers[found.address].candidate(
                found,
            ) matches Some(id) ==> changed_ids(handlers, chain).contains(id))
        },
{
    if 0 <= account < chain.accounts@.len() {
        let f = |change: AccountChange| account_ids(change);
        let change = chain.accounts@[account];
        assert(f(change).contains(checksum_text(change.address.0@)));
    }
    if 0 <= block < chain.receipts@.len() && 0 <= receipt < chain.receipts@[block]@.len() && 0
        <= log < chain.receipts@[block]@[receipt].logs@.len() {
        let of_log = |log: Log| log_ids(handlers, log);
        let of_receipt = |receipt: Receipt| receipt_ids(handlers, receipt);
        let of_block = |receipts: Vec<Receipt>| block_ids(handlers, receipts);
        let receipts = chain.receipts@[block];
        let logs = receipts@[receipt].logs;
        let found = logs@[log];
        if handlers.contains_key(found.address) {
            if let Some(id) = handlers[found.address].candidate(found) {
                assert(of_log(found).contains(id));
                assert(of_receipt(receipts@[receipt]).contains(id));
                assert(of_block(receipts).contains(id));
            }
        }
    }
}

/// Whether `setting` spells `address`.
pub open spec fn set_to(setting: Option<String>, address: Address) -> bool {
    setting matches Some(text) && is_address(text@) && spells(text@, address)
}

/// The address that is made of the first 20 of `bytes`.
spec fn address_of(bytes: Seq<u8>) -> Address {
    Address(
        [
            bytes[0], bytes[1], bytes[2], bytes[3], bytes[4], bytes[5], bytes[6], bytes[7], bytes[8],
            bytes[9], bytes[10], bytes[11], bytes[12], bytes[13], bytes[14], bytes[15], bytes[16],
            bytes[17], bytes[18], bytes[19],
        ],
    )
}

proof fn set_to_one_address(setting: Option<String>, address: Address)
    ensures
        set_to(setting, address) <==> address_in(setting) == Some(address),
{
    if let Some(text) = setting {
        if is_address(text@) {
            let bytes = Seq::new(
                20,
                |i: int|
                    (16 * hex_value(unprefixed(text@)[2 * i]) + hex_value(
                        unprefixed(text@)[2 * i + 1],
                    )) as u8,
            );
            let found = address_of(bytes);
            assert forall|i: int| 0 <= i < 20 implies (#[trigger] found.0[i]) == 16 * hex_value(
                unprefixed(text@)[2 * i],
            ) + hex_value(unprefixed(text@)[2 * i + 1]) by {
                assert(found.0@[i] == bytes[i]);
                assert(0 <= hex_value(unprefixed(text@)[2 * i]) < 16);
                assert(0 <= hex_value(unprefixed(text@)[2 * i + 1]) < 16);
            }
            assert(spells(text@, found));
            let chosen = choose|other: Address| spells(text@, other);
            assert(spells(text@, chosen));
            if spells(text@, address) {
                assert forall|i: int| 0 <= i < 20 implies chosen.0[i] == address.0[i] by {}
                assert(chosen.0 =~= address.0);
            }
        }
    }
}

/// Each setting registers the rule of its own protocol: where it spells an address that no
/// later setting spells, the contract at that address has the handler of that protocol.
/// Without an address for the Balancer V2 vault, the vault is the one on mainnet.
pub proof fn settings_register_their_protocols(env: ImpactEnv, address: Address)
    ensures
        ({
            let v3 = set_to(env.balancer_v3_vault, address);
            let uniswap = set_to(env.uniswap_v4_pool_manager, address);
            let fluid = set_to(env.fluid_dex_lite, address);
            let core_swap = set_to(env.core_swap_pool_manager, address);
            let core_swap_v3 = set_to(env.core_swap_v3_pool_manager, address);
            let v2 = set_to(env.balancer_v2_vault, address) || (address.0@
                == BALANCER_V2_VAULT_DEFAULT@ && forall|other: Address|
                !set_to(env.balancer_v2_vault, other));
            let registry = handlers_of(env);
            &&& core_swap_v3 ==> registry.contains_pair(
                address,
                LogHandler::CoreSwap(CoreSwapHandler),
            )
            &&& core_swap && !core_swap_v3 ==> registry.contains_pair(
                address,
                LogHandler::CoreSwap(CoreSwapHandler),
            )
            &&& fluid && !core_swap && !core_swap_v3 ==> registry.contains_pair(
                address,
                LogHandler::FluidDexLite(FluidDexLiteHandler),
            )
            &&& uniswap && !fluid && !core_swap && !core_swap_v3 ==> registry.contains_pair(
                address,
                LogHandler::UniswapV4(UniswapV4Handler),
            )
            &&& v3 && !uniswap && !fluid && !core_swap && !core_swap_v3 ==> registry.contains_pair(
                address,
                LogHandler::BalancerV3(BalancerV3Handler),
            )
            &&& v2 && !v3 && !uniswap && !fluid && !core_swap && !core_swap_v3
                ==> registry.contains_pair(address, LogHandler::BalancerV2(BalancerV2Handler))
            &&& !v2 && !v3 && !uniswap && !fluid && !core_swap && !core_swap_v3
                ==> !registry.contains_key(address)
        }),
{
    set_to_one_address(env.balancer_v2_vault, address);
    set_to_one_address(env.balancer_v3_vault, address);
    set_to_one_address(env.uniswap_v4_pool_manager, address);
    set_to_one_address(env.fluid_dex_lite, address);
    set_to_one_address(env.core_swap_pool_manager, address);
    set_to_one_address(env.core_swap_v3_pool_manager, address);
    assert(address.0@ == BALANCER_V2_VAULT_DEFAULT@ ==> address.0 =~= BALANCER_V2_VAULT_DEFAULT);
    match address_in(env.balancer_v2_vault) {
        Some(vault) => {
            set_to_one_address(env.balancer_v2_vault, vault);
        },
        None => {
            assert forall|other: Address| !set_to(env.balancer_v2_vault, other) by {
                set_to_one_address(env.balancer_v2_vault, other);
            }
        },
    }
}

/// The vault that is taken by default is `0xBA12222222228d8Ba445958a75a0704d566BF2C8`.
pub proof fn default_vault_is_on_mainnet()
    ensures
        is_address("0xBA12222222228d8Ba445958a75a0704d566BF2C8"@),
        spells(
            "0xBA12222222228d8Ba445958a75a0704d566BF2C8"@,
            Address(BALANCER_V2_VAULT_DEFAULT),
        ),
{
    reveal_strlit("0xBA12222222228d8Ba445958a75a0704d566BF2C8");
    let text = "0xBA12222222228d8Ba445958a75a0704d566BF2C8"@;
    assert(unprefixed(text) =~= text.skip(2));
}

/// Whether `log` stands somewhere in the new blocks.
pub open spec fn has_log(chain: Chain, log: Log) -> bool {
    exists|block: int, receipt: int, i: int|
        {
            &&& 0 <= block < chain.receipts@.len()
            &&& 0 <= receipt < chain.receipts@[block]@.len()
            &&& 0 <= i < chain.receipts@[block]@[receipt].logs@.len()
            &&& #[trigger] chain.receipts@[block]@[receipt].logs@[i] == log
        }
}

/// Nothing is made up: what is named is a changed account, or the candidate of a log of a
/// registered contract.
pub proof fn nothing_is_made_up(handlers: Map<Address, LogHandler>, chain: Chain, id: Seq<char>)
    requires
        changed_ids(handlers, chain).contains(id),
    ensures
        (exists|i: int|
            0 <= i < chain.accounts@.len() && id == checksum_text(
                (#[trigger] chain.accounts@[i]).address.0@,
            )) || (exists|log: Log| #[trigger]
            has_log(chain, log) && handlers.contains_key(log.address)
                && handlers[log.address].candidate(log) == Some(id)),
{
    let f = |change: AccountChange| account_ids(change);
    let of_log = |log: Log| log_ids(handlers, log);
    let of_receipt = |receipt: Receipt| receipt_ids(handlers, receipt);
    let of_block = |receipts: Vec<Receipt>| block_ids(handlers, receipts);
    if union_of(chain.accounts@, f).contains(id) {
        let i = choose|i: int|
            0 <= i < chain.accounts@.len() && f(#[trigger] chain.accounts@[i]).contains(id);
        assert(id == checksum_text(chain.accounts@[i].address.0@));
    } else {
        let block = choose|i: int|
            0 <= i < chain.receipts@.len() && of_block(#[trigger] chain.receipts@[i]).contains(id);
        let receipts = chain.receipts@[block];
        let receipt = choose|i: int|
            0 <= i < receipts@.len() && of_receipt(#[trigger] receipts@[i]).contains(id);
        let logs = receipts@[receipt].logs;
        let i = choose|i: int| 0 <= i < logs@.len() && of_log(#[trigger] logs@[i]).contains(id);
        let log = logs@[i];
        assert(chain.receipts@[block]@[receipt].logs@[i] == log);
        assert(has_log(chain, log));
    }
}

} // verus!
