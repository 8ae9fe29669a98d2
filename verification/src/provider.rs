//! Reads of the state: a worker's own cache first, the shared cache next, the
//! state database last.

use vstd::prelude::*;
use crate::cache::diff::{accounts_match, storage_matches, ChainState, SHARED_EPOCH};
use crate::cache::store::{AccountEntries, BytecodeEntries, StorageEntries};
use crate::cache::GlobalSharedCache;
use crate::isolation::{caches_of, own_facts, reads, shared_facts, Fact, Query, ReadStep};
use crate::metrics::{Emission, Labels, Update};
use crate::primitives::{AccountInfo, Address, B256, Bytecode, ProviderError, U256};
use crate::worker::cache::WorkerL1Cache;

verus! {

pub const L1_HITS_TOTAL: &'static str = "mev_worker_l1_hits_total";

pub const L1_MISSES_TOTAL: &'static str = "mev_worker_l1_misses_total";

pub const DB_READS_TOTAL: &'static str = "mev_global_cache_db_reads_total";

pub const PROVIDER_OP_SECONDS: &'static str = "mev_provider_op_seconds";

/// What the reads of one task found where. Plain numbers, reported in one go when
/// the task is done. They wrap at 64 bits.
#[derive(Clone, Copy, Debug)]
pub struct ProviderStats {
    pub l1_hits_account: u64,
    pub l1_hits_storage: u64,
    pub l1_hits_bytecode: u64,
    pub l1_misses_account: u64,
    pub l1_misses_storage: u64,
    pub l1_misses_bytecode: u64,
    pub db_reads_account: u64,
    pub db_reads_storage: u64,
    pub db_reads_bytecode: u64,
}

impl Default for ProviderStats {
    fn default() -> (stats: Self)
        ensures
            stats == ProviderStats::zero(),
    {
        ProviderStats {
            l1_hits_account: 0,
            l1_hits_storage: 0,
            l1_hits_bytecode: 0,
            l1_misses_account: 0,
            l1_misses_storage: 0,
            l1_misses_bytecode: 0,
            db_reads_account: 0,
            db_reads_storage: 0,
            db_reads_bytecode: 0,
        }
    }
}

/// The rise of the counter `metric` for one kind of state.
pub open spec fn kind_count(metric: &'static str, kind: &'static str, value: u64) -> Emission {
    Emission { metric, labels: Labels::One("kind", kind), update: Update::Increment(value) }
}

/// `emissions`, and the rise of the counter `metric`, unless that is nothing.
pub open spec fn and_count(
    emissions: Seq<Emission>,
    metric: &'static str,
    kind: &'static str,
    value: u64,
) -> Seq<Emission> {
    if value > 0 {
        emissions.push(kind_count(metric, kind, value))
    } else {
        emissions
    }
}

fn push_count(
    emissions: &mut Vec<Emission>,
    metric: &'static str,
    kind: &'static str,
    value: u64,
)
    ensures
        final(emissions)@ == and_count(old(emissions)@, metric, kind, value),
{
    if value > 0 {
        emissions.push(
            Emission { metric, labels: Labels::One("kind", kind), update: Update::Increment(value) },
        );
    }
}

impl ProviderStats {
    /// Nothing read.
    pub open spec fn zero() -> Self {
        ProviderStats {
            l1_hits_account: 0,
            l1_hits_storage: 0,
            l1_hits_bytecode: 0,
            l1_misses_account: 0,
            l1_misses_storage: 0,
            l1_misses_bytecode: 0,
            db_reads_account: 0,
            db_reads_storage: 0,
            db_reads_bytecode: 0,
        }
    }

    /// The counters to raise: the hits, the misses and the database reads, each
    /// by kind of state, without those that are zero.
    pub open spec fn emissions(self) -> Seq<Emission> {
        let e = Seq::<Emission>::empty();
        let e = and_count(e, L1_HITS_TOTAL, "account", self.l1_hits_account);
        let e = and_count(e, L1_HITS_TOTAL, "storage", self.l1_hits_storage);
        let e = and_count(e, L1_HITS_TOTAL, "bytecode", self.l1_hits_bytecode);
        let e = and_count(e, L1_MISSES_TOTAL, "account", self.l1_misses_account);
        let e = and_count(e, L1_MISSES_TOTAL, "storage", self.l1_misses_storage);
        let e = and_count(e, L1_MISSES_TOTAL, "bytecode", self.l1_misses_bytecode);
        let e = and_count(e, DB_READS_TOTAL, "account", self.db_reads_account);
        let e = and_count(e, DB_READS_TOTAL, "storage", self.db_reads_storage);
        and_count(e, DB_READS_TOTAL, "bytecode", self.db_reads_bytecode)
    }

    /// The counters to raise when the task is done.
    pub fn flush(&self) -> (emissions: Vec<Emission>)
        ensures
            emissions@ == self.emissions(),
    {
        let mut emissions = Vec::new();
        push_count(&mut emissions, L1_HITS_TOTAL, "account", self.l1_hits_account);
        push_count(&mut emissions, L1_HITS_TOTAL, "storage", self.l1_hits_storage);
        push_count(&mut emissions, L1_HITS_TOTAL, "bytecode", self.l1_hits_bytecode);
        push_count(&mut emissions, L1_MISSES_TOTAL, "account", self.l1_misses_account);
        push_count(&mut emissions, L1_MISSES_TOTAL, "storage", self.l1_misses_storage);
        push_count(&mut emissions, L1_MISSES_TOTAL, "bytecode", self.l1_misses_bytecode);
        push_count(&mut emissions, DB_READS_TOTAL, "account", self.db_reads_account);
        push_count(&mut emissions, DB_READS_TOTAL, "storage", self.db_reads_storage);
        push_count(&mut emissions, DB_READS_TOTAL, "bytecode", self.db_reads_bytecode);
        emissions
    }

    /// One more account found in the worker's own cache.
    pub open spec fn account_hit(self) -> Self {
        ProviderStats { l1_hits_account: self.l1_hits_account.wrapping_add(1), ..self }
    }

    /// One more account not found there; `read` tells whether the database was read.
    pub open spec fn account_miss(self, read: bool) -> Self {
        ProviderStats {
            l1_misses_account: self.l1_misses_account.wrapping_add(1),
            db_reads_account: if read {
                self.db_reads_account.wrapping_add(1)
            } else {
                self.db_reads_account
            },
            ..self
        }
    }

    /// One more storage value found in the worker's own cache.
    pub open spec fn storage_hit(self) -> Self {
        ProviderStats { l1_hits_storage: self.l1_hits_storage.wrapping_add(1), ..self }
    }

    /// One more storage value not found there.
    pub open spec fn storage_miss(self, read: bool) -> Self {
        ProviderStats {
            l1_misses_storage: self.l1_misses_storage.wrapping_add(1),
            db_reads_storage: if read {
                self.db_reads_storage.wrapping_add(1)
            } else {
                self.db_reads_storage
            },
            ..self
        }
    }

    /// One more piece of code found in the worker's own cache.
    pub open spec fn bytecode_hit(self) -> Self {
        ProviderStats { l1_hits_bytecode: self.l1_hits_bytecode.wrapping_add(1), ..self }
    }

    /// One more piece of code not found there.
    pub open spec fn bytecode_miss(self, read: bool) -> Self {
        ProviderStats {
            l1_misses_bytecode: self.l1_misses_bytecode.wrapping_add(1),
            db_reads_bytecode: if read {
                self.db_reads_bytecode.wrapping_add(1)
            } else {
                self.db_reads_bytecode
            },
            ..self
        }
    }

    /// How many reads there were, hits and misses taken together.
    pub open spec fn reads(self) -> int {
        self.l1_hits_account + self.l1_hits_storage + self.l1_hits_bytecode
            + self.l1_misses_account + self.l1_misses_storage + self.l1_misses_bytecode
    }

    /// Whether no more was read from the database than was missing from the
    /// worker's own cache.
    pub open spec fn consistent(self) -> bool {
        &&& self.db_reads_account <= self.l1_misses_account
        &&& self.db_reads_storage <= self.l1_misses_storage
        &&& self.db_reads_bytecode <= self.l1_misses_bytecode
    }

    /// Whether no counter is about to wrap.
    pub open spec fn has_room(self) -> bool {
        &&& self.l1_hits_account < u64::MAX
        &&& self.l1_hits_storage < u64::MAX
        &&& self.l1_hits_bytecode < u64::MAX
        &&& self.l1_misses_account < u64::MAX
        &&& self.l1_misses_storage < u64::MAX
        &&& self.l1_misses_bytecode < u64::MAX
    }
}

/// Every read is counted once, as a hit or as a miss, and a database read only
/// ever with a miss.
pub proof fn reads_are_counted(stats: ProviderStats, read: bool)
    requires
        stats.consistent(),
        stats.has_room(),
    ensures
        stats.account_hit().reads() == stats.reads() + 1,
        stats.storage_hit().reads() == stats.reads() + 1,
        stats.bytecode_hit().reads() == stats.reads() + 1,
        stats.account_miss(read).reads() == stats.reads() + 1,
        stats.storage_miss(read).reads() == stats.reads() + 1,
        stats.bytecode_miss(read).reads() == stats.reads() + 1,
        stats.account_hit().consistent(),
        stats.storage_hit().consistent(),
        stats.bytecode_hit().consistent(),
        stats.account_miss(read).consistent(),
        stats.storage_miss(read).consistent(),
        stats.bytecode_miss(read).consistent(),
{
}

/// What is counted of a read is told by the kind of state: a hit raises the hits of that
/// kind, a miss the misses, and a database read the reads, each by one, and nothing else
/// moves. The numbers wrap at 64 bits.
pub proof fn reads_are_counted_by_kind(stats: ProviderStats, read: bool)
    ensures
        ({
            let next = |n: u64| (n + 1) % 0x1_0000_0000_0000_0000;
            let hit = stats.account_hit();
            let miss = stats.account_miss(read);
            let slot_hit = stats.storage_hit();
            let slot_miss = stats.storage_miss(read);
            let code_hit = stats.bytecode_hit();
            let code_miss = stats.bytecode_miss(read);
            let reads = |was: u64, is: u64| is == if read { next(was) } else { was as int };
            &&& hit.l1_hits_account == next(stats.l1_hits_account)
            &&& hit == (ProviderStats { l1_hits_account: hit.l1_hits_account, ..stats })
            &&& miss.l1_misses_account == next(stats.l1_misses_account)
            &&& reads(stats.db_reads_account, miss.db_reads_account)
            &&& miss == (ProviderStats {
                l1_misses_account: miss.l1_misses_account,
                db_reads_account: miss.db_reads_account,
                ..stats
            })
            &&& slot_hit.l1_hits_storage == next(stats.l1_hits_storage)
            &&& slot_hit == (ProviderStats { l1_hits_storage: slot_hit.l1_hits_storage, ..stats })
            &&& slot_miss.l1_misses_storage == next(stats.l1_misses_storage)
            &&& reads(stats.db_reads_storage, slot_miss.db_reads_storage)
            &&& slot_miss == (ProviderStats {
                l1_misses_storage: slot_miss.l1_misses_storage,
                db_reads_storage: slot_miss.db_reads_storage,
                ..stats
            })
            &&& code_hit.l1_hits_bytecode == next(stats.l1_hits_bytecode)
            &&& code_hit == (ProviderStats { l1_hits_bytecode: code_hit.l1_hits_bytecode, ..stats })
            &&& code_miss.l1_misses_bytecode == next(stats.l1_misses_bytecode)
            &&& reads(stats.db_reads_bytecode, code_miss.db_reads_bytecode)
            &&& code_miss == (ProviderStats {
                l1_misses_bytecode: code_miss.l1_misses_bytecode,
                db_reads_bytecode: code_miss.db_reads_bytecode,
                ..stats
            })
        }),
{
}

/// How much `emissions` raise the counter `metric` for one kind of state, all in all.
pub open spec fn rise_of(
    emissions: Seq<Emission>,
    metric: &'static str,
    kind: &'static str,
) -> int
    decreases emissions.len(),
{
    if emissions.len() == 0 {
        0
    } else {
        let rest = rise_of(emissions.drop_last(), metric, kind);
        let last = emissions.last();
        match last.update {
            Update::Increment(value) if last.metric == metric && last.labels == Labels::One(
                "kind",
                kind,
            ) => rest + value,
            _ => rest,
        }
    }
}

proof fn rise_with_count(
    emissions: Seq<Emission>,
    raised: &'static str,
    raised_kind: &'static str,
    value: u64,
    metric: &'static str,
    kind: &'static str,
)
    ensures
        rise_of(and_count(emissions, raised, raised_kind, value), metric, kind) == rise_of(
            emissions,
            metric,
            kind,
        ) + if raised == metric && raised_kind == kind {
            value as int
        } else {
            0
        },
{
    if value > 0 {
        let more = emissions.push(kind_count(raised, raised_kind, value));
        assert(more.drop_last() =~= emissions);
    }
}

/// Every count of a task is reported, in full and once: each counter rises, for each kind of
/// state, by what the task has counted of it, however large or small that is.
pub proof fn counts_are_reported_in_full(stats: ProviderStats)
    ensures
        rise_of(stats.emissions(), "mev_worker_l1_hits_total", "account") == stats.l1_hits_account,
        rise_of(stats.emissions(), "mev_worker_l1_hits_total", "storage") == stats.l1_hits_storage,
        rise_of(stats.emissions(), "mev_worker_l1_hits_total", "bytecode")
            == stats.l1_hits_bytecode,
        rise_of(stats.emissions(), "mev_worker_l1_misses_total", "account")
            == stats.l1_misses_account,
        rise_of(stats.emissions(), "mev_worker_l1_misses_total", "storage")
            == stats.l1_misses_storage,
        rise_of(stats.emissions(), "mev_worker_l1_misses_total", "bytecode")
            == stats.l1_misses_bytecode,
        rise_of(stats.emissions(), "mev_global_cache_db_reads_total", "account")
            == stats.db_reads_account,
        rise_of(stats.emissions(), "mev_global_cache_db_reads_total", "storage")
            == stats.db_reads_storage,
        rise_of(stats.emissions(), "mev_global_cache_db_reads_total", "bytecode")
            == stats.db_reads_bytecode,
{
    names_differ();
    rises_are_counts(stats, L1_HITS_TOTAL, "account");
    rises_are_counts(stats, L1_HITS_TOTAL, "storage");
    rises_are_counts(stats, L1_HITS_TOTAL, "bytecode");
    rises_are_counts(stats, L1_MISSES_TOTAL, "account");
    rises_are_counts(stats, L1_MISSES_TOTAL, "storage");
    rises_are_counts(stats, L1_MISSES_TOTAL, "bytecode");
    rises_are_counts(stats, DB_READS_TOTAL, "account");
    rises_are_counts(stats, DB_READS_TOTAL, "storage");
    rises_are_counts(stats, DB_READS_TOTAL, "bytecode");
}

proof fn names_differ()
    ensures
        L1_HITS_TOTAL != L1_MISSES_TOTAL,
        L1_HITS_TOTAL != DB_READS_TOTAL,
        L1_MISSES_TOTAL != DB_READS_TOTAL,
        "account" != "storage",
        "account" != "bytecode",
        "storage" != "bytecode",
{
    reveal_strlit("mev_worker_l1_hits_total");
    reveal_strlit("mev_worker_l1_misses_total");
    reveal_strlit("mev_global_cache_db_reads_total");
    reveal_strlit("account");
    reveal_strlit("storage");
    reveal_strlit("bytecode");
    assert("mev_worker_l1_hits_total"@.len() != "mev_worker_l1_misses_total"@.len());
    assert("mev_worker_l1_hits_total"@.len() != "mev_global_cache_db_reads_total"@.len());
    assert("mev_worker_l1_misses_total"@.len() != "mev_global_cache_db_reads_total"@.len());
    assert("account"@[0] != "storage"@[0]);
    assert("account"@[0] != "bytecode"@[0]);
    assert("storage"@[0] != "bytecode"@[0]);
}

proof fn rises_are_counts(stats: ProviderStats, metric: &'static str, kind: &'static str)
    ensures
        rise_of(stats.emissions(), metric, kind) == ({
            let part = |raised: &'static str, raised_kind: &'static str, value: u64|
                if raised == metric && raised_kind == kind {
                    value as int
                } else {
                    0
                };
            part(L1_HITS_TOTAL, "account", stats.l1_hits_account) + part(
                L1_HITS_TOTAL,
                "storage",
                stats.l1_hits_storage,
            ) + part(L1_HITS_TOTAL, "bytecode", stats.l1_hits_bytecode) + part(
                L1_MISSES_TOTAL,
                "account",
                stats.l1_misses_account,
            ) + part(L1_MISSES_TOTAL, "storage", stats.l1_misses_storage) + part(
                L1_MISSES_TOTAL,
                "bytecode",
                stats.l1_misses_bytecode,
            ) + part(DB_READS_TOTAL, "account", stats.db_reads_account) + part(
                DB_READS_TOTAL,
                "storage",
                stats.db_reads_storage,
            ) + part(DB_READS_TOTAL, "bytecode", stats.db_reads_bytecode)
        }),
{
    let e = Seq::<Emission>::empty();
    rise_with_count(e, L1_HITS_TOTAL, "account", stats.l1_hits_account, metric, kind);
    let e = and_count(e, L1_HITS_TOTAL, "account", stats.l1_hits_account);
    rise_with_count(e, L1_HITS_TOTAL, "storage", stats.l1_hits_storage, metric, kind);
    let e = and_count(e, L1_HITS_TOTAL, "storage", stats.l1_hits_storage);
    rise_with_count(e, L1_HITS_TOTAL, "bytecode", stats.l1_hits_bytecode, metric, kind);
    let e = and_count(e, L1_HITS_TOTAL, "bytecode", stats.l1_hits_bytecode);
    rise_with_count(e, L1_MISSES_TOTAL, "account", stats.l1_misses_account, metric, kind);
    let e = and_count(e, L1_MISSES_TOTAL, "account", stats.l1_misses_account);
    rise_with_count(e, L1_MISSES_TOTAL, "storage", stats.l1_misses_storage, metric, kind);
    let e = and_count(e, L1_MISSES_TOTAL, "storage", stats.l1_misses_storage);
    rise_with_count(e, L1_MISSES_TOTAL, "bytecode", stats.l1_misses_bytecode, metric, kind);
    let e = and_count(e, L1_MISSES_TOTAL, "bytecode", stats.l1_misses_bytecode);
    rise_with_count(e, DB_READS_TOTAL, "account", stats.db_reads_account, metric, kind);
    let e = and_count(e, DB_READS_TOTAL, "account", stats.db_reads_account);
    rise_with_count(e, DB_READS_TOTAL, "storage", stats.db_reads_storage, metric, kind);
    let e = and_count(e, DB_READS_TOTAL, "storage", stats.db_reads_storage);
    rise_with_count(e, DB_READS_TOTAL, "bytecode", stats.db_reads_bytecode, metric, kind);
}

/// A task raises at most nine counters, and each by more than nothing.
pub proof fn flush_is_small(stats: ProviderStats)
    ensures
        stats.emissions().len() <= 9,
        forall|i: int|
            0 <= i < stats.emissions().len() ==> ((#[trigger] stats.emissions()[i]).update matches
                Update::Increment(value) && value > 0),
{
}

/// What is reported of how long one read took.
pub open spec fn op_timing(op: &'static str, source: &'static str, nanos: u128) -> Emission {
    Emission {
        metric: PROVIDER_OP_SECONDS,
        labels: Labels::Two("op", op, "source", source),
        update: Update::RecordNanos(nanos),
    }
}

/// A read is timed to the nanosecond, under the kind of state and under where it was found.
pub proof fn reads_are_timed(op: &'static str, source: &'static str, nanos: u128)
    ensures
        op_timing(op, source, nanos).metric == "mev_provider_op_seconds",
        op_timing(op, source, nanos).labels == Labels::Two("op", op, "source", source),
        op_timing(op, source, nanos).update == Update::RecordNanos(nanos),
{
}

/// Reports how long one read took, by the kind of state and by where it was found.
pub fn record_provider_op(op: &'static str, source: &'static str, nanos: u128) -> (emission:
    Emission)
    ensures
        emission == op_timing(op, source, nanos),
{
    Emission {
        metric: PROVIDER_OP_SECONDS,
        labels: Labels::Two("op", op, "source", source),
        update: Update::RecordNanos(nanos),
    }
}

/// Whether `info` is what a read of `address` may give: what the worker's own cache
/// holds; or, where it holds nothing, an entry of the shared cache or what was
/// loaded.
pub open spec fn account_found(
    own: Map<Address, Option<AccountInfo>>,
    shared: AccountEntries,
    loaded: bool,
    address: Address,
    info: Option<AccountInfo>,
) -> bool {
    if own.contains_key(address) {
        info == own[address]
    } else {
        shared.contains_pair((SHARED_EPOCH, address), info) || loaded
    }
}

/// Whether `value` is what a read of the slot `index` of `address` may give.
pub open spec fn storage_found(
    own: Map<(Address, U256), U256>,
    shared: StorageEntries,
    loaded: bool,
    address: Address,
    index: U256,
    value: U256,
) -> bool {
    if own.contains_key((address, index)) {
        value == own[(address, index)]
    } else {
        shared.contains_pair((SHARED_EPOCH, address, index), value) || loaded
    }
}

/// Whether `code` is what a read of the code with the hash `code_hash` may give.
pub open spec fn code_found(
    own: Map<B256, Bytecode>,
    shared: BytecodeEntries,
    loaded: bool,
    code_hash: B256,
    code: Seq<u8>,
) -> bool {
    if own.contains_key(code_hash) {
        code == own[code_hash]@
    } else {
        shared.contains_pair(code_hash, code) || loaded
    }
}

/// Whether a worker's own accounts are what `state` holds.
pub open spec fn own_accounts_match(
    own: Map<Address, Option<AccountInfo>>,
    state: ChainState,
) -> bool {
    forall|address: Address| #[trigger]
        own.contains_key(address) ==> own[address] == (state.account)(address)
}

/// Whether a worker's own storage values are what `state` holds.
pub open spec fn own_storage_matches(own: Map<(Address, U256), U256>, state: ChainState) -> bool {
    forall|address: Address, index: U256| #[trigger]
        own.contains_key((address, index)) ==> own[(address, index)] == (state.slot)(address, index)
}

/// Where both caches hold the account state of some block, and the database
/// returns it, a read gives the account as it is at that block, and both caches
/// still hold the state of that block once the account has been kept.
pub proof fn account_reads_are_current(
    own: Map<Address, Option<AccountInfo>>,
    shared: AccountEntries,
    loaded: bool,
    address: Address,
    info: Option<AccountInfo>,
    state: ChainState,
)
    requires
        own_accounts_match(own, state),
        accounts_match(shared, state),
        loaded ==> info == (state.account)(address),
        account_found(own, shared, loaded, address, info),
    ensures
        info == (state.account)(address),
        own_accounts_match(own.insert(address, info), state),
        accounts_match(shared.insert((SHARED_EPOCH, address), info), state),
{
}

/// Where both caches hold the storage of some block, and the database returns it, a
/// read gives the value as it is at that block, and both caches still hold the
/// storage of that block once the value has been kept.
pub proof fn storage_reads_are_current(
    own: Map<(Address, U256), U256>,
    shared: StorageEntries,
    loaded: bool,
    address: Address,
    index: U256,
    value: U256,
    state: ChainState,
)
    requires
        own_storage_matches(own, state),
        storage_matches(shared, state),
        loaded ==> value == (state.slot)(address, index),
        storage_found(own, shared, loaded, address, index, value),
    ensures
        value == (state.slot)(address, index),
        own_storage_matches(own.insert((address, index), value), state),
        storage_matches(shared.insert((SHARED_EPOCH, address, index), value), state),
{
}

/// A worker's own cache that has been emptied holds the state of every block, so a
/// worker that goes over to another epoch reads nothing of the one before.
pub proof fn emptied_cache_is_current(state: ChainState)
    ensures
        own_accounts_match(Map::empty(), state),
        own_storage_matches(Map::empty(), state),
{
}

/// A read that has been answered is answered again from the worker's own cache:
/// with the same account, whatever the shared cache and the database would say.
pub proof fn answers_are_remembered(
    own: Map<Address, Option<AccountInfo>>,
    shared: AccountEntries,
    loaded: bool,
    address: Address,
    info: Option<AccountInfo>,
    again: Option<AccountInfo>,
)
    requires
        account_found(own.insert(address, info), shared, loaded, address, again),
    ensures
        again == info,
{
}

/// A slot that has been read is answered again from the worker's own cache, with the
/// same value.
pub proof fn slots_are_remembered(
    own: Map<(Address, U256), U256>,
    shared: StorageEntries,
    loaded: bool,
    address: Address,
    index: U256,
    value: U256,
    again: U256,
)
    requires
        storage_found(own.insert((address, index), value), shared, loaded, address, index, again),
    ensures
        again == value,
{
}

/// Code that has been read is answered again from the worker's own cache, with the same
/// bytes.
pub proof fn code_is_remembered(
    own: Map<B256, Bytecode>,
    shared: BytecodeEntries,
    loaded: bool,
    code_hash: B256,
    code: Bytecode,
    again: Seq<u8>,
)
    requires
        code_found(own.insert(code_hash, code), shared, loaded, code_hash, again),
    ensures
        again == code@,
{
}

/// Whether a read of an account leads from the counts `before` to the counts `after`.
/// `own` tells whether the worker's own cache has it, `shared` whether the shared cache may
/// have it, and `answered` whether the read did not fail.
pub open spec fn counts_account_read(
    before: ProviderStats,
    after: ProviderStats,
    own: bool,
    shared: bool,
    answered: bool,
) -> bool {
    if own {
        after == before.account_hit()
    } else if shared && answered {
        after == before.account_miss(false) || after == before.account_miss(true)
    } else {
        after == before.account_miss(true)
    }
}

/// Whether a read of a storage value leads from the counts `before` to the counts `after`.
/// `own` tells whether the worker's own cache has it, `shared` whether the shared cache may
/// have it, and `answered` whether the read did not fail.
pub open spec fn counts_storage_read(
    before: ProviderStats,
    after: ProviderStats,
    own: bool,
    shared: bool,
    answered: bool,
) -> bool {
    if own {
        after == before.storage_hit()
    } else if shared && answered {
        after == before.storage_miss(false) || after == before.storage_miss(true)
    } else {
        after == before.storage_miss(true)
    }
}

/// Whether a read of code leads from the counts `before` to the counts `after`.
/// `own` tells whether the worker's own cache has it, `shared` whether the shared cache may
/// have it, and `answered` whether the read did not fail.
pub open spec fn counts_bytecode_read(
    before: ProviderStats,
    after: ProviderStats,
    own: bool,
    shared: bool,
    answered: bool,
) -> bool {
    if own {
        after == before.bytecode_hit()
    } else if shared && answered {
        after == before.bytecode_miss(false) || after == before.bytecode_miss(true)
    } else {
        after == before.bytecode_miss(true)
    }
}

/// A read that the worker's own cache answers is a hit, and no read of the database. Any
/// other is a miss. One that the shared cache cannot answer either is a read of the database,
/// whatever that returned, and so is one that fails.
pub proof fn reads_are_counted_where_they_are_answered(
    before: ProviderStats,
    after: ProviderStats,
    own: bool,
    shared: bool,
    answered: bool,
)
    ensures
        counts_account_read(before, after, own, shared, answered) ==> {
            &&& own ==> {
                &&& after.l1_hits_account == (before.l1_hits_account + 1) % 0x1_0000_0000_0000_0000
                &&& after.l1_misses_account == before.l1_misses_account
                &&& after.db_reads_account == before.db_reads_account
            }
            &&& !own ==> {
                &&& after.l1_hits_account == before.l1_hits_account
                &&& after.l1_misses_account == (before.l1_misses_account + 1)
                    % 0x1_0000_0000_0000_0000
            }
            &&& !own && (!shared || !answered) ==> after.db_reads_account == (
            before.db_reads_account + 1) % 0x1_0000_0000_0000_0000
        },
        counts_storage_read(before, after, own, shared, answered) ==> {
            &&& own ==> {
                &&& after.l1_hits_storage == (before.l1_hits_storage + 1) % 0x1_0000_0000_0000_0000
                &&& after.l1_misses_storage == before.l1_misses_storage
                &&& after.db_reads_storage == before.db_reads_storage
            }
            &&& !own ==> {
                &&& after.l1_hits_storage == before.l1_hits_storage
                &&& after.l1_misses_storage == (before.l1_misses_storage + 1)
                    % 0x1_0000_0000_0000_0000
            }
            &&& !own && (!shared || !answered) ==> after.db_reads_storage == (
            before.db_reads_storage + 1) % 0x1_0000_0000_0000_0000
        },
        counts_bytecode_read(before, after, own, shared, answered) ==> {
            &&& own ==> {
                &&& after.l1_hits_bytecode == (before.l1_hits_bytecode + 1) % 0x1_0000_0000_0000_0000
                &&& after.l1_misses_bytecode == before.l1_misses_bytecode
                &&& after.db_reads_bytecode == before.db_reads_bytecode
            }
            &&& !own ==> {
                &&& after.l1_hits_bytecode == before.l1_hits_bytecode
                &&& after.l1_misses_bytecode == (before.l1_misses_bytecode + 1)
                    % 0x1_0000_0000_0000_0000
            }
            &&& !own && (!shared || !answered) ==> after.db_reads_bytecode == (
            before.db_reads_bytecode + 1) % 0x1_0000_0000_0000_0000
        },
{
}

/// A read of the account at `address` that gave `result`.
pub open spec fn account_step(
    address: Address,
    result: Result<Option<AccountInfo>, ProviderError>,
    loaded: bool,
) -> ReadStep {
    let answer = match result {
        Ok(info) => Some(Fact::Account(info)),
        Err(_) => None,
    };
    ReadStep { query: Query::Account(address), answer, loaded }
}

/// A read of the slot `index` of the account at `address` that gave `result`.
pub open spec fn storage_step(
    address: Address,
    index: U256,
    result: Result<U256, ProviderError>,
    loaded: bool,
) -> ReadStep {
    let answer = match result {
        Ok(value) => Some(Fact::Slot(value)),
        Err(_) => None,
    };
    ReadStep { query: Query::Slot(address, index), answer, loaded }
}

/// A read of the code with the hash `code_hash` that gave `result`.
pub open spec fn code_step(
    code_hash: B256,
    result: Result<Bytecode, ProviderError>,
    loaded: bool,
) -> ReadStep {
    let answer = match result {
        Ok(code) => Some(Fact::Code(code@)),
        Err(_) => None,
    };
    ReadStep { query: Query::Code(code_hash), answer, loaded }
}

/// The reads of one task: through the worker's own cache, with a count of what
/// was found where. `load` reads the database; it is asked only for what neither
/// cache hands out.
#[derive(Debug)]
pub struct CachedStateProvider<'a> {
    pub l1: &'a mut WorkerL1Cache,
    pub stats: ProviderStats,
}

impl<'a> CachedStateProvider<'a> {
    /// Reads through `l1`, with nothing counted yet.
    pub fn new(l1: &'a mut WorkerL1Cache) -> (provider: Self)
        ensures
            *provider.l1 == *old(l1),
            *final(provider.l1) == *final(l1),
            provider.stats == ProviderStats::zero(),
    {
        CachedStateProvider { l1, stats: ProviderStats::default() }
    }

    /// The account at `address` as far as the worker's own cache knows it. One
    /// that it knows counts as a hit, any other as a miss.
    pub fn lookup_account(&mut self, address: Address) -> (cached: Option<Option<AccountInfo>>)
        ensures
            *final(self).l1 == *old(self).l1,
            *final(final(self).l1) == *final(old(self).l1),
            match cached {
                Some(info) => {
                    &&& old(self).l1.accounts@.contains_pair(address, info)
                    &&& final(self).stats == old(self).stats.account_hit()
                },
                None => {
                    &&& !old(self).l1.accounts@.contains_key(address)
                    &&& final(self).stats == old(self).stats.account_miss(false)
                },
            },
    {
        let cached = match self.l1.accounts.get(&address) {
            Some(info) => Some(*info),
            None => None,
        };
        if cached.is_some() {
            self.stats.l1_hits_account = self.stats.l1_hits_account.wrapping_add(1);
        } else {
            self.stats.l1_misses_account = self.stats.l1_misses_account.wrapping_add(1);
        }
        cached
    }

    /// Takes in what the shared cache answered to a miss: an account is kept in
    /// the worker's own cache, and a database read is counted, one that failed as well
    /// as any other.
    pub fn accept_account(
        &mut self,
        address: Address,
        answer: Result<(Option<AccountInfo>, bool), ProviderError>,
    ) -> (result: Result<Option<AccountInfo>, ProviderError>)
        ensures
            *final(final(self).l1) == *final(old(self).l1),
            final(self).l1.epoch_id == old(self).l1.epoch_id,
            final(self).l1.bytecodes == old(self).l1.bytecodes,
            final(self).l1.storage == old(self).l1.storage,
            match answer {
                Ok((info, read)) => {
                    &&& result == Ok::<Option<AccountInfo>, ProviderError>(info)
                    &&& final(self).l1.accounts@ == old(self).l1.accounts@.insert(address, info)
                    &&& final(self).stats == if read {
                        ProviderStats {
                            db_reads_account: old(self).stats.db_reads_account.wrapping_add(1),
                            ..old(self).stats
                        }
                    } else {
                        old(self).stats
                    }
                },
                Err(error) => {
                    &&& result == Err::<Option<AccountInfo>, ProviderError>(error)
                    &&& final(self).l1.accounts == old(self).l1.accounts
                    &&& final(self).stats == (ProviderStats {
                        db_reads_account: old(self).stats.db_reads_account.wrapping_add(1),
                        ..old(self).stats
                    })
                },
            },
    {
        match answer {
            Ok((info, read)) => {
                if read {
                    self.stats.db_reads_account = self.stats.db_reads_account.wrapping_add(1);
                }
                self.l1.accounts.insert(address, info);
                Ok(info)
            },
            Err(error) => {
                self.stats.db_reads_account = self.stats.db_reads_account.wrapping_add(1);
                Err(error)
            },
        }
    }

    /// The account at `address`: from the worker's own cache; else from the shared
    /// cache; else from the database, by `load`. What was not in a cache is put
    /// there. A failure to load changes no cache, and is a database read all the same.
    pub fn basic<F>(
        &mut self,
        global: &mut GlobalSharedCache,
        address: Address,
        load: F,
    ) -> (result: Result<Option<AccountInfo>, ProviderError>) where
        F: FnOnce() -> Result<Option<AccountInfo>, ProviderError>,

        requires
            load.requires(()),
        ensures
            *final(final(self).l1) == *final(old(self).l1),
            final(self).l1.epoch_id == old(self).l1.epoch_id,
            final(self).l1.bytecodes == old(self).l1.bytecodes,
            final(self).l1.storage == old(self).l1.storage,
            final(global).storage() == old(global).storage(),
            final(global).bytecodes() == old(global).bytecodes(),
            final(global).same_limits(*old(global)),
            result matches Ok(info) ==> account_found(
                old(self).l1.accounts@,
                old(global).accounts(),
                load.ensures((), Ok(info)),
                address,
                info,
            ),
            old(self).l1.accounts@.contains_key(address) ==> {
                &&& result == Ok::<Option<AccountInfo>, ProviderError>(
                    old(self).l1.accounts@[address],
                )
                &&& final(self).l1.accounts == old(self).l1.accounts
                &&& final(self).stats == old(self).stats.account_hit()
                &&& *final(global) == *old(global)
            },
            reads(
                caches_of(*old(self).l1, *old(global)),
                account_step(address, result, result is Ok && load.ensures((), result)),
                caches_of(*final(self).l1, *final(global)),
            ),
            !old(self).l1.accounts@.contains_key(address) ==> final(global).asked_for_account(
                *old(global),
                (SHARED_EPOCH, address),
            ),
            !old(self).l1.accounts@.contains_key(address) ==> final(global).answers_account(
                *old(global),
                (SHARED_EPOCH, address),
                result,
            ),
            counts_account_read(
                old(self).stats,
                final(self).stats,
                old(self).l1.accounts@.contains_key(address),
                old(global).accounts().contains_key((SHARED_EPOCH, address)),
                result is Ok,
            ),
            !old(self).l1.accounts@.contains_key(address) && old(global).keeps_accounts()
                && old(global).accounts().contains_key((SHARED_EPOCH, address))
                ==> final(self).stats == old(self).stats.account_miss(false),
            !old(self).l1.accounts@.contains_key(address) ==> match result {
                Ok(info) => {
                    &&& final(self).l1.accounts@ == old(self).l1.accounts@.insert(address, info)
                    &&& final(global).accounts() == old(global).accounts().insert(
                        (SHARED_EPOCH, address),
                        info,
                    )
                    &&& {
                        ||| {
                            &&& load.ensures((), Ok(info))
                            &&& final(self).stats == old(self).stats.account_miss(true)
                        }
                        ||| {
                            &&& old(global).accounts().contains_pair((SHARED_EPOCH, address), info)
                            &&& final(self).stats == old(self).stats.account_miss(false)
                        }
                    }
                },
                Err(error) => {
                    &&& load.ensures((), Err(error))
                    &&& final(self).l1.accounts == old(self).l1.accounts
                    &&& final(global).accounts() == old(global).accounts()
                    &&& final(self).stats == old(self).stats.account_miss(true)
                },
            },
    {
        let ghost own = own_facts(*self.l1);
        let ghost shared = shared_facts(*global);
        if let Some(cached) = self.lookup_account(address) {
            return Ok(cached);
        }
        let ghost before = global.accounts();
        let answer = global.read_account(SHARED_EPOCH, address, load);
        assert(answer is Ok ==> global.accounts() =~= before.insert(
            (SHARED_EPOCH, address),
            answer->Ok_0.0,
        ));
        let ghost answered = answer;
        let result = self.accept_account(address, answer);
        proof {
            if answered is Ok {
                let fact = Fact::Account(answered->Ok_0.0);
                assert(own_facts(*self.l1) =~= own.insert(Query::Account(address), fact));
                assert(shared_facts(*global) =~= shared.insert(Query::Account(address), fact));
            } else {
                assert(own_facts(*self.l1) =~= own);
                assert(shared_facts(*global) =~= shared);
            }
        }
        result
    }

    /// The code with the hash `code_hash` as far as the worker's own cache knows
    /// it. Code that it knows counts as a hit, any other as a miss.
    pub fn lookup_code(&mut self, code_hash: B256) -> (cached: Option<Bytecode>)
        ensures
            *final(self).l1 == *old(self).l1,
            *final(final(self).l1) == *final(old(self).l1),
            match cached {
                Some(code) => {
                    &&& old(self).l1.bytecodes@.contains_key(code_hash)
                    &&& code@ == old(self).l1.bytecodes@[code_hash]@
                    &&& final(self).stats == old(self).stats.bytecode_hit()
                },
                None => {
                    &&& !old(self).l1.bytecodes@.contains_key(code_hash)
                    &&& final(self).stats == old(self).stats.bytecode_miss(false)
                },
            },
    {
        let cached = match self.l1.bytecodes.get(&code_hash) {
            Some(code) => Some(code.clone()),
            None => None,
        };
        if cached.is_some() {
            self.stats.l1_hits_bytecode = self.stats.l1_hits_bytecode.wrapping_add(1);
        } else {
            self.stats.l1_misses_bytecode = self.stats.l1_misses_bytecode.wrapping_add(1);
        }
        cached
    }

    /// Takes in what the shared cache answered to a miss: code is kept in the
    /// worker's own cache, and a database read is counted, failed or not.
    pub fn accept_code(
        &mut self,
        code_hash: B256,
        answer: Result<(Bytecode, bool), ProviderError>,
    ) -> (result: Result<Bytecode, ProviderError>)
        ensures
            *final(final(self).l1) == *final(old(self).l1),
            final(self).l1.epoch_id == old(self).l1.epoch_id,
            final(self).l1.accounts == old(self).l1.accounts,
            final(self).l1.storage == old(self).l1.storage,
            match answer {
                Ok((code, read)) => {
                    &&& result == Ok::<Bytecode, ProviderError>(code)
                    &&& final(self).l1.bytecodes@ == old(self).l1.bytecodes@.insert(
                        code_hash,
                        final(self).l1.bytecodes@[code_hash],
                    )
                    &&& final(self).l1.bytecodes@[code_hash]@ == code@
                    &&& final(self).stats == if read {
                        ProviderStats {
                            db_reads_bytecode: old(self).stats.db_reads_bytecode.wrapping_add(1),
                            ..old(self).stats
                        }
                    } else {
                        old(self).stats
                    }
                },
                Err(error) => {
                    &&& result == Err::<Bytecode, ProviderError>(error)
                    &&& final(self).l1.bytecodes == old(self).l1.bytecodes
                    &&& final(self).stats == (ProviderStats {
                        db_reads_bytecode: old(self).stats.db_reads_bytecode.wrapping_add(1),
                        ..old(self).stats
                    })
                },
            },
    {
        match answer {
            Ok((code, read)) => {
                if read {
                    self.stats.db_reads_bytecode = self.stats.db_reads_bytecode.wrapping_add(1);
                }
                self.l1.bytecodes.insert(code_hash, code.clone());
                Ok(code)
            },
            Err(error) => {
                self.stats.db_reads_bytecode = self.stats.db_reads_bytecode.wrapping_add(1);
                Err(error)
            },
        }
    }

    /// The code with the hash `code_hash`, found as [`Self::basic`] finds an
    /// account.
    pub fn code_by_hash<F>(
        &mut self,
        global: &mut GlobalSharedCache,
        code_hash: B256,
        load: F,
    ) -> (result: Result<Bytecode, ProviderError>) where
        F: FnOnce() -> Result<Bytecode, ProviderError>,

        requires
            load.requires(()),
        ensures
            *final(final(self).l1) == *final(old(self).l1),
            final(self).l1.epoch_id == old(self).l1.epoch_id,
            final(self).l1.accounts == old(self).l1.accounts,
            final(self).l1.storage == old(self).l1.storage,
            final(global).accounts() == old(global).accounts(),
            final(global).storage() == old(global).storage(),
            final(global).same_limits(*old(global)),
            result matches Ok(code) ==> code_found(
                old(self).l1.bytecodes@,
                old(global).bytecodes(),
                load.ensures((), Ok(code)),
                code_hash,
                code@,
            ),
            old(self).l1.bytecodes@.contains_key(code_hash) ==> {
                &&& result matches Ok(code) && code@ == old(self).l1.bytecodes@[code_hash]@
                &&& final(self).l1.bytecodes == old(self).l1.bytecodes
                &&& final(self).stats == old(self).stats.bytecode_hit()
                &&& *final(global) == *old(global)
            },
            reads(
                caches_of(*old(self).l1, *old(global)),
                code_step(code_hash, result, result is Ok && load.ensures((), result)),
                caches_of(*final(self).l1, *final(global)),
            ),
            !old(self).l1.bytecodes@.contains_key(code_hash) ==> final(global).asked_for_bytecode(
                *old(global),
                code_hash,
            ),
            !old(self).l1.bytecodes@.contains_key(code_hash) ==> final(global).answers_bytecode(
                *old(global),
                code_hash,
                result,
            ),
            counts_bytecode_read(
                old(self).stats,
                final(self).stats,
                old(self).l1.bytecodes@.contains_key(code_hash),
                old(global).bytecodes().contains_key(code_hash),
                result is Ok,
            ),
            !old(self).l1.bytecodes@.contains_key(code_hash) && old(global).keeps_bytecodes()
                && old(global).bytecodes().contains_key(code_hash)
                ==> final(self).stats == old(self).stats.bytecode_miss(false),
            !old(self).l1.bytecodes@.contains_key(code_hash) ==> match result {
                Ok(code) => {
                    &&& final(self).l1.bytecodes@ == old(self).l1.bytecodes@.insert(
                        code_hash,
                        final(self).l1.bytecodes@[code_hash],
                    )
                    &&& final(self).l1.bytecodes@[code_hash]@ == code@
                    &&& final(global).bytecodes() == old(global).bytecodes().insert(
                        code_hash,
                        code@,
                    )
                    &&& {
                        ||| {
                            &&& load.ensures((), Ok(code))
                            &&& final(self).stats == old(self).stats.bytecode_miss(true)
                        }
                        ||| {
                            &&& old(global).bytecodes().contains_pair(code_hash, code@)
                            &&& final(self).stats == old(self).stats.bytecode_miss(false)
                        }
                    }
                },
                Err(error) => {
                    &&& load.ensures((), Err(error))
                    &&& final(self).l1.bytecodes == old(self).l1.bytecodes
                    &&& final(global).bytecodes() == old(global).bytecodes()
                    &&& final(self).stats == old(self).stats.bytecode_miss(true)
                },
            },
    {
        let ghost own = own_facts(*self.l1);
        let ghost shared = shared_facts(*global);
        if let Some(cached) = self.lookup_code(code_hash) {
            return Ok(cached);
        }
        let ghost before = global.bytecodes();
        let answer = global.read_bytecode(code_hash, load);
        assert(answer is Ok ==> global.bytecodes() =~= before.insert(
            code_hash,
            answer->Ok_0.0@,
        ));
        let ghost answered = answer;
        let result = self.accept_code(code_hash, answer);
        proof {
            if answered is Ok {
                let fact = Fact::Code(answered->Ok_0.0@);
                assert(own_facts(*self.l1) =~= own.insert(Query::Code(code_hash), fact));
                assert(shared_facts(*global) =~= shared.insert(Query::Code(code_hash), fact));
            } else {
                assert(own_facts(*self.l1) =~= own);
                assert(shared_facts(*global) =~= shared);
            }
        }
        result
    }

    /// The value of the slot `index` of the account at `address` as far as the
    /// worker's own cache knows it. One that it knows counts as a hit, any other
    /// as a miss.
    pub fn lookup_storage(&mut self, address: Address, index: U256) -> (cached: Option<U256>)
        ensures
            *final(self).l1 == *old(self).l1,
            *final(final(self).l1) == *final(old(self).l1),
            match cached {
                Some(value) => {
                    &&& old(self).l1.storage@.contains_pair((address, index), value)
                    &&& final(self).stats == old(self).stats.storage_hit()
                },
                None => {
                    &&& !old(self).l1.storage@.contains_key((address, index))
                    &&& final(self).stats == old(self).stats.storage_miss(false)
                },
            },
    {
        let cached = match self.l1.storage.get(&(address, index)) {
            Some(value) => Some(*value),
            None => None,
        };
        if cached.is_some() {
            self.stats.l1_hits_storage = self.stats.l1_hits_storage.wrapping_add(1);
        } else {
            self.stats.l1_misses_storage = self.stats.l1_misses_storage.wrapping_add(1);
        }
        cached
    }

    /// Takes in what the shared cache answered to a miss: a value is kept in the
    /// worker's own cache, and a database read is counted, failed or not.
    pub fn accept_storage(
        &mut self,
        address: Address,
        index: U256,
        answer: Result<(U256, bool), ProviderError>,
    ) -> (result: Result<U256, ProviderError>)
        ensures
            *final(final(self).l1) == *final(old(self).l1),
            final(self).l1.epoch_id == old(self).l1.epoch_id,
            final(self).l1.accounts == old(self).l1.accounts,
            final(self).l1.bytecodes == old(self).l1.bytecodes,
            match answer {
                Ok((value, read)) => {
                    &&& result == Ok::<U256, ProviderError>(value)
                    &&& final(self).l1.storage@ == old(self).l1.storage@.insert(
                        (address, index),
                        value,
                    )
                    &&& final(self).stats == if read {
                        ProviderStats {
                            db_reads_storage: old(self).stats.db_reads_storage.wrapping_add(1),
                            ..old(self).stats
                        }
                    } else {
                        old(self).stats
                    }
                },
                Err(error) => {
                    &&& result == Err::<U256, ProviderError>(error)
                    &&& final(self).l1.storage == old(self).l1.storage
                    &&& final(self).stats == (ProviderStats {
                        db_reads_storage: old(self).stats.db_reads_storage.wrapping_add(1),
                        ..old(self).stats
                    })
                },
            },
    {
        match answer {
            Ok((value, read)) => {
                if read {
                    self.stats.db_reads_storage = self.stats.db_reads_storage.wrapping_add(1);
                }
                self.l1.storage.insert((address, index), value);
                Ok(value)
            },
            Err(error) => {
                self.stats.db_reads_storage = self.stats.db_reads_storage.wrapping_add(1);
                Err(error)
            },
        }
    }

    /// The value of the slot `index` of the account at `address`, found as
    /// [`Self::basic`] finds an account.
    pub fn storage<F>(
        &mut self,
        global: &mut GlobalSharedCache,
        address: Address,
        index: U256,
        load: F,
    ) -> (result: Result<U256, ProviderError>) where F: FnOnce() -> Result<U256, ProviderError>
        requires
            load.requires(()),
        ensures
            *final(final(self).l1) == *final(old(self).l1),
            final(self).l1.epoch_id == old(self).l1.epoch_id,
            final(self).l1.accounts == old(self).l1.accounts,
            final(self).l1.bytecodes == old(self).l1.bytecodes,
            final(global).accounts() == old(global).accounts(),
            final(global).bytecodes() == old(global).bytecodes(),
            final(global).same_limits(*old(global)),
            result matches Ok(value) ==> storage_found(
                old(self).l1.storage@,
                old(global).storage(),
                load.ensures((), Ok(value)),
                address,
                index,
                value,
            ),
            old(self).l1.storage@.contains_key((address, index)) ==> {
                &&& result == Ok::<U256, ProviderError>(old(self).l1.storage@[(address, index)])
                &&& final(self).l1.storage == old(self).l1.storage
                &&& final(self).stats == old(self).stats.storage_hit()
                &&& *final(global) == *old(global)
            },
            reads(
                caches_of(*old(self).l1, *old(global)),
                storage_step(address, index, result, result is Ok && load.ensures((), result)),
                caches_of(*final(self).l1, *final(global)),
            ),
            !old(self).l1.storage@.contains_key((address, index)) ==> final(global).asked_for_storage(
                *old(global),
                (SHARED_EPOCH, address, index),
            ),
            !old(self).l1.storage@.contains_key((address, index)) ==> final(global).answers_storage(
                *old(global),
                (SHARED_EPOCH, address, index),
                result,
            ),
            counts_storage_read(
                old(self).stats,
                final(self).stats,
                old(self).l1.storage@.contains_key((address, index)),
                old(global).storage().contains_key((SHARED_EPOCH, address, index)),
                result is Ok,
            ),
            !old(self).l1.storage@.contains_key((address, index)) && old(global).keeps_storage()
                && old(global).storage().contains_key((SHARED_EPOCH, address, index))
                ==> final(self).stats == old(self).stats.storage_miss(false),
            !old(self).l1.storage@.contains_key((address, index)) ==> match result {
                Ok(value) => {
                    &&& final(self).l1.storage@ == old(self).l1.storage@.insert(
                        (address, index),
                        value,
                    )
                    &&& final(global).storage() == old(global).storage().insert(
                        (SHARED_EPOCH, address, index),
                        value,
                    )
                    &&& {
                        ||| {
                            &&& load.ensures((), Ok(value))
                            &&& final(self).stats == old(self).stats.storage_miss(true)
                        }
                        ||| {
                            &&& old(global).storage().contains_pair(
                                (SHARED_EPOCH, address, index),
                                value,
                            )
                            &&& final(self).stats == old(self).stats.storage_miss(false)
                        }
                    }
                },
                Err(error) => {
                    &&& load.ensures((), Err(error))
                    &&& final(self).l1.storage == old(self).l1.storage
                    &&& final(global).storage() == old(global).storage()
                    &&& final(self).stats == old(self).stats.storage_miss(true)
                },
            },
    {
        let ghost own = own_facts(*self.l1);
        let ghost shared = shared_facts(*global);
        if let Some(cached) = self.lookup_storage(address, index) {
            return Ok(cached);
        }
        let ghost before = global.storage();
        let answer = global.read_storage(SHARED_EPOCH, address, index, load);
        assert(answer is Ok ==> global.storage() =~= before.insert(
            (SHARED_EPOCH, address, index),
            answer->Ok_0.0,
        ));
        let ghost answered = answer;
        let result = self.accept_storage(address, index, answer);
        proof {
            if answered is Ok {
                let fact = Fact::Slot(answered->Ok_0.0);
                assert(own_facts(*self.l1) =~= own.insert(Query::Slot(address, index), fact));
                assert(shared_facts(*global) =~= shared.insert(Query::Slot(address, index), fact));
            } else {
                assert(own_facts(*self.l1) =~= own);
                assert(shared_facts(*global) =~= shared);
            }
        }
        result
    }
}

} // verus!
