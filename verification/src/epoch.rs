//! The active epoch: the block whose state the workers execute on.
//!
//! [`EpochManager`] decides. Whoever drives it does what it is told, opens blocks
//! and waits for notifications, and comes back with what happened.

use vstd::prelude::*;
use crate::api::types::{BlockId, BlockNumberOrTag};
use crate::cache::diff::{
    accounts_match, brought_state_is_put_in, describes, lists_account, lists_storage,
    lists_what_it_destroys, notification_keeps_entries_current, prefilled_accounts,
    prefilled_storage, storage_matches, surviving_accounts, surviving_storage,
    unlisted_entries_stay, ChainState, SHARED_EPOCH,
};
use crate::cache::store::{AccountEntries, StorageEntries};
use crate::cache::weight::{accounts_fit, storage_fits};
use crate::cache::GlobalSharedCache;
use crate::chain::{AccountChange, CanonStateNotification, Chain};
use crate::config::{flag_in, is_on, switches_are_on_unless_zero};
use crate::metrics::{Emission, Labels, Update};
use crate::primitives::{AccountInfo, Address, B256, ProviderError, U256};
use crate::text::{parse_u64, u64_in};

verus! {

/// A version of the chain's head.
#[derive(Clone, Copy, Debug)]
pub struct EpochContext {
    /// Rises with every new head.
    pub epoch_id: u64,
    pub block_number: u64,
    pub block_hash: B256,
}

impl EpochContext {
    /// Whether this stands for no block yet.
    pub open spec fn is_placeholder(self) -> bool {
        &&& self.epoch_id == 0
        &&& self.block_number == 0
        &&& forall|i: int| 0 <= i < 32 ==> self.block_hash.0[i] == 0
    }

    /// Stands for no block yet.
    pub fn placeholder() -> (epoch: Self)
        ensures
            epoch.is_placeholder(),
    {
        EpochContext { epoch_id: 0, block_number: 0, block_hash: B256([0; 32]) }
    }
}

/// What the driver is to do first.
#[derive(Clone, Copy, Debug)]
pub enum StartAction {
    /// Look up this block, and report it to [`EpochManager::on_fixed_block`].
    LoadFixed(u64),
    /// Wait for notifications.
    Subscribe,
}

/// Why a block cannot be the fixed epoch.
#[derive(Debug)]
pub enum FixedEpochError {
    /// There is no header of this number.
    BlockNotFound(u64),
    /// There is no hash for this number.
    HashNotFound(u64),
    /// The execution environment cannot be set up.
    Env(String),
    /// The database failed.
    Provider(String),
}

/// What was found of the block that is to be the fixed epoch.
#[derive(Debug)]
pub struct FixedBlock {
    /// Whether there is a header, or how looking for it failed.
    pub header_found: Result<bool, String>,
    /// The hash, or how looking for it failed.
    pub hash: Result<Option<B256>, String>,
    /// How setting up the execution environment failed, if it did.
    pub env_error: Option<String>,
}

/// Why a notification left the epoch as it was.
#[derive(Clone, Copy, Debug, PartialEq, Eq, Structural)]
pub enum Skipped {
    /// The epoch is fixed.
    Frozen,
    /// The notification has no blocks.
    EmptyChain,
    /// The execution environment could not be set up.
    EnvFailed,
}

/// What a notification came to.
#[derive(Debug)]
pub enum EpochStep {
    Skipped(Skipped),
    /// The epoch to publish, and the gauges to set.
    Publish { epoch: EpochContext, gauges: Vec<Emission> },
}

pub const DIFF_ACCOUNTS: &'static str = "mev_epoch_diff_accounts_total";

pub const DIFF_STORAGE_SLOTS: &'static str = "mev_epoch_diff_storage_slots_total";

pub const CURRENT_BLOCK_NUMBER: &'static str = "mev_epoch_current_block_number";

/// A gauge without labels set to `value`.
pub open spec fn bare_gauge(metric: &'static str, value: u128) -> Emission {
    Emission { metric, labels: Labels::Bare, update: Update::Assign(value) }
}

/// The number of slots that `changes` speak of.
pub open spec fn slot_count(changes: Seq<AccountChange>) -> nat
    decreases changes.len(),
{
    if changes.len() == 0 {
        0
    } else {
        slot_count(changes.drop_last()) + changes.last().storage@.len()
    }
}

fn count_slots(chain: &Chain) -> (count: u128)
    ensures
        count == slot_count(chain.accounts@),
{
    let ghost changes = chain.accounts@;
    let mut count: u128 = 0;
    let mut i: usize = 0;
    while i < chain.accounts.len()
        invariant
            i <= chain.accounts.len(),
            changes == chain.accounts@,
            count == slot_count(changes.take(i as int)),
            count <= i * usize::MAX,
        decreases chain.accounts.len() - i,
    {
        let slots: usize = chain.accounts[i].storage.len();
        assert(changes.take(i + 1).drop_last() == changes.take(i as int));
        assert(i * usize::MAX + usize::MAX == (i + 1) * usize::MAX) by (nonlinear_arith);
        assert((i + 1) * usize::MAX <= u128::MAX) by (nonlinear_arith)
            requires
                i + 1 <= usize::MAX,
        ;
        count = count + slots as u128;
        i += 1;
    }
    assert(changes.take(changes.len() as int) == changes);
    count
}

/// The gauges that show what a commit changed.
pub open spec fn commit_gauges(chain: Chain, block_number: u64) -> Seq<Emission> {
    seq![
        bare_gauge(DIFF_ACCOUNTS, chain.accounts@.len() as u128),
        bare_gauge(DIFF_STORAGE_SLOTS, slot_count(chain.accounts@) as u128),
        bare_gauge(CURRENT_BLOCK_NUMBER, block_number as u128),
    ]
}

/// Decides which epoch is active.
#[derive(Clone, Copy, Debug)]
pub struct EpochManager {
    /// The active epoch.
    pub active: EpochContext,
    /// The block that the epoch was asked to be fixed at, if it was.
    pub debug_fixed_block: Option<u64>,
    /// Whether a new block drops only what it changed from the shared cache.
    pub diff_cache_enabled: bool,
    /// How many epochs there have been.
    pub epoch_counter: u64,
    /// Whether the epoch has been fixed.
    pub frozen: bool,
}

/// Whether a request for `block_id` may be answered at `active`. A fixed epoch
/// answers everything.
pub open spec fn request_matches(
    fixed: bool,
    active: EpochContext,
    block_id: Option<BlockId>,
) -> bool {
    fixed || match block_id {
        None => true,
        Some(BlockId::Hash(hash)) => hash == active.block_hash,
        Some(BlockId::Number(BlockNumberOrTag::Number(n))) => n == active.block_number,
        Some(BlockId::Number(BlockNumberOrTag::Latest)) => true,
        Some(BlockId::Number(BlockNumberOrTag::Pending)) => true,
        Some(BlockId::Number(_)) => false,
    }
}

/// How many blocks a request lies behind `active`, if it names a number. One that
/// lies ahead is zero behind.
pub open spec fn gap_behind(active: EpochContext, block_id: Option<BlockId>) -> Option<u64> {
    match block_id {
        Some(BlockId::Number(BlockNumberOrTag::Number(n))) => Some(
            if active.block_number >= n {
                (active.block_number - n) as u64
            } else {
                0
            },
        ),
        _ => None,
    }
}

/// A request for a number matches the epoch, unless that is fixed, exactly if it is
/// neither behind it nor ahead of it.
pub proof fn numbers_match_without_gap(active: EpochContext, n: u64)
    ensures
        ({
            let request = Some(BlockId::Number(BlockNumberOrTag::Number(n)));
            request_matches(false, active, request) <==> gap_behind(active, request) == Some(0u64)
                && n <= active.block_number
        }),
{
}

/// A fixed epoch answers every request.
pub proof fn fixed_epoch_matches_everything(active: EpochContext, block_id: Option<BlockId>)
    ensures
        request_matches(true, active, block_id),
{
}

/// What `found` comes to as the fixed epoch at `number`.
pub open spec fn fixed_epoch_is(
    number: u64,
    found: FixedBlock,
    result: Result<EpochContext, FixedEpochError>,
) -> bool {
    match (found.header_found, found.hash, found.env_error) {
        (Err(error), _, _) => result matches Err(FixedEpochError::Provider(e)) && e == error,
        (Ok(false), _, _) => result matches Err(FixedEpochError::BlockNotFound(n)) && n == number,
        (Ok(true), Err(error), _) => result matches Err(FixedEpochError::Provider(e)) && e == error,
        (Ok(true), Ok(None), _) => result matches Err(FixedEpochError::HashNotFound(n)) && n
            == number,
        (Ok(true), Ok(Some(_)), Some(error)) => result matches Err(FixedEpochError::Env(e)) && e
            == error,
        (Ok(true), Ok(Some(hash)), None) => result matches Ok(epoch) && epoch == (EpochContext {
            epoch_id: 1,
            block_number: number,
            block_hash: hash,
        }),
    }
}

impl EpochManager {
    /// Whether this is a manager with no epoch yet, set up as the environment says.
    pub open spec fn is_set_up(self, fixed_epoch: Option<&str>, diff_cache: Option<&str>) -> bool {
        &&& self.active.is_placeholder()
        &&& self.debug_fixed_block == match fixed_epoch {
            Some(text) => u64_in(text@),
            None => None,
        }
        &&& self.diff_cache_enabled == flag_in(diff_cache)
        &&& self.epoch_counter == 0
        &&& !self.frozen
    }

    /// A manager with no epoch yet, set up as the environment says:
    /// `MEV_DEBUG_FIXED_EPOCH` is a block to fix the epoch at, `MEV_DIFF_CACHE` is
    /// on unless it is `0`.
    pub fn new(fixed_epoch: Option<&str>, diff_cache: Option<&str>) -> (manager: Self)
        ensures
            manager.is_set_up(fixed_epoch, diff_cache),
    {
        EpochManager {
            active: EpochContext::placeholder(),
            debug_fixed_block: match fixed_epoch {
                Some(text) => parse_u64(text),
                None => None,
            },
            diff_cache_enabled: is_on(diff_cache),
            epoch_counter: 0,
            frozen: false,
        }
    }

    /// What to do first.
    pub open spec fn first_action(self) -> StartAction {
        match self.debug_fixed_block {
            Some(number) => StartAction::LoadFixed(number),
            None => StartAction::Subscribe,
        }
    }

    /// What to do first.
    pub fn start(&self) -> (action: StartAction)
        ensures
            action == self.first_action(),
    {
        match self.debug_fixed_block {
            Some(number) => StartAction::LoadFixed(number),
            None => StartAction::Subscribe,
        }
    }

    /// The fixed epoch at `number`, from what was found of that block.
    pub fn build_fixed_epoch(number: u64, found: FixedBlock) -> (result: Result<
        EpochContext,
        FixedEpochError,
    >)
        ensures
            fixed_epoch_is(number, found, result),
    {
        match found.header_found {
            Err(error) => Err(FixedEpochError::Provider(error)),
            Ok(false) => Err(FixedEpochError::BlockNotFound(number)),
            Ok(true) => match found.hash {
                Err(error) => Err(FixedEpochError::Provider(error)),
                Ok(None) => Err(FixedEpochError::HashNotFound(number)),
                Ok(Some(block_hash)) => match found.env_error {
                    Some(error) => Err(FixedEpochError::Env(error)),
                    None => Ok(EpochContext { epoch_id: 1, block_number: number, block_hash }),
                },
            },
        }
    }

    /// The manager once `result` has come of fixing the epoch.
    pub open spec fn fixed_at(self, result: Result<EpochContext, FixedEpochError>) -> Self {
        match result {
            Ok(epoch) => EpochManager { active: epoch, frozen: true, ..self },
            Err(_) => self,
        }
    }

    /// Fixes the epoch at the block `number`, for good. Where that block cannot be
    /// had, nothing changes, and notifications are to be waited for.
    pub fn on_fixed_block(&mut self, number: u64, found: FixedBlock) -> (result: Result<
        EpochContext,
        FixedEpochError,
    >)
        ensures
            fixed_epoch_is(number, found, result),
            *final(self) == old(self).fixed_at(result),
    {
        match Self::build_fixed_epoch(number, found) {
            Ok(epoch) => {
                self.active = epoch;
                self.frozen = true;
                Ok(epoch)
            },
            Err(error) => Err(error),
        }
    }

    /// Whether `step` is what `notification` comes to, and leads to `after` and
    /// `after_cache`.
    pub open spec fn takes_in(
        self,
        notification: CanonStateNotification,
        env_built: bool,
        cache: GlobalSharedCache,
        step: EpochStep,
        after: Self,
        after_cache: GlobalSharedCache,
    ) -> bool {
        match (step, notification.new_chain().tip) {
            (EpochStep::Skipped(reason), tip) => {
                &&& reason == if self.frozen {
                    Skipped::Frozen
                } else if tip is None {
                    Skipped::EmptyChain
                } else {
                    Skipped::EnvFailed
                }
                &&& self.frozen || tip is None || !env_built
                &&& after == self
                &&& after_cache == cache
            },
            (EpochStep::Publish { epoch, gauges }, Some(tip)) => {
                &&& !self.frozen && env_built
                &&& epoch == (EpochContext {
                    epoch_id: self.next_epoch_id(),
                    block_number: tip.number,
                    block_hash: tip.hash,
                })
                &&& after == (EpochManager {
                    active: epoch,
                    epoch_counter: self.next_epoch_id(),
                    ..self
                })
                &&& gauges@ =~= match notification {
                    CanonStateNotification::Commit { new } => commit_gauges(new, tip.number),
                    CanonStateNotification::Reorg { .. } => Seq::empty(),
                }
                &&& after_cache.accounts() == self.accounts_after(cache.accounts(), notification)
                &&& after_cache.storage() == self.storage_after(cache.storage(), notification)
                &&& after_cache.bytecodes() == cache.bytecodes()
                &&& after_cache.budgets() == cache.budgets()
                &&& cache.well_formed() ==> after_cache.same_limits(cache)
                &&& after_cache.keeps_bytecodes() == cache.keeps_bytecodes()
                &&& if self.diff_cache_enabled && notification is Commit {
                    &&& after_cache.same_lookups(cache)
                    &&& cache.keeps_accounts() && accounts_fit(
                        after_cache.accounts(),
                        cache.account_limit(),
                    ) ==> after_cache.keeps_accounts()
                    &&& cache.keeps_storage() && storage_fits(
                        after_cache.storage(),
                        cache.storage_limit(),
                    ) ==> after_cache.keeps_storage()
                } else {
                    &&& after_cache.started_anew(cache)
                    &&& after_cache.keeps_accounts()
                    &&& after_cache.keeps_storage()
                }
            },
            (EpochStep::Publish { .. }, None) => false,
        }
    }

    /// Takes in a change of the canonical chain. `env_built` tells whether the
    /// execution environment of the new tip could be set up. Unless the
    /// notification is skipped, the shared cache is brought up to date first, and
    /// the new tip becomes the active epoch after that.
    pub fn on_notification(
        &mut self,
        notification: &CanonStateNotification,
        env_built: bool,
        cache: &mut GlobalSharedCache,
    ) -> (step: EpochStep)
        ensures
            old(self).takes_in(
                *notification,
                env_built,
                *old(cache),
                step,
                *final(self),
                *final(cache),
            ),
    {
        if self.frozen {
            return EpochStep::Skipped(Skipped::Frozen);
        }
        let tip = match notification.committed().tip {
            Some(tip) => tip,
            None => {
                return EpochStep::Skipped(Skipped::EmptyChain);
            },
        };
        if !env_built {
            return EpochStep::Skipped(Skipped::EnvFailed);
        }
        self.epoch_counter = self.epoch_counter.saturating_add(1);
        let epoch = EpochContext {
            epoch_id: self.epoch_counter,
            block_number: tip.number,
            block_hash: tip.hash,
        };
        if self.diff_cache_enabled {
            cache.on_epoch_change_diff(notification);
            cache.pre_fill_diff(notification);
        } else {
            cache.on_epoch_change();
        }
        let mut gauges: Vec<Emission> = Vec::new();
        if let CanonStateNotification::Commit { new } = notification {
            gauges.push(gauge(DIFF_ACCOUNTS, new.accounts.len() as u128));
            gauges.push(gauge(DIFF_STORAGE_SLOTS, count_slots(new)));
            gauges.push(gauge(CURRENT_BLOCK_NUMBER, tip.number as u128));
        }
        self.active = epoch;
        EpochStep::Publish { epoch, gauges }
    }

    /// The id of the next epoch. It stays at the largest `u64` once it is there.
    pub open spec fn next_epoch_id(self) -> u64 {
        if self.epoch_counter < u64::MAX {
            (self.epoch_counter + 1) as u64
        } else {
            u64::MAX
        }
    }

    /// The account entries of the shared cache once `notification` is taken in.
    pub open spec fn accounts_after(
        self,
        entries: AccountEntries,
        notification: CanonStateNotification,
    ) -> AccountEntries {
        if self.diff_cache_enabled {
            prefilled_accounts(surviving_accounts(entries, notification), notification)
        } else {
            AccountEntries::empty()
        }
    }

    /// The storage entries of the shared cache once `notification` is taken in.
    pub open spec fn storage_after(
        self,
        entries: StorageEntries,
        notification: CanonStateNotification,
    ) -> StorageEntries {
        if self.diff_cache_enabled {
            prefilled_storage(surviving_storage(entries, notification), notification)
        } else {
            StorageEntries::empty()
        }
    }

    /// The active epoch.
    pub fn current(&self) -> (epoch: EpochContext)
        ensures
            epoch == self.active,
    {
        self.active
    }

    /// Whether a request for `block_id` may be answered at the active epoch.
    pub fn matches_active(&self, block_id: Option<BlockId>) -> (matches: bool)
        ensures
            matches == request_matches(self.debug_fixed_block is Some, self.active, block_id),
    {
        if self.debug_fixed_block.is_some() {
            return true;
        }
        match block_id {
            None => true,
            Some(BlockId::Number(number)) => match number {
                BlockNumberOrTag::Latest | BlockNumberOrTag::Pending => true,
                BlockNumberOrTag::Number(n) => n == self.active.block_number,
                _ => false,
            },
            Some(BlockId::Hash(hash)) => hash.same(&self.active.block_hash),
        }
    }

    /// How many blocks a request lies behind the active epoch, if it names a
    /// number. One block is what drains from the pipeline at every new block; more
    /// is a backlog.
    pub fn block_gap(&self, block_id: Option<BlockId>) -> (gap: Option<u64>)
        ensures
            gap == gap_behind(self.active, block_id),
    {
        match block_id {
            Some(BlockId::Number(BlockNumberOrTag::Number(n))) => Some(
                self.active.block_number.saturating_sub(n),
            ),
            _ => None,
        }
    }

    /// The number of the active epoch's block.
    pub fn active_block_number(&self) -> (number: u64)
        ensures
            number == self.active.block_number,
    {
        self.active.block_number
    }
}

/// Every new epoch has a higher id than all before it, until 64 bits are used up.
pub proof fn epoch_ids_rise(manager: EpochManager)
    ensures
        manager.epoch_counter <= manager.next_epoch_id(),
        manager.epoch_counter < u64::MAX ==> manager.epoch_counter < manager.next_epoch_id(),
{
}

/// Whether it drops all or only what changed, a manager that takes in a
/// notification turns a shared cache that holds for the state before it into one
/// that holds for the state after it. Where it drops only what changed, every cached
/// slot of a destroyed account has to be listed.
pub proof fn shared_cache_follows_chain(
    manager: EpochManager,
    accounts: AccountEntries,
    storage: StorageEntries,
    notification: CanonStateNotification,
    before: ChainState,
    after: ChainState,
)
    requires
        accounts_match(accounts, before),
        storage_matches(storage, before),
        describes(notification, before, after),
        manager.diff_cache_enabled ==> lists_what_it_destroys(notification, storage),
    ensures
        accounts_match(manager.accounts_after(accounts, notification), after),
        storage_matches(manager.storage_after(storage, notification), after),
{
    if manager.diff_cache_enabled {
        notification_keeps_entries_current(accounts, storage, notification, before, after);
    }
}

/// Unchanged state stays warm: what the shared cache had of it before a block, and the
/// block does not speak of, the next read finds, with the value that it had. `told` is the
/// cache once the manager has taken in the block, with its entries still within their
/// limits.
pub proof fn unchanged_state_stays_warm(
    manager: EpochManager,
    new: Chain,
    before: GlobalSharedCache,
    told: GlobalSharedCache,
    after_account: GlobalSharedCache,
    after_slot: GlobalSharedCache,
    address: Address,
    slot: U256,
    info: Result<Option<AccountInfo>, ProviderError>,
    value: Result<U256, ProviderError>,
)
    requires
        manager.diff_cache_enabled,
        told.accounts() == manager.accounts_after(
            before.accounts(),
            CanonStateNotification::Commit { new },
        ),
        told.storage() == manager.storage_after(
            before.storage(),
            CanonStateNotification::Commit { new },
        ),
        told.keeps_accounts(),
        told.keeps_storage(),
        after_account.answers_account(told, (SHARED_EPOCH, address), info),
        after_slot.answers_storage(told, (SHARED_EPOCH, address, slot), value),
    ensures
        !lists_account(new.accounts@, address) && before.accounts().contains_key(
            (SHARED_EPOCH, address),
        ) ==> info == Ok::<Option<AccountInfo>, ProviderError>(
            before.accounts()[(SHARED_EPOCH, address)],
        ),
        !lists_storage(new.accounts@, address, slot) && before.storage().contains_key(
            (SHARED_EPOCH, address, slot),
        ) ==> value == Ok::<U256, ProviderError>(before.storage()[(SHARED_EPOCH, address, slot)]),
{
    unlisted_entries_stay(before.accounts(), before.storage(), new.accounts@, address, slot);
}

/// The histogram `histogram` given `nanos`, and the gauge `latest` set to it.
pub open spec fn timed(histogram: &'static str, latest: &'static str, nanos: u128) -> Seq<
    Emission,
> {
    seq![
        Emission { metric: histogram, labels: Labels::Bare, update: Update::RecordNanos(nanos) },
        Emission { metric: latest, labels: Labels::Bare, update: Update::AssignNanos(nanos) },
    ]
}

fn push_timed(
    emissions: &mut Vec<Emission>,
    histogram: &'static str,
    latest: &'static str,
    nanos: u128,
)
    ensures
        final(emissions)@ == old(emissions)@ + timed(histogram, latest, nanos),
{
    emissions.push(
        Emission { metric: histogram, labels: Labels::Bare, update: Update::RecordNanos(nanos) },
    );
    emissions.push(
        Emission { metric: latest, labels: Labels::Bare, update: Update::AssignNanos(nanos) },
    );
    assert(emissions@ =~= old(emissions)@ + timed(histogram, latest, nanos));
}

pub const WARMUP_SECONDS: &'static str = "mev_epoch_warmup_duration_seconds";

pub const WARMUP_LATEST: &'static str = "mev_epoch_warmup_duration_latest_seconds";

pub const NET_ENGINE_SECONDS: &'static str = "mev_net_engine_delay_seconds";

pub const NET_ENGINE_LATEST: &'static str = "mev_net_engine_delay_latest_seconds";

pub const MANAGER_SECONDS: &'static str = "mev_epoch_manager_delay_seconds";

pub const MANAGER_LATEST: &'static str = "mev_epoch_manager_delay_latest_seconds";

pub const BLOCK_SECONDS: &'static str = "mev_epoch_block_delay_seconds";

pub const BLOCK_LATEST: &'static str = "mev_epoch_block_delay_latest_seconds";

/// What is reported of how long it took to bring the shared cache up to date.
pub open spec fn warmup(nanos: u128) -> Seq<Emission> {
    timed(WARMUP_SECONDS, WARMUP_LATEST, nanos)
}

/// That time is put into its histogram to the nanosecond, and shown as the latest.
pub proof fn warmups_are_timed(nanos: u128)
    ensures
        warmup(nanos) =~= seq![
            Emission {
                metric: "mev_epoch_warmup_duration_seconds",
                labels: Labels::Bare,
                update: Update::RecordNanos(nanos),
            },
            Emission {
                metric: "mev_epoch_warmup_duration_latest_seconds",
                labels: Labels::Bare,
                update: Update::AssignNanos(nanos),
            },
        ],
{
}

/// Reports how long it took to bring the shared cache up to date.
pub fn warmup_emissions(nanos: u128) -> (emissions: Vec<Emission>)
    ensures
        emissions@ == warmup(nanos),
{
    let mut emissions: Vec<Emission> = Vec::new();
    push_timed(&mut emissions, WARMUP_SECONDS, WARMUP_LATEST, nanos);
    assert(emissions@ =~= timed(WARMUP_SECONDS, WARMUP_LATEST, nanos));
    emissions
}

/// The nanoseconds from the time of a block, in seconds since 1970, to the time
/// `now_nanos`. A block from the future has no delay, and neither has one on a
/// machine whose clock stands before 1970.
pub open spec fn block_age(now_nanos: Option<u128>, timestamp: u64) -> int {
    match now_nanos {
        Some(now) if now >= timestamp * 1_000_000_000 => now - timestamp * 1_000_000_000,
        _ => 0,
    }
}

/// Two delays taken together, as far as 128 bits hold them.
pub open spec fn total_delay(net: u128, manager: u128) -> u128 {
    if net + manager <= u128::MAX {
        (net + manager) as u128
    } else {
        u128::MAX
    }
}

/// What is reported of how long a block took to become the active epoch.
pub open spec fn delays(
    notified_at_nanos: Option<u128>,
    timestamp: u64,
    manager_nanos: u128,
) -> Seq<Emission> {
    let net = block_age(notified_at_nanos, timestamp) as u128;
    timed(NET_ENGINE_SECONDS, NET_ENGINE_LATEST, net) + timed(
        MANAGER_SECONDS,
        MANAGER_LATEST,
        manager_nanos,
    ) + timed(BLOCK_SECONDS, BLOCK_LATEST, total_delay(net, manager_nanos))
}

/// Reports how long a block took to become the active epoch: from its time to its
/// notification, from there on, and altogether.
pub fn delay_emissions(
    notified_at_nanos: Option<u128>,
    timestamp: u64,
    manager_nanos: u128,
) -> (emissions: Vec<Emission>)
    ensures
        emissions@ == delays(notified_at_nanos, timestamp, manager_nanos),
{
    let block_nanos: u128 = timestamp as u128 * 1_000_000_000;
    let net: u128 = match notified_at_nanos {
        Some(now) if now >= block_nanos => now - block_nanos,
        _ => 0,
    };
    let mut emissions: Vec<Emission> = Vec::new();
    push_timed(&mut emissions, NET_ENGINE_SECONDS, NET_ENGINE_LATEST, net);
    push_timed(&mut emissions, MANAGER_SECONDS, MANAGER_LATEST, manager_nanos);
    push_timed(&mut emissions, BLOCK_SECONDS, BLOCK_LATEST, net.saturating_add(manager_nanos));
    assert(emissions@ =~= timed(NET_ENGINE_SECONDS, NET_ENGINE_LATEST, net) + timed(
        MANAGER_SECONDS,
        MANAGER_LATEST,
        manager_nanos,
    ) + timed(BLOCK_SECONDS, BLOCK_LATEST, total_delay(net, manager_nanos)));
    emissions
}

fn gauge(metric: &'static str, value: u128) -> (emission: Emission)
    ensures
        emission == bare_gauge(metric, value),
{
    Emission { metric, labels: Labels::Bare, update: Update::Assign(value) }
}

/// Without a fixed epoch, a request matches the active one if it names the number or the hash
/// of the active block, if it says `latest` or `pending`, or if it names no block; and not if
/// it names another number, another hash, or another tag.
pub proof fn requests_match_the_active_block(active: EpochContext, n: u64, hash: B256)
    ensures
        request_matches(false, active, None),
        request_matches(
            false,
            active,
            Some(BlockId::Number(BlockNumberOrTag::Number(n))),
        ) <==> n == active.block_number,
        request_matches(false, active, Some(BlockId::Hash(hash))) <==> hash == active.block_hash,
        request_matches(false, active, Some(BlockId::Number(BlockNumberOrTag::Latest))),
        request_matches(false, active, Some(BlockId::Number(BlockNumberOrTag::Pending))),
        !request_matches(false, active, Some(BlockId::Number(BlockNumberOrTag::Finalized))),
        !request_matches(false, active, Some(BlockId::Number(BlockNumberOrTag::Safe))),
        !request_matches(false, active, Some(BlockId::Number(BlockNumberOrTag::Earliest))),
{
}

/// The distance of a request is what is to be added to its number to come to the active
/// block, or zero where the number is not below that. Only a number has a distance.
pub proof fn gaps_are_distances(active: EpochContext, n: u64, block_id: Option<BlockId>)
    ensures
        ({
            let gap = gap_behind(active, Some(BlockId::Number(BlockNumberOrTag::Number(n))));
            &&& n <= active.block_number ==> (gap matches Some(gap) && n + gap
                == active.block_number)
            &&& n > active.block_number ==> gap == Some(0u64)
        }),
        gap_behind(active, block_id) is Some <==> (block_id matches Some(
            BlockId::Number(BlockNumberOrTag::Number(_)),
        )),
{
}

/// A block becomes the fixed epoch exactly where its header and its hash are there and the
/// execution environment can be set up. It is then the first epoch, with the number and the
/// hash of that block, for good. Else the first of these that failed is the error, and the
/// manager stays as it was.
pub proof fn fixed_epochs_need_the_whole_block(
    manager: EpochManager,
    number: u64,
    found: FixedBlock,
    result: Result<EpochContext, FixedEpochError>,
)
    requires
        fixed_epoch_is(number, found, result),
    ensures
        match result {
            Ok(epoch) => {
                &&& found.header_found == Ok::<bool, String>(true)
                &&& found.hash == Ok::<Option<B256>, String>(Some(epoch.block_hash))
                &&& found.env_error is None
                &&& epoch.block_number == number
                &&& epoch.epoch_id == 1
                &&& manager.fixed_at(result).frozen
                &&& manager.fixed_at(result).active == epoch
                &&& manager.fixed_at(result).debug_fixed_block == manager.debug_fixed_block
                &&& manager.fixed_at(result).diff_cache_enabled == manager.diff_cache_enabled
                &&& manager.fixed_at(result).epoch_counter == manager.epoch_counter
            },
            Err(error) => {
                &&& manager.fixed_at(result) == manager
                &&& found.header_found matches Err(message) ==> error == FixedEpochError::Provider(
                    message,
                )
                &&& found.header_found == Ok::<bool, String>(false) ==> error
                    == FixedEpochError::BlockNotFound(number)
                &&& found.header_found == Ok::<bool, String>(true) ==> match found.hash {
                    Err(message) => error == FixedEpochError::Provider(message),
                    Ok(None) => error == FixedEpochError::HashNotFound(number),
                    Ok(Some(_)) => found.env_error matches Some(message) && error
                        == FixedEpochError::Env(message),
                }
            },
        },
{
}

/// Where a block to fix the epoch at is set, it is looked up first; else notifications are
/// waited for. The cache drops only what changed, unless that is switched off by a `0`. A
/// new manager takes in notifications, and the first epoch that it publishes has the id one.
pub proof fn managers_start_as_set_up(
    manager: EpochManager,
    fixed_epoch: Option<&str>,
    diff_cache: Option<&str>,
)
    requires
        manager.is_set_up(fixed_epoch, diff_cache),
    ensures
        manager.first_action() == match fixed_epoch {
            Some(text) => match u64_in(text@) {
                Some(number) => StartAction::LoadFixed(number),
                None => StartAction::Subscribe,
            },
            None => StartAction::Subscribe,
        },
        manager.diff_cache_enabled <==> !(diff_cache matches Some(text) && text@.len() == 1
            && text@[0] == '0'),
        !manager.frozen,
        manager.next_epoch_id() == 1,
        manager.active.epoch_id == 0,
        manager.active.block_number == 0,
        forall|i: int| 0 <= i < 32 ==> #[trigger] manager.active.block_hash.0[i] == 0,
{
    if let Some(text) = diff_cache {
        switches_are_on_unless_zero(text);
    }
}

/// A notification with blocks is published, unless the epoch is fixed or the execution
/// environment of the new tip could not be set up. What is published is the new tip, under
/// an id that is one higher than the last, and is the active epoch from then on. Else
/// everything stays as it was, the cache included.
pub proof fn published_epochs_are_new_tips(
    manager: EpochManager,
    notification: CanonStateNotification,
    env_built: bool,
    cache: GlobalSharedCache,
    step: EpochStep,
    after: EpochManager,
    after_cache: GlobalSharedCache,
)
    requires
        manager.takes_in(notification, env_built, cache, step, after, after_cache),
    ensures
        ({
            let tip = match notification {
                CanonStateNotification::Commit { new } => new.tip,
                CanonStateNotification::Reorg { new } => new.tip,
            };
            &&& step is Publish <==> !manager.frozen && tip is Some && env_built
            &&& match step {
                EpochStep::Publish { epoch, gauges } => {
                    &&& epoch.block_number == tip->Some_0.number
                    &&& epoch.block_hash == tip->Some_0.hash
                    &&& manager.epoch_counter < u64::MAX ==> epoch.epoch_id
                        == manager.epoch_counter + 1
                    &&& manager.epoch_counter == u64::MAX ==> epoch.epoch_id == u64::MAX
                    &&& after.active == epoch
                    &&& after.epoch_counter == epoch.epoch_id
                    &&& after.debug_fixed_block == manager.debug_fixed_block
                    &&& after.diff_cache_enabled == manager.diff_cache_enabled
                    &&& after.frozen == manager.frozen
                    &&& notification is Reorg ==> gauges@.len() == 0
                },
                EpochStep::Skipped(reason) => {
                    &&& after == manager
                    &&& after_cache == cache
                    &&& manager.frozen ==> reason == Skipped::Frozen
                    &&& !manager.frozen && tip is None ==> reason == Skipped::EmptyChain
                    &&& !manager.frozen && tip is Some ==> reason == Skipped::EnvFailed
                },
            }
        }),
{
}

/// Once a notification has been published, the shared cache holds the accounts that the block
/// brought, in the namespace that follows the chain. Where diffs are switched off, and after
/// a reorganisation, it holds no account and no slot at all. Code stays in any case.
pub proof fn published_caches_hold_what_was_brought(
    manager: EpochManager,
    notification: CanonStateNotification,
    cache: GlobalSharedCache,
    epoch: EpochContext,
    gauges: Vec<Emission>,
    after: EpochManager,
    after_cache: GlobalSharedCache,
    i: int,
)
    requires
        manager.takes_in(
            notification,
            true,
            cache,
            EpochStep::Publish { epoch, gauges },
            after,
            after_cache,
        ),
    ensures
        after_cache.bytecodes() == cache.bytecodes(),
        !manager.diff_cache_enabled || notification is Reorg ==> after_cache.accounts().len() == 0
            && after_cache.storage().len() == 0,
        manager.diff_cache_enabled ==> (notification matches CanonStateNotification::Commit { new }
            ==> {
            let change = new.accounts@[i];
            let last = forall|k: int|
                i < k < new.accounts@.len() ==> (#[trigger] new.accounts@[k]).address
                    != change.address;
            0 <= i < new.accounts@.len() && last && !change.was_destroyed && change.info is Some
                ==> after_cache.accounts().contains_pair(
                (SHARED_EPOCH, change.address),
                change.info,
            )
        }),
{
    match notification {
        CanonStateNotification::Commit { new } => {
            let change = new.accounts@[i];
            if 0 <= i < new.accounts@.len() && !change.was_destroyed && change.info is Some && (
            forall|k: int|
                i < k < new.accounts@.len() ==> (#[trigger] new.accounts@[k]).address
                    != change.address) {
                brought_state_is_put_in(
                    surviving_accounts(cache.accounts(), notification),
                    surviving_storage(cache.storage(), notification),
                    new,
                    i,
                    0,
                );
            }
        },
        CanonStateNotification::Reorg { .. } => {},
    }
}

/// The slots that a block speaks of are counted one by one, account after account.
pub proof fn slots_are_counted_by_account(changes: Seq<AccountChange>, change: AccountChange)
    ensures
        slot_count(Seq::empty()) == 0,
        slot_count(changes.push(change)) == slot_count(changes) + change.storage@.len(),
{
    assert(changes.push(change).drop_last() =~= changes);
}

/// A commit is shown by the number of accounts that it changed, by the number of slots, and
/// by the number of its block, in this order.
pub proof fn commits_are_shown_by_their_size(chain: Chain, block_number: u64)
    ensures
        ({
            let gauges = commit_gauges(chain, block_number);
            let bare = |metric: &'static str, value: u128|
                Emission { metric, labels: Labels::Bare, update: Update::Assign(value) };
            &&& gauges.len() == 3
            &&& gauges[0] == bare("mev_epoch_diff_accounts_total", chain.accounts@.len() as u128)
            &&& gauges[1] == bare(
                "mev_epoch_diff_storage_slots_total",
                slot_count(chain.accounts@) as u128,
            )
            &&& gauges[2] == bare("mev_epoch_current_block_number", block_number as u128)
        }),
{
}

/// A block that is notified of at or after its time is as old as the time that has passed
/// since; one from the future has no age, and neither has one where the time is not known.
/// The whole delay is that age and the time that the manager took, as far as 128 bits hold
/// it. Each of the three is put into its histogram and shown as the latest.
pub proof fn delays_are_spans_of_time(now: u128, timestamp: u64, manager_nanos: u128)
    ensures
        now >= timestamp * 1_000_000_000 ==> timestamp * 1_000_000_000 + block_age(
            Some(now),
            timestamp,
        ) == now,
        now < timestamp * 1_000_000_000 ==> block_age(Some(now), timestamp) == 0,
        block_age(None, timestamp) == 0,
        ({
            let age = block_age(Some(now), timestamp);
            let reported = delays(Some(now), timestamp, manager_nanos);
            let whole = total_delay(age as u128, manager_nanos);
            &&& age + manager_nanos <= u128::MAX ==> whole == age + manager_nanos
            &&& age + manager_nanos > u128::MAX ==> whole == u128::MAX
            &&& reported.len() == 6
            &&& reported[0].update == Update::RecordNanos(age as u128)
            &&& reported[0].metric == "mev_net_engine_delay_seconds"
            &&& reported[1].update == Update::AssignNanos(age as u128)
            &&& reported[1].metric == "mev_net_engine_delay_latest_seconds"
            &&& reported[2].update == Update::RecordNanos(manager_nanos)
            &&& reported[2].metric == "mev_epoch_manager_delay_seconds"
            &&& reported[3].update == Update::AssignNanos(manager_nanos)
            &&& reported[3].metric == "mev_epoch_manager_delay_latest_seconds"
            &&& reported[4].update == Update::RecordNanos(whole)
            &&& reported[4].metric == "mev_epoch_block_delay_seconds"
            &&& reported[5].update == Update::AssignNanos(whole)
            &&& reported[5].metric == "mev_epoch_block_delay_latest_seconds"
            &&& forall|i: int| 0 <= i < 6 ==> (#[trigger] reported[i]).labels is Bare
        }),
{
}

} // verus!
