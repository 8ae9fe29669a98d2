//! What a chain notification does to cached state, as maps.
//!
//! The entries of one namespace follow the canonical chain from block to block.
//! Other namespaces belong to single epochs, and no notification touches them.

use vstd::prelude::*;
use crate::chain::{AccountChange, CanonStateNotification, Chain, SlotChange};
use crate::primitives::{AccountInfo, Address, B256, U256};
use super::store::{AccountEntries, StorageEntries};

verus! {

/// The namespace that follows the canonical chain.
pub const SHARED_EPOCH: u64 = 0;

/// Whether `changes` speak of the account at `address`.
pub open spec fn lists_account(changes: Seq<AccountChange>, address: Address) -> bool {
    exists|i: int| 0 <= i < changes.len() && (#[trigger] changes[i]).address == address
}

/// Whether `slots` speak of `slot`.
pub open spec fn lists_slot(slots: Seq<SlotChange>, slot: U256) -> bool {
    exists|i: int| 0 <= i < slots.len() && (#[trigger] slots[i]).slot == slot
}

/// Whether `changes` speak of `slot` of the account at `address`.
pub open spec fn lists_storage(changes: Seq<AccountChange>, address: Address, slot: U256) -> bool {
    exists|i: int|
        0 <= i < changes.len() && (#[trigger] changes[i]).address == address && lists_slot(
            changes[i].storage@,
            slot,
        )
}

/// `entries` without the accounts that `changes` speak of.
pub open spec fn without_accounts(
    entries: AccountEntries,
    changes: Seq<AccountChange>,
) -> AccountEntries {
    entries.restrict(
        Set::new(
            |key: (u64, Address)|
                entries.contains_key(key) && !(key.0 == SHARED_EPOCH && lists_account(
                    changes,
                    key.1,
                )),
        ),
    )
}

/// `entries` without the slots that `changes` speak of.
pub open spec fn without_storage(
    entries: StorageEntries,
    changes: Seq<AccountChange>,
) -> StorageEntries {
    entries.restrict(
        Set::new(
            |key: (u64, Address, U256)|
                entries.contains_key(key) && !(key.0 == SHARED_EPOCH && lists_storage(
                    changes,
                    key.1,
                    key.2,
                )),
        ),
    )
}

/// `entries` with the accounts put in that `changes` leave behind. One that was
/// destroyed, or does not exist, is left to be read anew.
pub open spec fn with_accounts(
    entries: AccountEntries,
    changes: Seq<AccountChange>,
) -> AccountEntries
    decreases changes.len(),
{
    if changes.len() == 0 {
        entries
    } else {
        let before = with_accounts(entries, changes.drop_last());
        let change = changes.last();
        match change.info {
            Some(info) if !change.was_destroyed => before.insert(
                (SHARED_EPOCH, change.address),
                Some(info),
            ),
            _ => before,
        }
    }
}

/// `entries` with the new values of `slots` of the account at `address` put in.
pub open spec fn with_slots(
    entries: StorageEntries,
    address: Address,
    slots: Seq<SlotChange>,
) -> StorageEntries
    decreases slots.len(),
{
    if slots.len() == 0 {
        entries
    } else {
        with_slots(entries, address, slots.drop_last()).insert(
            (SHARED_EPOCH, address, slots.last().slot),
            slots.last().present_value,
        )
    }
}

/// `entries` with the storage values put in that `changes` leave behind. Those of
/// an account that was destroyed are left to be read anew.
pub open spec fn with_storage(
    entries: StorageEntries,
    changes: Seq<AccountChange>,
) -> StorageEntries
    decreases changes.len(),
{
    if changes.len() == 0 {
        entries
    } else {
        let before = with_storage(entries, changes.drop_last());
        let change = changes.last();
        if change.was_destroyed {
            before
        } else {
            with_slots(before, change.address, change.storage@)
        }
    }
}

/// The account entries that survive `notification`.
pub open spec fn surviving_accounts(
    entries: AccountEntries,
    notification: CanonStateNotification,
) -> AccountEntries {
    match notification {
        CanonStateNotification::Commit { new } => without_accounts(entries, new.accounts@),
        CanonStateNotification::Reorg { .. } => AccountEntries::empty(),
    }
}

/// The storage entries that survive `notification`.
pub open spec fn surviving_storage(
    entries: StorageEntries,
    notification: CanonStateNotification,
) -> StorageEntries {
    match notification {
        CanonStateNotification::Commit { new } => without_storage(entries, new.accounts@),
        CanonStateNotification::Reorg { .. } => StorageEntries::empty(),
    }
}

/// `entries` with what `notification` brings in the way of accounts.
pub open spec fn prefilled_accounts(
    entries: AccountEntries,
    notification: CanonStateNotification,
) -> AccountEntries {
    match notification {
        CanonStateNotification::Commit { new } => with_accounts(entries, new.accounts@),
        CanonStateNotification::Reorg { .. } => entries,
    }
}

/// `entries` with what `notification` brings in the way of storage.
pub open spec fn prefilled_storage(
    entries: StorageEntries,
    notification: CanonStateNotification,
) -> StorageEntries {
    match notification {
        CanonStateNotification::Commit { new } => with_storage(entries, new.accounts@),
        CanonStateNotification::Reorg { .. } => entries,
    }
}

/// The state of the chain after some block: every account, every slot, and the code
/// behind every hash.
pub ghost struct ChainState {
    pub account: spec_fn(Address) -> Option<AccountInfo>,
    pub slot: spec_fn(Address, U256) -> U256,
    pub code: spec_fn(B256) -> Seq<u8>,
}

/// Whether every entry that follows the chain is what `state` holds.
pub open spec fn accounts_match(entries: AccountEntries, state: ChainState) -> bool {
    forall|address: Address| #[trigger]
        entries.contains_key((SHARED_EPOCH, address)) ==> entries[(SHARED_EPOCH, address)] == (
        state.account)(address)
}

/// Whether every slot entry that follows the chain is what `state` holds.
pub open spec fn storage_matches(entries: StorageEntries, state: ChainState) -> bool {
    forall|address: Address, slot: U256| #[trigger]
        entries.contains_key((SHARED_EPOCH, address, slot)) ==> entries[(
            SHARED_EPOCH,
            address,
            slot,
        )] == (state.slot)(address, slot)
}

/// Whether `changes` destroy the account at `address`.
pub open spec fn destroys(changes: Seq<AccountChange>, address: Address) -> bool {
    exists|i: int|
        0 <= i < changes.len() && (#[trigger] changes[i]).address == address
            && changes[i].was_destroyed
}

/// Whether `changes` are what leads from the state `before` to the state `after`:
/// what they do not speak of is as it was, and what they bring is as they say. A slot
/// of an account that they destroy may have changed without being listed.
pub open spec fn leads(
    changes: Seq<AccountChange>,
    before: ChainState,
    after: ChainState,
) -> bool {
    &&& forall|address: Address|
        !lists_account(changes, address) ==> #[trigger] (after.account)(address) == (
        before.account)(address)
    &&& forall|address: Address, slot: U256|
        !lists_storage(changes, address, slot) && !destroys(changes, address) ==> #[trigger] (
        after.slot)(address, slot) == (before.slot)(address, slot)
    &&& forall|i: int|
        0 <= i < changes.len() && !(#[trigger] changes[i]).was_destroyed
            && changes[i].info is Some ==> (after.account)(changes[i].address) == changes[i].info
    &&& forall|i: int, j: int|
        0 <= i < changes.len() && !changes[i].was_destroyed && 0 <= j < changes[i].storage@.len()
            ==> (after.slot)(changes[i].address, (#[trigger] changes[i].storage@[j]).slot)
            == changes[i].storage@[j].present_value
}

/// Whether `notification` leads from the state `before` to the state `after`. Of a
/// reorganisation nothing need be known.
pub open spec fn describes(
    notification: CanonStateNotification,
    before: ChainState,
    after: ChainState,
) -> bool {
    notification matches CanonStateNotification::Commit { new } ==> leads(
        new.accounts@,
        before,
        after,
    )
}

/// Whether `notification` lists every cached slot of the accounts that it destroys. Only
/// what is listed is dropped.
pub open spec fn lists_what_it_destroys(
    notification: CanonStateNotification,
    storage: StorageEntries,
) -> bool {
    notification matches CanonStateNotification::Commit { new } ==> forall|
        address: Address,
        slot: U256,
    | #[trigger]
        storage.contains_key((SHARED_EPOCH, address, slot)) && destroys(new.accounts@, address)
            ==> lists_storage(new.accounts@, address, slot)
}

proof fn with_accounts_match(
    entries: AccountEntries,
    changes: Seq<AccountChange>,
    state: ChainState,
)
    requires
        accounts_match(entries, state),
        forall|i: int|
            0 <= i < changes.len() && !(#[trigger] changes[i]).was_destroyed
                && changes[i].info is Some ==> (state.account)(changes[i].address)
                == changes[i].info,
    ensures
        accounts_match(with_accounts(entries, changes), state),
    decreases changes.len(),
{
    if changes.len() > 0 {
        let rest = changes.drop_last();
        assert forall|i: int|
            0 <= i < rest.len() && !(#[trigger] rest[i]).was_destroyed
                && rest[i].info is Some implies (state.account)(rest[i].address)
            == rest[i].info by {
            assert(rest[i] == changes[i]);
        }
        with_accounts_match(entries, rest, state);
        assert(changes.last() == changes[changes.len() - 1]);
    }
}

proof fn with_slots_match(
    entries: StorageEntries,
    address: Address,
    slots: Seq<SlotChange>,
    state: ChainState,
)
    requires
        storage_matches(entries, state),
        forall|j: int|
            0 <= j < slots.len() ==> (state.slot)(address, (#[trigger] slots[j]).slot)
                == slots[j].present_value,
    ensures
        storage_matches(with_slots(entries, address, slots), state),
    decreases slots.len(),
{
    if slots.len() > 0 {
        let rest = slots.drop_last();
        assert forall|j: int| 0 <= j < rest.len() implies (state.slot)(
            address,
            (#[trigger] rest[j]).slot,
        ) == rest[j].present_value by {
            assert(rest[j] == slots[j]);
        }
        with_slots_match(entries, address, rest, state);
        assert(slots.last() == slots[slots.len() - 1]);
    }
}

proof fn with_storage_matches(
    entries: StorageEntries,
    changes: Seq<AccountChange>,
    state: ChainState,
)
    requires
        storage_matches(entries, state),
        forall|i: int, j: int|
            0 <= i < changes.len() && !changes[i].was_destroyed && 0 <= j
                < changes[i].storage@.len() ==> (state.slot)(
                changes[i].address,
                (#[trigger] changes[i].storage@[j]).slot,
            ) == changes[i].storage@[j].present_value,
    ensures
        storage_matches(with_storage(entries, changes), state),
    decreases changes.len(),
{
    if changes.len() > 0 {
        let rest = changes.drop_last();
        assert forall|i: int, j: int|
            0 <= i < rest.len() && !rest[i].was_destroyed && 0 <= j
                < rest[i].storage@.len() implies (state.slot)(
            rest[i].address,
            (#[trigger] rest[i].storage@[j]).slot,
        ) == rest[i].storage@[j].present_value by {
            assert(rest[i] == changes[i]);
            assert(changes[i].storage@[j] == rest[i].storage@[j]);
        }
        with_storage_matches(entries, rest, state);
        let last = changes[changes.len() - 1];
        if !last.was_destroyed {
            assert forall|j: int| 0 <= j < last.storage@.len() implies (state.slot)(
                last.address,
                (#[trigger] last.storage@[j]).slot,
            ) == last.storage@[j].present_value by {
                assert(changes[changes.len() - 1].storage@[j] == last.storage@[j]);
            }
            with_slots_match(with_storage(entries, rest), last.address, last.storage@, state);
        }
    }
}

/// Dropping what a notification speaks of and then putting in what it brings
/// turns entries that hold for the state before it into entries that hold for the
/// state after it. Two things are taken for granted: that the entries hold for the
/// state before, so no worker that is still at an older block has put in what it read
/// there; and that every cached slot of a destroyed account is listed.
pub proof fn notification_keeps_entries_current(
    accounts: AccountEntries,
    storage: StorageEntries,
    notification: CanonStateNotification,
    before: ChainState,
    after: ChainState,
)
    requires
        accounts_match(accounts, before),
        storage_matches(storage, before),
        describes(notification, before, after),
        lists_what_it_destroys(notification, storage),
    ensures
        accounts_match(
            prefilled_accounts(surviving_accounts(accounts, notification), notification),
            after,
        ),
        storage_matches(
            prefilled_storage(surviving_storage(storage, notification), notification),
            after,
        ),
{
    match notification {
        CanonStateNotification::Commit { new } => {
            let changes = new.accounts@;
            assert(accounts_match(without_accounts(accounts, changes), after));
            with_accounts_match(without_accounts(accounts, changes), changes, after);
            assert(storage_matches(without_storage(storage, changes), after));
            with_storage_matches(without_storage(storage, changes), changes, after);
        },
        CanonStateNotification::Reorg { .. } => {},
    }
}

/// An entry of the namespace that follows the chain, and that a commit does not
/// speak of, stays as it was: unchanged state stays warm.
pub proof fn unlisted_entries_stay(
    accounts: AccountEntries,
    storage: StorageEntries,
    changes: Seq<AccountChange>,
    address: Address,
    slot: U256,
)
    ensures
        !lists_account(changes, address) && accounts.contains_key((SHARED_EPOCH, address))
            ==> with_accounts(without_accounts(accounts, changes), changes).contains_pair(
            (SHARED_EPOCH, address),
            accounts[(SHARED_EPOCH, address)],
        ),
        !lists_storage(changes, address, slot) && storage.contains_key(
            (SHARED_EPOCH, address, slot),
        ) ==> with_storage(without_storage(storage, changes), changes).contains_pair(
            (SHARED_EPOCH, address, slot),
            storage[(SHARED_EPOCH, address, slot)],
        ),
{
    if !lists_account(changes, address) {
        with_accounts_keeps(without_accounts(accounts, changes), changes, (SHARED_EPOCH, address));
    }
    if !lists_storage(changes, address, slot) {
        with_storage_keeps(
            without_storage(storage, changes),
            changes,
            (SHARED_EPOCH, address, slot),
        );
    }
}

/// An entry of another namespace stays as it was, whatever a notification brings.
pub proof fn other_namespaces_stay(
    accounts: AccountEntries,
    storage: StorageEntries,
    changes: Seq<AccountChange>,
    account_key: (u64, Address),
    storage_key: (u64, Address, U256),
)
    requires
        account_key.0 != SHARED_EPOCH,
        storage_key.0 != SHARED_EPOCH,
    ensures
        accounts.contains_key(account_key) ==> with_accounts(
            without_accounts(accounts, changes),
            changes,
        ).contains_pair(account_key, accounts[account_key]),
        storage.contains_key(storage_key) ==> with_storage(
            without_storage(storage, changes),
            changes,
        ).contains_pair(storage_key, storage[storage_key]),
{
    with_accounts_keeps(without_accounts(accounts, changes), changes, account_key);
    with_storage_keeps(without_storage(storage, changes), changes, storage_key);
}

proof fn with_accounts_keeps(
    entries: AccountEntries,
    changes: Seq<AccountChange>,
    key: (u64, Address),
)
    requires
        key.0 != SHARED_EPOCH || !lists_account(changes, key.1),
    ensures
        with_accounts(entries, changes).contains_key(key) == entries.contains_key(key),
        with_accounts(entries, changes)[key] == entries[key],
    decreases changes.len(),
{
    if changes.len() > 0 {
        let rest = changes.drop_last();
        if lists_account(rest, key.1) {
            let i = choose|i: int|
                0 <= i < rest.len() && (#[trigger] rest[i]).address == key.1;
            assert(changes[i].address == key.1);
        }
        with_accounts_keeps(entries, rest, key);
        assert(changes.last() == changes[changes.len() - 1]);
    }
}

proof fn with_slots_keeps(
    entries: StorageEntries,
    address: Address,
    slots: Seq<SlotChange>,
    key: (u64, Address, U256),
)
    requires
        key.0 != SHARED_EPOCH || key.1 != address || !lists_slot(slots, key.2),
    ensures
        with_slots(entries, address, slots).contains_key(key) == entries.contains_key(key),
        with_slots(entries, address, slots)[key] == entries[key],
    decreases slots.len(),
{
    if slots.len() > 0 {
        let rest = slots.drop_last();
        if lists_slot(rest, key.2) {
            let i = choose|i: int| 0 <= i < rest.len() && (#[trigger] rest[i]).slot == key.2;
            assert(slots[i].slot == key.2);
        }
        with_slots_keeps(entries, address, rest, key);
        assert(slots.last() == slots[slots.len() - 1]);
    }
}

proof fn with_storage_keeps(
    entries: StorageEntries,
    changes: Seq<AccountChange>,
    key: (u64, Address, U256),
)
    requires
        key.0 != SHARED_EPOCH || !lists_storage(changes, key.1, key.2),
    ensures
        with_storage(entries, changes).contains_key(key) == entries.contains_key(key),
        with_storage(entries, changes)[key] == entries[key],
    decreases changes.len(),
{
    if changes.len() > 0 {
        let rest = changes.drop_last();
        if lists_storage(rest, key.1, key.2) {
            let i = choose|i: int|
                0 <= i < rest.len() && (#[trigger] rest[i]).address == key.1 && lists_slot(
                    rest[i].storage@,
                    key.2,
                );
            assert(changes[i] == rest[i]);
            assert(lists_storage(changes, key.1, key.2));
        }
        with_storage_keeps(entries, rest, key);
        let last = changes[changes.len() - 1];
        if !last.was_destroyed {
            with_slots_keeps(with_storage(entries, rest), last.address, last.storage@, key);
        }
    }
}

pub(crate) proof fn with_accounts_grows(
    entries: AccountEntries,
    changes: Seq<AccountChange>,
    n: int,
)
    requires
        0 <= n <= changes.len(),
    ensures
        with_accounts(entries, changes.take(n)).dom().subset_of(
            with_accounts(entries, changes).dom(),
        ),
    decreases changes.len(),
{
    if n < changes.len() {
        let rest = changes.drop_last();
        with_accounts_grows(entries, rest, n);
        assert(rest.take(n) =~= changes.take(n));
    } else {
        assert(changes.take(n) =~= changes);
    }
}

pub(crate) proof fn with_slots_grows(
    entries: StorageEntries,
    address: Address,
    slots: Seq<SlotChange>,
    n: int,
)
    requires
        0 <= n <= slots.len(),
    ensures
        with_slots(entries, address, slots.take(n)).dom().subset_of(
            with_slots(entries, address, slots).dom(),
        ),
    decreases slots.len(),
{
    if n < slots.len() {
        let rest = slots.drop_last();
        with_slots_grows(entries, address, rest, n);
        assert(rest.take(n) =~= slots.take(n));
    } else {
        assert(slots.take(n) =~= slots);
    }
}

pub(crate) proof fn with_storage_grows(
    entries: StorageEntries,
    changes: Seq<AccountChange>,
    n: int,
)
    requires
        0 <= n <= changes.len(),
    ensures
        with_storage(entries, changes.take(n)).dom().subset_of(
            with_storage(entries, changes).dom(),
        ),
    decreases changes.len(),
{
    if n < changes.len() {
        let rest = changes.drop_last();
        with_storage_grows(entries, rest, n);
        assert(rest.take(n) =~= changes.take(n));
        let last = changes.last();
        let slots = last.storage@;
        with_slots_grows(with_storage(entries, rest), last.address, slots, 0);
        assert(slots.take(0).len() == 0);
    } else {
        assert(changes.take(n) =~= changes);
    }
}

proof fn with_accounts_brings(entries: AccountEntries, changes: Seq<AccountChange>, i: int)
    requires
        0 <= i < changes.len(),
        !changes[i].was_destroyed,
        changes[i].info is Some,
        forall|j: int| i < j < changes.len() ==> (#[trigger] changes[j]).address != changes[i].address,
    ensures
        with_accounts(entries, changes).contains_pair(
            (SHARED_EPOCH, changes[i].address),
            changes[i].info,
        ),
    decreases changes.len(),
{
    if i < changes.len() - 1 {
        let rest = changes.drop_last();
        assert forall|j: int| i < j < rest.len() implies (#[trigger] rest[j]).address
            != rest[i].address by {
            assert(rest[j] == changes[j]);
        }
        with_accounts_brings(entries, rest, i);
        assert(changes.last() == changes[changes.len() - 1]);
    } else {
        assert(changes.last() == changes[i]);
    }
}

proof fn with_slots_brings(
    entries: StorageEntries,
    address: Address,
    slots: Seq<SlotChange>,
    j: int,
)
    requires
        0 <= j < slots.len(),
        forall|k: int| j < k < slots.len() ==> (#[trigger] slots[k]).slot != slots[j].slot,
    ensures
        with_slots(entries, address, slots).contains_pair(
            (SHARED_EPOCH, address, slots[j].slot),
            slots[j].present_value,
        ),
    decreases slots.len(),
{
    if j < slots.len() - 1 {
        let rest = slots.drop_last();
        assert forall|k: int| j < k < rest.len() implies (#[trigger] rest[k]).slot
            != rest[j].slot by {
            assert(rest[k] == slots[k]);
        }
        with_slots_brings(entries, address, rest, j);
        assert(slots.last() == slots[slots.len() - 1]);
    }
}

proof fn with_storage_brings(
    entries: StorageEntries,
    changes: Seq<AccountChange>,
    i: int,
    j: int,
)
    requires
        0 <= i < changes.len(),
        0 <= j < changes[i].storage@.len(),
        !changes[i].was_destroyed,
        forall|k: int| i < k < changes.len() ==> (#[trigger] changes[k]).address != changes[i].address,
        forall|k: int|
            j < k < changes[i].storage@.len() ==> (#[trigger] changes[i].storage@[k]).slot
                != changes[i].storage@[j].slot,
    ensures
        with_storage(entries, changes).contains_pair(
            (SHARED_EPOCH, changes[i].address, changes[i].storage@[j].slot),
            changes[i].storage@[j].present_value,
        ),
    decreases changes.len(),
{
    let rest = changes.drop_last();
    if i < changes.len() - 1 {
        assert forall|k: int| i < k < rest.len() implies (#[trigger] rest[k]).address
            != rest[i].address by {
            assert(rest[k] == changes[k]);
        }
        assert(rest[i] == changes[i]);
        with_storage_brings(entries, rest, i, j);
        let last = changes[changes.len() - 1];
        if !last.was_destroyed {
            with_slots_keeps(
                with_storage(entries, rest),
                last.address,
                last.storage@,
                (SHARED_EPOCH, changes[i].address, changes[i].storage@[j].slot),
            );
        }
    } else {
        with_slots_brings(
            with_storage(entries, rest),
            changes[i].address,
            changes[i].storage@,
            j,
        );
    }
}

/// What a block brings is put in: an account that it leaves behind and has not destroyed,
/// with what it holds now, and every slot of such an account that it wrote, with the value
/// that it has now, whatever the cache held before. Where the block speaks of an account or
/// of a slot more than once, the last word counts.
pub proof fn brought_state_is_put_in(
    accounts: AccountEntries,
    storage: StorageEntries,
    new: Chain,
    i: int,
    j: int,
)
    requires
        0 <= i < new.accounts@.len(),
        !new.accounts@[i].was_destroyed,
        forall|k: int|
            i < k < new.accounts@.len() ==> (#[trigger] new.accounts@[k]).address
                != new.accounts@[i].address,
    ensures
        new.accounts@[i].info is Some ==> prefilled_accounts(
            accounts,
            CanonStateNotification::Commit { new },
        ).contains_pair((SHARED_EPOCH, new.accounts@[i].address), new.accounts@[i].info),
        0 <= j < new.accounts@[i].storage@.len() && (forall|k: int|
            j < k < new.accounts@[i].storage@.len() ==> (
            #[trigger] new.accounts@[i].storage@[k]).slot != new.accounts@[i].storage@[j].slot)
            ==> prefilled_storage(storage, CanonStateNotification::Commit { new }).contains_pair(
            (SHARED_EPOCH, new.accounts@[i].address, new.accounts@[i].storage@[j].slot),
            new.accounts@[i].storage@[j].present_value,
        ),
{
    if new.accounts@[i].info is Some {
        with_accounts_brings(accounts, new.accounts@, i);
    }
    if 0 <= j < new.accounts@[i].storage@.len() && (forall|k: int|
        j < k < new.accounts@[i].storage@.len() ==> (#[trigger] new.accounts@[i].storage@[k]).slot
            != new.accounts@[i].storage@[j].slot) {
        with_storage_brings(storage, new.accounts@, i, j);
    }
}

/// What a block speaks of is dropped from the namespace that follows the chain, before
/// anything is put in: each account that it lists, and each slot. A reorganisation drops
/// every account and every slot of all namespaces, and puts nothing in.
pub proof fn stale_state_is_dropped(
    accounts: AccountEntries,
    storage: StorageEntries,
    new: Chain,
    i: int,
    j: int,
    account_key: (u64, Address),
    storage_key: (u64, Address, U256),
)
    ensures
        0 <= i < new.accounts@.len() ==> !surviving_accounts(
            accounts,
            CanonStateNotification::Commit { new },
        ).contains_key((SHARED_EPOCH, new.accounts@[i].address)),
        0 <= i < new.accounts@.len() && 0 <= j < new.accounts@[i].storage@.len()
            ==> !surviving_storage(storage, CanonStateNotification::Commit { new }).contains_key(
            (SHARED_EPOCH, new.accounts@[i].address, new.accounts@[i].storage@[j].slot),
        ),
        !prefilled_accounts(
            surviving_accounts(accounts, CanonStateNotification::Reorg { new }),
            CanonStateNotification::Reorg { new },
        ).contains_key(account_key),
        !prefilled_storage(
            surviving_storage(storage, CanonStateNotification::Reorg { new }),
            CanonStateNotification::Reorg { new },
        ).contains_key(storage_key),
{
    if 0 <= i < new.accounts@.len() {
        assert(lists_account(new.accounts@, new.accounts@[i].address));
        if 0 <= j < new.accounts@[i].storage@.len() {
            let slot = new.accounts@[i].storage@[j].slot;
            assert(lists_slot(new.accounts@[i].storage@, slot));
            assert(lists_storage(new.accounts@, new.accounts@[i].address, slot));
        }
    }
}

proof fn with_accounts_source(
    entries: AccountEntries,
    changes: Seq<AccountChange>,
    key: (u64, Address),
) -> (i: int)
    requires
        with_accounts(entries, changes).contains_key(key),
        !entries.contains_key(key),
    ensures
        0 <= i < changes.len(),
        key == (SHARED_EPOCH, changes[i].address),
        !changes[i].was_destroyed,
        changes[i].info is Some,
    decreases changes.len(),
{
    let rest = changes.drop_last();
    if with_accounts(entries, rest).contains_key(key) {
        let i = with_accounts_source(entries, rest, key);
        assert(rest[i] == changes[i]);
        i
    } else {
        changes.len() - 1
    }
}

proof fn with_slots_source(
    entries: StorageEntries,
    address: Address,
    slots: Seq<SlotChange>,
    key: (u64, Address, U256),
)
    requires
        with_slots(entries, address, slots).contains_key(key),
        !entries.contains_key(key),
    ensures
        key.0 == SHARED_EPOCH,
        key.1 == address,
        lists_slot(slots, key.2),
    decreases slots.len(),
{
    let rest = slots.drop_last();
    if with_slots(entries, address, rest).contains_key(key) {
        with_slots_source(entries, address, rest, key);
        let j = choose|j: int| 0 <= j < rest.len() && (#[trigger] rest[j]).slot == key.2;
        assert(slots[j].slot == key.2);
    } else {
        assert(slots[slots.len() - 1].slot == key.2);
    }
}

proof fn with_storage_source(
    entries: StorageEntries,
    changes: Seq<AccountChange>,
    key: (u64, Address, U256),
) -> (i: int)
    requires
        with_storage(entries, changes).contains_key(key),
        !entries.contains_key(key),
    ensures
        0 <= i < changes.len(),
        key.0 == SHARED_EPOCH,
        key.1 == changes[i].address,
        lists_slot(changes[i].storage@, key.2),
        !changes[i].was_destroyed,
    decreases changes.len(),
{
    let rest = changes.drop_last();
    let last = changes[changes.len() - 1];
    if with_storage(entries, rest).contains_key(key) {
        let i = with_storage_source(entries, rest, key);
        assert(rest[i] == changes[i]);
        i
    } else {
        with_slots_source(with_storage(entries, rest), last.address, last.storage@, key);
        changes.len() - 1
    }
}

/// Once a block has been taken in, an account that it lists only as destroyed or as absent
/// has no entry in the namespace that follows the chain, and neither has a slot that it lists
/// only for destroyed accounts: both are left to be read anew.
pub proof fn destroyed_state_stays_out(
    accounts: AccountEntries,
    storage: StorageEntries,
    new: Chain,
    address: Address,
    slot: U256,
)
    ensures
        ({
            let commit = CanonStateNotification::Commit { new };
            &&& lists_account(new.accounts@, address) && (forall|i: int|
                0 <= i < new.accounts@.len() && (#[trigger] new.accounts@[i]).address == address
                    ==> new.accounts@[i].was_destroyed || new.accounts@[i].info is None)
                ==> !prefilled_accounts(surviving_accounts(accounts, commit), commit).contains_key(
                (SHARED_EPOCH, address),
            )
            &&& lists_storage(new.accounts@, address, slot) && (forall|i: int|
                0 <= i < new.accounts@.len() && (#[trigger] new.accounts@[i]).address == address
                    ==> new.accounts@[i].was_destroyed) ==> !prefilled_storage(
                surviving_storage(storage, commit),
                commit,
            ).contains_key((SHARED_EPOCH, address, slot))
        }),
{
    let changes = new.accounts@;
    let account_key = (SHARED_EPOCH, address);
    let storage_key = (SHARED_EPOCH, address, slot);
    let survived = without_accounts(accounts, changes);
    let slots_survived = without_storage(storage, changes);
    if lists_account(changes, address) && with_accounts(survived, changes).contains_key(
        account_key,
    ) {
        let i = with_accounts_source(survived, changes, account_key);
        assert(changes[i].address == address);
    }
    if lists_storage(changes, address, slot) && with_storage(
        slots_survived,
        changes,
    ).contains_key(storage_key) {
        let i = with_storage_source(slots_survived, changes, storage_key);
        assert(changes[i].address == address);
    }
}

} // verus!
