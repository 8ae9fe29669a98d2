//! What an entry of the shared cache weighs, and how the memory budget is
//! divided among the three kinds of entry.

use vstd::prelude::*;
use crate::primitives::{AccountInfo, Bytecode, B256, U256};
use super::store::{AccountEntries, BytecodeEntries, StorageEntries};

verus! {

/// What an account entry weighs: about 28 bytes of key, 80 of value and 100 of overhead.
pub const ACCOUNT_WEIGHT: u32 = 200;

/// What a storage entry weighs: about 60 bytes of key, 32 of value and 100 of overhead.
pub const STORAGE_WEIGHT: u32 = 192;

/// What a code entry weighs besides the code: 32 bytes of key and 100 of overhead.
pub const CODE_OVERHEAD: u32 = 132;

/// The weight of an account entry.
pub fn account_weigher(_key: &(u64, [u8; 20]), _info: &Option<AccountInfo>) -> (weight: u32)
    ensures
        weight == ACCOUNT_WEIGHT,
{
    ACCOUNT_WEIGHT
}

/// The weight of a storage entry.
pub fn storage_weigher(_key: &(u64, [u8; 20], [u8; 32]), _value: &U256) -> (weight: u32)
    ensures
        weight == STORAGE_WEIGHT,
{
    STORAGE_WEIGHT
}

/// The weight of an entry of `len` bytes of code, as far as 32 bits hold it.
pub open spec fn code_entry_weight(len: nat) -> int {
    if CODE_OVERHEAD + len <= u32::MAX {
        CODE_OVERHEAD + len
    } else {
        u32::MAX as int
    }
}

/// The weight of a code entry.
pub fn bytecode_weigher(_key: &[u8; 32], code: &Bytecode) -> (weight: u32)
    ensures
        weight == code_entry_weight(code@.len()),
{
    let len = code.len();
    if len <= (u32::MAX - CODE_OVERHEAD) as usize {
        len as u32 + CODE_OVERHEAD
    } else {
        u32::MAX
    }
}

/// Whether account entries are within `limit` altogether.
pub open spec fn accounts_fit(entries: AccountEntries, limit: u64) -> bool {
    entries.dom().finite() && ACCOUNT_WEIGHT * entries.len() <= limit
}

/// Whether storage entries are within `limit` altogether.
pub open spec fn storage_fits(entries: StorageEntries, limit: u64) -> bool {
    entries.dom().finite() && STORAGE_WEIGHT * entries.len() <= limit
}

pub(crate) proof fn fewer_accounts_fit(fewer: AccountEntries, more: AccountEntries, limit: u64)
    requires
        fewer.dom().subset_of(more.dom()),
        accounts_fit(more, limit),
    ensures
        accounts_fit(fewer, limit),
{
    vstd::set_lib::lemma_len_subset(fewer.dom(), more.dom());
}

pub(crate) proof fn fewer_slots_fit(fewer: StorageEntries, more: StorageEntries, limit: u64)
    requires
        fewer.dom().subset_of(more.dom()),
        storage_fits(more, limit),
    ensures
        storage_fits(fewer, limit),
{
    vstd::set_lib::lemma_len_subset(fewer.dom(), more.dom());
}

/// What code entries weigh altogether.
pub open spec fn code_weight(entries: BytecodeEntries) -> int
    decreases entries.len(),
    when entries.dom().finite()
{
    if entries.len() == 0 {
        0
    } else {
        let hash = entries.dom().choose();
        code_entry_weight(entries[hash].len()) + code_weight(entries.remove(hash))
    }
}

/// Whether code entries are within `limit` altogether.
pub open spec fn code_fits(entries: BytecodeEntries, limit: u64) -> bool {
    entries.dom().finite() && code_weight(entries) <= limit
}

proof fn code_weight_without(entries: BytecodeEntries, hash: B256)
    requires
        entries.dom().finite(),
        entries.contains_key(hash),
    ensures
        code_weight(entries) == code_entry_weight(entries[hash].len()) + code_weight(
            entries.remove(hash),
        ),
    decreases entries.len(),
{
    let first = entries.dom().choose();
    if first != hash {
        let rest = entries.remove(first);
        code_weight_without(rest, hash);
        code_weight_without(entries.remove(hash), first);
        assert(rest.remove(hash) =~= entries.remove(hash).remove(first));
    }
}

/// Code that is put in under a new hash adds its own weight to what is there.
pub proof fn new_code_adds_its_weight(entries: BytecodeEntries, hash: B256, code: Seq<u8>)
    requires
        entries.dom().finite(),
        !entries.contains_key(hash),
    ensures
        code_weight(entries.insert(hash, code)) == code_weight(entries) + code_entry_weight(
            code.len(),
        ),
{
    let more = entries.insert(hash, code);
    code_weight_without(more, hash);
    assert(more.remove(hash) =~= entries);
}

/// `a * b`, or the largest `u64` where that is larger.
fn saturating_mul(a: u64, b: u64) -> (product: u64)
    ensures
        product == saturated(a * b),
{
    match a.checked_mul(b) {
        Some(product) => product,
        None => u64::MAX,
    }
}

/// `n`, or the largest `u64` where that is smaller.
pub open spec fn saturated(n: int) -> int {
    if n <= u64::MAX {
        n
    } else {
        u64::MAX as int
    }
}

/// The bytes that `max_mb` megabytes come to.
pub open spec fn total_bytes(max_mb: int) -> int {
    saturated(max_mb * 1_048_576)
}

/// The bytes for storage entries: 70% of the total.
pub open spec fn storage_budget(max_mb: int) -> int {
    saturated(total_bytes(max_mb) * 70) / 100
}

/// The bytes for account entries: 25% of the total.
pub open spec fn account_budget(max_mb: int) -> int {
    saturated(total_bytes(max_mb) * 25) / 100
}

/// The bytes for code entries: what the other two leave.
pub open spec fn bytecode_budget(max_mb: int) -> int {
    total_bytes(max_mb) - storage_budget(max_mb) - account_budget(max_mb)
}

/// How many bytes each kind of entry may take.
#[derive(Clone, Copy, Debug)]
pub struct Budgets {
    pub storage: u64,
    pub accounts: u64,
    pub bytecodes: u64,
}

/// Divides `max_mb` megabytes among the three kinds of entry.
pub fn divide_budget(max_mb: u64) -> (budgets: Budgets)
    ensures
        budgets.storage == storage_budget(max_mb as int),
        budgets.accounts == account_budget(max_mb as int),
        budgets.bytecodes == bytecode_budget(max_mb as int),
{
    let kilobytes: u64 = saturating_mul(max_mb, 1024);
    let total: u64 = saturating_mul(kilobytes, 1024);
    let storage: u64 = saturating_mul(total, 70) / 100;
    let accounts: u64 = saturating_mul(total, 25) / 100;
    let bytecodes: u64 = total.saturating_sub(storage + accounts);
    Budgets { storage, accounts, bytecodes }
}

/// The three budgets add up to the whole, whatever its size: no megabyte is
/// handed out twice and none is lost.
pub proof fn budgets_add_up(max_mb: nat)
    ensures
        storage_budget(max_mb as int) + account_budget(max_mb as int) + bytecode_budget(
            max_mb as int,
        ) == total_bytes(max_mb as int),
        0 <= storage_budget(max_mb as int),
        0 <= account_budget(max_mb as int),
        0 <= bytecode_budget(max_mb as int),
{
}

/// Storage entries get seven parts in ten of the memory and account entries one in four,
/// each rounded down to a byte, and code entries what is left. Where 64 bits do not hold the
/// bytes, or a product on the way, the largest number that they hold stands for it.
pub proof fn budgets_are_seventy_and_twenty_five_percent(max_mb: nat)
    ensures
        ({
            let storage = storage_budget(max_mb as int);
            let accounts = account_budget(max_mb as int);
            let bytes: int = if max_mb * 1_048_576 <= 0xffff_ffff_ffff_ffff {
                (max_mb * 1_048_576) as int
            } else {
                0xffff_ffff_ffff_ffff
            };
            &&& bytes * 70 <= 0xffff_ffff_ffff_ffff ==> storage * 100 <= bytes * 70 < (storage + 1)
                * 100
            &&& bytes * 70 > 0xffff_ffff_ffff_ffff ==> storage * 100 <= 0xffff_ffff_ffff_ffff < (
            storage + 1) * 100
            &&& bytes * 25 <= 0xffff_ffff_ffff_ffff ==> accounts * 100 <= bytes * 25 < (accounts
                + 1) * 100
            &&& bytes * 25 > 0xffff_ffff_ffff_ffff ==> accounts * 100 <= 0xffff_ffff_ffff_ffff < (
            accounts + 1) * 100
            &&& storage + accounts + bytecode_budget(max_mb as int) == bytes
        }),
{
}

/// More memory is never less for storage entries or for account entries.
pub proof fn budgets_do_not_fall(less: nat, more: nat)
    requires
        less <= more,
    ensures
        storage_budget(less as int) <= storage_budget(more as int),
        account_budget(less as int) <= account_budget(more as int),
        total_bytes(less as int) <= total_bytes(more as int),
        total_bytes(more as int) <= u64::MAX,
{
}

/// A piece of code weighs its bytes and 132 more, as far as 32 bits hold that; an account
/// weighs 200, and a storage value 192.
pub proof fn entries_weigh_by_their_kind(len: nat)
    ensures
        len + 132 <= 0xffff_ffff ==> code_entry_weight(len) == len + 132,
        len + 132 > 0xffff_ffff ==> code_entry_weight(len) == 0xffff_ffff,
        ACCOUNT_WEIGHT == 200,
        STORAGE_WEIGHT == 192,
{
}

} // verus!
