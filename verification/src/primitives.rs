//! Plain chain values: addresses, hashes, words, accounts and code.

use vstd::prelude::*;

verus! {

/// A 20-byte account address.
#[derive(Clone, Copy, Debug, PartialEq, Eq, Hash)]
pub struct Address(pub [u8; 20]);

/// A 32-byte hash or identifier.
#[derive(Clone, Copy, Debug, PartialEq, Eq, Hash)]
pub struct B256(pub [u8; 32]);

/// A 256-bit word, held as its big-endian bytes.
#[derive(Clone, Copy, Debug, PartialEq, Eq, Hash)]
pub struct U256(pub [u8; 32]);

/// Whether two byte arrays hold the same bytes.
fn bytes_eq<const N: usize>(a: &[u8; N], b: &[u8; N]) -> (same: bool)
    ensures
        same == (a == b),
{
    let mut i: usize = 0;
    while i < N
        invariant
            i <= N,
            forall|j: int| 0 <= j < i ==> a[j] == b[j],
        decreases N - i,
    {
        if a[i] != b[i] {
            return false;
        }
        i += 1;
    }
    assert(*a =~= *b);
    true
}

impl Address {
    /// Whether this is the same address as `other`.
    pub fn same(&self, other: &Self) -> (same: bool)
        ensures
            same == (*self == *other),
    {
        bytes_eq(&self.0, &other.0)
    }
}

impl B256 {
    /// Whether this is the same hash as `other`.
    pub fn same(&self, other: &Self) -> (same: bool)
        ensures
            same == (*self == *other),
    {
        bytes_eq(&self.0, &other.0)
    }
}

impl U256 {
    /// Whether this is the same word as `other`.
    pub fn same(&self, other: &Self) -> (same: bool)
        ensures
            same == (*self == *other),
    {
        bytes_eq(&self.0, &other.0)
    }
}

impl From<[u8; 20]> for Address {
    fn from(bytes: [u8; 20]) -> (address: Self) {
        Address(bytes)
    }
}

impl vstd::std_specs::convert::FromSpecImpl<[u8; 20]> for Address {
    open spec fn obeys_from_spec() -> bool {
        true
    }

    open spec fn from_spec(bytes: [u8; 20]) -> Self {
        Address(bytes)
    }
}

impl From<[u8; 32]> for B256 {
    fn from(bytes: [u8; 32]) -> (hash: Self) {
        B256(bytes)
    }
}

impl vstd::std_specs::convert::FromSpecImpl<[u8; 32]> for B256 {
    open spec fn obeys_from_spec() -> bool {
        true
    }

    open spec fn from_spec(bytes: [u8; 32]) -> Self {
        B256(bytes)
    }
}

impl From<U256> for B256 {
    fn from(word: U256) -> (hash: Self) {
        B256(word.0)
    }
}

impl vstd::std_specs::convert::FromSpecImpl<U256> for B256 {
    open spec fn obeys_from_spec() -> bool {
        true
    }

    open spec fn from_spec(word: U256) -> Self {
        B256(word.0)
    }
}

/// The hash of empty code.
pub const KECCAK_EMPTY: [u8; 32] = [
    0xc5, 0xd2, 0x46, 0x01, 0x86, 0xf7, 0x23, 0x3c, 0x92, 0x7e, 0x7d, 0xb2, 0xdc, 0xc7, 0x03, 0xc0,
    0xe5, 0x00, 0xb6, 0x53, 0xca, 0x82, 0x27, 0x3b, 0x7b, 0xfa, 0xd8, 0x04, 0x5d, 0x85, 0xa4, 0x70,
];

/// What the state holds of an account: its nonce, its balance and the hash of
/// its code. The code itself is looked up by that hash.
#[derive(Clone, Copy, Debug)]
pub struct AccountInfo {
    pub nonce: u64,
    pub balance: U256,
    pub code_hash: B256,
}

impl Default for AccountInfo {
    /// An account with nothing: no transactions, no balance, no code.
    fn default() -> (info: Self)
        ensures
            info.nonce == 0,
            forall|i: int| 0 <= i < 32 ==> info.balance.0[i] == 0,
            info.code_hash.0 == KECCAK_EMPTY,
    {
        AccountInfo { nonce: 0, balance: U256([0; 32]), code_hash: B256(KECCAK_EMPTY) }
    }
}

/// Contract code. Its view is its bytes.
#[derive(Debug)]
pub struct Bytecode {
    bytes: Vec<u8>,
}

impl View for Bytecode {
    type V = Seq<u8>;

    closed spec fn view(&self) -> Seq<u8> {
        self.bytes@
    }
}

impl Bytecode {
    /// The code with the given bytes.
    pub fn new_raw(bytes: Vec<u8>) -> (code: Self)
        ensures
            code@ == bytes@,
    {
        Bytecode { bytes }
    }

    /// The number of bytes.
    pub fn len(&self) -> (len: usize)
        ensures
            len == self@.len(),
    {
        self.bytes.len()
    }

    /// The bytes themselves.
    pub fn bytes(&self) -> (bytes: &Vec<u8>)
        ensures
            bytes@ == self@,
    {
        &self.bytes
    }
}

impl Clone for Bytecode {
    fn clone(&self) -> (code: Self)
        ensures
            code@ == self@,
    {
        let bytes = self.bytes.clone();
        assert(bytes@ =~= self.bytes@);
        Bytecode { bytes }
    }
}

/// A failure of the state database, with its message.
#[derive(Debug)]
pub struct ProviderError {
    pub message: String,
}

impl Clone for ProviderError {
    fn clone(&self) -> (error: Self)
        ensures
            error == *self,
    {
        ProviderError { message: self.message.clone() }
    }
}

} // verus!
