//! Addresses as text, and the hash behind it.

use vstd::prelude::*;
use crate::primitives::{Address, B256};
use crate::text::{hex_char, hex_digits, hex_text, nibble};

verus! {

/// The Keccak-256 hash of `bytes`.
pub uninterp spec fn keccak(bytes: Seq<u8>) -> Seq<u8>;

/// `alloy_primitives::keccak256`: the hash, and nothing but the hash.
#[verifier::external_body]
pub(crate) fn keccak256(bytes: &[u8]) -> (hash: B256)
    ensures
        hash.0@ == keccak(bytes@),
{
    B256(alloy_primitives::keccak256(bytes).0)
}

/// A lower-case hexadecimal digit in upper case.
pub open spec fn upper(c: char) -> char {
    if 'a' <= c <= 'f' {
        (c as int - 32) as char
    } else {
        c
    }
}

/// The checksummed text of an address: `0x` and its hexadecimal digits, in upper
/// case wherever the digit at the same place of the hash of those digits is 8 or
/// more.
pub open spec fn checksum_text(address: Seq<u8>) -> Seq<char> {
    let digits = hex_digits(address);
    let hash = keccak(digits.map_values(|c: char| c as u8));
    seq!['0', 'x'] + Seq::new(
        digits.len(),
        |i: int|
            if nibble(hash, i) >= 8 {
                upper(digits[i])
            } else {
                digits[i]
            },
    )
}

/// `alloy_primitives::Address::to_checksum` without a chain id, which encodes an
/// address as EIP-55 says.
#[verifier::external_body]
pub(crate) fn to_checksum(address: &Address) -> (text: String)
    ensures
        text@ == checksum_text(address.0@),
{
    alloy_primitives::Address::new(address.0).to_checksum(None)
}

/// The value of a hexadecimal digit of either case, or -1.
pub open spec fn hex_value(c: char) -> int {
    if '0' <= c <= '9' {
        c as int - 48
    } else if 'a' <= c <= 'f' {
        c as int - 87
    } else if 'A' <= c <= 'F' {
        c as int - 55
    } else {
        -1
    }
}

/// `text` without the prefix `0x` or `0X`.
pub open spec fn unprefixed(text: Seq<char>) -> Seq<char> {
    if text.len() >= 2 && text[0] == '0' && (text[1] == 'x' || text[1] == 'X') {
        text.skip(2)
    } else {
        text
    }
}

/// Whether `text` is an address: 40 hexadecimal digits, with or without prefix.
pub open spec fn is_address(text: Seq<char>) -> bool {
    &&& unprefixed(text).len() == 40
    &&& forall|i: int| 0 <= i < 40 ==> hex_value(#[trigger] unprefixed(text)[i]) >= 0
}

/// Whether `address` is what `text` spells.
pub open spec fn spells(text: Seq<char>, address: Address) -> bool {
    forall|i: int|
        0 <= i < 20 ==> (#[trigger] address.0[i]) == 16 * hex_value(unprefixed(text)[2 * i])
            + hex_value(unprefixed(text)[2 * i + 1])
}

/// `FromStr` of `alloy_primitives::Address`: takes 40 hexadecimal digits of either
/// case, with or without `0x` or `0X` in front, and nothing else.
#[verifier::external_body]
pub(crate) fn parse_address(text: &str) -> (address: Option<Address>)
    ensures
        address is Some <==> is_address(text@),
        address matches Some(found) ==> spells(text@, found),
{
    text.parse::<alloy_primitives::Address>().ok().map(|address| Address(address.0.0))
}

proof fn cased_digit_value(n: int, up: bool)
    requires
        0 <= n < 16,
    ensures
        hex_value(
            if up {
                upper(hex_char(n))
            } else {
                hex_char(n)
            },
        ) == n,
{
}

/// A checksummed text spells its address, so it can be read back.
pub proof fn checksum_spells_address(address: Address)
    ensures
        is_address(checksum_text(address.0@)),
        spells(checksum_text(address.0@), address),
{
    let bytes = address.0@;
    let text = checksum_text(bytes);
    let digits = hex_digits(bytes);
    let hash = keccak(digits.map_values(|c: char| c as u8));
    assert(text.len() == 42);
    assert(unprefixed(text) =~= text.skip(2));
    assert forall|i: int| 0 <= i < 40 implies hex_value(#[trigger] unprefixed(text)[i]) == nibble(
        bytes,
        i,
    ) by {
        cased_digit_value(nibble(bytes, i), nibble(hash, i) >= 8);
    }
    assert forall|i: int| 0 <= i < 20 implies (#[trigger] address.0[i]) == 16 * hex_value(
        unprefixed(text)[2 * i],
    ) + hex_value(unprefixed(text)[2 * i + 1]) by {
        assert(hex_value(unprefixed(text)[2 * i]) == nibble(bytes, 2 * i));
        assert(hex_value(unprefixed(text)[2 * i + 1]) == nibble(bytes, 2 * i + 1));
    }
}

/// Different addresses have different checksummed texts.
pub proof fn checksum_text_is_injective(a: Address, b: Address)
    requires
        checksum_text(a.0@) == checksum_text(b.0@),
    ensures
        a == b,
{
    checksum_spells_address(a);
    checksum_spells_address(b);
    assert forall|i: int| 0 <= i < 20 implies a.0[i] == b.0[i] by {}
    assert(a.0 =~= b.0);
}

/// The identifiers of addresses, of 32-byte pools and of 8-byte exchanges are never
/// mistaken for one another.
pub proof fn identifier_kinds_differ(address: Address, pool: B256, exchange: Seq<u8>)
    requires
        exchange.len() == 8,
    ensures
        checksum_text(address.0@) != hex_text(pool.0@),
        checksum_text(address.0@) != hex_text(exchange),
        hex_text(pool.0@) != hex_text(exchange),
{
    assert(checksum_text(address.0@).len() == 42);
    assert(hex_text(pool.0@).len() == 66);
    assert(hex_text(exchange).len() == 18);
}

/// Whether `text` is `0x` and two hexadecimal digits, of either case, for each of `bytes`.
#[verifier::opaque]
pub open spec fn reads_as(text: Seq<char>, bytes: Seq<u8>) -> bool {
    &&& text.len() == 2 + 2 * bytes.len()
    &&& text[0] == '0' && text[1] == 'x'
    &&& forall|i: int|
        0 <= i < bytes.len() ==> {
            &&& 0 <= hex_value(text[2 + 2 * i]) < 16
            &&& 0 <= hex_value(text[3 + 2 * i]) < 16
            &&& #[trigger] bytes[i] == 16 * hex_value(text[2 + 2 * i]) + hex_value(text[3 + 2 * i])
        }
}

/// Whether no character of `text` is an upper-case letter.
pub open spec fn in_lower_case(text: Seq<char>) -> bool {
    forall|i: int| 0 <= i < text.len() ==> !('A' <= #[trigger] text[i] <= 'Z')
}

/// The checksummed text of some bytes is read as these bytes.
pub proof fn checksum_text_reads_as(bytes: Seq<u8>)
    ensures
        reads_as(checksum_text(bytes), bytes),
{
    reveal(reads_as);
    let text = checksum_text(bytes);
    let digits = hex_digits(bytes);
    let hash = keccak(digits.map_values(|c: char| c as u8));
    assert forall|i: int| 0 <= i < bytes.len() implies {
        &&& 0 <= hex_value(text[2 + 2 * i]) < 16
        &&& 0 <= hex_value(text[3 + 2 * i]) < 16
        &&& #[trigger] bytes[i] == 16 * hex_value(text[2 + 2 * i]) + hex_value(text[3 + 2 * i])
    } by {
        cased_digit_value(nibble(bytes, 2 * i), nibble(hash, 2 * i) >= 8);
        cased_digit_value(nibble(bytes, 2 * i + 1), nibble(hash, 2 * i + 1) >= 8);
        assert(digits[2 * i] == hex_char(nibble(bytes, 2 * i)));
        assert(digits[2 * i + 1] == hex_char(nibble(bytes, 2 * i + 1)));
        assert((2 * i + 1) / 2 == i);
    }
}

/// The hexadecimal text of some bytes is read as these bytes, and is in lower case.
pub proof fn hex_text_reads_as(bytes: Seq<u8>)
    ensures
        reads_as(hex_text(bytes), bytes),
        in_lower_case(hex_text(bytes)),
{
    reveal(reads_as);
    let text = hex_text(bytes);
    let digits = hex_digits(bytes);
    assert forall|i: int| 0 <= i < bytes.len() implies {
        &&& 0 <= hex_value(text[2 + 2 * i]) < 16
        &&& 0 <= hex_value(text[3 + 2 * i]) < 16
        &&& #[trigger] bytes[i] == 16 * hex_value(text[2 + 2 * i]) + hex_value(text[3 + 2 * i])
    } by {
        cased_digit_value(nibble(bytes, 2 * i), false);
        cased_digit_value(nibble(bytes, 2 * i + 1), false);
        assert(digits[2 * i] == hex_char(nibble(bytes, 2 * i)));
        assert(digits[2 * i + 1] == hex_char(nibble(bytes, 2 * i + 1)));
        assert((2 * i + 1) / 2 == i);
    }
    assert forall|i: int| 0 <= i < text.len() implies !('A' <= #[trigger] text[i] <= 'Z') by {
        if i >= 2 {
            assert(digits[i - 2] == hex_char(nibble(bytes, i - 2)));
            assert(0 <= nibble(bytes, i - 2) < 16);
        }
    }
}

/// No text is read as two sequences of bytes.
pub proof fn readings_are_unique(text: Seq<char>, a: Seq<u8>, b: Seq<u8>)
    requires
        reads_as(text, a),
        reads_as(text, b),
    ensures
        a == b,
{
    reveal(reads_as);
    assert forall|i: int| 0 <= i < a.len() implies a[i] == b[i] by {}
    assert(a =~= b);
}

} // verus!
