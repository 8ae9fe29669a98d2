//! A hash map over keys of more than one machine word.
//!
//! Entries are kept in buckets, each found by a 64-bit fingerprint of its keys.

use vstd::prelude::*;
use std::collections::HashMap;

verus! {

/// The eight bytes of `bytes` from `at` on, as a big-endian number.
pub open spec fn word_at(bytes: Seq<u8>, at: int) -> u64 {
    (bytes[at] * 0x100_0000_0000_0000 + bytes[at + 1] * 0x1_0000_0000_0000 + bytes[at + 2]
        * 0x100_0000_0000 + bytes[at + 3] * 0x1_0000_0000 + bytes[at + 4] * 0x100_0000 + bytes[at
        + 5] * 0x1_0000 + bytes[at + 6] * 0x100 + bytes[at + 7]) as u64
}

/// The eight bytes of `bytes` from `at` on, as a big-endian number.
pub fn read_word(bytes: &[u8], at: usize) -> (word: u64)
    requires
        at + 8 <= bytes@.len(),
    ensures
        word == word_at(bytes@, at as int),
{
    bytes[at] as u64 * 0x100_0000_0000_0000 + bytes[at + 1] as u64 * 0x1_0000_0000_0000
        + bytes[at + 2] as u64 * 0x100_0000_0000 + bytes[at + 3] as u64 * 0x1_0000_0000
        + bytes[at + 4] as u64 * 0x100_0000 + bytes[at + 5] as u64 * 0x1_0000
        + bytes[at + 6] as u64 * 0x100 + bytes[at + 7] as u64
}

/// A key of a [`KeyedMap`]: it stands for a mathematical value, by which it is
/// compared and which has a 64-bit fingerprint.
pub trait MapKey: Sized {
    /// What a key stands for.
    type Key;

    /// The value that the key stands for.
    spec fn key(self) -> Self::Key;

    /// The fingerprint by which the bucket of a value is found.
    spec fn fingerprint(key: Self::Key) -> u64;

    fn to_fingerprint(&self) -> (print: u64)
        ensures
            print == Self::fingerprint(self.key()),
    ;

    fn same_key(&self, other: &Self) -> (same: bool)
        ensures
            same == (self.key() == other.key()),
    ;
}

/// A map from keys `K` to `V`. Its view is the map from the values that the keys
/// stand for.
#[derive(Debug)]
#[verifier::reject_recursive_types(K)]
#[verifier::reject_recursive_types(V)]
pub struct KeyedMap<K: MapKey, V> {
    buckets: HashMap<u64, Vec<(K, V)>>,
}

/// Whether the entry at `i` of `bucket` has the key `key`.
spec fn entry_at<K: MapKey, V>(bucket: Seq<(K, V)>, i: int, key: K::Key) -> bool {
    0 <= i < bucket.len() && bucket[i].0.key() == key
}

/// Whether `bucket` is in use, holds only keys with the fingerprint `print`, and
/// holds none of them twice.
spec fn bucket_ok<K: MapKey, V>(bucket: Seq<(K, V)>, print: u64) -> bool {
    &&& bucket.len() > 0
    &&& forall|i: int|
        0 <= i < bucket.len() ==> K::fingerprint((#[trigger] bucket[i]).0.key()) == print
    &&& forall|i: int, j: int|
        0 <= i < j < bucket.len() ==> (#[trigger] bucket[i]).0.key() != (
        #[trigger] bucket[j]).0.key()
}

impl<K: MapKey, V> KeyedMap<K, V> {
    spec fn bucket(self, key: K::Key) -> Seq<(K, V)> {
        self.buckets@[K::fingerprint(key)]@
    }

    spec fn holds(self, key: K::Key) -> bool {
        self.buckets@.contains_key(K::fingerprint(key)) && exists|i: int|
            entry_at(self.bucket(key), i, key)
    }

    spec fn position(self, key: K::Key) -> int {
        choose|i: int| entry_at(self.bucket(key), i, key)
    }

    #[verifier::type_invariant]
    spec fn well_formed(self) -> bool {
        forall|print: u64| #[trigger]
            self.buckets@.contains_key(print) ==> bucket_ok(self.buckets@[print]@, print)
    }

    pub closed spec fn as_map(self) -> Map<K::Key, V> {
        Map::new(
            |key: K::Key| self.holds(key),
            |key: K::Key| self.bucket(key)[self.position(key)].1,
        )
    }

    pub fn new() -> (map: Self)
        ensures
            map@ == Map::<K::Key, V>::empty(),
    {
        let map = KeyedMap { buckets: HashMap::new() };
        assert(map@ =~= Map::<K::Key, V>::empty());
        map
    }
}

impl<K: MapKey, V> View for KeyedMap<K, V> {
    type V = Map<K::Key, V>;

    open spec fn view(&self) -> Map<K::Key, V> {
        self.as_map()
    }
}

/// The index of `key` in `bucket`, if it is there.
fn find<K: MapKey, V>(bucket: &Vec<(K, V)>, key: &K) -> (found: Option<usize>)
    ensures
        match found {
            Some(i) => entry_at(bucket@, i as int, key.key()),
            None => forall|i: int| !entry_at(bucket@, i, key.key()),
        },
{
    let mut i: usize = 0;
    while i < bucket.len()
        invariant
            i <= bucket.len(),
            forall|j: int| 0 <= j < i ==> !entry_at(bucket@, j, key.key()),
        decreases bucket.len() - i,
    {
        if bucket[i].0.same_key(key) {
            return Some(i);
        }
        i += 1;
    }
    None
}

impl<K: MapKey, V> KeyedMap<K, V> {
    /// The value under `key`, if there is one.
    pub fn get(&self, key: &K) -> (value: Option<&V>)
        ensures
            match value {
                Some(v) => self@.contains_pair(key.key(), *v),
                None => !self@.contains_key(key.key()),
            },
    {
        proof {
            use_type_invariant(self);
        }
        match self.buckets.get(&key.to_fingerprint()) {
            None => None,
            Some(bucket) => match find(bucket, key) {
                None => None,
                Some(i) => {
                    assert(entry_at(self.bucket(key.key()), i as int, key.key()));
                    assert(self.position(key.key()) == i);
                    Some(&bucket[i].1)
                },
            },
        }
    }

    /// Whether there is a value under `key`.
    pub fn contains_key(&self, key: &K) -> (found: bool)
        ensures
            found == self@.contains_key(key.key()),
    {
        self.get(key).is_some()
    }

    /// Puts `value` under `key`, in place of what was there.
    pub fn insert(&mut self, key: K, value: V)
        ensures
            final(self)@ == old(self)@.insert(key.key(), value),
    {
        proof {
            use_type_invariant(&*self);
        }
        let ghost before = *self;
        let print = key.to_fingerprint();
        let mut buckets: HashMap<u64, Vec<(K, V)>> = HashMap::new();
        std::mem::swap(&mut buckets, &mut self.buckets);
        let mut bucket = match buckets.remove(&print) {
            Some(bucket) => bucket,
            None => Vec::new(),
        };
        let ghost had = bucket@;
        let found = find(&bucket, &key);
        match found {
            Some(i) => bucket.set(i, (key, value)),
            None => bucket.push((key, value)),
        }
        let ghost now = bucket@;
        assert(bucket_ok(now, print)) by {
            assert forall|i: int, j: int| 0 <= i < j < now.len() implies (#[trigger] now[i]).0.key()
                != (#[trigger] now[j]).0.key() by {
                if found is None && j == had.len() {
                    assert(!entry_at(had, i, key.key()));
                }
            }
        }
        buckets.insert(print, bucket);
        self.buckets = buckets;
        proof {
            let at: int = match found {
                Some(i) => i as int,
                None => had.len() as int,
            };
            assert(now[at] == (key, value));
            assert forall|k: K::Key| #[trigger] self@.contains_key(k) == before@.insert(
                key.key(),
                value,
            ).contains_key(k) by {
                if K::fingerprint(k) == print {
                    if k == key.key() {
                        assert(entry_at(self.bucket(k), at, k));
                    } else {
                        assert forall|i: int| entry_at(now, i, k) == entry_at(had, i, k) by {}
                        if before.holds(k) {
                            let i = choose|i: int| entry_at(before.bucket(k), i, k);
                            assert(entry_at(self.bucket(k), i, k));
                        }
                        if self.holds(k) {
                            let i = choose|i: int| entry_at(self.bucket(k), i, k);
                            assert(entry_at(had, i, k));
                            assert(entry_at(before.bucket(k), i, k));
                        }
                    }
                } else {
                    assert(self.bucket(k) == before.bucket(k));
                }
            }
            assert forall|k: K::Key| #[trigger] self@.contains_key(k) implies self@[k]
                == before@.insert(key.key(), value)[k] by {
                if K::fingerprint(k) == print {
                    let i = self.position(k);
                    assert(entry_at(now, i, k));
                    if k == key.key() {
                        assert(entry_at(now, at, k));
                    } else {
                        assert(entry_at(had, i, k));
                        let j = before.position(k);
                        assert(entry_at(had, j, k));
                    }
                }
            }
            assert(self@ =~= before@.insert(key.key(), value));
        }
    }

    /// Whether the map holds nothing.
    pub fn is_empty(&self) -> (empty: bool)
        ensures
            empty == (self@ == Map::<K::Key, V>::empty()),
    {
        proof {
            use_type_invariant(self);
        }
        let empty = self.buckets.is_empty();
        proof {
            if empty {
                assert(self@ =~= Map::<K::Key, V>::empty());
            } else {
                assert(self.buckets@.dom().finite());
                let print = self.buckets@.dom().choose();
                assert(self.buckets@.contains_key(print));
                let bucket = self.buckets@[print]@;
                let key = bucket[0].0.key();
                assert(entry_at(self.bucket(key), 0, key));
                assert(self@.contains_key(key));
            }
        }
        empty
    }

    /// Removes everything.
    pub fn clear(&mut self)
        ensures
            final(self)@ == Map::<K::Key, V>::empty(),
    {
        self.buckets = HashMap::new();
        assert(self@ =~= Map::<K::Key, V>::empty());
    }
}

} // verus!
