//! A set of pool identifiers, in the order in which they came.

use vstd::prelude::*;
use crate::keyed_map::{read_word, word_at, KeyedMap, MapKey};

verus! {

impl MapKey for String {
    type Key = Seq<char>;

    open spec fn key(self) -> Seq<char> {
        self@
    }

    closed spec fn fingerprint(key: Seq<char>) -> u64 {
        let bytes = vstd::utf8::encode_utf8(key);
        if bytes.len() < 8 {
            0
        } else {
            word_at(bytes, bytes.len() - 8)
        }
    }

    fn to_fingerprint(&self) -> (print: u64) {
        let bytes = self.as_str().as_bytes();
        if bytes.len() < 8 {
            0
        } else {
            read_word(bytes, bytes.len() - 8)
        }
    }

    fn same_key(&self, other: &Self) -> (same: bool) {
        *self == *other
    }
}

/// A set of texts. Its view is the set; [`RawIds::into_vec`] lists it, each text
/// once, in the order in which they came.
#[derive(Debug)]
pub struct RawIds {
    ids: Vec<String>,
    seen: KeyedMap<String, ()>,
}

/// The texts in `list`.
pub open spec fn texts(list: Seq<String>) -> Set<Seq<char>> {
    Set::new(|text: Seq<char>| exists|i: int| 0 <= i < list.len() && (#[trigger] list[i])@ == text)
}

/// Whether no text is twice in `list`.
pub open spec fn each_once(list: Seq<String>) -> bool {
    forall|i: int, j: int| 0 <= i < j < list.len() ==> (#[trigger] list[i])@ != (#[trigger] list[j])@
}

impl View for RawIds {
    type V = Set<Seq<char>>;

    closed spec fn view(&self) -> Set<Seq<char>> {
        texts(self.ids@)
    }
}

impl RawIds {
    #[verifier::type_invariant]
    spec fn well_formed(self) -> bool {
        &&& each_once(self.ids@)
        &&& self.seen@.dom() == texts(self.ids@)
    }

    /// The empty set.
    pub fn new() -> (set: Self)
        ensures
            set@ == Set::<Seq<char>>::empty(),
    {
        let ids: Vec<String> = Vec::new();
        let seen: KeyedMap<String, ()> = KeyedMap::new();
        assert(texts(ids@) =~= Set::<Seq<char>>::empty());
        assert(seen@.dom() =~= Set::<Seq<char>>::empty());
        RawIds { ids, seen }
    }

    /// Whether `id` is in the set.
    pub fn contains(&self, id: &String) -> (found: bool)
        ensures
            found == self@.contains(id@),
    {
        proof {
            use_type_invariant(self);
        }
        self.seen.contains_key(id)
    }

    /// Puts `id` in.
    pub fn insert(&mut self, id: String)
        ensures
            final(self)@ == old(self)@.insert(id@),
    {
        proof {
            use_type_invariant(&*self);
        }
        let ghost before = self.ids@;
        if self.contains(&id) {
            assert(texts(before) =~= texts(before).insert(id@));
            return ;
        }
        let ghost text = id@;
        let mut set = RawIds::new();
        std::mem::swap(self, &mut set);
        let RawIds { mut ids, mut seen } = set;
        seen.insert(id.clone(), ());
        ids.push(id);
        proof {
            assert forall|t: Seq<char>| #[trigger] texts(ids@).contains(t) == texts(before).insert(
                text,
            ).contains(t) by {
                if texts(before).contains(t) {
                    let i = choose|i: int| 0 <= i < before.len() && (#[trigger] before[i])@ == t;
                    assert(ids@[i]@ == t);
                }
                assert(ids@[before.len() as int]@ == text);
                if texts(ids@).contains(t) {
                    let i = choose|i: int| 0 <= i < ids@.len() && (#[trigger] ids@[i])@ == t;
                    if i < before.len() {
                        assert(before[i]@ == t);
                    }
                }
            }
            assert(texts(ids@) =~= texts(before).insert(text));
            assert(seen@.dom() =~= texts(ids@));
            assert forall|i: int, j: int| 0 <= i < j < ids@.len() implies (#[trigger] ids@[i])@ != (
            #[trigger] ids@[j])@ by {
                if j == before.len() {
                    assert(before[i]@ == ids@[i]@);
                    assert(texts(before).contains(before[i]@));
                } else {
                    assert(before[i]@ != before[j]@);
                }
            }
        }
        *self = RawIds { ids, seen };
    }

    /// The texts of the set, each once.
    pub fn into_vec(self) -> (list: Vec<String>)
        ensures
            each_once(list@),
            texts(list@) == self@,
    {
        proof {
            use_type_invariant(&self);
        }
        self.ids
    }
}

} // verus!
