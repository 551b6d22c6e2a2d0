//! The backing associative store of the interner.
//!
//! The store is a `hashbrown` hash map from owned key to [`Entry`]. Verus
//! does not read hashbrown, so the map sits in an opaque struct behind a
//! small set of trusted wrappers, and everything the rest of the crate
//! knows about it is said over [`store_contents`]: the mathematical map
//! from key characters to the entry's recorded position.
use vstd::prelude::*;

use core::hash::BuildHasher;
use hashbrown::hash_map::RawEntryMut;

use crate::interner::Entry;

verus! {

/// An owned hash map from key to [`Entry`], opaque to the verifier.
#[verifier::external_body]
pub struct Store {
    map: hashbrown::HashMap<String, Entry>,
}

/// What the store holds: each interned key, mapped to the position recorded
/// for it (`None` while its payload is still being produced).
pub uninterp spec fn store_contents(s: Store) -> Map<Seq<char>, Option<usize>>;

/// The contents of a store that holds nothing.
pub open spec fn empty_contents() -> Map<Seq<char>, Option<usize>> {
    Map::<Seq<char>, Option<usize>>::empty()
}

impl Store {
    /// The contents of this store, as a mathematical map.
    pub open spec fn contents(self) -> Map<Seq<char>, Option<usize>> {
        store_contents(self)
    }

    /// Relies on `hashbrown::HashMap::new`: the new map is empty.
    #[verifier::external_body]
    pub fn new() -> (s: Store)
        ensures
            s.contents() == empty_contents(),
    {
        Store { map: hashbrown::HashMap::new() }
    }

    /// Relies on `hashbrown::HashMap::len`: the number of keys in the map.
    #[verifier::external_body]
    pub fn len(&self) -> (n: usize)
        ensures
            n == store_contents(*self).dom().len(),
    {
        self.map.len()
    }

    /// Relies on hashbrown's raw entry API: the key is hashed once, and that
    /// one hash serves both the lookup and, on a miss, the insertion of
    /// `fresh` under an owned copy of the key.
    #[verifier::external_body]
    pub fn probe_or_insert(&mut self, key: &str, fresh: Entry) -> (r: Option<Entry>)
        ensures
            match r {
                Some(e) => {
                    &&& store_contents(*old(self)).contains_key(key@)
                    &&& e@ == store_contents(*old(self))[key@]
                    &&& store_contents(*final(self)) == store_contents(*old(self))
                },
                None => {
                    &&& !store_contents(*old(self)).contains_key(key@)
                    &&& store_contents(*final(self)) == store_contents(*old(self)).insert(key@, fresh@)
                },
            },
    {
        let hash = self.map.hasher().hash_one(key);
        match self.map.raw_entry_mut().from_key_hashed_nocheck(hash, key) {
            RawEntryMut::Occupied(entry) => Some(*entry.get()),
            RawEntryMut::Vacant(entry) => {
                entry.insert(key.to_owned(), fresh);
                None
            },
        }
    }

    /// Relies on `hashbrown::HashMap::get`: the entry under an equal key, if
    /// one is there.
    #[verifier::external_body]
    pub fn get(&self, key: &str) -> (r: Option<Entry>)
        ensures
            match r {
                Some(e) => store_contents(*self).contains_key(key@) && e@ == store_contents(
                    *self,
                )[key@],
                None => !store_contents(*self).contains_key(key@),
            },
    {
        self.map.get(key).copied()
    }

    /// Relies on `hashbrown::HashMap::get_mut`: replaces the entry under a
    /// key that is already present.
    #[verifier::external_body]
    pub fn set_existing(&mut self, key: &str, entry: Entry)
        requires
            store_contents(*old(self)).contains_key(key@),
        ensures
            store_contents(*final(self)) == store_contents(*old(self)).insert(key@, entry@),
    {
        if let Some(slot) = self.map.get_mut(key) {
            *slot = entry;
        }
    }

    /// Relies on `hashbrown::HashMap::iter`: hands out every key with its
    /// entry, in no promised order.
    #[verifier::external_body]
    pub fn pairs(&self) -> (r: Vec<(String, Entry)>)
        ensures
            forall|i: int| 0 <= i < r@.len() ==> {
                &&& store_contents(*self).contains_key(#[trigger] r@[i].0@)
                &&& r@[i].1@ == store_contents(*self)[r@[i].0@]
            },
            forall|k: Seq<char>| store_contents(*self).contains_key(k)
                ==> exists|i: int| 0 <= i < r@.len() && #[trigger] r@[i].0@ == k,
            forall|i: int, j: int| 0 <= i < j < r@.len() ==> r@[i].0@ != r@[j].0@,
    {
        self.map.iter().map(|(k, v)| (k.clone(), *v)).collect()
    }
}

} // verus!
