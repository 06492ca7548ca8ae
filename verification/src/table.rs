//! A map from texts to values, seen by contracts as a map between views.

use vstd::hash_map::StringHashMap;
use vstd::prelude::*;

verus! {

/// A map from text to `V`.
#[verifier::reject_recursive_types(V)]
pub struct Table<V: View> {
    entries: StringHashMap<V>,
}

impl<V: View> View for Table<V> {
    type V = Map<Seq<char>, V::V>;

    closed spec fn view(&self) -> Map<Seq<char>, V::V> {
        self.entries@.map_values(|v: V| v@)
    }
}

impl<V: View> Table<V> {
    /// A table without entries.
    pub fn new() -> (r: Self)
        ensures
            r@ == Map::<Seq<char>, V::V>::empty(),
    {
        let r = Table { entries: StringHashMap::new() };
        assert(r@ =~= Map::<Seq<char>, V::V>::empty());
        r
    }

    /// Whether the table has an entry for a key.
    pub fn contains(&self, key: &str) -> (r: bool)
        ensures
            r == self@.contains_key(key@),
    {
        self.entries.contains_key(key)
    }

    /// The entry for a key.
    pub fn get(&self, key: &str) -> (r: Option<&V>)
        ensures
            r is Some <==> self@.contains_key(key@),
            r matches Some(v) ==> v@ == self@[key@],
    {
        self.entries.get(key)
    }

    /// Binds a key to a value, in place of what it was bound to.
    pub fn insert(&mut self, key: String, value: V)
        ensures
            final(self)@ == old(self)@.insert(key@, value@),
    {
        self.entries.insert(key, value);
        assert(self@ =~= old(self)@.insert(key@, value@));
    }

    /// Removes a key and what it is bound to.
    pub fn remove(&mut self, key: &str)
        ensures
            final(self)@ == old(self)@.remove(key@),
    {
        self.entries.remove(key);
        assert(self@ =~= old(self)@.remove(key@));
    }

    /// The number of entries.
    pub fn len(&self) -> (n: usize)
        ensures
            n == self@.len(),
    {
        let n: usize = self.entries.len();
        assert(self@.dom() =~= self.entries@.dom());
        n
    }

    /// Whether the table has no entries.
    pub fn is_empty(&self) -> (r: bool)
        ensures
            r == (self@ == Map::<Seq<char>, V::V>::empty()),
    {
        let r = self.entries.is_empty();
        proof {
            assert(self@.dom() =~= self.entries@.dom());
            if r {
                assert(self@ =~= Map::<Seq<char>, V::V>::empty());
            } else {
                assert(self.entries@.dom() != Set::<Seq<char>>::empty());
            }
        }
        r
    }
}

} // verus!
