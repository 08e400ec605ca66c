//! The map between positions of columns: a hash map of the engine's own
//! kind, held behind the few operations that planning needs.

use polars_utils::aliases::PlHashMap;
use vstd::prelude::*;

verus! {

/// A `PlHashMap<usize, usize>`. The map's type has a hasher and an allocator
/// among its parameters, which cannot be declared here, so the map is held
/// in a field that the verifier does not look into.
#[verifier::external_body]
pub struct IndexMap {
    inner: PlHashMap<usize, usize>,
}

/// The entries that a map holds.
pub uninterp spec fn index_map_entries(map: IndexMap) -> Map<usize, usize>;

impl View for IndexMap {
    type V = Map<usize, usize>;

    open spec fn view(&self) -> Map<usize, usize> {
        index_map_entries(*self)
    }
}

impl IndexMap {
    /// `PlHashMap::default`: a map without entries.
    #[verifier::external_body]
    pub(crate) fn new() -> (r: IndexMap)
        ensures
            index_map_entries(r) =~= Map::empty(),
    {
        IndexMap { inner: PlHashMap::default() }
    }

    /// `HashMap::clone` of hashbrown: a map of the same entries.
    #[verifier::external_body]
    pub(crate) fn duplicate(&self) -> (r: IndexMap)
        ensures
            index_map_entries(r) == index_map_entries(*self),
    {
        IndexMap { inner: self.inner.clone() }
    }

    /// `HashMap::insert` of hashbrown: afterwards the key has the value, in
    /// place of any value that it had, and every other key what it had.
    #[verifier::external_body]
    pub(crate) fn insert(&mut self, key: usize, value: usize)
        ensures
            index_map_entries(*final(self)) == index_map_entries(*old(self)).insert(key, value),
    {
        self.inner.insert(key, value);
    }

    /// `HashMap::get` of hashbrown: the value of the key, if it has one.
    #[verifier::external_body]
    pub(crate) fn get(&self, key: usize) -> (r: Option<usize>)
        ensures
            r == if index_map_entries(*self).contains_key(key) {
                Some(index_map_entries(*self)[key])
            } else {
                None::<usize>
            },
    {
        self.inner.get(&key).copied()
    }

    /// `HashMap::iter` of hashbrown: every entry once, as a pair of key and
    /// value, in an order that nothing is claimed of.
    #[verifier::external_body]
    pub(crate) fn entries(&self) -> (r: Vec<(usize, usize)>)
        ensures
            forall|i: int|
                0 <= i < r@.len() ==> index_map_entries(*self).contains_key((#[trigger] r@[i]).0)
                    && index_map_entries(*self)[r@[i].0] == r@[i].1,
            forall|key: usize|
                index_map_entries(*self).contains_key(key) ==> exists|i: int|
                    0 <= i < r@.len() && (#[trigger] r@[i]).0 == key,
            forall|i: int, j: int|
                0 <= i < j < r@.len() ==> (#[trigger] r@[i]).0 != (#[trigger] r@[j]).0,
    {
        self.inner.iter().map(|(key, value)| (*key, *value)).collect()
    }

    /// The map that sends the first of each pair to the second; of two pairs
    /// with the same first, the later one counts.
    pub fn from_pairs(pairs: &Vec<(usize, usize)>) -> (r: IndexMap)
        ensures
            r@ == pairs_map(pairs@),
    {
        let mut map = IndexMap::new();
        let mut i: usize = 0;
        while i < pairs.len()
            invariant
                i <= pairs.len(),
                map@ == pairs_map(pairs@.subrange(0, i as int)),
            decreases pairs.len() - i,
        {
            map.insert(pairs[i].0, pairs[i].1);
            i = i + 1;
            assert(pairs@.subrange(0, i as int).drop_last() =~= pairs@.subrange(0, i - 1));
        }
        assert(pairs@.subrange(0, i as int) =~= pairs@);
        map
    }

    /// The position that `key` is sent to, if it is sent to one.
    pub fn position(&self, key: usize) -> (r: Option<usize>)
        ensures
            r == if self@.contains_key(key) {
                Some(self@[key])
            } else {
                None::<usize>
            },
    {
        self.get(key)
    }
}

/// The map that pairs describe, the later of two pairs for one key counting.
pub open spec fn pairs_map(pairs: Seq<(usize, usize)>) -> Map<usize, usize>
    decreases pairs.len(),
{
    if pairs.len() == 0 {
        Map::empty()
    } else {
        pairs_map(pairs.drop_last()).insert(pairs.last().0, pairs.last().1)
    }
}

} // verus!
