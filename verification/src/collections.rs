//! Size bounded collections: a set and a map whose size never exceeds the
//! limit that they were made with.
use vstd::prelude::*;
use ahash::{AHashMap, AHashSet};
use crate::hashed::{id_set, id_set_contains, id_set_insert, id_set_len, id_set_with_capacity};

verus! {

/// A map that is bounded in growth.
pub struct BoundedHashMap {
    map: AHashMap<u64, u64>,
    limit: usize,
}

/// The entries of a map of integers.
pub type PairTable = AHashMap<u64, u64>;

/// The entries of a map of integers, with the contract of each `ahash`
/// method called on it.
pub uninterp spec fn pair_table(m: PairTable) -> Map<u64, u64>;

/// `AHashMap::with_capacity`: an empty map with room for `capacity` entries.
#[verifier::external_body]
fn pairs_with_capacity(capacity: usize) -> (r: PairTable)
    ensures
        pair_table(r).dom() == Set::<u64>::empty(),
{
    AHashMap::with_capacity(capacity)
}

/// `HashMap::insert` (through `DerefMut`): sets the entry of `k`.
#[verifier::external_body]
fn pairs_insert(m: &mut PairTable, k: u64, v: u64) -> (r: Option<u64>)
    ensures
        pair_table(*final(m)) == pair_table(*old(m)).insert(k, v),
        r == pair_table(*old(m)).get(k),
{
    m.insert(k, v)
}

/// `HashMap::len` (through `Deref`): the number of entries.
#[verifier::external_body]
fn pairs_len(m: &PairTable) -> (r: usize)
    ensures
        r == pair_table(*m).len(),
{
    m.len()
}

/// `HashMap::get` (through `Deref`): the value of `k`.
#[verifier::external_body]
fn pairs_get(m: &PairTable, k: u64) -> (r: Option<u64>)
    ensures
        r == pair_table(*m).get(k),
{
    m.get(&k).copied()
}

impl BoundedHashMap {
    /// The entries.
    pub closed spec fn view(&self) -> Map<u64, u64> {
        pair_table(self.map)
    }

    /// The most entries that the map may hold.
    pub closed spec fn limit(&self) -> usize {
        self.limit
    }

    /// The map never holds more entries than its limit.
    pub open spec fn wf(&self) -> bool {
        &&& self.view().dom().finite()
        &&& self.view().len() <= self.limit()
    }

    /// An empty map that holds at most `limit` entries.
    pub fn new(limit: usize) -> (r: Self)
        requires
            2 <= limit,
        ensures
            r.wf(),
            r.view().len() <= r.limit(),
            r.view() == Map::<u64, u64>::empty(),
            r.limit() == limit,
    {
        Self::with_capacity(2, limit)
    }

    /// An empty map with room for `cap` entries that holds at most `limit`.
    pub fn with_capacity(cap: usize, limit: usize) -> (r: Self)
        requires
            cap <= limit,
        ensures
            r.wf(),
            r.view().len() <= r.limit(),
            r.view() == Map::<u64, u64>::empty(),
            r.limit() == limit,
    {
        let r = Self { map: pairs_with_capacity(cap), limit };
        assert(r.view() =~= Map::<u64, u64>::empty());
        r
    }

    /// Sets the entry of `key`, which the limit must allow.
    pub fn insert(&mut self, key: u64, value: u64)
        requires
            old(self).wf(),
            old(self).view().len() < old(self).limit(),
        ensures
            final(self).wf(),
            final(self).view().len() <= final(self).limit(),
            final(self).limit() == old(self).limit(),
            final(self).view() == old(self).view().insert(key, value),
    {
        let r = self.try_insert(key, value);
        assert(r is None);
    }

    /// Sets the entry of `key` unless the map is full, in which case the
    /// entry is handed back and the map is unchanged. A full map refuses
    /// an entry for a key that it holds too.
    pub fn try_insert(&mut self, key: u64, value: u64) -> (r: Option<(u64, u64)>)
        requires
            old(self).wf(),
        ensures
            final(self).wf(),
            final(self).view().len() <= final(self).limit(),
            final(self).limit() == old(self).limit(),
            r is Some <==> old(self).view().len() >= old(self).limit(),
            match r {
                Some(kv) => kv == (key, value) && final(self).view() == old(self).view(),
                None => final(self).view() == old(self).view().insert(key, value),
            },
    {
        if pairs_len(&self.map) >= self.limit {
            return Some((key, value));
        }
        pairs_insert(&mut self.map, key, value);
        proof {
            if !old(self).view().contains_key(key) {
                assert(old(self).view().insert(key, value).dom() =~= old(self).view().dom().insert(key));
            } else {
                assert(old(self).view().insert(key, value).dom() =~= old(self).view().dom());
            }
        }
        None
    }

    /// The number of entries.
    pub fn len(&self) -> (r: usize)
        ensures
            r == self.view().len(),
    {
        pairs_len(&self.map)
    }

    /// The value of `key`, if the map holds it.
    pub fn get(&self, key: u64) -> (r: Option<u64>)
        ensures
            r == self.view().get(key),
    {
        pairs_get(&self.map, key)
    }

    /// Whether the map holds an entry for `key`.
    pub fn contains_key(&self, key: u64) -> (r: bool)
        ensures
            r == self.view().contains_key(key),
    {
        pairs_get(&self.map, key).is_some()
    }

    /// Whether the map holds no entry.
    pub fn is_empty(&self) -> (r: bool)
        ensures
            r == (self.view().len() == 0),
    {
        pairs_len(&self.map) == 0
    }

    /// A map that keeps the law of its type never holds more entries than
    /// its limit.
    pub proof fn lemma_within_limit(&self)
        requires
            self.wf(),
        ensures
            self.view().len() <= self.limit(),
            self.view().dom().finite(),
    {
    }
}

/// A set that is bounded in growth.
pub struct BoundedHashSet {
    map: AHashSet<u64>,
    limit: usize,
}

impl BoundedHashSet {
    /// The members.
    pub closed spec fn view(&self) -> Set<u64> {
        id_set(self.map)
    }

    /// The most members that the set may hold.
    pub closed spec fn limit(&self) -> usize {
        self.limit
    }

    /// The set never holds more members than its limit.
    pub open spec fn wf(&self) -> bool {
        &&& self.view().finite()
        &&& self.view().len() <= self.limit()
    }

    /// An empty set that holds at most `limit` members.
    pub fn new(limit: usize) -> (r: Self)
        requires
            2 <= limit,
        ensures
            r.wf(),
            r.view().len() <= r.limit(),
            r.view() == Set::<u64>::empty(),
            r.limit() == limit,
    {
        Self::with_capacity(2, limit)
    }

    /// An empty set with room for `cap` members that holds at most `limit`.
    pub fn with_capacity(cap: usize, limit: usize) -> (r: Self)
        requires
            cap <= limit,
        ensures
            r.wf(),
            r.view().len() <= r.limit(),
            r.view() == Set::<u64>::empty(),
            r.limit() == limit,
    {
        Self { map: id_set_with_capacity(cap), limit }
    }

    /// Adds `value`, which the limit must allow.
    pub fn insert(&mut self, value: u64)
        requires
            old(self).wf(),
            old(self).view().len() < old(self).limit(),
        ensures
            final(self).wf(),
            final(self).view().len() <= final(self).limit(),
            final(self).limit() == old(self).limit(),
            final(self).view() == old(self).view().insert(value),
    {
        let r = self.try_insert(value);
        assert(r is None);
    }

    /// Adds `value` unless the set is full, in which case it is handed back
    /// and the set is unchanged. A full set refuses a value that it holds too.
    pub fn try_insert(&mut self, value: u64) -> (r: Option<u64>)
        requires
            old(self).wf(),
        ensures
            final(self).wf(),
            final(self).view().len() <= final(self).limit(),
            final(self).limit() == old(self).limit(),
            r is Some <==> old(self).view().len() >= old(self).limit(),
            match r {
                Some(v) => v == value && final(self).view() == old(self).view(),
                None => final(self).view() == old(self).view().insert(value),
            },
    {
        if id_set_len(&self.map) >= self.limit {
            return Some(value);
        }
        id_set_insert(&mut self.map, value);
        None
    }

    /// The number of members.
    pub fn len(&self) -> (r: usize)
        ensures
            r == self.view().len(),
    {
        id_set_len(&self.map)
    }

    /// Whether `value` is a member.
    pub fn contains(&self, value: u64) -> (r: bool)
        ensures
            r == self.view().contains(value),
    {
        id_set_contains(&self.map, value)
    }

    /// Whether the set has no member.
    pub fn is_empty(&self) -> (r: bool)
        ensures
            r == (self.view().len() == 0),
    {
        id_set_len(&self.map) == 0
    }

    /// A set that keeps the law of its type never holds more members than
    /// its limit.
    pub proof fn lemma_within_limit(&self)
        requires
            self.wf(),
        ensures
            self.view().len() <= self.limit(),
            self.view().finite(),
    {
    }
}

} // verus!
