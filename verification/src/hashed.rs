//! The hash collections of `ahash`, as the library uses them: sets of integer
//! identifiers (peers, connections) and the contract of each method called.
use vstd::prelude::*;
use ahash::{AHashMap, AHashSet};

verus! {

#[verifier::external_type_specification]
#[verifier::external_body]
#[verifier::reject_recursive_types(K)]
#[verifier::reject_recursive_types(V)]
#[verifier::reject_recursive_types(S)]
pub struct ExAHashMap<K, V, S>(AHashMap<K, V, S>);

#[verifier::external_type_specification]
#[verifier::external_body]
#[verifier::reject_recursive_types(T)]
#[verifier::reject_recursive_types(S)]
pub struct ExAHashSet<T, S>(AHashSet<T, S>);

#[verifier::external_type_specification]
#[verifier::external_body]
pub struct ExRandomState(ahash::RandomState);

/// The members of a set of integer identifiers.
pub uninterp spec fn id_set(s: AHashSet<u64>) -> Set<u64>;

/// `AHashSet::new`: an empty set.
#[verifier::external_body]
pub(crate) fn id_set_new() -> (r: AHashSet<u64>)
    ensures
        id_set(r) == Set::<u64>::empty(),
{
    AHashSet::new()
}

/// `AHashSet::with_capacity`: an empty set with room for `capacity` members.
#[verifier::external_body]
pub(crate) fn id_set_with_capacity(capacity: usize) -> (r: AHashSet<u64>)
    ensures
        id_set(r) == Set::<u64>::empty(),
{
    AHashSet::with_capacity(capacity)
}

/// `HashSet::len` (through `Deref`): the number of members.
#[verifier::external_body]
pub(crate) fn id_set_len(s: &AHashSet<u64>) -> (r: usize)
    ensures
        r == id_set(*s).len(),
{
    s.len()
}

/// `HashSet::insert` (reached through `AHashSet`'s `DerefMut`): adds `x`, and
/// returns whether it was absent.
#[verifier::external_body]
pub(crate) fn id_set_insert(s: &mut AHashSet<u64>, x: u64) -> (r: bool)
    ensures
        id_set(*final(s)) == id_set(*old(s)).insert(x),
        r == !id_set(*old(s)).contains(x),
{
    s.insert(x)
}

/// `HashSet::remove` (through `DerefMut`): removes `x`, and returns whether it
/// was present.
#[verifier::external_body]
pub(crate) fn id_set_remove(s: &mut AHashSet<u64>, x: u64) -> (r: bool)
    ensures
        id_set(*final(s)) == id_set(*old(s)).remove(x),
        r == id_set(*old(s)).contains(x),
{
    s.remove(&x)
}

/// `HashSet::contains` (through `Deref`).
#[verifier::external_body]
pub(crate) fn id_set_contains(s: &AHashSet<u64>, x: u64) -> (r: bool)
    ensures
        r == id_set(*s).contains(x),
{
    s.contains(&x)
}

/// `HashSet::is_empty` (through `Deref`).
#[verifier::external_body]
pub(crate) fn id_set_is_empty(s: &AHashSet<u64>) -> (r: bool)
    ensures
        r == (id_set(*s) == Set::<u64>::empty()),
{
    s.is_empty()
}

/// `Clone::clone` of `AHashSet` (derived): a set with the same members.
#[verifier::external_body]
pub(crate) fn id_set_clone(s: &AHashSet<u64>) -> (r: AHashSet<u64>)
    ensures
        id_set(r) == id_set(*s),
{
    s.clone()
}

/// A set holding exactly `x`.
pub(crate) fn id_set_single(x: u64) -> (r: AHashSet<u64>)
    ensures
        id_set(r) == Set::<u64>::empty().insert(x),
{
    let mut s = id_set_new();
    id_set_insert(&mut s, x);
    s
}

} // verus!
