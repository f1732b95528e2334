//! An associative container that never holds a pair.

use vstd::prelude::*;

use crate::Empty;

verus! {

use core::borrow::Borrow;
use core::cmp::Ordering;
use std::collections::HashMap;
use vstd::std_specs::cmp::{PartialEqSpec, PartialOrdSpec};

/// A map that is guaranteed to be empty.
///
/// Its view is always the empty map, so `len` is `0`, `is_empty` is `true`,
/// and `contains_key` is `false` for every argument. No operation that could
/// add a pair (`insert`, `entry`, ...) exists.
#[derive(Eq, Ord, Hash, Debug)]
pub struct EMap<K, V> {
    key: core::marker::PhantomData<K>,
    val: core::marker::PhantomData<V>,
}

impl<K, V> View for EMap<K, V> {
    type V = Map<K, V>;

    open spec fn view(&self) -> Map<K, V> {
        Map::empty()
    }
}

impl<K, V> EMap<K, V> {
    /// Produce the one empty value.
    pub fn new() -> (r: EMap<K, V>)
        ensures
            r@ == Map::<K, V>::empty(),
    {
        EMap { key: core::marker::PhantomData, val: core::marker::PhantomData }
    }

    /// Whether the map is empty. It is.
    pub fn is_empty(&self) -> (r: bool)
        ensures
            r == self@.dom().is_empty(),
            r,
    {
        true
    }

    /// How many pairs the map holds: zero.
    pub fn len(&self) -> (r: usize)
        ensures
            r == self@.dom().len(),
            r == 0,
    {
        0
    }

    /// Whether the given key is present in the map. It is not.
    pub fn contains_key<Q>(&self, _key: &Q) -> (r: bool) where K: Borrow<Q>
        ensures
            !r,
    {
        false
    }

    /// Iterate over the keys: the iterator is exhausted from the start.
    pub fn keys(&self) -> (r: Empty<&K>)
        ensures
            r@ == Seq::<&K>::empty(),
    {
        Empty::new()
    }

    /// Iterate over the values: the iterator is exhausted from the start.
    pub fn values(&self) -> (r: Empty<&V>)
        ensures
            r@ == Seq::<&V>::empty(),
    {
        Empty::new()
    }

    /// Iterate over the key-value pairs: the iterator is exhausted from the
    /// start.
    pub fn iter(&self) -> (r: Empty<(K, V)>)
        ensures
            r@ == Seq::<(K, V)>::empty(),
    {
        Empty::new()
    }

    /// Consume the map and iterate over its keys: there are none.
    pub fn into_keys(self) -> (r: Empty<K>)
        ensures
            r@ == Seq::<K>::empty(),
    {
        Empty::new()
    }

    /// Consume the map and iterate over its values: there are none.
    pub fn into_values(self) -> (r: Empty<V>)
        ensures
            r@ == Seq::<V>::empty(),
    {
        Empty::new()
    }

    /// Consume the map and iterate over its key-value pairs: there are none.
    pub fn into_iter(self) -> (r: Empty<(K, V)>)
        ensures
            r@ == Seq::<(K, V)>::empty(),
    {
        Empty::new()
    }

    /// Convert a possibly non-empty `HashMap` into a map that is guaranteed
    /// to be empty. Succeeds exactly when the input holds no pair.
    pub fn from_map(map: HashMap<K, V>) -> (r: Option<EMap<K, V>>)
        ensures
            r is Some <==> map@.is_empty(),
    {
        if map.is_empty() {
            Some(EMap::new())
        } else {
            None
        }
    }

    /// Like [`EMap::from_map`], but a rejected input reports why.
    pub fn try_from_map(map: HashMap<K, V>) -> (r: Result<EMap<K, V>, &'static str>)
        ensures
            r is Ok <==> map@.is_empty(),
            r matches Err(e) ==> e@ == "Cannot convert a non-empty HashMap into an empty one"@,
    {
        if map.is_empty() {
            Ok(EMap::new())
        } else {
            Err("Cannot convert a non-empty HashMap into an empty one")
        }
    }

    /// Convert into an ordinary `HashMap`: always a freshly built, empty one.
    pub fn to_map(self) -> (r: HashMap<K, V>)
        ensures
            r@ == Map::<K, V>::empty(),
    {
        HashMap::new()
    }

    /// The text an empty map renders as.
    pub fn debug_render(&self) -> (r: &'static str)
        ensures
            r@ == "{}"@,
    {
        "{}"
    }
}

impl<K, V> Clone for EMap<K, V> {
    fn clone(&self) -> (r: EMap<K, V>)
        ensures
            r@ == self@,
    {
        EMap { key: core::marker::PhantomData, val: core::marker::PhantomData }
    }
}

impl<K, V> Default for EMap<K, V> {
    fn default() -> (r: EMap<K, V>)
        ensures
            r@ == Map::<K, V>::empty(),
    {
        EMap::new()
    }
}

impl<K, V> PartialEq for EMap<K, V> {
    fn eq(&self, _other: &EMap<K, V>) -> bool {
        true
    }
}

impl<K, V> vstd::std_specs::cmp::PartialEqSpecImpl for EMap<K, V> {
    open spec fn obeys_eq_spec() -> bool {
        true
    }

    open spec fn eq_spec(&self, _other: &EMap<K, V>) -> bool {
        true
    }
}

impl<K, V> PartialOrd for EMap<K, V> {
    fn partial_cmp(&self, _other: &EMap<K, V>) -> Option<Ordering> {
        Some(Ordering::Equal)
    }
}

impl<K, V> vstd::std_specs::cmp::PartialOrdSpecImpl for EMap<K, V> {
    open spec fn obeys_partial_cmp_spec() -> bool {
        true
    }

    open spec fn partial_cmp_spec(&self, _other: &EMap<K, V>) -> Option<Ordering> {
        Some(Ordering::Equal)
    }
}

/// Any two empty maps over the same key and value types are equal, their
/// views agree, and the order between them is always `Equal`: neither is
/// ever strictly less or greater than the other.
pub proof fn lemma_emap_trivial_order<K, V>(a: &EMap<K, V>, b: &EMap<K, V>)
    ensures
        a.eq_spec(b),
        a.partial_cmp_spec(b) == Some(Ordering::Equal),
        a@ == b@,
{
}

} // verus!
