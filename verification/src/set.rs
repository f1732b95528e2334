//! A unique-element container that never holds an element.

use vstd::prelude::*;

use crate::Empty;

verus! {

use core::borrow::Borrow;
use core::cmp::Ordering;
use std::collections::HashSet;
use vstd::std_specs::cmp::{PartialEqSpec, PartialOrdSpec};

/// A set that is guaranteed to be empty.
///
/// Its view is always the empty set, so `len` is `0`, `is_empty` is `true`,
/// and `contains` is `false` for every argument. The set-algebra operations
/// stay closed over emptiness, and no operation that could add an element
/// (`insert`, ...) exists.
#[derive(Eq, Ord, Hash, Debug)]
pub struct ESet<T> {
    val: core::marker::PhantomData<T>,
}

impl<T> View for ESet<T> {
    type V = Set<T>;

    open spec fn view(&self) -> Set<T> {
        Set::empty()
    }
}

impl<T> ESet<T> {
    /// Produce the one empty value.
    pub fn new() -> (r: ESet<T>)
        ensures
            r@ == Set::<T>::empty(),
    {
        ESet { val: core::marker::PhantomData }
    }

    /// Whether the set is empty. It is.
    pub fn is_empty(&self) -> (r: bool)
        ensures
            r == self@.is_empty(),
            r,
    {
        true
    }

    /// How many elements the set holds: zero.
    pub fn len(&self) -> (r: usize)
        ensures
            r == self@.len(),
            r == 0,
    {
        0
    }

    /// Whether the given element is a member of the set. It is not.
    pub fn contains<Q>(&self, _element: &Q) -> (r: bool) where T: Borrow<Q>
        ensures
            !r,
    {
        false
    }

    /// The elements present in `self` but not in `other`: none.
    pub fn difference(&self, _other: &ESet<T>) -> (r: Empty<&T>)
        ensures
            r@ == Seq::<&T>::empty(),
    {
        Empty::new()
    }

    /// The elements present in both sets: none.
    pub fn intersection(&self, _other: &ESet<T>) -> (r: Empty<&T>)
        ensures
            r@ == Seq::<&T>::empty(),
    {
        Empty::new()
    }

    /// The elements present in either set: none.
    pub fn union(&self, _other: &ESet<T>) -> (r: Empty<&T>)
        ensures
            r@ == Seq::<&T>::empty(),
    {
        Empty::new()
    }

    /// Iterate over the elements: the iterator is exhausted from the start.
    pub fn iter(&self) -> (r: Empty<&T>)
        ensures
            r@ == Seq::<&T>::empty(),
    {
        Empty::new()
    }

    /// Consume the set and iterate over its elements: there are none.
    pub fn into_iter(self) -> (r: Empty<T>)
        ensures
            r@ == Seq::<T>::empty(),
    {
        Empty::new()
    }

    /// Convert a possibly non-empty `HashSet` into a set that is guaranteed
    /// to be empty. Succeeds exactly when the input holds no element.
    pub fn from_set(set: HashSet<T>) -> (r: Option<ESet<T>>)
        ensures
            r is Some <==> set@.is_empty(),
    {
        if set.is_empty() {
            Some(ESet::new())
        } else {
            None
        }
    }

    /// Like [`ESet::from_set`], but a rejected input reports why.
    pub fn try_from_set(set: HashSet<T>) -> (r: Result<ESet<T>, &'static str>)
        ensures
            r is Ok <==> set@.is_empty(),
            r matches Err(e) ==> e@ == "Cannot convert a non-empty HashSet into an empty one"@,
    {
        if set.is_empty() {
            Ok(ESet::new())
        } else {
            Err("Cannot convert a non-empty HashSet into an empty one")
        }
    }

    /// Convert into an ordinary `HashSet`: always a freshly built, empty one.
    pub fn to_set(self) -> (r: HashSet<T>)
        ensures
            r@ == Set::<T>::empty(),
    {
        HashSet::new()
    }

    /// The text an empty set renders as.
    pub fn debug_render(&self) -> (r: &'static str)
        ensures
            r@ == "[]"@,
    {
        "[]"
    }
}

impl<T> Clone for ESet<T> {
    fn clone(&self) -> (r: ESet<T>)
        ensures
            r@ == self@,
    {
        ESet { val: core::marker::PhantomData }
    }
}

impl<T> PartialEq for ESet<T> {
    fn eq(&self, _other: &ESet<T>) -> bool {
        true
    }
}

impl<T> vstd::std_specs::cmp::PartialEqSpecImpl for ESet<T> {
    open spec fn obeys_eq_spec() -> bool {
        true
    }

    open spec fn eq_spec(&self, _other: &ESet<T>) -> bool {
        true
    }
}

impl<T> PartialOrd for ESet<T> {
    fn partial_cmp(&self, _other: &ESet<T>) -> Option<Ordering> {
        Some(Ordering::Equal)
    }
}

impl<T> vstd::std_specs::cmp::PartialOrdSpecImpl for ESet<T> {
    open spec fn obeys_partial_cmp_spec() -> bool {
        true
    }

    open spec fn partial_cmp_spec(&self, _other: &ESet<T>) -> Option<Ordering> {
        Some(Ordering::Equal)
    }
}

/// Any two empty sets over the same element type are equal, their views
/// agree, and the order between them is always `Equal`: neither is ever
/// strictly less or greater than the other.
pub proof fn lemma_eset_trivial_order<T>(a: &ESet<T>, b: &ESet<T>)
    ensures
        a.eq_spec(b),
        a.partial_cmp_spec(b) == Some(Ordering::Equal),
        a@ == b@,
{
}

/// Set algebra is closed over emptiness: the union, intersection and
/// difference of the views of any two empty sets are all the empty set.
pub proof fn lemma_eset_algebra_empty<T>(a: &ESet<T>, b: &ESet<T>)
    ensures
        a@.union(b@) =~= Set::<T>::empty(),
        a@.intersect(b@) =~= Set::<T>::empty(),
        a@.difference(b@) =~= Set::<T>::empty(),
{
}

} // verus!
