//! A sequence container that never holds an element.

use vstd::prelude::*;

use crate::Empty;

verus! {

use core::cmp::Ordering;
use vstd::std_specs::cmp::{PartialEqSpec, PartialOrdSpec};

/// A vector that is guaranteed to be empty.
///
/// Its view is always the empty sequence, so `len` is `0`, `is_empty` is
/// `true`, and `contains` is `false` for every argument. No operation that
/// could add an element (`push`, `insert`, `append`, ...) exists.
#[derive(Eq, Ord, Hash, Debug)]
pub struct EVec<T> {
    vector: core::marker::PhantomData<T>,
}

impl<T> View for EVec<T> {
    type V = Seq<T>;

    open spec fn view(&self) -> Seq<T> {
        Seq::empty()
    }
}

impl<T> EVec<T> {
    /// Produce the one empty value.
    pub fn new() -> (r: EVec<T>)
        ensures
            r@ == Seq::<T>::empty(),
    {
        EVec { vector: core::marker::PhantomData }
    }

    /// Whether the vector is empty. It is.
    pub fn is_empty(&self) -> (r: bool)
        ensures
            r == (self@.len() == 0),
            r,
    {
        true
    }

    /// How many elements the vector holds: zero.
    pub fn len(&self) -> (r: usize)
        ensures
            r == self@.len(),
            r == 0,
    {
        0
    }

    /// Whether the given element is in the vector. It is not.
    pub fn contains(&self, _element: &T) -> (r: bool)
        ensures
            !r,
    {
        false
    }

    /// Convert a possibly non-empty `Vec` into one that is guaranteed to be
    /// empty. Succeeds exactly when the input holds no element.
    pub fn from_vec(vec: Vec<T>) -> (r: Option<EVec<T>>)
        ensures
            r is Some <==> vec@.len() == 0,
    {
        if vec.is_empty() {
            Some(EVec::new())
        } else {
            None
        }
    }

    /// Like [`EVec::from_vec`], but a rejected input reports why.
    pub fn try_from_vec(vec: Vec<T>) -> (r: Result<EVec<T>, &'static str>)
        ensures
            r is Ok <==> vec@.len() == 0,
            r matches Err(e) ==> e@ == "Cannot convert a non-empty vector into an empty one"@,
    {
        if vec.is_empty() {
            Ok(EVec::new())
        } else {
            Err("Cannot convert a non-empty vector into an empty one")
        }
    }

    /// Convert into an ordinary `Vec`: always a freshly built, empty one.
    pub fn to_vec(self) -> (r: Vec<T>)
        ensures
            r@ == Seq::<T>::empty(),
            r@.len() == 0,
    {
        Vec::new()
    }

    /// Iterate over the elements: the iterator is exhausted from the start.
    pub fn iter(&self) -> (r: Empty<&T>)
        ensures
            r@ == Seq::<&T>::empty(),
    {
        Empty::new()
    }

    /// The text an empty sequence renders as.
    pub fn debug_render(&self) -> (r: &'static str)
        ensures
            r@ == "[]"@,
    {
        "[]"
    }
}

impl<T> Clone for EVec<T> {
    fn clone(&self) -> (r: EVec<T>)
        ensures
            r@ == self@,
    {
        EVec { vector: core::marker::PhantomData }
    }
}

impl<T> PartialEq for EVec<T> {
    fn eq(&self, _other: &EVec<T>) -> bool {
        true
    }
}

impl<T> vstd::std_specs::cmp::PartialEqSpecImpl for EVec<T> {
    open spec fn obeys_eq_spec() -> bool {
        true
    }

    open spec fn eq_spec(&self, _other: &EVec<T>) -> bool {
        true
    }
}

impl<T> PartialOrd for EVec<T> {
    fn partial_cmp(&self, _other: &EVec<T>) -> Option<Ordering> {
        Some(Ordering::Equal)
    }
}

impl<T> vstd::std_specs::cmp::PartialOrdSpecImpl for EVec<T> {
    open spec fn obeys_partial_cmp_spec() -> bool {
        true
    }

    open spec fn partial_cmp_spec(&self, _other: &EVec<T>) -> Option<Ordering> {
        Some(Ordering::Equal)
    }
}

/// Any two empty vectors over the same element type are equal, their views
/// agree, and the order between them is always `Equal`: neither is ever
/// strictly less or greater than the other.
pub proof fn lemma_evec_trivial_order<T>(a: &EVec<T>, b: &EVec<T>)
    ensures
        a.eq_spec(b),
        a.partial_cmp_spec(b) == Some(Ordering::Equal),
        a@ == b@,
{
}

} // verus!
