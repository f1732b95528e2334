//! Collections that are guaranteed to hold nothing.
//!
//! Each container in this crate carries its element types only at the type
//! level: a value is zero-sized, its length is always zero, and no operation
//! that could add an element exists. Fallible conversions from ordinary
//! containers succeed exactly when the input is already empty.

use vstd::prelude::*;

mod map;
mod set;
mod vector;

pub use map::EMap;
pub use set::ESet;
pub use vector::EVec;

verus! {

/// An iterator over nothing: every call to [`Empty::next`] reports exhaustion.
pub struct Empty<T> {
    phantom: core::marker::PhantomData<T>,
}

impl<T> View for Empty<T> {
    type V = Seq<T>;

    open spec fn view(&self) -> Seq<T> {
        Seq::empty()
    }
}

impl<T> Empty<T> {
    /// Produce the exhausted iterator.
    pub(crate) fn new() -> (r: Empty<T>)
        ensures
            r@ == Seq::<T>::empty(),
    {
        Empty { phantom: core::marker::PhantomData }
    }

    /// Ask for the next element; there never is one.
    pub fn next(&mut self) -> (r: Option<T>)
        ensures
            r is None,
            final(self)@ == old(self)@,
    {
        None
    }
}

} // verus!
