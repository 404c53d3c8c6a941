//! The elements taken out of a vector, handed out by value in order.

use vstd::prelude::*;

verus! {

use core::marker::PhantomData;
use std::collections::VecDeque;

/// The elements drained from a vector, yielded front to back.
pub struct IntoIter<'data, T, LenTy> {
    pub(crate) items: VecDeque<T>,
    pub(crate) _marker: PhantomData<&'data mut LenTy>,
}

impl<'data, T, LenTy> View for IntoIter<'data, T, LenTy> {
    type V = Seq<T>;

    /// The elements not yet yielded, in the order they come out.
    closed spec fn view(&self) -> Seq<T> {
        self.items@
    }
}

impl<'data, T, LenTy> IntoIter<'data, T, LenTy> {
    /// An iterator that yields `items` front to back.
    pub(crate) fn from_items(items: VecDeque<T>) -> (r: Self)
        ensures
            r@ == items@,
    {
        IntoIter { items, _marker: PhantomData }
    }

    /// The next element, or `None` once all were yielded.
    pub fn next(&mut self) -> (r: Option<T>)
        ensures
            old(self)@.len() == 0 ==> r is None && final(self)@ == old(self)@,
            old(self)@.len() > 0 ==> r == Some(old(self)@[0]) && final(self)@ == old(self)@.drop_first(),
    {
        self.items.pop_front()
    }

    /// How many elements are left.
    pub fn len(&self) -> (r: usize)
        ensures
            r == self@.len(),
    {
        self.items.len()
    }
}

} // verus!
