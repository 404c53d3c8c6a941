//! Mutable slices of std that vstd does not describe: the slice iterator, and
//! a vector viewed as a slice through `AsMut`.

use vstd::prelude::*;

verus! {

/// `std::slice::IterMut`, the iterator over mutable references into a slice,
/// carried through as an opaque value.
#[verifier::external_type_specification]
#[verifier::external_body]
#[verifier::reject_recursive_types(E)]
pub struct ExIterMut<'a, E: 'a>(std::slice::IterMut<'a, E>);

/// Calls `<[E]>::iter_mut`, which never panics. A slice's length is fixed,
/// so whatever is written through the iterator, the slice keeps its length;
/// and the slice changes only through the references the iterator yields,
/// so an iterator that is never advanced leaves it as it was. Which
/// references the iterator yields is not stated.
#[verifier::external_body]
pub(crate) fn slice_iter_mut<'a, E>(s: &'a mut [E]) -> (r: std::slice::IterMut<'a, E>)
    ensures
        final(s)@.len() == old(s)@.len(),
        has_resolved(r) ==> final(s)@ == old(s)@,
{
    s.iter_mut()
}

/// Calls `<Vec<E> as AsMut<[E]>>::as_mut`, which never panics and hands out a
/// slice over all of the vector's elements. A slice's length is fixed, so
/// whatever is written through it, it keeps its length, and the vector ends
/// up holding the slice's final contents.
#[verifier::external_body]
pub(crate) fn vec_as_mut<'a, E>(v: &'a mut Vec<E>) -> (r: &'a mut [E])
    ensures
        r@ == old(v)@,
        final(r)@.len() == r@.len(),
        final(v)@ == final(r)@,
{
    v.as_mut()
}

} // verus!
