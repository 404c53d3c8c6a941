//! Size, alignment and stride of a type, as a vector's layout figures count it.

use vstd::prelude::*;

verus! {

use vstd::layout::{align_of, size_of, layout_for_type_is_valid};

/// The distance in bytes between two consecutive values of `T` in the
/// storage: the larger of `T`'s size and alignment (a zero-sized type still
/// occupies one alignment unit).
pub open spec fn stride_of<T>() -> nat {
    if size_of::<T>() >= align_of::<T>() {
        size_of::<T>()
    } else {
        align_of::<T>()
    }
}

/// The stride is the larger of the size and the alignment: it is at least
/// each, and equal to one of them.
pub proof fn lemma_stride_is_max<T>()
    ensures
        stride_of::<T>() >= size_of::<T>(),
        stride_of::<T>() >= align_of::<T>(),
        stride_of::<T>() == size_of::<T>() || stride_of::<T>() == align_of::<T>(),
{
}

/// What every compiled type's layout satisfies: a nonzero alignment that
/// divides the size, both fitting a `usize`.
pub open spec fn layout_valid<T>() -> bool {
    &&& align_of::<T>() > 0
    &&& size_of::<T>() % align_of::<T>() == 0
    &&& size_of::<T>() <= usize::MAX
    &&& align_of::<T>() <= usize::MAX
}

/// Layout figures of a sized type.
pub trait SizedTP: Sized {
    /// The size of `Self` in bytes.
    fn size() -> (r: usize)
        ensures
            r == size_of::<Self>(),
    ;

    /// The alignment of `Self` in bytes; it is never zero and divides the size.
    fn align() -> (r: usize)
        ensures
            r == align_of::<Self>(),
            layout_valid::<Self>(),
    ;

    /// The larger of size and alignment.
    fn stride() -> (r: usize)
        ensures
            r == stride_of::<Self>(),
            r > 0,
            r >= size_of::<Self>(),
            r >= align_of::<Self>(),
            r == size_of::<Self>() || r == align_of::<Self>(),
            layout_valid::<Self>(),
    ;

    /// Whether `Self` occupies no bytes.
    fn is_zst() -> (r: bool)
        ensures
            r == (size_of::<Self>() == 0),
    ;
}

impl<T> SizedTP for T {
    fn size() -> (r: usize) {
        core::mem::size_of::<T>()
    }

    fn align() -> (r: usize) {
        layout_for_type_is_valid::<T>();
        core::mem::align_of::<T>()
    }

    fn stride() -> (r: usize) {
        layout_for_type_is_valid::<T>();
        let s = core::mem::size_of::<T>();
        let a = core::mem::align_of::<T>();
        if s >= a {
            s
        } else {
            a
        }
    }

    fn is_zst() -> (r: bool) {
        core::mem::size_of::<T>() == 0
    }
}

} // verus!
