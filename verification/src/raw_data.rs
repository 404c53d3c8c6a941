//! The element slots of a vector whose layout is figured for `BYTE_CAP`
//! bytes.

use vstd::prelude::*;

verus! {

use core::mem::ManuallyDrop;
use std::collections::VecDeque;
use vstd::layout::size_of;

/// The element slots of a vector, in order: first the slots that hold its
/// elements, then the slots after them, each of which either still holds a
/// value (written earlier, and left in place when the length shrank) or
/// holds none. A value left after the elements is never dropped: it is
/// either taken back into the elements, or overwritten or abandoned without
/// being dropped. The slots are kept in a `Vec` and a `VecDeque`; `BYTE_CAP`,
/// a whole number of pointer-sized words, is the budget the layout figures
/// are computed for.
pub struct RawData<T, const BYTE_CAP: usize> {
    pub(crate) elems: Vec<T>,
    pub(crate) spare: VecDeque<Option<ManuallyDrop<T>>>,
}

/// What the slots after the elements hold: the value of each slot that holds
/// one.
pub open spec fn slots_view<T>(s: Seq<Option<ManuallyDrop<T>>>) -> Seq<Option<T>> {
    Seq::new(
        s.len(),
        |i: int|
            match s[i] {
                Some(m) => Some(m@),
                None => None,
            },
    )
}

/// Putting a slot in front puts what it holds in front.
pub proof fn lemma_slots_view_push_front<T>(s: Seq<Option<ManuallyDrop<T>>>, x: Option<ManuallyDrop<T>>)
    ensures
        slots_view(seq![x] + s) == seq![
            match x {
                Some(m) => Some(m@),
                None => None,
            },
        ] + slots_view(s),
{
    let l = seq![x] + s;
    assert forall|i: int| 0 <= i < l.len() implies #[trigger] slots_view(l)[i] == (seq![
        match x {
            Some(m) => Some(m@),
            None => None,
        },
    ] + slots_view(s))[i] by {
        if i > 0 {
            assert(l[i] == s[i - 1]);
        }
    }
    assert(slots_view(l) =~= seq![
        match x {
            Some(m) => Some(m@),
            None => None,
        },
    ] + slots_view(s));
}

/// Taking the first slot away takes away what it holds.
pub proof fn lemma_slots_view_drop_first<T>(s: Seq<Option<ManuallyDrop<T>>>)
    requires
        s.len() > 0,
    ensures
        slots_view(s.subrange(1, s.len() as int)) == slots_view(s).drop_first(),
{
    assert(slots_view(s.subrange(1, s.len() as int)) =~= slots_view(s).drop_first());
}

impl<T, const BYTE_CAP: usize> RawData<T, BYTE_CAP> {
    /// `BYTE_CAP` is a multiple of the pointer size (the size of `usize`), so
    /// the storage can hold whole pointers.
    pub open spec fn well_formed() -> bool {
        BYTE_CAP as int % size_of::<usize>() as int == 0
    }

    /// The storage is well formed exactly when `BYTE_CAP` is a whole number
    /// of pointer-sized words.
    pub proof fn lemma_well_formed_iff()
        ensures
            Self::well_formed() <==> BYTE_CAP as int % size_of::<usize>() as int == 0,
    {
    }

    /// Whether `BYTE_CAP` is a multiple of the pointer size.
    pub fn well_formedness_check() -> (r: bool)
        ensures
            r == Self::well_formed(),
            r == (BYTE_CAP as int % size_of::<usize>() as int == 0),
    {
        proof {
            broadcast use vstd::layout::layout_of_primitives;
            assert(size_of::<usize>() * 8 == usize::BITS);
        }
        BYTE_CAP % core::mem::size_of::<usize>() == 0
    }

    /// Empty storage.
    pub(crate) fn new() -> (r: Self)
        requires
            Self::well_formed(),
        ensures
            r.elems@ == Seq::<T>::empty(),
            r.spare@ == Seq::<Option<ManuallyDrop<T>>>::empty(),
    {
        RawData { elems: Vec::new(), spare: VecDeque::new() }
    }
}

} // verus!
