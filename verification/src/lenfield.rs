//! The field of a vector that counts its elements, and, where the vector may
//! move its elements to the heap, whether it did so, packed in one integer.

use vstd::prelude::*;

verus! {

use crate::heap_strategy_provider::{HeapDisabled, HeapEnabled, packed_len, packed_is_heap};
use crate::lenty_provide::{ProvideLenTy, max_safe_len_of};

/// The amount of elements stored in line and, when `HEAP` is set, whether the
/// contents were moved to the heap, in a single integer. While the contents
/// are on the heap the in-line amount has no meaning.
pub struct LenField<LenTy: ProvideLenTy, const HEAP: bool> {
    lenty: LenTy,
}

/// The length that a field storing `new_len` ends up holding: all of it
/// without heap support, at most `LenTy::MAX >> 1` with it.
pub open spec fn stored_len<LenTy: ProvideLenTy>(heap: bool, new_len: LenTy) -> nat {
    if heap && new_len.val() > max_safe_len_of::<LenTy>() {
        max_safe_len_of::<LenTy>()
    } else {
        new_len.val()
    }
}

/// A length up to `LenTy::MAX >> 1` is stored exactly, with or without heap
/// support.
pub proof fn lemma_stored_len_exact<LenTy: ProvideLenTy>(heap: bool, new_len: LenTy)
    requires
        new_len.val() <= max_safe_len_of::<LenTy>(),
    ensures
        stored_len(heap, new_len) == new_len.val(),
{
}

impl<LenTy: ProvideLenTy, const HEAP: bool> LenField<LenTy, HEAP> {
    /// The length the field holds.
    pub closed spec fn len(&self) -> nat {
        if HEAP {
            packed_len(self.lenty)
        } else {
            self.lenty.val()
        }
    }

    /// The heap flag the field holds; always false without heap support.
    pub closed spec fn is_heap(&self) -> bool {
        HEAP && packed_is_heap(self.lenty)
    }

    /// The length fits the integer type, and, with heap support, lies below
    /// its highest bit.
    pub proof fn lemma_len_bound(&self)
        ensures
            self.len() < LenTy::modulus(),
            HEAP ==> self.len() <= max_safe_len_of::<LenTy>(),
    {
        LenTy::lemma_val_bound(self.lenty);
        LenTy::lemma_modulus();
    }

    /// Without heap support the heap flag is always false.
    pub proof fn lemma_no_flag_without_heap(&self)
        ensures
            !HEAP ==> !self.is_heap(),
    {
    }

    /// A zeroed field: the length is 0 and the heap flag is false.
    pub fn new() -> (r: Self)
        ensures
            r.len() == 0,
            !r.is_heap(),
    {
        proof {
            LenTy::lemma_modulus();
        }
        LenField { lenty: LenTy::zero() }
    }

    /// The stored length; with heap support it is at most `LenTy::MAX >> 1`.
    pub fn get_len(&self) -> (r: LenTy)
        ensures
            r.val() == self.len(),
    {
        if HEAP {
            HeapEnabled::get_len(self.lenty)
        } else {
            HeapDisabled::get_len(self.lenty)
        }
    }

    /// Stores a new length and keeps the heap flag. With heap support a length
    /// above `LenTy::MAX >> 1` cannot be kept: the field then holds
    /// `LenTy::MAX >> 1`.
    pub fn set_len(&mut self, new_len: LenTy)
        ensures
            final(self).len() == stored_len(HEAP, new_len),
            final(self).is_heap() == old(self).is_heap(),
            !HEAP ==> !final(self).is_heap(),
    {
        if HEAP {
            HeapEnabled::set_len(&mut self.lenty, new_len);
        } else {
            HeapDisabled::set_len(&mut self.lenty, new_len);
        }
    }

    /// Whether the in-line storage holds a heap vector's parts instead of
    /// elements; always false without heap support.
    pub fn get_is_heap(&self) -> (r: bool)
        ensures
            r == self.is_heap(),
            !HEAP ==> !r,
    {
        if HEAP {
            HeapEnabled::get_is_heap(self.lenty)
        } else {
            HeapDisabled::get_is_heap(self.lenty)
        }
    }

    /// Sets the heap flag and keeps the length. Only a field with heap support
    /// has a flag to set.
    pub fn set_is_heap(&mut self, is_heap: bool)
        requires
            HEAP,
        ensures
            final(self).is_heap() == is_heap,
            final(self).len() == old(self).len(),
    {
        HeapEnabled::set_is_heap(&mut self.lenty, is_heap);
    }
}

} // verus!
