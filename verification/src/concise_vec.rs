//! A vector whose capacity is figured from a budget of `BYTE_CAP` bytes that
//! also accounts for its length field.

use vstd::prelude::*;

verus! {

use core::mem::ManuallyDrop;
use std::collections::VecDeque;
use vstd::arithmetic::div_mod::{lemma_small_mod, lemma_fundamental_div_mod};
use vstd::arithmetic::mul::{lemma_mul_inequality, lemma_mul_is_commutative, lemma_mul_strict_inequality};
use vstd::layout::{align_of, size_of, layout_for_type_is_valid};
use vstd::std_specs::iter::IteratorSpec;
use crate::into_iter::IntoIter;
use crate::lenfield::LenField;
use crate::lenty_provide::{ProvideLenTy, lemma_isize_max_residue};
use crate::raw_data::{RawData, slots_view, lemma_slots_view_push_front, lemma_slots_view_drop_first};
use crate::std_slices::{slice_iter_mut, vec_as_mut};
use crate::stp::{SizedTP, stride_of, layout_valid};

/// A vector of `T` laid out for `BYTE_CAP` bytes. The last `LenTy`-aligned
/// slot of those bytes is the length field, counted in `LenTy`; the elements
/// are counted against the bytes before it, one stride of `T` each. The
/// element slots are kept in `RawData`.
///
/// `HEAP_ALLOWED` names the mode in which elements that do not fit would move
/// to the heap; only the in-line mode (`false`) exists.
pub struct ConciseVec<T, LenTy: ProvideLenTy, const BYTE_CAP: usize, const HEAP_ALLOWED: bool> {
    data: RawData<T, BYTE_CAP>,
    len_field: LenField<LenTy, HEAP_ALLOWED>,
}

impl<T, LenTy: ProvideLenTy, const BYTE_CAP: usize, const HEAP_ALLOWED: bool> View for ConciseVec<
    T,
    LenTy,
    BYTE_CAP,
    HEAP_ALLOWED,
> {
    type V = Seq<T>;

    /// The elements, first to last.
    closed spec fn view(&self) -> Seq<T> {
        self.data.elems@
    }
}

/// `n` slots that hold no value.
pub open spec fn vacant_slots<T>(n: nat) -> Seq<Option<T>> {
    Seq::new(n, |i: int| None::<T>)
}

/// Slots holding the values of `s`, in order.
pub open spec fn filled_slots<T>(s: Seq<T>) -> Seq<Option<T>> {
    Seq::new(s.len(), |i: int| Some(s[i]))
}

/// The values held by slots that all hold one, in order.
pub open spec fn slot_values<T>(s: Seq<Option<T>>) -> Seq<T> {
    Seq::new(s.len(), |i: int| s[i].unwrap())
}

/// Every slot of `s` holds a value.
pub open spec fn all_filled<T>(s: Seq<Option<T>>) -> bool {
    forall|i: int| 0 <= i < s.len() ==> (#[trigger] s[i]) is Some
}

/// Drops the elements from index `n` on, first to last; their slots, now
/// empty, come first among the spare slots.
fn vacate_from<T>(elems: &mut Vec<T>, spare: &mut VecDeque<Option<ManuallyDrop<T>>>, n: usize)
    requires
        n <= old(elems)@.len(),
    ensures
        final(elems)@ == old(elems)@.take(n as int),
        slots_view(final(spare)@) == vacant_slots::<T>((old(elems)@.len() - n) as nat)
            + slots_view(old(spare)@),
{
    let ghost e0 = elems@;
    let ghost s0 = spare@;
    let count = elems.len() - n;
    elems.truncate(n);
    let mut done: usize = 0;
    while done < count
        invariant
            done <= count,
            slots_view(spare@) == vacant_slots::<T>(done as nat) + slots_view(s0),
        decreases count - done,
    {
        let ghost before = spare@;
        spare.push_front(None);
        done = done + 1;
        proof {
            lemma_slots_view_push_front(before, None);
            assert(slots_view(spare@) =~= vacant_slots::<T>(done as nat) + slots_view(s0));
        }
    }
    proof {
        assert(elems@ =~= e0.take(n as int));
    }
}

/// Moves the elements from index `n` on, untouched, into the spare slots,
/// ahead of the ones already there.
fn park_from<T>(elems: &mut Vec<T>, spare: &mut VecDeque<Option<ManuallyDrop<T>>>, n: usize)
    requires
        n <= old(elems)@.len(),
    ensures
        final(elems)@ == old(elems)@.take(n as int),
        slots_view(final(spare)@) == filled_slots(old(elems)@.skip(n as int)) + slots_view(
            old(spare)@,
        ),
{
    let ghost e0 = elems@;
    let ghost s0 = spare@;
    while elems.len() > n
        invariant
            n <= elems.len() <= e0.len(),
            elems@ == e0.take(elems.len() as int),
            slots_view(spare@) == filled_slots(e0.skip(elems.len() as int)) + slots_view(s0),
        decreases elems.len(),
    {
        let x = elems.pop().unwrap();
        let ghost before = spare@;
        let kept = ManuallyDrop::new(x);
        spare.push_front(Some(kept));
        proof {
            lemma_slots_view_push_front(before, Some(kept));
            assert(elems@ =~= e0.take(elems.len() as int));
            assert(slots_view(spare@) =~= filled_slots(e0.skip(elems.len() as int)) + slots_view(
                s0,
            ));
        }
    }
    proof {
        assert(elems@ =~= e0.take(n as int));
    }
}

/// Moves the values of the first `n` spare slots, all of which hold one,
/// after the elements.
fn unpark<T>(elems: &mut Vec<T>, spare: &mut VecDeque<Option<ManuallyDrop<T>>>, n: usize)
    requires
        n <= old(spare)@.len(),
        all_filled(slots_view(old(spare)@).take(n as int)),
    ensures
        final(elems)@ == old(elems)@ + slot_values(slots_view(old(spare)@).take(n as int)),
        slots_view(final(spare)@) == slots_view(old(spare)@).skip(n as int),
{
    let ghost e0 = elems@;
    let ghost s0 = spare@;
    let ghost v0 = slots_view(s0);
    let mut moved: usize = 0;
    while moved < n
        invariant
            moved <= n <= s0.len(),
            v0 == slots_view(s0),
            all_filled(v0.take(n as int)),
            elems@ == e0 + slot_values(v0.take(moved as int)),
            spare@ == s0.skip(moved as int),
        decreases n - moved,
    {
        let slot = spare.pop_front().unwrap();
        proof {
            assert(v0.take(n as int)[moved as int] is Some);
            assert(slot == s0[moved as int]);
        }
        let kept = slot.unwrap();
        elems.push(ManuallyDrop::into_inner(kept));
        moved = moved + 1;
        proof {
            assert(elems@ =~= e0 + slot_values(v0.take(moved as int)));
            assert(spare@ =~= s0.skip(moved as int));
        }
    }
    proof {
        assert(slots_view(spare@) =~= v0.skip(n as int));
    }
}

/// Moves every element of `elems`, in order, into a double-ended queue; the
/// slots they leave, now empty, come first among the spare slots.
fn drain_into_deque<T>(elems: &mut Vec<T>, spare: &mut VecDeque<Option<ManuallyDrop<T>>>) -> (r:
    VecDeque<T>)
    ensures
        r@ == old(elems)@,
        final(elems)@ == Seq::<T>::empty(),
        slots_view(final(spare)@) == vacant_slots::<T>(old(elems)@.len()) + slots_view(
            old(spare)@,
        ),
{
    let ghost all = elems@;
    let ghost s0 = spare@;
    let mut items: VecDeque<T> = VecDeque::new();
    while elems.len() > 0
        invariant
            all == elems@ + items@,
            slots_view(spare@) == vacant_slots::<T>(items@.len()) + slots_view(s0),
        decreases elems.len(),
    {
        let x = elems.pop().unwrap();
        items.push_front(x);
        let ghost before = spare@;
        spare.push_front(None);
        proof {
            lemma_slots_view_push_front(before, None);
            assert(all == elems@ + items@);
            assert(slots_view(spare@) =~= vacant_slots::<T>(items@.len()) + slots_view(s0));
        }
    }
    proof {
        assert(all == items@);
    }
    items
}

/// Popping right after a push that succeeded gives back the pushed element
/// and leaves the elements from before the push.
pub proof fn lemma_pop_undoes_push<T>(before: Seq<T>, pushed: T)
    ensures
        before.push(pushed).len() > 0,
        before.push(pushed).last() == pushed,
        before.push(pushed).drop_last() == before,
{
    assert(before.push(pushed).drop_last() =~= before);
}

/// Setting the length down to `n` and back up to where it was restores the
/// elements and the spare slots: the cut-off values wait, in order, at the
/// front of the spare slots.
pub proof fn lemma_set_len_round_trip<T>(elems: Seq<T>, spare: Seq<Option<T>>, n: nat)
    requires
        n <= elems.len(),
    ensures
        ({
            let parked = filled_slots(elems.skip(n as int)) + spare;
            let k = elems.len() - n;
            &&& k <= parked.len()
            &&& all_filled(parked.take(k))
            &&& elems.take(n as int) + slot_values(parked.take(k)) == elems
            &&& parked.skip(k) == spare
        }),
{
    let parked = filled_slots(elems.skip(n as int)) + spare;
    let k = elems.len() - n;
    assert(elems.take(n as int) + slot_values(parked.take(k)) =~= elems);
    assert(parked.skip(k) =~= spare);
}

/// `a` rounded down to a multiple of `b`.
pub open spec fn round_down(a: int, b: int) -> int {
    (a / b) * b
}

impl<T, LenTy: ProvideLenTy, const BYTE_CAP: usize, const HEAP_ALLOWED: bool> ConciseVec<
    T,
    LenTy,
    BYTE_CAP,
    HEAP_ALLOWED,
> {
    /// The bytes one element takes: the larger of `T`'s size and alignment.
    pub open spec fn spec_stride() -> nat {
        stride_of::<T>()
    }

    /// Where the length field starts: the last `LenTy`-aligned slot of the
    /// storage.
    pub open spec fn spec_lenfield_offset() -> int {
        round_down(BYTE_CAP as int, align_of::<LenTy>() as int) - align_of::<LenTy>()
    }

    /// How many elements fit in the bytes before the length field.
    pub open spec fn spec_capacity() -> nat {
        if Self::spec_lenfield_offset() <= 0 {
            0
        } else {
            (Self::spec_lenfield_offset() / Self::spec_stride() as int) as nat
        }
    }

    /// The bytes that a full vector's elements take.
    pub open spec fn spec_t_byte_cap() -> nat {
        Self::spec_capacity() * Self::spec_stride()
    }

    /// The conditions under which such a vector can be built: the length
    /// field fits, the elements' bytes do not exceed `isize::MAX`, and a
    /// heap-capable vector has room for the length field together with a
    /// pointer, a length and a capacity.
    pub open spec fn spec_layout_ok() -> bool {
        &&& BYTE_CAP >= size_of::<LenTy>()
        &&& Self::spec_t_byte_cap() <= isize::MAX
        &&& HEAP_ALLOWED ==> BYTE_CAP >= size_of::<LenTy>() + 3 * size_of::<usize>()
    }

    /// The vector is in line, its layout is sound, and the length field counts
    /// exactly the stored elements, which fit the capacity.
    pub closed spec fn wf(&self) -> bool {
        &&& !HEAP_ALLOWED
        &&& Self::spec_layout_ok()
        &&& RawData::<T, BYTE_CAP>::well_formed()
        &&& layout_valid::<T>()
        &&& layout_valid::<LenTy>()
        &&& self.len_field.len() == self.data.elems@.len()
        &&& self.data.elems@.len() + self.spare().len() <= Self::spec_capacity()
    }

    /// The slots after the elements, first to last: `Some` where a slot still
    /// holds a value written earlier and left in place when the length
    /// shrank, `None` where it holds none (never written, moved out or
    /// dropped). Slots further on hold nothing.
    pub closed spec fn spare(&self) -> Seq<Option<T>> {
        slots_view(self.data.spare@)
    }

    /// The length field starts at a nonnegative offset within the storage
    /// when the storage can hold at least one `LenTy`.
    pub proof fn lemma_lenfield_offset()
        requires
            BYTE_CAP >= size_of::<LenTy>(),
            layout_valid::<LenTy>(),
        ensures
            0 <= Self::spec_lenfield_offset() < BYTE_CAP,
            round_down(BYTE_CAP as int, align_of::<LenTy>() as int) <= BYTE_CAP,
    {
        LenTy::lemma_modulus();
        let a = align_of::<LenTy>() as int;
        let s = size_of::<LenTy>() as int;
        if s < a {
            lemma_small_mod(s as nat, a as nat);
        }
        assert(s >= a);
        let b = BYTE_CAP as int;
        lemma_fundamental_div_mod(b, a);
        lemma_mul_is_commutative(b / a, a);
        vstd::arithmetic::div_mod::lemma_mod_pos_bound(b, a);
        assert(round_down(b, a) >= a) by {
            vstd::arithmetic::div_mod::lemma_div_is_ordered(a, b, a);
            vstd::arithmetic::div_mod::lemma_div_basics(a);
            lemma_mul_inequality(1, b / a, a);
        }
    }

    /// The length field sits in the last `LenTy`-aligned slot of the
    /// storage: its offset is `BYTE_CAP` rounded down to `LenTy`'s alignment,
    /// less one alignment; it is aligned, a slot of that size fits after it,
    /// and no further aligned slot does.
    pub proof fn lemma_lenfield_offset_is_last_slot()
        requires
            BYTE_CAP >= size_of::<LenTy>(),
            layout_valid::<LenTy>(),
        ensures
            ({
                let a = align_of::<LenTy>() as int;
                let off = Self::spec_lenfield_offset();
                &&& off == (BYTE_CAP as int / a) * a - a
                &&& off >= 0
                &&& off % a == 0
                &&& off + a <= BYTE_CAP
                &&& BYTE_CAP < off + 2 * a
            }),
    {
        Self::lemma_lenfield_offset();
        let a = align_of::<LenTy>() as int;
        let b = BYTE_CAP as int;
        lemma_fundamental_div_mod(b, a);
        lemma_mul_is_commutative(b / a, a);
        vstd::arithmetic::div_mod::lemma_mod_pos_bound(b, a);
        assert(Self::spec_lenfield_offset() == (b / a - 1) * a) by {
            vstd::arithmetic::mul::lemma_mul_is_distributive_sub_other_way(a, b / a, 1);
            lemma_mul_is_commutative(a, b / a);
            lemma_mul_is_commutative(a, b / a - 1);
        }
        vstd::arithmetic::div_mod::lemma_mod_multiples_basic(b / a - 1, a);
    }

    /// The capacity is the largest count of elements whose strides end at or
    /// before the length field.
    pub proof fn lemma_capacity_is_largest()
        requires
            BYTE_CAP >= size_of::<LenTy>(),
            layout_valid::<T>(),
            layout_valid::<LenTy>(),
        ensures
            Self::spec_capacity() * stride_of::<T>() <= Self::spec_lenfield_offset(),
            Self::spec_lenfield_offset() < (Self::spec_capacity() + 1) * stride_of::<T>(),
    {
        Self::lemma_layout();
        let off = Self::spec_lenfield_offset();
        let st = stride_of::<T>() as int;
        lemma_fundamental_div_mod(off, st);
        vstd::arithmetic::div_mod::lemma_mod_pos_bound(off, st);
        lemma_mul_is_commutative(off / st, st);
        vstd::arithmetic::mul::lemma_mul_is_distributive_add_other_way(st, off / st, 1);
    }

    /// The byte figures of a sound layout: the stride is positive, the length
    /// field starts within the storage, and the elements end before it.
    pub proof fn lemma_layout()
        requires
            BYTE_CAP >= size_of::<LenTy>(),
            layout_valid::<T>(),
            layout_valid::<LenTy>(),
        ensures
            Self::spec_stride() > 0,
            0 <= Self::spec_lenfield_offset() < BYTE_CAP,
            Self::spec_t_byte_cap() <= Self::spec_lenfield_offset(),
            Self::spec_capacity() <= Self::spec_t_byte_cap(),
    {
        Self::lemma_lenfield_offset();
        let off = Self::spec_lenfield_offset();
        let st = Self::spec_stride() as int;
        if off > 0 {
            lemma_fundamental_div_mod(off, st);
            lemma_mul_is_commutative(off / st, st);
            vstd::arithmetic::div_mod::lemma_mod_pos_bound(off, st);
            lemma_mul_inequality(1, st, off / st);
        }
    }

    /// The bytes one element takes.
    fn t_stride() -> (r: usize)
        ensures
            r == Self::spec_stride(),
            r > 0,
            layout_valid::<T>(),
    {
        T::stride()
    }

    /// Where the length field starts.
    fn lenfield_offset() -> (r: usize)
        requires
            BYTE_CAP >= size_of::<LenTy>(),
        ensures
            r == Self::spec_lenfield_offset(),
            layout_valid::<LenTy>(),
    {
        let a = LenTy::align();
        proof {
            Self::lemma_lenfield_offset();
        }
        (BYTE_CAP / a) * a - a
    }

    /// How many elements fit: the bytes before the length field divided by
    /// the stride of `T`.
    pub fn capacity_of() -> (r: usize)
        requires
            BYTE_CAP >= size_of::<LenTy>(),
        ensures
            r == Self::spec_capacity(),
            ({
                let a = align_of::<LenTy>() as int;
                let off = (BYTE_CAP as int / a) * a - a;
                &&& r * stride_of::<T>() <= off
                &&& off < (r + 1) * stride_of::<T>()
            }),
            layout_valid::<T>(),
            layout_valid::<LenTy>(),
    {
        let off = Self::lenfield_offset();
        let st = Self::t_stride();
        proof {
            Self::lemma_layout();
            Self::lemma_capacity_is_largest();
            Self::lemma_lenfield_offset_is_last_slot();
        }
        off / st
    }

    /// The bytes a full vector's elements take.
    fn t_byte_cap() -> (r: usize)
        requires
            BYTE_CAP >= size_of::<LenTy>(),
        ensures
            r == Self::spec_t_byte_cap(),
            layout_valid::<T>(),
            layout_valid::<LenTy>(),
    {
        let cap = Self::capacity_of();
        let st = Self::t_stride();
        proof {
            Self::lemma_layout();
        }
        cap * st
    }

    /// Whether the parameters make a sound layout: the length field fits in
    /// `BYTE_CAP`, the elements' bytes do not exceed `isize::MAX`, and, with
    /// heap support, the storage holds the length field and, beside it, a
    /// pointer, a length and a capacity.
    pub fn well_formedness_check() -> (r: bool)
        ensures
            r == Self::spec_layout_ok(),
    {
        if BYTE_CAP < LenTy::size() {
            return false;
        }
        if Self::t_byte_cap() > isize::MAX as usize {
            return false;
        }
        if HEAP_ALLOWED {
            let word = usize::size();
            let len_size = LenTy::size();
            proof {
                broadcast use vstd::layout::layout_of_primitives;
                assert(size_of::<usize>() * 8 == usize::BITS);
            }
            // `len_size <= BYTE_CAP` was checked above, so this cannot wrap.
            if BYTE_CAP - len_size < 3 * word {
                return false;
            }
        }
        true
    }

    /// An empty vector.
    pub fn new() -> (r: Self)
        requires
            Self::spec_layout_ok(),
            RawData::<T, BYTE_CAP>::well_formed(),
            !HEAP_ALLOWED,
        ensures
            r.wf(),
            r@ == Seq::<T>::empty(),
            r.spare() == Seq::<Option<T>>::empty(),
    {
        layout_for_type_is_valid::<T>();
        layout_for_type_is_valid::<LenTy>();
        ConciseVec { data: RawData::new(), len_field: LenField::new() }
    }

    /// An empty vector when the parameters make a sound in-line layout (the
    /// conditions `new` requires), `None` otherwise.
    pub fn try_new() -> (r: Option<Self>)
        ensures
            r is Some <==> (Self::spec_layout_ok() && RawData::<T, BYTE_CAP>::well_formed()
                && !HEAP_ALLOWED),
            r matches Some(v) ==> v.wf() && v@ == Seq::<T>::empty() && v.spare() == Seq::<
                Option<T>,
            >::empty(),
    {
        if !HEAP_ALLOWED && Self::well_formedness_check() && RawData::<T, BYTE_CAP>::well_formedness_check() {
            Some(Self::new())
        } else {
            None
        }
    }

    /// The amount of elements stored.
    pub fn len(&self) -> (r: LenTy)
        requires
            self.wf(),
        ensures
            r.val() == self@.len(),
    {
        self.len_field.get_len()
    }

    /// Whether no element is stored.
    pub fn is_empty(&self) -> (r: bool)
        requires
            self.wf(),
        ensures
            r == (self@.len() == 0),
    {
        proof {
            LenTy::lemma_modulus();
        }
        self.len().equals(LenTy::zero())
    }

    /// How many elements fit.
    pub fn capacity(&self) -> (r: usize)
        requires
            self.wf(),
        ensures
            r == Self::spec_capacity(),
    {
        Self::capacity_of()
    }

    /// A vector never holds more elements than its capacity, nor more than
    /// its length type can count.
    pub proof fn lemma_len_le_capacity(&self)
        requires
            self.wf(),
        ensures
            self@.len() <= Self::spec_capacity(),
            self@.len() < LenTy::modulus(),
    {
        self.lemma_wf_bounds();
    }

    /// A well-formed vector is in the in-line mode and its parameters make a
    /// sound layout.
    pub proof fn lemma_wf_layout(&self)
        requires
            self.wf(),
        ensures
            !HEAP_ALLOWED,
            Self::spec_layout_ok(),
            RawData::<T, BYTE_CAP>::well_formed(),
            self@.len() + self.spare().len() <= Self::spec_capacity(),
    {
    }

    /// Element slots never overlap the length field: the elements end at or
    /// before the field's offset, the offset is a multiple of `LenTy`'s
    /// alignment, and, where `LenTy`'s size equals its alignment (as for
    /// every length type on common targets), the field ends within
    /// `BYTE_CAP`.
    pub proof fn lemma_len_field_placement()
        requires
            BYTE_CAP >= size_of::<LenTy>(),
            layout_valid::<T>(),
            layout_valid::<LenTy>(),
        ensures
            Self::spec_capacity() * Self::spec_stride() <= Self::spec_lenfield_offset(),
            Self::spec_lenfield_offset() % (align_of::<LenTy>() as int) == 0,
            size_of::<LenTy>() == align_of::<LenTy>() ==> Self::spec_lenfield_offset()
                + size_of::<LenTy>() <= BYTE_CAP,
    {
        Self::lemma_layout();
        let a = align_of::<LenTy>() as int;
        let b = BYTE_CAP as int;
        assert(Self::spec_lenfield_offset() == (b / a - 1) * a) by {
            vstd::arithmetic::mul::lemma_mul_is_distributive_sub_other_way(a, b / a, 1);
            lemma_mul_is_commutative(a, b / a);
            lemma_mul_is_commutative(a, b / a - 1);
        }
        vstd::arithmetic::div_mod::lemma_mod_multiples_basic(b / a - 1, a);
        Self::lemma_lenfield_offset();
    }

    /// A well-formed vector's length fits a `usize` and its elements' bytes
    /// stay within the capacity's bytes.
    proof fn lemma_wf_bounds(&self)
        requires
            self.wf(),
        ensures
            Self::spec_stride() > 0,
            self@.len() <= Self::spec_capacity() <= Self::spec_t_byte_cap() <= isize::MAX,
            self@.len() * Self::spec_stride() <= Self::spec_t_byte_cap(),
            self@.len() < LenTy::modulus(),
    {
        Self::lemma_layout();
        lemma_mul_inequality(self@.len() as int, Self::spec_capacity() as int, Self::spec_stride() as int);
        self.len_field.lemma_len_bound();
    }

    /// Whether one more element fits: its bytes must end within the
    /// capacity's bytes and within `isize::MAX`, and the length must be
    /// representable.
    pub fn is_next_write_within_inline_bounds(&self) -> (r: bool)
        requires
            self.wf(),
        ensures
            r == (self@.len() < Self::spec_capacity()),
    {
        let next_offset = self.len_field.get_len();
        let t_byte_cap = Self::t_byte_cap();
        let stride = Self::t_stride();
        proof {
            self.lemma_wf_bounds();
            lemma_small_mod(self@.len(), (usize::MAX + 1) as nat);
            lemma_isize_max_residue::<LenTy>();
            if self@.len() < Self::spec_capacity() {
                lemma_mul_strict_inequality(
                    self@.len() as int,
                    Self::spec_capacity() as int,
                    Self::spec_stride() as int,
                );
            }
        }
        let alien = next_offset.to_usize_lossy() * stride;
        if alien >= t_byte_cap {
            return false;
        }
        if alien > isize::MAX as usize {
            return false;
        }
        let homeland = LenTy::from_usize_lossy(isize::MAX as usize);
        if !next_offset.less_eq(homeland) {
            return false;
        }
        true
    }

    /// Stores `value` after the last element and hands back a reference to it
    /// when it fits; otherwise hands `value` back. It fits when the vector is
    /// below its capacity and the length stays representable in `LenTy`.
    pub fn push(&mut self, value: T) -> (r: Result<&mut T, T>)
        where
            (): PushProvider<T, LenTy, BYTE_CAP, HEAP_ALLOWED>,
        requires
            old(self).wf(),
        ensures
            final(self).wf(),
            (r is Ok) == (old(self)@.len() < Self::spec_capacity() && old(self)@.len() + 1
                < LenTy::modulus()),
            match r {
                Ok(elem) => *elem == value && final(self)@ == old(self)@.push(*final(elem))
                    && final(self).spare() == (if old(self).spare().len() > 0 {
                    old(self).spare().drop_first()
                } else {
                    old(self).spare()
                }),
                Err(v) => v == value && final(self)@ == old(self)@ && final(self).spare() == old(
                    self,
                ).spare(),
            },
    {
        <() as PushProvider<T, LenTy, BYTE_CAP, HEAP_ALLOWED>>::push(self, value)
    }

    /// Removes the last element and returns it, or `None` if the vector is
    /// empty.
    pub fn pop(&mut self) -> (r: Option<T>)
        requires
            old(self).wf(),
        ensures
            final(self).wf(),
            old(self)@.len() == 0 ==> r is None && final(self)@ == old(self)@ && final(self).spare()
                == old(self).spare(),
            old(self)@.len() > 0 ==> r == Some(old(self)@.last()) && final(self)@
                == old(self)@.drop_last() && final(self).spare() == seq![None::<T>] + old(
                self,
            ).spare(),
    {
        proof {
            LenTy::lemma_modulus();
        }
        let len = self.len_field.get_len();
        match len.checked_sub(LenTy::one()) {
            None => None,
            Some(new_len) => {
                let val = self.data.elems.pop();
                let ghost s0 = self.data.spare@;
                self.data.spare.push_front(None);
                proof {
                    lemma_slots_view_push_front(s0, None);
                }
                self.len_field.set_len(new_len);
                val
            },
        }
    }

    /// Sets the number of elements to `new_len` without dropping, moving or
    /// writing any value. Shrinking leaves the cut-off elements in their
    /// slots; growing takes the values already in the slots after the
    /// elements, each of which must hold one.
    pub fn set_len(&mut self, new_len: LenTy)
        requires
            old(self).wf(),
            new_len.val() <= old(self)@.len() + old(self).spare().len(),
            all_filled(old(self).spare().take(new_len.val() - old(self)@.len())),
        ensures
            final(self).wf(),
            new_len.val() <= old(self)@.len() ==> final(self)@ == old(self)@.take(
                new_len.val() as int,
            ) && final(self).spare() == filled_slots(old(self)@.skip(new_len.val() as int)) + old(
                self,
            ).spare(),
            new_len.val() > old(self)@.len() ==> final(self)@ == old(self)@ + slot_values(
                old(self).spare().take(new_len.val() - old(self)@.len()),
            ) && final(self).spare() == old(self).spare().skip(new_len.val() - old(self)@.len()),
    {
        proof {
            self.lemma_wf_bounds();
            lemma_small_mod(new_len.val(), (usize::MAX + 1) as nat);
            lemma_small_mod(self@.len(), (usize::MAX + 1) as nat);
        }
        let n = new_len.to_usize_lossy();
        let len = self.len_field.get_len().to_usize_lossy();
        if n <= len {
            park_from(&mut self.data.elems, &mut self.data.spare, n);
        } else {
            unpark(&mut self.data.elems, &mut self.data.spare, n - len);
        }
        self.len_field.set_len(new_len);
    }

    /// The elements as a slice.
    pub fn as_slice(&self) -> (r: &[T])
        requires
            self.wf(),
        ensures
            r@ == self@,
    {
        self.data.elems.as_slice()
    }

    /// The elements as a mutable slice. Whatever is written through it
    /// becomes the vector's elements; the slice keeps its length, so the
    /// vector keeps its length and stays well formed.
    pub fn as_mut_slice(&mut self) -> (r: &mut [T])
        requires
            old(self).wf(),
        ensures
            r@ == old(self)@,
            final(self)@ == final(r)@,
            final(self)@.len() == old(self)@.len(),
            final(self).wf(),
            final(self).spare() == old(self).spare(),
    {
        vec_as_mut(&mut self.data.elems)
    }

    /// An iterator over references to the elements, first to last.
    pub fn iter(&self) -> (r: std::slice::Iter<'_, T>)
        requires
            self.wf(),
        ensures
            r.remaining() == self@.as_ref(),
    {
        proof {
            broadcast use vstd::std_specs::slice::axiom_spec_slice_iter;
        }
        self.as_slice().iter()
    }

    /// Removes every element.
    pub fn clear(&mut self)
        requires
            old(self).wf(),
        ensures
            final(self).wf(),
            final(self)@ == Seq::<T>::empty(),
            final(self).spare() == vacant_slots::<T>(old(self)@.len()) + old(self).spare(),
    {
        proof {
            LenTy::lemma_modulus();
        }
        let len = self.len_field.get_len();
        if !len.equals(LenTy::zero()) {
            self.len_field.set_len(LenTy::zero());
            vacate_from(&mut self.data.elems, &mut self.data.spare, 0);
        } else {
            proof {
                assert(vacant_slots::<T>(0) + self.spare() =~= self.spare());
            }
        }
    }

    /// Keeps the first `len` elements and drops the rest; a `len` at or beyond
    /// the current length changes nothing.
    pub fn truncate(&mut self, len: usize)
        requires
            old(self).wf(),
        ensures
            final(self).wf(),
            final(self)@ == (if len < old(self)@.len() {
                old(self)@.take(len as int)
            } else {
                old(self)@
            }),
            final(self).spare() == (if len < old(self)@.len() {
                vacant_slots::<T>((old(self)@.len() - len) as nat) + old(self).spare()
            } else {
                old(self).spare()
            }),
    {
        proof {
            self.lemma_wf_bounds();
            lemma_small_mod(self@.len(), (usize::MAX + 1) as nat);
        }
        let current_len = self.len_field.get_len().to_usize_lossy();
        if len >= current_len {
            return;
        }
        proof {
            lemma_small_mod(len as nat, LenTy::modulus());
        }
        self.len_field.set_len(LenTy::from_usize_lossy(len));
        vacate_from(&mut self.data.elems, &mut self.data.spare, len);
    }

    /// An iterator over mutable references to the elements, first to last.
    /// Writing through the references keeps the length, so the vector stays
    /// well formed; handing out the iterator changes no element, so one that
    /// is never advanced leaves the elements as they were.
    pub fn iter_mut(&mut self) -> (r: std::slice::IterMut<'_, T>)
        requires
            old(self).wf(),
        ensures
            final(self)@.len() == old(self)@.len(),
            final(self).wf(),
            final(self).spare() == old(self).spare(),
            has_resolved(r) ==> final(self)@ == old(self)@,
    {
        slice_iter_mut(self.as_mut_slice())
    }
}

/// Draining is offered in the in-line mode, the only mode a vector can be
/// built in.
impl<T, LenTy: ProvideLenTy, const BYTE_CAP: usize> ConciseVec<T, LenTy, BYTE_CAP, false> {
    /// Yields all the elements by value, first to last, and leaves the vector
    /// empty; the storage stays with the vector.
    pub fn into_iter(&mut self) -> (r: IntoIter<'_, T, LenTy>)
        requires
            old(self).wf(),
        ensures
            final(self).wf(),
            final(self)@ == Seq::<T>::empty(),
            final(self).spare() == vacant_slots::<T>(old(self)@.len()) + old(self).spare(),
            r@ == old(self)@,
    {
        proof {
            LenTy::lemma_modulus();
        }
        self.len_field.set_len(LenTy::zero());
        let items = drain_into_deque(&mut self.data.elems, &mut self.data.spare);
        IntoIter::from_items(items)
    }

}

/// How a vector in a given mode stores one more element. Only the in-line
/// mode provides it: there a value that does not fit is handed back.
pub trait PushProvider<T, LenTy: ProvideLenTy, const BYTE_CAP: usize, const HEAP: bool> {
    /// Stores `val` after the last element of `cv` and hands back a reference
    /// to it when it fits; otherwise hands `val` back.
    fn push(cv: &mut ConciseVec<T, LenTy, BYTE_CAP, HEAP>, val: T) -> (r: Result<&mut T, T>)
        requires
            old(cv).wf(),
        ensures
            final(cv).wf(),
            (r is Ok) == (old(cv)@.len() < ConciseVec::<T, LenTy, BYTE_CAP, HEAP>::spec_capacity()
                && old(cv)@.len() + 1 < LenTy::modulus()),
            match r {
                Ok(elem) => *elem == val && final(cv)@ == old(cv)@.push(*final(elem))
                    && final(cv).spare() == (if old(cv).spare().len() > 0 {
                    old(cv).spare().drop_first()
                } else {
                    old(cv).spare()
                }),
                Err(v) => v == val && final(cv)@ == old(cv)@ && final(cv).spare() == old(cv).spare(),
            },
    ;
}

impl<T, LenTy: ProvideLenTy, const BYTE_CAP: usize> PushProvider<T, LenTy, BYTE_CAP, false> for () {
    fn push(cv: &mut ConciseVec<T, LenTy, BYTE_CAP, false>, val: T) -> (r: Result<&mut T, T>)
    {
        proof {
            cv.lemma_wf_bounds();
            LenTy::lemma_modulus();
        }
        let len = cv.len_field.get_len();
        if cv.is_next_write_within_inline_bounds() {
            match len.checked_add(LenTy::one()) {
                Some(new_len) => {
                    proof {
                        lemma_small_mod(cv@.len(), (usize::MAX + 1) as nat);
                        LenTy::lemma_val_bound(new_len);
                    }
                    let idx = len.to_usize_lossy();
                    cv.len_field.set_len(new_len);
                    let ghost s0 = cv.data.spare@;
                    let overwritten = cv.data.spare.pop_front();
                    proof {
                        if s0.len() > 0 {
                            lemma_slots_view_drop_first(s0);
                        }
                    }
                    cv.data.elems.push(val);
                    Ok(&mut cv.data.elems[idx])
                },
                None => Err(val),
            }
        } else {
            Err(val)
        }
    }
}

impl<T, LenTy: ProvideLenTy, const BYTE_CAP: usize, const HEAP_ALLOWED: bool> Default for ConciseVec<
    T,
    LenTy,
    BYTE_CAP,
    HEAP_ALLOWED,
> {
    /// An empty vector, as `new` builds it; it is well formed when the
    /// parameters meet the conditions `new` requires.
    fn default() -> (r: Self)
        ensures
            r@ == Seq::<T>::empty(),
            r.spare() == Seq::<Option<T>>::empty(),
            Self::spec_layout_ok() && RawData::<T, BYTE_CAP>::well_formed() && !HEAP_ALLOWED
                ==> r.wf(),
    {
        layout_for_type_is_valid::<T>();
        layout_for_type_is_valid::<LenTy>();
        ConciseVec {
            data: RawData { elems: Vec::new(), spare: VecDeque::new() },
            len_field: LenField::new(),
        }
    }
}

impl<T, LenTy: ProvideLenTy, const BYTE_CAP: usize, const HEAP_ALLOWED: bool> core::ops::Deref for ConciseVec<
    T,
    LenTy,
    BYTE_CAP,
    HEAP_ALLOWED,
> {
    type Target = [T];

    /// The elements as a slice.
    fn deref(&self) -> (r: &[T])
        ensures
            r@ == self@,
    {
        self.data.elems.as_slice()
    }
}

impl<T, LenTy: ProvideLenTy, const BYTE_CAP: usize, const HEAP_ALLOWED: bool> core::ops::DerefMut for ConciseVec<
    T,
    LenTy,
    BYTE_CAP,
    HEAP_ALLOWED,
> {
    /// The elements as a mutable slice.
    fn deref_mut(&mut self) -> (r: &mut [T])
        ensures
            r@ == old(self)@,
            final(self)@ == final(r)@,
            final(self)@.len() == old(self)@.len(),
            old(self).wf() ==> final(self).wf(),
            final(self).spare() == old(self).spare(),
    {
        vec_as_mut(&mut self.data.elems)
    }
}

impl<'s, T, LenTy: ProvideLenTy, const BYTE_CAP: usize, const HEAP_ALLOWED: bool> IntoIterator for &'s ConciseVec<
    T,
    LenTy,
    BYTE_CAP,
    HEAP_ALLOWED,
> {
    type Item = &'s T;

    type IntoIter = std::slice::Iter<'s, T>;

    /// An iterator over references to the elements, first to last.
    fn into_iter(self) -> (r: std::slice::Iter<'s, T>)
        ensures
            r.remaining() == self@.as_ref(),
    {
        proof {
            broadcast use vstd::std_specs::slice::axiom_spec_slice_iter;
        }
        self.data.elems.as_slice().iter()
    }
}

impl<'s, T, LenTy: ProvideLenTy, const BYTE_CAP: usize, const HEAP_ALLOWED: bool> IntoIterator for &'s mut ConciseVec<
    T,
    LenTy,
    BYTE_CAP,
    HEAP_ALLOWED,
> {
    type Item = &'s mut T;

    type IntoIter = std::slice::IterMut<'s, T>;

    /// An iterator over mutable references to the elements, first to last.
    /// Writing through the references keeps the length, so a well-formed
    /// vector stays well formed; handing out the iterator changes no element,
    /// so one that is never advanced leaves the elements as they were.
    fn into_iter(self) -> (r: std::slice::IterMut<'s, T>)
        ensures
            final(self)@.len() == old(self)@.len(),
            old(self).wf() ==> final(self).wf(),
            final(self).spare() == old(self).spare(),
            has_resolved(r) ==> final(self)@ == old(self)@,
    {
        slice_iter_mut(vec_as_mut(&mut self.data.elems))
    }
}

} // verus!
