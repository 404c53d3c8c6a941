//! How a length field packs its two pieces of information into one integer.
//!
//! Without heap support the whole integer is the length. With heap support the
//! highest bit tells whether the elements moved to the heap, and the bits
//! below it hold the length.

use vstd::prelude::*;

verus! {

use vstd::arithmetic::div_mod::{lemma_small_mod, lemma_mod_add_multiples_vanish};
use crate::lenty_provide::{ProvideLenTy, half_of, max_safe_len_of};

/// The length a heap-capable field packs into `v`: its bits below the highest.
pub open spec fn packed_len<L: ProvideLenTy>(v: L) -> nat {
    v.val() % half_of::<L>()
}

/// The heap flag a heap-capable field packs into `v`: its highest bit.
pub open spec fn packed_is_heap<L: ProvideLenTy>(v: L) -> bool {
    v.val() >= half_of::<L>()
}

/// Adding the highest bit, or nothing, to a value below it leaves that value
/// as the low part and the added bit as the flag.
proof fn lemma_pack<L: ProvideLenTy>(high: nat, low: nat)
    requires
        high == 0 || high == half_of::<L>(),
        low < half_of::<L>(),
    ensures
        (high + low) % half_of::<L>() == low,
        (high + low >= half_of::<L>()) == (high == half_of::<L>()),
{
    L::lemma_modulus();
    let h = half_of::<L>();
    lemma_small_mod(low, h);
    if high == h {
        lemma_mod_add_multiples_vanish(low as int, h as int);
    }
}

/// The strategy of a field that only counts elements: the whole integer is the
/// length, and the elements never live on the heap.
pub struct HeapDisabled;

impl HeapDisabled {
    /// The full integer is the length.
    pub fn get_len<L: ProvideLenTy>(val: L) -> (r: L)
        ensures
            r == val,
    {
        val
    }

    /// The full integer is available for storing the length.
    pub fn set_len<L: ProvideLenTy>(val: &mut L, new_len: L)
        ensures
            *final(val) == new_len,
    {
        *val = new_len;
    }

    /// The heap flag is always false.
    pub fn get_is_heap<L: ProvideLenTy>(val: L) -> (r: bool)
        ensures
            !r,
    {
        false
    }
}

/// The strategy of a field that can also mark the elements as moved to the
/// heap: the highest bit is that flag, and the bits below it the length, so the
/// length is at most `L::MAX >> 1`.
pub struct HeapEnabled;

impl HeapEnabled {
    /// The bits below the highest; at most `L::MAX >> 1`.
    pub fn get_len<L: ProvideLenTy>(val: L) -> (r: L)
        ensures
            r.val() == packed_len(val),
            r.val() <= max_safe_len_of::<L>(),
    {
        proof {
            L::lemma_modulus();
        }
        val.len_bits()
    }

    /// Stores `new_len` below the highest bit, which keeps the heap flag; a
    /// length above `L::MAX >> 1` is stored as `L::MAX >> 1`.
    pub fn set_len<L: ProvideLenTy>(val: &mut L, new_len: L)
        ensures
            packed_len(*final(val)) == (if new_len.val() <= max_safe_len_of::<L>() {
                new_len.val()
            } else {
                max_safe_len_of::<L>()
            }),
            packed_is_heap(*final(val)) == packed_is_heap(*old(val)),
    {
        proof {
            L::lemma_modulus();
        }
        let cap = L::max_safe_len();
        let len = if new_len.less_eq(cap) {
            new_len
        } else {
            cap
        };
        let high = val.heap_bits();
        proof {
            lemma_pack::<L>(high.val(), len.val());
        }
        *val = high.or_bits(len);
    }

    /// Whether the highest bit is set.
    pub fn get_is_heap<L: ProvideLenTy>(val: L) -> (r: bool)
        ensures
            r == packed_is_heap(val),
    {
        proof {
            L::lemma_modulus();
        }
        !val.heap_bits().equals(L::zero())
    }

    /// Sets or clears the highest bit, keeping the length.
    pub fn set_is_heap<L: ProvideLenTy>(val: &mut L, is_heap: bool)
        ensures
            packed_is_heap(*final(val)) == is_heap,
            packed_len(*final(val)) == packed_len(*old(val)),
    {
        proof {
            L::lemma_modulus();
        }
        let low = val.len_bits();
        let high = if is_heap {
            L::heap_field_mask()
        } else {
            L::zero()
        };
        proof {
            lemma_pack::<L>(high.val(), low.val());
        }
        *val = high.or_bits(low);
    }
}

} // verus!
