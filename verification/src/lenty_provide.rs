//! The unsigned integer types that can count the elements of a vector, with
//! the arithmetic and bit operations the length field performs on them.

use vstd::prelude::*;

verus! {

use vstd::layout::size_of;
use vstd::arithmetic::div_mod::{lemma_small_mod, lemma_fundamental_div_mod, lemma_fundamental_div_mod_converse};
use crate::sealed::Sealed;
use crate::stp::SizedTP;

/// Half of the value range of `L`: the weight of its highest bit.
pub open spec fn half_of<L: ProvideLenTy>() -> nat {
    L::modulus() / 2
}

/// The largest length a heap-capable length field can hold, `L::MAX >> 1`.
pub open spec fn max_safe_len_of<L: ProvideLenTy>() -> nat {
    (half_of::<L>() - 1) as nat
}

/// `isize::MAX` cast to `L` keeps its low bits: all ones where `L` is
/// narrower than `isize`, `isize::MAX` itself where it is wider.
pub proof fn lemma_isize_max_residue<L: ProvideLenTy>()
    ensures
        isize::MAX as int % (L::modulus() as int) == (if L::modulus() <= isize::MAX {
            L::modulus() - 1
        } else {
            isize::MAX as int
        }),
{
    L::lemma_modulus();
    let m = L::modulus() as int;
    let k = isize::MAX as int;
    if m <= k {
        lemma_fundamental_div_mod(k + 1, m);
        let q = (k + 1) / m;
        assert(k == (q - 1) * m + (m - 1)) by {
            vstd::arithmetic::mul::lemma_mul_is_distributive_sub_other_way(m, q, 1);
            vstd::arithmetic::mul::lemma_mul_is_commutative(m, q);
        }
        lemma_fundamental_div_mod_converse(k, m, q - 1, m - 1);
    } else {
        lemma_small_mod(k as nat, m as nat);
    }
}

/// A length that fits a `usize` survives the trip to `usize` and back.
pub proof fn lemma_usize_round_trip<L: ProvideLenTy>(x: L)
    requires
        x.val() <= usize::MAX,
    ensures
        (x.val() as int % (usize::MAX as int + 1)) % (L::modulus() as int) == x.val(),
{
    L::lemma_val_bound(x);
    lemma_small_mod(x.val(), (usize::MAX + 1) as nat);
    lemma_small_mod(x.val(), L::modulus());
}

/// An unsigned integer type usable as the length of a vector.
pub trait ProvideLenTy: SizedTP + Copy + Sealed {
    /// The number the value stands for.
    spec fn val(self) -> nat;

    /// One more than the largest value, `2^BITS`.
    spec fn modulus() -> nat;

    /// Every value lies below the modulus.
    proof fn lemma_val_bound(x: Self)
        ensures
            x.val() < Self::modulus(),
    ;

    /// The modulus is an even power of two of at least 256 that fits the
    /// type's size; where it is no larger than `isize::MAX` it divides
    /// `isize::MAX + 1`.
    proof fn lemma_modulus()
        ensures
            Self::modulus() >= 256,
            Self::modulus() % 2 == 0,
            size_of::<Self>() > 0,
            Self::modulus() <= isize::MAX ==> (isize::MAX + 1) % (Self::modulus() as int) == 0,
    ;

    /// `0`.
    fn zero() -> (r: Self)
        ensures
            r.val() == 0,
    ;

    /// `1`.
    fn one() -> (r: Self)
        ensures
            r.val() == 1,
    ;

    /// The mask of every bit but the highest, `MAX >> 1`.
    fn len_field_mask() -> (r: Self)
        ensures
            r.val() == (Self::modulus() / 2 - 1) as nat,
    ;

    /// The mask of the highest bit, `!(MAX >> 1)`.
    fn heap_field_mask() -> (r: Self)
        ensures
            r.val() == Self::modulus() / 2,
    ;

    /// The largest length a heap-capable length field can hold.
    fn max_safe_len() -> (r: Self)
        ensures
            r.val() == (Self::modulus() / 2 - 1) as nat,
    ;

    /// Addition that reports overflow with `None`.
    fn checked_add(self, rhs: Self) -> (r: Option<Self>)
        ensures
            match r {
                Some(s) => s.val() == self.val() + rhs.val(),
                None => self.val() + rhs.val() >= Self::modulus(),
            },
    ;

    /// Subtraction that reports underflow with `None`.
    fn checked_sub(self, rhs: Self) -> (r: Option<Self>)
        ensures
            match r {
                Some(s) => s.val() == self.val() - rhs.val(),
                None => self.val() < rhs.val(),
            },
    ;

    /// The value cast to `usize`, keeping its low bits.
    fn to_usize_lossy(self) -> (r: usize)
        ensures
            r as int == self.val() as int % (usize::MAX as int + 1),
    ;

    /// A `usize` cast to this type, keeping its low bits.
    fn from_usize_lossy(v: usize) -> (r: Self)
        ensures
            r.val() == v as int % (Self::modulus() as int),
    ;

    /// `self == rhs`.
    fn equals(self, rhs: Self) -> (r: bool)
        ensures
            r == (self.val() == rhs.val()),
    ;

    /// `self <= rhs`.
    fn less_eq(self, rhs: Self) -> (r: bool)
        ensures
            r == (self.val() <= rhs.val()),
    ;

    /// `self & LEN_FIELD_MASK`: the value without its highest bit.
    fn len_bits(self) -> (r: Self)
        ensures
            r.val() == self.val() % (Self::modulus() / 2),
    ;

    /// `self & HEAP_FIELD_MASK`: the highest bit alone.
    fn heap_bits(self) -> (r: Self)
        ensures
            r.val() == (if self.val() >= Self::modulus() / 2 { Self::modulus() / 2 } else { 0 }),
    ;

    /// `self | rhs` where `self` holds at most the highest bit and `rhs` none
    /// of it: the two add up.
    fn or_bits(self, rhs: Self) -> (r: Self)
        requires
            self.val() == 0 || self.val() == Self::modulus() / 2,
            rhs.val() < Self::modulus() / 2,
        ensures
            r.val() == self.val() + rhs.val(),
    ;
}

/// The bit identities behind the length-field masks of `u8`.
proof fn lemma_bits_u8(x: u8, y: u8)
    by (bit_vector)
    ensures
        x & 0x7f == x % 0x80,
        x & 0x80 == (if x >= 0x80 { 0x80u8 } else { 0u8 }),
        (x == 0 || x == 0x80) && y < 0x80 ==> x | y == x + y,
{
}

impl ProvideLenTy for u8 {
    open spec fn val(self) -> nat {
        self as nat
    }

    open spec fn modulus() -> nat {
        0x100nat
    }

    proof fn lemma_val_bound(x: Self) {
    }

    proof fn lemma_modulus() {
        broadcast use vstd::layout::layout_of_primitives;
        assert(size_of::<u8>() == 1);
        assert(isize::MAX == 0x7fff_ffff || isize::MAX == 0x7fff_ffff_ffff_ffff);
        assert(0x8000_0000int % 0x100int == 0);
        assert(0x8000_0000_0000_0000int % 0x100int == 0);
    }

    fn zero() -> (r: Self) {
        0
    }

    fn one() -> (r: Self) {
        1
    }

    fn len_field_mask() -> (r: Self) {
        0x7f
    }

    fn heap_field_mask() -> (r: Self) {
        0x80
    }

    fn max_safe_len() -> (r: Self) {
        Self::len_field_mask()
    }

    fn checked_add(self, rhs: Self) -> (r: Option<Self>) {
        u8::checked_add(self, rhs)
    }

    fn checked_sub(self, rhs: Self) -> (r: Option<Self>) {
        u8::checked_sub(self, rhs)
    }

    fn to_usize_lossy(self) -> (r: usize) {
        proof {
            lemma_small_mod(self as nat, (usize::MAX + 1) as nat);
        }
        self as usize
    }

    fn from_usize_lossy(v: usize) -> (r: Self) {
        let r = v as u8;
        assert(r as int == v as int % 0x100int) by (bit_vector)
            requires
                r == v as u8,
        ;
        r
    }

    fn equals(self, rhs: Self) -> (r: bool) {
        self == rhs
    }

    fn less_eq(self, rhs: Self) -> (r: bool) {
        self <= rhs
    }

    fn len_bits(self) -> (r: Self) {
        proof {
            lemma_bits_u8(self, 0);
        }
        self & 0x7f
    }

    fn heap_bits(self) -> (r: Self) {
        proof {
            lemma_bits_u8(self, 0);
        }
        self & 0x80
    }

    fn or_bits(self, rhs: Self) -> (r: Self) {
        proof {
            lemma_bits_u8(self, rhs);
        }
        self | rhs
    }
}

/// The bit identities behind the length-field masks of `u16`.
proof fn lemma_bits_u16(x: u16, y: u16)
    by (bit_vector)
    ensures
        x & 0x7fff == x % 0x8000,
        x & 0x8000 == (if x >= 0x8000 { 0x8000u16 } else { 0u16 }),
        (x == 0 || x == 0x8000) && y < 0x8000 ==> x | y == x + y,
{
}

impl ProvideLenTy for u16 {
    open spec fn val(self) -> nat {
        self as nat
    }

    open spec fn modulus() -> nat {
        0x1_0000nat
    }

    proof fn lemma_val_bound(x: Self) {
    }

    proof fn lemma_modulus() {
        broadcast use vstd::layout::layout_of_primitives;
        assert(size_of::<u16>() == 2);
        assert(isize::MAX == 0x7fff_ffff || isize::MAX == 0x7fff_ffff_ffff_ffff);
        assert(0x8000_0000int % 0x1_0000int == 0);
        assert(0x8000_0000_0000_0000int % 0x1_0000int == 0);
    }

    fn zero() -> (r: Self) {
        0
    }

    fn one() -> (r: Self) {
        1
    }

    fn len_field_mask() -> (r: Self) {
        0x7fff
    }

    fn heap_field_mask() -> (r: Self) {
        0x8000
    }

    fn max_safe_len() -> (r: Self) {
        Self::len_field_mask()
    }

    fn checked_add(self, rhs: Self) -> (r: Option<Self>) {
        u16::checked_add(self, rhs)
    }

    fn checked_sub(self, rhs: Self) -> (r: Option<Self>) {
        u16::checked_sub(self, rhs)
    }

    fn to_usize_lossy(self) -> (r: usize) {
        proof {
            lemma_small_mod(self as nat, (usize::MAX + 1) as nat);
        }
        self as usize
    }

    fn from_usize_lossy(v: usize) -> (r: Self) {
        let r = v as u16;
        assert(r as int == v as int % 0x1_0000int) by (bit_vector)
            requires
                r == v as u16,
        ;
        r
    }

    fn equals(self, rhs: Self) -> (r: bool) {
        self == rhs
    }

    fn less_eq(self, rhs: Self) -> (r: bool) {
        self <= rhs
    }

    fn len_bits(self) -> (r: Self) {
        proof {
            lemma_bits_u16(self, 0);
        }
        self & 0x7fff
    }

    fn heap_bits(self) -> (r: Self) {
        proof {
            lemma_bits_u16(self, 0);
        }
        self & 0x8000
    }

    fn or_bits(self, rhs: Self) -> (r: Self) {
        proof {
            lemma_bits_u16(self, rhs);
        }
        self | rhs
    }
}

/// The bit identities behind the length-field masks of `u32`.
proof fn lemma_bits_u32(x: u32, y: u32)
    by (bit_vector)
    ensures
        x & 0x7fff_ffff == x % 0x8000_0000,
        x & 0x8000_0000 == (if x >= 0x8000_0000 { 0x8000_0000u32 } else { 0u32 }),
        (x == 0 || x == 0x8000_0000) && y < 0x8000_0000 ==> x | y == x + y,
{
}

impl ProvideLenTy for u32 {
    open spec fn val(self) -> nat {
        self as nat
    }

    open spec fn modulus() -> nat {
        0x1_0000_0000nat
    }

    proof fn lemma_val_bound(x: Self) {
    }

    proof fn lemma_modulus() {
        broadcast use vstd::layout::layout_of_primitives;
        assert(size_of::<u32>() == 4);
        assert(isize::MAX == 0x7fff_ffff || isize::MAX == 0x7fff_ffff_ffff_ffff);
        assert(0x8000_0000_0000_0000int % 0x1_0000_0000int == 0);
    }

    fn zero() -> (r: Self) {
        0
    }

    fn one() -> (r: Self) {
        1
    }

    fn len_field_mask() -> (r: Self) {
        0x7fff_ffff
    }

    fn heap_field_mask() -> (r: Self) {
        0x8000_0000
    }

    fn max_safe_len() -> (r: Self) {
        Self::len_field_mask()
    }

    fn checked_add(self, rhs: Self) -> (r: Option<Self>) {
        u32::checked_add(self, rhs)
    }

    fn checked_sub(self, rhs: Self) -> (r: Option<Self>) {
        u32::checked_sub(self, rhs)
    }

    fn to_usize_lossy(self) -> (r: usize) {
        proof {
            lemma_small_mod(self as nat, (usize::MAX + 1) as nat);
        }
        self as usize
    }

    fn from_usize_lossy(v: usize) -> (r: Self) {
        let r = v as u32;
        assert(r as int == v as int % 0x1_0000_0000int) by (bit_vector)
            requires
                r == v as u32,
        ;
        r
    }

    fn equals(self, rhs: Self) -> (r: bool) {
        self == rhs
    }

    fn less_eq(self, rhs: Self) -> (r: bool) {
        self <= rhs
    }

    fn len_bits(self) -> (r: Self) {
        proof {
            lemma_bits_u32(self, 0);
        }
        self & 0x7fff_ffff
    }

    fn heap_bits(self) -> (r: Self) {
        proof {
            lemma_bits_u32(self, 0);
        }
        self & 0x8000_0000
    }

    fn or_bits(self, rhs: Self) -> (r: Self) {
        proof {
            lemma_bits_u32(self, rhs);
        }
        self | rhs
    }
}

/// The bit identities behind the length-field masks of `u64`.
proof fn lemma_bits_u64(x: u64, y: u64)
    by (bit_vector)
    ensures
        x & 0x7fff_ffff_ffff_ffff == x % 0x8000_0000_0000_0000,
        x & 0x8000_0000_0000_0000 == (if x >= 0x8000_0000_0000_0000 { 0x8000_0000_0000_0000u64 } else { 0u64 }),
        (x == 0 || x == 0x8000_0000_0000_0000) && y < 0x8000_0000_0000_0000 ==> x | y == x + y,
{
}

impl ProvideLenTy for u64 {
    open spec fn val(self) -> nat {
        self as nat
    }

    open spec fn modulus() -> nat {
        0x1_0000_0000_0000_0000nat
    }

    proof fn lemma_val_bound(x: Self) {
    }

    proof fn lemma_modulus() {
        broadcast use vstd::layout::layout_of_primitives;
        assert(size_of::<u64>() == 8);
        assert(isize::MAX == 0x7fff_ffff || isize::MAX == 0x7fff_ffff_ffff_ffff);
    }

    fn zero() -> (r: Self) {
        0
    }

    fn one() -> (r: Self) {
        1
    }

    fn len_field_mask() -> (r: Self) {
        0x7fff_ffff_ffff_ffff
    }

    fn heap_field_mask() -> (r: Self) {
        0x8000_0000_0000_0000
    }

    fn max_safe_len() -> (r: Self) {
        Self::len_field_mask()
    }

    fn checked_add(self, rhs: Self) -> (r: Option<Self>) {
        u64::checked_add(self, rhs)
    }

    fn checked_sub(self, rhs: Self) -> (r: Option<Self>) {
        u64::checked_sub(self, rhs)
    }

    fn to_usize_lossy(self) -> (r: usize) {
        let r = self as usize;
        let x = self;
        assert(usize::BITS == 32 || usize::BITS == 64);
        if usize::BITS == 64 {
            assert(r as u64 == x) by (bit_vector)
                requires
                    r == x as usize,
                    usize::BITS == 64,
            ;
            assert(usize::MAX == 0xffff_ffff_ffff_ffff);
            proof {
                lemma_small_mod(x as nat, 0x1_0000_0000_0000_0000nat);
            }
        } else {
            assert(r as u64 == x % 0x1_0000_0000u64) by (bit_vector)
                requires
                    r == x as usize,
                    usize::BITS == 32,
            ;
            assert(usize::MAX == 0xffff_ffff);
        }
        r
    }

    fn from_usize_lossy(v: usize) -> (r: Self) {
        proof {
            lemma_small_mod(v as nat, Self::modulus());
        }
        v as u64
    }

    fn equals(self, rhs: Self) -> (r: bool) {
        self == rhs
    }

    fn less_eq(self, rhs: Self) -> (r: bool) {
        self <= rhs
    }

    fn len_bits(self) -> (r: Self) {
        proof {
            lemma_bits_u64(self, 0);
        }
        self & 0x7fff_ffff_ffff_ffff
    }

    fn heap_bits(self) -> (r: Self) {
        proof {
            lemma_bits_u64(self, 0);
        }
        self & 0x8000_0000_0000_0000
    }

    fn or_bits(self, rhs: Self) -> (r: Self) {
        proof {
            lemma_bits_u64(self, rhs);
        }
        self | rhs
    }
}

/// The bit identities behind the length-field masks of `u128`.
proof fn lemma_bits_u128(x: u128, y: u128)
    by (bit_vector)
    ensures
        x & 0x7fff_ffff_ffff_ffff_ffff_ffff_ffff_ffff == x % 0x8000_0000_0000_0000_0000_0000_0000_0000,
        x & 0x8000_0000_0000_0000_0000_0000_0000_0000 == (if x >= 0x8000_0000_0000_0000_0000_0000_0000_0000 { 0x8000_0000_0000_0000_0000_0000_0000_0000u128 } else { 0u128 }),
        (x == 0 || x == 0x8000_0000_0000_0000_0000_0000_0000_0000) && y < 0x8000_0000_0000_0000_0000_0000_0000_0000 ==> x | y == x + y,
{
}

impl ProvideLenTy for u128 {
    open spec fn val(self) -> nat {
        self as nat
    }

    open spec fn modulus() -> nat {
        0x1_0000_0000_0000_0000_0000_0000_0000_0000nat
    }

    proof fn lemma_val_bound(x: Self) {
    }

    proof fn lemma_modulus() {
        broadcast use vstd::layout::layout_of_primitives;
        assert(size_of::<u128>() == 16);
        assert(isize::MAX == 0x7fff_ffff || isize::MAX == 0x7fff_ffff_ffff_ffff);
    }

    fn zero() -> (r: Self) {
        0
    }

    fn one() -> (r: Self) {
        1
    }

    fn len_field_mask() -> (r: Self) {
        0x7fff_ffff_ffff_ffff_ffff_ffff_ffff_ffff
    }

    fn heap_field_mask() -> (r: Self) {
        0x8000_0000_0000_0000_0000_0000_0000_0000
    }

    fn max_safe_len() -> (r: Self) {
        Self::len_field_mask()
    }

    fn checked_add(self, rhs: Self) -> (r: Option<Self>) {
        u128::checked_add(self, rhs)
    }

    fn checked_sub(self, rhs: Self) -> (r: Option<Self>) {
        u128::checked_sub(self, rhs)
    }

    fn to_usize_lossy(self) -> (r: usize) {
        let r = self as usize;
        let x = self;
        assert(usize::BITS == 32 || usize::BITS == 64);
        if usize::BITS == 64 {
            assert(r as u128 == x % 0x1_0000_0000_0000_0000u128) by (bit_vector)
                requires
                    r == x as usize,
                    usize::BITS == 64,
            ;
            assert(usize::MAX == 0xffff_ffff_ffff_ffff);
        } else {
            assert(r as u128 == x % 0x1_0000_0000u128) by (bit_vector)
                requires
                    r == x as usize,
                    usize::BITS == 32,
            ;
            assert(usize::MAX == 0xffff_ffff);
        }
        r
    }

    fn from_usize_lossy(v: usize) -> (r: Self) {
        proof {
            lemma_small_mod(v as nat, Self::modulus());
        }
        v as u128
    }

    fn equals(self, rhs: Self) -> (r: bool) {
        self == rhs
    }

    fn less_eq(self, rhs: Self) -> (r: bool) {
        self <= rhs
    }

    fn len_bits(self) -> (r: Self) {
        proof {
            lemma_bits_u128(self, 0);
        }
        self & 0x7fff_ffff_ffff_ffff_ffff_ffff_ffff_ffff
    }

    fn heap_bits(self) -> (r: Self) {
        proof {
            lemma_bits_u128(self, 0);
        }
        self & 0x8000_0000_0000_0000_0000_0000_0000_0000
    }

    fn or_bits(self, rhs: Self) -> (r: Self) {
        proof {
            lemma_bits_u128(self, rhs);
        }
        self | rhs
    }
}

/// The bit identities behind the length-field masks of `usize`, with the
/// all-ones word written `!0usize`.
proof fn lemma_bits_usize(x: usize, y: usize)
    by (bit_vector)
    ensures
        ((!0usize) >> 1u32) as int == ((!0usize) as int + 1) / 2 - 1,
        (!((!0usize) >> 1u32)) as int == ((!0usize) as int + 1) / 2,
        (x & ((!0usize) >> 1u32)) as int == x as int % (((!0usize) as int + 1) / 2),
        (x & !((!0usize) >> 1u32)) as int == (if x as int >= ((!0usize) as int + 1) / 2 {
            ((!0usize) as int + 1) / 2
        } else {
            0
        }),
        (x as int == 0 || x as int == ((!0usize) as int + 1) / 2) && (y as int) < ((!0usize) as int + 1) / 2
            ==> (x | y) as int == x as int + y as int,
{
}

/// Every bit of a `usize` set is `usize::MAX`, on either pointer width.
proof fn lemma_usize_all_ones()
    ensures
        !0usize == usize::MAX,
        usize::MAX == 0xffff_ffff || usize::MAX == 0xffff_ffff_ffff_ffff,
{
    assert(usize::BITS == 64 ==> (!0usize) as u64 == 0xffff_ffff_ffff_ffffu64) by (bit_vector);
    assert(usize::BITS == 32 ==> (!0usize) as u64 == 0xffff_ffffu64) by (bit_vector);
}

impl ProvideLenTy for usize {
    open spec fn val(self) -> nat {
        self as nat
    }

    open spec fn modulus() -> nat {
        usize::MAX as nat + 1
    }

    proof fn lemma_val_bound(x: Self) {
    }

    proof fn lemma_modulus() {
        broadcast use vstd::layout::layout_of_primitives;
        assert(size_of::<usize>() * 8 == usize::BITS);
        lemma_usize_all_ones();
    }

    fn zero() -> (r: Self) {
        0
    }

    fn one() -> (r: Self) {
        1
    }

    fn len_field_mask() -> (r: Self) {
        proof {
            lemma_usize_all_ones();
            lemma_bits_usize(0, 0);
        }
        usize::MAX >> 1u32
    }

    fn heap_field_mask() -> (r: Self) {
        proof {
            lemma_usize_all_ones();
            lemma_bits_usize(0, 0);
        }
        !(usize::MAX >> 1u32)
    }

    fn max_safe_len() -> (r: Self) {
        Self::len_field_mask()
    }

    fn checked_add(self, rhs: Self) -> (r: Option<Self>) {
        usize::checked_add(self, rhs)
    }

    fn checked_sub(self, rhs: Self) -> (r: Option<Self>) {
        usize::checked_sub(self, rhs)
    }

    fn to_usize_lossy(self) -> (r: usize) {
        proof {
            lemma_small_mod(self as nat, Self::modulus());
        }
        self
    }

    fn from_usize_lossy(v: usize) -> (r: Self) {
        proof {
            lemma_small_mod(v as nat, Self::modulus());
        }
        v
    }

    fn equals(self, rhs: Self) -> (r: bool) {
        self == rhs
    }

    fn less_eq(self, rhs: Self) -> (r: bool) {
        self <= rhs
    }

    fn len_bits(self) -> (r: Self) {
        proof {
            lemma_usize_all_ones();
            lemma_bits_usize(self, 0);
        }
        self & (usize::MAX >> 1u32)
    }

    fn heap_bits(self) -> (r: Self) {
        proof {
            lemma_usize_all_ones();
            lemma_bits_usize(self, 0);
        }
        self & !(usize::MAX >> 1u32)
    }

    fn or_bits(self, rhs: Self) -> (r: Self) {
        proof {
            lemma_usize_all_ones();
            lemma_bits_usize(self, rhs);
        }
        self | rhs
    }
}

} // verus!
