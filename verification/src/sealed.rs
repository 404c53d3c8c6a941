//! Keeps the set of length types closed to the six unsigned integers.

use vstd::prelude::*;

verus! {

/// Implemented exactly by the unsigned integer types that can count elements.
pub trait Sealed {}

impl Sealed for u8 {}

impl Sealed for u16 {}

impl Sealed for u32 {}

impl Sealed for u64 {}

impl Sealed for u128 {}

impl Sealed for usize {}

} // verus!
