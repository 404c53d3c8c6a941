# concise_vec

A vector laid out for a fixed budget of `BYTE_CAP` bytes.
`ConciseVec<T, LenTy, BYTE_CAP, HEAP_ALLOWED>` reserves the last `LenTy`-aligned
slot of those bytes for its length and counts how many elements fit in the bytes
before it, one stride of `T` (the larger of its size and alignment) each. A push
that does not fit hands the value back. Only the in-line mode
(`HEAP_ALLOWED = false`) exists.

The library is written in Verus. The layout arithmetic is proved: the element
slots end before the length field, which sits on a `LenTy`-aligned offset within
`BYTE_CAP`. The element slots themselves are kept in a `Vec` and a `VecDeque`
rather than in raw in-line bytes, because safe, verified code cannot reinterpret
a byte buffer. So the vector allocates, and the `no_std`, allocation-free layout
is a figure the proofs compute, not how values are stored. The slots after the
elements are modelled too, so `set_len` can grow back over values it left in
place. As with raw storage, such a value is never dropped: a later push writes
over it and the vector abandons it when dropped, while `truncate` and `clear`
drop the cut-off elements first to last.

- `src/concise_vec.rs`: the vector, its layout figures and its operations.
- `src/lenfield.rs`, `src/heap_strategy_provider.rs`: the length field and how
  it packs a length (and, for heap-capable fields, a heap flag) into one integer.
- `src/lenty_provide.rs`: the six unsigned integer types usable as lengths.
- `src/raw_data.rs`, `src/into_iter.rs`, `src/stp.rs`: slot storage, draining
  iterator, and size/alignment/stride of a type.
- `src/std_slices.rs`: trusted wrappers for the two std calls Verus has no
  description of, `<[T]>::iter_mut` and `<Vec<T> as AsMut<[T]>>::as_mut`. Their
  contracts are assumed, not proved.

Every other function in `src/` is verified against its contract. The exception
is the `IntoIterator` impl for `&mut ConciseVec`: Verus refuses any `ensures`
there, because the method shares its name with the inherent
`ConciseVec::into_iter(&mut self)`. Its body is still checked.
