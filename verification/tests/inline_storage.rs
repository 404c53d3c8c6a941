use concise_vec::{ConciseVec, HeapDisabled, HeapEnabled, LenField, ProvideLenTy, PushProvider, SizedTP};

type Small = ConciseVec<u32, u8, 64, false>;

fn filled() -> Small {
    let mut v = Small::new();
    let mut i = 0u32;
    while v.push(i).is_ok() {
        i += 1;
    }
    v
}

#[test]
fn capacity_counts_elements_before_len_field() {
    // 64 bytes, the last byte holds the u8 length: 63 bytes of 4-byte elements.
    let v = Small::new();
    assert_eq!(v.capacity(), 15);
    assert_eq!(v.len(), 0);
    assert!(v.is_empty());
}

#[test]
fn push_fills_exactly_to_capacity() {
    let mut v = filled();
    assert_eq!(v.len(), 15);
    assert!(!v.is_empty());
    assert!(!v.is_next_write_within_inline_bounds());
    assert_eq!(v.as_slice(), &[0, 1, 2, 3, 4, 5, 6, 7, 8, 9, 10, 11, 12, 13, 14]);
    assert_eq!(v.push(99), Err(99));
    assert_eq!(v.len(), 15);
}

#[test]
fn push_returns_reference_to_stored_value() {
    let mut v = Small::new();
    assert!(v.is_next_write_within_inline_bounds());
    match v.push(5) {
        Ok(r) => {
            assert_eq!(*r, 5);
            *r = 6;
        }
        Err(_) => panic!("room was left"),
    }
    assert_eq!(v.as_slice(), &[6]);
}

#[test]
fn push_through_provider() {
    let mut v = Small::new();
    let r = <() as PushProvider<u32, u8, 64, false>>::push(&mut v, 3);
    assert_eq!(r, Ok(&mut 3));
    assert_eq!(v.len(), 1);
}

#[test]
fn length_type_limits_pushes() {
    // 511 one-byte elements fit, but a u8 length counts only to 255.
    let mut v = ConciseVec::<u8, u8, 512, false>::new();
    assert_eq!(v.capacity(), 511);
    let mut n = 0usize;
    while v.push(1).is_ok() {
        n += 1;
    }
    assert_eq!(n, 255);
    assert_eq!(v.len(), 255);
    assert!(v.is_next_write_within_inline_bounds());
    assert_eq!(v.push(2), Err(2));
}

#[test]
fn wider_length_type_takes_aligned_slot() {
    let v = ConciseVec::<u8, u16, 16, false>::new();
    // the u16 length sits at byte 14
    assert_eq!(v.capacity(), 14);
    let w = ConciseVec::<(), u8, 16, false>::new();
    // zero-sized elements still take one byte each
    assert_eq!(w.capacity(), 15);
}

#[test]
fn pop_takes_last_and_none_when_empty() {
    let mut v = Small::new();
    assert_eq!(v.pop(), None);
    v.push(1).unwrap();
    v.push(2).unwrap();
    assert_eq!(v.pop(), Some(2));
    assert_eq!(v.len(), 1);
    assert_eq!(v.pop(), Some(1));
    assert_eq!(v.pop(), None);
    assert!(v.is_empty());
}

#[test]
fn pop_undoes_push() {
    let mut v = filled();
    let before: Vec<u32> = v.as_slice().to_vec();
    v.pop();
    let len_before = v.len();
    v.push(42).unwrap();
    assert_eq!(v.pop(), Some(42));
    assert_eq!(v.len(), len_before);
    assert_eq!(v.as_slice(), &before[..14]);
}

#[test]
fn truncate_keeps_prefix() {
    let mut v = filled();
    v.truncate(20);
    assert_eq!(v.len(), 15);
    v.truncate(15);
    assert_eq!(v.len(), 15);
    v.truncate(4);
    assert_eq!(v.as_slice(), &[0, 1, 2, 3]);
    v.truncate(0);
    assert!(v.is_empty());
}

#[test]
fn set_len_shortens() {
    let mut v = filled();
    v.set_len(3);
    assert_eq!(v.as_slice(), &[0, 1, 2]);
    v.set_len(3);
    assert_eq!(v.len(), 3);
    v.push(9).unwrap();
    assert_eq!(v.as_slice(), &[0, 1, 2, 9]);
}

#[test]
fn set_len_regrows_over_kept_values() {
    let mut v = filled();
    v.set_len(3);
    assert_eq!(v.as_slice(), &[0, 1, 2]);
    v.set_len(6);
    assert_eq!(v.as_slice(), &[0, 1, 2, 3, 4, 5]);
    v.set_len(15);
    assert_eq!(v.len(), 15);
    assert_eq!(v.as_slice()[14], 14);
    v.set_len(2);
    v.push(7).unwrap();
    v.set_len(4);
    assert_eq!(v.as_slice(), &[0, 1, 7, 3]);
}

#[test]
fn clear_empties() {
    let mut v = filled();
    v.clear();
    assert!(v.is_empty());
    assert_eq!(v.as_slice(), &[] as &[u32]);
    v.clear();
    assert_eq!(v.len(), 0);
    assert!(v.push(1).is_ok());
}

#[test]
fn into_iter_yields_in_order_and_empties() {
    let mut v = Small::new();
    for x in [10u32, 20, 30] {
        v.push(x).unwrap();
    }
    let mut it = ConciseVec::into_iter(&mut v);
    assert_eq!(it.len(), 3);
    assert_eq!(it.next(), Some(10));
    assert_eq!(it.next(), Some(20));
    assert_eq!(it.next(), Some(30));
    assert_eq!(it.next(), None);
    assert_eq!(it.len(), 0);
    assert!(v.is_empty());
}

#[test]
fn iter_mut_and_slices_write_through() {
    let mut v = filled();
    for item in v.iter_mut() {
        *item *= 2;
    }
    v.as_mut_slice()[0] = 100;
    let collected: Vec<u32> = v.iter().copied().collect();
    assert_eq!(collected[0], 100);
    assert_eq!(collected[14], 28);
    let mut sum = 0u32;
    for x in &v {
        sum += *x;
    }
    assert_eq!(sum, 100 + (1..15).map(|k| 2 * k).sum::<u32>());
    for x in &mut v {
        *x = 1;
    }
    assert!(v.iter().all(|x| *x == 1));
    v.sort_by(|a, b| b.cmp(a));
    assert_eq!(v.len(), 15);
}

#[test]
fn sort_through_deref_reverses() {
    let mut v = filled();
    for item in v.iter_mut() {
        *item += 1;
    }
    v.sort_by(|a, b| b.cmp(a));
    assert_eq!(v.as_slice(), &[15, 14, 13, 12, 11, 10, 9, 8, 7, 6, 5, 4, 3, 2, 1]);
}

#[test]
fn well_formedness_check_matches_layout() {
    assert!(Small::well_formedness_check());
    // a u64 length does not fit in 4 bytes
    assert!(!ConciseVec::<u32, u64, 4, false>::well_formedness_check());
    // a heap-capable layout needs a pointer, a length and a capacity
    assert!(!ConciseVec::<u32, u8, 16, true>::well_formedness_check());
    assert!(ConciseVec::<u32, u8, 64, true>::well_formedness_check());
    if usize::BITS == 64 {
        // three words fill all 24 bytes, leaving no room for the length byte
        assert!(!ConciseVec::<u32, u8, 24, true>::well_formedness_check());
        assert!(ConciseVec::<u32, u8, 32, true>::well_formedness_check());
    }
}

#[test]
fn try_new_refuses_unsound_layouts() {
    assert!(Small::try_new().is_some());
    assert!(ConciseVec::<u32, u64, 4, false>::try_new().is_none());
    // not a whole number of pointer-sized words
    assert!(ConciseVec::<u8, u8, 63, false>::try_new().is_none());
    // only the in-line mode exists
    assert!(ConciseVec::<u32, u8, 64, true>::try_new().is_none());
}

#[test]
fn len_field_without_heap_uses_whole_integer() {
    let mut f = LenField::<u8, false>::new();
    assert_eq!(f.get_len(), 0);
    assert!(!f.get_is_heap());
    f.set_len(200);
    assert_eq!(f.get_len(), 200);
    assert!(!f.get_is_heap());
}

#[test]
fn len_field_with_heap_packs_flag_and_length() {
    let mut f = LenField::<u8, true>::new();
    assert_eq!(f.get_len(), 0);
    assert!(!f.get_is_heap());
    f.set_len(100);
    assert_eq!(f.get_len(), 100);
    f.set_is_heap(true);
    assert!(f.get_is_heap());
    assert_eq!(f.get_len(), 100);
    f.set_len(200);
    assert_eq!(f.get_len(), 127);
    assert!(f.get_is_heap());
    f.set_is_heap(false);
    assert!(!f.get_is_heap());
    assert_eq!(f.get_len(), 127);
}

#[test]
fn heap_strategies_on_raw_values() {
    assert_eq!(HeapDisabled::get_len(0xffu8), 0xff);
    assert!(!HeapDisabled::get_is_heap(0xffu8));
    let mut d = 3u16;
    HeapDisabled::set_len(&mut d, 0xffff);
    assert_eq!(d, 0xffff);

    assert_eq!(HeapEnabled::get_len(0xffu8), 0x7f);
    assert!(HeapEnabled::get_is_heap(0x80u8));
    assert!(!HeapEnabled::get_is_heap(0x7fu8));
    let mut e = 0x85u8;
    HeapEnabled::set_len(&mut e, 9);
    assert_eq!(e, 0x89);
    HeapEnabled::set_len(&mut e, 0xf0);
    assert_eq!(e, 0xff);
    HeapEnabled::set_is_heap(&mut e, false);
    assert_eq!(e, 0x7f);
    let mut w = 7u64;
    HeapEnabled::set_is_heap(&mut w, true);
    assert_eq!(w, 0x8000_0000_0000_0007);
    assert_eq!(HeapEnabled::get_len(w), 7);
}

#[test]
fn len_types_convert_and_compare() {
    assert_eq!(u8::from_usize_lossy(300), 44);
    assert_eq!(200u8.to_usize_lossy(), 200);
    assert_eq!(u128::from_usize_lossy(7), 7);
    assert_eq!(ProvideLenTy::checked_add(255u8, 1), None);
    assert_eq!(ProvideLenTy::checked_add(254u8, 1), Some(255));
    assert_eq!(ProvideLenTy::checked_sub(0u16, 1), None);
    assert_eq!(<u32 as ProvideLenTy>::len_field_mask(), 0x7fff_ffff);
    assert_eq!(<u32 as ProvideLenTy>::heap_field_mask(), 0x8000_0000);
    assert_eq!(<usize as ProvideLenTy>::max_safe_len(), usize::MAX >> 1);
    assert_eq!(0x1234u16.len_bits(), 0x1234);
    assert_eq!(0x9234u16.heap_bits(), 0x8000);
    assert_eq!(0x8000u16.or_bits(0x34), 0x8034);
    assert!(5u8.less_eq(5));
    assert!(!6u8.less_eq(5));
    assert!(ProvideLenTy::equals(9usize, 9));
}

#[test]
fn sized_figures() {
    assert_eq!(<u32 as SizedTP>::size(), 4);
    assert_eq!(<u32 as SizedTP>::stride(), 4);
    assert_eq!(<() as SizedTP>::size(), 0);
    assert_eq!(<() as SizedTP>::stride(), 1);
    assert!(<() as SizedTP>::is_zst());
    assert!(!<u8 as SizedTP>::is_zst());
    assert_eq!(<(u8, u32) as SizedTP>::stride(), 8);
}
