use std::ops::Deref;
use std::ops::DerefMut;

use concise_vec::ConciseVec;

struct CacheAlign<T>(T);

impl<T> Deref for CacheAlign<T> {
    type Target = T;

    fn deref(&self) -> &Self::Target {
        &self.0
    }
}

impl<T> DerefMut for CacheAlign<T> {
    fn deref_mut(&mut self) -> &mut Self::Target {
        &mut self.0
    }
}

#[test]
fn concise_vec() {
    let mut cache_vec = CacheAlign(ConciseVec::<u32, u8, 64, false>::new());
    println!(
        "Len: {}, Capacity: {}",
        cache_vec.len(),
        cache_vec.capacity()
    );
    let mut i = 0;
    while let Ok(x) = cache_vec.push(i) {
        println!("Pushed: {x}");
        i += 1;
    }

    println!(
        "Len: {}, Capacity: {}",
        cache_vec.len(),
        cache_vec.capacity()
    );

    for item in cache_vec.iter() {
        println!("Item: {item}");
    }

    for item in cache_vec.iter_mut() {
        *item += 1;
    }

    // reverse
    cache_vec.sort_by(|a, b| b.cmp(a));

    for item in cache_vec.iter() {
        println!("Item: {item}");
    }
}
