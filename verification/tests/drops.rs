use std::cell::RefCell;
use std::rc::Rc;

use concise_vec::ConciseVec;

struct Noisy {
    id: u32,
    log: Rc<RefCell<Vec<u32>>>,
}

impl Drop for Noisy {
    fn drop(&mut self) {
        self.log.borrow_mut().push(self.id);
    }
}

type NoisyVec = ConciseVec<Noisy, u8, 128, false>;

fn noisy_vec(log: &Rc<RefCell<Vec<u32>>>, n: u32) -> NoisyVec {
    let mut v = NoisyVec::new();
    for id in 0..n {
        assert!(v.push(Noisy { id, log: log.clone() }).is_ok());
    }
    v
}

#[test]
fn truncate_drops_first_to_last() {
    let log = Rc::new(RefCell::new(Vec::new()));
    let mut v = noisy_vec(&log, 5);
    v.truncate(2);
    assert_eq!(*log.borrow(), vec![2, 3, 4]);
    v.clear();
    assert_eq!(*log.borrow(), vec![2, 3, 4, 0, 1]);
}

#[test]
fn set_len_leaves_values_undropped() {
    let log = Rc::new(RefCell::new(Vec::new()));
    let mut v = noisy_vec(&log, 4);
    v.set_len(1);
    assert!(log.borrow().is_empty());
    // writing over a slot a value was left in does not drop that value
    assert!(v.push(Noisy { id: 9, log: log.clone() }).is_ok());
    assert!(log.borrow().is_empty());
    v.set_len(4);
    assert_eq!(v.iter().map(|x| x.id).collect::<Vec<u32>>(), vec![0, 9, 2, 3]);
    v.set_len(2);
    drop(v);
    // only the elements are dropped with the vector
    assert_eq!(*log.borrow(), vec![0, 9]);
}

#[test]
fn default_and_capacity_of() {
    let v: ConciseVec<u32, u8, 64, false> = Default::default();
    assert!(v.is_empty());
    assert_eq!(ConciseVec::<u32, u8, 64, false>::capacity_of(), 15);
    assert_eq!(ConciseVec::<u64, u16, 32, false>::capacity_of(), 3);
}
