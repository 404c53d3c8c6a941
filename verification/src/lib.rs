//! A vector whose capacity is figured from a budget of `BYTE_CAP` bytes: the
//! last `LenTy`-aligned slot of the budget is the length field (an unsigned
//! integer that may also carry a flag for elements moved to the heap), and the
//! elements are counted against the bytes before it. The element slots are
//! kept in a `Vec` and a `VecDeque`, not in the budget's bytes.

mod concise_vec;
mod heap_strategy_provider;
mod into_iter;
mod lenfield;
mod lenty_provide;
mod raw_data;
mod sealed;
mod std_slices;
mod stp;

pub use concise_vec::{ConciseVec, PushProvider};
pub use heap_strategy_provider::{HeapDisabled, HeapEnabled};
pub use into_iter::IntoIter;
pub use lenfield::LenField;
pub use lenty_provide::ProvideLenTy;
pub use stp::SizedTP;
