//! Data-parallel map over an index range.
use rayon::iter::{IntoParallelIterator, ParallelIterator};
use vstd::prelude::*;

verus! {

/// Relies on rayon's `into_par_iter().map(..).collect()` over `0..n`: the range
/// is an indexed parallel iterator, so the collected vector holds `f(i)` at
/// position `i`, for every `i < n`, whatever the scheduling.
#[verifier::external_body]
pub(crate) fn par_map_range<T: Send, F: Fn(usize) -> T + Sync + Send>(n: usize, f: F) -> (r: Vec<T>)
    requires
        forall|i: usize| i < n ==> f.requires((i,)),
    ensures
        r@.len() == n,
        forall|i: int| 0 <= i < n ==> f.ensures((i as usize,), #[trigger] r@[i]),
{
    (0..n).into_par_iter().map(f).collect()
}

} // verus!
