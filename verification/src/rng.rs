//! The one source of randomness: a bounded sample drawn from the thread-local
//! generator of the `rand` crate.

use vstd::prelude::*;

verus! {

/// Relies on `rand::Rng::gen_range` over the inclusive range `lo..=hi`, via
/// `rand::thread_rng`: the sample lies within the given bounds. The range is
/// non-empty by the precondition, so the call does not panic. Nothing more is
/// assumed of the value: callers hold for every outcome.
#[verifier::external_body]
pub(crate) fn sample_in_range(lo: i64, hi: i64) -> (r: i64)
    requires
        lo <= hi,
    ensures
        lo <= r <= hi,
{
    rand::Rng::gen_range(&mut rand::thread_rng(), lo..=hi)
}

} // verus!
