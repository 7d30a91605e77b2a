//! The crate's two doors to the `rand` crate. Everything downstream of
//! a draw is verified for every value the contracts here admit.

use vstd::prelude::*;
use rand::Rng;

verus! {

/// Relies on rand's `Rng::gen_range` on the thread-local generator:
/// a draw uniform over `[lo, hi)`, panicking only on an empty range.
#[verifier::external_body]
pub(crate) fn rand_range(lo: i64, hi: i64) -> (r: i64)
    requires
        lo < hi,
    ensures
        lo <= r < hi,
{
    rand::thread_rng().gen_range(lo..hi)
}

/// Relies on rand's `Rng::gen_ratio` on the thread-local generator:
/// true with probability `num / den`, panicking only if `den` is zero
/// or `num` exceeds `den`. Nothing is promised of the outcome.
#[verifier::external_body]
pub(crate) fn rand_ratio(num: u32, den: u32) -> (r: bool)
    requires
        1 <= den,
        num <= den,
{
    rand::thread_rng().gen_ratio(num, den)
}

} // verus!
