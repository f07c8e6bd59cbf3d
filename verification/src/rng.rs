use rand::Rng;
use vstd::prelude::*;

verus! {

/// Relies on `rand::thread_rng` and `rand::Rng::gen_range` on a half-open
/// range of `usize`: the result is drawn from the range, which must not be
/// empty (an empty range panics). Nothing more is assumed of the draw; every
/// caller is verified for every value the range admits.
#[verifier::external_body]
pub(crate) fn random_in_range(lo: usize, hi: usize) -> (r: usize)
    requires
        lo < hi,
    ensures
        lo <= r < hi,
{
    rand::thread_rng().gen_range(lo..hi)
}

} // verus!
