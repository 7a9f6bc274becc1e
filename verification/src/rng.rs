use vstd::prelude::*;

use rand::Rng;

verus! {

/// Relies on `rand::Rng::gen_range` over the thread-local generator
/// `rand::thread_rng()`: it returns a uniformly drawn integer inside the
/// given range and panics only when the range is empty, which the
/// precondition rules out. Nothing beyond the bound is assumed of the draw.
#[verifier::external_body]
pub(crate) fn rand_below(bound: u64) -> (r: u64)
    requires
        bound > 0,
    ensures
        r < bound,
{
    rand::thread_rng().gen_range(0..bound)
}

} // verus!
