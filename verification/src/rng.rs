use vstd::prelude::*;

use rand::Rng;

verus! {

/// Relies on rand's `thread_rng` and `Rng::gen_range`: returns a value
/// drawn uniformly from `0..bound`. `gen_range` panics only on an empty
/// range, which the precondition excludes; nothing more is assumed of the
/// draw than its bound.
#[verifier::external_body]
pub(crate) fn random_below(bound: usize) -> (r: usize)
    requires
        bound > 0,
    ensures
        r < bound,
{
    rand::thread_rng().gen_range(0..bound)
}

} // verus!
