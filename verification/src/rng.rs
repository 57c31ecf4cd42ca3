use vstd::prelude::*;

verus! {

/// Relies on rand's `Rng::gen_range` over `low..high`: the sample is drawn
/// from within the half-open range, and the call panics only on an empty
/// range, which the precondition rules out.
#[verifier::external_body]
pub(crate) fn rand_range_i32(low: i32, high: i32) -> (r: i32)
    requires
        low < high,
    ensures
        low <= r < high,
{
    rand::Rng::gen_range(&mut rand::thread_rng(), low..high)
}

} // verus!
