use rand::Rng;
use vstd::prelude::*;

verus! {

/// Relies on rand's `Rng::gen_range(low, high)` over `thread_rng()`: a value
/// drawn from `[low, high)`; it panics when `low >= high`.
#[verifier::external_body]
pub(crate) fn random_below(high: u8) -> (r: u8)
    requires
        0 < high,
    ensures
        r < high,
{
    rand::thread_rng().gen_range(0u8, high)
}

} // verus!
