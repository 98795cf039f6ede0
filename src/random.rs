//! Draws from the process-wide pseudo-random source.
use vstd::prelude::*;
use rand::Rng;

verus! {

/// Relies on rand's `thread_rng().gen_range(low, high)`: a value drawn
/// uniformly from `low..high`; it panics when `low >= high`.
#[verifier::external_body]
pub(crate) fn random_in(low: u32, high: u32) -> (r: u32)
    requires
        low < high,
    ensures
        low <= r < high,
{
    rand::thread_rng().gen_range(low, high)
}

/// Relies on `rand::random::<bool>()`: a fair coin flip.
#[verifier::external_body]
pub(crate) fn coin() -> (r: bool) {
    rand::random::<bool>()
}

} // verus!
