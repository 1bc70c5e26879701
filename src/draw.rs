//! Random draws from the thread-local generator.

use vstd::prelude::*;
use rand::Rng;

verus! {

/// Relies on `rand::thread_rng` and `Rng::gen::<u64>`: any `u64` may come back.
#[verifier::external_body]
pub(crate) fn draw_u64() -> (r: u64) {
    rand::thread_rng().gen::<u64>()
}

/// Relies on `rand::thread_rng` and `Rng::gen_range(low..high)`: a value in the
/// half-open range; it panics on an empty range.
#[verifier::external_body]
pub(crate) fn draw_in_range(low: u64, high: u64) -> (r: u64)
    requires
        low < high,
    ensures
        low <= r < high,
{
    rand::thread_rng().gen_range(low..high)
}

} // verus!
