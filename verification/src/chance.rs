//! The one source of chance in the game.

use vstd::prelude::*;
use rand::Rng;

verus! {

/// Draws a number with `rand::thread_rng().gen_range(low..high)`.
///
/// `gen_range` panics on an empty range, which the precondition leaves out,
/// and returns a value of the half-open range. Which value comes back is up
/// to the generator, so nothing else is claimed of it. The generator of the
/// thread is seeded by the operating system on its first use and panics
/// where that fails.
#[verifier::external_body]
pub(crate) fn random_in_range(low: i64, high: i64) -> (drawn: i64)
    requires
        low < high,
    ensures
        low <= drawn < high,
{
    rand::thread_rng().gen_range(low..high)
}

} // verus!
