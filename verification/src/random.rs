//! The one source of chance in the animation.

use vstd::prelude::*;

verus! {

/// Draws an integer from the half-open range `low..high` by calling
/// `rand::Rng::gen_range` on the generator that `rand::thread_rng` hands out.
///
/// Not proved: that the value lies in the requested range, which is what
/// `gen_range` documents for a `low..high` range. `gen_range` panics on an
/// empty range, so callers must pass `low < high`. Nothing is claimed about
/// which value of the range comes back, and two calls may differ.
/// `thread_rng` panics if the operating system cannot seed the generator;
/// no argument decides that.
#[verifier::external_body]
pub(crate) fn random_in(low: u16, high: u16) -> (value: u16)
    requires
        low < high,
    ensures
        low <= value < high,
{
    rand::Rng::gen_range(&mut rand::thread_rng(), low..high)
}

} // verus!
