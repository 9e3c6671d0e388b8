use vstd::prelude::*;

verus! {

/// A random integer in `[min, max)`.
///
/// Calls `rand::Rng::gen_range` on `rand::thread_rng()` with the half-open
/// range `min..max`. The contract claims what that function documents: the
/// value lies in the range, and the call panics on an empty range, which
/// `requires` leaves out. Nothing is claimed of the distribution.
#[verifier::external_body]
pub fn random_range(min: usize, max: usize) -> (r: usize)
    requires
        min < max,
    ensures
        min <= r < max,
{
    rand::Rng::gen_range(&mut rand::thread_rng(), min..max)
}

} // verus!
