//! The one place the simulation draws randomness: uniform samples below a
//! bound, used for spawn positions and for the exploration behaviour of
//! the reference policy.

use vstd::prelude::*;

verus! {

/// Relies on rand::random_range over the half-open integer range `0..n`:
/// it returns a uniform sample from that range, so the result is always
/// below `n`. The range must be non-empty, hence `n` at least one (the
/// call panics on an empty range, and may panic if the operating system
/// cannot seed the generator on first use in a thread).
#[verifier::external_body]
pub(crate) fn rand_below(n: u64) -> (r: u64)
    requires
        1 <= n,
    ensures
        r < n,
{
    rand::random_range(0..n)
}

} // verus!
