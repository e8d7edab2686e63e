//! The library's one source of randomness.

use vstd::prelude::*;

verus! {

/// Draws an integer from the closed interval `low ..= high`.
///
/// Trusted, not proved.  The body calls `rand::Rng::gen_range` with the
/// inclusive range `low..=high` on the thread-local generator that
/// `rand::thread_rng` hands out.  For integers that method returns `low`
/// plus an offset below `high - low + 1`, hence a value inside the interval;
/// it panics on an empty range, which the precondition rules out.  Nothing
/// is claimed about which value comes back: two calls with the same bounds
/// may differ.  The generator is seeded from the operating system on first
/// use in a thread and panics if that entropy source is unavailable.
#[verifier::external_body]
pub(crate) fn random_in_range(low: u64, high: u64) -> (drawn: u64)
    requires
        low <= high,
    ensures
        low <= drawn <= high,
{
    rand::Rng::gen_range(&mut rand::thread_rng(), low..=high)
}

} // verus!
