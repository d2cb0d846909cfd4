use vstd::prelude::*;

verus! {

/// Draws from `fastrand::i32` over the half-open range `low..high` of the
/// thread's generator. Believed, not proved: the draw lies in that range.
/// Nothing else is claimed of it, and two draws may differ.
#[verifier::external_body]
pub(crate) fn random_in(low: i32, high: i32) -> (r: i32)
    requires
        low < high,
    ensures
        low <= r < high,
{
    fastrand::i32(low..high)
}

} // verus!
