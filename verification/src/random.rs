//! Random numbers, drawn from the generator of the `fastrand` crate.

use vstd::prelude::*;

verus! {

/// Calls `fastrand::u64` on the range from `low` up to, and without, `high`.
/// The number that comes back lies in that range; nothing else is known of
/// it. The outside function panics on an empty range, which `requires`
/// leaves out.
#[verifier::external_body]
pub(crate) fn random_u64(low: u64, high: u64) -> (r: u64)
    requires
        low < high,
    ensures
        low <= r < high,
{
    fastrand::u64(low..high)
}

/// Calls `fastrand::u128` on the range from `low` up to, and without,
/// `high`. The number that comes back lies in that range; nothing else is
/// known of it. The outside function panics on an empty range, which
/// `requires` leaves out.
#[verifier::external_body]
pub(crate) fn random_u128(low: u128, high: u128) -> (r: u128)
    requires
        low < high,
    ensures
        low <= r < high,
{
    fastrand::u128(low..high)
}

} // verus!
