//! Access to the random number generator used for jitter, backoff, and the
//! default account-name prefix.

use vstd::prelude::*;

verus! {

/// Relies on fastrand::u64: a draw from the thread-local generator within the
/// inclusive range. Only the bounds are promised; the value itself is random.
#[verifier::external_body]
pub(crate) fn random_in_range(lo: u64, hi: u64) -> (r: u64)
    requires
        lo <= hi,
    ensures
        lo <= r <= hi,
{
    fastrand::u64(lo..=hi)
}

/// Relies on fastrand::bool: a coin flip.
#[verifier::external_body]
pub(crate) fn random_bool() -> bool {
    fastrand::bool()
}

} // verus!
