//! Access to the wall clock. The decision functions all take the current time
//! as an argument and are verified for every value of it; this module only
//! reads the clock.

use vstd::prelude::*;

verus! {

/// Relies on chrono::Local::now and chrono::DateTime::timestamp: the current
/// local time as seconds since the Unix epoch. The result depends on the
/// wall clock, so nothing is promised of it.
#[verifier::external_body]
pub(crate) fn now_epoch_seconds() -> i64 {
    chrono::Local::now().timestamp()
}

} // verus!
