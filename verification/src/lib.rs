//! Automation core for a per-account game task scheduler: given a snapshot of
//! one character's state and that character's configuration, decide the single
//! next action, guard the exclusive session handle, queue actions that cannot
//! be sent yet, and compute the delay before the next decision tick.

use vstd::prelude::*;

pub mod accounts;
pub mod automation;
pub mod clock;
pub mod command;
pub mod config;
pub mod engine;
pub mod missions;
pub mod queue;
pub mod rng;
pub mod scheduler;
pub mod session;
pub mod snapshot;

verus! {

/// A bulk action applied to every selected account in the overview.
#[derive(Debug, Clone, Copy, PartialEq, Eq, Structural)]
pub enum OverviewAction {
    /// Log the selected accounts out.
    Logout,
    /// Switch automatic arena battles on or off for the selected accounts.
    AutoBattle(bool),
}

/// Number of whole minutes, rounded up, from `now` until the later time `t`
/// (both in seconds); zero when `t` is not in the future.
pub fn remaining_minutes(t: i64, now: i64) -> (mins: i64)
    ensures
        mins == if t <= now { 0int } else { (t - now + 59) / 60 },
{
    let d: i128 = t as i128 - now as i128;
    if d <= 0 {
        0
    } else {
        ((d + 59) / 60) as i64
    }
}

} // verus!
