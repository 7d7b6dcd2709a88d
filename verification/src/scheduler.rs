//! The adaptive scheduler: computes how long to sleep before the next
//! decision tick. It takes the minimum over every known future cooldown,
//! wakes almost immediately (small jitter only) when any timer has already
//! elapsed, clamps long sleeps to a two-minute cap so changed state is seen,
//! and backs off when no timer is known at all. A small jitter is always
//! added to desynchronize many accounts' ticks.

use vstd::prelude::*;

use crate::rng::random_in_range;
use crate::snapshot::{ExpeditionStage, GameStateSnapshot, TavernStatus};

verus! {

/// The smaller of an already-collected future time and a new one.
pub open spec fn merge_future(acc: Option<i64>, t: i64) -> Option<i64> {
    match acc {
        None => Some(t),
        Some(a) => if t < a {
            Some(t)
        } else {
            Some(a)
        },
    }
}

/// Folds one known timer into the scan: a future timer joins the minimum, an
/// elapsed one marks the account as due right now.
pub open spec fn add_timer(cur: (bool, Option<i64>), t: i64, now: i64) -> (bool, Option<i64>) {
    if t > now {
        (cur.0, merge_future(cur.1, t))
    } else {
        (true, cur.1)
    }
}

/// Folds a timer that counts as elapsed when unknown.
pub open spec fn add_timer_or_due(cur: (bool, Option<i64>), t: Option<i64>, now: i64) -> (
    bool,
    Option<i64>,
) {
    match t {
        Some(x) => add_timer(cur, x, now),
        None => (true, cur.1),
    }
}

/// The scan over every subsystem cooldown: quest end, expedition wait,
/// pet battle and exploration timers, dungeon free fight, and hydra battle.
/// Yields whether anything is due right now and the earliest future time.
pub open spec fn spec_next_due(gs: GameStateSnapshot, now: i64) -> (bool, Option<i64>) {
    let cur = (false, None::<i64>);
    let cur = match gs.tavern.status {
        TavernStatus::OnQuest { busy_until } => add_timer(cur, busy_until, now),
        TavernStatus::OnExpedition => match gs.tavern.expedition {
            Some(ExpeditionStage::Waiting(until)) => add_timer(cur, until, now),
            _ => cur,
        },
        _ => cur,
    };
    let cur = match gs.pets {
        Some(p) => {
            let cur = add_timer_or_due(cur, p.opponent_next_free_battle, now);
            add_timer_or_due(cur, p.next_free_exploration, now)
        },
        None => cur,
    };
    let cur = add_timer_or_due(cur, gs.dungeons.next_free_fight, now);
    match gs.guild {
        Some(g) => match g.hydra_next_battle {
            Some(t) => add_timer(cur, t, now),
            None => cur,
        },
        None => cur,
    }
}

fn fold_timer(cur: (bool, Option<i64>), t: i64, now: i64) -> (r: (bool, Option<i64>))
    ensures
        r == add_timer(cur, t, now),
{
    if t > now {
        match cur.1 {
            None => (cur.0, Some(t)),
            Some(a) => if t < a {
                (cur.0, Some(t))
            } else {
                (cur.0, Some(a))
            },
        }
    } else {
        (true, cur.1)
    }
}

fn fold_timer_or_due(cur: (bool, Option<i64>), t: Option<i64>, now: i64) -> (r: (bool, Option<i64>))
    ensures
        r == add_timer_or_due(cur, t, now),
{
    match t {
        Some(x) => fold_timer(cur, x, now),
        None => (true, cur.1),
    }
}

/// Scans the snapshot's cooldowns: whether any action is due right now, and
/// the earliest future wake-up time otherwise.
pub fn next_due(gs: &GameStateSnapshot, now: i64) -> (r: (bool, Option<i64>))
    ensures
        r == spec_next_due(*gs, now),
{
    let mut cur: (bool, Option<i64>) = (false, None);
    match &gs.tavern.status {
        TavernStatus::OnQuest { busy_until } => {
            cur = fold_timer(cur, *busy_until, now);
        },
        TavernStatus::OnExpedition => {
            match &gs.tavern.expedition {
                Some(ExpeditionStage::Waiting(until)) => {
                    cur = fold_timer(cur, *until, now);
                },
                _ => {},
            }
        },
        _ => {},
    }
    match &gs.pets {
        Some(p) => {
            cur = fold_timer_or_due(cur, p.opponent_next_free_battle, now);
            cur = fold_timer_or_due(cur, p.next_free_exploration, now);
        },
        None => {},
    }
    cur = fold_timer_or_due(cur, gs.dungeons.next_free_fight, now);
    match &gs.guild {
        Some(g) => {
            match g.hydra_next_battle {
                Some(t) => {
                    cur = fold_timer(cur, t, now);
                },
                None => {},
            }
        },
        None => {},
    }
    cur
}

/// The deterministic part of a timed wait: the milliseconds until `t`,
/// clamped to the two-minute cap, zero when `t` has passed.
pub open spec fn clamped_wait_ms_spec(t: i64, now: i64) -> int {
    if t <= now {
        0
    } else if (t - now) * 1000 > 120_000 {
        120_000
    } else {
        (t - now) * 1000
    }
}

/// The milliseconds until `t`, clamped to the two-minute cap.
pub fn clamped_wait_ms(t: i64, now: i64) -> (r: u64)
    ensures
        r == clamped_wait_ms_spec(t, now),
{
    if t <= now {
        return 0;
    }
    let d: i128 = (t as i128 - now as i128) * 1000;
    if d > 120_000 {
        120_000
    } else {
        d as u64
    }
}

/// The envelope `wait_before_tick_ms` promises for given scan results: a
/// small jitter only when something is due, the clamped wait plus jitter when
/// the earliest timer lies in the future, a long backoff when no timer is
/// known.
pub open spec fn wait_envelope(due_now: bool, due_at: Option<i64>, now: i64, r: u64) -> bool {
    &&& (due_now ==> 700 <= r <= 2400)
    &&& (!due_now ==> match due_at {
        Some(t) => if t > now {
            clamped_wait_ms_spec(t, now) + 300 <= r <= clamped_wait_ms_spec(t, now) + 1200
        } else {
            700 <= r <= 2400
        },
        None => 30_300 <= r <= 61_200,
    })
}

/// The delay before the next decision tick, in milliseconds: when something
/// is due, a small jitter only; when the earliest timer lies in the future,
/// the clamped wait until it; when no timer is known, a long backoff. A
/// jitter of 300 to 1200 milliseconds is always added on top.
pub fn wait_before_tick_ms(due_now: bool, due_at: Option<i64>, now: i64) -> (r: u64)
    ensures
        wait_envelope(due_now, due_at, now, r),
        300 <= r <= 121_200,
{
    let base: u64 = if due_now {
        random_in_range(400, 1200)
    } else {
        match due_at {
            Some(t) => if t > now {
                clamped_wait_ms(t, now)
            } else {
                random_in_range(400, 1200)
            },
            None => random_in_range(30_000, 60_000),
        }
    };
    let jitter = random_in_range(300, 1200);
    base + jitter
}

/// Whether `r` lies within the wait envelope of the snapshot's cooldown scan
/// at time `now`.
pub open spec fn scan_envelope(gs: GameStateSnapshot, now: i64, r: u64) -> bool {
    let scan = spec_next_due(gs, now);
    wait_envelope(scan.0, scan.1, now, r)
}

/// The delay before the next decision tick for this snapshot, read off the
/// wall clock: for the clock value read, the delay lies within the envelope
/// of the snapshot's cooldown scan — between 0.3 seconds and the two-minute
/// cap plus jitter.
pub fn next_tick_delay_ms(gs: &GameStateSnapshot) -> (r: u64)
    ensures
        300 <= r <= 121_200,
        exists|now: i64| scan_envelope(*gs, now, r),
{
    let now = crate::clock::now_epoch_seconds();
    let (due_now, due_at) = next_due(gs, now);
    let r = wait_before_tick_ms(due_now, due_at, now);
    proof {
        assert(scan_envelope(*gs, now, r));
    }
    r
}

/// The short randomized retry delay used when the account is not idle.
pub fn busy_retry_delay_ms() -> (r: u64)
    ensures
        1500 <= r <= 3500,
{
    random_in_range(1500, 3500)
}

/// The retry delay after a decision tick found the account not idle.
pub fn tick_retry_delay_ms() -> (r: u64)
    ensures
        500 <= r <= 1500,
{
    random_in_range(500, 1500)
}

/// The retry delay after a decided command had to be queued because the
/// handle was busy.
pub fn dispatch_retry_delay_ms() -> (r: u64)
    ensures
        400 <= r <= 1200,
{
    random_in_range(400, 1200)
}

/// Whether an active expedition is mid-sequence — a boss, reward or encounter
/// choice is open — so the next decision should follow almost immediately.
pub fn expedition_needs_prompt_tick(stage: &Option<ExpeditionStage>) -> (r: bool)
    ensures
        r == match stage {
            Some(s) => !(s is Waiting || s is Finished || s is Unknown),
            None => false,
        },
{
    match stage {
        Some(ExpeditionStage::Waiting(_)) => false,
        Some(ExpeditionStage::Finished) => false,
        Some(ExpeditionStage::Unknown) => false,
        Some(_) => true,
        None => false,
    }
}

/// The tiny delay before the follow-up tick of a mid-sequence expedition.
pub fn prompt_tick_delay_ms() -> (r: u64)
    ensures
        30 <= r <= 90,
{
    random_in_range(30, 90)
}

/// The delay before the very first tick of a fresh scheduler.
pub fn first_tick_delay_ms() -> (r: u64)
    ensures
        200 <= r <= 600,
{
    random_in_range(200, 600)
}

/// The randomized delay between background polls.
pub fn poll_delay_ms() -> (r: u64)
    ensures
        5000 <= r <= 10_000,
{
    random_in_range(5000, 10_000)
}

/// The milliseconds until `t`, saturating so jitter can be added on top
/// without overflow; zero when `t` has passed.
pub open spec fn remaining_ms_spec(t: i64, now: i64) -> int {
    if t <= now {
        0
    } else if (t - now) * 1000 > u64::MAX - 3000 {
        u64::MAX - 3000
    } else {
        (t - now) * 1000
    }
}

/// The delay before checking the arena again: the wait until the next free
/// fight, when one is known, plus a jitter of 1 to 3 seconds.
pub fn attack_check_delay_ms(next_fight: Option<i64>, now: i64) -> (r: u64)
    ensures
        next_fight matches Some(t) ==> remaining_ms_spec(t, now) + 1000 <= r <= remaining_ms_spec(
            t,
            now,
        ) + 3000,
        next_fight is None ==> 1000 <= r <= 3000,
{
    let base: u64 = match next_fight {
        Some(t) => {
            if t <= now {
                0
            } else {
                let d: i128 = (t as i128 - now as i128) * 1000;
                if d > (u64::MAX - 3000) as i128 {
                    u64::MAX - 3000
                } else {
                    d as u64
                }
            }
        },
        None => 0,
    };
    base + random_in_range(1000, 3000)
}

/// Whether another underworld lure is possible today: the client reports a
/// lure count and fewer than five have happened.
pub open spec fn lure_possible_spec(lured: Option<u8>) -> bool {
    lured matches Some(l) && l <= 4
}

/// Whether another underworld lure is possible today.
pub fn lure_possible(lured: Option<u8>) -> (r: bool)
    ensures
        r == lure_possible_spec(lured),
{
    match lured {
        Some(l) => l <= 4,
        None => false,
    }
}

/// The delay before acting on (or re-checking) the lure state.
pub fn lure_delay_ms(possible: bool) -> (r: u64)
    ensures
        possible ==> 3000 <= r <= 5000,
        !possible ==> 5000 <= r <= 10_000,
{
    if possible {
        random_in_range(3000, 5000)
    } else {
        random_in_range(5000, 10_000)
    }
}

} // verus!
