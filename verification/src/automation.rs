//! Adapters between the automation core and whatever session client the
//! surrounding application uses: shape traits for its quest, expedition,
//! dungeon, pet and fight-result values, and the small decision helpers of
//! the per-subsystem tick loop. The loop itself — awaiting the client's
//! calls — lives with the application.

use vstd::prelude::*;

use crate::config::MissionStrategy;
use crate::missions::{pick_mission, pick_index, facts_of, Expedition, MissionLike, Quest};

verus! {

/// What one automation tick did, for the interface log.
pub struct TickOutcome {
    pub did_something: bool,
    pub summary: String,
}

/// Shape adapter for the session client's quest listing entries.
pub trait QuestLike {
    fn id(&self) -> u32;

    fn minutes(&self) -> u32;

    fn gold(&self) -> u64;

    fn xp(&self) -> u64;

    fn mushrooms(&self) -> u8;
}

/// Shape adapter for the session client's expedition listing entries.
pub trait ExpeditionLike {
    fn id(&self) -> u32;

    fn minutes(&self) -> u32;

    fn gold(&self) -> u64;

    fn xp(&self) -> u64;

    fn mushrooms(&self) -> u8;
}

/// Shape adapter for the session client's dungeon candidates.
pub trait DungeonLike {
    fn ident(&self) -> u32;
}

/// Shape adapter for the session client's pet candidates.
pub trait PetLike {
    fn element(&self) -> u8;

    fn slot(&self) -> u8;

    fn element_str(&self) -> &'static str {
        "elem"
    }
}

/// Shape adapter for the session client's fight results.
pub trait FightResultLike {
    fn win(&self) -> bool;
}

/// One quest candidate read off a client value.
pub fn quest_of<T: QuestLike>(q: &T) -> Quest {
    Quest { id: q.id(), minutes: q.minutes(), gold: q.gold(), xp: q.xp(), mushrooms: q.mushrooms() }
}

/// The quest candidates read off a client listing.
pub fn quests_of<T: QuestLike>(qs: &Vec<T>) -> (r: Vec<Quest>)
    ensures
        r@.len() == qs@.len(),
{
    let mut out: Vec<Quest> = Vec::new();
    let mut i: usize = 0;
    while i < qs.len()
        invariant
            0 <= i <= qs@.len(),
            out@.len() == i,
        decreases qs@.len() - i,
    {
        out.push(quest_of(&qs[i]));
        i = i + 1;
    }
    out
}

/// One expedition candidate read off a client value.
pub fn expedition_of<T: ExpeditionLike>(e: &T) -> Expedition {
    Expedition {
        id: e.id(),
        minutes: e.minutes(),
        gold: e.gold(),
        xp: e.xp(),
        mushrooms: e.mushrooms(),
    }
}

/// The expedition candidates read off a client listing.
pub fn expeditions_of<T: ExpeditionLike>(es: &Vec<T>) -> (r: Vec<Expedition>)
    ensures
        r@.len() == es@.len(),
{
    let mut out: Vec<Expedition> = Vec::new();
    let mut i: usize = 0;
    while i < es.len()
        invariant
            0 <= i <= es@.len(),
            out@.len() == i,
        decreases es@.len() - i,
    {
        out.push(expedition_of(&es[i]));
        i = i + 1;
    }
    out
}

/// Whether a finished activity's reward is there to collect: an end time is
/// known and has passed.
pub fn collect_due(end_time: Option<i64>, now: i64) -> (r: bool)
    ensures
        r == (end_time matches Some(t) && t <= now),
{
    match end_time {
        Some(t) => t <= now,
        None => false,
    }
}

/// Whether a new activity can be started: no end time is known, or it has
/// passed.
pub fn start_possible(end_time: Option<i64>, now: i64) -> (r: bool)
    ensures
        r == (end_time is None || (end_time matches Some(t) && t <= now)),
{
    match end_time {
        Some(t) => t <= now,
        None => true,
    }
}

/// Picks the best quest of a listing under the strategy.
pub fn pick_quest_mission(quests: Vec<Quest>, strat: MissionStrategy) -> (r: Option<Quest>)
    ensures
        match pick_index(facts_of(quests@), strat) {
            Some(j) => r matches Some(q) && q == quests@[j],
            None => r is None,
        },
{
    pick_mission(quests, strat)
}

/// Picks the best expedition of a listing under the strategy.
pub fn pick_expedition_mission(exps: Vec<Expedition>, strat: MissionStrategy) -> (r: Option<
    Expedition,
>)
    ensures
        match pick_index(facts_of(exps@), strat) {
            Some(j) => r matches Some(e) && e == exps@[j],
            None => r is None,
        },
{
    pick_mission(exps, strat)
}

/// How long the perpetual per-character loop sleeps after a tick, in seconds:
/// a short pause after an action, a long one after an idle tick.
pub fn loop_delay_secs(did_something: bool) -> (r: u64)
    ensures
        r == if did_something {
            5int
        } else {
            30int
        },
{
    if did_something {
        5
    } else {
        30
    }
}

} // verus!
