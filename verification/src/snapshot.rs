//! The decision engine's view of one character's game state. All times are
//! seconds since the epoch; the surrounding application converts from its
//! session client's richer types to these plain values when a fresh snapshot
//! arrives.

use vstd::prelude::*;

use crate::missions::Quest;

verus! {

/// What the character's tavern slot is currently doing.
#[derive(Debug, Clone)]
pub enum TavernStatus {
    /// No timed tavern activity is running.
    Idle,
    /// A quest runs until `busy_until`.
    OnQuest { busy_until: i64 },
    /// An expedition is active; its stage is in `TavernState::expedition`.
    OnExpedition,
    /// City-guard duty runs until `busy_until`.
    CityGuard { busy_until: i64 },
    /// The client reported something this model does not know.
    Unknown,
}

/// The reward classes an expedition can offer.
#[derive(Debug, Clone, Copy, PartialEq, Eq, Structural)]
pub enum RewardKind {
    Mushrooms,
    Gold,
    Silver,
    Egg,
    Other,
}

/// The stage an active expedition is in.
#[derive(Debug, Clone)]
pub enum ExpeditionStage {
    /// A boss fight is waiting to be continued.
    Boss,
    /// A choice among the listed rewards is open.
    Rewards(Vec<RewardKind>),
    /// A choice among `count` encounters is open.
    Encounters { count: usize },
    /// The expedition idles until the given time.
    Waiting(i64),
    Finished,
    Unknown,
}

/// Which kind of tavern task the server currently offers.
#[derive(Debug, Clone)]
pub enum AvailableTasks {
    /// Quests are offered, with their facts in listing order.
    Quests(Vec<Quest>),
    /// Expeditions are offered.
    Expeditions,
}

/// Tavern-related state.
#[derive(Debug, Clone)]
pub struct TavernState {
    pub status: TavernStatus,
    /// The stage of the active expedition, when one is active.
    pub expedition: Option<ExpeditionStage>,
    /// Quicksand glasses available for skipping waits.
    pub quicksand_glasses: u32,
    /// Remaining thirst for adventure, in seconds of quest duration.
    pub thirst_for_adventure_sec: u32,
    /// Beers drunk today.
    pub beer_drunk: u8,
    /// True when the account currently prefers quests over expeditions.
    pub prefers_quests: bool,
    /// Whether the quest/expedition preference may be switched right now.
    pub can_change_preference: bool,
    pub available: AvailableTasks,
}

/// Progress of one dungeon, in listing order of the client's dungeon
/// enumeration.
#[derive(Debug, Clone, Copy, PartialEq, Eq, Structural)]
pub struct DungeonSlot {
    /// The dungeon's identifier, as the session client numbers them.
    pub id: u32,
    /// Whether the dungeon is open for fighting.
    pub open: bool,
    /// Levels already finished.
    pub finished: u16,
}

/// Dungeon-related state.
#[derive(Debug, Clone)]
pub struct DungeonsState {
    /// Whether the portal offers a fight right now.
    pub portal_can_fight: bool,
    /// When the next free dungeon fight unlocks; `None` when unknown, which
    /// counts as ready.
    pub next_free_fight: Option<i64>,
    /// Whether the tower is open.
    pub tower_open: bool,
    /// Tower levels already finished.
    pub tower_finished: u16,
    /// Every non-tower dungeon, in enumeration order.
    pub dungeons: Vec<DungeonSlot>,
}

/// The strongest pet of a habitat.
#[derive(Debug, Clone, Copy, PartialEq, Eq, Structural)]
pub struct PetEntry {
    pub level: u16,
    pub id: u32,
}

/// One pet habitat.
#[derive(Debug, Clone)]
pub struct HabitatState {
    /// The habitat's identifier, as the session client numbers them.
    pub id: u32,
    /// Whether this habitat's opponent was already fought this cycle.
    pub battled_opponent: bool,
    /// Fights already won of a running exploration; `None` when the habitat
    /// is not exploring.
    pub exploration_fights_won: Option<u32>,
    /// The best-level pet of the habitat, when it holds any pet.
    pub best_pet: Option<PetEntry>,
}

/// Pet-related state.
#[derive(Debug, Clone)]
pub struct PetsState {
    /// When the next free pet player-versus-player battle unlocks; `None`
    /// counts as ready.
    pub opponent_next_free_battle: Option<i64>,
    /// Index into `habitats` of the opponent's own habitat, when declared.
    pub opponent_habitat: Option<usize>,
    /// The current opponent's identifier.
    pub opponent_id: u32,
    /// When the next free exploration unlocks; `None` counts as ready.
    pub next_free_exploration: Option<i64>,
    pub habitats: Vec<HabitatState>,
}

impl PetsState {
    /// A declared opponent habitat must point into `habitats`, and a running
    /// exploration has room for one more fight.
    pub open spec fn wf(&self) -> bool {
        &&& (self.opponent_habitat matches Some(h) ==> h < self.habitats@.len())
        &&& forall|i: int|
            0 <= i < self.habitats@.len() ==> ((#[trigger] self.habitats@[i]).exploration_fights_won
                matches Some(f) ==> f < u32::MAX)
    }

    /// Checks `wf` at run time, for callers that receive a snapshot from
    /// outside.
    pub fn is_well_formed(&self) -> (r: bool)
        ensures
            r == self.wf(),
    {
        let idx_ok = match self.opponent_habitat {
            Some(h) => h < self.habitats.len(),
            None => true,
        };
        if !idx_ok {
            return false;
        }
        let mut i: usize = 0;
        while i < self.habitats.len()
            invariant
                0 <= i <= self.habitats@.len(),
                forall|k: int|
                    0 <= k < i ==> ((#[trigger] self.habitats@[k]).exploration_fights_won
                        matches Some(f) ==> f < u32::MAX),
        decreases self.habitats@.len() - i,
        {
            match self.habitats[i].exploration_fights_won {
                Some(f) => {
                    if f == u32::MAX {
                        return false;
                    }
                },
                None => {},
            }
            i = i + 1;
        }
        true
    }
}

/// Guild-related state.
#[derive(Debug, Clone)]
pub struct GuildState {
    pub hydra_remaining_fights: u16,
    /// When the next hydra battle unlocks; `None` means no battle is known.
    pub hydra_next_battle: Option<i64>,
}

/// Character resources the engine reads.
#[derive(Debug, Clone)]
pub struct CharacterState {
    /// Premium-currency balance.
    pub mushrooms: u32,
    /// Whether the equipment carries the enchantment that raises the daily
    /// beer cap by one.
    pub thirsty_wanderer: bool,
}

/// One character's game state as the decision engine sees it.
#[derive(Debug, Clone)]
pub struct GameStateSnapshot {
    pub tavern: TavernState,
    pub dungeons: DungeonsState,
    pub pets: Option<PetsState>,
    pub guild: Option<GuildState>,
    pub character: CharacterState,
}

impl GameStateSnapshot {
    pub open spec fn wf(&self) -> bool {
        self.pets matches Some(p) ==> p.wf()
    }

    /// Checks `wf` at run time, for callers that receive a snapshot from
    /// outside.
    pub fn is_well_formed(&self) -> (r: bool)
        ensures
            r == self.wf(),
    {
        match &self.pets {
            None => true,
            Some(p) => p.is_well_formed(),
        }
    }
}

} // verus!
