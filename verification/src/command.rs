//! The closed set of game actions the decision engine can emit. Commands are
//! immutable values, created by one decision tick and consumed exactly once
//! by the session client.

use vstd::prelude::*;

verus! {

/// How a wait is skipped.
#[derive(Debug, Clone, Copy, PartialEq, Eq, Structural)]
pub enum TimeSkip {
    /// A quicksand glass.
    Glass,
    /// Premium currency.
    Mushroom,
}

/// One game action.
#[derive(Debug, Clone, PartialEq, Eq)]
pub enum Command {
    /// Collect a finished quest, optionally skipping the remaining wait.
    FinishQuest { skip: Option<TimeSkip> },
    /// Start the quest at this position of the offered list.
    StartQuest { quest_pos: usize, overwrite_inv: bool },
    BuyBeer,
    /// Switch the account to prefer expeditions over quests.
    PreferExpeditions,
    /// Start the expedition at this position of the offered list.
    ExpeditionStart { pos: usize },
    ExpeditionContinue,
    ExpeditionPickEncounter { pos: usize },
    ExpeditionPickReward { pos: usize },
    ExpeditionSkipWait { skip: TimeSkip },
    /// Start city-guard duty for this many hours.
    StartWork { hours: u8 },
    /// Collect finished city-guard pay.
    FinishWork,
    FightTower { current_level: u16, use_mushroom: bool },
    FightDungeon { dungeon: u32, use_mushroom: bool },
    FightPortal,
    FightPetOpponent { habitat: u32, opponent_id: u32 },
    FightPetDungeon { use_mushroom: bool, habitat: u32, enemy_pos: u32, player_pet_id: u32 },
    GuildJoinDefense,
    GuildJoinAttack,
    GuildPetBattle { use_mushroom: bool },
    /// No-op poll that only refreshes the snapshot.
    Update,
}

/// A primary command advances the account's main time-boxed activity
/// (tavern quest, expedition, or city-guard duty); at most one may sit in the
/// queue at a time. Everything else is a side action.
pub open spec fn is_primary_spec(c: Command) -> bool {
    match c {
        Command::StartQuest { .. } => true,
        Command::FinishQuest { .. } => true,
        Command::BuyBeer => true,
        Command::PreferExpeditions => true,
        Command::ExpeditionStart { .. } => true,
        Command::ExpeditionContinue => true,
        Command::ExpeditionPickEncounter { .. } => true,
        Command::ExpeditionPickReward { .. } => true,
        Command::ExpeditionSkipWait { .. } => true,
        Command::StartWork { .. } => true,
        Command::FinishWork => true,
        _ => false,
    }
}

/// Whether the command belongs to the primary (tavern/expedition/guard-duty)
/// family.
pub fn is_primary(c: &Command) -> (r: bool)
    ensures
        r == is_primary_spec(*c),
{
    match c {
        Command::StartQuest { .. } => true,
        Command::FinishQuest { .. } => true,
        Command::BuyBeer => true,
        Command::PreferExpeditions => true,
        Command::ExpeditionStart { .. } => true,
        Command::ExpeditionContinue => true,
        Command::ExpeditionPickEncounter { .. } => true,
        Command::ExpeditionPickReward { .. } => true,
        Command::ExpeditionSkipWait { .. } => true,
        Command::StartWork { .. } => true,
        Command::FinishWork => true,
        _ => false,
    }
}

} // verus!
