//! The decision engine: one snapshot and one configuration in, at most one
//! command out. Evaluation is strictly layered: the current tavern activity
//! first, then dungeons, then pets, then — only when no tavern activity is
//! running — starting a quest or expedition, then guild actions, then the
//! guard-duty fallback, and finally a plain poll. Each layer is an
//! independent pure function returning no decision or one command.

use vstd::prelude::*;

use crate::command::{Command, TimeSkip};
use crate::config::{CharacterConfig, ExpeditionRewardPriority, MissionStrategy};
use crate::missions::{
    facts_of, lemma_pick_rec_optimal, max_gold_rate, max_xp_rate, mission_better, pick_index,
    pick_rec, rate, MissionFacts, MissionLike, Quest,
};
use crate::snapshot::{
    AvailableTasks, CharacterState, DungeonSlot, DungeonsState, ExpeditionStage,
    GameStateSnapshot, GuildState, HabitatState, PetsState, RewardKind, TavernState, TavernStatus,
};

verus! {

// ---------------------------------------------------------------------------
// Expedition rewards
// ---------------------------------------------------------------------------
/// The rank a reward class gets under the configured priority; higher wins.
pub open spec fn reward_rank_spec(prio: ExpeditionRewardPriority, k: RewardKind) -> int {
    let is_mush = k is Mushrooms;
    let is_gold = k is Gold || k is Silver;
    let is_egg = k is Egg;
    match prio {
        ExpeditionRewardPriority::MushroomsGoldEggs => if is_mush {
            3
        } else if is_gold {
            2
        } else if is_egg {
            1
        } else {
            0
        },
        ExpeditionRewardPriority::GoldMushroomsEggs => if is_gold {
            3
        } else if is_mush {
            2
        } else if is_egg {
            1
        } else {
            0
        },
        ExpeditionRewardPriority::EggsMushroomsGold => if is_egg {
            3
        } else if is_mush {
            2
        } else if is_gold {
            1
        } else {
            0
        },
    }
}

/// The position of the first highest-ranked reward of a non-empty listing.
pub open spec fn best_reward_rec(s: Seq<RewardKind>, prio: ExpeditionRewardPriority) -> int
    decreases s.len(),
{
    if s.len() <= 1 {
        0
    } else {
        let p = best_reward_rec(s.drop_last(), prio);
        if reward_rank_spec(prio, s.last()) > reward_rank_spec(prio, s[p]) {
            s.len() - 1
        } else {
            p
        }
    }
}

fn reward_rank(prio: ExpeditionRewardPriority, k: RewardKind) -> (r: i32)
    ensures
        r == reward_rank_spec(prio, k),
{
    let is_mush = matches!(k, RewardKind::Mushrooms);
    let is_gold = matches!(k, RewardKind::Gold) || matches!(k, RewardKind::Silver);
    let is_egg = matches!(k, RewardKind::Egg);
    match prio {
        ExpeditionRewardPriority::MushroomsGoldEggs => if is_mush {
            3
        } else if is_gold {
            2
        } else if is_egg {
            1
        } else {
            0
        },
        ExpeditionRewardPriority::GoldMushroomsEggs => if is_gold {
            3
        } else if is_mush {
            2
        } else if is_egg {
            1
        } else {
            0
        },
        ExpeditionRewardPriority::EggsMushroomsGold => if is_egg {
            3
        } else if is_mush {
            2
        } else if is_gold {
            1
        } else {
            0
        },
    }
}

/// The position of the reward to pick: the first reward of the highest rank
/// under the configured priority.
pub fn best_reward_index(rs: &Vec<RewardKind>, prio: ExpeditionRewardPriority) -> (r: usize)
    requires
        rs@.len() >= 1,
    ensures
        r == best_reward_rec(rs@, prio),
        r < rs@.len(),
{
    let mut best: usize = 0;
    let mut i: usize = 1;
    while i < rs.len()
        invariant
            1 <= i <= rs@.len(),
            rs@.len() >= 1,
            best < i,
            best == best_reward_rec(rs@.take(i as int), prio),
        decreases rs@.len() - i,
    {
        if reward_rank(prio, rs[i]) > reward_rank(prio, rs[best]) {
            best = i;
        }
        proof {
            assert(rs@.take(i + 1).drop_last() =~= rs@.take(i as int));
            assert(rs@.take(i + 1).last() == rs@[i as int]);
        }
        i = i + 1;
    }
    proof {
        assert(rs@.take(rs@.len() as int) =~= rs@);
    }
    best
}

// ---------------------------------------------------------------------------
// Layer 0: the current tavern activity
// ---------------------------------------------------------------------------
/// What an active expedition asks for this tick: continue a boss fight, pick
/// the highest-priority reward, pick the first encounter, or skip a long wait
/// with a glass when that is enabled and a glass is available.
pub open spec fn spec_expedition_action(
    cfg: CharacterConfig,
    stage: Option<ExpeditionStage>,
    glasses: u32,
    now: i64,
) -> Option<Command> {
    match stage {
        Some(ExpeditionStage::Boss) => Some(Command::ExpeditionContinue),
        Some(ExpeditionStage::Rewards(rs)) => if rs@.len() == 0 {
            None
        } else {
            Some(
                Command::ExpeditionPickReward {
                    pos: best_reward_rec(rs@, cfg.expedition_reward_priority) as usize,
                },
            )
        },
        Some(ExpeditionStage::Encounters { count }) => if count == 0 {
            None
        } else {
            Some(Command::ExpeditionPickEncounter { pos: 0 })
        },
        Some(ExpeditionStage::Waiting(until)) => if cfg.use_glasses_for_expeditions && until - now
            > 60 && glasses > 0 {
            Some(Command::ExpeditionSkipWait { skip: TimeSkip::Glass })
        } else {
            None
        },
        _ => None,
    }
}

/// What the running tavern activity asks for this tick: collect a finished
/// quest (skipping a long remainder with a glass when enabled), advance an
/// expedition, or collect finished guard-duty pay. A still-running activity
/// yields nothing and the tick falls through to side actions.
pub open spec fn spec_tavern_status_action(
    cfg: CharacterConfig,
    gs: GameStateSnapshot,
    now: i64,
) -> Option<Command> {
    match gs.tavern.status {
        TavernStatus::OnQuest { busy_until } => if busy_until <= now {
            Some(Command::FinishQuest { skip: None })
        } else if busy_until - now > 60 && cfg.use_glasses_for_tavern
            && gs.tavern.quicksand_glasses > 0 {
            Some(Command::FinishQuest { skip: Some(TimeSkip::Glass) })
        } else {
            None
        },
        TavernStatus::OnExpedition => spec_expedition_action(
            cfg,
            gs.tavern.expedition,
            gs.tavern.quicksand_glasses,
            now,
        ),
        TavernStatus::CityGuard { busy_until } => if busy_until <= now {
            Some(Command::FinishWork)
        } else {
            None
        },
        TavernStatus::Idle => None,
        TavernStatus::Unknown => None,
    }
}

/// The tavern-activity layer.
pub fn tavern_status_action(cfg: &CharacterConfig, gs: &GameStateSnapshot, now: i64) -> (r: Option<
    Command,
>)
    ensures
        r == spec_tavern_status_action(*cfg, *gs, now),
{
    match &gs.tavern.status {
        TavernStatus::OnQuest { busy_until } => {
            let busy_until = *busy_until;
            if busy_until <= now {
                Some(Command::FinishQuest { skip: None })
            } else if (busy_until as i128) - (now as i128) > 60 && cfg.use_glasses_for_tavern
                && gs.tavern.quicksand_glasses > 0 {
                Some(Command::FinishQuest { skip: Some(TimeSkip::Glass) })
            } else {
                None
            }
        },
        TavernStatus::OnExpedition => {
            match &gs.tavern.expedition {
                Some(ExpeditionStage::Boss) => Some(Command::ExpeditionContinue),
                Some(ExpeditionStage::Rewards(rs)) => {
                    if rs.len() == 0 {
                        None
                    } else {
                        let pos = best_reward_index(rs, cfg.expedition_reward_priority);
                        Some(Command::ExpeditionPickReward { pos })
                    }
                },
                Some(ExpeditionStage::Encounters { count }) => {
                    if *count == 0 {
                        None
                    } else {
                        Some(Command::ExpeditionPickEncounter { pos: 0 })
                    }
                },
                Some(ExpeditionStage::Waiting(until)) => {
                    if cfg.use_glasses_for_expeditions && (*until as i128) - (now as i128) > 60
                        && gs.tavern.quicksand_glasses > 0 {
                        Some(Command::ExpeditionSkipWait { skip: TimeSkip::Glass })
                    } else {
                        None
                    }
                },
                _ => None,
            }
        },
        TavernStatus::CityGuard { busy_until } => {
            if *busy_until <= now {
                Some(Command::FinishWork)
            } else {
                None
            }
        },
        TavernStatus::Idle => None,
        TavernStatus::Unknown => None,
    }
}

// ---------------------------------------------------------------------------
// Layer 1: dungeons
// ---------------------------------------------------------------------------
/// A timer counts as elapsed when it is unknown.
pub open spec fn timer_ready(t: Option<i64>, now: i64) -> bool {
    match t {
        Some(t) => t <= now,
        None => true,
    }
}

/// The first open dungeon with the fewest finished levels, so every open
/// track progresses roughly evenly.
pub open spec fn best_open_dungeon(s: Seq<DungeonSlot>) -> Option<int>
    decreases s.len(),
{
    if s.len() == 0 {
        None
    } else {
        let prev = best_open_dungeon(s.drop_last());
        if !s.last().open {
            prev
        } else {
            match prev {
                None => Some(s.len() - 1),
                Some(j) => if s.last().finished < s[j].finished {
                    Some(s.len() - 1)
                } else {
                    Some(j)
                },
            }
        }
    }
}

/// The dungeon layer: a ready portal fight wins outright; otherwise, when the
/// free-fight timer has elapsed or the skip budget allows spending premium
/// currency, fight the tower if open, else the open dungeon with the fewest
/// finished levels.
pub open spec fn spec_dungeon_action(
    cfg: CharacterConfig,
    d: DungeonsState,
    mushrooms: u32,
    now: i64,
) -> Option<Command> {
    if !cfg.auto_dungeons {
        None
    } else if d.portal_can_fight {
        Some(Command::FightPortal)
    } else {
        let ready = timer_ready(d.next_free_fight, now);
        let use_mush = !ready && cfg.max_mushrooms_dungeon_skip > 0 && mushrooms > 0;
        if ready || use_mush {
            if d.tower_open {
                Some(Command::FightTower { current_level: d.tower_finished, use_mushroom: use_mush })
            } else {
                match best_open_dungeon(d.dungeons@) {
                    Some(j) => Some(
                        Command::FightDungeon { dungeon: d.dungeons@[j].id, use_mushroom: use_mush },
                    ),
                    None => None,
                }
            }
        } else {
            None
        }
    }
}

/// The dungeon layer.
pub fn dungeon_action(cfg: &CharacterConfig, d: &DungeonsState, mushrooms: u32, now: i64) -> (r:
    Option<Command>)
    ensures
        r == spec_dungeon_action(*cfg, *d, mushrooms, now),
{
    if !cfg.auto_dungeons {
        return None;
    }
    if d.portal_can_fight {
        return Some(Command::FightPortal);
    }
    let ready = match d.next_free_fight {
        Some(t) => t <= now,
        None => true,
    };
    let use_mush = !ready && cfg.max_mushrooms_dungeon_skip > 0 && mushrooms > 0;
    if !(ready || use_mush) {
        return None;
    }
    if d.tower_open {
        return Some(
            Command::FightTower { current_level: d.tower_finished, use_mushroom: use_mush },
        );
    }
    let mut best: Option<usize> = None;
    let mut i: usize = 0;
    while i < d.dungeons.len()
        invariant
            0 <= i <= d.dungeons@.len(),
            match best_open_dungeon(d.dungeons@.take(i as int)) {
                Some(j) => best matches Some(b) && b == j,
                None => best is None,
            },
            best matches Some(b) ==> b < i,
        decreases d.dungeons@.len() - i,
    {
        if d.dungeons[i].open {
            best = match best {
                None => Some(i),
                Some(b) => if d.dungeons[i].finished < d.dungeons[b].finished {
                    Some(i)
                } else {
                    Some(b)
                },
            };
        }
        proof {
            assert(d.dungeons@.take(i + 1).drop_last() =~= d.dungeons@.take(i as int));
            assert(d.dungeons@.take(i + 1).last() == d.dungeons@[i as int]);
        }
        i = i + 1;
    }
    proof {
        assert(d.dungeons@.take(d.dungeons@.len() as int) =~= d.dungeons@);
    }
    match best {
        Some(b) => Some(Command::FightDungeon { dungeon: d.dungeons[b].id, use_mushroom: use_mush }),
        None => None,
    }
}

// ---------------------------------------------------------------------------
// Layer 2: pets
// ---------------------------------------------------------------------------
/// The level of a habitat's strongest pet; habitats without pets rank below
/// every real level.
pub open spec fn habitat_pet_level(h: HabitatState) -> int {
    match h.best_pet {
        Some(p) => p.level as int,
        None => -1,
    }
}

/// A habitat can fight the opponent when it has not battled yet and holds a
/// pet.
pub open spec fn pvp_eligible(h: HabitatState) -> bool {
    !h.battled_opponent && h.best_pet is Some
}

/// The first not-yet-fought habitat whose strongest pet has the highest
/// level.
pub open spec fn best_pvp_habitat(s: Seq<HabitatState>) -> Option<int>
    decreases s.len(),
{
    if s.len() == 0 {
        None
    } else {
        let prev = best_pvp_habitat(s.drop_last());
        if !pvp_eligible(s.last()) {
            prev
        } else {
            match prev {
                None => Some(s.len() - 1),
                Some(j) => if habitat_pet_level(s.last()) > habitat_pet_level(s[j]) {
                    Some(s.len() - 1)
                } else {
                    Some(j)
                },
            }
        }
    }
}

/// A habitat can be explored further when an exploration is running and it
/// holds a pet to fight with.
pub open spec fn exploring_eligible(h: HabitatState) -> bool {
    h.exploration_fights_won is Some && h.best_pet is Some
}

/// The currently-exploring habitat whose strongest pet has the highest level.
pub open spec fn best_exploring_habitat(s: Seq<HabitatState>) -> Option<int>
    decreases s.len(),
{
    if s.len() == 0 {
        None
    } else {
        let prev = best_exploring_habitat(s.drop_last());
        if !exploring_eligible(s.last()) {
            prev
        } else {
            match prev {
                None => Some(s.len() - 1),
                Some(j) => if habitat_pet_level(s.last()) > habitat_pet_level(s[j]) {
                    Some(s.len() - 1)
                } else {
                    Some(j)
                },
            }
        }
    }
}

proof fn lemma_best_pvp_habitat_range(s: Seq<HabitatState>)
    ensures
        best_pvp_habitat(s) matches Some(j) ==> 0 <= j < s.len() && pvp_eligible(s[j]),
    decreases s.len(),
{
    if s.len() > 0 {
        lemma_best_pvp_habitat_range(s.drop_last());
    }
}

proof fn lemma_best_exploring_habitat_range(s: Seq<HabitatState>)
    ensures
        best_exploring_habitat(s) matches Some(j) ==> 0 <= j < s.len() && exploring_eligible(s[j]),
    decreases s.len(),
{
    if s.len() > 0 {
        lemma_best_exploring_habitat_range(s.drop_last());
    }
}

/// The habitat to fight the opponent in: the opponent's own habitat when that
/// habitat has not battled yet, else the best not-yet-fought habitat.
pub open spec fn spec_pvp_target(p: PetsState) -> Option<int> {
    match p.opponent_habitat {
        Some(h) => if !p.habitats@[h as int].battled_opponent {
            Some(h as int)
        } else {
            best_pvp_habitat(p.habitats@)
        },
        None => best_pvp_habitat(p.habitats@),
    }
}

/// The pet layer: a due player-versus-player battle first, else exploration
/// when its timer has elapsed or the pet-skip budget allows spending premium
/// currency.
pub open spec fn spec_pets_action(
    cfg: CharacterConfig,
    pets: Option<PetsState>,
    mushrooms: u32,
    now: i64,
) -> Option<Command> {
    if !cfg.auto_pets {
        None
    } else {
        match pets {
            None => None,
            Some(p) => {
                let pvp_cmd = if timer_ready(p.opponent_next_free_battle, now) {
                    match spec_pvp_target(p) {
                        Some(h) => Some(
                            Command::FightPetOpponent {
                                habitat: p.habitats@[h].id,
                                opponent_id: p.opponent_id,
                            },
                        ),
                        None => None,
                    }
                } else {
                    None
                };
                if pvp_cmd is Some {
                    pvp_cmd
                } else {
                    let ready = timer_ready(p.next_free_exploration, now);
                    let use_mush = !ready && cfg.max_mushrooms_pet_skip > 0 && mushrooms > 0;
                    if ready || use_mush {
                        match best_exploring_habitat(p.habitats@) {
                            Some(h) => Some(
                                Command::FightPetDungeon {
                                    use_mushroom: use_mush,
                                    habitat: p.habitats@[h].id,
                                    enemy_pos: (p.habitats@[h].exploration_fights_won->0 + 1) as u32,
                                    player_pet_id: (p.habitats@[h].best_pet->0).id,
                                },
                            ),
                            None => None,
                        }
                    } else {
                        None
                    }
                }
            },
        }
    }
}

/// The best not-yet-fought habitat for a player-versus-player battle.
fn best_pvp_habitat_index(hs: &Vec<HabitatState>) -> (r: Option<usize>)
    ensures
        match best_pvp_habitat(hs@) {
            Some(j) => r matches Some(b) && b == j,
            None => r is None,
        },
{
    let mut best: Option<usize> = None;
    let mut i: usize = 0;
    while i < hs.len()
        invariant
            0 <= i <= hs@.len(),
            match best_pvp_habitat(hs@.take(i as int)) {
                Some(j) => best matches Some(b) && b == j,
                None => best is None,
            },
            best matches Some(b) ==> b < i,
        decreases hs@.len() - i,
    {
        let eligible = !hs[i].battled_opponent && hs[i].best_pet.is_some();
        if eligible {
            best = match best {
                None => Some(i),
                Some(b) => {
                    let li = match &hs[i].best_pet {
                        Some(p) => p.level as i32,
                        None => -1,
                    };
                    let lb = match &hs[b].best_pet {
                        Some(p) => p.level as i32,
                        None => -1,
                    };
                    if li > lb {
                        Some(i)
                    } else {
                        Some(b)
                    }
                },
            };
        }
        proof {
            assert(hs@.take(i + 1).drop_last() =~= hs@.take(i as int));
            assert(hs@.take(i + 1).last() == hs@[i as int]);
        }
        i = i + 1;
    }
    proof {
        assert(hs@.take(hs@.len() as int) =~= hs@);
    }
    best
}

/// The currently-exploring habitat whose strongest pet has the highest level.
fn best_exploring_habitat_index(hs: &Vec<HabitatState>) -> (r: Option<usize>)
    ensures
        match best_exploring_habitat(hs@) {
            Some(j) => r matches Some(b) && b == j,
            None => r is None,
        },
{
    let mut best: Option<usize> = None;
    let mut i: usize = 0;
    while i < hs.len()
        invariant
            0 <= i <= hs@.len(),
            match best_exploring_habitat(hs@.take(i as int)) {
                Some(j) => best matches Some(b) && b == j,
                None => best is None,
            },
            best matches Some(b) ==> b < i,
        decreases hs@.len() - i,
    {
        let eligible = hs[i].exploration_fights_won.is_some() && hs[i].best_pet.is_some();
        if eligible {
            best = match best {
                None => Some(i),
                Some(b) => {
                    let li = match &hs[i].best_pet {
                        Some(p) => p.level as i32,
                        None => -1,
                    };
                    let lb = match &hs[b].best_pet {
                        Some(p) => p.level as i32,
                        None => -1,
                    };
                    if li > lb {
                        Some(i)
                    } else {
                        Some(b)
                    }
                },
            };
        }
        proof {
            assert(hs@.take(i + 1).drop_last() =~= hs@.take(i as int));
            assert(hs@.take(i + 1).last() == hs@[i as int]);
        }
        i = i + 1;
    }
    proof {
        assert(hs@.take(hs@.len() as int) =~= hs@);
    }
    best
}

/// The pet layer.
pub fn pets_action(cfg: &CharacterConfig, pets: &Option<PetsState>, mushrooms: u32, now: i64) -> (r:
    Option<Command>)
    requires
        pets matches Some(p) ==> p.wf(),
    ensures
        r == spec_pets_action(*cfg, *pets, mushrooms, now),
{
    if !cfg.auto_pets {
        return None;
    }
    let p = match pets {
        None => {
            return None;
        },
        Some(p) => p,
    };
    let pvp_free = match p.opponent_next_free_battle {
        Some(t) => t <= now,
        None => true,
    };
    if pvp_free {
        let target: Option<usize> = match p.opponent_habitat {
            Some(h) => {
                if !p.habitats[h].battled_opponent {
                    Some(h)
                } else {
                    best_pvp_habitat_index(&p.habitats)
                }
            },
            None => best_pvp_habitat_index(&p.habitats),
        };
        proof {
            lemma_best_pvp_habitat_range(p.habitats@);
        }
        if let Some(h) = target {
            return Some(
                Command::FightPetOpponent { habitat: p.habitats[h].id, opponent_id: p.opponent_id },
            );
        }
    }
    let ready = match p.next_free_exploration {
        Some(t) => t <= now,
        None => true,
    };
    let use_mush = !ready && cfg.max_mushrooms_pet_skip > 0 && mushrooms > 0;
    if !(ready || use_mush) {
        return None;
    }
    let target = best_exploring_habitat_index(&p.habitats);
    proof {
        lemma_best_exploring_habitat_range(p.habitats@);
    }
    match target {
        Some(h) => {
            let hab = &p.habitats[h];
            let fights_won = match hab.exploration_fights_won {
                Some(f) => f,
                None => 0,
            };
            let pet_id = match &hab.best_pet {
                Some(p) => p.id,
                None => 0,
            };
            Some(
                Command::FightPetDungeon {
                    use_mushroom: use_mush,
                    habitat: hab.id,
                    enemy_pos: fights_won + 1,
                    player_pet_id: pet_id,
                },
            )
        },
        None => None,
    }
}

// ---------------------------------------------------------------------------
// Layer 3: guild
// ---------------------------------------------------------------------------
/// The guild layer: join a defense when that is enabled and a guild exists,
/// else join an attack, else fight the hydra when fights remain and its timer
/// has elapsed. Runs only after the layers above found nothing, so primary
/// progression is never starved.
pub open spec fn spec_guild_action(
    cfg: CharacterConfig,
    guild: Option<GuildState>,
    now: i64,
) -> Option<Command> {
    if !cfg.auto_guild {
        None
    } else {
        match guild {
            None => None,
            Some(g) => {
                if cfg.auto_guild_accept_defense {
                    Some(Command::GuildJoinDefense)
                } else if cfg.auto_guild_accept_attack {
                    Some(Command::GuildJoinAttack)
                } else if cfg.auto_guild_hydra && g.hydra_remaining_fights > 0 && (
                g.hydra_next_battle matches Some(t) && t <= now) {
                    Some(Command::GuildPetBattle { use_mushroom: false })
                } else {
                    None
                }
            },
        }
    }
}

/// The guild layer.
pub fn guild_action(cfg: &CharacterConfig, guild: &Option<GuildState>, now: i64) -> (r: Option<
    Command,
>)
    ensures
        r == spec_guild_action(*cfg, *guild, now),
{
    if !cfg.auto_guild {
        return None;
    }
    match guild {
        None => None,
        Some(g) => {
            if cfg.auto_guild_accept_defense {
                Some(Command::GuildJoinDefense)
            } else if cfg.auto_guild_accept_attack {
                Some(Command::GuildJoinAttack)
            } else if cfg.auto_guild_hydra && g.hydra_remaining_fights > 0 && match
                g.hydra_next_battle {
                Some(t) => t <= now,
                None => false,
            } {
                Some(Command::GuildPetBattle { use_mushroom: false })
            } else {
                None
            }
        },
    }
}

// ---------------------------------------------------------------------------
// Layer 4: starting a quest or expedition (idle only)
// ---------------------------------------------------------------------------
/// Whether a quest fits within the optional duration cap, in seconds.
pub open spec fn quest_fits(f: MissionFacts, max_sec: Option<u64>) -> bool {
    match max_sec {
        Some(m) => f.minutes * 60 <= m,
        None => true,
    }
}

/// The same candidate list with every non-fitting quest marked as costing
/// premium currency, so the scorer skips it while positions stay unchanged.
pub open spec fn mask_unfitting(s: Seq<MissionFacts>, max_sec: Option<u64>) -> Seq<MissionFacts> {
    s.map_values(
        |f: MissionFacts|
            if quest_fits(f, max_sec) {
                f
            } else {
                MissionFacts {
                    id: f.id,
                    minutes: f.minutes,
                    gold: f.gold,
                    xp: f.xp,
                    mushrooms: 1u8,
                }
            },
    )
}

/// The mission scorer's choice among the free quests that fit the cap, as a
/// position of the offered list.
pub open spec fn spec_pick_quest(
    qs: Seq<Quest>,
    strat: MissionStrategy,
    max_sec: Option<u64>,
) -> Option<int> {
    pick_index(mask_unfitting(facts_of(qs), max_sec), strat)
}

/// The position of the best free quest that fits the optional duration cap.
pub fn best_quest_index(qs: &Vec<Quest>, strat: MissionStrategy, max_sec: Option<u64>) -> (r:
    Option<usize>)
    ensures
        match spec_pick_quest(qs@, strat, max_sec) {
            Some(j) => r matches Some(b) && b == j && b < qs@.len(),
            None => r is None,
        },
{
    let ghost masked = mask_unfitting(facts_of(qs@), max_sec);
    proof {
        assert(masked.len() == qs@.len());
    }
    let mut mg: i64 = 0;
    let mut mx: i64 = 0;
    let mut i: usize = 0;
    while i < qs.len()
        invariant
            0 <= i <= qs@.len(),
            masked == mask_unfitting(facts_of(qs@), max_sec),
            masked.len() == qs@.len(),
            mg == max_gold_rate(masked.take(i as int)),
            mx == max_xp_rate(masked.take(i as int)),
            0 <= mg,
            0 <= mx,
        decreases qs@.len() - i,
    {
        let q = &qs[i];
        proof {
            assert(facts_of(qs@)[i as int] == q.facts());
        }
        let fit = match max_sec {
            Some(m) => (q.minutes as u64) * 60 <= m,
            None => true,
        };
        assert(fit == quest_fits(q.facts(), max_sec));
        assert(masked[i as int] == if quest_fits(q.facts(), max_sec) {
            q.facts()
        } else {
            MissionFacts {
                id: q.facts().id,
                minutes: q.facts().minutes,
                gold: q.facts().gold,
                xp: q.facts().xp,
                mushrooms: 1u8,
            }
        });
        if q.mushrooms == 0 && fit {
            let rg = rate(q.gold, q.minutes);
            if rg > mg {
                mg = rg;
            }
            let rx = rate(q.xp, q.minutes);
            if rx > mx {
                mx = rx;
            }
        }
        proof {
            assert(masked.take(i + 1).drop_last() =~= masked.take(i as int));
            assert(masked.take(i + 1).last() == masked[i as int]);
        }
        i = i + 1;
    }
    proof {
        assert(masked.take(qs@.len() as int) =~= masked);
    }
    let mut best: Option<usize> = None;
    let mut i: usize = 0;
    while i < qs.len()
        invariant
            0 <= i <= qs@.len(),
            masked == mask_unfitting(facts_of(qs@), max_sec),
            masked.len() == qs@.len(),
            mg == max_gold_rate(masked),
            mx == max_xp_rate(masked),
            0 <= mg,
            0 <= mx,
            match pick_rec(masked.take(i as int), strat, mg as int, mx as int) {
                Some(j) => best matches Some(b) && b == j,
                None => best is None,
            },
            best matches Some(b) ==> b < i && masked_is_true_facts(masked, b as int, qs@),
        decreases qs@.len() - i,
    {
        let q = &qs[i];
        proof {
            assert(facts_of(qs@)[i as int] == q.facts());
        }
        let fit = match max_sec {
            Some(m) => (q.minutes as u64) * 60 <= m,
            None => true,
        };
        assert(fit == quest_fits(q.facts(), max_sec));
        assert(masked[i as int] == if quest_fits(q.facts(), max_sec) {
            q.facts()
        } else {
            MissionFacts {
                id: q.facts().id,
                minutes: q.facts().minutes,
                gold: q.facts().gold,
                xp: q.facts().xp,
                mushrooms: 1u8,
            }
        });
        if q.mushrooms == 0 && fit {
            assert(masked[i as int] == q.facts());
            best = match best {
                None => Some(i),
                Some(b) => {
                    assert(facts_of(qs@)[b as int] == qs@[b as int].facts());
                    if mission_better(strat, q, &qs[b], mg, mx) {
                        Some(i)
                    } else {
                        Some(b)
                    }
                },
            };
        } else {
            assert(!crate::missions::is_free(masked[i as int]));
        }
        proof {
            assert(masked.take(i + 1).drop_last() =~= masked.take(i as int));
            assert(masked.take(i + 1).last() == masked[i as int]);
        }
        i = i + 1;
    }
    proof {
        assert(masked.take(qs@.len() as int) =~= masked);
    }
    best
}

/// Whether position `b` of the masked list is a free, fitting quest whose
/// masked facts equal its true facts.
spec fn masked_is_true_facts(masked: Seq<MissionFacts>, b: int, qs: Seq<Quest>) -> bool {
    &&& crate::missions::is_free(masked[b])
    &&& masked[b] == qs[b].facts()
}

/// The daily beer cap: ten, plus one with the thirst-raising enchantment.
pub open spec fn beer_cap_spec(thirsty_wanderer: bool) -> int {
    10 + if thirsty_wanderer {
        1int
    } else {
        0int
    }
}

/// Whether another beer can be bought: buying is enabled, the beer budget is
/// nonzero, premium currency is available, and the daily cap is not reached.
pub open spec fn spec_can_buy_beer(cfg: CharacterConfig, ch: CharacterState, beer_drunk: u8) -> bool {
    &&& cfg.auto_buy_beer_mushrooms
    &&& cfg.max_mushrooms_beer > 0
    &&& ch.mushrooms > 0
    &&& (beer_drunk as int) < beer_cap_spec(ch.thirsty_wanderer)
}

fn can_buy_beer(cfg: &CharacterConfig, ch: &CharacterState, beer_drunk: u8) -> (r: bool)
    ensures
        r == spec_can_buy_beer(*cfg, *ch, beer_drunk),
{
    let cap: u8 = if ch.thirsty_wanderer {
        11
    } else {
        10
    };
    cfg.auto_buy_beer_mushrooms && cfg.max_mushrooms_beer > 0 && ch.mushrooms > 0 && beer_drunk
        < cap
}

/// The idle-tavern layer: start the best quest or expedition. When
/// expeditions are offered and enabled, switch the preference first if needed,
/// then start the first expedition while thirst remains. When quests are
/// offered and enabled, score them; if the best quest does not fit the
/// remaining thirst, buy beer when allowed, else start the best quest that
/// does fit; when nothing fits, do nothing this tick.
pub open spec fn spec_start_action(
    cfg: CharacterConfig,
    t: TavernState,
    ch: CharacterState,
) -> Option<Command> {
    match t.available {
        AvailableTasks::Expeditions => if cfg.auto_expeditions {
            if t.prefers_quests && t.can_change_preference {
                Some(Command::PreferExpeditions)
            } else if t.thirst_for_adventure_sec > 0 {
                Some(Command::ExpeditionStart { pos: 0 })
            } else {
                None
            }
        } else {
            None
        },
        AvailableTasks::Quests(qs) => if cfg.auto_tavern {
            match spec_pick_quest(qs@, cfg.mission_strategy, None) {
                None => None,
                Some(j) => if qs@[j].minutes * 60 > t.thirst_for_adventure_sec {
                    if spec_can_buy_beer(cfg, ch, t.beer_drunk) {
                        Some(Command::BuyBeer)
                    } else {
                        match spec_pick_quest(
                            qs@,
                            cfg.mission_strategy,
                            Some(t.thirst_for_adventure_sec as u64),
                        ) {
                            Some(k) => Some(
                                Command::StartQuest { quest_pos: k as usize, overwrite_inv: true },
                            ),
                            None => None,
                        }
                    }
                } else {
                    Some(Command::StartQuest { quest_pos: j as usize, overwrite_inv: true })
                },
            }
        } else {
            None
        },
    }
}

/// The idle-tavern layer.
pub fn start_action(cfg: &CharacterConfig, t: &TavernState, ch: &CharacterState) -> (r: Option<
    Command,
>)
    ensures
        r == spec_start_action(*cfg, *t, *ch),
{
    match &t.available {
        AvailableTasks::Expeditions => {
            if cfg.auto_expeditions {
                if t.prefers_quests && t.can_change_preference {
                    Some(Command::PreferExpeditions)
                } else if t.thirst_for_adventure_sec > 0 {
                    Some(Command::ExpeditionStart { pos: 0 })
                } else {
                    None
                }
            } else {
                None
            }
        },
        AvailableTasks::Quests(qs) => {
            if !cfg.auto_tavern {
                return None;
            }
            let j = match best_quest_index(qs, cfg.mission_strategy, None) {
                None => {
                    return None;
                },
                Some(j) => j,
            };
            let picked = &qs[j];
            if (picked.minutes as u64) * 60 > (t.thirst_for_adventure_sec as u64) {
                if can_buy_beer(cfg, ch, t.beer_drunk) {
                    Some(Command::BuyBeer)
                } else {
                    match best_quest_index(
                        qs,
                        cfg.mission_strategy,
                        Some(t.thirst_for_adventure_sec as u64),
                    ) {
                        Some(k) => Some(Command::StartQuest { quest_pos: k, overwrite_inv: true }),
                        None => None,
                    }
                }
            } else {
                Some(Command::StartQuest { quest_pos: j, overwrite_inv: true })
            }
        },
    }
}

// ---------------------------------------------------------------------------
// Layer 5: guard-duty fallback
// ---------------------------------------------------------------------------
/// The guard-duty fallback: when tavern automation is on, thirst is exhausted
/// and beer cannot restore it, start a one-hour guard shift as the fallback
/// productive action. Runs only after every other layer found nothing.
pub open spec fn spec_guard_fallback(
    cfg: CharacterConfig,
    t: TavernState,
    ch: CharacterState,
) -> Option<Command> {
    if (cfg.auto_tavern || cfg.auto_expeditions) && t.thirst_for_adventure_sec == 0 {
        if beer_cap_spec(ch.thirsty_wanderer) - t.beer_drunk <= 0 || !spec_can_buy_beer(
            cfg,
            ch,
            t.beer_drunk,
        ) {
            Some(Command::StartWork { hours: 1 })
        } else {
            None
        }
    } else {
        None
    }
}

/// The guard-duty fallback layer.
pub fn guard_fallback_action(cfg: &CharacterConfig, t: &TavernState, ch: &CharacterState) -> (r:
    Option<Command>)
    ensures
        r == spec_guard_fallback(*cfg, *t, *ch),
{
    if (cfg.auto_tavern || cfg.auto_expeditions) && t.thirst_for_adventure_sec == 0 {
        let cap: u8 = if ch.thirsty_wanderer {
            11
        } else {
            10
        };
        if t.beer_drunk >= cap || !can_buy_beer(cfg, ch, t.beer_drunk) {
            Some(Command::StartWork { hours: 1 })
        } else {
            None
        }
    } else {
        None
    }
}

// ---------------------------------------------------------------------------
// The whole tick
// ---------------------------------------------------------------------------
/// Whether the tavern slot is free for starting something new.
pub open spec fn tavern_is_open(t: TavernStatus) -> bool {
    t is Idle || t is Unknown
}

/// Whether any subsystem is switched on. With every toggle off the tick must
/// not act on the account at all: it resolves to the no-op poll before any
/// layer is consulted.
pub open spec fn any_subsystem_enabled(cfg: CharacterConfig) -> bool {
    cfg.auto_tavern || cfg.auto_expeditions || cfg.auto_dungeons || cfg.auto_pets || cfg.auto_guild
}

/// The decision of one tick: the layers above, evaluated in order, with a
/// plain poll when none of them fires. With every subsystem disabled the tick
/// is the plain poll outright; otherwise starting a quest or expedition and
/// the guard-duty fallback are reached only when no tavern activity is
/// running.
pub open spec fn spec_decide(cfg: CharacterConfig, gs: GameStateSnapshot, now: i64) -> Command {
    if !any_subsystem_enabled(cfg) {
        Command::Update
    } else {
        spec_decide_enabled(cfg, gs, now)
    }
}

/// The decision of one tick once at least one subsystem is enabled.
pub open spec fn spec_decide_enabled(
    cfg: CharacterConfig,
    gs: GameStateSnapshot,
    now: i64,
) -> Command {
    match spec_tavern_status_action(cfg, gs, now) {
        Some(c) => c,
        None => match spec_dungeon_action(cfg, gs.dungeons, gs.character.mushrooms, now) {
            Some(c) => c,
            None => match spec_pets_action(cfg, gs.pets, gs.character.mushrooms, now) {
                Some(c) => c,
                None => {
                    let start = if tavern_is_open(gs.tavern.status) {
                        spec_start_action(cfg, gs.tavern, gs.character)
                    } else {
                        None
                    };
                    match start {
                        Some(c) => c,
                        None => match spec_guild_action(cfg, gs.guild, now) {
                            Some(c) => c,
                            None => {
                                let fb = if tavern_is_open(gs.tavern.status) {
                                    spec_guard_fallback(cfg, gs.tavern, gs.character)
                                } else {
                                    None
                                };
                                match fb {
                                    Some(c) => c,
                                    None => Command::Update,
                                }
                            },
                        },
                    }
                },
            },
        },
    }
}

/// Runs one decision tick: inspects the snapshot and configuration and
/// produces exactly one command, a plain poll when nothing else is due.
pub fn decide_tick(cfg: &CharacterConfig, gs: &GameStateSnapshot, now: i64) -> (r: Command)
    requires
        gs.wf(),
    ensures
        r == spec_decide(*cfg, *gs, now),
{
    if !(cfg.auto_tavern || cfg.auto_expeditions || cfg.auto_dungeons || cfg.auto_pets
        || cfg.auto_guild) {
        return Command::Update;
    }
    if let Some(c) = tavern_status_action(cfg, gs, now) {
        return c;
    }
    if let Some(c) = dungeon_action(cfg, &gs.dungeons, gs.character.mushrooms, now) {
        return c;
    }
    if let Some(c) = pets_action(cfg, &gs.pets, gs.character.mushrooms, now) {
        return c;
    }
    let open = matches!(gs.tavern.status, TavernStatus::Idle | TavernStatus::Unknown);
    if open {
        if let Some(c) = start_action(cfg, &gs.tavern, &gs.character) {
            return c;
        }
    }
    if let Some(c) = guild_action(cfg, &gs.guild, now) {
        return c;
    }
    if open {
        if let Some(c) = guard_fallback_action(cfg, &gs.tavern, &gs.character) {
            return c;
        }
    }
    Command::Update
}

/// Runs one decision tick at the current wall-clock time. The decision is the
/// pure `spec_decide` of whatever the clock read.
pub fn decide_tick_now(cfg: &CharacterConfig, gs: &GameStateSnapshot) -> (r: Command)
    requires
        gs.wf(),
    ensures
        exists|now: i64| r == spec_decide(*cfg, *gs, now),
{
    let now = crate::clock::now_epoch_seconds();
    decide_tick(cfg, gs, now)
}

} // verus!
