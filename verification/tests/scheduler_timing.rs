use sf_autopilot::remaining_minutes;
use sf_autopilot::scheduler::{
    attack_check_delay_ms, busy_retry_delay_ms, clamped_wait_ms, dispatch_retry_delay_ms,
    first_tick_delay_ms, lure_delay_ms, lure_possible, next_due, poll_delay_ms,
    prompt_tick_delay_ms, tick_retry_delay_ms, wait_before_tick_ms,
};
use sf_autopilot::scheduler::expedition_needs_prompt_tick;
use sf_autopilot::snapshot::{
    AvailableTasks, CharacterState, DungeonsState, ExpeditionStage, GameStateSnapshot, GuildState,
    PetsState, RewardKind, TavernState, TavernStatus,
};

const NOW: i64 = 1_700_000_000;

fn snapshot() -> GameStateSnapshot {
    GameStateSnapshot {
        tavern: TavernState {
            status: TavernStatus::Idle,
            expedition: None,
            quicksand_glasses: 0,
            thirst_for_adventure_sec: 0,
            beer_drunk: 0,
            prefers_quests: true,
            can_change_preference: false,
            available: AvailableTasks::Expeditions,
        },
        dungeons: DungeonsState {
            portal_can_fight: false,
            next_free_fight: Some(NOW + 500),
            tower_open: false,
            tower_finished: 0,
            dungeons: Vec::new(),
        },
        pets: None,
        guild: None,
        character: CharacterState { mushrooms: 0, thirsty_wanderer: false },
    }
}

#[test]
fn future_timers_yield_their_minimum() {
    let mut gs = snapshot();
    gs.tavern.status = TavernStatus::OnQuest { busy_until: NOW + 900 };
    gs.guild = Some(GuildState { hydra_remaining_fights: 1, hydra_next_battle: Some(NOW + 200) });
    let (due_now, due_at) = next_due(&gs, NOW);
    assert!(!due_now);
    assert_eq!(due_at, Some(NOW + 200));
}

#[test]
fn an_elapsed_quest_is_due_now() {
    let mut gs = snapshot();
    gs.tavern.status = TavernStatus::OnQuest { busy_until: NOW - 1 };
    let (due_now, due_at) = next_due(&gs, NOW);
    assert!(due_now);
    assert_eq!(due_at, Some(NOW + 500));
}

#[test]
fn an_unknown_pet_timer_counts_as_due() {
    let mut gs = snapshot();
    gs.pets = Some(PetsState {
        opponent_next_free_battle: None,
        opponent_habitat: None,
        opponent_id: 0,
        next_free_exploration: Some(NOW + 60),
        habitats: Vec::new(),
    });
    let (due_now, due_at) = next_due(&gs, NOW);
    assert!(due_now);
    assert_eq!(due_at, Some(NOW + 60));
}

#[test]
fn an_expedition_wait_is_a_timer() {
    let mut gs = snapshot();
    gs.tavern.status = TavernStatus::OnExpedition;
    gs.tavern.expedition = Some(ExpeditionStage::Waiting(NOW + 90));
    gs.dungeons.next_free_fight = Some(NOW + 500);
    let (due_now, due_at) = next_due(&gs, NOW);
    assert!(!due_now);
    assert_eq!(due_at, Some(NOW + 90));
}

#[test]
fn clamped_wait_converts_and_caps() {
    assert_eq!(clamped_wait_ms(NOW + 30, NOW), 30_000);
    assert_eq!(clamped_wait_ms(NOW + 119, NOW), 119_000);
    assert_eq!(clamped_wait_ms(NOW + 121, NOW), 120_000);
    assert_eq!(clamped_wait_ms(NOW + 86_400, NOW), 120_000);
    assert_eq!(clamped_wait_ms(NOW - 5, NOW), 0);
}

#[test]
fn due_now_waits_only_jitter() {
    for _ in 0..50 {
        let w = wait_before_tick_ms(true, Some(NOW + 500), NOW);
        assert!((700..=2400).contains(&w));
    }
}

#[test]
fn a_future_timer_waits_until_it_with_jitter() {
    for _ in 0..50 {
        let w = wait_before_tick_ms(false, Some(NOW + 30), NOW);
        assert!((30_300..=31_200).contains(&w));
    }
}

#[test]
fn no_known_timer_backs_off_long() {
    for _ in 0..50 {
        let w = wait_before_tick_ms(false, None, NOW);
        assert!((30_300..=61_200).contains(&w));
    }
}

#[test]
fn fixed_delay_envelopes_hold() {
    for _ in 0..50 {
        assert!((1500..=3500).contains(&busy_retry_delay_ms()));
        assert!((500..=1500).contains(&tick_retry_delay_ms()));
        assert!((400..=1200).contains(&dispatch_retry_delay_ms()));
        assert!((200..=600).contains(&first_tick_delay_ms()));
        assert!((30..=90).contains(&prompt_tick_delay_ms()));
        assert!((5000..=10_000).contains(&poll_delay_ms()));
        assert!((3000..=5000).contains(&lure_delay_ms(true)));
        assert!((5000..=10_000).contains(&lure_delay_ms(false)));
    }
}

#[test]
fn mid_sequence_expeditions_ask_for_a_prompt_tick() {
    assert!(expedition_needs_prompt_tick(&Some(ExpeditionStage::Boss)));
    assert!(expedition_needs_prompt_tick(&Some(ExpeditionStage::Rewards(vec![RewardKind::Gold]))));
    assert!(expedition_needs_prompt_tick(&Some(ExpeditionStage::Encounters { count: 2 })));
    assert!(!expedition_needs_prompt_tick(&Some(ExpeditionStage::Waiting(NOW + 5))));
    assert!(!expedition_needs_prompt_tick(&Some(ExpeditionStage::Finished)));
    assert!(!expedition_needs_prompt_tick(&Some(ExpeditionStage::Unknown)));
    assert!(!expedition_needs_prompt_tick(&None));
}

#[test]
fn attack_delay_waits_out_the_cooldown() {
    for _ in 0..50 {
        let w = attack_check_delay_ms(Some(NOW + 10), NOW);
        assert!((11_000..=13_000).contains(&w));
        let w = attack_check_delay_ms(Some(NOW - 10), NOW);
        assert!((1000..=3000).contains(&w));
        let w = attack_check_delay_ms(None, NOW);
        assert!((1000..=3000).contains(&w));
    }
}

#[test]
fn lures_are_possible_below_the_daily_cap() {
    assert!(lure_possible(Some(0)));
    assert!(lure_possible(Some(4)));
    assert!(!lure_possible(Some(5)));
    assert!(!lure_possible(None));
}

#[test]
fn remaining_minutes_rounds_up() {
    assert_eq!(remaining_minutes(NOW + 61, NOW), 2);
    assert_eq!(remaining_minutes(NOW + 60, NOW), 1);
    assert_eq!(remaining_minutes(NOW + 1, NOW), 1);
    assert_eq!(remaining_minutes(NOW, NOW), 0);
    assert_eq!(remaining_minutes(NOW - 100, NOW), 0);
}
