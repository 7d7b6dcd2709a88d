use sf_autopilot::config::MissionStrategy;
use sf_autopilot::missions::{pick_mission, rate, Expedition, Quest};

fn quest(id: u32, minutes: u32, gold: u64, xp: u64, mushrooms: u8) -> Quest {
    Quest { id, minutes, gold, xp, mushrooms }
}

#[test]
fn rate_is_scaled_reward_per_minute() {
    assert_eq!(rate(120, 2), 60_000_000);
    assert_eq!(rate(1, 3), 333_333);
    assert_eq!(rate(0, 10), 0);
}

#[test]
fn rate_saturates_on_zero_minutes() {
    assert_eq!(rate(5, 0), i64::MAX);
    assert_eq!(rate(0, 0), i64::MAX);
}

#[test]
fn rate_saturates_on_huge_values() {
    assert_eq!(rate(u64::MAX, 1), i64::MAX);
}

#[test]
fn empty_list_selects_nothing() {
    let all = [
        MissionStrategy::Shortest,
        MissionStrategy::MostGold,
        MissionStrategy::BestGoldPerMinute,
        MissionStrategy::BestXpPerMinute,
        MissionStrategy::Smartest,
    ];
    for strat in all {
        assert!(pick_mission(Vec::<Quest>::new(), strat).is_none());
    }
}

#[test]
fn all_premium_candidates_select_nothing_under_every_strategy() {
    let all = [
        MissionStrategy::Shortest,
        MissionStrategy::MostGold,
        MissionStrategy::BestGoldPerMinute,
        MissionStrategy::BestXpPerMinute,
        MissionStrategy::Smartest,
    ];
    for strat in all {
        let items = vec![
            quest(1, 5, 1000, 1000, 1),
            quest(2, 50, 90, 20, 3),
            quest(3, 1, 1, 1, 255),
        ];
        assert!(pick_mission(items, strat).is_none());
    }
}

#[test]
fn shortest_picks_the_minimal_duration() {
    let items = vec![
        quest(1, 30, 10, 10, 0),
        quest(2, 10, 10, 10, 0),
        quest(3, 20, 10, 10, 0),
    ];
    let picked = pick_mission(items.clone(), MissionStrategy::Shortest).unwrap();
    assert_eq!(picked.id, 2);
    for q in &items {
        if q.mushrooms == 0 {
            assert!(picked.minutes <= q.minutes);
        }
    }
}

#[test]
fn shortest_breaks_duration_ties_by_more_gold() {
    let items = vec![
        quest(1, 10, 50, 10, 0),
        quest(2, 10, 200, 10, 0),
        quest(3, 10, 200, 99, 0),
    ];
    // the second and third tie on (duration, gold); the first seen is kept
    assert_eq!(pick_mission(items, MissionStrategy::Shortest).unwrap().id, 2);
}

#[test]
fn shortest_skips_premium_candidates() {
    let items = vec![
        quest(1, 1, 10, 10, 1),
        quest(2, 40, 10, 10, 0),
    ];
    assert_eq!(pick_mission(items, MissionStrategy::Shortest).unwrap().id, 2);
}

#[test]
fn most_gold_picks_the_largest_reward() {
    let items = vec![
        quest(1, 10, 300, 10, 0),
        quest(2, 90, 900, 10, 0),
        quest(3, 5, 900, 10, 0),
    ];
    // ties keep the first seen
    assert_eq!(pick_mission(items, MissionStrategy::MostGold).unwrap().id, 2);
}

#[test]
fn best_gold_per_minute_uses_scaled_rates() {
    let items = vec![
        quest(1, 10, 100, 10, 0),  // 10 gold/minute
        quest(2, 3, 90, 10, 0),    // 30 gold/minute
        quest(3, 60, 1200, 10, 0), // 20 gold/minute
    ];
    assert_eq!(pick_mission(items, MissionStrategy::BestGoldPerMinute).unwrap().id, 2);
}

#[test]
fn best_xp_per_minute_prefers_instant_missions() {
    let items = vec![
        quest(1, 10, 100, 500, 0),
        quest(2, 0, 1, 1, 0), // zero minutes rank at the sentinel
    ];
    assert_eq!(pick_mission(items, MissionStrategy::BestXpPerMinute).unwrap().id, 2);
}

#[test]
fn smartest_weighs_both_rates_and_speed() {
    // gold rates: 10m/min vs 15m/min; xp rates: 5m/min vs 0.5m/min.
    // normalized scores: 40*0.667 + 40*1.0 + 20*0.1 vs 40*1.0 + 40*0.1 + 20*0.05
    let items = vec![
        quest(1, 10, 100, 50, 0),
        quest(2, 20, 300, 10, 0),
    ];
    assert_eq!(pick_mission(items, MissionStrategy::Smartest).unwrap().id, 1);
}

#[test]
fn smartest_selection_is_reproducible() {
    let items = vec![
        quest(1, 7, 210, 35, 0),
        quest(2, 13, 390, 130, 0),
        quest(3, 29, 870, 29, 0),
        quest(4, 1, 10, 99, 0),
    ];
    let first = pick_mission(items.clone(), MissionStrategy::Smartest).unwrap();
    let second = pick_mission(items.clone(), MissionStrategy::Smartest).unwrap();
    assert_eq!(first.id, second.id);
    let third = pick_mission(items, MissionStrategy::Smartest).unwrap();
    assert_eq!(first.id, third.id);
}

#[test]
fn expeditions_score_like_quests() {
    let items = vec![
        Expedition { id: 1, minutes: 30, gold: 10, xp: 10, mushrooms: 0 },
        Expedition { id: 2, minutes: 10, gold: 10, xp: 10, mushrooms: 0 },
    ];
    assert_eq!(pick_mission(items, MissionStrategy::Shortest).unwrap().id, 2);
}
