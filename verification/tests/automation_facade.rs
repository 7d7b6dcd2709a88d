use sf_autopilot::automation::{
    collect_due, expedition_of, loop_delay_secs, pick_expedition_mission, pick_quest_mission,
    quest_of, quests_of, start_possible, ExpeditionLike, QuestLike, TickOutcome,
};
use sf_autopilot::config::MissionStrategy;
use sf_autopilot::missions::Expedition;

const NOW: i64 = 1_700_000_000;

struct RawQuest(u32, u32, u64, u64, u8);

impl QuestLike for RawQuest {
    fn id(&self) -> u32 {
        self.0
    }
    fn minutes(&self) -> u32 {
        self.1
    }
    fn gold(&self) -> u64 {
        self.2
    }
    fn xp(&self) -> u64 {
        self.3
    }
    fn mushrooms(&self) -> u8 {
        self.4
    }
}

struct RawExpedition(u32, u32);

impl ExpeditionLike for RawExpedition {
    fn id(&self) -> u32 {
        self.0
    }
    fn minutes(&self) -> u32 {
        self.1
    }
    fn gold(&self) -> u64 {
        10
    }
    fn xp(&self) -> u64 {
        10
    }
    fn mushrooms(&self) -> u8 {
        0
    }
}

#[test]
fn client_quests_convert_and_score() {
    let raw = vec![
        RawQuest(1, 30, 100, 10, 0),
        RawQuest(2, 10, 100, 10, 0),
        RawQuest(3, 20, 100, 10, 1),
    ];
    let q = quest_of(&raw[0]);
    assert_eq!((q.id, q.minutes, q.gold, q.xp, q.mushrooms), (1, 30, 100, 10, 0));
    let quests = quests_of(&raw);
    assert_eq!(quests.len(), 3);
    let picked = pick_quest_mission(quests, MissionStrategy::Shortest).unwrap();
    assert_eq!(picked.id, 2);
}

#[test]
fn client_expeditions_convert_and_score() {
    let raw = vec![RawExpedition(4, 45), RawExpedition(5, 15)];
    let e: Expedition = expedition_of(&raw[0]);
    assert_eq!((e.id, e.minutes), (4, 45));
    let exps = vec![expedition_of(&raw[0]), expedition_of(&raw[1])];
    let picked = pick_expedition_mission(exps, MissionStrategy::Shortest).unwrap();
    assert_eq!(picked.id, 5);
}

#[test]
fn rewards_are_collected_only_after_the_end_time() {
    assert!(collect_due(Some(NOW - 1), NOW));
    assert!(collect_due(Some(NOW), NOW));
    assert!(!collect_due(Some(NOW + 1), NOW));
    assert!(!collect_due(None, NOW));
}

#[test]
fn starting_needs_no_running_activity() {
    assert!(start_possible(None, NOW));
    assert!(start_possible(Some(NOW - 5), NOW));
    assert!(!start_possible(Some(NOW + 5), NOW));
}

#[test]
fn the_loop_rests_longer_after_an_idle_tick() {
    assert_eq!(loop_delay_secs(true), 5);
    assert_eq!(loop_delay_secs(false), 30);
    let out = TickOutcome { did_something: true, summary: String::from("tavern:10m") };
    assert!(out.did_something);
    assert_eq!(out.summary, "tavern:10m");
}
