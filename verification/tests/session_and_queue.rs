use sf_autopilot::command::{is_primary, Command};
use sf_autopilot::queue::{dequeue_command, dispatch_command, enqueue_command, next_queued};
use sf_autopilot::session::AccountStatus;
use sf_autopilot::snapshot::{
    AvailableTasks, CharacterState, DungeonsState, GameStateSnapshot, TavernState, TavernStatus,
};

fn snapshot() -> GameStateSnapshot {
    GameStateSnapshot {
        tavern: TavernState {
            status: TavernStatus::Idle,
            expedition: None,
            quicksand_glasses: 0,
            thirst_for_adventure_sec: 0,
            beer_drunk: 0,
            prefers_quests: true,
            can_change_preference: false,
            available: AvailableTasks::Expeditions,
        },
        dungeons: DungeonsState {
            portal_can_fight: false,
            next_free_fight: None,
            tower_open: false,
            tower_finished: 0,
            dungeons: Vec::new(),
        },
        pets: None,
        guild: None,
        character: CharacterState { mushrooms: 0, thirsty_wanderer: false },
    }
}

#[test]
fn take_moves_idle_to_busy_and_returns_the_handle() {
    let mut st: AccountStatus<u32> = AccountStatus::Idle(7, snapshot());
    let taken = st.take_session(String::from("poll"));
    assert_eq!(taken, Some(7));
    assert!(matches!(st, AccountStatus::Busy(_, _)));
    // a second take finds no handle
    assert_eq!(st.take_session(String::from("poll")), None);
    assert!(matches!(st, AccountStatus::Busy(_, _)));
}

#[test]
fn restore_reattaches_the_handle_exactly_once() {
    let mut st: AccountStatus<u32> = AccountStatus::Idle(3, snapshot());
    let taken = st.take_session(String::from("fight")).unwrap();
    st.put_session(taken);
    assert!(matches!(st, AccountStatus::Idle(3, _)));
    // after a full take/restore round trip the handle is usable again
    assert_eq!(st.take_session(String::from("fight")), Some(3));
}

#[test]
fn take_from_other_states_returns_nothing_and_changes_nothing() {
    let mut st: AccountStatus<u32> = AccountStatus::LoggingIn;
    assert_eq!(st.take_session(String::from("x")), None);
    assert!(matches!(st, AccountStatus::LoggingIn));

    let mut st: AccountStatus<u32> = AccountStatus::FatalError(String::from("gone"));
    assert_eq!(st.take_session(String::from("x")), None);
    assert!(matches!(st, AccountStatus::FatalError(_)));
}

#[test]
fn restore_outside_busy_drops_the_handle() {
    let mut st: AccountStatus<u32> = AccountStatus::LoggingInAgain;
    st.put_session(9);
    assert!(matches!(st, AccountStatus::LoggingInAgain));
}

#[test]
fn is_idle_reports_only_idle() {
    let st: AccountStatus<u32> = AccountStatus::Idle(1, snapshot());
    assert!(st.is_idle());
    let st: AccountStatus<u32> = AccountStatus::Busy(snapshot(), String::from("x"));
    assert!(!st.is_idle());
}

#[test]
fn primary_classification_follows_the_command_family() {
    assert!(is_primary(&Command::StartQuest { quest_pos: 0, overwrite_inv: true }));
    assert!(is_primary(&Command::FinishQuest { skip: None }));
    assert!(is_primary(&Command::BuyBeer));
    assert!(is_primary(&Command::ExpeditionContinue));
    assert!(is_primary(&Command::StartWork { hours: 1 }));
    assert!(is_primary(&Command::FinishWork));
    assert!(!is_primary(&Command::FightPortal));
    assert!(!is_primary(&Command::GuildJoinDefense));
    assert!(!is_primary(&Command::FightPetOpponent { habitat: 1, opponent_id: 2 }));
    assert!(!is_primary(&Command::Update));
}

#[test]
fn update_is_never_queued() {
    let mut q: Vec<Command> = Vec::new();
    assert!(!enqueue_command(&mut q, Command::Update));
    assert!(q.is_empty());
}

#[test]
fn side_commands_queue_without_deduplication() {
    let mut q: Vec<Command> = Vec::new();
    let side = Command::FightDungeon { dungeon: 3, use_mushroom: false };
    assert!(enqueue_command(&mut q, side.clone()));
    assert!(enqueue_command(&mut q, side.clone()));
    assert_eq!(q.len(), 2);
}

#[test]
fn a_second_primary_command_is_dropped() {
    let mut q: Vec<Command> = Vec::new();
    assert!(enqueue_command(&mut q, Command::FinishQuest { skip: None }));
    assert!(!enqueue_command(&mut q, Command::StartWork { hours: 1 }));
    assert_eq!(q.len(), 1);
    // side actions still pass, and a primary after them is still refused
    assert!(enqueue_command(&mut q, Command::FightPortal));
    assert!(!enqueue_command(&mut q, Command::BuyBeer));
    assert_eq!(q.len(), 2);
}

#[test]
fn dequeue_is_first_in_first_out() {
    let mut q: Vec<Command> = Vec::new();
    enqueue_command(&mut q, Command::FinishQuest { skip: None });
    enqueue_command(&mut q, Command::FightPortal);
    assert_eq!(dequeue_command(&mut q), Some(Command::FinishQuest { skip: None }));
    assert_eq!(dequeue_command(&mut q), Some(Command::FightPortal));
    assert_eq!(dequeue_command(&mut q), None);
}

#[test]
fn dispatch_sends_immediately_when_the_handle_is_free() {
    let mut st: AccountStatus<u32> = AccountStatus::Idle(5, snapshot());
    let mut q: Vec<Command> = Vec::new();
    let r = dispatch_command(&mut st, &mut q, Command::FightPortal, String::from("tick"));
    assert_eq!(r, Some((5, Command::FightPortal)));
    assert!(matches!(st, AccountStatus::Busy(_, _)));
    assert!(q.is_empty());
}

#[test]
fn busy_dispatch_queues_side_actions_twice_but_one_primary() {
    let mut st: AccountStatus<u32> = AccountStatus::Busy(snapshot(), String::from("poll"));
    let mut q: Vec<Command> = Vec::new();
    let side = Command::FightDungeon { dungeon: 1, use_mushroom: false };
    assert_eq!(dispatch_command(&mut st, &mut q, side.clone(), String::from("t")), None);
    assert_eq!(dispatch_command(&mut st, &mut q, side.clone(), String::from("t")), None);
    assert_eq!(q.len(), 2);
    assert_eq!(
        dispatch_command(&mut st, &mut q, Command::FinishQuest { skip: None }, String::from("t")),
        None
    );
    assert_eq!(
        dispatch_command(&mut st, &mut q, Command::StartQuest { quest_pos: 0, overwrite_inv: true }, String::from("t")),
        None
    );
    assert_eq!(q.len(), 3);
    assert_eq!(q[2], Command::FinishQuest { skip: None });
}

#[test]
fn queue_drains_front_first_when_idle_again() {
    let mut st: AccountStatus<u32> = AccountStatus::Busy(snapshot(), String::from("poll"));
    let mut q: Vec<Command> = Vec::new();
    enqueue_command(&mut q, Command::FightPortal);
    enqueue_command(&mut q, Command::FinishQuest { skip: None });
    // still busy: nothing drains
    assert_eq!(next_queued(&mut st, &mut q, String::from("drain")), None);
    assert_eq!(q.len(), 2);
    st.put_session(5);
    let r = next_queued(&mut st, &mut q, String::from("drain"));
    assert_eq!(r, Some((5, Command::FightPortal)));
    assert_eq!(q.len(), 1);
    assert!(matches!(st, AccountStatus::Busy(_, _)));
    // an empty queue never takes the handle
    st.put_session(5);
    let mut empty: Vec<Command> = Vec::new();
    assert_eq!(next_queued(&mut st, &mut empty, String::from("drain")), None);
    assert!(st.is_idle());
}
