use sf_autopilot::accounts::{random_base_name, AccountConfig, AccountCreds, Config};
use sf_autopilot::config::{
    default_blacklist_threshhold, default_class_icons, default_expedition_reward_priority,
    default_start_threads, default_strategy, default_threads, default_true, default_ui_refresh_ms,
    AutomationCfg, AvailableTheme, CharacterConfig, ExpeditionRewardPriority, MissionStrategy,
    SFAccCharacter, SFCharIdent,
};

#[test]
fn overview_actions_carry_their_payload() {
    let a = sf_autopilot::OverviewAction::AutoBattle(true);
    assert!(matches!(a, sf_autopilot::OverviewAction::AutoBattle(true)));
    assert_ne!(a, sf_autopilot::OverviewAction::Logout);
}

#[test]
fn defaults_match_the_documented_values() {
    assert_eq!(default_threads(), 10);
    assert_eq!(default_start_threads(), 1);
    assert_eq!(default_ui_refresh_ms(), 1000);
    assert_eq!(default_blacklist_threshhold(), 2);
    assert!(default_class_icons());
    assert!(default_true());
    assert_eq!(default_strategy(), MissionStrategy::Smartest);
    assert_eq!(
        default_expedition_reward_priority(),
        ExpeditionRewardPriority::MushroomsGoldEggs
    );
}

#[test]
fn character_config_defaults_are_conservative() {
    let c = CharacterConfig::default();
    assert!(!c.auto_tavern);
    assert!(!c.auto_expeditions);
    assert!(!c.auto_dungeons);
    assert!(!c.auto_pets);
    assert!(!c.auto_guild);
    assert_eq!(c.mission_strategy, MissionStrategy::Smartest);
    assert_eq!(c.max_mushrooms_beer, 0);
    assert_eq!(c.max_mushrooms_dungeon_skip, 0);
    assert_eq!(c.max_mushrooms_pet_skip, 0);
    assert!(!c.use_glasses_for_tavern);
    assert!(!c.use_glasses_for_expeditions);
}

#[test]
fn strategy_and_priority_labels() {
    assert_eq!(MissionStrategy::Shortest.label(), "Shortest");
    assert_eq!(MissionStrategy::BestGoldPerMinute.label(), "BestGoldPerMinute");
    assert_eq!(
        ExpeditionRewardPriority::EggsMushroomsGold.label(),
        "Pet eggs > Mushrooms > Gold"
    );
}

#[test]
fn theme_names_and_default() {
    assert_eq!(AvailableTheme::default(), AvailableTheme::Dark);
    assert_eq!(AvailableTheme::Nord.name(), "Nord");
    assert_eq!(AvailableTheme::TokyoNightStorm.name(), "Tokyo Night Storm");
    assert_eq!(AvailableTheme::CatppuccinMocha.name(), "Catppuccin Mocha");
}

#[test]
fn automation_cfg_copies_the_toggles() {
    let mut c = CharacterConfig::default();
    c.auto_tavern = true;
    c.auto_pets = true;
    c.mission_strategy = MissionStrategy::MostGold;
    let a = AutomationCfg::from(&c);
    assert!(a.auto_tavern);
    assert!(!a.auto_expeditions);
    assert!(!a.auto_dungeons);
    assert!(a.auto_pets);
    assert_eq!(a.mission_strategy, MissionStrategy::MostGold);
}

#[test]
fn fresh_accounts_get_default_configs() {
    let acc = AccountConfig::new(AccountCreds::Regular {
        name: String::from("Alice"),
        server: String::from("s1.example.net"),
    });
    match &acc {
        AccountConfig::Regular { name, server, config } => {
            assert_eq!(name, "Alice");
            assert_eq!(server, "s1.example.net");
            assert!(!config.auto_tavern);
        },
        _ => panic!("expected a regular account"),
    }
    let creds = AccountCreds::from(acc);
    match creds {
        AccountCreds::Regular { name, .. } => assert_eq!(name, "Alice"),
        _ => panic!("expected regular credentials"),
    }

    let acc = AccountConfig::new(AccountCreds::SF { name: String::from("Bob") });
    match &acc {
        AccountConfig::SF { name, characters } => {
            assert_eq!(name, "Bob");
            assert!(characters.is_empty());
        },
        _ => panic!("expected a single-sign-on account"),
    }
}

#[test]
fn base_names_are_short_uppercase_led_identifiers() {
    for _ in 0..30 {
        let n = random_base_name();
        assert!(n.len() >= 7 && n.len() <= 8, "bad length: {}", n);
        let first = n.chars().next().unwrap();
        assert!(first.is_ascii_uppercase());
        assert!(n.chars().all(|c| c.is_ascii_alphanumeric()));
    }
}

#[test]
fn fresh_config_defaults() {
    let c = Config::default();
    assert!(c.accounts.is_empty());
    assert_eq!(c.theme, AvailableTheme::Nord);
    assert!(c.auto_fetch_newest);
    assert!(!c.auto_poll);
    assert_eq!(c.ui_refresh_ms, 1000);
    assert_eq!(c.max_threads, 10);
    assert_eq!(c.start_threads, 1);
    assert_eq!(c.blacklist_threshold, 2);
}

fn marked(strategy: MissionStrategy) -> CharacterConfig {
    let mut c = CharacterConfig::default();
    c.mission_strategy = strategy;
    c
}

fn regular(name: &str, server: &str, strategy: MissionStrategy) -> AccountConfig {
    AccountConfig::Regular {
        name: String::from(name),
        server: String::from(server),
        config: marked(strategy),
    }
}

fn sf_char(name: &str, server: &str, strategy: MissionStrategy) -> SFAccCharacter {
    SFAccCharacter {
        ident: SFCharIdent { name: String::from(name), server: String::from(server) },
        config: marked(strategy),
    }
}

#[test]
fn lookup_ignores_case_and_whitespace() {
    let mut c = Config::default();
    c.accounts.push(regular("ALICE", "S1.Example.Net ", MissionStrategy::MostGold));
    let found = c.get_char_conf(" alice", "s1.example.net").unwrap();
    assert_eq!(found.mission_strategy, MissionStrategy::MostGold);
    assert!(c.get_char_conf("alice", "s2.example.net").is_none());
    assert!(c.get_char_conf("bob", "s1.example.net").is_none());
}

#[test]
fn first_regular_match_wins() {
    let mut c = Config::default();
    c.accounts.push(regular("alice", "s1", MissionStrategy::MostGold));
    c.accounts.push(regular("alice", "s1", MissionStrategy::Shortest));
    let found = c.get_char_conf("alice", "s1").unwrap();
    assert_eq!(found.mission_strategy, MissionStrategy::MostGold);
}

#[test]
fn last_sso_character_match_wins() {
    let mut c = Config::default();
    c.accounts.push(AccountConfig::SF {
        name: String::from("acct"),
        characters: vec![
            sf_char("carol", "s3", MissionStrategy::MostGold),
            sf_char("carol", "s3", MissionStrategy::BestXpPerMinute),
        ],
    });
    let found = c.get_char_conf("carol", "s3").unwrap();
    assert_eq!(found.mission_strategy, MissionStrategy::BestXpPerMinute);
}

#[test]
fn a_regular_match_beats_an_sso_match() {
    let mut c = Config::default();
    c.accounts.push(AccountConfig::SF {
        name: String::from("acct"),
        characters: vec![sf_char("dave", "s4", MissionStrategy::MostGold)],
    });
    c.accounts.push(regular("dave", "s4", MissionStrategy::Shortest));
    let found = c.get_char_conf("dave", "s4").unwrap();
    assert_eq!(found.mission_strategy, MissionStrategy::Shortest);
}

#[test]
fn set_char_conf_updates_the_found_character() {
    let mut c = Config::default();
    c.accounts.push(regular("alice", "s1", MissionStrategy::MostGold));
    c.accounts.push(AccountConfig::SF {
        name: String::from("acct"),
        characters: vec![sf_char("carol", "s3", MissionStrategy::MostGold)],
    });

    let mut nc = CharacterConfig::default();
    nc.auto_dungeons = true;
    assert!(c.set_char_conf("Alice", "S1", nc.clone()));
    assert!(c.get_char_conf("alice", "s1").unwrap().auto_dungeons);

    let mut nc2 = CharacterConfig::default();
    nc2.auto_pets = true;
    assert!(c.set_char_conf("carol", "s3", nc2));
    assert!(c.get_char_conf("carol", "s3").unwrap().auto_pets);
    assert!(!c.get_char_conf("carol", "s3").unwrap().auto_dungeons);

    assert!(!c.set_char_conf("nobody", "s9", CharacterConfig::default()));
}

#[test]
fn sso_accounts_are_found_by_name() {
    let mut c = Config::default();
    c.accounts.push(regular("alice", "s1", MissionStrategy::MostGold));
    c.accounts.push(AccountConfig::SF {
        name: String::from("Main Account"),
        characters: vec![sf_char("carol", "s3", MissionStrategy::MostGold)],
    });
    let chars = c.get_sso_accounts("main account ").unwrap();
    assert_eq!(chars.len(), 1);
    assert_eq!(chars[0].ident.name, "carol");
    assert!(c.get_sso_accounts("other").is_none());
}
