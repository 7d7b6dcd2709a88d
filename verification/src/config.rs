//! Per-character configuration: subsystem toggles, premium-currency budgets,
//! and the mission-selection strategy.

use vstd::prelude::*;

verus! {

/// How the mission scorer ranks candidate quests and expeditions.
#[derive(Debug, Clone, Copy, PartialEq, Eq, Structural)]
pub enum MissionStrategy {
    Shortest,
    MostGold,
    BestGoldPerMinute,
    BestXpPerMinute,
    Smartest,
}

impl Default for MissionStrategy {
    fn default() -> (r: Self)
        ensures
            r == MissionStrategy::Smartest,
    {
        MissionStrategy::Smartest
    }
}

impl MissionStrategy {
    /// The strategy's display label.
    pub open spec fn label_spec(self) -> Seq<char> {
        match self {
            MissionStrategy::Shortest => "Shortest"@,
            MissionStrategy::MostGold => "MostGold"@,
            MissionStrategy::BestGoldPerMinute => "BestGoldPerMinute"@,
            MissionStrategy::BestXpPerMinute => "BestXpPerMinute"@,
            MissionStrategy::Smartest => "Smartest"@,
        }
    }

    pub fn label(&self) -> (r: String)
        ensures
            r@ == self.label_spec(),
    {
        match self {
            MissionStrategy::Shortest => String::from_str("Shortest"),
            MissionStrategy::MostGold => String::from_str("MostGold"),
            MissionStrategy::BestGoldPerMinute => String::from_str("BestGoldPerMinute"),
            MissionStrategy::BestXpPerMinute => String::from_str("BestXpPerMinute"),
            MissionStrategy::Smartest => String::from_str("Smartest"),
        }
    }
}

/// Which expedition reward class is taken first when a choice is offered.
#[derive(Debug, Clone, Copy, PartialEq, Eq, Structural)]
pub enum ExpeditionRewardPriority {
    /// Mushrooms > gold/silver > pet egg > other.
    MushroomsGoldEggs,
    /// Gold/silver > mushrooms > pet egg > other.
    GoldMushroomsEggs,
    /// Pet egg > mushrooms > gold/silver > other.
    EggsMushroomsGold,
}

impl Default for ExpeditionRewardPriority {
    fn default() -> (r: Self)
        ensures
            r == ExpeditionRewardPriority::MushroomsGoldEggs,
    {
        ExpeditionRewardPriority::MushroomsGoldEggs
    }
}

impl ExpeditionRewardPriority {
    pub open spec fn label_spec(self) -> Seq<char> {
        match self {
            ExpeditionRewardPriority::MushroomsGoldEggs => "Mushrooms > Gold > Eggs"@,
            ExpeditionRewardPriority::GoldMushroomsEggs => "Gold > Mushrooms > Eggs"@,
            ExpeditionRewardPriority::EggsMushroomsGold => "Pet eggs > Mushrooms > Gold"@,
        }
    }

    pub fn label(&self) -> (r: String)
        ensures
            r@ == self.label_spec(),
    {
        match self {
            ExpeditionRewardPriority::MushroomsGoldEggs => String::from_str("Mushrooms > Gold > Eggs"),
            ExpeditionRewardPriority::GoldMushroomsEggs => String::from_str("Gold > Mushrooms > Eggs"),
            ExpeditionRewardPriority::EggsMushroomsGold => String::from_str("Pet eggs > Mushrooms > Gold"),
        }
    }
}

/// Persisted per-character toggles and budgets.
///
/// Each `max_mushrooms_*` field is a premium-currency spend ceiling used only
/// to skip a cooldown; a ceiling of zero means that kind of spend never
/// happens.
#[derive(Debug, Clone)]
pub struct CharacterConfig {
    pub login: bool,
    pub auto_battle: bool,
    pub auto_lure: bool,

    pub auto_tavern: bool,
    pub auto_expeditions: bool,
    pub auto_dungeons: bool,
    pub auto_pets: bool,
    pub auto_guild: bool,
    pub auto_guild_accept_defense: bool,
    pub auto_guild_accept_attack: bool,
    pub auto_guild_hydra: bool,

    pub mission_strategy: MissionStrategy,
    pub reserve_mushrooms: u32,

    pub auto_buy_beer_mushrooms: bool,
    pub use_glasses_for_tavern: bool,

    pub max_mushrooms_beer: u32,
    pub max_mushrooms_dungeon_skip: u32,
    pub max_mushrooms_pet_skip: u32,

    pub use_glasses_for_expeditions: bool,
    pub expedition_reward_priority: ExpeditionRewardPriority,
}

/// The configuration a fresh character starts with: every toggle off, the
/// Smartest strategy, zero budgets, and the usual reward priority.
pub open spec fn spec_default_character_config() -> CharacterConfig {
    CharacterConfig {
        login: false,
        auto_battle: false,
        auto_lure: false,
        auto_tavern: false,
        auto_expeditions: false,
        auto_dungeons: false,
        auto_pets: false,
        auto_guild: false,
        auto_guild_accept_defense: false,
        auto_guild_accept_attack: false,
        auto_guild_hydra: false,
        mission_strategy: MissionStrategy::Smartest,
        reserve_mushrooms: 0,
        auto_buy_beer_mushrooms: false,
        use_glasses_for_tavern: false,
        max_mushrooms_beer: 0,
        max_mushrooms_dungeon_skip: 0,
        max_mushrooms_pet_skip: 0,
        use_glasses_for_expeditions: false,
        expedition_reward_priority: ExpeditionRewardPriority::MushroomsGoldEggs,
    }
}

impl Default for CharacterConfig {
    fn default() -> (r: Self)
        ensures
            r == spec_default_character_config(),
    {
        CharacterConfig {
            login: false,
            auto_battle: false,
            auto_lure: false,
            auto_tavern: false,
            auto_expeditions: false,
            auto_dungeons: false,
            auto_pets: false,
            auto_guild: false,
            auto_guild_accept_defense: false,
            auto_guild_accept_attack: false,
            auto_guild_hydra: false,
            mission_strategy: MissionStrategy::Smartest,
            reserve_mushrooms: 0,
            auto_buy_beer_mushrooms: false,
            use_glasses_for_tavern: false,
            max_mushrooms_beer: 0,
            max_mushrooms_dungeon_skip: 0,
            max_mushrooms_pet_skip: 0,
            use_glasses_for_expeditions: false,
            expedition_reward_priority: ExpeditionRewardPriority::MushroomsGoldEggs,
        }
    }
}

/// One character of a single-sign-on account.
#[derive(Debug, Clone)]
pub struct SFCharIdent {
    pub name: String,
    pub server: String,
}

/// A single-sign-on character together with its configuration.
#[derive(Debug, Clone)]
pub struct SFAccCharacter {
    pub ident: SFCharIdent,
    pub config: CharacterConfig,
}

/// The subset of the character configuration that the per-tick automation
/// reads, detached so a tick does not need to borrow the whole configuration.
#[derive(Debug, Clone)]
pub struct AutomationCfg {
    pub auto_tavern: bool,
    pub auto_expeditions: bool,
    pub auto_dungeons: bool,
    pub auto_pets: bool,
    pub mission_strategy: MissionStrategy,
}

impl<'a> From<&'a CharacterConfig> for AutomationCfg {
    fn from(c: &'a CharacterConfig) -> (r: Self) {
        AutomationCfg {
            auto_tavern: c.auto_tavern,
            auto_expeditions: c.auto_expeditions,
            auto_dungeons: c.auto_dungeons,
            auto_pets: c.auto_pets,
            mission_strategy: c.mission_strategy,
        }
    }
}

impl<'a> vstd::std_specs::convert::FromSpecImpl<&'a CharacterConfig> for AutomationCfg {
    open spec fn obeys_from_spec() -> bool {
        true
    }

    open spec fn from_spec(c: &'a CharacterConfig) -> Self {
        AutomationCfg {
            auto_tavern: c.auto_tavern,
            auto_expeditions: c.auto_expeditions,
            auto_dungeons: c.auto_dungeons,
            auto_pets: c.auto_pets,
            mission_strategy: c.mission_strategy,
        }
    }
}

/// The color palettes the interface offers.
#[derive(Debug, Clone, Copy, PartialEq, Eq, Structural)]
pub enum AvailableTheme {
    Light,
    Dark,
    Dracula,
    Nord,
    SolarizedLight,
    SolarizedDark,
    GruvboxLight,
    GruvboxDark,
    CatppuccinLatte,
    CatppuccinFrappe,
    CatppuccinMacchiato,
    CatppuccinMocha,
    TokyoNight,
    TokyoNightStorm,
    TokyoNightLight,
    KanagawaWave,
    KanagawaDragon,
    KanagawaLotus,
    Moonfly,
    Nightfly,
    Oxocarbon,
}

impl Default for AvailableTheme {
    fn default() -> (r: Self)
        ensures
            r == AvailableTheme::Dark,
    {
        AvailableTheme::Dark
    }
}

impl AvailableTheme {
    /// The theme's display name.
    pub open spec fn name_spec(self) -> Seq<char> {
        match self {
            AvailableTheme::Light => "Light"@,
            AvailableTheme::Dark => "Dark"@,
            AvailableTheme::Dracula => "Dracula"@,
            AvailableTheme::Nord => "Nord"@,
            AvailableTheme::SolarizedLight => "Solarized Light"@,
            AvailableTheme::SolarizedDark => "Solarized Dark"@,
            AvailableTheme::GruvboxLight => "Gruvbox Light"@,
            AvailableTheme::GruvboxDark => "Gruvbox Dark"@,
            AvailableTheme::CatppuccinLatte => "Catppuccin Latte"@,
            AvailableTheme::CatppuccinFrappe => "Catppuccin Frappe"@,
            AvailableTheme::CatppuccinMacchiato => "Catppuccin Macchiato"@,
            AvailableTheme::CatppuccinMocha => "Catppuccin Mocha"@,
            AvailableTheme::TokyoNight => "Tokyo Night"@,
            AvailableTheme::TokyoNightStorm => "Tokyo Night Storm"@,
            AvailableTheme::TokyoNightLight => "Tokyo Night Light"@,
            AvailableTheme::KanagawaWave => "Kanagawa Wave"@,
            AvailableTheme::KanagawaDragon => "Kanagawa Dragon"@,
            AvailableTheme::KanagawaLotus => "Kanagawa Lotus"@,
            AvailableTheme::Moonfly => "Moonfly"@,
            AvailableTheme::Nightfly => "Nightfly"@,
            AvailableTheme::Oxocarbon => "Oxocarbon"@,
        }
    }

    /// The theme's display name.
    pub fn name(&self) -> (r: String)
        ensures
            r@ == self.name_spec(),
    {
        match self {
            AvailableTheme::Light => String::from_str("Light"),
            AvailableTheme::Dark => String::from_str("Dark"),
            AvailableTheme::Dracula => String::from_str("Dracula"),
            AvailableTheme::Nord => String::from_str("Nord"),
            AvailableTheme::SolarizedLight => String::from_str("Solarized Light"),
            AvailableTheme::SolarizedDark => String::from_str("Solarized Dark"),
            AvailableTheme::GruvboxLight => String::from_str("Gruvbox Light"),
            AvailableTheme::GruvboxDark => String::from_str("Gruvbox Dark"),
            AvailableTheme::CatppuccinLatte => String::from_str("Catppuccin Latte"),
            AvailableTheme::CatppuccinFrappe => String::from_str("Catppuccin Frappe"),
            AvailableTheme::CatppuccinMacchiato => String::from_str("Catppuccin Macchiato"),
            AvailableTheme::CatppuccinMocha => String::from_str("Catppuccin Mocha"),
            AvailableTheme::TokyoNight => String::from_str("Tokyo Night"),
            AvailableTheme::TokyoNightStorm => String::from_str("Tokyo Night Storm"),
            AvailableTheme::TokyoNightLight => String::from_str("Tokyo Night Light"),
            AvailableTheme::KanagawaWave => String::from_str("Kanagawa Wave"),
            AvailableTheme::KanagawaDragon => String::from_str("Kanagawa Dragon"),
            AvailableTheme::KanagawaLotus => String::from_str("Kanagawa Lotus"),
            AvailableTheme::Moonfly => String::from_str("Moonfly"),
            AvailableTheme::Nightfly => String::from_str("Nightfly"),
            AvailableTheme::Oxocarbon => String::from_str("Oxocarbon"),
        }
    }
}

/// Default worker thread count for the surrounding application.
pub fn default_threads() -> (r: usize)
    ensures
        r == 10,
{
    10
}

/// Default number of threads a crawl starts with.
pub fn default_start_threads() -> (r: usize)
    ensures
        r == 1,
{
    1
}

/// Default interface refresh interval in milliseconds.
pub fn default_ui_refresh_ms() -> (r: u64)
    ensures
        r == 1000,
{
    1000
}

/// Default number of lost fights before an opponent is blacklisted.
pub fn default_blacklist_threshhold() -> (r: usize)
    ensures
        r == 2,
{
    2
}

/// Class icons are shown unless switched off.
pub fn default_class_icons() -> (r: bool)
    ensures
        r,
{
    true
}

/// Default value for the toggles that start switched on.
pub fn default_true() -> (r: bool)
    ensures
        r,
{
    true
}

/// The mission strategy used when none is configured.
pub fn default_strategy() -> (r: MissionStrategy)
    ensures
        r == MissionStrategy::Smartest,
{
    MissionStrategy::Smartest
}

/// The reward priority used when none is configured.
pub fn default_expedition_reward_priority() -> (r: ExpeditionRewardPriority)
    ensures
        r == ExpeditionRewardPriority::MushroomsGoldEggs,
{
    ExpeditionRewardPriority::MushroomsGoldEggs
}

} // verus!
