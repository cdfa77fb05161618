//! Console log categories, and which of them the environment switches turn on.
use vstd::prelude::*;

verus! {

/// Categories of console log lines.
#[derive(Debug, Clone, Copy, PartialEq, Eq, Hash)]
pub enum ConsoleLogCategory {
    Battle,
    BattleDebug,
    Cards,
    CardsDetail,
    Data,
    Pvp,
    PvpDetail,
    Ai,
    AiDetail,
    Selection,
    MapScreen,
    Formula,
    Status,
    Trace,
    State,
    Result,
}

/// Which optional log categories are switched on.
#[derive(Debug, Clone, Copy)]
pub struct ConsoleLogSettings {
    pub battle_debug: bool,
    pub cards_detail: bool,
    pub pvp_detail: bool,
    pub ai_detail: bool,
}


/// The values of the five environment switches, each already parsed as a flag.
#[derive(Debug, Clone, Copy)]
pub struct EnvFlagValues {
    pub debug: bool,
    pub battle_debug: bool,
    pub cards: bool,
    pub pvp: bool,
    pub ai: bool,
}

/// The tag printed in front of a log line of this category.
pub open spec fn category_label(c: ConsoleLogCategory) -> Seq<char> {
    match c {
        ConsoleLogCategory::Battle => "battle"@,
        ConsoleLogCategory::BattleDebug => "battle-debug"@,
        ConsoleLogCategory::Cards => "cards"@,
        ConsoleLogCategory::CardsDetail => "cards"@,
        ConsoleLogCategory::Data => "data"@,
        ConsoleLogCategory::Pvp => "pvp"@,
        ConsoleLogCategory::PvpDetail => "pvp"@,
        ConsoleLogCategory::Ai => "ai"@,
        ConsoleLogCategory::AiDetail => "ai"@,
        ConsoleLogCategory::Selection => "selection"@,
        ConsoleLogCategory::MapScreen => "map"@,
        ConsoleLogCategory::Formula => "formula"@,
        ConsoleLogCategory::Status => "status"@,
        ConsoleLogCategory::Trace => "trace"@,
        ConsoleLogCategory::State => "state"@,
        ConsoleLogCategory::Result => "result"@,
    }
}

/// Whether lines of this category are printed under `settings`: the main categories always, the
/// detail categories only when their switch is on, and formula/status/trace/state lines only in
/// battle-debug mode.
pub open spec fn category_enabled(c: ConsoleLogCategory, settings: ConsoleLogSettings) -> bool {
    match c {
        ConsoleLogCategory::Battle | ConsoleLogCategory::Cards | ConsoleLogCategory::Data
        | ConsoleLogCategory::Pvp | ConsoleLogCategory::Ai | ConsoleLogCategory::Selection
        | ConsoleLogCategory::MapScreen | ConsoleLogCategory::Result => true,
        ConsoleLogCategory::BattleDebug => settings.battle_debug,
        ConsoleLogCategory::CardsDetail => settings.cards_detail,
        ConsoleLogCategory::PvpDetail => settings.pvp_detail,
        ConsoleLogCategory::AiDetail => settings.ai_detail,
        ConsoleLogCategory::Formula | ConsoleLogCategory::Status | ConsoleLogCategory::Trace
        | ConsoleLogCategory::State => settings.battle_debug,
    }
}

impl ConsoleLogCategory {
    pub fn label(self) -> (r: &'static str)
        ensures
            r@ == category_label(self),
    {
        match self {
            Self::Battle => "battle",
            Self::BattleDebug => "battle-debug",
            Self::Cards => "cards",
            Self::CardsDetail => "cards",
            Self::Data => "data",
            Self::Pvp => "pvp",
            Self::PvpDetail => "pvp",
            Self::Ai => "ai",
            Self::AiDetail => "ai",
            Self::Selection => "selection",
            Self::MapScreen => "map",
            Self::Formula => "formula",
            Self::Status => "status",
            Self::Trace => "trace",
            Self::State => "state",
            Self::Result => "result",
        }
    }

    pub fn is_enabled(self, settings: &ConsoleLogSettings) -> (b: bool)
        ensures
            b == category_enabled(self, *settings),
    {
        match self {
            Self::Battle | Self::Cards | Self::Data | Self::Pvp | Self::Ai | Self::Selection
            | Self::MapScreen | Self::Result => true,
            Self::BattleDebug => settings.battle_debug,
            Self::CardsDetail => settings.cards_detail,
            Self::PvpDetail => settings.pvp_detail,
            Self::AiDetail => settings.ai_detail,
            Self::Formula | Self::Status | Self::Trace | Self::State => settings.battle_debug,
        }
    }
}

impl ConsoleLogSettings {
    /// The general debug switch turns every detail category on; each category also has its own.
    pub fn from_env(flags: EnvFlagValues) -> (s: Self)
        ensures
            s.battle_debug == (flags.debug || flags.battle_debug),
            s.cards_detail == (flags.debug || flags.cards),
            s.pvp_detail == (flags.debug || flags.pvp),
            s.ai_detail == (flags.debug || flags.ai),
    {
        Self {
            battle_debug: flags.debug || flags.battle_debug,
            cards_detail: flags.debug || flags.cards,
            pvp_detail: flags.debug || flags.pvp,
            ai_detail: flags.debug || flags.ai,
        }
    }
}

/// The settings that the environment switches give.
pub fn settings(flags: EnvFlagValues) -> (s: ConsoleLogSettings)
    ensures
        s.battle_debug == (flags.debug || flags.battle_debug),
        s.cards_detail == (flags.debug || flags.cards),
        s.pvp_detail == (flags.debug || flags.pvp),
        s.ai_detail == (flags.debug || flags.ai),
{
    ConsoleLogSettings::from_env(flags)
}

/// Whether a line of `category` is printed under `settings`.
pub fn log_enabled(category: ConsoleLogCategory, settings: &ConsoleLogSettings) -> (b: bool)
    ensures
        b == category_enabled(category, *settings),
{
    category.is_enabled(settings)
}

} // verus!
