//! The top-level game states and the battle phases.
use vstd::prelude::*;

verus! {

/// Top-level game state.
#[derive(Debug, Clone, Copy, PartialEq, Eq, Hash, Structural)]
pub enum GameState {
    Lobby,
    MapScreen,
    MonsterDex,
    PvpLobby,
    TeamSelection,
    Battle,
    Result,
}

impl Default for GameState {
    fn default() -> (s: Self)
        ensures
            s == GameState::Lobby,
    {
        GameState::Lobby
    }
}

/// Phase of a battle.
#[derive(Debug, Clone, Copy, PartialEq, Eq, Hash, Structural)]
pub enum BattlePhase {
    Init,
    /// Each round starts here: cards are drawn, AP is added, turn flags are reset.
    RoundStart,
    /// The player acts (possibly several times) until ending the turn.
    PlayerTurn,
    /// The enemy acts.
    EnemyTurn,
    /// End-of-round check: faint handling, status durations.
    CheckEnd,
    /// Waiting for the faint animation, then switching in or ending the battle.
    DeathResolve,
    /// A side holds more cards than it may keep and must discard.
    Discard,
}

impl Default for BattlePhase {
    fn default() -> (p: Self)
        ensures
            p == BattlePhase::Init,
    {
        BattlePhase::Init
    }
}

} // verus!
