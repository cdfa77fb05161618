//! The result screen: where each of its actions leads.
use vstd::prelude::*;

use super::cards::{SelectedCardState, SelectedCards};
use super::context::opt_string_view;
use super::flow::BattleControlMode;
use super::model::Side;
use crate::game_state::{BattlePhase, GameState};
use crate::map::CurrentMap;

verus! {

/// What the player asks for on the result screen.
#[derive(Debug, Clone, Copy, PartialEq, Eq, Structural)]
pub enum BattleResultAction {
    Return,
    RestartSameTeams,
    Rematch,
    AcceptRematch,
    RejectRematch,
}

/// Where a result-screen action leads.
#[derive(Debug, Clone, Copy, PartialEq, Eq, Structural)]
pub enum ResultTransition {
    /// Back to the map the battle was entered from (the battle phase starts over).
    ToMap(CurrentMap),
    /// Back to the lobby, against the AI again (the team choice and selection are cleared; a
    /// remote opponent is told the battle was left).
    ToLobby,
    /// The same teams fight again.
    Restart,
    /// A new team choice, in the debug mode when the last battle was one and against the AI
    /// otherwise.
    ToTeamSelection(BattleControlMode),
    /// Nothing happens; the asked action is dropped.
    Dropped,
    /// Nothing happens; the asked action stays pending.
    Kept,
}

/// Where `action` leads from the result screen. Returning goes back to the map the battle came
/// from, unless the battle was against a remote player or came from no map, which return to the
/// lobby. Restarting and a rematch are for battles without a remote player: for one the restart
/// is dropped and a rematch stays pending; answers to a rematch do nothing here.
pub open spec fn spec_result_transition(
    action: BattleResultAction,
    mode: BattleControlMode,
    return_map: Option<CurrentMap>,
) -> ResultTransition {
    let remote = mode == BattleControlMode::PlayerVsRemote;
    match action {
        BattleResultAction::Return => match return_map {
            Some(m) => if remote {
                ResultTransition::ToLobby
            } else {
                ResultTransition::ToMap(m)
            },
            None => ResultTransition::ToLobby,
        },
        BattleResultAction::RestartSameTeams => if remote {
            ResultTransition::Dropped
        } else {
            ResultTransition::Restart
        },
        BattleResultAction::Rematch => if remote {
            ResultTransition::Kept
        } else if mode == BattleControlMode::DebugPlayerControlsBoth {
            ResultTransition::ToTeamSelection(BattleControlMode::DebugPlayerControlsBoth)
        } else {
            ResultTransition::ToTeamSelection(BattleControlMode::PlayerVsAi)
        },
        _ => ResultTransition::Kept,
    }
}

pub fn result_transition(
    action: BattleResultAction,
    mode: BattleControlMode,
    return_map: Option<CurrentMap>,
) -> (t: ResultTransition)
    ensures
        t == spec_result_transition(action, mode, return_map),
{
    let remote = mode == BattleControlMode::PlayerVsRemote;
    match action {
        BattleResultAction::Return => match return_map {
            Some(m) => {
                if remote {
                    ResultTransition::ToLobby
                } else {
                    ResultTransition::ToMap(m)
                }
            },
            None => ResultTransition::ToLobby,
        },
        BattleResultAction::RestartSameTeams => {
            if remote {
                ResultTransition::Dropped
            } else {
                ResultTransition::Restart
            }
        },
        BattleResultAction::Rematch => {
            if remote {
                ResultTransition::Kept
            } else if mode == BattleControlMode::DebugPlayerControlsBoth {
                ResultTransition::ToTeamSelection(BattleControlMode::DebugPlayerControlsBoth)
            } else {
                ResultTransition::ToTeamSelection(BattleControlMode::PlayerVsAi)
            }
        },
        _ => ResultTransition::Kept,
    }
}

/// The game state, battle phase and control mode after a transition that leaves the result
/// screen (none for one that stays).
pub open spec fn spec_after_transition(t: ResultTransition, mode: BattleControlMode) -> Option<(GameState, BattlePhase, BattleControlMode)> {
    match t {
        ResultTransition::ToMap(_) => Some((GameState::MapScreen, BattlePhase::Init, BattleControlMode::PlayerVsAi)),
        ResultTransition::ToLobby => Some((GameState::Lobby, BattlePhase::Init, BattleControlMode::PlayerVsAi)),
        ResultTransition::Restart => Some((GameState::Battle, BattlePhase::Init, mode)),
        ResultTransition::ToTeamSelection(m) => Some((GameState::TeamSelection, BattlePhase::Init, m)),
        _ => None,
    }
}

pub fn after_transition(t: ResultTransition, mode: BattleControlMode) -> (r: Option<(GameState, BattlePhase, BattleControlMode)>)
    ensures
        r == spec_after_transition(t, mode),
{
    match t {
        ResultTransition::ToMap(_) => Some((GameState::MapScreen, BattlePhase::Init, BattleControlMode::PlayerVsAi)),
        ResultTransition::ToLobby => Some((GameState::Lobby, BattlePhase::Init, BattleControlMode::PlayerVsAi)),
        ResultTransition::Restart => Some((GameState::Battle, BattlePhase::Init, mode)),
        ResultTransition::ToTeamSelection(m) => Some((GameState::TeamSelection, BattlePhase::Init, m)),
        _ => None,
    }
}

/// How the team choice is entered.
#[derive(Debug, Clone, Copy, PartialEq, Eq, Structural)]
pub enum SelectionEntryMode {
    VsAi,
    Debug,
    Pvp,
}

/// What the result screen leaves behind or resets: the result message and export status, the
/// notice text, the asked action, how the next team choice is entered, the side the controls
/// show, the card selections, the team choice, the map a battle came from and the enemy it
/// chose there, the current map and the control mode.
#[derive(Debug)]
pub struct ResultScreen {
    pub message: String,
    pub export_status: Option<String>,
    pub notice: String,
    pub pending_action: Option<BattleResultAction>,
    pub entry_mode: SelectionEntryMode,
    pub ui_control_side: Side,
    pub selected: SelectedCards,
    pub player_indices: Vec<usize>,
    pub enemy_indices: Vec<usize>,
    pub return_map: Option<CurrentMap>,
    pub enemy_monster_index: Option<usize>,
    pub current_map: CurrentMap,
    pub mode: BattleControlMode,
}

pub ghost struct ResultScreenView {
    pub message: Seq<char>,
    pub export_status: Option<Seq<char>>,
    pub notice: Seq<char>,
    pub pending_action: Option<BattleResultAction>,
    pub entry_mode: SelectionEntryMode,
    pub ui_control_side: Side,
    pub selected: SelectedCards,
    pub player_indices: Seq<usize>,
    pub enemy_indices: Seq<usize>,
    pub return_map: Option<CurrentMap>,
    pub enemy_monster_index: Option<usize>,
    pub current_map: CurrentMap,
    pub mode: BattleControlMode,
}

impl View for ResultScreen {
    type V = ResultScreenView;

    open spec fn view(&self) -> ResultScreenView {
        ResultScreenView {
            message: self.message@,
            export_status: opt_string_view(self.export_status),
            notice: self.notice@,
            pending_action: self.pending_action,
            entry_mode: self.entry_mode,
            ui_control_side: self.ui_control_side,
            selected: self.selected,
            player_indices: self.player_indices@,
            enemy_indices: self.enemy_indices@,
            return_map: self.return_map,
            enemy_monster_index: self.enemy_monster_index,
            current_map: self.current_map,
            mode: self.mode,
        }
    }
}

pub open spec fn no_selection() -> SelectedCards {
    SelectedCards {
        player: SelectedCardState { index: None, discard_armed: false },
        enemy: SelectedCardState { index: None, discard_armed: false },
    }
}

/// What an action on the result screen does, and where the game goes. The action is the
/// return key when pressed, else the one asked for earlier; without one nothing happens.
/// Returning drops the asked action, forgets the map the battle came from and the enemy chosen
/// there, clears the result, the team choice and the card selections, and goes back against the
/// AI (the choice entered against the AI, the player's controls shown): to that map unless the
/// battle was against a remote player or came from no map, else to the lobby. Restarting (not
/// against a remote player) drops the action, clears the result, the notice and the card
/// selections, and fights again with the same teams; against a remote player the restart is only
/// dropped. A rematch (not against a remote player) drops the action, keeps the debug mode when
/// the battle was one and goes against the AI otherwise, shows the player's controls, clears the
/// card selections, remembers the chosen enemy when the battle came from a map, clears the team
/// choice, the result and the notice, and goes to the team choice; against a remote player, and
/// for answers to a rematch, nothing happens. Every move starts the battle phase over.
pub open spec fn spec_result_screen_step(return_pressed: bool, v: ResultScreenView) -> (Option<(GameState, BattlePhase)>, ResultScreenView) {
    let action = if return_pressed {
        Some(BattleResultAction::Return)
    } else {
        v.pending_action
    };
    let remote = v.mode == BattleControlMode::PlayerVsRemote;
    match action {
        None => (None, v),
        Some(BattleResultAction::Return) => {
            let v1 = ResultScreenView {
                pending_action: None,
                return_map: None,
                enemy_monster_index: None,
                message: Seq::empty(),
                export_status: None,
                entry_mode: SelectionEntryMode::VsAi,
                mode: BattleControlMode::PlayerVsAi,
                ui_control_side: Side::Player,
                selected: no_selection(),
                player_indices: Seq::empty(),
                enemy_indices: Seq::empty(),
                ..v
            };
            match v.return_map {
                Some(m) => if remote {
                    (Some((GameState::Lobby, BattlePhase::Init)), v1)
                } else {
                    (Some((GameState::MapScreen, BattlePhase::Init)), ResultScreenView { current_map: m, ..v1 })
                },
                None => (Some((GameState::Lobby, BattlePhase::Init)), v1),
            }
        },
        Some(BattleResultAction::RestartSameTeams) => if remote {
            (None, ResultScreenView { pending_action: None, ..v })
        } else {
            (
                Some((GameState::Battle, BattlePhase::Init)),
                ResultScreenView {
                    pending_action: None,
                    message: Seq::empty(),
                    export_status: None,
                    notice: Seq::empty(),
                    selected: no_selection(),
                    ..v
                },
            )
        },
        Some(BattleResultAction::Rematch) => if remote {
            (None, v)
        } else {
            let debug = v.mode == BattleControlMode::DebugPlayerControlsBoth;
            (
                Some((GameState::TeamSelection, BattlePhase::Init)),
                ResultScreenView {
                    pending_action: None,
                    entry_mode: if debug {
                        SelectionEntryMode::Debug
                    } else {
                        SelectionEntryMode::VsAi
                    },
                    mode: if debug {
                        BattleControlMode::DebugPlayerControlsBoth
                    } else {
                        BattleControlMode::PlayerVsAi
                    },
                    ui_control_side: Side::Player,
                    selected: no_selection(),
                    enemy_monster_index: if v.return_map is Some {
                        if v.enemy_indices.len() > 0 {
                            Some(v.enemy_indices[0])
                        } else {
                            None
                        }
                    } else {
                        v.enemy_monster_index
                    },
                    player_indices: Seq::empty(),
                    enemy_indices: Seq::empty(),
                    message: Seq::empty(),
                    export_status: None,
                    notice: Seq::empty(),
                    ..v
                },
            )
        },
        _ => (None, v),
    }
}

/// Runs one frame of the result screen (see `spec_result_screen_step`).
pub fn restart_from_result_system(return_pressed: bool, screen: &mut ResultScreen) -> (r: Option<(GameState, BattlePhase)>)
    ensures
        (r, final(screen)@) == spec_result_screen_step(return_pressed, old(screen)@),
{
    let action = if return_pressed {
        Some(BattleResultAction::Return)
    } else {
        screen.pending_action
    };
    let remote = screen.mode == BattleControlMode::PlayerVsRemote;
    match action {
        None => None,
        Some(BattleResultAction::Return) => {
            let map = screen.return_map;
            screen.pending_action = None;
            screen.return_map = None;
            screen.enemy_monster_index = None;
            screen.message = String::new();
            screen.export_status = None;
            screen.entry_mode = SelectionEntryMode::VsAi;
            screen.mode = BattleControlMode::PlayerVsAi;
            screen.ui_control_side = Side::Player;
            screen.selected = SelectedCards::new();
            screen.player_indices = Vec::new();
            screen.enemy_indices = Vec::new();
            match map {
                Some(m) => {
                    if remote {
                        Some((GameState::Lobby, BattlePhase::Init))
                    } else {
                        screen.current_map = m;
                        Some((GameState::MapScreen, BattlePhase::Init))
                    }
                },
                None => Some((GameState::Lobby, BattlePhase::Init)),
            }
        },
        Some(BattleResultAction::RestartSameTeams) => {
            screen.pending_action = None;
            if remote {
                return None;
            }
            screen.message = String::new();
            screen.export_status = None;
            screen.notice = String::new();
            screen.selected = SelectedCards::new();
            Some((GameState::Battle, BattlePhase::Init))
        },
        Some(BattleResultAction::Rematch) => {
            if remote {
                return None;
            }
            let debug = screen.mode == BattleControlMode::DebugPlayerControlsBoth;
            screen.pending_action = None;
            if debug {
                screen.entry_mode = SelectionEntryMode::Debug;
                screen.mode = BattleControlMode::DebugPlayerControlsBoth;
            } else {
                screen.entry_mode = SelectionEntryMode::VsAi;
                screen.mode = BattleControlMode::PlayerVsAi;
            }
            screen.ui_control_side = Side::Player;
            screen.selected = SelectedCards::new();
            if screen.return_map.is_some() {
                screen.enemy_monster_index = if screen.enemy_indices.len() > 0 {
                    Some(screen.enemy_indices[0])
                } else {
                    None
                };
            }
            screen.player_indices = Vec::new();
            screen.enemy_indices = Vec::new();
            screen.message = String::new();
            screen.export_status = None;
            screen.notice = String::new();
            Some((GameState::TeamSelection, BattlePhase::Init))
        },
        _ => None,
    }
}

} // verus!
