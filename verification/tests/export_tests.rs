use mon_battle::battle::cards::CardRules;
use mon_battle::battle::export::sanitize_filename_segment;
use mon_battle::battle::text::{drawn_cards_text, hand_names, join_texts};
use mon_battle::data::cards::{CardDef, CardEffect, CardId};

#[test]
fn filename_segment_keeps_ascii_words() {
    assert_eq!(sanitize_filename_segment("Victory - Round 3!"), "victory___round_3");
    assert_eq!(sanitize_filename_segment("__Hello__"), "hello");
    assert_eq!(sanitize_filename_segment("胜利！全歼敌方。按 R 重新开始。"), "r");
    assert_eq!(sanitize_filename_segment("胜利！"), "battle_result");
    assert_eq!(sanitize_filename_segment(""), "battle_result");
}

#[test]
fn card_name_lists() {
    let cards = vec![CardDef { id: CardId::GainAp, name: "蓄能".to_string(), cost_ap: 1, effect: CardEffect::GainAp { amount: 2 } }];
    assert_eq!(hand_names(&vec![CardId::GainAp, CardId::Pursuit, CardId::GainAp], &cards), "蓄能 / Pursuit / 蓄能");
    assert_eq!(hand_names(&vec![], &cards), "");
    assert_eq!(drawn_cards_text(&vec![]), "无");
    assert_eq!(drawn_cards_text(&vec!["a".to_string(), "b".to_string()]), "a / b");
    assert_eq!(join_texts(&vec!["x".to_string()], ","), "x");
}

#[test]
fn standard_card_rules() {
    let rules = CardRules::standard();
    assert_eq!((rules.max_ap, rules.discard_ap_gain, rules.max_retained_hand), (10, 1, 5));
}

use mon_battle::battle::flow::BattleControlMode;
use mon_battle::battle::result::{after_transition, result_transition, BattleResultAction, ResultTransition};
use mon_battle::game_state::{BattlePhase, GameState};
use mon_battle::map::CurrentMap;

#[test]
fn result_screen_actions() {
    let ai = BattleControlMode::PlayerVsAi;
    let remote = BattleControlMode::PlayerVsRemote;
    let debug = BattleControlMode::DebugPlayerControlsBoth;
    assert_eq!(result_transition(BattleResultAction::Return, ai, Some(CurrentMap::Map2)), ResultTransition::ToMap(CurrentMap::Map2));
    assert_eq!(result_transition(BattleResultAction::Return, remote, Some(CurrentMap::Map2)), ResultTransition::ToLobby);
    assert_eq!(result_transition(BattleResultAction::Return, ai, None), ResultTransition::ToLobby);
    assert_eq!(result_transition(BattleResultAction::RestartSameTeams, remote, None), ResultTransition::Dropped);
    assert_eq!(result_transition(BattleResultAction::Rematch, debug, None), ResultTransition::ToTeamSelection(debug));
    assert_eq!(result_transition(BattleResultAction::Rematch, remote, None), ResultTransition::Kept);
    assert_eq!(
        after_transition(ResultTransition::Restart, debug),
        Some((GameState::Battle, BattlePhase::Init, debug))
    );
    assert_eq!(after_transition(ResultTransition::ToMap(CurrentMap::Map1), debug), Some((GameState::MapScreen, BattlePhase::Init, ai)));
    assert_eq!(after_transition(ResultTransition::Kept, ai), None);
}
