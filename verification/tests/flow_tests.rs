use mon_battle::battle::flow::{
    ActionTraceEntry, EndCheckError, check_end_system, resolve_ko_system, BattleOutcome, Combatant, KoResolution, PendingKoResolution,
    RoundOrder, Team, TurnContext,
};
use mon_battle::battle::model::{
    BattleEvent, CombatState, ElementAura, Shield, Side, Stats, StatusBoard, StatusInstance,
};
use mon_battle::battle::text::switched_in_line;
use mon_battle::battle::ticks::StatusRecord;
use mon_battle::data::{ElementType, StatusCategory, StatusTickTiming};
use mon_battle::game_state::BattlePhase;

fn test_stats(hp: i32) -> Stats {
    Stats {
        hp,
        max_hp: 20,
        atk: 5,
        def: 5,
        spd: 5,
        acc: 100,
        atk_stage: 0,
        def_stage: 0,
        spd_stage: 0,
        acc_stage: 0,
    }
}

fn combatant(name: &str, side: Side, element: ElementType, hp: i32) -> Combatant {
    Combatant {
        name: name.to_string(),
        side,
        element,
        skills: vec![],
        skill_uses: vec![],
        state: CombatState {
            stats: test_stats(hp),
            shield: Shield(0),
            aura: ElementAura::default(),
            statuses: StatusBoard::default(),
        },
    }
}

fn team(members: Vec<Combatant>) -> Team {
    Team { combatants: members, active_index: 0 }
}

fn pending(
    player_switch_index: Option<usize>,
    enemy_switch_index: Option<usize>,
    player_defeated: bool,
    enemy_defeated: bool,
    resume_phase: Option<BattlePhase>,
) -> PendingKoResolution {
    PendingKoResolution { player_switch_index, enemy_switch_index, player_defeated, enemy_defeated, resume_phase }
}

#[test]
fn check_end_marks_auto_switch_and_enters_death_resolve() {
    let mut player = team(vec![
        combatant("Player A", Side::Player, ElementType::Fire, 0),
        combatant("Player B", Side::Player, ElementType::Water, 12),
    ]);
    let mut enemy = team(vec![combatant("Enemy A", Side::Enemy, ElementType::Grass, 10)]);
    let mut pending_ko = PendingKoResolution::new();
    let mut events: Vec<BattleEvent> = Vec::new();
    let mut trace: Vec<ActionTraceEntry> = Vec::new();
    let mut records: Vec<StatusRecord> = Vec::new();

    let next = check_end_system(&mut player, &mut enemy, &mut pending_ko, 4, &mut events, &mut trace, &mut records);

    assert_eq!(pending_ko.player_switch_index, Some(1));
    assert_eq!(pending_ko.enemy_switch_index, None);
    assert!(!pending_ko.player_defeated);
    assert!(!pending_ko.enemy_defeated);
    assert_eq!(next, Ok(BattlePhase::DeathResolve));
    assert!(events
        .iter()
        .any(|event| matches!(event, BattleEvent::CombatantFainted { side: Side::Player, index: 0 })));
    assert!(trace.iter().any(|entry| entry.action == "fainted" && entry.detail.contains("Player A 倒下")));
}

#[test]
fn check_end_clears_stale_pending_ko_when_no_combatant_fainted() {
    let mut player = team(vec![combatant("Player A", Side::Player, ElementType::Fire, 12)]);
    let mut enemy = team(vec![combatant("Enemy A", Side::Enemy, ElementType::Fire, 12)]);
    let mut pending_ko = pending(Some(1), Some(1), true, true, Some(BattlePhase::PlayerTurn));
    let mut events: Vec<BattleEvent> = Vec::new();
    let mut trace: Vec<ActionTraceEntry> = Vec::new();
    let mut records: Vec<StatusRecord> = Vec::new();

    let next = check_end_system(&mut player, &mut enemy, &mut pending_ko, 1, &mut events, &mut trace, &mut records);

    assert_eq!(pending_ko.player_switch_index, None);
    assert_eq!(pending_ko.enemy_switch_index, None);
    assert!(!pending_ko.player_defeated);
    assert!(!pending_ko.enemy_defeated);
    assert_eq!(pending_ko.resume_phase, None);
    assert_eq!(next, Ok(BattlePhase::RoundStart));
}

fn wind_evade() -> StatusInstance {
    StatusInstance {
        id: "wind_evade".to_string(),
        name: "闪避".to_string(),
        category: StatusCategory::Buff,
        remaining_turns: 1,
        applied_round: 1,
        source_side: Some(Side::Player),
        tick_timing: Some(StatusTickTiming::OwnerActionEnd),
        stage_modifiers: vec![],
        fixed_damage_on_tick: 0,
        heal_on_tick: 0,
        heal_taken_multiplier: None,
        evade_charges: 1,
    }
}

#[test]
fn check_end_decrements_statuses_only_at_full_round_end() {
    let mut player_active = combatant("Player A", Side::Player, ElementType::Wind, 10);
    player_active.state.statuses = StatusBoard { entries: vec![wind_evade()] };
    let mut player = team(vec![player_active]);
    let mut enemy = team(vec![combatant("Enemy A", Side::Enemy, ElementType::Grass, 10)]);
    let mut pending_ko = PendingKoResolution::new();
    let mut events: Vec<BattleEvent> = Vec::new();
    let mut trace: Vec<ActionTraceEntry> = Vec::new();
    let mut records: Vec<StatusRecord> = Vec::new();

    let _ = check_end_system(&mut player, &mut enemy, &mut pending_ko, 1, &mut events, &mut trace, &mut records);

    let statuses = &player.combatants[0].state.statuses;
    assert_eq!(statuses.entries.len(), 1);
    assert_eq!(statuses.entries[0].remaining_turns, 1);

    let _ = check_end_system(&mut player, &mut enemy, &mut pending_ko, 2, &mut events, &mut trace, &mut records);

    assert!(player.combatants[0].state.statuses.entries.is_empty());
    assert!(records
        .iter()
        .any(|r| r.status_id == "wind_evade" && r.action == "expired" && r.side == Side::Player));
}

fn run_resolve_ko(
    pending_ko: &mut PendingKoResolution,
    player: &mut Team,
    enemy: &mut Team,
    turn: &TurnContext,
    events: &mut Vec<BattleEvent>,
) -> (KoResolution, Vec<ActionTraceEntry>) {
    let order = RoundOrder::new();
    let mut trace: Vec<ActionTraceEntry> = Vec::new();
    let r = resolve_ko_system(player, enemy, pending_ko, turn, &order, 5, events, &mut trace);
    (r, trace)
}

#[test]
fn resolve_ko_switches_to_next_living_combatant() {
    let mut pending_ko = pending(Some(1), None, false, false, Some(BattlePhase::PlayerTurn));
    let mut player = team(vec![
        combatant("Player A", Side::Player, ElementType::Fire, 0),
        combatant("Player B", Side::Player, ElementType::Fire, 14),
    ]);
    let mut enemy = team(vec![combatant("Enemy A", Side::Enemy, ElementType::Fire, 8)]);
    let mut events: Vec<BattleEvent> = Vec::new();

    let (r, trace) = run_resolve_ko(&mut pending_ko, &mut player, &mut enemy, &TurnContext::new(), &mut events);

    assert_eq!(player.active_index, 1);
    assert_eq!(r, KoResolution::Continue(BattlePhase::PlayerTurn));
    assert_eq!(player.combatants[player.active_index].name, "Player B");
    assert!(events
        .iter()
        .any(|event| matches!(event, BattleEvent::Switched { side: Side::Player, index: 1 })));
    let line = switched_in_line(Side::Player, &player.combatants[player.active_index].name);
    assert!(line.contains("玩家换上了 Player B"));
    assert!(trace.iter().any(|entry| entry.action == "auto_switch" && entry.detail.contains("Player B")));
}

#[test]
fn resolve_ko_returns_to_enemy_turn_when_enemy_action_caused_ko() {
    let mut pending_ko = pending(None, Some(1), false, false, Some(BattlePhase::EnemyTurn));
    let mut player = team(vec![combatant("Player A", Side::Player, ElementType::Fire, 12)]);
    let mut enemy = team(vec![
        combatant("Enemy A", Side::Enemy, ElementType::Fire, 0),
        combatant("Enemy B", Side::Enemy, ElementType::Fire, 14),
    ]);
    let mut events: Vec<BattleEvent> = Vec::new();

    let (r, trace) = run_resolve_ko(&mut pending_ko, &mut player, &mut enemy, &TurnContext::new(), &mut events);

    assert_eq!(enemy.active_index, 1);
    assert_eq!(r, KoResolution::Continue(BattlePhase::EnemyTurn));
}

#[test]
fn resolve_ko_enters_result_when_defeated_even_with_resume_phase() {
    let mut pending_ko = pending(None, None, false, true, Some(BattlePhase::PlayerTurn));
    let mut player = team(vec![combatant("Player A", Side::Player, ElementType::Fire, 12)]);
    let mut enemy = team(vec![combatant("Enemy A", Side::Enemy, ElementType::Fire, 0)]);
    let mut events: Vec<BattleEvent> = Vec::new();

    let (r, trace) = run_resolve_ko(&mut pending_ko, &mut player, &mut enemy, &TurnContext::new(), &mut events);

    assert_eq!(r, KoResolution::Finished(BattleOutcome::Victory));
    assert_eq!(pending_ko.resume_phase, None);
}

#[test]
fn resolve_ko_with_no_resume_continues_to_second_side() {
    let mut pending_ko = pending(Some(1), None, false, false, None);
    let mut turn = TurnContext::new();
    turn.player_ended = true;
    let mut player = team(vec![
        combatant("Player A", Side::Player, ElementType::Fire, 0),
        combatant("Player B", Side::Player, ElementType::Fire, 14),
    ]);
    let mut enemy = team(vec![combatant("Enemy A", Side::Enemy, ElementType::Fire, 12)]);
    let mut events: Vec<BattleEvent> = Vec::new();

    let (r, trace) = run_resolve_ko(&mut pending_ko, &mut player, &mut enemy, &turn, &mut events);

    assert_eq!(r, KoResolution::Continue(BattlePhase::EnemyTurn));
}

#[test]
fn resolve_ko_with_no_resume_and_both_ended_goes_check_end() {
    let mut pending_ko = pending(Some(1), None, false, false, None);
    let mut turn = TurnContext::new();
    turn.player_ended = true;
    turn.enemy_ended = true;
    let mut player = team(vec![
        combatant("Player A", Side::Player, ElementType::Fire, 0),
        combatant("Player B", Side::Player, ElementType::Fire, 14),
    ]);
    let mut enemy = team(vec![combatant("Enemy A", Side::Enemy, ElementType::Fire, 12)]);
    let mut events: Vec<BattleEvent> = Vec::new();

    let (r, trace) = run_resolve_ko(&mut pending_ko, &mut player, &mut enemy, &turn, &mut events);

    assert_eq!(r, KoResolution::Continue(BattlePhase::CheckEnd));
}

#[test]
fn simultaneous_nonterminal_ko_auto_switches_both_and_resumes_actor() {
    let mut pending_ko = pending(Some(1), Some(1), false, false, Some(BattlePhase::PlayerTurn));
    let mut player = team(vec![
        combatant("Player A", Side::Player, ElementType::Fire, 0),
        combatant("Player B", Side::Player, ElementType::Fire, 14),
    ]);
    let mut enemy = team(vec![
        combatant("Enemy A", Side::Enemy, ElementType::Fire, 0),
        combatant("Enemy B", Side::Enemy, ElementType::Fire, 14),
    ]);
    let mut events: Vec<BattleEvent> = Vec::new();

    let (r, trace) = run_resolve_ko(&mut pending_ko, &mut player, &mut enemy, &TurnContext::new(), &mut events);

    assert_eq!(player.active_index, 1);
    assert_eq!(enemy.active_index, 1);
    assert_eq!(r, KoResolution::Continue(BattlePhase::PlayerTurn));
}

#[test]
fn check_end_refuses_a_missing_front_member() {
    let mut player = team(vec![combatant("Player A", Side::Player, ElementType::Fire, 12)]);
    let mut enemy = team(vec![combatant("Enemy A", Side::Enemy, ElementType::Fire, 12)]);
    let mut pending_ko = PendingKoResolution::new();
    let mut events: Vec<BattleEvent> = Vec::new();
    let mut trace: Vec<ActionTraceEntry> = Vec::new();
    let mut records: Vec<StatusRecord> = Vec::new();
    player.active_index = 2;
    assert_eq!(
        check_end_system(&mut player, &mut enemy, &mut pending_ko, 1, &mut events, &mut trace, &mut records),
        Err(EndCheckError::InvalidPlayerActive)
    );
    player.active_index = 0;
    enemy.active_index = 1;
    assert_eq!(
        check_end_system(&mut player, &mut enemy, &mut pending_ko, 1, &mut events, &mut trace, &mut records),
        Err(EndCheckError::InvalidEnemyActive)
    );
    assert!(events.is_empty());
}
