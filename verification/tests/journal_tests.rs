use mon_battle::battle::cards::{apply_card_effect, ActionPoints, CardPiles, CardTurnMemory, Hand};
use mon_battle::battle::controls::guard_clear_after;
use mon_battle::battle::flow::{
    check_end_system, ActionTraceEntry, BattleControlMode, Combatant, PendingKoResolution, Team, TurnContext,
};
use mon_battle::battle::model::{
    BattleEvent, CombatState, DamageType, ElementAura, PendingBoosts, Shield, Side, Stats, StatusBoard, StatusInstance,
};
use mon_battle::battle::reaction::attach_element;
use mon_battle::battle::replay::{
    consume_battle_events_system, replay_entries, state_snapshot, team_snapshot, FormulaRecord, LifecycleRecord, LogBatch,
    LogInput, ReplayLogEntry,
};
use mon_battle::battle::result::{restart_from_result_system, BattleResultAction, ResultScreen, SelectionEntryMode};
use mon_battle::battle::cards::SelectedCards;
use mon_battle::battle::ticks::StatusRecord;
use mon_battle::data::cards::{CardDef, CardEffect, CardId};
use mon_battle::data::messages::{abort_battle, init_error_message};
use mon_battle::battle::init::InitError;
use mon_battle::data::{
    ElementType, MonsterPrototype, ReactionDb, SkillId, StatsData, StatusCategory, StatusDb, StatusTickTiming,
};
use mon_battle::game_state::{BattlePhase, GameState};
use mon_battle::map::CurrentMap;

fn state(hp: i32, shield: i32, aura: [Option<ElementType>; 2]) -> CombatState {
    CombatState {
        stats: Stats {
            hp,
            max_hp: 20,
            atk: 5,
            def: 5,
            spd: 5,
            acc: 100,
            atk_stage: 1,
            def_stage: 0,
            spd_stage: -2,
            acc_stage: 0,
        },
        shield: Shield(shield),
        aura: ElementAura { slot0: aura[0], slot1: aura[1] },
        statuses: StatusBoard::default(),
    }
}

fn member(name: &str, side: Side, hp: i32) -> Combatant {
    Combatant {
        name: name.to_string(),
        side,
        element: ElementType::Fire,
        skills: vec![],
        skill_uses: vec![],
        state: state(hp, 0, [None, None]),
    }
}

#[test]
fn card_effects_describe_what_they_did() {
    let mut hand = Hand::new();
    let mut piles = CardPiles::new();
    let mut ap = ActionPoints { player: 1, enemy: 0 };
    let mut boosts = PendingBoosts::new();
    let mut tactical = None;
    let mut team = Team { combatants: vec![member("A", Side::Player, 10)], active_index: 0 };
    let mut events: Vec<BattleEvent> = Vec::new();
    let memory = CardTurnMemory::new();
    let deck = vec![CardId::GainAp];
    let mut play = |effect: CardEffect, team: &mut Team, hand: &mut Hand| {
        let card = CardDef { id: CardId::GainAp, name: "卡".to_string(), cost_ap: 0, effect };
        apply_card_effect(
            Side::Player, &card, &deck, &memory, hand, &mut piles, &mut ap, &mut boosts, &mut tactical, team, &mut events,
        )
    };
    let wind = CardEffect::NextWindSpreadDamage { amount: 4, elements: vec![ElementType::Fire], ignore_shield: false };
    assert_eq!(play(wind, &mut team, &mut hand), "下次指定元素扩散追加固定伤害=4");
    assert_eq!(play(CardEffect::GainAp { amount: 2 }, &mut team, &mut hand), "获得AP=2");
    assert_eq!(play(CardEffect::GainShield { amount: 30 }, &mut team, &mut hand), "获得护盾=20");
    assert_eq!(
        play(CardEffect::DiscardOtherDrawGainAp { draw: 2, gain_ap: 1 }, &mut team, &mut hand),
        "没有其他手牌，效果未触发"
    );
    assert_eq!(
        play(CardEffect::DrawAndGainApIfAliveTeam { draw: 1, min_alive: 2, gain_ap: 1 }, &mut team, &mut hand),
        "抽牌=1；存活队友数=1，未获得额外AP"
    );
    assert_eq!(
        play(CardEffect::ModifyStages { attribute: mon_battle::data::AttributeType::Atk, amount: 1, duration_turns: 2 }, &mut team, &mut hand),
        "Atk等级变化=1，持续2回合"
    );
}

#[test]
fn attachment_reports_the_evicted_element() {
    let mut attacker = state(20, 0, [None, None]);
    let mut target = state(20, 0, [Some(ElementType::Fire), Some(ElementType::Water)]);
    let mut events: Vec<BattleEvent> = Vec::new();
    let r = attach_element(
        ElementType::Grass,
        Side::Player,
        Side::Enemy,
        1000,
        &mut attacker,
        &mut target,
        &StatusDb::new(),
        &ReactionDb { reactions: vec![] },
        1,
        &mut events,
    );
    assert_eq!(r.0, None);
    assert_eq!(r.2, vec![ElementType::Fire, ElementType::Water]);
    assert_eq!(r.3, Some(ElementType::Fire));
    assert_eq!(target.aura.elements(), vec![ElementType::Water, ElementType::Grass]);
    assert_eq!(target.shield.0, 0);
}

#[test]
fn round_end_reports_expired_aura_statuses() {
    let burning = StatusInstance {
        id: "burning_aura".to_string(),
        name: "燃烧".to_string(),
        category: StatusCategory::Aura,
        remaining_turns: 1,
        applied_round: 1,
        source_side: Some(Side::Enemy),
        tick_timing: Some(StatusTickTiming::OwnerActionEnd),
        stage_modifiers: vec![],
        fixed_damage_on_tick: 0,
        heal_on_tick: 0,
        heal_taken_multiplier: None,
        evade_charges: 0,
    };
    let mut a = member("A", Side::Player, 10);
    a.state.aura = ElementAura { slot0: Some(ElementType::Fire), slot1: Some(ElementType::Water) };
    a.state.statuses = StatusBoard { entries: vec![burning] };
    let mut player = Team { combatants: vec![a], active_index: 0 };
    let mut enemy = Team { combatants: vec![member("E", Side::Enemy, 10)], active_index: 0 };
    let mut pending = PendingKoResolution::new();
    let mut events: Vec<BattleEvent> = Vec::new();
    let mut trace: Vec<ActionTraceEntry> = Vec::new();
    let mut records: Vec<StatusRecord> = Vec::new();
    let r = check_end_system(&mut player, &mut enemy, &mut pending, 2, &mut events, &mut trace, &mut records);
    assert_eq!(r, Ok(BattlePhase::RoundStart));
    assert_eq!(player.combatants[0].state.aura.elements(), vec![ElementType::Water]);
    assert_eq!(records.len(), 2);
    assert_eq!((records[0].status_id.as_str(), records[0].action.as_str()), ("burning_aura", "expired"));
    assert_eq!(records[0].detail, "remaining_turns=0 status_name=燃烧");
    assert_eq!((records[1].status_id.as_str(), records[1].action.as_str()), ("element_aura", "cleared"));
    assert_eq!(records[1].detail, "expired_status_id=burning_aura aura_cleared_element=Fire");
    assert_eq!(records[1].side, Side::Player);
}

#[test]
fn replay_entries_number_every_record() {
    let player = Team { combatants: vec![member("Player A", Side::Player, 18)], active_index: 0 };
    let enemy = Team { combatants: vec![member("Enemy A", Side::Enemy, 11)], active_index: 0 };
    let inputs = vec![
        LogInput::Battle(BattleEvent::SkillUsed { side: Side::Player, skill_name: "火拳".to_string(), slot: 0 }),
        LogInput::Trace { round: 3, action: "skill:FirePunch".to_string(), detail: "玩家释放火拳并命中。".to_string() },
        LogInput::Formula { round: 3, action: "damage_formula".to_string(), detail: "基础伤害=7".to_string() },
        LogInput::Status { round: 3, status_id: "burning_aura".to_string(), action: "applied".to_string(), detail: "x".to_string() },
        LogInput::Lifecycle { phase: "battle-result".to_string(), summary: "战斗结束".to_string(), detail: "胜利".to_string() },
    ];
    let r = replay_entries(&inputs, 1, &player, &enemy);
    assert_eq!(r.len(), 5);
    assert_eq!((r[0].seq, r[0].phase.as_str(), r[0].summary.as_str()), (1, "battle-event", "BattleEvent"));
    assert_eq!(r[0].detail, "玩家 使用了 火拳。");
    assert_eq!((r[1].seq, r[1].phase.as_str(), r[1].summary.as_str()), (2, "trace-r3", "skill:FirePunch"));
    assert_eq!(r[2].phase, "formula-r3");
    assert_eq!((r[3].phase.as_str(), r[3].summary.as_str()), ("status-r3", "burning_aura:applied"));
    assert_eq!((r[4].seq, r[4].phase.as_str()), (5, "battle-result"));
}

#[test]
fn team_snapshots() {
    let player = Team { combatants: vec![member("Player A", Side::Player, 18), member("Player B", Side::Player, -3)], active_index: 0 };
    let empty = Team { combatants: vec![], active_index: 0 };
    assert_eq!(
        team_snapshot(&player, Side::Player),
        "前场#1 Player A | HP 18/20 | 护盾 0 | 附着 无 | 状态 无 | 属性等级 Atk+1/Def+0/Spd-2/Acc+0 || 后场#2 Player B | HP 0/20 | 护盾 0 | 附着 无 | 状态 无 | 属性等级 Atk+1/Def+0/Spd-2/Acc+0"
    );
    assert_eq!(team_snapshot(&empty, Side::Enemy), "Enemy 无可用成员");
    assert!(state_snapshot(&player, &empty).starts_with("我方 => 前场#1"));
    assert!(state_snapshot(&player, &empty).ends_with("\n敌方 => Enemy 无可用成员"));
}

#[test]
fn guard_clear_only_when_the_turn_ends() {
    let mut turn = TurnContext::new();
    assert_eq!(guard_clear_after(false, &turn, Side::Enemy), None);
    turn.enemy_ended = true;
    assert_eq!(guard_clear_after(false, &turn, Side::Enemy), Some(Side::Enemy));
    assert_eq!(guard_clear_after(true, &turn, Side::Enemy), None);
}

fn screen(mode: BattleControlMode, return_map: Option<CurrentMap>) -> ResultScreen {
    ResultScreen {
        message: "胜利！".to_string(),
        export_status: Some("已导出".to_string()),
        notice: "导出成功".to_string(),
        pending_action: None,
        entry_mode: SelectionEntryMode::Debug,
        ui_control_side: Side::Enemy,
        selected: SelectedCards::new(),
        player_indices: vec![0, 1],
        enemy_indices: vec![2],
        return_map,
        enemy_monster_index: Some(2),
        current_map: CurrentMap::Map1,
        mode,
    }
}

#[test]
fn result_screen_resets() {
    let mut s = screen(BattleControlMode::DebugPlayerControlsBoth, Some(CurrentMap::Map3));
    assert_eq!(restart_from_result_system(true, &mut s), Some((GameState::MapScreen, BattlePhase::Init)));
    assert_eq!(s.current_map, CurrentMap::Map3);
    assert!(s.message.is_empty() && s.export_status.is_none());
    assert_eq!((s.return_map, s.enemy_monster_index), (None, None));
    assert_eq!((s.entry_mode, s.mode, s.ui_control_side), (SelectionEntryMode::VsAi, BattleControlMode::PlayerVsAi, Side::Player));
    assert!(s.player_indices.is_empty() && s.enemy_indices.is_empty());

    let mut r = screen(BattleControlMode::DebugPlayerControlsBoth, Some(CurrentMap::Map2));
    r.pending_action = Some(BattleResultAction::Rematch);
    assert_eq!(restart_from_result_system(false, &mut r), Some((GameState::TeamSelection, BattlePhase::Init)));
    assert_eq!(r.enemy_monster_index, Some(2));
    assert_eq!(r.mode, BattleControlMode::DebugPlayerControlsBoth);
    assert!(r.notice.is_empty() && r.pending_action.is_none());

    let mut q = screen(BattleControlMode::PlayerVsRemote, None);
    q.pending_action = Some(BattleResultAction::RestartSameTeams);
    assert_eq!(restart_from_result_system(false, &mut q), None);
    assert!(q.pending_action.is_none());
    assert_eq!(q.message, "胜利！");
}

#[test]
fn refusal_messages() {
    let pool = vec![MonsterPrototype {
        name: "火狐".to_string(),
        element: ElementType::Fire,
        stats: StatsData { hp: 10, atk: 1, def: 1, spd: 1, acc: 100 },
        skills: vec![],
    }];
    let m = init_error_message(&InitError::PlayerTeamSize { max: 3, count: 0 }, &pool);
    assert_eq!(m, "战斗初始化失败：玩家队伍人数非法（需 1..=3，当前 0）。");
    let (line, next) = abort_battle(&m);
    assert_eq!(line, "战斗中断：战斗初始化失败：玩家队伍人数非法（需 1..=3，当前 0）。 按 R 重新开始。");
    assert_eq!(next, GameState::Result);
    assert_eq!(
        init_error_message(&InitError::UnknownSkill { index: 0, skill: SkillId::FirePunch }, &pool),
        "战斗初始化失败：火狐 存在未定义技能 FirePunch。"
    );
}

#[test]
fn side_end_ticks_take_the_shield_first() {
    let mut s = state(10, 3, [None, None]);
    s.statuses = StatusBoard {
        entries: vec![StatusInstance {
            id: "poison".to_string(),
            name: "中毒".to_string(),
            category: StatusCategory::Debuff,
            remaining_turns: 2,
            applied_round: 1,
            source_side: Some(Side::Enemy),
            tick_timing: Some(StatusTickTiming::OwnerActionEnd),
            stage_modifiers: vec![],
            fixed_damage_on_tick: 5,
            heal_on_tick: 0,
            heal_taken_multiplier: None,
            evade_charges: 0,
        }],
    };
    let mut boost = PendingBoosts::new().player;
    let mut events: Vec<BattleEvent> = Vec::new();
    mon_battle::battle::ticks::process_side_end_statuses(&mut s, Side::Player, &mut boost, &mut events);
    assert_eq!(s.shield.0, 0);
    assert_eq!(s.stats.hp, 8);
    assert!(matches!(events[0], BattleEvent::ShieldAbsorbed { side: Side::Player, amount: 3 }));
}

#[test]
fn replay_log_keeps_the_frame_order() {
    let player = Team { combatants: vec![member("Player A", Side::Player, 18)], active_index: 0 };
    let enemy = Team { combatants: vec![member("Enemy A", Side::Enemy, 11)], active_index: 0 };
    let batch = LogBatch {
        battle: vec![
            BattleEvent::SkillUsed { side: Side::Player, skill_name: "火拳".to_string(), slot: 0 },
            BattleEvent::DamageDealt { source: Side::Player, target: Side::Enemy, amount: 7, kind: DamageType::Direct },
        ],
        trace: vec![ActionTraceEntry {
            round: 3,
            side: Side::Player,
            action: "skill:FirePunch".to_string(),
            detail: "玩家释放火拳并命中。".to_string(),
        }],
        state: vec![],
        lifecycle: vec![LifecycleRecord {
            phase: "battle-result".to_string(),
            summary: "战斗结束".to_string(),
            detail: "胜利！全歼敌方。按 R 重新开始。".to_string(),
        }],
        formula: vec![FormulaRecord {
            round: 3,
            action: "damage_formula".to_string(),
            detail: "基础伤害=7；护盾吸收=0；最终生命伤害=7。".to_string(),
        }],
        status: vec![StatusRecord {
            round: 3,
            side: Side::Enemy,
            status_id: "burning_aura".to_string(),
            action: "applied".to_string(),
            detail: "敌方获得燃烧附着。".to_string(),
        }],
    };
    let mut log: Vec<ReplayLogEntry> = Vec::new();
    consume_battle_events_system(&mut log, batch, &player, &enemy);
    assert_eq!(log.len(), 6);
    assert_eq!((log[0].seq, log[0].phase.as_str(), log[0].summary.as_str()), (1, "battle-event", "BattleEvent"));
    assert_eq!(log[0].detail, "玩家 使用了 火拳。");
    assert_eq!(log[1].seq, 2);
    assert_eq!(log[1].detail, "玩家 对 敌方 造成了 7 点直接伤害。");
    assert_eq!((log[2].phase.as_str(), log[2].summary.as_str()), ("trace-r3", "skill:FirePunch"));
    assert_eq!((log[3].phase.as_str(), log[3].summary.as_str()), ("battle-result", "战斗结束"));
    assert_eq!((log[4].phase.as_str(), log[4].summary.as_str()), ("formula-r3", "damage_formula"));
    assert_eq!((log[5].phase.as_str(), log[5].summary.as_str()), ("status-r3", "burning_aura:applied"));
    assert_eq!(log[5].seq, 6);

    let next = LogBatch { battle: vec![], trace: vec![], state: vec![], lifecycle: vec![], formula: vec![], status: vec![] };
    consume_battle_events_system(&mut log, next, &player, &enemy);
    assert_eq!(log.len(), 6);
}
