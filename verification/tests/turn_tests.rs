use mon_battle::battle::cards::{
    skill_card_pending_slot_available, ActionPoints, CardPiles, CardRules, CardTurnMemory, Hand,
    PendingHandDiscard, SelectedCardState, SelectedCards,
};
use mon_battle::battle::controls::{
    enemy_ai_step, enemy_turn_input_system, player_turn_input_system, AbortReason, AiPlan, BattleIntent,
    RemoteLink, TurnInput, TurnState, TurnStep,
};
use mon_battle::battle::cards::PendingTacticalDiscard;
use mon_battle::battle::flow::{
    BattleControlMode, Combatant, PendingKoResolution, RoundOrder, Team, TurnContext,
};
use mon_battle::battle::model::{
    BattleEvent, CombatState, ElementAura, PendingBoosts, Shield, Side, Stats, StatusBoard,
};
use mon_battle::battle::rng::AccuracyRng;
use mon_battle::battle::round::round_start_system;
use mon_battle::battle::turn::{
    card_key, discard_in_turn, discard_key, finalize_turn, next_phase_after_side_end,
    switch_in_turn, use_skill, CardKeyOutcome, SkillRefusal, SwitchOutcome,
};
use mon_battle::data::cards::{CardDef, CardEffect, CardId};
use mon_battle::data::{
    BattleFormulaRules, BattleRules, EffectTarget, ElementDb, ElementType, ReactionDb,
    SkillCategory, SkillDef, SkillEffect, SkillId, StatusDb,
};
use mon_battle::game_state::BattlePhase;

fn stats(hp: i32, spd: i32) -> Stats {
    Stats {
        hp,
        max_hp: 40,
        atk: 10,
        def: 0,
        spd,
        acc: 100,
        atk_stage: 0,
        def_stage: 0,
        spd_stage: 0,
        acc_stage: 0,
    }
}

fn member(name: &str, side: Side, hp: i32, spd: i32) -> Combatant {
    Combatant {
        name: name.to_string(),
        side,
        element: ElementType::Fire,
        skills: vec![SkillId::FirePunch, SkillId::FlameStorm],
        skill_uses: vec![1, 1],
        state: CombatState {
            stats: stats(hp, spd),
            shield: Shield(0),
            aura: ElementAura::default(),
            statuses: StatusBoard::default(),
        },
    }
}

fn team(members: Vec<Combatant>) -> Team {
    Team { combatants: members, active_index: 0 }
}

/// A fixed blow of `amount` on the opposing front member, and a second skill that costs 5 AP.
fn skills(amount: i32) -> Vec<SkillDef> {
    vec![
        SkillDef {
            id: SkillId::FirePunch,
            name: "火拳".to_string(),
            category: SkillCategory::NormalAttack,
            cost_ap: 2,
            effect: SkillEffect::DealFixedDamage { amount, ignore_shield: true, target: EffectTarget::Opponent },
            element: Some(ElementType::Fire),
            base_accuracy: Some(1000),
        },
        SkillDef {
            id: SkillId::FlameStorm,
            name: "烈焰风暴".to_string(),
            category: SkillCategory::NormalAttack,
            cost_ap: 5,
            effect: SkillEffect::DealFixedDamage { amount: 1, ignore_shield: true, target: EffectTarget::Opponent },
            element: Some(ElementType::Fire),
            base_accuracy: Some(1000),
        },
    ]
}

fn cards() -> Vec<CardDef> {
    vec![
        CardDef { id: CardId::GainAp, name: "蓄能".to_string(), cost_ap: 1, effect: CardEffect::GainAp { amount: 2 } },
        CardDef {
            id: CardId::NextAttackBoost,
            name: "强攻".to_string(),
            cost_ap: 3,
            effect: CardEffect::NextAttackBoost { amount: 4 },
        },
    ]
}

fn rules() -> CardRules {
    CardRules { max_ap: 10, discard_ap_gain: 1, max_retained_hand: 2 }
}

fn run_skill(
    side: Side,
    slot: usize,
    own: &mut Team,
    foe: &mut Team,
    ap: &mut ActionPoints,
    pending_ko: &mut PendingKoResolution,
    events: &mut Vec<BattleEvent>,
    amount: i32,
) -> Result<Option<BattlePhase>, SkillRefusal> {
    let mut boosts = PendingBoosts::new();
    let mut rng = AccuracyRng::default();
    use_skill(
        side,
        slot,
        own,
        foe,
        &skills(amount),
        ap,
        &mut boosts,
        &BattleFormulaRules::default(),
        &mut rng,
        &ElementDb::from_default_config(),
        &StatusDb::new(),
        &ReactionDb { reactions: vec![] },
        pending_ko,
        events,
        1,
    )
}

#[test]
fn switch_in_turn_costs_one_ap_and_reports() {
    let mut t = team(vec![member("A", Side::Player, 20, 5), member("B", Side::Player, 20, 5)]);
    let mut ap = ActionPoints { player: 3, enemy: 0 };
    let mut events: Vec<BattleEvent> = Vec::new();

    assert_eq!(switch_in_turn(Side::Player, 1, &mut t, &mut ap, &mut events), SwitchOutcome::Switched);
    assert_eq!(t.active_index, 1);
    assert_eq!(ap.player, 2);
    assert!(matches!(events.last(), Some(BattleEvent::Switched { side: Side::Player, index: 1 })));
}

#[test]
fn switch_in_turn_refusals() {
    let mut t = team(vec![member("A", Side::Player, 20, 5), member("B", Side::Player, 0, 5)]);
    let mut events: Vec<BattleEvent> = Vec::new();
    let mut broke = ActionPoints { player: 0, enemy: 0 };
    assert_eq!(switch_in_turn(Side::Player, 1, &mut t, &mut broke, &mut events), SwitchOutcome::NotEnoughAp);

    let mut ap = ActionPoints { player: 3, enemy: 0 };
    assert_eq!(switch_in_turn(Side::Player, 0, &mut t, &mut ap, &mut events), SwitchOutcome::Ignored);
    assert_eq!(switch_in_turn(Side::Player, 5, &mut t, &mut ap, &mut events), SwitchOutcome::Ignored);
    assert_eq!(switch_in_turn(Side::Player, 1, &mut t, &mut ap, &mut events), SwitchOutcome::Ignored);
    assert_eq!(t.active_index, 0);
    assert_eq!(ap.player, 3);
    assert!(events.is_empty());
}

#[test]
fn player_skill_spends_ap_and_a_use() {
    let mut own = team(vec![member("A", Side::Player, 20, 5)]);
    let mut foe = team(vec![member("E", Side::Enemy, 30, 5)]);
    let mut ap = ActionPoints { player: 6, enemy: 0 };
    let mut pending_ko = PendingKoResolution::new();
    let mut events: Vec<BattleEvent> = Vec::new();

    let r = run_skill(Side::Player, 0, &mut own, &mut foe, &mut ap, &mut pending_ko, &mut events, 7);

    assert_eq!(r, Ok(None));
    assert_eq!(ap.player, 4);
    assert_eq!(own.combatants[0].skill_uses, vec![0, 1]);
    assert_eq!(foe.combatants[0].state.stats.hp, 23);
    assert!(matches!(&events[0], BattleEvent::SkillUsed { side: Side::Player, slot: 0, skill_name } if skill_name == "火拳"));

    let again = run_skill(Side::Player, 0, &mut own, &mut foe, &mut ap, &mut pending_ko, &mut events, 7);
    assert_eq!(again, Err(SkillRefusal::NoUsesLeft));
    assert_eq!(ap.player, 4);
    assert_eq!(foe.combatants[0].state.stats.hp, 23);

    let costly = run_skill(Side::Player, 1, &mut own, &mut foe, &mut ap, &mut pending_ko, &mut events, 7);
    assert_eq!(costly, Err(SkillRefusal::NotEnoughAp));
    let missing = run_skill(Side::Player, 3, &mut own, &mut foe, &mut ap, &mut pending_ko, &mut events, 7);
    assert_eq!(missing, Err(SkillRefusal::NoSkill));
}

#[test]
fn enemy_skill_uses_are_not_counted() {
    let mut own = team(vec![member("E", Side::Enemy, 20, 5)]);
    let mut foe = team(vec![member("A", Side::Player, 30, 5)]);
    let mut ap = ActionPoints { player: 0, enemy: 6 };
    let mut pending_ko = PendingKoResolution::new();
    let mut events: Vec<BattleEvent> = Vec::new();

    assert_eq!(run_skill(Side::Enemy, 0, &mut own, &mut foe, &mut ap, &mut pending_ko, &mut events, 3), Ok(None));
    assert_eq!(run_skill(Side::Enemy, 0, &mut own, &mut foe, &mut ap, &mut pending_ko, &mut events, 3), Ok(None));
    assert_eq!(own.combatants[0].skill_uses, vec![1, 1]);
    assert_eq!(ap.enemy, 2);
    assert_eq!(foe.combatants[0].state.stats.hp, 24);
}

#[test]
fn knockout_by_skill_goes_to_end_check_and_back() {
    let mut own = team(vec![member("A", Side::Player, 20, 5)]);
    let mut foe = team(vec![member("E", Side::Enemy, 5, 5)]);
    let mut ap = ActionPoints { player: 6, enemy: 0 };
    let mut pending_ko = PendingKoResolution::new();
    let mut events: Vec<BattleEvent> = Vec::new();

    let r = run_skill(Side::Player, 0, &mut own, &mut foe, &mut ap, &mut pending_ko, &mut events, 9);

    assert_eq!(r, Ok(Some(BattlePhase::CheckEnd)));
    assert_eq!(foe.combatants[0].state.stats.hp, 0);
    assert_eq!(pending_ko.resume_phase, Some(BattlePhase::PlayerTurn));
}

#[test]
fn card_key_picks_then_plays() {
    let player = team(vec![member("A", Side::Player, 20, 5)]);
    let enemy = team(vec![member("E", Side::Enemy, 20, 5)]);
    let mut hand = Hand { player: vec![CardId::GainAp, CardId::NextAttackBoost], enemy: vec![] };
    let mut ap = ActionPoints { player: 2, enemy: 0 };
    let mut selected = SelectedCards::new();
    let mut pending_ko = PendingKoResolution::new();
    let mut events: Vec<BattleEvent> = Vec::new();
    let defs = cards();

    let mut press = |idx: usize, hand: &mut Hand, ap: &mut ActionPoints, selected: &mut SelectedCards, events: &mut Vec<BattleEvent>| {
        card_key(Side::Player, idx, &player, &enemy, hand, ap, selected, &mut pending_ko, &defs, events)
    };

    assert_eq!(press(1, &mut hand, &mut ap, &mut selected, &mut events), CardKeyOutcome::Selected);
    assert_eq!(selected.player.index, Some(1));
    assert_eq!(press(1, &mut hand, &mut ap, &mut selected, &mut events), CardKeyOutcome::NotEnoughAp);
    assert_eq!(press(0, &mut hand, &mut ap, &mut selected, &mut events), CardKeyOutcome::Selected);
    assert_eq!(press(0, &mut hand, &mut ap, &mut selected, &mut events), CardKeyOutcome::Played(None));
    assert_eq!(hand.player, vec![CardId::NextAttackBoost]);
    assert_eq!(ap.player, 1);
    assert_eq!(selected.player, SelectedCardState { index: None, discard_armed: false });
    assert!(matches!(events.last(), Some(BattleEvent::CardUsed { side: Side::Player, card_name }) if card_name == "蓄能"));
    assert_eq!(press(4, &mut hand, &mut ap, &mut selected, &mut events), CardKeyOutcome::Ignored);
}

#[test]
fn discard_key_arms_then_discards_for_one_ap() {
    let player = team(vec![member("A", Side::Player, 20, 5)]);
    let enemy = team(vec![member("E", Side::Enemy, 20, 5)]);
    let mut hand = Hand { player: vec![CardId::GainAp, CardId::NextAttackBoost], enemy: vec![] };
    let mut ap = ActionPoints { player: 0, enemy: 0 };
    let mut selected = SelectedCards::new();
    let mut pending_ko = PendingKoResolution::new();
    let mut events: Vec<BattleEvent> = Vec::new();
    let defs = cards();

    assert!(!discard_key(Side::Player, &mut hand, &mut ap, &mut selected, &defs, &mut events));
    assert!(selected.player.discard_armed);
    let o = card_key(Side::Player, 1, &player, &enemy, &mut hand, &mut ap, &mut selected, &mut pending_ko, &defs, &mut events);
    assert_eq!(o, CardKeyOutcome::Discarded);
    assert_eq!(hand.player, vec![CardId::GainAp]);
    assert_eq!(ap.player, 1);
    assert!(!selected.player.discard_armed);
    assert!(matches!(events.last(), Some(BattleEvent::CardDiscarded { card_name, .. }) if card_name == "强攻"));

    selected.player.index = Some(0);
    assert!(discard_key(Side::Player, &mut hand, &mut ap, &mut selected, &defs, &mut events));
    assert!(hand.player.is_empty());
    assert_eq!(ap.player, 2);
    assert!(!discard_key(Side::Player, &mut hand, &mut ap, &mut selected, &defs, &mut events));
    assert!(!discard_in_turn(Side::Player, 0, &mut hand, &mut ap, &mut selected, &defs, &mut events));
}

#[test]
fn finalize_turn_goes_to_discard_or_next_side() {
    let order = RoundOrder::new();
    let defs_rules = rules();
    let mut boosts = PendingBoosts::new();
    boosts.player.next_attack_bonus = 3;
    boosts.player.shield_absorb_ap = Some(1);
    let mut turn = TurnContext::new();
    let mut events: Vec<BattleEvent> = Vec::new();

    let mut own = team(vec![member("A", Side::Player, 20, 5)]);
    let mut ap = ActionPoints { player: 15, enemy: 0 };
    let full = Hand { player: vec![CardId::GainAp, CardId::GainAp, CardId::GainAp], enemy: vec![] };
    let r = finalize_turn(Side::Player, &mut own, &mut boosts, &mut ap, &full, &defs_rules, &order, &mut turn, &mut events);
    assert_eq!(r, (BattlePhase::Discard, Some(PendingHandDiscard { side: Side::Player, next_phase: BattlePhase::EnemyTurn })));
    assert_eq!(ap.player, 15);
    assert!(turn.player_ended);
    assert_eq!(boosts.player.next_attack_bonus, 0);
    assert_eq!(boosts.player.shield_absorb_ap, Some(1));

    let small = Hand { player: vec![CardId::GainAp], enemy: vec![] };
    let r = finalize_turn(Side::Player, &mut own, &mut boosts, &mut ap, &small, &defs_rules, &order, &mut turn, &mut events);
    assert_eq!(r, (BattlePhase::EnemyTurn, None));
    assert_eq!(ap.player, 10);

    let mut down = team(vec![member("E", Side::Enemy, 0, 5)]);
    let mut ap2 = ActionPoints { player: 0, enemy: 12 };
    let r = finalize_turn(Side::Enemy, &mut down, &mut boosts, &mut ap2, &full, &defs_rules, &order, &mut turn, &mut events);
    assert_eq!(r, (BattlePhase::CheckEnd, None));
    assert_eq!(ap2.enemy, 10);
    assert!(turn.enemy_ended);
}

#[test]
fn next_phase_after_side_end_follows_round_order() {
    let order = RoundOrder::new();
    assert_eq!(next_phase_after_side_end(&order, Side::Player), BattlePhase::EnemyTurn);
    assert_eq!(next_phase_after_side_end(&order, Side::Enemy), BattlePhase::CheckEnd);
    let mut swapped = RoundOrder::new();
    swapped.set_first(Side::Enemy);
    assert_eq!(next_phase_after_side_end(&swapped, Side::Enemy), BattlePhase::PlayerTurn);
}

struct RoundWorld {
    player: Team,
    enemy: Team,
    ap: ActionPoints,
    hand: Hand,
    piles: CardPiles,
    turn: TurnContext,
    count: u32,
    order: RoundOrder,
    boosts: PendingBoosts,
    memory: CardTurnMemory,
    selected: SelectedCards,
    events: Vec<BattleEvent>,
}

fn round_world(player_spd: i32, enemy_spd: i32) -> RoundWorld {
    RoundWorld {
        player: team(vec![member("A", Side::Player, 20, player_spd)]),
        enemy: team(vec![member("E", Side::Enemy, 20, enemy_spd)]),
        ap: ActionPoints { player: 0, enemy: 0 },
        hand: Hand::new(),
        piles: CardPiles::new(),
        turn: TurnContext::new(),
        count: 0,
        order: RoundOrder::new(),
        boosts: PendingBoosts::new(),
        memory: CardTurnMemory::new(),
        selected: SelectedCards::new(),
        events: Vec::new(),
    }
}

fn start(w: &mut RoundWorld, deck: &Vec<CardId>) -> Option<BattlePhase> {
    let rules = BattleRules { max_team_size: 3, cards_per_round: 2, ap_per_round: 6 };
    round_start_system(
        deck,
        &rules,
        1,
        &BattleFormulaRules::default(),
        &mut w.player,
        &mut w.enemy,
        &mut w.ap,
        &mut w.hand,
        &mut w.piles,
        &mut w.turn,
        &mut w.count,
        &mut w.order,
        &mut w.boosts,
        &mut w.memory,
        &mut w.selected,
        &mut w.events,
    )
}

#[test]
fn start_round_draws_gains_and_orders() {
    let deck = vec![CardId::GainAp, CardId::NextAttackBoost, CardId::Pursuit, CardId::ReadyToAct, CardId::TeamCommand];
    let mut w = round_world(5, 9);
    w.player.combatants[0].skill_uses = vec![0, 0];
    w.turn.player_ended = true;

    assert_eq!(start(&mut w, &deck), Some(BattlePhase::EnemyTurn));
    assert_eq!(w.count, 1);
    assert!(matches!(w.events[0], BattleEvent::TurnStarted { round: 1 }));
    assert_eq!(w.hand.player, vec![CardId::GainAp, CardId::NextAttackBoost]);
    assert_eq!(w.hand.enemy, vec![CardId::Pursuit, CardId::ReadyToAct]);
    assert_eq!(w.piles.draw, vec![CardId::TeamCommand]);
    assert_eq!(w.ap, ActionPoints { player: 6, enemy: 6 });
    assert!(!w.turn.player_ended);
    assert_eq!(w.player.combatants[0].skill_uses, vec![1, 1]);
    assert_eq!(w.order.first, Side::Enemy);

    assert_eq!(start(&mut w, &vec![]), None);
    assert_eq!(w.count, 1);
}

#[test]
fn tied_speed_alternates_first_side() {
    let deck = vec![CardId::GainAp];
    let mut w = round_world(7, 7);
    assert_eq!(start(&mut w, &deck), Some(BattlePhase::PlayerTurn));
    assert_eq!(start(&mut w, &deck), Some(BattlePhase::EnemyTurn));
    assert_eq!(start(&mut w, &deck), Some(BattlePhase::PlayerTurn));
}

fn turn_state(player_hand: Vec<CardId>) -> TurnState {
    TurnState {
        player: team(vec![member("A", Side::Player, 20, 5), member("B", Side::Player, 20, 5)]),
        enemy: team(vec![member("E", Side::Enemy, 20, 5)]),
        hand: Hand { player: player_hand, enemy: vec![CardId::GainAp] },
        action_points: ActionPoints { player: 4, enemy: 4 },
        pending_boosts: PendingBoosts::new(),
        pending_ko: PendingKoResolution::new(),
        turn: TurnContext::new(),
        selected: SelectedCards::new(),
        rng: AccuracyRng::default(),
        events: Vec::new(),
    }
}

fn no_input() -> TurnInput {
    TurnInput { ui_skill: None, switch_to: None, card: None, end_turn: false, discard: false, skill_slot: None }
}

fn player_frame(st: &mut TurnState, input: TurnInput) -> TurnStep {
    linked_frame(RemoteLink::Local, st, input)
}

fn linked_frame(link: RemoteLink, st: &mut TurnState, input: TurnInput) -> TurnStep {
    player_turn_input_system(
        link,
        &input,
        st,
        &None,
        &RoundOrder::new(),
        &skills(4),
        &cards(),
        &rules(),
        &BattleFormulaRules::default(),
        &ElementDb::from_default_config(),
        &StatusDb::new(),
        &ReactionDb { reactions: vec![] },
        1,
    )
}

fn enemy_frame(mode: BattleControlMode, st: &mut TurnState, input: TurnInput) -> TurnStep {
    enemy_turn_input_system(
        mode,
        &input,
        st,
        &None,
        &RoundOrder::new(),
        &skills(4),
        &cards(),
        &rules(),
        &BattleFormulaRules::default(),
        &ElementDb::from_default_config(),
        &StatusDb::new(),
        &ReactionDb { reactions: vec![] },
        1,
    )
}

#[test]
fn player_frame_priorities() {
    let mut st = turn_state(vec![CardId::GainAp, CardId::GainAp, CardId::GainAp]);
    let end = TurnInput { end_turn: true, ..no_input() };
    assert_eq!(player_frame(&mut st, end), TurnStep::HandFull);
    assert!(!st.turn.player_ended);

    let both = TurnInput { switch_to: Some(1), skill_slot: Some(0), ..no_input() };
    assert_eq!(player_frame(&mut st, both), TurnStep::Acted);
    assert_eq!(st.player.active_index, 1);
    assert_eq!(st.action_points.player, 3);
    assert_eq!(st.enemy.combatants[0].state.stats.hp, 20);

    let ui = TurnInput { ui_skill: Some(SkillId::FirePunch), skill_slot: Some(1), ..no_input() };
    assert_eq!(player_frame(&mut st, ui), TurnStep::Acted);
    assert_eq!(st.enemy.combatants[0].state.stats.hp, 16);
    assert_eq!(st.action_points.player, 1);

    let mut small = turn_state(vec![CardId::GainAp]);
    assert_eq!(player_frame(&mut small, end), TurnStep::Next(BattlePhase::EnemyTurn));
    assert!(small.turn.player_ended);
    assert_eq!(player_frame(&mut small, end), TurnStep::Idle);

    let mut broken = turn_state(vec![]);
    broken.enemy.active_index = 3;
    assert_eq!(player_frame(&mut broken, no_input()), TurnStep::Aborted(AbortReason::EnemyFrontMissing));
}

#[test]
fn enemy_frame_under_local_control() {
    let mut st = turn_state(vec![]);
    let key = TurnInput { skill_slot: Some(1), ..no_input() };
    assert_eq!(enemy_frame(BattleControlMode::PlayerVsAi, &mut st, key), TurnStep::Idle);
    assert_eq!(enemy_frame(BattleControlMode::DebugPlayerControlsBoth, &mut st, key), TurnStep::Queued(SkillId::FlameStorm));
    assert_eq!(enemy_frame(BattleControlMode::PlayerVsRemote, &mut st, key), TurnStep::Idle);

    let chosen = TurnInput { ui_skill: Some(SkillId::FirePunch), ..no_input() };
    assert_eq!(enemy_frame(BattleControlMode::DebugPlayerControlsBoth, &mut st, chosen), TurnStep::Acted);
    assert_eq!(st.player.combatants[0].state.stats.hp, 16);
    assert_eq!(st.action_points.enemy, 2);

    let end = TurnInput { end_turn: true, ..no_input() };
    assert_eq!(enemy_frame(BattleControlMode::DebugPlayerControlsBoth, &mut st, end), TurnStep::Next(BattlePhase::CheckEnd));
    assert!(st.turn.enemy_ended);
}

#[test]
fn pending_slot_blocks_stacking_boosts() {
    let defs = cards();
    let mut boosts = PendingBoosts::new();
    assert!(skill_card_pending_slot_available(&defs[1], &boosts));
    boosts.enemy.next_attack_bonus = 2;
    assert!(!skill_card_pending_slot_available(&defs[1], &boosts));
    assert!(skill_card_pending_slot_available(&defs[0], &boosts));
}

fn ai_frame(st: &mut TurnState, tactical: Option<PendingTacticalDiscard>, pick: Option<usize>, plan: Option<AiPlan>) -> TurnStep {
    enemy_ai_step(
        BattleControlMode::PlayerVsAi,
        &tactical,
        pick,
        plan,
        st,
        &RoundOrder::new(),
        &skills(4),
        &cards(),
        &rules(),
        &BattleFormulaRules::default(),
        &ElementDb::from_default_config(),
        &StatusDb::new(),
        &ReactionDb { reactions: vec![] },
        1,
    )
}

fn ai_state() -> TurnState {
    let mut st = turn_state(vec![]);
    st.enemy = team(vec![member("E", Side::Enemy, 20, 5), member("F", Side::Enemy, 20, 5)]);
    st.hand.enemy = vec![CardId::GainAp, CardId::NextAttackBoost];
    st
}

#[test]
fn ai_plans_run_through_the_same_actions() {
    let mut st = ai_state();
    assert_eq!(ai_frame(&mut st, None, None, Some(AiPlan::Switch { index: 1 })), TurnStep::Acted);
    assert_eq!(st.enemy.active_index, 1);
    assert_eq!(st.action_points.enemy, 3);

    assert_eq!(ai_frame(&mut st, None, None, Some(AiPlan::UseSkill { slot: 0 })), TurnStep::Acted);
    assert_eq!(st.player.combatants[0].state.stats.hp, 16);
    assert_eq!(st.action_points.enemy, 1);

    assert_eq!(ai_frame(&mut st, None, None, Some(AiPlan::Discard { index: 1 })), TurnStep::Acted);
    assert_eq!(st.hand.enemy, vec![CardId::GainAp]);
    assert_eq!(st.action_points.enemy, 2);

    assert_eq!(ai_frame(&mut st, None, None, Some(AiPlan::ImmediateCard { index: 0 })), TurnStep::Acted);
    assert!(st.hand.enemy.is_empty());
    assert_eq!(st.action_points.enemy, 1);
    assert!(matches!(st.events.last(), Some(BattleEvent::CardUsed { side: Side::Enemy, .. })));

    assert_eq!(ai_frame(&mut st, None, None, Some(AiPlan::UseSkill { slot: 1 })), TurnStep::Next(BattlePhase::CheckEnd));
    assert!(st.turn.enemy_ended);
}

#[test]
fn ai_tactical_discard_and_turn_end() {
    let mut st = ai_state();
    let waiting = Some(PendingTacticalDiscard { side: Side::Enemy, draw: 1, source_card: "战术整理".to_string() });
    assert_eq!(ai_frame(&mut st, waiting.clone(), Some(1), None), TurnStep::Acted);
    assert_eq!(st.hand.enemy, vec![CardId::GainAp]);
    assert_eq!(st.action_points.enemy, 5);

    let mut empty = ai_state();
    empty.hand.enemy.clear();
    assert_eq!(ai_frame(&mut empty, waiting, None, None), TurnStep::TacticalLapsed);

    let mut broke = ai_state();
    broke.action_points.enemy = 0;
    assert_eq!(ai_frame(&mut broke, None, None, Some(AiPlan::Discard { index: 0 })), TurnStep::Next(BattlePhase::CheckEnd));
    assert!(broke.turn.enemy_ended);

    let mut down = ai_state();
    down.player.combatants[0].state.stats.hp = 0;
    assert_eq!(ai_frame(&mut down, None, None, None), TurnStep::Next(BattlePhase::CheckEnd));
    assert_eq!(down.pending_ko.resume_phase, Some(BattlePhase::EnemyTurn));
    assert!(!down.turn.enemy_ended);

    let mut other = ai_state();
    assert_eq!(
        enemy_ai_step(
            BattleControlMode::DebugPlayerControlsBoth,
            &None,
            None,
            None,
            &mut other,
            &RoundOrder::new(),
            &skills(4),
            &cards(),
            &rules(),
            &BattleFormulaRules::default(),
            &ElementDb::from_default_config(),
            &StatusDb::new(),
            &ReactionDb { reactions: vec![] },
            1,
        ),
        TurnStep::Idle
    );
}

#[test]
fn client_predicts_and_sends() {
    let mut st = turn_state(vec![CardId::GainAp, CardId::NextAttackBoost]);
    let skill = TurnInput { skill_slot: Some(0), ..no_input() };
    assert_eq!(linked_frame(RemoteLink::Client, &mut st, skill), TurnStep::Sent(BattleIntent::UseSkill { slot: 0 }));
    assert_eq!(st.action_points.player, 2);
    assert_eq!(st.player.combatants[0].skill_uses, vec![0, 1]);
    assert_eq!(st.enemy.combatants[0].state.stats.hp, 20);
    assert!(st.events.is_empty());

    let pick = TurnInput { card: Some(0), ..no_input() };
    assert_eq!(linked_frame(RemoteLink::Client, &mut st, pick), TurnStep::Acted);
    assert_eq!(linked_frame(RemoteLink::Client, &mut st, pick), TurnStep::Sent(BattleIntent::UseCard { card_index: 0 }));
    assert_eq!(st.hand.player, vec![CardId::NextAttackBoost]);
    assert_eq!(st.action_points.player, 1);

    let discard = TurnInput { discard: true, ..no_input() };
    assert_eq!(linked_frame(RemoteLink::Client, &mut st, discard), TurnStep::Acted);
    assert_eq!(linked_frame(RemoteLink::Client, &mut st, pick), TurnStep::Sent(BattleIntent::DiscardCard { card_index: 0 }));
    assert!(st.hand.player.is_empty());
    assert_eq!(st.action_points.player, 2);

    let switch = TurnInput { switch_to: Some(1), ..no_input() };
    assert_eq!(linked_frame(RemoteLink::Client, &mut st, switch), TurnStep::Sent(BattleIntent::Switch { target_index: 1 }));
    assert_eq!(st.player.active_index, 1);
    assert_eq!(st.action_points.player, 1);

    let end = TurnInput { end_turn: true, ..no_input() };
    assert_eq!(linked_frame(RemoteLink::Waiting, &mut st, end), TurnStep::Idle);
    assert_eq!(linked_frame(RemoteLink::Client, &mut st, end), TurnStep::Sent(BattleIntent::EndTurn));
    assert!(!st.turn.player_ended);
    assert!(st.events.is_empty());
}

#[test]
fn player_frame_aborts_without_teams() {
    let mut empty = turn_state(vec![]);
    empty.enemy.combatants.clear();
    assert_eq!(player_frame(&mut empty, no_input()), TurnStep::Aborted(AbortReason::EmptyTeam));
    let mut lost = turn_state(vec![]);
    lost.player.active_index = 9;
    assert_eq!(player_frame(&mut lost, no_input()), TurnStep::Aborted(AbortReason::PlayerFrontMissing));
}
