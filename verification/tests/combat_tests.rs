use mon_battle::battle::combat::apply_effect;
use mon_battle::battle::context::{evaluate_condition, EffectResolutionContext};
use mon_battle::battle::effects::{skill_execution_mode, SkillExecutionMode};
use mon_battle::battle::flow::Combatant;
use mon_battle::battle::model::{
    BattleEvent, CombatState, ElementAura, PendingBoosts, Shield, Side, Stats, StatusBoard,
};
use mon_battle::battle::rng::AccuracyRng;
use mon_battle::battle::wind::apply_wind_effect;
use mon_battle::data::{
    AttributeStageModifier, AttributeType, BattleFormulaRules, ConditionalSkillEffect,
    EffectTarget, ElementDb, ElementType, ReactionDb, ReactionDef, SkillCategory,
    SkillCondition, SkillDef, SkillEffect, SkillId, StatusDb,
};

fn test_skill(condition: SkillCondition) -> SkillDef {
    SkillDef {
        id: SkillId::ShadowWingAssassinate,
        name: "test".to_string(),
        category: SkillCategory::SpecialAttack,
        cost_ap: 1,
        effect: SkillEffect::Conditional {
            branches: vec![ConditionalSkillEffect {
                condition,
                effect: Box::new(SkillEffect::ModifyStages {
                    modifiers: vec![AttributeStageModifier { attribute: AttributeType::Acc, amount: -1 }],
                    duration_turns: 1,
                    target: EffectTarget::Opponent,
                }),
            }],
        },
        element: Some(ElementType::Wind),
        base_accuracy: Some(1000),
    }
}

fn context(resolved: bool, spread_succeeded: bool) -> EffectResolutionContext {
    let mut ctx = EffectResolutionContext::default();
    ctx.last_attack_resolved = resolved;
    ctx.last_wind_spread_succeeded = spread_succeeded;
    ctx
}

#[test]
fn last_wind_spread_failed_requires_attack_resolved() {
    let mut ctx = context(false, false);
    assert!(!evaluate_condition(&SkillCondition::LastWindSpreadFailed, &ctx));

    ctx.last_attack_resolved = true;
    assert!(evaluate_condition(&SkillCondition::LastWindSpreadFailed, &ctx));
}

#[test]
fn last_wind_spread_succeeded_requires_attack_resolved() {
    let mut ctx = context(false, true);
    assert!(!evaluate_condition(&SkillCondition::LastWindSpreadSucceeded, &ctx));

    ctx.last_attack_resolved = true;
    assert!(evaluate_condition(&SkillCondition::LastWindSpreadSucceeded, &ctx));
}

#[test]
fn sequence_wind_skill_is_detected_as_wind_spread() {
    let skill = SkillDef {
        id: SkillId::CycloneRend,
        name: "气旋撕裂".to_string(),
        category: SkillCategory::SpecialAttack,
        cost_ap: 2,
        element: Some(ElementType::Wind),
        base_accuracy: Some(1000),
        effect: SkillEffect::Sequence {
            effects: vec![
                SkillEffect::Attack { power: 12, lifesteal_ratio: None, ignore_shield: false },
                SkillEffect::Conditional { branches: vec![] },
            ],
        },
    };

    assert_eq!(skill_execution_mode(&skill), SkillExecutionMode::WindSpread);
}

#[test]
fn conditional_branch_uses_failed_wind_spread_semantics() {
    let skill = test_skill(SkillCondition::LastWindSpreadFailed);
    let condition = match &skill.effect {
        SkillEffect::Conditional { branches } => &branches[0].condition,
        _ => panic!("the test skill is conditional"),
    };
    let mut ctx = context(true, false);
    assert!(evaluate_condition(condition, &ctx));

    ctx.last_attack_resolved = false;
    assert!(!evaluate_condition(condition, &ctx));
}

fn formula_rules() -> BattleFormulaRules {
    BattleFormulaRules::default()
}

fn empty_status_db() -> StatusDb {
    StatusDb::new()
}

fn test_reaction_db() -> ReactionDb {
    ReactionDb {
        reactions: vec![ReactionDef {
            id: "vaporize".to_string(),
            name: "蒸发".to_string(),
            required_elements: vec![ElementType::Water, ElementType::Fire],
            required_statuses: vec![],
            trigger_element: ElementType::Fire,
            fixed_damage: 3,
            heal_attacker: 0,
            apply_statuses: vec![],
            clear_statuses: vec![],
            aura_results: vec![],
        }],
    }
}

fn base_stats(hp: i32) -> Stats {
    Stats {
        hp,
        max_hp: hp,
        atk: 10,
        def: 0,
        spd: 10,
        acc: 100,
        atk_stage: 0,
        def_stage: 0,
        spd_stage: 0,
        acc_stage: 0,
    }
}

fn state(hp: i32, shield: i32, aura: Option<ElementType>) -> CombatState {
    CombatState {
        stats: base_stats(hp),
        shield: Shield(shield),
        aura: ElementAura { slot0: aura, slot1: None },
        statuses: StatusBoard::default(),
    }
}

#[test]
fn wind_spread_backline_triggers_secondary_reaction() {
    let mut attacker = state(30, 0, None);
    let mut front = state(30, 0, Some(ElementType::Fire));
    let mut back = vec![Combatant {
        name: "back".to_string(),
        side: Side::Enemy,
        element: ElementType::Grass,
        skills: vec![],
        skill_uses: vec![],
        state: state(30, 0, Some(ElementType::Water)),
    }];
    let mut pending_boosts = PendingBoosts::new();
    let mut accuracy_rng = AccuracyRng::default();
    let element_db = ElementDb::from_default_config();
    let status_db = empty_status_db();
    let reaction_db = test_reaction_db();
    let mut ctx = EffectResolutionContext::default();
    let mut events: Vec<BattleEvent> = Vec::new();
    let skill = SkillDef {
        id: SkillId::CycloneRend,
        name: "气旋撕裂".to_string(),
        category: SkillCategory::SpecialAttack,
        cost_ap: 2,
        effect: SkillEffect::Attack { power: 10, lifesteal_ratio: None, ignore_shield: false },
        element: Some(ElementType::Wind),
        base_accuracy: Some(1000),
    };

    apply_wind_effect(
        &skill,
        Side::Player,
        Side::Enemy,
        ElementType::Grass,
        &mut attacker,
        &mut front,
        &mut back,
        &mut pending_boosts,
        &formula_rules(),
        &mut accuracy_rng,
        &element_db,
        &status_db,
        &reaction_db,
        &mut events,
        1,
        &mut ctx,
        true,
    );

    assert_eq!(front.aura.elements(), vec![ElementType::Fire]);
    assert!(back[0].state.aura.elements().is_empty());
    assert_eq!(ctx.last_reaction_name.as_deref(), Some("蒸发"));
    assert!(ctx.last_wind_spread_succeeded);
    assert!(ctx.last_attack_resolved);
    assert!(back[0].state.stats.hp < back[0].state.stats.max_hp);

    assert!(events.iter().any(|event| matches!(
        event,
        BattleEvent::WindSpreadTriggered { source: Side::Player, target: Side::Enemy, element: ElementType::Fire }
    )));
    assert!(events.iter().any(|event| matches!(
        event,
        BattleEvent::ReactionTriggered { reaction_name, .. } if reaction_name == "蒸发"
    )));
}

#[test]
fn elemental_attack_shield_blocks_attachment_and_reaction() {
    let mut attacker = state(30, 0, None);
    let mut target = state(30, 99, Some(ElementType::Fire));
    let mut pending_boosts = PendingBoosts::new();
    let mut accuracy_rng = AccuracyRng::default();
    let element_db = ElementDb::from_default_config();
    let status_db = empty_status_db();
    let reaction_db = test_reaction_db();
    let mut events: Vec<BattleEvent> = Vec::new();
    let skill = SkillDef {
        id: SkillId::WaterBlade,
        name: "水刃".to_string(),
        category: SkillCategory::ElementAttack,
        cost_ap: 1,
        effect: SkillEffect::Attack { power: 10, lifesteal_ratio: None, ignore_shield: false },
        element: Some(ElementType::Water),
        base_accuracy: Some(1000),
    };

    apply_effect(
        &skill,
        Side::Player,
        Side::Enemy,
        ElementType::Grass,
        &mut attacker,
        &mut target,
        &mut pending_boosts,
        &formula_rules(),
        &mut accuracy_rng,
        &element_db,
        &status_db,
        &reaction_db,
        &mut events,
        1,
    );

    assert_eq!(target.aura.elements(), vec![ElementType::Fire]);
    assert_eq!(target.stats.hp, target.stats.max_hp);
    assert!(target.shield.0 < 99);
    assert!(!events.iter().any(|event| matches!(event, BattleEvent::ElementAuraApplied { .. })));
    assert!(!events.iter().any(|event| matches!(event, BattleEvent::ReactionTriggered { .. })));
}
