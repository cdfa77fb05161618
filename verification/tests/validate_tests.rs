use mon_battle::data::messages::config_error_message;
use mon_battle::data::cards::CardId;
use mon_battle::data::validate::{validate_battle_config, ConfigError, SkillProblem};
use mon_battle::data::{
    BattleConfig, BattleFormulaConfig, BattleRulesConfig, ElementMatrixConfig, ElementType,
    MonsterPrototype, ReactionDef, SkillCategory, SkillDef, SkillEffect, SkillId, StatsData,
    StatusCategory, StatusDef,
};

fn skill(id: SkillId, effect: SkillEffect) -> SkillDef {
    SkillDef {
        id,
        name: "技能".to_string(),
        category: SkillCategory::NormalAttack,
        cost_ap: 1,
        effect,
        element: None,
        base_accuracy: None,
    }
}

fn attack() -> SkillEffect {
    SkillEffect::Attack { power: 5, lifesteal_ratio: None, ignore_shield: false }
}

fn monster(skills: Vec<SkillId>) -> MonsterPrototype {
    MonsterPrototype {
        name: "M".to_string(),
        element: ElementType::Fire,
        stats: StatsData { hp: 10, atk: 1, def: 1, spd: 1, acc: 100 },
        skills,
    }
}

fn status(id: &str) -> StatusDef {
    StatusDef {
        id: id.to_string(),
        name: id.to_string(),
        category: StatusCategory::Buff,
        duration_turns: 1,
        tick_timing: None,
        stage_modifiers: vec![],
        fixed_damage_on_tick: 0,
        heal_on_tick: 0,
        heal_taken_multiplier: None,
        evade_charges: 0,
    }
}

fn reaction(required: Vec<ElementType>, applied: Vec<String>) -> ReactionDef {
    ReactionDef {
        id: "r".to_string(),
        name: "反应".to_string(),
        required_elements: required,
        required_statuses: vec![],
        trigger_element: ElementType::Fire,
        fixed_damage: 1,
        heal_attacker: 0,
        apply_statuses: applied,
        clear_statuses: vec![],
        aura_results: vec![],
    }
}

fn valid() -> BattleConfig {
    BattleConfig {
        element_matrix: ElementMatrixConfig { relations: vec![] },
        rules: BattleRulesConfig { max_team_size: 1, cards_per_round: 1, ap_per_round: 1 },
        formulas: BattleFormulaConfig::default(),
        statuses: vec![status("burning_aura")],
        reactions: vec![],
        skills: vec![skill(SkillId::FirePunch, attack())],
        monsters: vec![monster(vec![SkillId::FirePunch])],
        cards: vec![],
        deck: vec![CardId::GainAp],
    }
}

#[test]
fn a_valid_configuration_passes() {
    assert!(validate_battle_config(&valid()).is_ok());
}

#[test]
fn configuration_errors() {
    let mut c = valid();
    c.monsters.clear();
    assert!(matches!(validate_battle_config(&c), Err(ConfigError::EmptyMonsters)));

    let mut c = valid();
    c.rules.max_team_size = 4;
    assert!(matches!(validate_battle_config(&c), Err(ConfigError::TeamSizeOutOfRange { max_team_size: 4 })));

    let mut c = valid();
    c.rules.cards_per_round = 0;
    assert!(matches!(validate_battle_config(&c), Err(ConfigError::CardsPerRoundZero)));

    let mut c = valid();
    c.rules.ap_per_round = -1;
    assert!(matches!(validate_battle_config(&c), Err(ConfigError::NegativeApPerRound)));

    let mut c = valid();
    c.formulas.attribute_stage_bounds.min = 3;
    c.formulas.attribute_stage_bounds.max = 2;
    assert!(matches!(validate_battle_config(&c), Err(ConfigError::StageBoundsInverted)));

    let mut c = valid();
    c.formulas.accuracy.min = 900;
    c.formulas.accuracy.max = 800;
    assert!(matches!(validate_battle_config(&c), Err(ConfigError::AccuracyBoundsInverted)));

    let mut c = valid();
    c.formulas.accuracy.max = 1200;
    assert!(matches!(validate_battle_config(&c), Err(ConfigError::AccuracyOutOfRange)));

    let mut c = valid();
    c.formulas.accuracy.stage_step = -5;
    assert!(matches!(validate_battle_config(&c), Err(ConfigError::NegativeAccuracyStep)));

    let mut c = valid();
    c.formulas.damage.min_damage = -1;
    assert!(matches!(validate_battle_config(&c), Err(ConfigError::NegativeMinDamage)));

    let mut c = valid();
    c.rules.max_team_size = 2;
    assert!(matches!(validate_battle_config(&c), Err(ConfigError::TooFewMonsters { count: 1, required: 2 })));
}

#[test]
fn status_errors() {
    let mut c = valid();
    c.statuses.push(status("burning_aura"));
    assert!(matches!(validate_battle_config(&c), Err(ConfigError::DuplicateStatusId { status: 1 })));

    let mut c = valid();
    c.statuses[0].duration_turns = -1;
    assert!(matches!(validate_battle_config(&c), Err(ConfigError::NegativeStatusDuration { status: 0 })));

    let mut c = valid();
    c.statuses[0].fixed_damage_on_tick = -1;
    assert!(matches!(validate_battle_config(&c), Err(ConfigError::NegativeTickDamage { status: 0 })));

    let mut c = valid();
    c.statuses[0].heal_on_tick = -1;
    assert!(matches!(validate_battle_config(&c), Err(ConfigError::NegativeTickHeal { status: 0 })));

    let mut c = valid();
    c.statuses[0].heal_taken_multiplier = Some(-100);
    assert!(matches!(validate_battle_config(&c), Err(ConfigError::NegativeHealTakenMultiplier { status: 0 })));

    let mut c = valid();
    c.statuses[0].evade_charges = -1;
    assert!(matches!(validate_battle_config(&c), Err(ConfigError::NegativeEvadeCharges { status: 0 })));
}

#[test]
fn skill_errors() {
    let mut c = valid();
    c.skills.push(skill(SkillId::FirePunch, attack()));
    assert!(matches!(validate_battle_config(&c), Err(ConfigError::DuplicateSkillId { skill: 1 })));

    let mut c = valid();
    c.skills[0].base_accuracy = Some(1500);
    assert!(matches!(validate_battle_config(&c), Err(ConfigError::BaseAccuracyOutOfRange { skill: 0 })));

    let mut c = valid();
    c.skills.push(skill(SkillId::WaterBlade, SkillEffect::ApplyStatus { status_id: "nope".to_string() }));
    assert!(matches!(
        validate_battle_config(&c),
        Err(ConfigError::Skill { skill: 1, problem: SkillProblem::UnknownStatus { .. } })
    ));

    let mut c = valid();
    c.skills.push(skill(SkillId::WaterBlade, SkillEffect::Sequence { effects: vec![] }));
    assert!(matches!(
        validate_battle_config(&c),
        Err(ConfigError::Skill { skill: 1, problem: SkillProblem::EmptySequence })
    ));

    let mut c = valid();
    c.skills.push(skill(SkillId::WaterBlade, SkillEffect::Cleanse { prefer_aura: true, fallback_to_debuff: false, amount: 0 }));
    assert!(matches!(
        validate_battle_config(&c),
        Err(ConfigError::Skill { skill: 1, problem: SkillProblem::CleanseAmountZero })
    ));
}

#[test]
fn reaction_and_monster_errors() {
    let mut c = valid();
    c.reactions.push(reaction(vec![ElementType::Fire, ElementType::Water, ElementType::Wind], vec![]));
    assert!(matches!(validate_battle_config(&c), Err(ConfigError::TooManyRequiredElements { reaction: 0 })));

    let mut c = valid();
    c.reactions.push(reaction(vec![ElementType::Fire], vec!["burning_aura".to_string(), "nope".to_string()]));
    assert!(matches!(
        validate_battle_config(&c),
        Err(ConfigError::ReactionUnknownAppliedStatus { reaction: 0, entry: 1 })
    ));

    let mut c = valid();
    c.monsters[0].skills = vec![];
    assert!(matches!(validate_battle_config(&c), Err(ConfigError::MonsterSkillCount { monster: 0 })));

    let mut c = valid();
    c.monsters[0].skills = vec![SkillId::FirePunch, SkillId::WaterBlade];
    assert!(matches!(validate_battle_config(&c), Err(ConfigError::MonsterUnknownSkill { monster: 0, entry: 1 })));
}

#[test]
fn configuration_error_messages() {
    let mut c = valid();
    c.statuses[0].duration_turns = -1;
    let err = validate_battle_config(&c).unwrap_err();
    assert_eq!(config_error_message(&err, &c), "状态 burning_aura 的 duration_turns 必须 >= 0");

    let mut c = valid();
    c.monsters[0].skills = vec![SkillId::FirePunch, SkillId::WaterBlade];
    let err = validate_battle_config(&c).unwrap_err();
    assert_eq!(config_error_message(&err, &c), "角色 M 使用了未定义技能 WaterBlade");

    let mut c = valid();
    c.skills.push(skill(SkillId::WaterBlade, SkillEffect::Sequence { effects: vec![] }));
    let err = validate_battle_config(&c).unwrap_err();
    assert_eq!(config_error_message(&err, &c), "技能 WaterBlade 的 Sequence.effects 不能为空");
}
