use mon_battle::battle::init::{init_battle_system, InitError};
use mon_battle::battle::model::Side;
use mon_battle::data::cards::CardId;
use mon_battle::data::load::{battle_data_from_config, fallback_battle_data};
use mon_battle::data::validate::ConfigError;
use mon_battle::data::{
    BattleConfig, BattleFormulaConfig, BattleFormulaRules, BattleRulesConfig, ElementMatrixConfig,
    ElementRelation, ElementType, MonsterPrototype, SkillCategory, SkillDef, SkillEffect, SkillId,
    StatsData, TeamSelections,
};

fn monster(name: &str, skills: Vec<SkillId>) -> MonsterPrototype {
    MonsterPrototype {
        name: name.to_string(),
        element: ElementType::Water,
        stats: StatsData { hp: 30, atk: 8, def: 4, spd: 6, acc: 95 },
        skills,
    }
}

fn punch() -> SkillDef {
    SkillDef {
        id: SkillId::FirePunch,
        name: "火拳".to_string(),
        category: SkillCategory::NormalAttack,
        cost_ap: 1,
        effect: SkillEffect::Attack { power: 5, lifesteal_ratio: None, ignore_shield: false },
        element: Some(ElementType::Fire),
        base_accuracy: None,
    }
}

fn selections(player: Vec<usize>, enemy: Vec<usize>) -> TeamSelections {
    TeamSelections { player_indices: player, enemy_indices: enemy }
}

#[test]
fn build_battle_teams_makes_fresh_members_in_order() {
    let pool = vec![monster("A", vec![SkillId::FirePunch]), monster("B", vec![SkillId::FirePunch])];
    let (p, e) = init_battle_system(&pool, &selections(vec![1, 0], vec![0]), &vec![punch()], 3).unwrap();
    assert_eq!(p.combatants.len(), 2);
    assert_eq!(p.combatants[0].name, "B");
    assert_eq!(p.combatants[1].name, "A");
    assert_eq!(p.active_index, 0);
    assert_eq!(p.combatants[0].side, Side::Player);
    assert_eq!(e.combatants[0].side, Side::Enemy);
    let stats = p.combatants[0].state.stats;
    assert_eq!((stats.hp, stats.max_hp, stats.atk, stats.acc), (30, 30, 8, 95));
    assert_eq!(p.combatants[0].state.shield.0, 0);
    assert!(p.combatants[0].skill_uses.is_empty());
}

#[test]
fn build_battle_teams_reports_the_first_problem() {
    let pool = vec![
        monster("A", vec![SkillId::FirePunch]),
        monster("B", vec![]),
        monster("C", vec![SkillId::FirePunch, SkillId::WaterBlade]),
    ];
    let skills = vec![punch()];
    let build = |p: Vec<usize>, e: Vec<usize>, s: &Vec<SkillDef>| init_battle_system(&pool, &selections(p, e), s, 2).err();

    assert_eq!(build(vec![], vec![0], &skills), Some(InitError::PlayerTeamSize { max: 2, count: 0 }));
    assert_eq!(build(vec![0], vec![0, 0, 0], &skills), Some(InitError::EnemyTeamSize { max: 2, count: 3 }));
    assert_eq!(build(vec![0], vec![0], &vec![]), Some(InitError::NoSkills));
    assert_eq!(build(vec![0], vec![7], &skills), Some(InitError::BadIndex(7)));
    assert_eq!(build(vec![1], vec![7], &skills), Some(InitError::SkillCount { index: 1, count: 0 }));
    assert_eq!(
        build(vec![0, 2], vec![0], &skills),
        Some(InitError::UnknownSkill { index: 2, skill: SkillId::WaterBlade })
    );
}

fn config(relations: Vec<ElementRelation>, skills: Vec<SkillDef>) -> BattleConfig {
    BattleConfig {
        element_matrix: ElementMatrixConfig { relations },
        rules: BattleRulesConfig { max_team_size: 1, cards_per_round: 2, ap_per_round: 4 },
        formulas: BattleFormulaConfig::default(),
        statuses: vec![],
        reactions: vec![],
        skills,
        monsters: vec![monster("A", vec![SkillId::FirePunch])],
        cards: vec![],
        deck: vec![CardId::GainAp, CardId::Pursuit],
    }
}

#[test]
fn loading_a_valid_configuration() {
    let data = battle_data_from_config(config(vec![], vec![punch()])).unwrap();
    assert_eq!(data.dbs.skills.len(), 1);
    assert_eq!(data.monsters.monsters.len(), 1);
    assert_eq!(data.deck.0, vec![CardId::GainAp, CardId::Pursuit]);
    assert_eq!(data.rules.ap_per_round, 4);
    assert_eq!(data.formulas, BattleFormulaRules::default());
    assert_eq!(data.dbs.elements.get_effectiveness(ElementType::Water, ElementType::Fire), 2000);

    let relation = ElementRelation { attacker: ElementType::Fire, defender: ElementType::Fire, multiplier: 1500 };
    let custom = battle_data_from_config(config(vec![relation], vec![punch()])).unwrap();
    assert_eq!(custom.dbs.elements.get_effectiveness(ElementType::Fire, ElementType::Fire), 1500);
    assert_eq!(custom.dbs.elements.get_effectiveness(ElementType::Water, ElementType::Fire), 1000);
}

#[test]
fn loading_an_invalid_configuration_gives_the_error() {
    assert!(matches!(battle_data_from_config(config(vec![], vec![])), Err(ConfigError::EmptySkills)));
    let fallback = fallback_battle_data();
    assert!(fallback.dbs.skills.is_empty());
    assert_eq!(fallback.rules.max_team_size, 3);
    assert_eq!(fallback.dbs.elements.get_effectiveness(ElementType::Light, ElementType::Dark), 2000);
}
