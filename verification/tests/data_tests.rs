use mon_battle::battle::damage::apply_status_tick_heal;
use mon_battle::battle::model::Stats;
use mon_battle::data::{shield_blocks_element_attachment, ElementDb, ElementType};

fn test_stats(hp: i32) -> Stats {
    Stats {
        hp,
        max_hp: 30,
        atk: 5,
        def: 5,
        spd: 5,
        acc: 100,
        atk_stage: 0,
        def_stage: 0,
        spd_stage: 0,
        acc_stage: 0,
    }
}

#[test]
fn status_tick_heal_does_not_revive_fainted_combatant() {
    let mut stats = test_stats(0);

    let heal_result = apply_status_tick_heal(&mut stats, 6, 850);

    assert_eq!(heal_result, None);
    assert_eq!(stats.hp, 0);
}

#[test]
fn status_tick_heal_still_heals_living_combatant() {
    let mut stats = test_stats(10);

    let heal_result = apply_status_tick_heal(&mut stats, 6, 1000);

    assert_eq!(heal_result, Some((6, 6)));
    assert_eq!(stats.hp, 16);
}

#[test]
fn status_tick_heal_uses_heal_taken_multiplier() {
    let mut stats = test_stats(10);

    let heal_result = apply_status_tick_heal(&mut stats, 20, 850);

    assert_eq!(heal_result, Some((17, 17)));
    assert_eq!(stats.hp, 27);
}

#[test]
fn element_db_basic_cycles() {
    let db = ElementDb::from_default_config();
    assert_eq!(db.get_effectiveness(ElementType::Water, ElementType::Fire), 2000);
    assert_eq!(db.get_effectiveness(ElementType::Fire, ElementType::Grass), 2000);
    assert_eq!(db.get_effectiveness(ElementType::Grass, ElementType::Water), 2000);

    assert_eq!(db.get_effectiveness(ElementType::Water, ElementType::Grass), 500);
}

#[test]
fn element_db_light_dark() {
    let db = ElementDb::from_default_config();
    assert_eq!(db.get_effectiveness(ElementType::Light, ElementType::Dark), 2000);
    assert_eq!(db.get_effectiveness(ElementType::Dark, ElementType::Light), 500);
}

#[test]
fn element_db_default_fallback() {
    let db = ElementDb::default();
    assert_eq!(db.get_effectiveness(ElementType::Fire, ElementType::Fire), 1000);
    assert_eq!(db.get_effectiveness(ElementType::Water, ElementType::Light), 1000);
}

#[test]
fn shield_blocks_attachment_when_absorbed_positive() {
    assert!(shield_blocks_element_attachment(5, 1));
    assert!(shield_blocks_element_attachment(1, 5));

    assert!(!shield_blocks_element_attachment(0, 10));
    assert!(!shield_blocks_element_attachment(10, 0));
}
