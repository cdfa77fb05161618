use mon_battle::battle::flow::{Combatant, Team};
use mon_battle::battle::model::{BattleEvent, DamageType, CombatState, ElementAura, Shield, Side, Stats, StatusBoard};
use mon_battle::battle::text::{battle_event_line, elements_text, multiplier_text, should_emit_snapshot};
use mon_battle::data::ElementType;

fn team(names: &[&str], side: Side) -> Team {
    let combatants = names
        .iter()
        .map(|name| Combatant {
            name: name.to_string(),
            side,
            element: ElementType::Fire,
            skills: vec![],
            skill_uses: vec![],
            state: CombatState {
                stats: Stats {
                    hp: 10,
                    max_hp: 10,
                    atk: 1,
                    def: 1,
                    spd: 1,
                    acc: 100,
                    atk_stage: 0,
                    def_stage: 0,
                    spd_stage: 0,
                    acc_stage: 0,
                },
                shield: Shield(0),
                aura: ElementAura::default(),
                statuses: StatusBoard::default(),
            },
        })
        .collect();
    Team { combatants, active_index: 0 }
}

#[test]
fn multiplier_text_reads_like_a_decimal() {
    assert_eq!(multiplier_text(2000), "2");
    assert_eq!(multiplier_text(500), "0.5");
    assert_eq!(multiplier_text(1250), "1.25");
    assert_eq!(multiplier_text(1005), "1.005");
    assert_eq!(multiplier_text(50), "0.05");
    assert_eq!(multiplier_text(0), "0");
    assert_eq!(multiplier_text(-1500), "-1.5");
}

#[test]
fn elements_text_joins_or_says_none() {
    assert_eq!(elements_text(&vec![]), "无");
    assert_eq!(elements_text(&vec![ElementType::Fire, ElementType::Water]), "火/水");
}

#[test]
fn battle_event_lines() {
    let player = team(&["Player A", "Player B"], Side::Player);
    let enemy = team(&["Enemy A"], Side::Enemy);
    let line = |e: BattleEvent| battle_event_line(&e, &player, &enemy);

    assert_eq!(line(BattleEvent::TurnStarted { round: 3 }), "--- 第 3 回合 ---");
    assert_eq!(
        line(BattleEvent::SkillUsed { side: Side::Player, skill_name: "火拳".to_string(), slot: 0 }),
        "玩家 使用了 火拳。"
    );
    assert_eq!(
        line(BattleEvent::DamageDealt { source: Side::Player, target: Side::Enemy, amount: 7, kind: DamageType::Fixed }),
        "玩家 对 敌方 造成了 7 点实际伤害。"
    );
    assert_eq!(
        line(BattleEvent::ElementAuraApplied {
            side: Side::Enemy,
            from: vec![],
            to: vec![ElementType::Fire],
            effectiveness: 2000,
        }),
        "敌方 元素附着：无 -> 火（克制倍率 2）。"
    );
    assert_eq!(line(BattleEvent::Switched { side: Side::Player, index: 1 }), "玩家 换上了 Player B！");
    assert_eq!(line(BattleEvent::CombatantFainted { side: Side::Enemy, index: 0 }), "【敌方】Enemy A 倒下了。");
    assert_eq!(
        line(BattleEvent::WindSpreadSkipped { source: Side::Enemy, target: Side::Player, aura: vec![] }),
        "敌方 对 玩家 未触发风扩散（当前附着：无）。"
    );
}

#[test]
fn snapshots_follow_most_events() {
    assert!(should_emit_snapshot(&BattleEvent::Healed { side: Side::Player, amount: 2 }));
    assert!(!should_emit_snapshot(&BattleEvent::AttackMissed { source: Side::Player, target: Side::Enemy }));
}
