//! The messages that tell why a configuration or a battle's set-up was refused, and the message
//! a battle that cannot go on ends with.
use vstd::prelude::*;

use super::validate::{ConfigError, SkillProblem};
use super::{BattleConfig, MonsterPrototype, SkillId};
use crate::battle::controls::AbortReason;
use crate::battle::flow::EndCheckError;
use crate::battle::init::InitError;
use crate::battle::text::{concat_text, format_number_after, int_decimal};
use crate::game_state::GameState;

verus! {

/// How a skill id is written in messages.
pub open spec fn skill_id_name(id: SkillId) -> Seq<char> {
    match id {
        SkillId::FirePunch => "FirePunch"@,
        SkillId::FlameStorm => "FlameStorm"@,
        SkillId::BurningSoul => "BurningSoul"@,
        SkillId::ExplosiveIgnition => "ExplosiveIgnition"@,
        SkillId::WaterBlade => "WaterBlade"@,
        SkillId::UndertowCrash => "UndertowCrash"@,
        SkillId::WaterScreen => "WaterScreen"@,
        SkillId::TidalImpact => "TidalImpact"@,
        SkillId::VineWhip => "VineWhip"@,
        SkillId::EntanglingVines => "EntanglingVines"@,
        SkillId::NatureHealing => "NatureHealing"@,
        SkillId::LifeBloom => "LifeBloom"@,
        SkillId::ThunderStrike => "ThunderStrike"@,
        SkillId::ThousandThunder => "ThousandThunder"@,
        SkillId::SwiftThunder => "SwiftThunder"@,
        SkillId::ElectroPulse => "ElectroPulse"@,
        SkillId::WindBlade => "WindBlade"@,
        SkillId::ShadowWingAssassinate => "ShadowWingAssassinate"@,
        SkillId::GaleEvasion => "GaleEvasion"@,
        SkillId::CycloneRend => "CycloneRend"@,
        SkillId::LightBladeSlash => "LightBladeSlash"@,
        SkillId::SacredJudgment => "SacredJudgment"@,
        SkillId::HolyShelter => "HolyShelter"@,
        SkillId::PurifyingLight => "PurifyingLight"@,
        SkillId::ShadowBlade => "ShadowBlade"@,
        SkillId::AbyssReap => "AbyssReap"@,
        SkillId::CurseWhisper => "CurseWhisper"@,
        SkillId::BloodTouch => "BloodTouch"@,
    }
}

pub fn skill_id_text(id: SkillId) -> (s: &'static str)
    ensures
        s@ == skill_id_name(id),
{
    match id {
        SkillId::FirePunch => "FirePunch",
        SkillId::FlameStorm => "FlameStorm",
        SkillId::BurningSoul => "BurningSoul",
        SkillId::ExplosiveIgnition => "ExplosiveIgnition",
        SkillId::WaterBlade => "WaterBlade",
        SkillId::UndertowCrash => "UndertowCrash",
        SkillId::WaterScreen => "WaterScreen",
        SkillId::TidalImpact => "TidalImpact",
        SkillId::VineWhip => "VineWhip",
        SkillId::EntanglingVines => "EntanglingVines",
        SkillId::NatureHealing => "NatureHealing",
        SkillId::LifeBloom => "LifeBloom",
        SkillId::ThunderStrike => "ThunderStrike",
        SkillId::ThousandThunder => "ThousandThunder",
        SkillId::SwiftThunder => "SwiftThunder",
        SkillId::ElectroPulse => "ElectroPulse",
        SkillId::WindBlade => "WindBlade",
        SkillId::ShadowWingAssassinate => "ShadowWingAssassinate",
        SkillId::GaleEvasion => "GaleEvasion",
        SkillId::CycloneRend => "CycloneRend",
        SkillId::LightBladeSlash => "LightBladeSlash",
        SkillId::SacredJudgment => "SacredJudgment",
        SkillId::HolyShelter => "HolyShelter",
        SkillId::PurifyingLight => "PurifyingLight",
        SkillId::ShadowBlade => "ShadowBlade",
        SkillId::AbyssReap => "AbyssReap",
        SkillId::CurseWhisper => "CurseWhisper",
        SkillId::BloodTouch => "BloodTouch",
    }
}

pub open spec fn status_label(c: BattleConfig, i: usize) -> Seq<char> {
    if i < c.statuses@.len() {
        c.statuses@[i as int].id@
    } else {
        Seq::empty()
    }
}

fn status_label_text(config: &BattleConfig, i: usize) -> (s: String)
    ensures
        s@ == status_label(*config, i),
{
    if i < config.statuses.len() {
        config.statuses[i].id.clone()
    } else {
        String::new()
    }
}

pub open spec fn skill_label(c: BattleConfig, i: usize) -> Seq<char> {
    if i < c.skills@.len() {
        skill_id_name(c.skills@[i as int].id)
    } else {
        Seq::empty()
    }
}

fn skill_label_text(config: &BattleConfig, i: usize) -> (s: String)
    ensures
        s@ == skill_label(*config, i),
{
    if i < config.skills.len() {
        skill_id_text(config.skills[i].id).to_owned()
    } else {
        String::new()
    }
}

pub open spec fn reaction_label(c: BattleConfig, i: usize) -> Seq<char> {
    if i < c.reactions@.len() {
        c.reactions@[i as int].id@
    } else {
        Seq::empty()
    }
}

fn reaction_label_text(config: &BattleConfig, i: usize) -> (s: String)
    ensures
        s@ == reaction_label(*config, i),
{
    if i < config.reactions.len() {
        config.reactions[i].id.clone()
    } else {
        String::new()
    }
}

/// Entry `j` of reaction `i`'s required (`which == 0`), applied (`1`) or cleared (`2`) statuses.
pub open spec fn reaction_entry(c: BattleConfig, i: usize, j: usize, which: int) -> Seq<char> {
    if i < c.reactions@.len() {
        let r = c.reactions@[i as int];
        let list = if which == 0 {
            r.required_statuses@
        } else if which == 1 {
            r.apply_statuses@
        } else {
            r.clear_statuses@
        };
        if j < list.len() {
            list[j as int]@
        } else {
            Seq::empty()
        }
    } else {
        Seq::empty()
    }
}

fn reaction_entry_text(config: &BattleConfig, i: usize, j: usize, which: u8) -> (s: String)
    ensures
        s@ == reaction_entry(*config, i, j, which as int),
{
    if i >= config.reactions.len() {
        return String::new();
    }
    let r = &config.reactions[i];
    let list = if which == 0 {
        &r.required_statuses
    } else if which == 1 {
        &r.apply_statuses
    } else {
        &r.clear_statuses
    };
    if j < list.len() {
        list[j].clone()
    } else {
        String::new()
    }
}

pub open spec fn monster_label(c: BattleConfig, i: usize) -> Seq<char> {
    if i < c.monsters@.len() {
        c.monsters@[i as int].name@
    } else {
        Seq::empty()
    }
}

fn monster_label_text(config: &BattleConfig, i: usize) -> (s: String)
    ensures
        s@ == monster_label(*config, i),
{
    if i < config.monsters.len() {
        config.monsters[i].name.clone()
    } else {
        String::new()
    }
}

pub open spec fn monster_skill_count(c: BattleConfig, i: usize) -> nat {
    if i < c.monsters@.len() {
        c.monsters@[i as int].skills@.len()
    } else {
        0
    }
}

fn monster_skill_count_exec(config: &BattleConfig, i: usize) -> (n: usize)
    ensures
        n == monster_skill_count(*config, i),
{
    if i < config.monsters.len() {
        config.monsters[i].skills.len()
    } else {
        0
    }
}

pub open spec fn monster_skill_name(c: BattleConfig, i: usize, j: usize) -> Seq<char> {
    if i < c.monsters@.len() && j < c.monsters@[i as int].skills@.len() {
        skill_id_name(c.monsters@[i as int].skills@[j as int])
    } else {
        Seq::empty()
    }
}

fn monster_skill_text(config: &BattleConfig, i: usize, j: usize) -> (s: String)
    ensures
        s@ == monster_skill_name(*config, i, j),
{
    if i < config.monsters.len() && j < config.monsters[i].skills.len() {
        skill_id_text(config.monsters[i].skills[j]).to_owned()
    } else {
        String::new()
    }
}

/// What is wrong with a skill, after the skill's name.
pub open spec fn problem_text(p: SkillProblem) -> Seq<char> {
    match p {
        SkillProblem::ConditionUnknownStatus { status_id } => " 的条件引用了未定义状态 "@ + status_id@,
        SkillProblem::EmptyReactionName => " 的 LastReactionName 不能为空"@,
        SkillProblem::EmptyCompoundCondition => " 的复合条件不能为空"@,
        SkillProblem::LifestealOutOfRange => " 的 Attack.lifesteal_ratio 必须在 0.0..=1.0 之间"@,
        SkillProblem::UnknownStatus { status_id } => " 引用了未定义状态 "@ + status_id@,
        SkillProblem::CleanseAmountZero => " 的 Cleanse.amount 必须 >= 1"@,
        SkillProblem::EmptyDispel => " 的 Dispel.status_ids 不能为空"@,
        SkillProblem::DispelUnknownStatus { status_id } => " 的 Dispel 引用了未定义状态 "@ + status_id@,
        SkillProblem::NegativeFixedDamage => " 的 DealFixedDamage.amount 必须 >= 0"@,
        SkillProblem::NegativeStageDuration => " 的 ModifyStages.duration_turns 必须 >= 0"@,
        SkillProblem::EmptyConditional => " 的 Conditional.branches 不能为空"@,
        SkillProblem::EmptySequence => " 的 Sequence.effects 不能为空"@,
    }
}

fn problem_text_exec(p: &SkillProblem) -> (s: String)
    ensures
        s@ == problem_text(*p),
{
    match p {
        SkillProblem::ConditionUnknownStatus { status_id } => {
            let s = " 的条件引用了未定义状态 ".to_owned();
            let part = status_id.clone();
            let s = concat_text(s.as_str(), part.as_str());
            s
        },
        SkillProblem::EmptyReactionName => {
            let s = " 的 LastReactionName 不能为空".to_owned();
            s
        },
        SkillProblem::EmptyCompoundCondition => {
            let s = " 的复合条件不能为空".to_owned();
            s
        },
        SkillProblem::LifestealOutOfRange => {
            let s = " 的 Attack.lifesteal_ratio 必须在 0.0..=1.0 之间".to_owned();
            s
        },
        SkillProblem::UnknownStatus { status_id } => {
            let s = " 引用了未定义状态 ".to_owned();
            let part = status_id.clone();
            let s = concat_text(s.as_str(), part.as_str());
            s
        },
        SkillProblem::CleanseAmountZero => {
            let s = " 的 Cleanse.amount 必须 >= 1".to_owned();
            s
        },
        SkillProblem::EmptyDispel => {
            let s = " 的 Dispel.status_ids 不能为空".to_owned();
            s
        },
        SkillProblem::DispelUnknownStatus { status_id } => {
            let s = " 的 Dispel 引用了未定义状态 ".to_owned();
            let part = status_id.clone();
            let s = concat_text(s.as_str(), part.as_str());
            s
        },
        SkillProblem::NegativeFixedDamage => {
            let s = " 的 DealFixedDamage.amount 必须 >= 0".to_owned();
            s
        },
        SkillProblem::NegativeStageDuration => {
            let s = " 的 ModifyStages.duration_turns 必须 >= 0".to_owned();
            s
        },
        SkillProblem::EmptyConditional => {
            let s = " 的 Conditional.branches 不能为空".to_owned();
            s
        },
        SkillProblem::EmptySequence => {
            let s = " 的 Sequence.effects 不能为空".to_owned();
            s
        },
    }
}

/// The message that tells why configuration `c` was refused with `e`; the statuses, skills,
/// reactions and monsters it names are taken from `c` by their indices.
pub open spec fn spec_config_error_message(e: ConfigError, c: BattleConfig) -> Seq<char> {
    match e {
        ConfigError::EmptySkills => "skills 不能为空"@,
        ConfigError::EmptyMonsters => "monsters 不能为空"@,
        ConfigError::TeamSizeOutOfRange { max_team_size } => "rules.max_team_size 必须在 1..=3 之间，当前为 "@ + int_decimal(max_team_size as int),
        ConfigError::CardsPerRoundZero => "rules.cards_per_round 必须 >= 1"@,
        ConfigError::NegativeApPerRound => "rules.ap_per_round 必须 >= 0"@,
        ConfigError::StageBoundsInverted => "formulas.attribute_stage_bounds.min 不能大于 max"@,
        ConfigError::AccuracyBoundsInverted => "formulas.accuracy.min 不能大于 max"@,
        ConfigError::AccuracyOutOfRange => "formulas.accuracy 的 min/max 必须在 0.0..=1.0 之间"@,
        ConfigError::NegativeAccuracyStep => "formulas.accuracy.stage_step 必须 >= 0.0"@,
        ConfigError::NegativeMinDamage => "formulas.damage.min_damage 必须 >= 0"@,
        ConfigError::TooFewMonsters { count, required } => "monsters 数量不足：当前 "@ + int_decimal(count as int) + "，至少需要 "@ + int_decimal(required as int) + "（max_team_size）"@,
        ConfigError::DuplicateStatusId { status } => "状态ID重复: "@ + status_label(c, status),
        ConfigError::NegativeStatusDuration { status } => "状态 "@ + status_label(c, status) + " 的 duration_turns 必须 >= 0"@,
        ConfigError::NegativeTickDamage { status } => "状态 "@ + status_label(c, status) + " 的 fixed_damage_on_tick 必须 >= 0"@,
        ConfigError::NegativeTickHeal { status } => "状态 "@ + status_label(c, status) + " 的 heal_on_tick 必须 >= 0"@,
        ConfigError::NegativeHealTakenMultiplier { status } => "状态 "@ + status_label(c, status) + " 的 heal_taken_multiplier 必须 >= 0.0"@,
        ConfigError::NegativeEvadeCharges { status } => "状态 "@ + status_label(c, status) + " 的 evade_charges 必须 >= 0"@,
        ConfigError::DuplicateSkillId { skill } => "技能ID重复: "@ + skill_label(c, skill),
        ConfigError::BaseAccuracyOutOfRange { skill } => "技能 "@ + skill_label(c, skill) + " 的 base_accuracy 必须在 0.0..=1.0 之间"@,
        ConfigError::Skill { skill, problem } => "技能 "@ + skill_label(c, skill) + problem_text(problem),
        ConfigError::TooManyRequiredElements { reaction } => "反应 "@ + reaction_label(c, reaction) + " 的 required_elements 不能超过 2 个"@,
        ConfigError::ReactionUnknownRequiredStatus { reaction, entry } => "反应 "@ + reaction_label(c, reaction) + " 引用了未定义状态 "@ + reaction_entry(c, reaction, entry, 0),
        ConfigError::ReactionUnknownAppliedStatus { reaction, entry } => "反应 "@ + reaction_label(c, reaction) + " 的 apply_statuses 引用了未定义状态 "@ + reaction_entry(c, reaction, entry, 1),
        ConfigError::ReactionUnknownClearedStatus { reaction, entry } => "反应 "@ + reaction_label(c, reaction) + " 的 clear_statuses 引用了未定义状态 "@ + reaction_entry(c, reaction, entry, 2),
        ConfigError::MonsterSkillCount { monster } => "角色 "@ + monster_label(c, monster) + " 技能数量必须在 1..=4，当前为 "@ + int_decimal(monster_skill_count(c, monster) as int),
        ConfigError::MonsterUnknownSkill { monster, entry } => "角色 "@ + monster_label(c, monster) + " 使用了未定义技能 "@ + monster_skill_name(c, monster, entry),
    }
}

pub fn config_error_message(err: &ConfigError, config: &BattleConfig) -> (s: String)
    ensures
        s@ == spec_config_error_message(*err, *config),
{
    let ghost c = *config;
    match err {
        ConfigError::EmptySkills => {
            let s = "skills 不能为空".to_owned();
            s
        },
        ConfigError::EmptyMonsters => {
            let s = "monsters 不能为空".to_owned();
            s
        },
        ConfigError::TeamSizeOutOfRange { max_team_size } => {
            let s = "rules.max_team_size 必须在 1..=3 之间，当前为 ".to_owned();
            let s = format_number_after(s.as_str(), *max_team_size as i128);
            s
        },
        ConfigError::CardsPerRoundZero => {
            let s = "rules.cards_per_round 必须 >= 1".to_owned();
            s
        },
        ConfigError::NegativeApPerRound => {
            let s = "rules.ap_per_round 必须 >= 0".to_owned();
            s
        },
        ConfigError::StageBoundsInverted => {
            let s = "formulas.attribute_stage_bounds.min 不能大于 max".to_owned();
            s
        },
        ConfigError::AccuracyBoundsInverted => {
            let s = "formulas.accuracy.min 不能大于 max".to_owned();
            s
        },
        ConfigError::AccuracyOutOfRange => {
            let s = "formulas.accuracy 的 min/max 必须在 0.0..=1.0 之间".to_owned();
            s
        },
        ConfigError::NegativeAccuracyStep => {
            let s = "formulas.accuracy.stage_step 必须 >= 0.0".to_owned();
            s
        },
        ConfigError::NegativeMinDamage => {
            let s = "formulas.damage.min_damage 必须 >= 0".to_owned();
            s
        },
        ConfigError::TooFewMonsters { count, required } => {
            let s = "monsters 数量不足：当前 ".to_owned();
            let s = format_number_after(s.as_str(), *count as i128);
            let s = concat_text(s.as_str(), "，至少需要 ");
            let s = format_number_after(s.as_str(), *required as i128);
            let s = concat_text(s.as_str(), "（max_team_size）");
            s
        },
        ConfigError::DuplicateStatusId { status } => {
            let s = "状态ID重复: ".to_owned();
            let part = status_label_text(config, *status);
            let s = concat_text(s.as_str(), part.as_str());
            s
        },
        ConfigError::NegativeStatusDuration { status } => {
            let s = "状态 ".to_owned();
            let part = status_label_text(config, *status);
            let s = concat_text(s.as_str(), part.as_str());
            let s = concat_text(s.as_str(), " 的 duration_turns 必须 >= 0");
            s
        },
        ConfigError::NegativeTickDamage { status } => {
            let s = "状态 ".to_owned();
            let part = status_label_text(config, *status);
            let s = concat_text(s.as_str(), part.as_str());
            let s = concat_text(s.as_str(), " 的 fixed_damage_on_tick 必须 >= 0");
            s
        },
        ConfigError::NegativeTickHeal { status } => {
            let s = "状态 ".to_owned();
            let part = status_label_text(config, *status);
            let s = concat_text(s.as_str(), part.as_str());
            let s = concat_text(s.as_str(), " 的 heal_on_tick 必须 >= 0");
            s
        },
        ConfigError::NegativeHealTakenMultiplier { status } => {
            let s = "状态 ".to_owned();
            let part = status_label_text(config, *status);
            let s = concat_text(s.as_str(), part.as_str());
            let s = concat_text(s.as_str(), " 的 heal_taken_multiplier 必须 >= 0.0");
            s
        },
        ConfigError::NegativeEvadeCharges { status } => {
            let s = "状态 ".to_owned();
            let part = status_label_text(config, *status);
            let s = concat_text(s.as_str(), part.as_str());
            let s = concat_text(s.as_str(), " 的 evade_charges 必须 >= 0");
            s
        },
        ConfigError::DuplicateSkillId { skill } => {
            let s = "技能ID重复: ".to_owned();
            let part = skill_label_text(config, *skill);
            let s = concat_text(s.as_str(), part.as_str());
            s
        },
        ConfigError::BaseAccuracyOutOfRange { skill } => {
            let s = "技能 ".to_owned();
            let part = skill_label_text(config, *skill);
            let s = concat_text(s.as_str(), part.as_str());
            let s = concat_text(s.as_str(), " 的 base_accuracy 必须在 0.0..=1.0 之间");
            s
        },
        ConfigError::Skill { skill, problem } => {
            let s = "技能 ".to_owned();
            let part = skill_label_text(config, *skill);
            let s = concat_text(s.as_str(), part.as_str());
            let part = problem_text_exec(problem);
            let s = concat_text(s.as_str(), part.as_str());
            s
        },
        ConfigError::TooManyRequiredElements { reaction } => {
            let s = "反应 ".to_owned();
            let part = reaction_label_text(config, *reaction);
            let s = concat_text(s.as_str(), part.as_str());
            let s = concat_text(s.as_str(), " 的 required_elements 不能超过 2 个");
            s
        },
        ConfigError::ReactionUnknownRequiredStatus { reaction, entry } => {
            let s = "反应 ".to_owned();
            let part = reaction_label_text(config, *reaction);
            let s = concat_text(s.as_str(), part.as_str());
            let s = concat_text(s.as_str(), " 引用了未定义状态 ");
            let part = reaction_entry_text(config, *reaction, *entry, 0);
            let s = concat_text(s.as_str(), part.as_str());
            s
        },
        ConfigError::ReactionUnknownAppliedStatus { reaction, entry } => {
            let s = "反应 ".to_owned();
            let part = reaction_label_text(config, *reaction);
            let s = concat_text(s.as_str(), part.as_str());
            let s = concat_text(s.as_str(), " 的 apply_statuses 引用了未定义状态 ");
            let part = reaction_entry_text(config, *reaction, *entry, 1);
            let s = concat_text(s.as_str(), part.as_str());
            s
        },
        ConfigError::ReactionUnknownClearedStatus { reaction, entry } => {
            let s = "反应 ".to_owned();
            let part = reaction_label_text(config, *reaction);
            let s = concat_text(s.as_str(), part.as_str());
            let s = concat_text(s.as_str(), " 的 clear_statuses 引用了未定义状态 ");
            let part = reaction_entry_text(config, *reaction, *entry, 2);
            let s = concat_text(s.as_str(), part.as_str());
            s
        },
        ConfigError::MonsterSkillCount { monster } => {
            let s = "角色 ".to_owned();
            let part = monster_label_text(config, *monster);
            let s = concat_text(s.as_str(), part.as_str());
            let s = concat_text(s.as_str(), " 技能数量必须在 1..=4，当前为 ");
            let s = format_number_after(s.as_str(), monster_skill_count_exec(config, *monster) as i128);
            s
        },
        ConfigError::MonsterUnknownSkill { monster, entry } => {
            let s = "角色 ".to_owned();
            let part = monster_label_text(config, *monster);
            let s = concat_text(s.as_str(), part.as_str());
            let s = concat_text(s.as_str(), " 使用了未定义技能 ");
            let part = monster_skill_text(config, *monster, *entry);
            let s = concat_text(s.as_str(), part.as_str());
            s
        },
    }
}

/// The name of monster `i` of the pool (empty when there is none).
pub open spec fn pool_name(pool: Seq<MonsterPrototype>, i: usize) -> Seq<char> {
    if i < pool.len() {
        pool[i as int].name@
    } else {
        Seq::empty()
    }
}

fn pool_name_text(pool: &Vec<MonsterPrototype>, i: usize) -> (s: String)
    ensures
        s@ == pool_name(pool@, i),
{
    if i < pool.len() {
        pool[i].name.clone()
    } else {
        String::new()
    }
}

/// The message that tells why the chosen teams cannot fight; monsters are named from `pool`.
pub open spec fn spec_init_error_message(e: InitError, pool: Seq<MonsterPrototype>) -> Seq<char> {
    match e {
        InitError::PlayerTeamSize { max, count } => "战斗初始化失败：玩家队伍人数非法（需 1..="@ + int_decimal(max as int)
            + "，当前 "@ + int_decimal(count as int) + "）。"@,
        InitError::EnemyTeamSize { max, count } => "战斗初始化失败：敌方队伍人数非法（需 1..="@ + int_decimal(max as int)
            + "，当前 "@ + int_decimal(count as int) + "）。"@,
        InitError::NoSkills => "战斗初始化失败：技能数据库为空。"@,
        InitError::BadIndex(i) => "战斗初始化失败：无效的精灵索引 "@ + int_decimal(i as int) + "。"@,
        InitError::SkillCount { index, count } => "战斗初始化失败："@ + pool_name(pool, index) + " 技能数量非法（需 1..=4，当前 "@
            + int_decimal(count as int) + "）。"@,
        InitError::UnknownSkill { index, skill } => "战斗初始化失败："@ + pool_name(pool, index) + " 存在未定义技能 "@
            + skill_id_name(skill) + "。"@,
    }
}

pub fn init_error_message(err: &InitError, pool: &Vec<MonsterPrototype>) -> (s: String)
    ensures
        s@ == spec_init_error_message(*err, pool@),
{
    match err {
        InitError::PlayerTeamSize { max, count } => {
            let s = format_number_after("战斗初始化失败：玩家队伍人数非法（需 1..=", *max as i128);
            let s = format_number_after(concat_text(s.as_str(), "，当前 ").as_str(), *count as i128);
            concat_text(s.as_str(), "）。")
        },
        InitError::EnemyTeamSize { max, count } => {
            let s = format_number_after("战斗初始化失败：敌方队伍人数非法（需 1..=", *max as i128);
            let s = format_number_after(concat_text(s.as_str(), "，当前 ").as_str(), *count as i128);
            concat_text(s.as_str(), "）。")
        },
        InitError::NoSkills => "战斗初始化失败：技能数据库为空。".to_owned(),
        InitError::BadIndex(i) => {
            let s = format_number_after("战斗初始化失败：无效的精灵索引 ", *i as i128);
            concat_text(s.as_str(), "。")
        },
        InitError::SkillCount { index, count } => {
            let s = concat_text("战斗初始化失败：", pool_name_text(pool, *index).as_str());
            let s = format_number_after(concat_text(s.as_str(), " 技能数量非法（需 1..=4，当前 ").as_str(), *count as i128);
            concat_text(s.as_str(), "）。")
        },
        InitError::UnknownSkill { index, skill } => {
            let s = concat_text("战斗初始化失败：", pool_name_text(pool, *index).as_str());
            let s = concat_text(concat_text(s.as_str(), " 存在未定义技能 ").as_str(), skill_id_text(*skill));
            concat_text(s.as_str(), "。")
        },
    }
}

/// The message a battle that cannot go on ends with, and the state it goes to: the result screen.
pub fn abort_battle(reason: &str) -> (r: (String, GameState))
    ensures
        r.0@ == "战斗中断："@ + reason@ + " 按 R 重新开始。"@,
        r.1 == GameState::Result,
{
    let s = concat_text("战斗中断：", reason);
    (concat_text(s.as_str(), " 按 R 重新开始。"), GameState::Result)
}

/// Who found that a battle cannot go on.
#[derive(Debug, Clone, Copy, PartialEq, Eq, Structural)]
pub enum AbortSource {
    /// The player's turn.
    PlayerTurn,
    /// The enemy's turn under local control.
    EnemyControls,
    /// The enemy AI's turn.
    EnemyAi,
}

/// The reason a turn gives for stopping the battle.
pub open spec fn spec_abort_reason_text(source: AbortSource, reason: AbortReason) -> Seq<char> {
    match (source, reason) {
        (_, AbortReason::EmptyTeam) => "战斗数据异常：队伍为空。"@,
        (AbortSource::PlayerTurn, AbortReason::PlayerFrontMissing) => "玩家上场精灵无效。"@,
        (AbortSource::PlayerTurn, AbortReason::EnemyFrontMissing) => "敌方上场精灵无效。"@,
        (AbortSource::EnemyControls, AbortReason::PlayerFrontMissing) => "调试模式：玩家上场精灵无效。"@,
        (AbortSource::EnemyControls, AbortReason::EnemyFrontMissing) => "调试模式：敌方上场精灵无效。"@,
        (AbortSource::EnemyAi, AbortReason::PlayerFrontMissing) => "敌方 AI：玩家上场精灵无效。"@,
        (AbortSource::EnemyAi, AbortReason::EnemyFrontMissing) => "敌方 AI：敌方上场精灵无效。"@,
    }
}

pub fn abort_reason_text(source: AbortSource, reason: AbortReason) -> (s: &'static str)
    ensures
        s@ == spec_abort_reason_text(source, reason),
{
    match (source, reason) {
        (_, AbortReason::EmptyTeam) => "战斗数据异常：队伍为空。",
        (AbortSource::PlayerTurn, AbortReason::PlayerFrontMissing) => "玩家上场精灵无效。",
        (AbortSource::PlayerTurn, AbortReason::EnemyFrontMissing) => "敌方上场精灵无效。",
        (AbortSource::EnemyControls, AbortReason::PlayerFrontMissing) => "调试模式：玩家上场精灵无效。",
        (AbortSource::EnemyControls, AbortReason::EnemyFrontMissing) => "调试模式：敌方上场精灵无效。",
        (AbortSource::EnemyAi, AbortReason::PlayerFrontMissing) => "敌方 AI：玩家上场精灵无效。",
        (AbortSource::EnemyAi, AbortReason::EnemyFrontMissing) => "敌方 AI：敌方上场精灵无效。",
    }
}

/// The reason the end check gives for stopping the battle.
pub fn end_check_error_text(err: EndCheckError) -> (s: &'static str)
    ensures
        s@ == (match err {
            EndCheckError::InvalidPlayerActive => "结算失败：玩家上场成员无效。"@,
            EndCheckError::InvalidEnemyActive => "结算失败：敌方上场成员无效。"@,
        }),
{
    match err {
        EndCheckError::InvalidPlayerActive => "结算失败：玩家上场成员无效。",
        EndCheckError::InvalidEnemyActive => "结算失败：敌方上场成员无效。",
    }
}

} // verus!
