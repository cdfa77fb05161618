//! Stage shifts, effective stats, accuracy and damage formulas.
//!
//! Accuracy and hit rolls are measured in hundred-thousandths (`100000` is certainty); element
//! multipliers, heal multipliers and ratios in thousandths.
use vstd::prelude::*;

use super::model::Stats;
use crate::arith::{
    abs_int, clamp_int, i128_to_i32_sat, max_int, mul_i128, round_div, round_div_i128, sat_i32,
};
use crate::data::{AttributeType, BattleFormulaRules};

verus! {

/// A stage clamped into the configured bounds.
pub open spec fn spec_clamped_stage(stage: int, rules: BattleFormulaRules) -> int {
    clamp_int(stage, rules.attribute_stage_bounds.min as int, rules.attribute_stage_bounds.max as int)
}

/// `base` scaled by the stage ratio: `(2 + s) / 2` for a stage `s >= 0` and `2 / (2 - s)` below
/// zero, rounded, saturated into `i32`.
pub open spec fn spec_scale_staged(base: int, stage: int, rules: BattleFormulaRules) -> int {
    let s = spec_clamped_stage(stage, rules);
    if s >= 0 {
        sat_i32(round_div(base * (2 + s), 2))
    } else {
        sat_i32(round_div(base * 2, 2 + abs_int(s)))
    }
}

pub open spec fn spec_effective_atk(stats: Stats, rules: BattleFormulaRules) -> int {
    max_int(spec_scale_staged(stats.atk as int, stats.atk_stage as int, rules), 1)
}

pub open spec fn spec_effective_def(stats: Stats, rules: BattleFormulaRules) -> int {
    max_int(spec_scale_staged(stats.def as int, stats.def_stage as int, rules), 0)
}

pub open spec fn spec_effective_spd(stats: Stats, rules: BattleFormulaRules) -> int {
    sat_i32(max_int(stats.spd + spec_clamped_stage(stats.spd_stage as int, rules) * 2, 1))
}

/// Hit chance of a skill (accuracy units): the attacker's accuracy percent times the skill's base
/// accuracy (thousandths, `1000` when unset), plus the stage step per accuracy stage, clamped into
/// the configured accuracy range.
pub open spec fn spec_effective_acc(
    stats: Stats,
    base_accuracy: Option<i32>,
    rules: BattleFormulaRules,
) -> int {
    let scale = match base_accuracy {
        Some(b) => b as int,
        None => 1000,
    };
    let stage = spec_clamped_stage(stats.acc_stage as int, rules);
    clamp_int(
        stats.acc * scale + stage * rules.accuracy.stage_step * 100,
        rules.accuracy.min * 100,
        rules.accuracy.max * 100,
    )
}

/// Accuracy of a combatant itself (accuracy units), without a skill's scale.
pub open spec fn spec_effective_acc_percent(stats: Stats, rules: BattleFormulaRules) -> int {
    let stage = spec_clamped_stage(stats.acc_stage as int, rules);
    clamp_int(
        stats.acc * 1000 + stage * rules.accuracy.stage_step * 100,
        rules.accuracy.min * 100,
        rules.accuracy.max * 100,
    )
}

/// The value of one attribute as stat-difference damage reads it (accuracy as a whole percent).
pub open spec fn spec_attribute_value(
    stats: Stats,
    attribute: AttributeType,
    rules: BattleFormulaRules,
) -> int {
    match attribute {
        AttributeType::Atk => spec_effective_atk(stats, rules),
        AttributeType::Def => spec_effective_def(stats, rules),
        AttributeType::Spd => spec_effective_spd(stats, rules),
        AttributeType::Acc => clamp_int(
            round_div(spec_effective_acc_percent(stats, rules), 1000),
            0,
            100,
        ),
    }
}

/// Fixed damage from the gap between an attacker's and a target's attribute (never negative);
/// optionally scaled by the attacker's defence stage.
pub open spec fn spec_stat_difference_damage(
    attacker: Stats,
    target: Stats,
    source_attribute: AttributeType,
    target_attribute: AttributeType,
    multiply_by_source_stage: bool,
    rules: BattleFormulaRules,
) -> int {
    let diff = max_int(
        sat_i32(
            spec_attribute_value(attacker, source_attribute, rules) - spec_attribute_value(
                target,
                target_attribute,
                rules,
            ),
        ),
        0,
    );
    if multiply_by_source_stage {
        max_int(spec_scale_staged(diff, attacker.def_stage as int, rules), 0)
    } else {
        diff
    }
}

/// Damage of an attack of `power` before elements: effective attack times `power / 10`, rounded,
/// minus effective defence, at least the configured minimum.
pub open spec fn spec_damage_after_defense(
    power: int,
    attacker: Stats,
    target: Stats,
    rules: BattleFormulaRules,
) -> int {
    let atk = spec_effective_atk(attacker, rules);
    let def = spec_effective_def(target, rules);
    let skill_damage = sat_i32(round_div(atk * max_int(power, 0), 10));
    max_int(sat_i32(skill_damage - def), rules.damage.min_damage as int)
}

/// Damage after the element multiplier (thousandths), rounded, at least the configured minimum.
pub open spec fn spec_final_damage(raw: int, effectiveness: int, rules: BattleFormulaRules) -> int {
    sat_i32(max_int(round_div(raw * effectiveness, 1000), rules.damage.min_damage as int))
}

pub fn clamped_stage(stage: i32, rules: &BattleFormulaRules) -> (s: i32)
    requires
        rules.sane(),
    ensures
        s == spec_clamped_stage(stage as int, *rules),
{
    let lo = rules.attribute_stage_bounds.min;
    let hi = rules.attribute_stage_bounds.max;
    if stage < lo {
        lo
    } else if stage > hi {
        hi
    } else {
        stage
    }
}

pub fn scale_staged_ratio(base: i32, stage: i32, rules: &BattleFormulaRules) -> (r: i32)
    requires
        rules.sane(),
    ensures
        r == spec_scale_staged(base as int, stage as int, *rules),
{
    let s = clamped_stage(stage, rules);
    if s >= 0 {
        let n = mul_i128(base as i128, 2 + s as i128);
        i128_to_i32_sat(round_div_i128(n, 2))
    } else {
        let n = (base as i128) * 2;
        i128_to_i32_sat(round_div_i128(n, 2 - (s as i128)))
    }
}

pub fn effective_atk(stats: &Stats, rules: &BattleFormulaRules) -> (v: i32)
    requires
        rules.sane(),
    ensures
        v == spec_effective_atk(*stats, *rules),
        v >= 1,
{
    let v = scale_staged_ratio(stats.atk, stats.atk_stage, rules);
    if v < 1 {
        1
    } else {
        v
    }
}

pub fn effective_def(stats: &Stats, rules: &BattleFormulaRules) -> (v: i32)
    requires
        rules.sane(),
    ensures
        v == spec_effective_def(*stats, *rules),
        v >= 0,
{
    let v = scale_staged_ratio(stats.def, stats.def_stage, rules);
    if v < 0 {
        0
    } else {
        v
    }
}

pub fn effective_spd(stats: &Stats, rules: &BattleFormulaRules) -> (v: i32)
    requires
        rules.sane(),
    ensures
        v == spec_effective_spd(*stats, *rules),
        v >= 1,
{
    let stage = clamped_stage(stats.spd_stage, rules);
    let raw = (stats.spd as i128) + (stage as i128) * 2;
    let raw = if raw < 1 {
        1
    } else {
        raw
    };
    i128_to_i32_sat(raw)
}

pub fn effective_acc(stats: &Stats, base_accuracy: Option<i32>, rules: &BattleFormulaRules) -> (v:
    i64)
    requires
        rules.sane(),
    ensures
        v == spec_effective_acc(*stats, base_accuracy, *rules),
        rules.accuracy.min * 100 <= v <= rules.accuracy.max * 100,
{
    let scale: i128 = match base_accuracy {
        Some(b) => b as i128,
        None => 1000,
    };
    let stage = clamped_stage(stats.acc_stage, rules) as i128;
    let raw = mul_i128(stats.acc as i128, scale) + mul_i128(stage, rules.accuracy.stage_step as i128)
        * 100;
    let lo = (rules.accuracy.min as i128) * 100;
    let hi = (rules.accuracy.max as i128) * 100;
    let v = if raw < lo {
        lo
    } else if raw > hi {
        hi
    } else {
        raw
    };
    v as i64
}

pub fn effective_acc_percent(stats: &Stats, rules: &BattleFormulaRules) -> (v: i64)
    requires
        rules.sane(),
    ensures
        v == spec_effective_acc_percent(*stats, *rules),
        rules.accuracy.min * 100 <= v <= rules.accuracy.max * 100,
{
    let stage = clamped_stage(stats.acc_stage, rules) as i128;
    let raw = mul_i128(stats.acc as i128, 1000) + mul_i128(stage, rules.accuracy.stage_step as i128)
        * 100;
    let lo = (rules.accuracy.min as i128) * 100;
    let hi = (rules.accuracy.max as i128) * 100;
    let v = if raw < lo {
        lo
    } else if raw > hi {
        hi
    } else {
        raw
    };
    v as i64
}

pub fn effective_attribute_value(stats: &Stats, attribute: AttributeType, rules: &BattleFormulaRules) -> (v: i32)
    requires
        rules.sane(),
    ensures
        v == spec_attribute_value(*stats, attribute, *rules),
{
    match attribute {
        AttributeType::Atk => effective_atk(stats, rules),
        AttributeType::Def => effective_def(stats, rules),
        AttributeType::Spd => effective_spd(stats, rules),
        AttributeType::Acc => {
            let p = effective_acc_percent(stats, rules);
            let r = round_div_i128(p as i128, 1000);
            let c = if r < 0 {
                0
            } else if r > 100 {
                100
            } else {
                r
            };
            c as i32
        },
    }
}

pub fn stat_difference_damage(
    attacker: &Stats,
    target: &Stats,
    source_attribute: AttributeType,
    target_attribute: AttributeType,
    multiply_by_source_stage: bool,
    rules: &BattleFormulaRules,
) -> (d: i32)
    requires
        rules.sane(),
    ensures
        d == spec_stat_difference_damage(
            *attacker,
            *target,
            source_attribute,
            target_attribute,
            multiply_by_source_stage,
            *rules,
        ),
        d >= 0,
{
    let source_value = effective_attribute_value(attacker, source_attribute, rules);
    let target_value = effective_attribute_value(target, target_attribute, rules);
    let gap = i128_to_i32_sat((source_value as i128) - (target_value as i128));
    let difference = if gap < 0 {
        0
    } else {
        gap
    };
    if multiply_by_source_stage {
        let scaled = scale_staged_ratio(difference, attacker.def_stage, rules);
        if scaled < 0 {
            0
        } else {
            scaled
        }
    } else {
        difference
    }
}

/// `(effective attack, effective defence, damage)` of an attack of `power`.
pub fn scaled_damage_after_defense(
    power: i32,
    attacker: &Stats,
    target: &Stats,
    rules: &BattleFormulaRules,
) -> (r: (i32, i32, i32))
    requires
        rules.sane(),
    ensures
        r.0 == spec_effective_atk(*attacker, *rules),
        r.1 == spec_effective_def(*target, *rules),
        r.2 == spec_damage_after_defense(power as int, *attacker, *target, *rules),
        r.2 >= rules.damage.min_damage,
{
    let atk = effective_atk(attacker, rules);
    let def = effective_def(target, rules);
    let p: i128 = if power < 0 {
        0
    } else {
        power as i128
    };
    let skill_damage = i128_to_i32_sat(round_div_i128(mul_i128(atk as i128, p), 10));
    let gap = i128_to_i32_sat((skill_damage as i128) - (def as i128));
    let damage = if gap < rules.damage.min_damage {
        rules.damage.min_damage
    } else {
        gap
    };
    (atk, def, damage)
}

pub fn final_damage(raw_damage: i32, effectiveness: i32, rules: &BattleFormulaRules) -> (d: i32)
    requires
        rules.sane(),
    ensures
        d == spec_final_damage(raw_damage as int, effectiveness as int, *rules),
        d >= rules.damage.min_damage,
{
    let scaled = round_div_i128(mul_i128(raw_damage as i128, effectiveness as i128), 1000);
    let m = rules.damage.min_damage as i128;
    let v = if scaled < m {
        m
    } else {
        scaled
    };
    i128_to_i32_sat(v)
}

} // verus!
