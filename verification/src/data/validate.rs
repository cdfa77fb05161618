//! Validation of a battle configuration before it is used.
use vstd::prelude::*;

use super::{
    BattleConfig, ConditionalSkillEffect, MonsterPrototype, ReactionDef, SkillCondition, SkillDef,
    SkillEffect, SkillId, StatusDef,
};
use crate::chars::{is_blank, str_eq, str_is_blank};

verus! {

/// What is wrong with one skill's effect or condition.
#[derive(Debug)]
pub enum SkillProblem {
    ConditionUnknownStatus { status_id: String },
    EmptyReactionName,
    EmptyCompoundCondition,
    LifestealOutOfRange,
    UnknownStatus { status_id: String },
    CleanseAmountZero,
    EmptyDispel,
    DispelUnknownStatus { status_id: String },
    NegativeFixedDamage,
    NegativeStageDuration,
    EmptyConditional,
    EmptySequence,
}

/// The first thing wrong with a configuration. Indices point into the configuration's lists
/// (`status`, `skill`, `reaction`, `monster`) and into the offending entry's own list (`entry`).
#[derive(Debug)]
pub enum ConfigError {
    EmptySkills,
    EmptyMonsters,
    TeamSizeOutOfRange { max_team_size: usize },
    CardsPerRoundZero,
    NegativeApPerRound,
    StageBoundsInverted,
    AccuracyBoundsInverted,
    AccuracyOutOfRange,
    NegativeAccuracyStep,
    NegativeMinDamage,
    TooFewMonsters { count: usize, required: usize },
    DuplicateStatusId { status: usize },
    NegativeStatusDuration { status: usize },
    NegativeTickDamage { status: usize },
    NegativeTickHeal { status: usize },
    NegativeHealTakenMultiplier { status: usize },
    NegativeEvadeCharges { status: usize },
    DuplicateSkillId { skill: usize },
    BaseAccuracyOutOfRange { skill: usize },
    Skill { skill: usize, problem: SkillProblem },
    TooManyRequiredElements { reaction: usize },
    ReactionUnknownRequiredStatus { reaction: usize, entry: usize },
    ReactionUnknownAppliedStatus { reaction: usize, entry: usize },
    ReactionUnknownClearedStatus { reaction: usize, entry: usize },
    MonsterSkillCount { monster: usize },
    MonsterUnknownSkill { monster: usize, entry: usize },
}

/// Some status of `st` has id `id`.
pub open spec fn status_defined(st: Seq<StatusDef>, id: Seq<char>) -> bool {
    exists|k: int| 0 <= k < st.len() && #[trigger] st[k].id@ == id
}

fn status_defined_exec(st: &Vec<StatusDef>, id: &str) -> (b: bool)
    ensures
        b == status_defined(st@, id@),
{
    let mut k: usize = 0;
    while k < st.len()
        invariant
            k <= st@.len(),
            forall|m: int| 0 <= m < k ==> #[trigger] st@[m].id@ != id@,
        decreases st@.len() - k,
    {
        if str_eq(st[k].id.as_str(), id) {
            assert(st@[k as int].id@ == id@);
            return true;
        }
        k = k + 1;
    }
    false
}

/// The first problem of a skill condition (conditions nested in `Any`/`All` in order).
pub open spec fn condition_problem(c: SkillCondition, st: Seq<StatusDef>) -> Option<SkillProblem>
    decreases c, 0int,
{
    match c {
        SkillCondition::TargetHadStatus { status_id } => if !status_defined(st, status_id@) {
            Some(SkillProblem::ConditionUnknownStatus { status_id })
        } else {
            None
        },
        SkillCondition::LastReactionName { reaction_name } => if is_blank(reaction_name@) {
            Some(SkillProblem::EmptyReactionName)
        } else {
            None
        },
        SkillCondition::Any { conditions } => if conditions@.len() == 0 {
            Some(SkillProblem::EmptyCompoundCondition)
        } else {
            conditions_problem(conditions@, st, 0)
        },
        SkillCondition::All { conditions } => if conditions@.len() == 0 {
            Some(SkillProblem::EmptyCompoundCondition)
        } else {
            conditions_problem(conditions@, st, 0)
        },
        _ => None,
    }
}

pub open spec fn conditions_problem(cs: Seq<SkillCondition>, st: Seq<StatusDef>, i: int) -> Option<
    SkillProblem,
>
    decreases cs, cs.len() - i,
{
    if 0 <= i < cs.len() {
        match condition_problem(cs[i], st) {
            Some(p) => Some(p),
            None => conditions_problem(cs, st, i + 1),
        }
    } else {
        None
    }
}

pub open spec fn is_stage_shift_id(id: Seq<char>) -> bool {
    id == "stage_shift_buff"@ || id == "stage_shift_debuff"@
}

/// The first dispelled id (from `i` on) that is neither a stage-shift id nor a defined status.
pub open spec fn dispel_problem(ids: Seq<String>, st: Seq<StatusDef>, i: int) -> Option<
    SkillProblem,
>
    decreases ids.len() - i,
{
    if 0 <= i < ids.len() {
        if !is_stage_shift_id(ids[i]@) && !status_defined(st, ids[i]@) {
            Some(SkillProblem::DispelUnknownStatus { status_id: ids[i] })
        } else {
            dispel_problem(ids, st, i + 1)
        }
    } else {
        None
    }
}

/// The first problem of a skill effect (nested effects in order).
pub open spec fn effect_problem(e: SkillEffect, st: Seq<StatusDef>) -> Option<SkillProblem>
    decreases e, 0int,
{
    match e {
        SkillEffect::Attack { lifesteal_ratio, .. } => match lifesteal_ratio {
            Some(r) => if !(0 <= r <= 1000) {
                Some(SkillProblem::LifestealOutOfRange)
            } else {
                None
            },
            None => None,
        },
        SkillEffect::Heal { .. } => None,
        SkillEffect::Shield { .. } => None,
        SkillEffect::ApplyStatus { status_id } => if !status_defined(st, status_id@) {
            Some(SkillProblem::UnknownStatus { status_id })
        } else {
            None
        },
        SkillEffect::Cleanse { amount, .. } => if amount == 0 {
            Some(SkillProblem::CleanseAmountZero)
        } else {
            None
        },
        SkillEffect::Dispel { status_ids, .. } => if status_ids@.len() == 0 {
            Some(SkillProblem::EmptyDispel)
        } else {
            dispel_problem(status_ids@, st, 0)
        },
        SkillEffect::DealFixedDamage { amount, .. } => if amount < 0 {
            Some(SkillProblem::NegativeFixedDamage)
        } else {
            None
        },
        SkillEffect::DealStatDifferenceDamage { .. } => None,
        SkillEffect::ModifyStages { duration_turns, .. } => if duration_turns < 0 {
            Some(SkillProblem::NegativeStageDuration)
        } else {
            None
        },
        SkillEffect::Conditional { branches } => if branches@.len() == 0 {
            Some(SkillProblem::EmptyConditional)
        } else {
            branches_problem(branches@, st, 0)
        },
        SkillEffect::Sequence { effects } => if effects@.len() == 0 {
            Some(SkillProblem::EmptySequence)
        } else {
            effects_problem(effects@, st, 0)
        },
    }
}

pub open spec fn branches_problem(
    bs: Seq<ConditionalSkillEffect>,
    st: Seq<StatusDef>,
    i: int,
) -> Option<SkillProblem>
    decreases bs, bs.len() - i,
{
    if 0 <= i < bs.len() {
        match condition_problem(bs[i].condition, st) {
            Some(p) => Some(p),
            None => match effect_problem(*bs[i].effect, st) {
                Some(p) => Some(p),
                None => branches_problem(bs, st, i + 1),
            },
        }
    } else {
        None
    }
}

pub open spec fn effects_problem(es: Seq<SkillEffect>, st: Seq<StatusDef>, i: int) -> Option<
    SkillProblem,
>
    decreases es, es.len() - i,
{
    if 0 <= i < es.len() {
        match effect_problem(es[i], st) {
            Some(p) => Some(p),
            None => effects_problem(es, st, i + 1),
        }
    } else {
        None
    }
}

fn check_condition(c: &SkillCondition, st: &Vec<StatusDef>) -> (r: Option<SkillProblem>)
    ensures
        r == condition_problem(*c, st@),
    decreases c, 0int,
{
    match c {
        SkillCondition::TargetHadStatus { status_id } => {
            if !status_defined_exec(st, status_id.as_str()) {
                Some(SkillProblem::ConditionUnknownStatus { status_id: status_id.clone() })
            } else {
                None
            }
        },
        SkillCondition::LastReactionName { reaction_name } => {
            if str_is_blank(reaction_name.as_str()) {
                Some(SkillProblem::EmptyReactionName)
            } else {
                None
            }
        },
        SkillCondition::Any { conditions } => {
            if conditions.len() == 0 {
                Some(SkillProblem::EmptyCompoundCondition)
            } else {
                check_conditions(conditions, st, 0)
            }
        },
        SkillCondition::All { conditions } => {
            if conditions.len() == 0 {
                Some(SkillProblem::EmptyCompoundCondition)
            } else {
                check_conditions(conditions, st, 0)
            }
        },
        _ => None,
    }
}

fn check_conditions(cs: &Vec<SkillCondition>, st: &Vec<StatusDef>, i: usize) -> (r: Option<
    SkillProblem,
>)
    requires
        i <= cs@.len(),
    ensures
        r == conditions_problem(cs@, st@, i as int),
    decreases cs@, cs@.len() - i,
{
    if i < cs.len() {
        match check_condition(&cs[i], st) {
            Some(p) => Some(p),
            None => check_conditions(cs, st, i + 1),
        }
    } else {
        None
    }
}

fn check_dispel_ids(ids: &Vec<String>, st: &Vec<StatusDef>) -> (r: Option<SkillProblem>)
    ensures
        r == dispel_problem(ids@, st@, 0),
{
    let mut i: usize = 0;
    while i < ids.len()
        invariant
            i <= ids@.len(),
            dispel_problem(ids@, st@, 0) == dispel_problem(ids@, st@, i as int),
        decreases ids@.len() - i,
    {
        let id = ids[i].as_str();
        let shift = str_eq(id, "stage_shift_buff") || str_eq(id, "stage_shift_debuff");
        if !shift && !status_defined_exec(st, id) {
            return Some(SkillProblem::DispelUnknownStatus { status_id: ids[i].clone() });
        }
        i = i + 1;
    }
    None
}

fn check_effect(e: &SkillEffect, st: &Vec<StatusDef>) -> (r: Option<SkillProblem>)
    ensures
        r == effect_problem(*e, st@),
    decreases e, 0int,
{
    match e {
        SkillEffect::Attack { lifesteal_ratio, .. } => match lifesteal_ratio {
            Some(ratio) => {
                if !(0 <= *ratio && *ratio <= 1000) {
                    Some(SkillProblem::LifestealOutOfRange)
                } else {
                    None
                }
            },
            None => None,
        },
        SkillEffect::Heal { .. } => None,
        SkillEffect::Shield { .. } => None,
        SkillEffect::ApplyStatus { status_id } => {
            if !status_defined_exec(st, status_id.as_str()) {
                Some(SkillProblem::UnknownStatus { status_id: status_id.clone() })
            } else {
                None
            }
        },
        SkillEffect::Cleanse { amount, .. } => {
            if *amount == 0 {
                Some(SkillProblem::CleanseAmountZero)
            } else {
                None
            }
        },
        SkillEffect::Dispel { status_ids, .. } => {
            if status_ids.len() == 0 {
                Some(SkillProblem::EmptyDispel)
            } else {
                check_dispel_ids(status_ids, st)
            }
        },
        SkillEffect::DealFixedDamage { amount, .. } => {
            if *amount < 0 {
                Some(SkillProblem::NegativeFixedDamage)
            } else {
                None
            }
        },
        SkillEffect::DealStatDifferenceDamage { .. } => None,
        SkillEffect::ModifyStages { duration_turns, .. } => {
            if *duration_turns < 0 {
                Some(SkillProblem::NegativeStageDuration)
            } else {
                None
            }
        },
        SkillEffect::Conditional { branches } => {
            if branches.len() == 0 {
                Some(SkillProblem::EmptyConditional)
            } else {
                check_branches(branches, st, 0)
            }
        },
        SkillEffect::Sequence { effects } => {
            if effects.len() == 0 {
                Some(SkillProblem::EmptySequence)
            } else {
                check_effects(effects, st, 0)
            }
        },
    }
}

fn check_branches(bs: &Vec<ConditionalSkillEffect>, st: &Vec<StatusDef>, i: usize) -> (r: Option<
    SkillProblem,
>)
    requires
        i <= bs@.len(),
    ensures
        r == branches_problem(bs@, st@, i as int),
    decreases bs@, bs@.len() - i,
{
    if i < bs.len() {
        match check_condition(&bs[i].condition, st) {
            Some(p) => Some(p),
            None => match check_effect(&bs[i].effect, st) {
                Some(p) => Some(p),
                None => check_branches(bs, st, i + 1),
            },
        }
    } else {
        None
    }
}

fn check_effects(es: &Vec<SkillEffect>, st: &Vec<StatusDef>, i: usize) -> (r: Option<SkillProblem>)
    requires
        i <= es@.len(),
    ensures
        r == effects_problem(es@, st@, i as int),
    decreases es@, es@.len() - i,
{
    if i < es.len() {
        match check_effect(&es[i], st) {
            Some(p) => Some(p),
            None => check_effects(es, st, i + 1),
        }
    } else {
        None
    }
}


/// The first problem of status `i`, given the statuses before it.
pub open spec fn status_check(st: Seq<StatusDef>, i: int) -> Option<ConfigError> {
    let s = st[i];
    if exists|j: int| 0 <= j < i && #[trigger] st[j].id@ == s.id@ {
        Some(ConfigError::DuplicateStatusId { status: i as usize })
    } else if s.duration_turns < 0 {
        Some(ConfigError::NegativeStatusDuration { status: i as usize })
    } else if s.fixed_damage_on_tick < 0 {
        Some(ConfigError::NegativeTickDamage { status: i as usize })
    } else if s.heal_on_tick < 0 {
        Some(ConfigError::NegativeTickHeal { status: i as usize })
    } else if s.heal_taken_multiplier is Some && s.heal_taken_multiplier->0 < 0 {
        Some(ConfigError::NegativeHealTakenMultiplier { status: i as usize })
    } else if s.evade_charges < 0 {
        Some(ConfigError::NegativeEvadeCharges { status: i as usize })
    } else {
        None
    }
}

pub open spec fn status_scan(st: Seq<StatusDef>, i: int) -> Option<ConfigError>
    decreases st.len() - i,
{
    if 0 <= i < st.len() {
        match status_check(st, i) {
            Some(e) => Some(e),
            None => status_scan(st, i + 1),
        }
    } else {
        None
    }
}

/// The first problem of skill `i`, given the skills before it and the statuses.
pub open spec fn skill_check(sk: Seq<SkillDef>, st: Seq<StatusDef>, i: int) -> Option<ConfigError> {
    let s = sk[i];
    if exists|j: int| 0 <= j < i && #[trigger] sk[j].id == s.id {
        Some(ConfigError::DuplicateSkillId { skill: i as usize })
    } else if s.base_accuracy is Some && !(0 <= s.base_accuracy->0 <= 1000) {
        Some(ConfigError::BaseAccuracyOutOfRange { skill: i as usize })
    } else {
        match effect_problem(s.effect, st) {
            Some(p) => Some(ConfigError::Skill { skill: i as usize, problem: p }),
            None => None,
        }
    }
}

pub open spec fn skill_scan(sk: Seq<SkillDef>, st: Seq<StatusDef>, i: int) -> Option<ConfigError>
    decreases sk.len() - i,
{
    if 0 <= i < sk.len() {
        match skill_check(sk, st, i) {
            Some(e) => Some(e),
            None => skill_scan(sk, st, i + 1),
        }
    } else {
        None
    }
}

/// Index of the first id (from `j` on) that names no defined status.
pub open spec fn first_unknown_status(ids: Seq<String>, st: Seq<StatusDef>, j: int) -> Option<int>
    decreases ids.len() - j,
{
    if 0 <= j < ids.len() {
        if !status_defined(st, ids[j]@) {
            Some(j)
        } else {
            first_unknown_status(ids, st, j + 1)
        }
    } else {
        None
    }
}

/// The first problem of reaction `i`.
pub open spec fn reaction_check(rs: Seq<ReactionDef>, st: Seq<StatusDef>, i: int) -> Option<
    ConfigError,
> {
    let r = rs[i];
    if r.required_elements@.len() > 2 {
        Some(ConfigError::TooManyRequiredElements { reaction: i as usize })
    } else if first_unknown_status(r.required_statuses@, st, 0) is Some {
        Some(
            ConfigError::ReactionUnknownRequiredStatus {
                reaction: i as usize,
                entry: first_unknown_status(r.required_statuses@, st, 0)->0 as usize,
            },
        )
    } else if first_unknown_status(r.apply_statuses@, st, 0) is Some {
        Some(
            ConfigError::ReactionUnknownAppliedStatus {
                reaction: i as usize,
                entry: first_unknown_status(r.apply_statuses@, st, 0)->0 as usize,
            },
        )
    } else if first_unknown_status(r.clear_statuses@, st, 0) is Some {
        Some(
            ConfigError::ReactionUnknownClearedStatus {
                reaction: i as usize,
                entry: first_unknown_status(r.clear_statuses@, st, 0)->0 as usize,
            },
        )
    } else {
        None
    }
}

pub open spec fn reaction_scan(rs: Seq<ReactionDef>, st: Seq<StatusDef>, i: int) -> Option<
    ConfigError,
>
    decreases rs.len() - i,
{
    if 0 <= i < rs.len() {
        match reaction_check(rs, st, i) {
            Some(e) => Some(e),
            None => reaction_scan(rs, st, i + 1),
        }
    } else {
        None
    }
}

pub open spec fn skill_defined(sk: Seq<SkillDef>, id: SkillId) -> bool {
    exists|k: int| 0 <= k < sk.len() && #[trigger] sk[k].id == id
}

/// Index of the first skill of a monster (from `j` on) that is not defined.
pub open spec fn first_unknown_skill(ids: Seq<SkillId>, sk: Seq<SkillDef>, j: int) -> Option<int>
    decreases ids.len() - j,
{
    if 0 <= j < ids.len() {
        if !skill_defined(sk, ids[j]) {
            Some(j)
        } else {
            first_unknown_skill(ids, sk, j + 1)
        }
    } else {
        None
    }
}

/// The first problem of monster `i`: it must know 1 to 4 skills, all defined.
pub open spec fn monster_check(ms: Seq<MonsterPrototype>, sk: Seq<SkillDef>, i: int) -> Option<
    ConfigError,
> {
    let m = ms[i];
    if m.skills@.len() == 0 || m.skills@.len() > 4 {
        Some(ConfigError::MonsterSkillCount { monster: i as usize })
    } else if first_unknown_skill(m.skills@, sk, 0) is Some {
        Some(
            ConfigError::MonsterUnknownSkill {
                monster: i as usize,
                entry: first_unknown_skill(m.skills@, sk, 0)->0 as usize,
            },
        )
    } else {
        None
    }
}

pub open spec fn monster_scan(ms: Seq<MonsterPrototype>, sk: Seq<SkillDef>, i: int) -> Option<
    ConfigError,
>
    decreases ms.len() - i,
{
    if 0 <= i < ms.len() {
        match monster_check(ms, sk, i) {
            Some(e) => Some(e),
            None => monster_scan(ms, sk, i + 1),
        }
    } else {
        None
    }
}

/// The verdict on a configuration: the first failing check, in the order the checks are made.
pub open spec fn config_verdict(c: BattleConfig) -> Result<(), ConfigError> {
    if c.skills@.len() == 0 {
        Err(ConfigError::EmptySkills)
    } else if c.monsters@.len() == 0 {
        Err(ConfigError::EmptyMonsters)
    } else if !(1 <= c.rules.max_team_size <= 3) {
        Err(ConfigError::TeamSizeOutOfRange { max_team_size: c.rules.max_team_size })
    } else if c.rules.cards_per_round == 0 {
        Err(ConfigError::CardsPerRoundZero)
    } else if c.rules.ap_per_round < 0 {
        Err(ConfigError::NegativeApPerRound)
    } else if c.formulas.attribute_stage_bounds.min > c.formulas.attribute_stage_bounds.max {
        Err(ConfigError::StageBoundsInverted)
    } else if c.formulas.accuracy.min > c.formulas.accuracy.max {
        Err(ConfigError::AccuracyBoundsInverted)
    } else if !(0 <= c.formulas.accuracy.min <= 1000) || !(0 <= c.formulas.accuracy.max <= 1000) {
        Err(ConfigError::AccuracyOutOfRange)
    } else if c.formulas.accuracy.stage_step < 0 {
        Err(ConfigError::NegativeAccuracyStep)
    } else if c.formulas.damage.min_damage < 0 {
        Err(ConfigError::NegativeMinDamage)
    } else if c.monsters@.len() < c.rules.max_team_size {
        Err(
            ConfigError::TooFewMonsters {
                count: c.monsters@.len() as usize,
                required: c.rules.max_team_size,
            },
        )
    } else if status_scan(c.statuses@, 0) is Some {
        Err(status_scan(c.statuses@, 0)->0)
    } else if skill_scan(c.skills@, c.statuses@, 0) is Some {
        Err(skill_scan(c.skills@, c.statuses@, 0)->0)
    } else if reaction_scan(c.reactions@, c.statuses@, 0) is Some {
        Err(reaction_scan(c.reactions@, c.statuses@, 0)->0)
    } else if monster_scan(c.monsters@, c.skills@, 0) is Some {
        Err(monster_scan(c.monsters@, c.skills@, 0)->0)
    } else {
        Ok(())
    }
}

fn check_status(st: &Vec<StatusDef>, i: usize) -> (r: Option<ConfigError>)
    requires
        i < st@.len(),
    ensures
        r == status_check(st@, i as int),
{
    let s = &st[i];
    let mut j: usize = 0;
    while j < i
        invariant
            i < st@.len(),
            j <= i,
            *s == st@[i as int],
            forall|m: int| 0 <= m < j ==> #[trigger] st@[m].id@ != s.id@,
        decreases i - j,
    {
        if str_eq(st[j].id.as_str(), s.id.as_str()) {
            assert(st@[j as int].id@ == s.id@);
            return Some(ConfigError::DuplicateStatusId { status: i });
        }
        j = j + 1;
    }
    if s.duration_turns < 0 {
        Some(ConfigError::NegativeStatusDuration { status: i })
    } else if s.fixed_damage_on_tick < 0 {
        Some(ConfigError::NegativeTickDamage { status: i })
    } else if s.heal_on_tick < 0 {
        Some(ConfigError::NegativeTickHeal { status: i })
    } else if s.heal_taken_multiplier.is_some() && s.heal_taken_multiplier.unwrap() < 0 {
        Some(ConfigError::NegativeHealTakenMultiplier { status: i })
    } else if s.evade_charges < 0 {
        Some(ConfigError::NegativeEvadeCharges { status: i })
    } else {
        None
    }
}

fn check_skill(sk: &Vec<SkillDef>, st: &Vec<StatusDef>, i: usize) -> (r: Option<ConfigError>)
    requires
        i < sk@.len(),
    ensures
        r == skill_check(sk@, st@, i as int),
{
    let s = &sk[i];
    let mut j: usize = 0;
    while j < i
        invariant
            i < sk@.len(),
            j <= i,
            *s == sk@[i as int],
            forall|m: int| 0 <= m < j ==> #[trigger] sk@[m].id != s.id,
        decreases i - j,
    {
        if sk[j].id == s.id {
            return Some(ConfigError::DuplicateSkillId { skill: i });
        }
        j = j + 1;
    }
    if s.base_accuracy.is_some() && !(0 <= s.base_accuracy.unwrap() && s.base_accuracy.unwrap()
        <= 1000) {
        return Some(ConfigError::BaseAccuracyOutOfRange { skill: i });
    }
    match check_effect(&s.effect, st) {
        Some(p) => Some(ConfigError::Skill { skill: i, problem: p }),
        None => None,
    }
}

fn find_unknown_status(ids: &Vec<String>, st: &Vec<StatusDef>) -> (r: Option<usize>)
    ensures
        match r {
            Some(j) => first_unknown_status(ids@, st@, 0) == Some(j as int),
            None => first_unknown_status(ids@, st@, 0) is None,
        },
{
    let mut j: usize = 0;
    while j < ids.len()
        invariant
            j <= ids@.len(),
            first_unknown_status(ids@, st@, 0) == first_unknown_status(ids@, st@, j as int),
        decreases ids@.len() - j,
    {
        if !status_defined_exec(st, ids[j].as_str()) {
            return Some(j);
        }
        j = j + 1;
    }
    None
}

fn check_reaction(rs: &Vec<ReactionDef>, st: &Vec<StatusDef>, i: usize) -> (r: Option<ConfigError>)
    requires
        i < rs@.len(),
    ensures
        r == reaction_check(rs@, st@, i as int),
{
    let r = &rs[i];
    if r.required_elements.len() > 2 {
        return Some(ConfigError::TooManyRequiredElements { reaction: i });
    }
    if let Some(j) = find_unknown_status(&r.required_statuses, st) {
        return Some(ConfigError::ReactionUnknownRequiredStatus { reaction: i, entry: j });
    }
    if let Some(j) = find_unknown_status(&r.apply_statuses, st) {
        return Some(ConfigError::ReactionUnknownAppliedStatus { reaction: i, entry: j });
    }
    if let Some(j) = find_unknown_status(&r.clear_statuses, st) {
        return Some(ConfigError::ReactionUnknownClearedStatus { reaction: i, entry: j });
    }
    None
}

fn skill_defined_exec(sk: &Vec<SkillDef>, id: SkillId) -> (b: bool)
    ensures
        b == skill_defined(sk@, id),
{
    let mut k: usize = 0;
    while k < sk.len()
        invariant
            k <= sk@.len(),
            forall|m: int| 0 <= m < k ==> #[trigger] sk@[m].id != id,
        decreases sk@.len() - k,
    {
        if sk[k].id == id {
            return true;
        }
        k = k + 1;
    }
    false
}

fn check_monster(ms: &Vec<MonsterPrototype>, sk: &Vec<SkillDef>, i: usize) -> (r: Option<
    ConfigError,
>)
    requires
        i < ms@.len(),
    ensures
        r == monster_check(ms@, sk@, i as int),
{
    let m = &ms[i];
    if m.skills.len() == 0 || m.skills.len() > 4 {
        return Some(ConfigError::MonsterSkillCount { monster: i });
    }
    let mut j: usize = 0;
    while j < m.skills.len()
        invariant
            i < ms@.len(),
            *m == ms@[i as int],
            1 <= m.skills@.len() <= 4,
            j <= m.skills@.len(),
            first_unknown_skill(m.skills@, sk@, 0) == first_unknown_skill(m.skills@, sk@, j as int),
        decreases m.skills@.len() - j,
    {
        if !skill_defined_exec(sk, m.skills[j]) {
            assert(first_unknown_skill(m.skills@, sk@, j as int) == Some(j as int));
            return Some(ConfigError::MonsterUnknownSkill { monster: i, entry: j });
        }
        j = j + 1;
    }
    None
}

/// Checks a battle configuration; `Ok(())` exactly when every check passes, else the first
/// failing check's error (see `config_verdict`).
#[verifier::loop_isolation(false)]
pub fn validate_battle_config(config: &BattleConfig) -> (r: Result<(), ConfigError>)
    ensures
        r == config_verdict(*config),
{
    if config.skills.len() == 0 {
        return Err(ConfigError::EmptySkills);
    }
    if config.monsters.len() == 0 {
        return Err(ConfigError::EmptyMonsters);
    }
    let rules = super::BattleRules::from_config(&config.rules);
    if !(1 <= rules.max_team_size && rules.max_team_size <= 3) {
        return Err(ConfigError::TeamSizeOutOfRange { max_team_size: rules.max_team_size });
    }
    if rules.cards_per_round == 0 {
        return Err(ConfigError::CardsPerRoundZero);
    }
    if rules.ap_per_round < 0 {
        return Err(ConfigError::NegativeApPerRound);
    }
    if config.formulas.attribute_stage_bounds.min > config.formulas.attribute_stage_bounds.max {
        return Err(ConfigError::StageBoundsInverted);
    }
    if config.formulas.accuracy.min > config.formulas.accuracy.max {
        return Err(ConfigError::AccuracyBoundsInverted);
    }
    let acc = config.formulas.accuracy;
    if !(0 <= acc.min && acc.min <= 1000) || !(0 <= acc.max && acc.max <= 1000) {
        return Err(ConfigError::AccuracyOutOfRange);
    }
    if acc.stage_step < 0 {
        return Err(ConfigError::NegativeAccuracyStep);
    }
    if config.formulas.damage.min_damage < 0 {
        return Err(ConfigError::NegativeMinDamage);
    }
    if config.monsters.len() < rules.max_team_size {
        return Err(
            ConfigError::TooFewMonsters {
                count: config.monsters.len(),
                required: rules.max_team_size,
            },
        );
    }
    let mut i: usize = 0;
    while i < config.statuses.len()
        invariant
            i <= config.statuses@.len(),
            status_scan(config.statuses@, 0) == status_scan(config.statuses@, i as int),
        decreases config.statuses@.len() - i,
    {
        if let Some(e) = check_status(&config.statuses, i) {
            return Err(e);
        }
        i = i + 1;
    }
    let mut i: usize = 0;
    while i < config.skills.len()
        invariant
            i <= config.skills@.len(),
            skill_scan(config.skills@, config.statuses@, 0) == skill_scan(
                config.skills@,
                config.statuses@,
                i as int,
            ),
        decreases config.skills@.len() - i,
    {
        if let Some(e) = check_skill(&config.skills, &config.statuses, i) {
            return Err(e);
        }
        i = i + 1;
    }
    let mut i: usize = 0;
    while i < config.reactions.len()
        invariant
            i <= config.reactions@.len(),
            reaction_scan(config.reactions@, config.statuses@, 0) == reaction_scan(
                config.reactions@,
                config.statuses@,
                i as int,
            ),
        decreases config.reactions@.len() - i,
    {
        if let Some(e) = check_reaction(&config.reactions, &config.statuses, i) {
            return Err(e);
        }
        i = i + 1;
    }
    let mut i: usize = 0;
    while i < config.monsters.len()
        invariant
            i <= config.monsters@.len(),
            monster_scan(config.monsters@, config.skills@, 0) == monster_scan(
                config.monsters@,
                config.skills@,
                i as int,
            ),
        decreases config.monsters@.len() - i,
    {
        if let Some(e) = check_monster(&config.monsters, &config.skills, i) {
            return Err(e);
        }
        i = i + 1;
    }
    Ok(())
}

} // verus!
