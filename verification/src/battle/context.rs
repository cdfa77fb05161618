//! What a skill's earlier effects did, and the conditions that later branches test on it.
use vstd::prelude::*;

use super::model::{aura_elems, CombatState, StatusView};
use crate::data::{ElementType, SkillCondition};

verus! {

/// Facts about the current target and the last effects, read by conditional branches.
#[derive(Debug)]
pub struct EffectResolutionContext {
    pub target_had_aura: Vec<ElementType>,
    pub target_had_statuses: Vec<String>,
    pub target_had_shield: bool,
    pub target_fainted: bool,
    pub last_hp_damage: i32,
    pub last_reaction_name: Option<String>,
    pub last_wind_spread_succeeded: bool,
    pub last_cleanse_succeeded: bool,
    pub last_attack_resolved: bool,
}

pub ghost struct CtxView {
    pub target_had_aura: Seq<ElementType>,
    pub target_had_statuses: Seq<Seq<char>>,
    pub target_had_shield: bool,
    pub target_fainted: bool,
    pub last_hp_damage: i32,
    pub last_reaction_name: Option<Seq<char>>,
    pub last_wind_spread_succeeded: bool,
    pub last_cleanse_succeeded: bool,
    pub last_attack_resolved: bool,
}

pub open spec fn strings_view(s: Seq<String>) -> Seq<Seq<char>> {
    s.map_values(|x: String| x@)
}

pub open spec fn opt_string_view(o: Option<String>) -> Option<Seq<char>> {
    match o {
        Some(s) => Some(s@),
        None => None,
    }
}

impl View for EffectResolutionContext {
    type V = CtxView;

    open spec fn view(&self) -> CtxView {
        CtxView {
            target_had_aura: self.target_had_aura@,
            target_had_statuses: strings_view(self.target_had_statuses@),
            target_had_shield: self.target_had_shield,
            target_fainted: self.target_fainted,
            last_hp_damage: self.last_hp_damage,
            last_reaction_name: opt_string_view(self.last_reaction_name),
            last_wind_spread_succeeded: self.last_wind_spread_succeeded,
            last_cleanse_succeeded: self.last_cleanse_succeeded,
            last_attack_resolved: self.last_attack_resolved,
        }
    }
}

/// A context where nothing has happened yet.
pub open spec fn empty_ctx() -> CtxView {
    CtxView {
        target_had_aura: seq![],
        target_had_statuses: seq![],
        target_had_shield: false,
        target_fainted: false,
        last_hp_damage: 0,
        last_reaction_name: None,
        last_wind_spread_succeeded: false,
        last_cleanse_succeeded: false,
        last_attack_resolved: false,
    }
}

impl Default for EffectResolutionContext {
    fn default() -> (c: Self)
        ensures
            c@ == empty_ctx(),
    {
        let c = EffectResolutionContext {
            target_had_aura: Vec::new(),
            target_had_statuses: Vec::new(),
            target_had_shield: false,
            target_fainted: false,
            last_hp_damage: 0,
            last_reaction_name: None,
            last_wind_spread_succeeded: false,
            last_cleanse_succeeded: false,
            last_attack_resolved: false,
        };
        assert(c@.target_had_statuses =~= Seq::<Seq<char>>::empty());
        assert(c@ == empty_ctx());
        c
    }
}

/// The ids of the statuses, in order.
pub open spec fn status_ids(b: Seq<StatusView>) -> Seq<Seq<char>> {
    b.map_values(|s: StatusView| s.id)
}

/// The ids of a combatant's statuses, as new strings.
pub fn status_id_list(state: &CombatState) -> (v: Vec<String>)
    ensures
        strings_view(v@) == status_ids(state.statuses@),
{
    let mut v: Vec<String> = Vec::new();
    let mut k: usize = 0;
    while k < state.statuses.entries.len()
        invariant
            k <= state.statuses.entries@.len(),
            strings_view(v@) == status_ids(state.statuses@).subrange(0, k as int),
        decreases state.statuses.entries@.len() - k,
    {
        assert(state.statuses@[k as int] == state.statuses.entries@[k as int]@);
        assert(status_ids(state.statuses@)[k as int] == state.statuses.entries@[k as int].id@);
        let ghost prev = v@;
        v.push(state.statuses.entries[k].id.clone());
        assert(strings_view(v@) =~= strings_view(prev).push(state.statuses.entries@[k as int].id@));
        k = k + 1;
        assert(strings_view(v@) =~= status_ids(state.statuses@).subrange(0, k as int));
    }
    assert(status_ids(state.statuses@).subrange(0, k as int) =~= status_ids(state.statuses@));
    v
}

/// The context as a fresh effect on this target starts it: what the target had, nothing done.
pub open spec fn ctx_for_target(target_aura: Seq<ElementType>, b: Seq<StatusView>, shield: int) -> CtxView {
    CtxView {
        target_had_aura: target_aura,
        target_had_statuses: status_ids(b),
        target_had_shield: shield > 0,
        ..empty_ctx()
    }
}

pub fn context_for_target(target: &CombatState) -> (c: EffectResolutionContext)
    ensures
        c@ == ctx_for_target(aura_elems(target.aura), target.statuses@, target.shield.0 as int),
{
    let mut c = EffectResolutionContext::default();
    c.target_had_aura = target.aura.elements();
    c.target_had_statuses = status_id_list(target);
    c.target_had_shield = target.shield.0 > 0;
    c
}

/// Whether a branch condition holds in the context.
pub open spec fn spec_evaluate_condition(c: SkillCondition, ctx: CtxView) -> bool
    decreases c, 0int,
{
    match c {
        SkillCondition::TargetHadAura { element } => ctx.target_had_aura.contains(element),
        SkillCondition::TargetHadStatus { status_id } => ctx.target_had_statuses.contains(
            status_id@,
        ),
        SkillCondition::TargetHadNoShield => !ctx.target_had_shield,
        SkillCondition::LastReactionName { reaction_name } => ctx.last_reaction_name == Some(
            reaction_name@,
        ),
        SkillCondition::LastWindSpreadSucceeded => ctx.last_attack_resolved
            && ctx.last_wind_spread_succeeded,
        SkillCondition::LastWindSpreadFailed => ctx.last_attack_resolved
            && !ctx.last_wind_spread_succeeded,
        SkillCondition::LastCleanseSucceeded => ctx.last_cleanse_succeeded,
        SkillCondition::LastCleanseFailed => !ctx.last_cleanse_succeeded,
        SkillCondition::LastTargetFainted => ctx.target_fainted,
        SkillCondition::Any { conditions } => any_condition(conditions@, ctx, 0),
        SkillCondition::All { conditions } => all_conditions(conditions@, ctx, 0),
    }
}

pub open spec fn any_condition(cs: Seq<SkillCondition>, ctx: CtxView, i: int) -> bool
    decreases cs, cs.len() - i,
{
    if 0 <= i < cs.len() {
        spec_evaluate_condition(cs[i], ctx) || any_condition(cs, ctx, i + 1)
    } else {
        false
    }
}

pub open spec fn all_conditions(cs: Seq<SkillCondition>, ctx: CtxView, i: int) -> bool
    decreases cs, cs.len() - i,
{
    if 0 <= i < cs.len() {
        spec_evaluate_condition(cs[i], ctx) && all_conditions(cs, ctx, i + 1)
    } else {
        true
    }
}

fn elems_contain(list: &Vec<ElementType>, e: ElementType) -> (b: bool)
    ensures
        b == list@.contains(e),
{
    let mut k: usize = 0;
    while k < list.len()
        invariant
            k <= list@.len(),
            forall|m: int| 0 <= m < k ==> list@[m] != e,
        decreases list@.len() - k,
    {
        if list[k] == e {
            assert(list@[k as int] == e);
            return true;
        }
        k = k + 1;
    }
    false
}

fn strings_contain(list: &Vec<String>, s: &String) -> (b: bool)
    ensures
        b == strings_view(list@).contains(s@),
{
    let mut k: usize = 0;
    while k < list.len()
        invariant
            k <= list@.len(),
            forall|m: int| 0 <= m < k ==> strings_view(list@)[m] != s@,
        decreases list@.len() - k,
    {
        if list[k] == *s {
            assert(strings_view(list@)[k as int] == s@);
            return true;
        }
        k = k + 1;
    }
    false
}

/// Whether a branch condition holds in the context.
pub fn evaluate_condition(c: &SkillCondition, ctx: &EffectResolutionContext) -> (b: bool)
    ensures
        b == spec_evaluate_condition(*c, ctx@),
    decreases c, 0int,
{
    match c {
        SkillCondition::TargetHadAura { element } => elems_contain(&ctx.target_had_aura, *element),
        SkillCondition::TargetHadStatus { status_id } => strings_contain(
            &ctx.target_had_statuses,
            status_id,
        ),
        SkillCondition::TargetHadNoShield => !ctx.target_had_shield,
        SkillCondition::LastReactionName { reaction_name } => match &ctx.last_reaction_name {
            Some(n) => *n == *reaction_name,
            None => false,
        },
        SkillCondition::LastWindSpreadSucceeded => ctx.last_attack_resolved
            && ctx.last_wind_spread_succeeded,
        SkillCondition::LastWindSpreadFailed => ctx.last_attack_resolved
            && !ctx.last_wind_spread_succeeded,
        SkillCondition::LastCleanseSucceeded => ctx.last_cleanse_succeeded,
        SkillCondition::LastCleanseFailed => !ctx.last_cleanse_succeeded,
        SkillCondition::LastTargetFainted => ctx.target_fainted,
        SkillCondition::Any { conditions } => eval_any(conditions, ctx, 0),
        SkillCondition::All { conditions } => eval_all(conditions, ctx, 0),
    }
}

fn eval_any(cs: &Vec<SkillCondition>, ctx: &EffectResolutionContext, i: usize) -> (b: bool)
    requires
        i <= cs@.len(),
    ensures
        b == any_condition(cs@, ctx@, i as int),
    decreases cs@, cs@.len() - i,
{
    if i < cs.len() {
        evaluate_condition(&cs[i], ctx) || eval_any(cs, ctx, i + 1)
    } else {
        false
    }
}

fn eval_all(cs: &Vec<SkillCondition>, ctx: &EffectResolutionContext, i: usize) -> (b: bool)
    requires
        i <= cs@.len(),
    ensures
        b == all_conditions(cs@, ctx@, i as int),
    decreases cs@, cs@.len() - i,
{
    if i < cs.len() {
        evaluate_condition(&cs[i], ctx) && eval_all(cs, ctx, i + 1)
    } else {
        true
    }
}

} // verus!
