//! How a skill's effects resolve against an attacker and its target: the effect tree is run
//! over both combatants, the pending card bonuses, the hit roller, the event log and the context
//! that conditional branches read.
use vstd::prelude::*;

use super::context::{
    context_for_target, ctx_for_target, evaluate_condition, opt_string_view, spec_evaluate_condition, status_id_list,
    status_ids, strings_view, CtxView, EffectResolutionContext,
};
use super::damage::{
    apply_fixed_damage, heal_target, scale_by_multiplier, spec_absorbed, spec_damage_events,
    spec_hp_after, spec_hp_damage, spec_hp_healed, spec_scaled, with_hp,
};
use super::effects::{
    attack_hits, spec_attack_hits, apply_stage_modifiers_to_target, clear_one_aura, clear_one_debuff_status, dispel_statuses,
    category_target_mode, effect_target_side, spec_effect_target_side, spec_target_mode,
    sv_clear_one_aura, sv_clear_one_debuff, sv_dispel, sv_stage_modifiers, SkillTargetMode,
};
use super::formula::{
    final_damage, scaled_damage_after_defense, spec_damage_after_defense, spec_final_damage,
    spec_stat_difference_damage, stat_difference_damage,
};
use super::model::{DamageType, 
    aura_elems, emit, events_view, BattleEvent, CombatState, CombatView, EventView, PendingBoost, PendingBoosts,
    Side, };
use super::reaction::{
    apply_status_by_id, attach_element, attach_hp_damage, attach_reaction_name, spec_attach,
    sv_apply_status, AttachView,
};
use super::rng::AccuracyRng;
use super::status::{heal_taken_multiplier, spec_heal_multiplier};
use crate::arith::{max_int, sat_i32, to_i32_sat};
use crate::data::{
    AttributeStageModifier, AttributeType, BattleFormulaRules, ConditionalSkillEffect, EffectTarget, ElementDb,
    ElementType, ReactionDb, SkillCategory, SkillDef, SkillEffect, StatusDb, shield_blocks_element_attachment,
    spec_shield_blocks_attachment,
};

verus! {

/// What stays fixed while one skill resolves: who acts on whom, the target's own element, the
/// skill's category, element and base accuracy (thousandths), and the round.
#[derive(Debug, Clone, Copy)]
pub struct EffectSetting {
    pub attacker_side: Side,
    pub target_side: Side,
    pub target_element: ElementType,
    pub category: SkillCategory,
    pub element: Option<ElementType>,
    pub base_accuracy: Option<i32>,
    pub round: u32,
}

impl EffectSetting {
    /// The setting of `skill` used by `attacker_side` on `target_side`.
    pub fn of_skill(
        skill: &SkillDef,
        attacker_side: Side,
        target_side: Side,
        target_element: ElementType,
        round: u32,
    ) -> (s: Self)
        ensures
            s == spec_setting(*skill, attacker_side, target_side, target_element, round),
    {
        EffectSetting {
            attacker_side,
            target_side,
            target_element,
            category: skill.category,
            element: skill.element,
            base_accuracy: skill.base_accuracy,
            round,
        }
    }
}

pub open spec fn spec_setting(
    skill: SkillDef,
    attacker_side: Side,
    target_side: Side,
    target_element: ElementType,
    round: u32,
) -> EffectSetting {
    EffectSetting {
        attacker_side,
        target_side,
        target_element,
        category: skill.category,
        element: skill.element,
        base_accuracy: skill.base_accuracy,
        round,
    }
}

/// The setting together with the rules and databases an effect reads.
pub ghost struct EffectEnv {
    pub set: EffectSetting,
    pub rules: BattleFormulaRules,
    pub elements: ElementDb,
    pub statuses: StatusDb,
    pub reactions: ReactionDb,
}

pub open spec fn env_of(
    set: EffectSetting,
    rules: BattleFormulaRules,
    elements: ElementDb,
    statuses: StatusDb,
    reactions: ReactionDb,
) -> EffectEnv {
    EffectEnv { set, rules, elements, statuses, reactions }
}

/// Everything an effect can change.
pub ghost struct SceneView {
    pub attacker: CombatView,
    pub target: CombatView,
    pub boosts: PendingBoosts,
    pub rng: u64,
    pub events: Seq<EventView>,
    pub ctx: CtxView,
}

pub open spec fn scene_of(
    attacker: CombatState,
    target: CombatState,
    boosts: PendingBoosts,
    rng: AccuracyRng,
    events: Vec<BattleEvent>,
    ctx: EffectResolutionContext,
) -> SceneView {
    SceneView {
        attacker: attacker@,
        target: target@,
        boosts,
        rng: rng.state,
        events: events_view(events@),
        ctx: ctx@,
    }
}

/// `b` with the bonuses of `side` replaced by `p`.
pub open spec fn set_boost(b: PendingBoosts, side: Side, p: PendingBoost) -> PendingBoosts {
    match side {
        Side::Player => PendingBoosts { player: p, ..b },
        Side::Enemy => PendingBoosts { enemy: p, ..b },
    }
}

/// A heal of `raw` on a combatant: scaled by its heal-taken multiplier, capped at its maximum
/// HP, reported with the HP actually gained.
pub open spec fn heal_view(cv: CombatView, side: Side, raw: int, events: Seq<EventView>) -> (
    CombatView,
    Seq<EventView>,
) {
    let heal = spec_scaled(raw, spec_heal_multiplier(cv.statuses));
    let hp = spec_hp_healed(cv.stats.hp as int, cv.stats.max_hp as int, heal);
    (
        CombatView { stats: with_hp(cv.stats, hp), ..cv },
        events.push(EventView::Healed { side, amount: sat_i32(hp - cv.stats.hp) as i32 }),
    )
}

/// A hit of `amount` from `source` on a combatant of `side`, through its shield unless
/// `ignore_shield`; gives the combatant, the events and the HP damage.
pub open spec fn fixed_hit(
    cv: CombatView,
    source: Side,
    side: Side,
    amount: int,
    ignore_shield: bool,
    events: Seq<EventView>,
    kind: DamageType,
) -> (CombatView, Seq<EventView>, int) {
    if ignore_shield {
        let hp = max_int(amount, 0);
        (
            CombatView { stats: with_hp(cv.stats, spec_hp_after(cv.stats.hp as int, hp)), ..cv },
            events.push(EventView::DamageDealt { source, target: side, amount: hp as i32, kind }),
            hp,
        )
    } else {
        let absorbed = spec_absorbed(cv.shield as int, amount);
        let hp = spec_hp_damage(cv.shield as int, amount);
        (
            CombatView {
                stats: with_hp(cv.stats, spec_hp_after(cv.stats.hp as int, hp)),
                shield: if absorbed > 0 {
                    (cv.shield - absorbed) as i32
                } else {
                    cv.shield
                },
                ..cv
            },
            spec_damage_events(events, source, side, cv.shield as int, amount, kind),
            hp,
        )
    }
}

/// A heal effect of the combatant on `side`: its pending heal bonus is added (and used up).
pub open spec fn heal_with_bonus(
    cv: CombatView,
    boosts: PendingBoosts,
    events: Seq<EventView>,
    side: Side,
    amount: i32,
) -> (CombatView, PendingBoosts, Seq<EventView>) {
    let p = boosts.of(side);
    let h = heal_view(cv, side, sat_i32(amount + p.next_heal_bonus), events);
    (h.0, set_boost(boosts, side, PendingBoost { next_heal_bonus: 0, ..p }), h.1)
}

/// A shield effect of the combatant on `side`: its pending shield bonus is added (and used up),
/// the shield grows by the sum, which is reported.
pub open spec fn shield_with_bonus(
    cv: CombatView,
    boosts: PendingBoosts,
    events: Seq<EventView>,
    side: Side,
    amount: i32,
) -> (CombatView, PendingBoosts, Seq<EventView>) {
    let p = boosts.of(side);
    let gain = sat_i32(amount + p.next_shield_bonus);
    (
        CombatView { shield: sat_i32(cv.shield + gain) as i32, ..cv },
        set_boost(boosts, side, PendingBoost { next_shield_bonus: 0, ..p }),
        events.push(EventView::ShieldGained { side, amount: gain as i32 }),
    )
}

fn resolve_heal(
    amount: i32,
    side: Side,
    actor: &mut CombatState,
    boosts: &mut PendingBoosts,
    events: &mut Vec<BattleEvent>,
)
    ensures
        ({
            let r = heal_with_bonus(old(actor)@, *old(boosts), events_view(old(events)@), side, amount);
            &&& final(actor)@ == r.0
            &&& *final(boosts) == r.1
            &&& events_view(final(events)@) == r.2
        }),
        final(actor).aura == old(actor).aura,
{
    let p = boosts.side_mut(side);
    let raw = to_i32_sat(amount as i64 + p.next_heal_bonus as i64);
    p.next_heal_bonus = 0;
    let m = heal_taken_multiplier(&actor.statuses);
    let _ = heal_target(side, raw, m, &mut actor.stats, events);
    proof {
        let p0 = old(boosts).of(side);
        let target = set_boost(*old(boosts), side, PendingBoost { next_heal_bonus: 0, ..p0 });
        assert(boosts.of(side) == target.of(side));
        assert(*boosts == target);
    }
}

fn resolve_shield(
    amount: i32,
    side: Side,
    actor: &mut CombatState,
    boosts: &mut PendingBoosts,
    events: &mut Vec<BattleEvent>,
)
    ensures
        ({
            let r = shield_with_bonus(old(actor)@, *old(boosts), events_view(old(events)@), side, amount);
            &&& final(actor)@ == r.0
            &&& *final(boosts) == r.1
            &&& events_view(final(events)@) == r.2
        }),
        final(actor).aura == old(actor).aura,
{
    let p = boosts.side_mut(side);
    let gain = to_i32_sat(amount as i64 + p.next_shield_bonus as i64);
    p.next_shield_bonus = 0;
    actor.shield.0 = to_i32_sat(actor.shield.0 as i64 + gain as i64);
    emit(events, BattleEvent::ShieldGained { side, amount: gain });
    proof {
        let p0 = old(boosts).of(side);
        let target = set_boost(*old(boosts), side, PendingBoost { next_shield_bonus: 0, ..p0 });
        assert(boosts.of(side) == target.of(side));
        assert(*boosts == target);
    }
}

/// A hit on one combatant; see `fixed_hit`.
pub(crate) fn hit_combatant(
    source: Side,
    side: Side,
    amount: i32,
    ignore_shield: bool,
    state: &mut CombatState,
    events: &mut Vec<BattleEvent>,
    kind: DamageType,
) -> (hp_damage: i32)
    ensures
        ({
            let r = fixed_hit(old(state)@, source, side, amount as int, ignore_shield, events_view(old(events)@), kind);
            &&& final(state)@ == r.0
            &&& events_view(final(events)@) == r.1
            &&& hp_damage == r.2
        }),
        final(state).aura == old(state).aura,
{
    let (_absorbed, hp) = apply_fixed_damage(
        source,
        side,
        amount,
        ignore_shield,
        &mut state.stats,
        &mut state.shield,
        events,
        kind,
    );
    hp
}

/// One step of a cleanse: the oldest aura when auras come first and there is one, else the
/// first debuff when that fallback is on; says whether something came off.
pub open spec fn cleanse_once(cv: CombatView, prefer_aura: bool, fallback: bool) -> (CombatView, bool) {
    let a = sv_clear_one_aura(cv);
    if prefer_aura && a.1 is Some {
        (a.0, true)
    } else if fallback {
        let d = sv_clear_one_debuff(cv);
        (d.0, d.1 is Some)
    } else {
        (cv, false)
    }
}

/// `n` cleanse steps; says whether any removed something.
pub open spec fn cleanse_steps(cv: CombatView, prefer_aura: bool, fallback: bool, n: nat) -> (
    CombatView,
    bool,
)
    decreases n,
{
    if n == 0 {
        (cv, false)
    } else {
        let r = cleanse_steps(cv, prefer_aura, fallback, (n - 1) as nat);
        let c = cleanse_once(r.0, prefer_aura, fallback);
        (c.0, r.1 || c.1)
    }
}

fn cleanse_combatant(
    prefer_aura: bool,
    fallback: bool,
    amount: usize,
    state: &mut CombatState,
) -> (removed_any: bool)
    ensures
        (final(state)@, removed_any) == cleanse_steps(old(state)@, prefer_aura, fallback, amount as nat),
{
    let mut removed_any = false;
    let mut k: usize = 0;
    while k < amount
        invariant
            k <= amount,
            (state@, removed_any) == cleanse_steps(old(state)@, prefer_aura, fallback, k as nat),
        decreases amount - k,
    {
        let ghost before = state@;
        let mut done = false;
        if prefer_aura {
            if clear_one_aura(state).is_some() {
                done = true;
            }
        }
        if !done && fallback {
            if clear_one_debuff_status(state).is_some() {
                done = true;
            }
        }
        proof {
            let a = sv_clear_one_aura(before);
            if prefer_aura && a.1 is None {
                assert(a.0 == before);
            }
        }
        removed_any = removed_any || done;
        k = k + 1;
    }
    removed_any
}

/// The context after an attack: what the target had before it, the HP damage, whether the target
/// fainted, the reaction fired, and whether the attack resolved (hit).
pub open spec fn ctx_after_attack(
    c: CtxView,
    had_aura: Seq<ElementType>,
    had_ids: Seq<Seq<char>>,
    had_shield: bool,
    hp_damage: int,
    fainted: bool,
    reaction: Option<Seq<char>>,
    resolved: bool,
) -> CtxView {
    CtxView {
        target_had_aura: had_aura,
        target_had_statuses: had_ids,
        target_had_shield: had_shield,
        last_hp_damage: hp_damage as i32,
        target_fainted: fainted,
        last_reaction_name: reaction,
        last_attack_resolved: resolved,
        ..c
    }
}

/// Lifesteal: a positive total HP damage heals the attacker by `ratio` (thousandths) of it.
pub open spec fn lifesteal_view(
    attacker: CombatView,
    side: Side,
    ratio: Option<i32>,
    total: int,
    events: Seq<EventView>,
) -> (CombatView, Seq<EventView>) {
    match ratio {
        Some(r) => if total > 0 {
            heal_view(attacker, side, spec_scaled(total, r as int), events)
        } else {
            (attacker, events)
        },
        None => (attacker, events),
    }
}

/// The defending element of an elemental hit: the target's oldest aura, else its own element.
pub open spec fn defending_element(target: CombatView, own: ElementType) -> ElementType {
    let aura = aura_elems(target.aura);
    if aura.len() > 0 {
        aura[0]
    } else {
        own
    }
}

/// An elemental hit on a shielded target: redone against the target's own element, it lands on
/// the shield and attaches nothing; there is no lifesteal.
pub open spec fn shielded_hit(
    incoming: ElementType,
    raw: int,
    had_aura: Seq<ElementType>,
    had_ids: Seq<Seq<char>>,
    had_shield: bool,
    env: EffectEnv,
    s: SceneView,
) -> SceneView {
    let set = env.set;
    let dmg = spec_final_damage(raw, env.elements.effectiveness(incoming, set.target_element), env.rules);
    let h = fixed_hit(s.target, set.attacker_side, set.target_side, dmg, false, s.events, DamageType::Direct);
    SceneView {
        target: h.0,
        events: h.1,
        ctx: ctx_after_attack(s.ctx, had_aura, had_ids, had_shield, h.2, h.0.stats.hp <= 0, None, true),
        ..s
    }
}

/// An elemental hit that attaches: `dmg` lands, the element attaches (possibly firing a
/// reaction, reported with `eff`), lifesteal heals from the hit and the reaction damage together,
/// and a fired reaction is reported last.
pub open spec fn attaching_hit(
    incoming: ElementType,
    dmg: int,
    eff: i32,
    lifesteal: Option<i32>,
    ignore_shield: bool,
    had_aura: Seq<ElementType>,
    had_ids: Seq<Seq<char>>,
    had_shield: bool,
    env: EffectEnv,
    s: SceneView,
) -> SceneView {
    let set = env.set;
    let h = fixed_hit(s.target, set.attacker_side, set.target_side, dmg, ignore_shield, s.events, DamageType::Direct);
    let at = spec_attach(
        AttachView { attacker: s.attacker, target: h.0, events: h.1 },
        incoming,
        set.attacker_side,
        set.target_side,
        eff,
        env.statuses,
        env.reactions,
        set.round,
    );
    let name = attach_reaction_name(h.0, incoming, env.reactions);
    let total = sat_i32(
        h.2 + attach_hp_damage(h.0, incoming, set.attacker_side, env.statuses, env.reactions, set.round),
    );
    let ls = lifesteal_view(at.attacker, set.attacker_side, lifesteal, total, at.events);
    let ev = match name {
        Some(n) => ls.1.push(
            EventView::ReactionTriggered {
                source: set.attacker_side,
                target: set.target_side,
                reaction_name: n,
            },
        ),
        None => ls.1,
    };
    SceneView {
        attacker: ls.0,
        target: at.target,
        events: ev,
        ctx: ctx_after_attack(s.ctx, had_aura, had_ids, had_shield, total, at.target.stats.hp <= 0, name, true),
        ..s
    }
}

/// An elemental hit of `raw` damage: the element multiplier is taken against the defending
/// element; when the target's shield takes part of the result the hit is a shielded one, else it
/// attaches.
pub open spec fn element_hit(
    incoming: ElementType,
    raw: int,
    lifesteal: Option<i32>,
    ignore_shield: bool,
    had_aura: Seq<ElementType>,
    had_ids: Seq<Seq<char>>,
    had_shield: bool,
    env: EffectEnv,
    s: SceneView,
) -> SceneView {
    let eff = env.elements.effectiveness(incoming, defending_element(s.target, env.set.target_element));
    let theo = spec_final_damage(raw, eff, env.rules);
    if !ignore_shield && spec_shield_blocks_attachment(s.target.shield as int, theo) {
        shielded_hit(incoming, raw, had_aura, had_ids, had_shield, env, s)
    } else {
        attaching_hit(incoming, theo, eff as i32, lifesteal, ignore_shield, had_aura, had_ids, had_shield, env, s)
    }
}

/// A hit without an element: `raw` lands as it is, then lifesteal.
pub open spec fn plain_hit(
    raw: int,
    lifesteal: Option<i32>,
    ignore_shield: bool,
    had_aura: Seq<ElementType>,
    had_ids: Seq<Seq<char>>,
    had_shield: bool,
    env: EffectEnv,
    s: SceneView,
) -> SceneView {
    let set = env.set;
    let h = fixed_hit(s.target, set.attacker_side, set.target_side, raw, ignore_shield, s.events, DamageType::Direct);
    let ls = lifesteal_view(s.attacker, set.attacker_side, lifesteal, h.2, h.1);
    SceneView {
        attacker: ls.0,
        target: h.0,
        events: ls.1,
        ctx: ctx_after_attack(s.ctx, had_aura, had_ids, had_shield, h.2, h.0.stats.hp <= 0, None, true),
        ..s
    }
}

/// An attack of `power`: the hit check first (a miss records an unresolved attack with no
/// damage); on a hit the attacker's pending attack bonus is added and used up, the damage after
/// defence is computed and lands as an elemental or a plain hit.
pub open spec fn run_attack(
    power: i32,
    lifesteal: Option<i32>,
    ignore_shield: bool,
    env: EffectEnv,
    s: SceneView,
) -> SceneView {
    let set = env.set;
    let had_aura = aura_elems(s.target.aura);
    let had_ids = status_ids(s.target.statuses);
    let had_shield = s.target.shield > 0;
    let h = spec_attack_hits(
        s.attacker.stats,
        set.base_accuracy,
        s.target,
        env.rules,
        s.rng,
        s.events,
        set.attacker_side,
        set.target_side,
    );
    let s1 = SceneView { target: h.1, rng: h.2, events: h.3, ..s };
    if !h.0 {
        SceneView {
            ctx: ctx_after_attack(s.ctx, had_aura, had_ids, had_shield, 0, false, None, false),
            ..s1
        }
    } else {
        let p = s.boosts.of(set.attacker_side);
        let boosted = sat_i32(power + p.next_attack_bonus);
        let s2 = SceneView {
            boosts: set_boost(s.boosts, set.attacker_side, PendingBoost { next_attack_bonus: 0, ..p }),
            ..s1
        };
        let raw = spec_damage_after_defense(boosted, s2.attacker.stats, s2.target.stats, env.rules);
        match set.element {
            Some(incoming) => element_hit(
                incoming,
                raw,
                lifesteal,
                ignore_shield,
                had_aura,
                had_ids,
                had_shield,
                env,
                s2,
            ),
            None => plain_hit(raw, lifesteal, ignore_shield, had_aura, had_ids, had_shield, env, s2),
        }
    }
}

pub(crate) fn record_attack(
    ctx: &mut EffectResolutionContext,
    had_aura: Vec<ElementType>,
    had_ids: Vec<String>,
    had_shield: bool,
    hp_damage: i32,
    fainted: bool,
    reaction: Option<String>,
    resolved: bool,
)
    ensures
        final(ctx)@ == ctx_after_attack(
            old(ctx)@,
            had_aura@,
            strings_view(had_ids@),
            had_shield,
            hp_damage as int,
            fainted,
            opt_string_view(reaction),
            resolved,
        ),
{
    ctx.target_had_aura = had_aura;
    ctx.target_had_statuses = had_ids;
    ctx.target_had_shield = had_shield;
    ctx.last_hp_damage = hp_damage;
    ctx.target_fainted = fainted;
    ctx.last_reaction_name = reaction;
    ctx.last_attack_resolved = resolved;
}

fn lifesteal_heal(
    side: Side,
    ratio: Option<i32>,
    total: i32,
    attacker: &mut CombatState,
    events: &mut Vec<BattleEvent>,
)
    ensures
        (final(attacker)@, events_view(final(events)@)) == lifesteal_view(
            old(attacker)@,
            side,
            ratio,
            total as int,
            events_view(old(events)@),
        ),
{
    if let Some(r) = ratio {
        if total > 0 {
            let raw = scale_by_multiplier(total, r);
            let m = heal_taken_multiplier(&attacker.statuses);
            let _ = heal_target(side, raw, m, &mut attacker.stats, events);
        }
    }
}

fn resolve_attaching_hit(
    incoming: ElementType,
    dmg: i32,
    eff: i32,
    lifesteal: Option<i32>,
    ignore_shield: bool,
    had_aura: Vec<ElementType>,
    had_ids: Vec<String>,
    had_shield: bool,
    set: EffectSetting,
    rules: &BattleFormulaRules,
    edb: &ElementDb,
    sdb: &StatusDb,
    rdb: &ReactionDb,
    attacker: &mut CombatState,
    target: &mut CombatState,
    boosts: &mut PendingBoosts,
    rng: &mut AccuracyRng,
    events: &mut Vec<BattleEvent>,
    ctx: &mut EffectResolutionContext,
)
    ensures
        scene_of(*final(attacker), *final(target), *final(boosts), *final(rng), *final(events), *final(ctx))
            == attaching_hit(
            incoming,
            dmg as int,
            eff,
            lifesteal,
            ignore_shield,
            had_aura@,
            strings_view(had_ids@),
            had_shield,
            env_of(set, *rules, *edb, *sdb, *rdb),
            scene_of(*old(attacker), *old(target), *old(boosts), *old(rng), *old(events), *old(ctx)),
        ),
{
    let main = hit_combatant(set.attacker_side, set.target_side, dmg, ignore_shield, target, events, DamageType::Direct);
    let ghost t1 = target@;
    let (name, reaction_hp, _from, _evicted) = attach_element(
        incoming,
        set.attacker_side,
        set.target_side,
        eff,
        attacker,
        target,
        sdb,
        rdb,
        set.round,
        events,
    );
    let total = to_i32_sat(main as i64 + reaction_hp as i64);
    lifesteal_heal(set.attacker_side, lifesteal, total, attacker, events);
    match &name {
        Some(n) => {
            emit(
                events,
                BattleEvent::ReactionTriggered {
                    source: set.attacker_side,
                    target: set.target_side,
                    reaction_name: n.clone(),
                },
            );
        },
        None => {},
    }
    let fainted = target.stats.hp <= 0;
    proof {
        assert(opt_string_view(name) == attach_reaction_name(t1, incoming, *rdb));
    }
    record_attack(ctx, had_aura, had_ids, had_shield, total, fainted, name, true);
}

fn resolve_element_hit(
    incoming: ElementType,
    raw: i32,
    lifesteal: Option<i32>,
    ignore_shield: bool,
    had_aura: Vec<ElementType>,
    had_ids: Vec<String>,
    had_shield: bool,
    set: EffectSetting,
    rules: &BattleFormulaRules,
    edb: &ElementDb,
    sdb: &StatusDb,
    rdb: &ReactionDb,
    attacker: &mut CombatState,
    target: &mut CombatState,
    boosts: &mut PendingBoosts,
    rng: &mut AccuracyRng,
    events: &mut Vec<BattleEvent>,
    ctx: &mut EffectResolutionContext,
)
    requires
        rules.sane(),
    ensures
        scene_of(*final(attacker), *final(target), *final(boosts), *final(rng), *final(events), *final(ctx))
            == element_hit(
            incoming,
            raw as int,
            lifesteal,
            ignore_shield,
            had_aura@,
            strings_view(had_ids@),
            had_shield,
            env_of(set, *rules, *edb, *sdb, *rdb),
            scene_of(*old(attacker), *old(target), *old(boosts), *old(rng), *old(events), *old(ctx)),
        ),
{
    let defender = match target.aura.primary() {
        Some(e) => e,
        None => set.target_element,
    };
    let eff = edb.get_effectiveness(incoming, defender);
    let theo = final_damage(raw, eff, rules);
    if !ignore_shield && shield_blocks_element_attachment(target.shield.0, theo) {
        let eff0 = edb.get_effectiveness(incoming, set.target_element);
        let dmg = final_damage(raw, eff0, rules);
        let hp = hit_combatant(set.attacker_side, set.target_side, dmg, false, target, events, DamageType::Direct);
        let fainted = target.stats.hp <= 0;
        record_attack(ctx, had_aura, had_ids, had_shield, hp, fainted, None, true);
    } else {
        resolve_attaching_hit(
            incoming,
            theo,
            eff,
            lifesteal,
            ignore_shield,
            had_aura,
            had_ids,
            had_shield,
            set,
            rules,
            edb,
            sdb,
            rdb,
            attacker,
            target,
            boosts,
            rng,
            events,
            ctx,
        );
    }
}

fn resolve_plain_hit(
    raw: i32,
    lifesteal: Option<i32>,
    ignore_shield: bool,
    had_aura: Vec<ElementType>,
    had_ids: Vec<String>,
    had_shield: bool,
    set: EffectSetting,
    rules: &BattleFormulaRules,
    edb: &ElementDb,
    sdb: &StatusDb,
    rdb: &ReactionDb,
    attacker: &mut CombatState,
    target: &mut CombatState,
    boosts: &mut PendingBoosts,
    rng: &mut AccuracyRng,
    events: &mut Vec<BattleEvent>,
    ctx: &mut EffectResolutionContext,
)
    ensures
        scene_of(*final(attacker), *final(target), *final(boosts), *final(rng), *final(events), *final(ctx))
            == plain_hit(
            raw as int,
            lifesteal,
            ignore_shield,
            had_aura@,
            strings_view(had_ids@),
            had_shield,
            env_of(set, *rules, *edb, *sdb, *rdb),
            scene_of(*old(attacker), *old(target), *old(boosts), *old(rng), *old(events), *old(ctx)),
        ),
{
    let hp = hit_combatant(set.attacker_side, set.target_side, raw, ignore_shield, target, events, DamageType::Direct);
    lifesteal_heal(set.attacker_side, lifesteal, hp, attacker, events);
    let fainted = target.stats.hp <= 0;
    record_attack(ctx, had_aura, had_ids, had_shield, hp, fainted, None, true);
}

fn resolve_attack(
    power: i32,
    lifesteal: Option<i32>,
    ignore_shield: bool,
    set: EffectSetting,
    rules: &BattleFormulaRules,
    edb: &ElementDb,
    sdb: &StatusDb,
    rdb: &ReactionDb,
    attacker: &mut CombatState,
    target: &mut CombatState,
    boosts: &mut PendingBoosts,
    rng: &mut AccuracyRng,
    events: &mut Vec<BattleEvent>,
    ctx: &mut EffectResolutionContext,
)
    requires
        rules.sane(),
    ensures
        scene_of(*final(attacker), *final(target), *final(boosts), *final(rng), *final(events), *final(ctx))
            == run_attack(
            power,
            lifesteal,
            ignore_shield,
            env_of(set, *rules, *edb, *sdb, *rdb),
            scene_of(*old(attacker), *old(target), *old(boosts), *old(rng), *old(events), *old(ctx)),
        ),
{
    let had_aura = target.aura.elements();
    let had_ids = status_id_list(target);
    let had_shield = target.shield.0 > 0;
    let hit = attack_hits(
        set.base_accuracy,
        set.attacker_side,
        set.target_side,
        &attacker.stats,
        target,
        rules,
        rng,
        events,
    );
    if !hit {
        record_attack(ctx, had_aura, had_ids, had_shield, 0, false, None, false);
        return;
    }
    let p = boosts.side_mut(set.attacker_side);
    let boosted = to_i32_sat(power as i64 + p.next_attack_bonus as i64);
    p.next_attack_bonus = 0;
    proof {
        let p0 = old(boosts).of(set.attacker_side);
        let want = set_boost(*old(boosts), set.attacker_side, PendingBoost { next_attack_bonus: 0, ..p0 });
        assert(boosts.of(set.attacker_side) == want.of(set.attacker_side));
        assert(*boosts == want);
    }
    let (_atk, _def, raw) = scaled_damage_after_defense(boosted, &attacker.stats, &target.stats, rules);
    match set.element {
        Some(incoming) => {
            resolve_element_hit(
                incoming,
                raw,
                lifesteal,
                ignore_shield,
                had_aura,
                had_ids,
                had_shield,
                set,
                rules,
                edb,
                sdb,
                rdb,
                attacker,
                target,
                boosts,
                rng,
                events,
                ctx,
            );
        },
        None => {
            resolve_plain_hit(
                raw,
                lifesteal,
                ignore_shield,
                had_aura,
                had_ids,
                had_shield,
                set,
                rules,
                edb,
                sdb,
                rdb,
                attacker,
                target,
                boosts,
                rng,
                events,
                ctx,
            );
        },
    }
}

/// The side an effect aimed at `t` lands on, for the skill being resolved.
pub open spec fn landing_side(t: EffectTarget, env: EffectEnv) -> Side {
    spec_effect_target_side(
        t,
        spec_target_mode(env.set.category),
        env.set.attacker_side,
        env.set.target_side,
    )
}

/// The combatant on `side`: the attacker when it is the attacker's side, else the target.
pub open spec fn on_side(s: SceneView, env: EffectEnv, side: Side) -> CombatView {
    if side == env.set.attacker_side {
        s.attacker
    } else {
        s.target
    }
}

/// `s` with the combatant on `side` replaced by `cv`.
pub open spec fn put_side(s: SceneView, env: EffectEnv, side: Side, cv: CombatView) -> SceneView {
    if side == env.set.attacker_side {
        SceneView { attacker: cv, ..s }
    } else {
        SceneView { target: cv, ..s }
    }
}

/// A stage shift on the side the effect lands on, sourced by the attacker.
pub open spec fn run_stages(
    modifiers: Seq<AttributeStageModifier>,
    duration: i32,
    t: EffectTarget,
    env: EffectEnv,
    s: SceneView,
) -> SceneView {
    let side = landing_side(t, env);
    put_side(
        s,
        env,
        side,
        sv_stage_modifiers(on_side(s, env, side), modifiers, duration, env.set.attacker_side, env.set.round),
    )
}

/// The status `id` put on the side the effect lands on, marking the attack as resolved.
pub open spec fn status_put(id: Seq<char>, side: Side, env: EffectEnv, s: SceneView) -> SceneView {
    let s1 = put_side(
        s,
        env,
        side,
        sv_apply_status(on_side(s, env, side), id, env.statuses, env.set.attacker_side, env.set.round),
    );
    SceneView { ctx: CtxView { last_attack_resolved: true, ..s1.ctx }, ..s1 }
}

/// A status effect: it goes on the attacker for a utility skill, else on the target. On the
/// target, unless an attack of this skill already resolved, it must first pass the hit check; a
/// miss leaves the attack unresolved and applies nothing.
pub open spec fn run_apply_status(id: Seq<char>, env: EffectEnv, s: SceneView) -> SceneView {
    let set = env.set;
    let side = if spec_target_mode(set.category) == SkillTargetMode::SelfOnly {
        set.attacker_side
    } else {
        set.target_side
    };
    if side != set.attacker_side && !s.ctx.last_attack_resolved {
        let h = spec_attack_hits(
            s.attacker.stats,
            set.base_accuracy,
            s.target,
            env.rules,
            s.rng,
            s.events,
            set.attacker_side,
            side,
        );
        if !h.0 {
            SceneView {
                target: h.1,
                rng: h.2,
                events: h.3,
                ctx: CtxView { last_attack_resolved: false, ..s.ctx },
                ..s
            }
        } else {
            status_put(id, side, env, SceneView { target: h.1, rng: h.2, events: h.3, ..s })
        }
    } else {
        status_put(id, side, env, s)
    }
}

/// A cleanse of the target; records whether anything came off.
pub open spec fn run_cleanse(prefer_aura: bool, fallback: bool, amount: usize, s: SceneView) -> SceneView {
    let r = cleanse_steps(s.target, prefer_aura, fallback, amount as nat);
    SceneView { target: r.0, ctx: CtxView { last_cleanse_succeeded: r.1, ..s.ctx }, ..s }
}

/// A dispel on the side the effect lands on; records whether anything came off.
pub open spec fn run_dispel(ids: Seq<String>, t: EffectTarget, env: EffectEnv, s: SceneView) -> SceneView {
    let side = landing_side(t, env);
    let r = sv_dispel(on_side(s, env, side), ids);
    let s1 = put_side(s, env, side, r.0);
    SceneView { ctx: CtxView { last_cleanse_succeeded: r.1 > 0, ..s1.ctx }, ..s1 }
}

/// A hit of `amount` on the side the effect lands on; records the HP damage and whether that
/// combatant fainted.
pub open spec fn run_fixed(
    amount: int,
    ignore_shield: bool,
    t: EffectTarget,
    env: EffectEnv,
    s: SceneView,
) -> SceneView {
    let side = landing_side(t, env);
    let h = fixed_hit(on_side(s, env, side), env.set.attacker_side, side, amount, ignore_shield, s.events, DamageType::Fixed);
    let s1 = put_side(s, env, side, h.0);
    SceneView {
        events: h.1,
        ctx: CtxView { last_hp_damage: h.2 as i32, target_fainted: h.0.stats.hp <= 0, ..s1.ctx },
        ..s1
    }
}

/// Fixed damage from an attribute gap between the attacker and the side the effect lands on.
pub open spec fn run_stat_difference(
    source_attribute: AttributeType,
    target_attribute: AttributeType,
    multiply_by_source_stage: bool,
    ignore_shield: bool,
    t: EffectTarget,
    env: EffectEnv,
    s: SceneView,
) -> SceneView {
    let side = landing_side(t, env);
    let amount = spec_stat_difference_damage(
        s.attacker.stats,
        on_side(s, env, side).stats,
        source_attribute,
        target_attribute,
        multiply_by_source_stage,
        env.rules,
    );
    run_fixed(amount, ignore_shield, t, env, s)
}

/// A heal of the attacker with its pending bonus.
pub open spec fn run_heal(amount: i32, env: EffectEnv, s: SceneView) -> SceneView {
    let r = heal_with_bonus(s.attacker, s.boosts, s.events, env.set.attacker_side, amount);
    SceneView { attacker: r.0, boosts: r.1, events: r.2, ..s }
}

/// A shield for the attacker with its pending bonus.
pub open spec fn run_shield(amount: i32, env: EffectEnv, s: SceneView) -> SceneView {
    let r = shield_with_bonus(s.attacker, s.boosts, s.events, env.set.attacker_side, amount);
    SceneView { attacker: r.0, boosts: r.1, events: r.2, ..s }
}

/// One effect of a skill used on an opponent.
#[verifier::opaque]
pub open spec fn run_effect(e: SkillEffect, env: EffectEnv, s: SceneView) -> SceneView
    decreases e, 0int,
{
    match e {
        SkillEffect::Attack { power, lifesteal_ratio, ignore_shield } => run_attack(
            power,
            lifesteal_ratio,
            ignore_shield,
            env,
            s,
        ),
        SkillEffect::Heal { amount } => run_heal(amount, env, s),
        SkillEffect::Shield { amount } => run_shield(amount, env, s),
        SkillEffect::ApplyStatus { status_id } => run_apply_status(status_id@, env, s),
        SkillEffect::Cleanse { prefer_aura, fallback_to_debuff, amount } => run_cleanse(
            prefer_aura,
            fallback_to_debuff,
            amount,
            s,
        ),
        SkillEffect::Dispel { status_ids, target } => run_dispel(status_ids@, target, env, s),
        SkillEffect::DealFixedDamage { amount, ignore_shield, target } => run_fixed(
            amount as int,
            ignore_shield,
            target,
            env,
            s,
        ),
        SkillEffect::DealStatDifferenceDamage {
            source_attribute,
            target_attribute,
            multiply_by_source_stage,
            ignore_shield,
            target,
        } => run_stat_difference(
            source_attribute,
            target_attribute,
            multiply_by_source_stage,
            ignore_shield,
            target,
            env,
            s,
        ),
        SkillEffect::ModifyStages { modifiers, duration_turns, target } => run_stages(
            modifiers@,
            duration_turns,
            target,
            env,
            s,
        ),
        SkillEffect::Conditional { branches } => run_branches(branches@, env, s, 0),
        SkillEffect::Sequence { effects } => run_seq(effects@, env, s, 0),
    }
}

/// The branches from `i` on, each run when its condition holds on the context as it stands.
pub open spec fn run_branches(
    bs: Seq<ConditionalSkillEffect>,
    env: EffectEnv,
    s: SceneView,
    i: int,
) -> SceneView
    decreases bs, bs.len() - i,
{
    if 0 <= i < bs.len() {
        let s1 = if spec_evaluate_condition(bs[i].condition, s.ctx) {
            run_effect(*bs[i].effect, env, s)
        } else {
            s
        };
        run_branches(bs, env, s1, i + 1)
    } else {
        s
    }
}

/// The effects from `i` on, in order; a leading attack that does not resolve stops the rest.
pub open spec fn run_seq(es: Seq<SkillEffect>, env: EffectEnv, s: SceneView, i: int) -> SceneView
    decreases es, es.len() - i,
{
    if 0 <= i < es.len() {
        let s1 = run_effect(es[i], env, s);
        if i == 0 && es[i] is Attack && !s1.ctx.last_attack_resolved {
            s1
        } else {
            run_seq(es, env, s1, i + 1)
        }
    } else {
        s
    }
}

fn resolve_stages(
    modifiers: &Vec<AttributeStageModifier>,
    duration: i32,
    t: EffectTarget,
    set: EffectSetting,
    rules: &BattleFormulaRules,
    edb: &ElementDb,
    sdb: &StatusDb,
    rdb: &ReactionDb,
    attacker: &mut CombatState,
    target: &mut CombatState,
    boosts: &mut PendingBoosts,
    rng: &mut AccuracyRng,
    events: &mut Vec<BattleEvent>,
    ctx: &mut EffectResolutionContext,
)
    ensures
        scene_of(*final(attacker), *final(target), *final(boosts), *final(rng), *final(events), *final(ctx))
            == run_stages(
            modifiers@,
            duration,
            t,
            env_of(set, *rules, *edb, *sdb, *rdb),
            scene_of(*old(attacker), *old(target), *old(boosts), *old(rng), *old(events), *old(ctx)),
        ),
{
    let side = effect_target_side(
        t,
        category_target_mode(set.category),
        set.attacker_side,
        set.target_side,
    );
    if side == set.attacker_side {
        apply_stage_modifiers_to_target(modifiers, duration, set.attacker_side, attacker, set.round);
    } else {
        apply_stage_modifiers_to_target(modifiers, duration, set.attacker_side, target, set.round);
    }
}

fn put_status(
    id: &str,
    side: Side,
    set: EffectSetting,
    rules: &BattleFormulaRules,
    edb: &ElementDb,
    sdb: &StatusDb,
    rdb: &ReactionDb,
    attacker: &mut CombatState,
    target: &mut CombatState,
    boosts: &mut PendingBoosts,
    rng: &mut AccuracyRng,
    events: &mut Vec<BattleEvent>,
    ctx: &mut EffectResolutionContext,
)
    ensures
        scene_of(*final(attacker), *final(target), *final(boosts), *final(rng), *final(events), *final(ctx))
            == status_put(
            id@,
            side,
            env_of(set, *rules, *edb, *sdb, *rdb),
            scene_of(*old(attacker), *old(target), *old(boosts), *old(rng), *old(events), *old(ctx)),
        ),
{
    if side == set.attacker_side {
        let _ = apply_status_by_id(id, set.attacker_side, attacker, sdb, set.round);
    } else {
        let _ = apply_status_by_id(id, set.attacker_side, target, sdb, set.round);
    }
    ctx.last_attack_resolved = true;
}

fn resolve_apply_status(
    id: &String,
    set: EffectSetting,
    rules: &BattleFormulaRules,
    edb: &ElementDb,
    sdb: &StatusDb,
    rdb: &ReactionDb,
    attacker: &mut CombatState,
    target: &mut CombatState,
    boosts: &mut PendingBoosts,
    rng: &mut AccuracyRng,
    events: &mut Vec<BattleEvent>,
    ctx: &mut EffectResolutionContext,
)
    requires
        rules.sane(),
    ensures
        scene_of(*final(attacker), *final(target), *final(boosts), *final(rng), *final(events), *final(ctx))
            == run_apply_status(
            id@,
            env_of(set, *rules, *edb, *sdb, *rdb),
            scene_of(*old(attacker), *old(target), *old(boosts), *old(rng), *old(events), *old(ctx)),
        ),
{
    let side = match category_target_mode(set.category) {
        SkillTargetMode::SelfOnly => set.attacker_side,
        SkillTargetMode::Opponent => set.target_side,
    };
    if side != set.attacker_side && !ctx.last_attack_resolved {
        let hit = attack_hits(
            set.base_accuracy,
            set.attacker_side,
            side,
            &attacker.stats,
            target,
            rules,
            rng,
            events,
        );
        if !hit {
            ctx.last_attack_resolved = false;
            return;
        }
    }
    put_status(id.as_str(), side, set, rules, edb, sdb, rdb, attacker, target, boosts, rng, events, ctx);
}

fn resolve_cleanse(
    prefer_aura: bool,
    fallback: bool,
    amount: usize,
    target: &mut CombatState,
    ctx: &mut EffectResolutionContext,
)
    ensures
        (final(target)@, final(ctx)@.last_cleanse_succeeded) == cleanse_steps(
            old(target)@,
            prefer_aura,
            fallback,
            amount as nat,
        ),
        final(ctx)@ == (CtxView {
            last_cleanse_succeeded: final(ctx)@.last_cleanse_succeeded,
            ..old(ctx)@
        }),
{
    let any = cleanse_combatant(prefer_aura, fallback, amount, target);
    ctx.last_cleanse_succeeded = any;
}

fn resolve_dispel(
    ids: &Vec<String>,
    t: EffectTarget,
    set: EffectSetting,
    rules: &BattleFormulaRules,
    edb: &ElementDb,
    sdb: &StatusDb,
    rdb: &ReactionDb,
    attacker: &mut CombatState,
    target: &mut CombatState,
    boosts: &mut PendingBoosts,
    rng: &mut AccuracyRng,
    events: &mut Vec<BattleEvent>,
    ctx: &mut EffectResolutionContext,
)
    ensures
        scene_of(*final(attacker), *final(target), *final(boosts), *final(rng), *final(events), *final(ctx))
            == run_dispel(
            ids@,
            t,
            env_of(set, *rules, *edb, *sdb, *rdb),
            scene_of(*old(attacker), *old(target), *old(boosts), *old(rng), *old(events), *old(ctx)),
        ),
{
    let side = effect_target_side(
        t,
        category_target_mode(set.category),
        set.attacker_side,
        set.target_side,
    );
    let n = if side == set.attacker_side {
        dispel_statuses(ids, attacker)
    } else {
        dispel_statuses(ids, target)
    };
    ctx.last_cleanse_succeeded = n > 0;
}

fn resolve_fixed(
    amount: i32,
    ignore_shield: bool,
    t: EffectTarget,
    set: EffectSetting,
    rules: &BattleFormulaRules,
    edb: &ElementDb,
    sdb: &StatusDb,
    rdb: &ReactionDb,
    attacker: &mut CombatState,
    target: &mut CombatState,
    boosts: &mut PendingBoosts,
    rng: &mut AccuracyRng,
    events: &mut Vec<BattleEvent>,
    ctx: &mut EffectResolutionContext,
)
    ensures
        scene_of(*final(attacker), *final(target), *final(boosts), *final(rng), *final(events), *final(ctx))
            == run_fixed(
            amount as int,
            ignore_shield,
            t,
            env_of(set, *rules, *edb, *sdb, *rdb),
            scene_of(*old(attacker), *old(target), *old(boosts), *old(rng), *old(events), *old(ctx)),
        ),
{
    let side = effect_target_side(
        t,
        category_target_mode(set.category),
        set.attacker_side,
        set.target_side,
    );
    if side == set.attacker_side {
        let hp = hit_combatant(set.attacker_side, side, amount, ignore_shield, attacker, events, DamageType::Fixed);
        ctx.last_hp_damage = hp;
        ctx.target_fainted = attacker.stats.hp <= 0;
    } else {
        let hp = hit_combatant(set.attacker_side, side, amount, ignore_shield, target, events, DamageType::Fixed);
        ctx.last_hp_damage = hp;
        ctx.target_fainted = target.stats.hp <= 0;
    }
}

fn resolve_stat_difference(
    source_attribute: AttributeType,
    target_attribute: AttributeType,
    multiply_by_source_stage: bool,
    ignore_shield: bool,
    t: EffectTarget,
    set: EffectSetting,
    rules: &BattleFormulaRules,
    edb: &ElementDb,
    sdb: &StatusDb,
    rdb: &ReactionDb,
    attacker: &mut CombatState,
    target: &mut CombatState,
    boosts: &mut PendingBoosts,
    rng: &mut AccuracyRng,
    events: &mut Vec<BattleEvent>,
    ctx: &mut EffectResolutionContext,
)
    requires
        rules.sane(),
    ensures
        scene_of(*final(attacker), *final(target), *final(boosts), *final(rng), *final(events), *final(ctx))
            == run_stat_difference(
            source_attribute,
            target_attribute,
            multiply_by_source_stage,
            ignore_shield,
            t,
            env_of(set, *rules, *edb, *sdb, *rdb),
            scene_of(*old(attacker), *old(target), *old(boosts), *old(rng), *old(events), *old(ctx)),
        ),
{
    let side = effect_target_side(
        t,
        category_target_mode(set.category),
        set.attacker_side,
        set.target_side,
    );
    let amount = if side == set.attacker_side {
        stat_difference_damage(
            &attacker.stats,
            &attacker.stats,
            source_attribute,
            target_attribute,
            multiply_by_source_stage,
            rules,
        )
    } else {
        stat_difference_damage(
            &attacker.stats,
            &target.stats,
            source_attribute,
            target_attribute,
            multiply_by_source_stage,
            rules,
        )
    };
    resolve_fixed(amount, ignore_shield, t, set, rules, edb, sdb, rdb, attacker, target, boosts, rng, events, ctx);
}

pub(crate) fn resolve_effect(
    e: &SkillEffect,
    set: EffectSetting,
    rules: &BattleFormulaRules,
    edb: &ElementDb,
    sdb: &StatusDb,
    rdb: &ReactionDb,
    attacker: &mut CombatState,
    target: &mut CombatState,
    boosts: &mut PendingBoosts,
    rng: &mut AccuracyRng,
    events: &mut Vec<BattleEvent>,
    ctx: &mut EffectResolutionContext,
)
    requires
        rules.sane(),
    ensures
        scene_of(*final(attacker), *final(target), *final(boosts), *final(rng), *final(events), *final(ctx))
            == run_effect(
            *e,
            env_of(set, *rules, *edb, *sdb, *rdb),
            scene_of(*old(attacker), *old(target), *old(boosts), *old(rng), *old(events), *old(ctx)),
        ),
    decreases e, 0int,
{
    proof {
        reveal(run_effect);
    }
    match e {
        SkillEffect::Attack { power, lifesteal_ratio, ignore_shield } => {
            resolve_attack(*power, *lifesteal_ratio, *ignore_shield, set, rules, edb, sdb, rdb, attacker, target, boosts, rng, events, ctx);
        },
        SkillEffect::Heal { amount } => {
            resolve_heal(*amount, set.attacker_side, attacker, boosts, events);
        },
        SkillEffect::Shield { amount } => {
            resolve_shield(*amount, set.attacker_side, attacker, boosts, events);
        },
        SkillEffect::ApplyStatus { status_id } => {
            resolve_apply_status(status_id, set, rules, edb, sdb, rdb, attacker, target, boosts, rng, events, ctx);
        },
        SkillEffect::Cleanse { prefer_aura, fallback_to_debuff, amount } => {
            resolve_cleanse(*prefer_aura, *fallback_to_debuff, *amount, target, ctx);
        },
        SkillEffect::Dispel { status_ids, target: t } => {
            resolve_dispel(status_ids, *t, set, rules, edb, sdb, rdb, attacker, target, boosts, rng, events, ctx);
        },
        SkillEffect::DealFixedDamage { amount, ignore_shield, target: t } => {
            resolve_fixed(*amount, *ignore_shield, *t, set, rules, edb, sdb, rdb, attacker, target, boosts, rng, events, ctx);
        },
        SkillEffect::DealStatDifferenceDamage {
            source_attribute,
            target_attribute,
            multiply_by_source_stage,
            ignore_shield,
            target: t,
        } => {
            resolve_stat_difference(
                *source_attribute,
                *target_attribute,
                *multiply_by_source_stage,
                *ignore_shield,
                *t,
                set,
                rules,
                edb,
                sdb,
                rdb,
                attacker,
                target,
                boosts,
                rng,
                events,
                ctx,
            );
        },
        SkillEffect::ModifyStages { modifiers, duration_turns, target: t } => {
            resolve_stages(modifiers, *duration_turns, *t, set, rules, edb, sdb, rdb, attacker, target, boosts, rng, events, ctx);
        },
        SkillEffect::Conditional { branches } => {
            resolve_branches(branches, 0, set, rules, edb, sdb, rdb, attacker, target, boosts, rng, events, ctx);
        },
        SkillEffect::Sequence { effects } => {
            resolve_seq(effects, 0, set, rules, edb, sdb, rdb, attacker, target, boosts, rng, events, ctx);
        },
    }
}

fn resolve_branches(
    bs: &Vec<ConditionalSkillEffect>,
    i: usize,
    set: EffectSetting,
    rules: &BattleFormulaRules,
    edb: &ElementDb,
    sdb: &StatusDb,
    rdb: &ReactionDb,
    attacker: &mut CombatState,
    target: &mut CombatState,
    boosts: &mut PendingBoosts,
    rng: &mut AccuracyRng,
    events: &mut Vec<BattleEvent>,
    ctx: &mut EffectResolutionContext,
)
    requires
        rules.sane(),
        i <= bs@.len(),
    ensures
        scene_of(*final(attacker), *final(target), *final(boosts), *final(rng), *final(events), *final(ctx))
            == run_branches(
            bs@,
            env_of(set, *rules, *edb, *sdb, *rdb),
            scene_of(*old(attacker), *old(target), *old(boosts), *old(rng), *old(events), *old(ctx)),
            i as int,
        ),
    decreases bs@, bs@.len() - i,
{
    proof {
        reveal(run_effect);
    }
    if i < bs.len() {
        if evaluate_condition(&bs[i].condition, ctx) {
            resolve_effect(&bs[i].effect, set, rules, edb, sdb, rdb, attacker, target, boosts, rng, events, ctx);
        }
        resolve_branches(bs, i + 1, set, rules, edb, sdb, rdb, attacker, target, boosts, rng, events, ctx);
    }
}

fn resolve_seq(
    es: &Vec<SkillEffect>,
    i: usize,
    set: EffectSetting,
    rules: &BattleFormulaRules,
    edb: &ElementDb,
    sdb: &StatusDb,
    rdb: &ReactionDb,
    attacker: &mut CombatState,
    target: &mut CombatState,
    boosts: &mut PendingBoosts,
    rng: &mut AccuracyRng,
    events: &mut Vec<BattleEvent>,
    ctx: &mut EffectResolutionContext,
)
    requires
        rules.sane(),
        i <= es@.len(),
    ensures
        scene_of(*final(attacker), *final(target), *final(boosts), *final(rng), *final(events), *final(ctx))
            == run_seq(
            es@,
            env_of(set, *rules, *edb, *sdb, *rdb),
            scene_of(*old(attacker), *old(target), *old(boosts), *old(rng), *old(events), *old(ctx)),
            i as int,
        ),
    decreases es@, es@.len() - i,
{
    proof {
        reveal(run_effect);
    }
    if i < es.len() {
        resolve_effect(&es[i], set, rules, edb, sdb, rdb, attacker, target, boosts, rng, events, ctx);
        let stop = i == 0 && matches!(es[i], SkillEffect::Attack { .. }) && !ctx.last_attack_resolved;
        if !stop {
            resolve_seq(es, i + 1, set, rules, edb, sdb, rdb, attacker, target, boosts, rng, events, ctx);
        }
    }
}

/// What an effect a combatant uses on itself can change.
pub ghost struct ActorView {
    pub actor: CombatView,
    pub boosts: PendingBoosts,
    pub events: Seq<EventView>,
    pub ctx: CtxView,
}

pub open spec fn actor_of(
    actor: CombatState,
    boosts: PendingBoosts,
    events: Vec<BattleEvent>,
    ctx: EffectResolutionContext,
) -> ActorView {
    ActorView { actor: actor@, boosts, events: events_view(events@), ctx: ctx@ }
}

/// A hit of `amount` that a combatant deals itself.
pub open spec fn self_hit(amount: int, ignore_shield: bool, side: Side, s: ActorView) -> ActorView {
    let h = fixed_hit(s.actor, side, side, amount, ignore_shield, s.events, DamageType::Fixed);
    ActorView {
        actor: h.0,
        events: h.1,
        ctx: CtxView { last_hp_damage: h.2 as i32, target_fainted: h.0.stats.hp <= 0, ..s.ctx },
        ..s
    }
}

/// One effect of a skill that the combatant on `side` uses on itself: every effect acts on the
/// user (an attack does nothing).
#[verifier::opaque]
pub open spec fn run_self(
    e: SkillEffect,
    side: Side,
    round: u32,
    rules: BattleFormulaRules,
    statuses: StatusDb,
    s: ActorView,
) -> ActorView
    decreases e, 0int,
{
    match e {
        SkillEffect::Attack { .. } => s,
        SkillEffect::Heal { amount } => {
            let r = heal_with_bonus(s.actor, s.boosts, s.events, side, amount);
            ActorView { actor: r.0, boosts: r.1, events: r.2, ..s }
        },
        SkillEffect::Shield { amount } => {
            let r = shield_with_bonus(s.actor, s.boosts, s.events, side, amount);
            ActorView { actor: r.0, boosts: r.1, events: r.2, ..s }
        },
        SkillEffect::ApplyStatus { status_id } => ActorView {
            actor: sv_apply_status(s.actor, status_id@, statuses, side, round),
            ..s
        },
        SkillEffect::Cleanse { prefer_aura, fallback_to_debuff, amount } => {
            let r = cleanse_steps(s.actor, prefer_aura, fallback_to_debuff, amount as nat);
            ActorView { actor: r.0, ctx: CtxView { last_cleanse_succeeded: r.1, ..s.ctx }, ..s }
        },
        SkillEffect::Dispel { status_ids, .. } => {
            let r = sv_dispel(s.actor, status_ids@);
            ActorView { actor: r.0, ctx: CtxView { last_cleanse_succeeded: r.1 > 0, ..s.ctx }, ..s }
        },
        SkillEffect::DealFixedDamage { amount, ignore_shield, .. } => self_hit(
            amount as int,
            ignore_shield,
            side,
            s,
        ),
        SkillEffect::DealStatDifferenceDamage {
            source_attribute,
            target_attribute,
            multiply_by_source_stage,
            ignore_shield,
            ..
        } => self_hit(
            spec_stat_difference_damage(
                s.actor.stats,
                s.actor.stats,
                source_attribute,
                target_attribute,
                multiply_by_source_stage,
                rules,
            ),
            ignore_shield,
            side,
            s,
        ),
        SkillEffect::ModifyStages { modifiers, duration_turns, .. } => ActorView {
            actor: sv_stage_modifiers(s.actor, modifiers@, duration_turns, side, round),
            ..s
        },
        SkillEffect::Conditional { branches } => run_self_branches(branches@, side, round, rules, statuses, s, 0),
        SkillEffect::Sequence { effects } => run_self_seq(effects@, side, round, rules, statuses, s, 0),
    }
}

pub open spec fn run_self_branches(
    bs: Seq<ConditionalSkillEffect>,
    side: Side,
    round: u32,
    rules: BattleFormulaRules,
    statuses: StatusDb,
    s: ActorView,
    i: int,
) -> ActorView
    decreases bs, bs.len() - i,
{
    if 0 <= i < bs.len() {
        let s1 = if spec_evaluate_condition(bs[i].condition, s.ctx) {
            run_self(*bs[i].effect, side, round, rules, statuses, s)
        } else {
            s
        };
        run_self_branches(bs, side, round, rules, statuses, s1, i + 1)
    } else {
        s
    }
}

/// Every effect of a sequence, in order.
pub open spec fn run_self_seq(
    es: Seq<SkillEffect>,
    side: Side,
    round: u32,
    rules: BattleFormulaRules,
    statuses: StatusDb,
    s: ActorView,
    i: int,
) -> ActorView
    decreases es, es.len() - i,
{
    if 0 <= i < es.len() {
        run_self_seq(es, side, round, rules, statuses, run_self(es[i], side, round, rules, statuses, s), i + 1)
    } else {
        s
    }
}

fn self_hit_exec(
    amount: i32,
    ignore_shield: bool,
    side: Side,
    actor: &mut CombatState,
    boosts: &mut PendingBoosts,
    events: &mut Vec<BattleEvent>,
    ctx: &mut EffectResolutionContext,
)
    ensures
        actor_of(*final(actor), *final(boosts), *final(events), *final(ctx)) == self_hit(
            amount as int,
            ignore_shield,
            side,
            actor_of(*old(actor), *old(boosts), *old(events), *old(ctx)),
        ),
{
    let hp = hit_combatant(side, side, amount, ignore_shield, actor, events, DamageType::Fixed);
    ctx.last_hp_damage = hp;
    ctx.target_fainted = actor.stats.hp <= 0;
}

fn resolve_self(
    e: &SkillEffect,
    side: Side,
    round: u32,
    rules: &BattleFormulaRules,
    sdb: &StatusDb,
    actor: &mut CombatState,
    boosts: &mut PendingBoosts,
    events: &mut Vec<BattleEvent>,
    ctx: &mut EffectResolutionContext,
)
    requires
        rules.sane(),
    ensures
        actor_of(*final(actor), *final(boosts), *final(events), *final(ctx)) == run_self(
            *e,
            side,
            round,
            *rules,
            *sdb,
            actor_of(*old(actor), *old(boosts), *old(events), *old(ctx)),
        ),
    decreases e, 0int,
{
    proof {
        reveal(run_self);
    }
    match e {
        SkillEffect::Attack { .. } => {},
        SkillEffect::Heal { amount } => {
            resolve_heal(*amount, side, actor, boosts, events);
        },
        SkillEffect::Shield { amount } => {
            resolve_shield(*amount, side, actor, boosts, events);
        },
        SkillEffect::ApplyStatus { status_id } => {
            let _ = apply_status_by_id(status_id.as_str(), side, actor, sdb, round);
        },
        SkillEffect::Cleanse { prefer_aura, fallback_to_debuff, amount } => {
            resolve_cleanse(*prefer_aura, *fallback_to_debuff, *amount, actor, ctx);
        },
        SkillEffect::Dispel { status_ids, .. } => {
            let n = dispel_statuses(status_ids, actor);
            ctx.last_cleanse_succeeded = n > 0;
        },
        SkillEffect::DealFixedDamage { amount, ignore_shield, .. } => {
            self_hit_exec(*amount, *ignore_shield, side, actor, boosts, events, ctx);
        },
        SkillEffect::DealStatDifferenceDamage {
            source_attribute,
            target_attribute,
            multiply_by_source_stage,
            ignore_shield,
            ..
        } => {
            let amount = stat_difference_damage(
                &actor.stats,
                &actor.stats,
                *source_attribute,
                *target_attribute,
                *multiply_by_source_stage,
                rules,
            );
            self_hit_exec(amount, *ignore_shield, side, actor, boosts, events, ctx);
        },
        SkillEffect::ModifyStages { modifiers, duration_turns, .. } => {
            apply_stage_modifiers_to_target(modifiers, *duration_turns, side, actor, round);
        },
        SkillEffect::Conditional { branches } => {
            resolve_self_branches(branches, 0, side, round, rules, sdb, actor, boosts, events, ctx);
        },
        SkillEffect::Sequence { effects } => {
            resolve_self_seq(effects, 0, side, round, rules, sdb, actor, boosts, events, ctx);
        },
    }
}

fn resolve_self_branches(
    bs: &Vec<ConditionalSkillEffect>,
    i: usize,
    side: Side,
    round: u32,
    rules: &BattleFormulaRules,
    sdb: &StatusDb,
    actor: &mut CombatState,
    boosts: &mut PendingBoosts,
    events: &mut Vec<BattleEvent>,
    ctx: &mut EffectResolutionContext,
)
    requires
        rules.sane(),
        i <= bs@.len(),
    ensures
        actor_of(*final(actor), *final(boosts), *final(events), *final(ctx)) == run_self_branches(
            bs@,
            side,
            round,
            *rules,
            *sdb,
            actor_of(*old(actor), *old(boosts), *old(events), *old(ctx)),
            i as int,
        ),
    decreases bs@, bs@.len() - i,
{
    proof {
        reveal(run_self);
    }
    if i < bs.len() {
        if evaluate_condition(&bs[i].condition, ctx) {
            resolve_self(&bs[i].effect, side, round, rules, sdb, actor, boosts, events, ctx);
        }
        resolve_self_branches(bs, i + 1, side, round, rules, sdb, actor, boosts, events, ctx);
    }
}

fn resolve_self_seq(
    es: &Vec<SkillEffect>,
    i: usize,
    side: Side,
    round: u32,
    rules: &BattleFormulaRules,
    sdb: &StatusDb,
    actor: &mut CombatState,
    boosts: &mut PendingBoosts,
    events: &mut Vec<BattleEvent>,
    ctx: &mut EffectResolutionContext,
)
    requires
        rules.sane(),
        i <= es@.len(),
    ensures
        actor_of(*final(actor), *final(boosts), *final(events), *final(ctx)) == run_self_seq(
            es@,
            side,
            round,
            *rules,
            *sdb,
            actor_of(*old(actor), *old(boosts), *old(events), *old(ctx)),
            i as int,
        ),
    decreases es@, es@.len() - i,
{
    proof {
        reveal(run_self);
    }
    if i < es.len() {
        resolve_self(&es[i], side, round, rules, sdb, actor, boosts, events, ctx);
        resolve_self_seq(es, i + 1, side, round, rules, sdb, actor, boosts, events, ctx);
    }
}

/// The context a skill starts from on `target`: what it has, nothing done yet.
pub open spec fn start_ctx(target: CombatView) -> CtxView {
    ctx_for_target(aura_elems(target.aura), target.statuses, target.shield as int)
}

/// Resolves a skill that the combatant on `actor_side` uses on itself (a utility skill): its
/// effect runs on the user (see `run_self`), from a context built on the user.
pub fn apply_self_effect(
    skill: &SkillDef,
    actor_side: Side,
    actor: &mut CombatState,
    pending_boosts: &mut PendingBoosts,
    formula_rules: &BattleFormulaRules,
    status_db: &StatusDb,
    events: &mut Vec<BattleEvent>,
    round: u32,
)
    requires
        formula_rules.sane(),
    ensures
        ({
            let r = run_self(
                skill.effect,
                actor_side,
                round,
                *formula_rules,
                *status_db,
                ActorView {
                    actor: old(actor)@,
                    boosts: *old(pending_boosts),
                    events: events_view(old(events)@),
                    ctx: start_ctx(old(actor)@),
                },
            );
            &&& final(actor)@ == r.actor
            &&& *final(pending_boosts) == r.boosts
            &&& events_view(final(events)@) == r.events
        }),
{
    let mut ctx = context_for_target(actor);
    resolve_self(
        &skill.effect,
        actor_side,
        round,
        formula_rules,
        status_db,
        actor,
        pending_boosts,
        events,
        &mut ctx,
    );
}

/// Resolves a skill that the combatant on `attacker_side` uses on the one on `target_side`,
/// whose own element is `target_element`: its effect runs on both (see `run_effect`), from a
/// context built on the target.
pub fn apply_effect(
    skill: &SkillDef,
    attacker_side: Side,
    target_side: Side,
    target_element: ElementType,
    attacker: &mut CombatState,
    target: &mut CombatState,
    pending_boosts: &mut PendingBoosts,
    formula_rules: &BattleFormulaRules,
    accuracy_rng: &mut AccuracyRng,
    element_db: &ElementDb,
    status_db: &StatusDb,
    reaction_db: &ReactionDb,
    events: &mut Vec<BattleEvent>,
    round: u32,
)
    requires
        formula_rules.sane(),
    ensures
        ({
            let r = run_effect(
                skill.effect,
                env_of(
                    spec_setting(*skill, attacker_side, target_side, target_element, round),
                    *formula_rules,
                    *element_db,
                    *status_db,
                    *reaction_db,
                ),
                SceneView {
                    attacker: old(attacker)@,
                    target: old(target)@,
                    boosts: *old(pending_boosts),
                    rng: old(accuracy_rng).state,
                    events: events_view(old(events)@),
                    ctx: start_ctx(old(target)@),
                },
            );
            &&& final(attacker)@ == r.attacker
            &&& final(target)@ == r.target
            &&& *final(pending_boosts) == r.boosts
            &&& final(accuracy_rng).state == r.rng
            &&& events_view(final(events)@) == r.events
        }),
{
    let set = EffectSetting::of_skill(skill, attacker_side, target_side, target_element, round);
    let mut ctx = context_for_target(target);
    resolve_effect(
        &skill.effect,
        set,
        formula_rules,
        element_db,
        status_db,
        reaction_db,
        attacker,
        target,
        pending_boosts,
        accuracy_rng,
        events,
        &mut ctx,
    );
}

} // verus!
