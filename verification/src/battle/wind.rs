//! Special wind attacks: the hit on the front combatant spreads one of its auras, damaging the
//! front again and hitting every back-line combatant with the spread element.
use vstd::prelude::*;

use super::combat::{
    ctx_after_attack, defending_element, env_of, fixed_hit, hit_combatant, record_attack,
    resolve_effect, run_effect, scene_of, set_boost, spec_setting, EffectEnv, EffectSetting,
    SceneView,
};
use super::flow::{members_view, Combatant, MemberView};
use super::context::{
    opt_string_view, status_id_list, status_ids, strings_view, CtxView, EffectResolutionContext,
};
use super::effects::{
    attack_hits, primary_attack_effect, select_spread_element, spec_attack_hits, spec_primary_attack,
    spec_select_spread, spec_spread_damage, spread_damage,
};
use super::formula::{
    final_damage, scaled_damage_after_defense, spec_damage_after_defense, spec_final_damage,
};
use super::model::{DamageType, 
    aura_elems, emit, events_view, BattleEvent, CombatState, CombatView, EventView, PendingBoost,
    PendingBoosts, Side,
};
use super::reaction::{
    apply_status_by_id, attach_element, attach_reaction_name, spec_attach, sv_apply_status,
    AttachView,
};
use super::rng::AccuracyRng;
use super::ticks::{aura_status_id, spec_aura_status_id};
use crate::arith::{sat_i32, to_i32_sat};
use crate::data::{
    BattleFormulaRules, ElementDb, ElementType, ReactionDb, SkillDef, SkillEffect, StatusDb,
};

verus! {

/// Everything a wind attack can change: the back line too.
pub ghost struct WindView {
    pub attacker: CombatView,
    pub front: CombatView,
    pub back: Seq<MemberView>,
    pub boosts: PendingBoosts,
    pub rng: u64,
    pub events: Seq<EventView>,
    pub ctx: CtxView,
}

pub open spec fn wind_of(
    attacker: CombatState,
    front: CombatState,
    back: Vec<Combatant>,
    boosts: PendingBoosts,
    rng: AccuracyRng,
    events: Vec<BattleEvent>,
    ctx: EffectResolutionContext,
) -> WindView {
    WindView {
        attacker: attacker@,
        front: front@,
        back: members_view(back@),
        boosts,
        rng: rng.state,
        events: events_view(events@),
        ctx: ctx@,
    }
}

/// The effects after the first of a sequence, each run on its own (any other effect has none).
pub open spec fn run_follow_ups(es: Seq<SkillEffect>, env: EffectEnv, s: SceneView, i: int) -> SceneView
    decreases es.len() - i,
{
    if 1 <= i < es.len() {
        run_follow_ups(es, env, run_effect(es[i], env, s), i + 1)
    } else {
        s
    }
}

/// The follow-up effects of a wind skill, on the attacker and the front combatant.
pub open spec fn follow_scene(e: SkillEffect, env: EffectEnv, s: SceneView) -> SceneView {
    match e {
        SkillEffect::Sequence { effects } => run_follow_ups(effects@, env, s, 1),
        _ => s,
    }
}

pub open spec fn follow(e: SkillEffect, env: EffectEnv, w: WindView) -> WindView {
    let s = follow_scene(
        e,
        env,
        SceneView {
            attacker: w.attacker,
            target: w.front,
            boosts: w.boosts,
            rng: w.rng,
            events: w.events,
            ctx: w.ctx,
        },
    );
    WindView {
        attacker: s.attacker,
        front: s.target,
        boosts: s.boosts,
        rng: s.rng,
        events: s.events,
        ctx: s.ctx,
        ..w
    }
}

/// The context after a wind attack: as after any attack, plus whether the spread happened.
pub open spec fn wind_ctx(
    c: CtxView,
    had_aura: Seq<ElementType>,
    had_ids: Seq<Seq<char>>,
    had_shield: bool,
    hp_damage: int,
    fainted: bool,
    reaction: Option<Seq<char>>,
    resolved: bool,
    spread: bool,
) -> CtxView {
    CtxView {
        last_wind_spread_succeeded: spread,
        ..ctx_after_attack(c, had_aura, had_ids, had_shield, hp_damage, fainted, reaction, resolved)
    }
}

/// What spreading to the back line changes.
pub ghost struct SpreadView {
    pub attacker: CombatView,
    pub back: Seq<MemberView>,
    pub events: Seq<EventView>,
    pub reaction: Option<Seq<char>>,
}

/// The spread hitting one back-line combatant `t`: its damage lands through the shield, the
/// element attaches, and a fired reaction is reported; gives the attacker, the combatant, the
/// events and the reaction's name.
#[verifier::opaque]
pub open spec fn back_hit(
    attacker: CombatView,
    t: CombatView,
    events: Seq<EventView>,
    spread: ElementType,
    env: EffectEnv,
) -> (CombatView, CombatView, Seq<EventView>, Option<Seq<char>>) {
    let set = env.set;
    let h = fixed_hit(t, set.attacker_side, set.target_side, spec_spread_damage(spread, false), false, events, DamageType::Fixed);
    let at = spec_attach(
        AttachView { attacker, target: h.0, events: h.1 },
        spread,
        set.attacker_side,
        set.target_side,
        1000,
        env.statuses,
        env.reactions,
        set.round,
    );
    let name = attach_reaction_name(h.0, spread, env.reactions);
    let ev = match name {
        Some(n) => at.events.push(
            EventView::ReactionTriggered {
                source: set.attacker_side,
                target: set.target_side,
                reaction_name: n,
            },
        ),
        None => at.events,
    };
    (at.attacker, at.target, ev, name)
}

/// The spread hitting back-line combatant `i`; the first reaction fired is kept.
pub open spec fn backline_step(s: SpreadView, i: int, spread: ElementType, env: EffectEnv) -> SpreadView {
    let r = back_hit(s.attacker, s.back[i].state, s.events, spread, env);
    SpreadView {
        attacker: r.0,
        back: s.back.update(i, MemberView { state: r.1, ..s.back[i] }),
        events: r.2,
        reaction: if s.reaction is Some {
            s.reaction
        } else {
            r.3
        },
    }
}

/// The spread hitting the first `n` back-line combatants in order.
pub open spec fn backline(s: SpreadView, n: nat, spread: ElementType, env: EffectEnv) -> SpreadView
    decreases n,
{
    if n == 0 {
        s
    } else {
        backline_step(backline(s, (n - 1) as nat, spread, env), n - 1, spread, env)
    }
}

/// A wind hit that spreads `spread`: reported, the front gets the element's marker status and
/// the front spread damage, then the back line is hit.
pub open spec fn spread_hit(spread: ElementType, env: EffectEnv, w: WindView) -> (WindView, int, Option<Seq<char>>) {
    let set = env.set;
    let ev = w.events.push(
        EventView::WindSpreadTriggered { source: set.attacker_side, target: set.target_side, element: spread },
    );
    let f1 = match spec_aura_status_id(spread) {
        Some(id) => sv_apply_status(w.front, id, env.statuses, set.attacker_side, set.round),
        None => w.front,
    };
    let fs = fixed_hit(f1, set.attacker_side, set.target_side, spec_spread_damage(spread, true), false, ev, DamageType::Fixed);
    let b = backline(
        SpreadView { attacker: w.attacker, back: w.back, events: fs.1, reaction: None },
        w.back.len(),
        spread,
        env,
    );
    (WindView { attacker: b.attacker, front: fs.0, back: b.back, events: b.events, ..w }, fs.2, b.reaction)
}

/// A wind attack of `power` that hit: the attacker's pending attack bonus is added and used up;
/// the direct damage (wind against the defending element) lands through the front's shield.
/// Without an aura to spread, the follow-ups run and the skipped spread is reported; else the
/// spread happens and the follow-ups run.
pub open spec fn wind_hit(
    e: SkillEffect,
    power: i32,
    env: EffectEnv,
    with_context: bool,
    had_aura: Seq<ElementType>,
    had_ids: Seq<Seq<char>>,
    had_shield: bool,
    w: WindView,
) -> WindView {
    let set = env.set;
    let p = w.boosts.of(set.attacker_side);
    let boosted = sat_i32(power + p.next_attack_bonus);
    let raw = spec_damage_after_defense(boosted, w.attacker.stats, w.front.stats, env.rules);
    let eff = env.elements.effectiveness(ElementType::Wind, defending_element(w.front, set.target_element));
    let d = fixed_hit(
        w.front,
        set.attacker_side,
        set.target_side,
        spec_final_damage(raw, eff, env.rules),
        false,
        w.events,
        DamageType::Direct,
    );
    let w2 = WindView {
        front: d.0,
        events: d.1,
        boosts: set_boost(w.boosts, set.attacker_side, PendingBoost { next_attack_bonus: 0, ..p }),
        ..w
    };
    match spec_select_spread(w2.front.aura, w2.front.statuses) {
        None => {
            let w3 = if with_context {
                follow(
                    e,
                    env,
                    WindView {
                        ctx: wind_ctx(w2.ctx, had_aura, had_ids, had_shield, d.2, d.0.stats.hp <= 0, None, true, false),
                        ..w2
                    },
                )
            } else {
                w2
            };
            WindView {
                events: w3.events.push(
                    EventView::WindSpreadSkipped {
                        source: set.attacker_side,
                        target: set.target_side,
                        aura: aura_elems(w3.front.aura),
                    },
                ),
                ..w3
            }
        },
        Some(spread) => {
            let r = spread_hit(spread, env, w2);
            let w3 = r.0;
            if with_context {
                follow(
                    e,
                    env,
                    WindView {
                        ctx: wind_ctx(
                            w3.ctx,
                            had_aura,
                            had_ids,
                            had_shield,
                            sat_i32(d.2 + r.1),
                            w3.front.stats.hp <= 0,
                            r.2,
                            true,
                            true,
                        ),
                        ..w3
                    },
                )
            } else {
                w3
            }
        },
    }
}

/// A special wind attack on the front combatant (own element `env.set.target_element`): the hit
/// check first; a miss records an unresolved attack and runs the follow-ups (with a context).
/// On a hit, see `wind_hit`. The context is kept and the follow-ups run only `with_context`.
#[verifier::opaque]
pub open spec fn run_wind(e: SkillEffect, env: EffectEnv, with_context: bool, w: WindView) -> WindView {
    let set = env.set;
    let had_aura = aura_elems(w.front.aura);
    let had_ids = status_ids(w.front.statuses);
    let had_shield = w.front.shield > 0;
    let h = spec_attack_hits(
        w.attacker.stats,
        set.base_accuracy,
        w.front,
        env.rules,
        w.rng,
        w.events,
        set.attacker_side,
        set.target_side,
    );
    let w1 = WindView { front: h.1, rng: h.2, events: h.3, ..w };
    if !h.0 {
        if with_context {
            follow(
                e,
                env,
                WindView {
                    ctx: wind_ctx(w1.ctx, had_aura, had_ids, had_shield, 0, false, None, false, false),
                    ..w1
                },
            )
        } else {
            w1
        }
    } else {
        match spec_primary_attack(e) {
            Some(SkillEffect::Attack { power, .. }) => wind_hit(
                e,
                power,
                env,
                with_context,
                had_aura,
                had_ids,
                had_shield,
                w1,
            ),
            _ => w1,
        }
    }
}

fn resolve_follow_ups(
    es: &Vec<SkillEffect>,
    i: usize,
    set: EffectSetting,
    rules: &BattleFormulaRules,
    edb: &ElementDb,
    sdb: &StatusDb,
    rdb: &ReactionDb,
    attacker: &mut CombatState,
    front: &mut CombatState,
    boosts: &mut PendingBoosts,
    rng: &mut AccuracyRng,
    events: &mut Vec<BattleEvent>,
    ctx: &mut EffectResolutionContext,
)
    requires
        rules.sane(),
        1 <= i <= es@.len(),
    ensures
        scene_of(*final(attacker), *final(front), *final(boosts), *final(rng), *final(events), *final(ctx))
            == run_follow_ups(
            es@,
            env_of(set, *rules, *edb, *sdb, *rdb),
            scene_of(*old(attacker), *old(front), *old(boosts), *old(rng), *old(events), *old(ctx)),
            i as int,
        ),
    decreases es@.len() - i,
{
    if i < es.len() {
        resolve_effect(&es[i], set, rules, edb, sdb, rdb, attacker, front, boosts, rng, events, ctx);
        resolve_follow_ups(es, i + 1, set, rules, edb, sdb, rdb, attacker, front, boosts, rng, events, ctx);
    }
}

fn resolve_follow(
    e: &SkillEffect,
    set: EffectSetting,
    rules: &BattleFormulaRules,
    edb: &ElementDb,
    sdb: &StatusDb,
    rdb: &ReactionDb,
    attacker: &mut CombatState,
    front: &mut CombatState,
    boosts: &mut PendingBoosts,
    rng: &mut AccuracyRng,
    events: &mut Vec<BattleEvent>,
    ctx: &mut EffectResolutionContext,
)
    requires
        rules.sane(),
    ensures
        scene_of(*final(attacker), *final(front), *final(boosts), *final(rng), *final(events), *final(ctx))
            == follow_scene(
            *e,
            env_of(set, *rules, *edb, *sdb, *rdb),
            scene_of(*old(attacker), *old(front), *old(boosts), *old(rng), *old(events), *old(ctx)),
        ),
{
    match e {
        SkillEffect::Sequence { effects } => {
            if effects.len() >= 1 {
                resolve_follow_ups(effects, 1, set, rules, edb, sdb, rdb, attacker, front, boosts, rng, events, ctx);
            }
        },
        _ => {},
    }
}

fn hit_back_one(
    spread: ElementType,
    set: EffectSetting,
    rules: &BattleFormulaRules,
    edb: &ElementDb,
    sdb: &StatusDb,
    rdb: &ReactionDb,
    attacker: &mut CombatState,
    t: &mut CombatState,
    events: &mut Vec<BattleEvent>,
) -> (name: Option<String>)
    ensures
        (final(attacker)@, final(t)@, events_view(final(events)@), opt_string_view(name)) == back_hit(
            old(attacker)@,
            old(t)@,
            events_view(old(events)@),
            spread,
            env_of(set, *rules, *edb, *sdb, *rdb),
        ),
{
    proof {
        reveal(back_hit);
    }
    let damage = spread_damage(spread, false);
    let _ = hit_combatant(set.attacker_side, set.target_side, damage, false, t, events, DamageType::Fixed);
    let ghost t1 = t@;
    let (name, _hp, _from, _evicted) = attach_element(
        spread,
        set.attacker_side,
        set.target_side,
        1000,
        attacker,
        t,
        sdb,
        rdb,
        set.round,
        events,
    );
    match &name {
        Some(nm) => {
            emit(
                events,
                BattleEvent::ReactionTriggered {
                    source: set.attacker_side,
                    target: set.target_side,
                    reaction_name: nm.clone(),
                },
            );
        },
        None => {},
    }
    proof {
        assert(opt_string_view(name) == attach_reaction_name(t1, spread, *rdb));
    }
    name
}

fn hit_backline(
    spread: ElementType,
    set: EffectSetting,
    rules: &BattleFormulaRules,
    edb: &ElementDb,
    sdb: &StatusDb,
    rdb: &ReactionDb,
    attacker: &mut CombatState,
    back: &mut Vec<Combatant>,
    events: &mut Vec<BattleEvent>,
) -> (reaction: Option<String>)
    ensures
        (SpreadView {
            attacker: final(attacker)@,
            back: members_view(final(back)@),
            events: events_view(final(events)@),
            reaction: opt_string_view(reaction),
        }) == backline(
            SpreadView {
                attacker: old(attacker)@,
                back: members_view(old(back)@),
                events: events_view(old(events)@),
                reaction: None,
            },
            old(back)@.len(),
            spread,
            env_of(set, *rules, *edb, *sdb, *rdb),
        ),
        final(back)@.len() == old(back)@.len(),
{
    let ghost env = env_of(set, *rules, *edb, *sdb, *rdb);
    let ghost s0 = SpreadView {
        attacker: attacker@,
        back: members_view(back@),
        events: events_view(events@),
        reaction: None,
    };
    let mut reaction: Option<String> = None;
    let mut i: usize = 0;
    let n = back.len();
    while i < n
        invariant
            n == back@.len(),
            n == old(back)@.len(),
            i <= n,
            (SpreadView {
                attacker: attacker@,
                back: members_view(back@),
                events: events_view(events@),
                reaction: opt_string_view(reaction),
            }) == backline(s0, i as nat, spread, env),
            env == env_of(set, *rules, *edb, *sdb, *rdb),
        decreases n - i,
    {
        let ghost before_back = members_view(back@);
        let mut t = back.remove(i);
        assert(t@ == before_back[i as int]);
        let name = hit_back_one(spread, set, rules, edb, sdb, rdb, attacker, &mut t.state, events);
        if reaction.is_none() {
            reaction = name;
        }
        let ghost tv = t@;
        back.insert(i, t);
        proof {
            assert(members_view(back@) =~= before_back.update(i as int, tv));
        }
        i = i + 1;
    }
    reaction
}

fn spread_exec(
    spread: ElementType,
    set: EffectSetting,
    rules: &BattleFormulaRules,
    edb: &ElementDb,
    sdb: &StatusDb,
    rdb: &ReactionDb,
    attacker: &mut CombatState,
    front: &mut CombatState,
    back: &mut Vec<Combatant>,
    boosts: &mut PendingBoosts,
    rng: &mut AccuracyRng,
    events: &mut Vec<BattleEvent>,
    ctx: &mut EffectResolutionContext,
) -> (r: (i32, Option<String>))
    ensures
        ({
            let w = spread_hit(
                spread,
                env_of(set, *rules, *edb, *sdb, *rdb),
                wind_of(*old(attacker), *old(front), *old(back), *old(boosts), *old(rng), *old(events), *old(ctx)),
            );
            &&& wind_of(*final(attacker), *final(front), *final(back), *final(boosts), *final(rng), *final(events), *final(ctx)) == w.0
            &&& r.0 == w.1
            &&& opt_string_view(r.1) == w.2
        }),
        final(back)@.len() == old(back)@.len(),
{
    emit(
        events,
        BattleEvent::WindSpreadTriggered {
            source: set.attacker_side,
            target: set.target_side,
            element: spread,
        },
    );
    match aura_status_id(spread) {
        Some(id) => {
            let _ = apply_status_by_id(id, set.attacker_side, front, sdb, set.round);
        },
        None => {},
    }
    let damage = spread_damage(spread, true);
    let hp = hit_combatant(set.attacker_side, set.target_side, damage, false, front, events, DamageType::Fixed);
    let reaction = hit_backline(spread, set, rules, edb, sdb, rdb, attacker, back, events);
    (hp, reaction)
}

fn wind_hit_exec(
    e: &SkillEffect,
    power: i32,
    with_context: bool,
    had_aura: Vec<ElementType>,
    had_ids: Vec<String>,
    had_shield: bool,
    set: EffectSetting,
    rules: &BattleFormulaRules,
    edb: &ElementDb,
    sdb: &StatusDb,
    rdb: &ReactionDb,
    attacker: &mut CombatState,
    front: &mut CombatState,
    back: &mut Vec<Combatant>,
    boosts: &mut PendingBoosts,
    rng: &mut AccuracyRng,
    events: &mut Vec<BattleEvent>,
    ctx: &mut EffectResolutionContext,
)
    requires
        rules.sane(),
    ensures
        wind_of(*final(attacker), *final(front), *final(back), *final(boosts), *final(rng), *final(events), *final(ctx))
            == wind_hit(
            *e,
            power,
            env_of(set, *rules, *edb, *sdb, *rdb),
            with_context,
            had_aura@,
            strings_view(had_ids@),
            had_shield,
            wind_of(*old(attacker), *old(front), *old(back), *old(boosts), *old(rng), *old(events), *old(ctx)),
        ),
        final(back)@.len() == old(back)@.len(),
{
    let ghost env = env_of(set, *rules, *edb, *sdb, *rdb);
    let p = boosts.side_mut(set.attacker_side);
    let boosted = to_i32_sat(power as i64 + p.next_attack_bonus as i64);
    p.next_attack_bonus = 0;
    proof {
        let p0 = old(boosts).of(set.attacker_side);
        let want = set_boost(*old(boosts), set.attacker_side, PendingBoost { next_attack_bonus: 0, ..p0 });
        assert(boosts.of(set.attacker_side) == want.of(set.attacker_side));
        assert(*boosts == want);
    }
    let (_atk, _def, raw) = scaled_damage_after_defense(boosted, &attacker.stats, &front.stats, rules);
    let defender = match front.aura.primary() {
        Some(x) => x,
        None => set.target_element,
    };
    let eff = edb.get_effectiveness(ElementType::Wind, defender);
    let direct = final_damage(raw, eff, rules);
    let direct_hp = hit_combatant(set.attacker_side, set.target_side, direct, false, front, events, DamageType::Direct);
    let ghost w2 = wind_of(*attacker, *front, *back, *boosts, *rng, *events, *ctx);
    match select_spread_element(&front.aura, &front.statuses) {
        None => {
            if with_context {
                let fainted = front.stats.hp <= 0;
                record_attack(ctx, had_aura, had_ids, had_shield, direct_hp, fainted, None, true);
                ctx.last_wind_spread_succeeded = false;
                resolve_follow(e, set, rules, edb, sdb, rdb, attacker, front, boosts, rng, events, ctx);
            }
            let aura_now = front.aura.elements();
            emit(
                events,
                BattleEvent::WindSpreadSkipped {
                    source: set.attacker_side,
                    target: set.target_side,
                    aura: aura_now,
                },
            );
        },
        Some(spread) => {
            let (front_hp, reaction) = spread_exec(
                spread,
                set,
                rules,
                edb,
                sdb,
                rdb,
                attacker,
                front,
                back,
                boosts,
                rng,
                events,
                ctx,
            );
            if with_context {
                let total = to_i32_sat(direct_hp as i64 + front_hp as i64);
                let fainted = front.stats.hp <= 0;
                record_attack(ctx, had_aura, had_ids, had_shield, total, fainted, reaction, true);
                ctx.last_wind_spread_succeeded = true;
                resolve_follow(e, set, rules, edb, sdb, rdb, attacker, front, boosts, rng, events, ctx);
            }
        },
    }
}

/// Resolves a special wind skill used by `attacker_side` on the front combatant of `target_side`
/// (own element `front_element`), spreading to the `back` line (see `run_wind`). The context is
/// kept and the skill's follow-up effects run only `with_context`.
pub fn apply_wind_effect(
    skill: &SkillDef,
    attacker_side: Side,
    target_side: Side,
    front_element: ElementType,
    attacker: &mut CombatState,
    front: &mut CombatState,
    back: &mut Vec<Combatant>,
    pending_boosts: &mut PendingBoosts,
    formula_rules: &BattleFormulaRules,
    accuracy_rng: &mut AccuracyRng,
    element_db: &ElementDb,
    status_db: &StatusDb,
    reaction_db: &ReactionDb,
    events: &mut Vec<BattleEvent>,
    round: u32,
    ctx: &mut EffectResolutionContext,
    with_context: bool,
)
    requires
        formula_rules.sane(),
    ensures
        wind_of(
            *final(attacker),
            *final(front),
            *final(back),
            *final(pending_boosts),
            *final(accuracy_rng),
            *final(events),
            *final(ctx),
        ) == run_wind(
            skill.effect,
            env_of(
                spec_setting(*skill, attacker_side, target_side, front_element, round),
                *formula_rules,
                *element_db,
                *status_db,
                *reaction_db,
            ),
            with_context,
            wind_of(
                *old(attacker),
                *old(front),
                *old(back),
                *old(pending_boosts),
                *old(accuracy_rng),
                *old(events),
                *old(ctx),
            ),
        ),
        final(back)@.len() == old(back)@.len(),
{
    proof {
        reveal(run_wind);
    }
    let set = EffectSetting::of_skill(skill, attacker_side, target_side, front_element, round);
    let had_aura = front.aura.elements();
    let had_ids = status_id_list(front);
    let had_shield = front.shield.0 > 0;
    let hit = attack_hits(
        set.base_accuracy,
        attacker_side,
        target_side,
        &attacker.stats,
        front,
        formula_rules,
        accuracy_rng,
        events,
    );
    if !hit {
        if with_context {
            record_attack(ctx, had_aura, had_ids, had_shield, 0, false, None, false);
            ctx.last_wind_spread_succeeded = false;
            resolve_follow(
                &skill.effect,
                set,
                formula_rules,
                element_db,
                status_db,
                reaction_db,
                attacker,
                front,
                pending_boosts,
                accuracy_rng,
                events,
                ctx,
            );
        }
        return;
    }
    match primary_attack_effect(&skill.effect) {
        Some(SkillEffect::Attack { power, .. }) => {
            wind_hit_exec(
                &skill.effect,
                *power,
                with_context,
                had_aura,
                had_ids,
                had_shield,
                set,
                formula_rules,
                element_db,
                status_db,
                reaction_db,
                attacker,
                front,
                back,
                pending_boosts,
                accuracy_rng,
                events,
                ctx,
            );
        },
        _ => {},
    }
}

} // verus!
