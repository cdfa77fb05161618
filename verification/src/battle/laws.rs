//! Properties of the battle rules that hold across calls and for every input.
use vstd::multiset::Multiset;
use vstd::prelude::*;

use super::cards::{spec_draw_n, spec_draw_one, spec_gain, ActionPoints, CardRules, PendingTacticalDiscard};
use super::combat::{defending_element, element_hit, fixed_hit, EffectEnv, SceneView};
use super::controls::{finalize_step, spec_player_step, RemoteLink, TurnInput, TurnStep, TurnView};
use super::damage::{spec_absorbed, spec_hp_damage, spec_hp_healed, with_hp};
use super::flow::{
    spec_check_end, spec_first_side, spec_resolve_ko, switch_in, PendingKoResolution, RoundOrder, TeamView,
    TurnContext,
};
use super::formula::{
    spec_clamped_stage, spec_damage_after_defense, spec_scale_staged, spec_effective_acc, spec_effective_atk, spec_effective_def,
    spec_effective_spd, spec_final_damage,
};
use super::model::{aura_elems, CombatView, ElementAura, Stats};
use super::reaction::{attach_candidate, attach_hp_damage, attach_reaction_name, first_reaction, spec_reaction_matches};
use super::effects::{aura_turns, spec_select_spread};
use super::status::spec_has_status;
use super::model::{DamageType, spec_opposite, EventView, PendingBoosts, Side, StatusView};
use super::ticks::{round_end_board, tick_all, tick_damage, tick_status, TickView};
use super::combat::{run_effect, run_seq};
use super::effects::spec_attack_hits;
use super::turn::{spec_switch_in_turn, spec_use_skill, SwitchOutcome};
use crate::data::cards::{CardDef, CardId};
use crate::data::{
    SkillEffect, spec_shield_blocks_attachment, BattleFormulaRules, ElementDb, ElementType, ReactionDb, ReactionDef,
    SkillDef, StatusDb,
};
use crate::arith::{abs_int, max_int, min_int, round_div, sat_i32};
use crate::game_state::BattlePhase;

verus! {

/// On equal effective speed the side that acts first alternates from round to round (the
/// player in the first round): with both rounds tied, the second round's first side is the
/// other one than the first round's.
pub proof fn law_tied_speed_alternates_first(spd1: int, spd2: int, previous: Option<Side>)
    ensures
        spec_first_side(spd1, spd1, None) == Side::Player,
        spec_first_side(spd2, spd2, Some(spec_first_side(spd1, spd1, previous)))
            == spec_opposite(spec_first_side(spd1, spd1, previous)),
        spec_first_side(spd2, spd2, Some(spec_first_side(spd1, spd1, previous)))
            != spec_first_side(spd1, spd1, previous),
{
}

/// A shield takes a hit first: what it absorbs and the HP damage left add up to the hit, it
/// absorbs no more than it holds, and a shield at least as large as the hit leaves no HP damage.
pub proof fn law_shield_absorbs_first(shield: int, amount: int)
    requires
        shield >= 0,
        0 <= amount <= i32::MAX,
    ensures
        spec_absorbed(shield, amount) + spec_hp_damage(shield, amount) == amount,
        0 <= spec_absorbed(shield, amount) <= shield,
        shield >= amount ==> spec_hp_damage(shield, amount) == 0,
{
}

/// Healing never raises HP above the maximum, and a heal that is not negative never lowers HP.
pub proof fn law_heal_capped(hp: int, max_hp: int, heal: int)
    requires
        i32::MIN <= hp <= max_hp <= i32::MAX,
        0 <= heal <= i32::MAX,
    ensures
        spec_hp_healed(hp, max_hp, heal) <= max_hp,
        hp <= spec_hp_healed(hp, max_hp, heal),
{
}

/// AP never falls below zero, whatever is gained or paid.
pub proof fn law_ap_never_negative(ap: int, amount: int)
    ensures
        spec_gain(ap, amount) >= 0,
{
}

proof fn lemma_tick_status_keeps_down(t: TickView, e: StatusView, side: Side, m: int)
    requires
        t.stats.hp <= 0,
    ensures
        tick_status(t, e, side, m).stats.hp <= 0,
{
}

proof fn lemma_tick_status_caps(t: TickView, e: StatusView, side: Side, m: int)
    requires
        0 <= t.stats.max_hp,
        t.stats.hp <= t.stats.max_hp,
    ensures
        tick_status(t, e, side, m).stats.hp <= t.stats.max_hp,
        tick_status(t, e, side, m).stats == with_hp(t.stats, tick_status(t, e, side, m).stats.hp as int),
{
}

/// The action-end ticks of a combatant's statuses never bring a fainted combatant back, never
/// raise HP above a (non-negative) maximum, and then change no stat but HP.
pub proof fn law_ticks_never_revive(t: TickView, b: Seq<StatusView>, side: Side, multiplier: int)
    ensures
        t.stats.hp <= 0 ==> tick_all(t, b, side, multiplier).stats.hp <= 0,
        0 <= t.stats.max_hp && t.stats.hp <= t.stats.max_hp ==> tick_all(t, b, side, multiplier).stats.hp
            <= t.stats.max_hp,
        0 <= t.stats.max_hp && t.stats.hp <= t.stats.max_hp ==> tick_all(t, b, side, multiplier).stats == with_hp(
            t.stats,
            tick_all(t, b, side, multiplier).stats.hp as int,
        ),
    decreases b.len(),
{
    if b.len() > 0 {
        law_ticks_never_revive(t, b.drop_last(), side, multiplier);
        let r = tick_all(t, b.drop_last(), side, multiplier);
        if t.stats.hp <= 0 {
            lemma_tick_status_keeps_down(r, b.last(), side, multiplier);
        }
        if 0 <= t.stats.max_hp && t.stats.hp <= t.stats.max_hp {
            lemma_tick_status_caps(r, b.last(), side, multiplier);
        }
    }
}

/// The count down at the end of a full round spares the statuses applied in that round: each
/// one stays, unchanged.
pub proof fn law_round_end_spares_fresh_statuses(b: Seq<StatusView>, round: u32)
    ensures
        forall|i: int| 0 <= i < b.len() && b[i].applied_round >= round ==> round_end_board(b, round).contains(b[i]),
        round_end_board(b, round).len() <= b.len(),
    decreases b.len(),
{
    if b.len() > 0 {
        law_round_end_spares_fresh_statuses(b.drop_last(), round);
        let rest = round_end_board(b.drop_last(), round);
        assert forall|i: int| 0 <= i < b.len() && b[i].applied_round >= round implies round_end_board(b, round).contains(b[i]) by {
            if i < b.len() - 1 {
                assert(b[i] == b.drop_last()[i]);
                let j = choose|j: int| 0 <= j < rest.len() && rest[j] == b[i];
                if !super::ticks::expires(b.last(), round) {
                    assert(rest.push(super::ticks::counted_down(b.last(), round))[j] == b[i]);
                }
            } else {
                let out = rest.push(super::ticks::counted_down(b.last(), round));
                assert(out[rest.len() as int] == b[i]);
            }
        }
    }
}

/// The cards drawn come from the top of the draw pile, in order, while it holds enough.
pub proof fn law_draw_from_top(draw: Seq<CardId>, discard: Seq<CardId>, deck: Seq<CardId>, n: nat)
    requires
        n <= draw.len(),
    ensures
        spec_draw_n(draw, discard, deck, n) == (draw.subrange(n as int, draw.len() as int), discard, draw.subrange(0, n as int)),
    decreases n,
{
    if n > 0 {
        law_draw_from_top(draw, discard, deck, (n - 1) as nat);
        let rest = draw.subrange((n - 1) as int, draw.len() as int);
        assert(rest.drop_first() =~= draw.subrange(n as int, draw.len() as int));
        assert(draw.subrange(0, (n - 1) as int).push(rest[0]) =~= draw.subrange(0, n as int));
    }
}

/// All the cards of the two piles and of what was drawn, counted with their copies.
pub open spec fn cards_in_play(draw: Seq<CardId>, discard: Seq<CardId>, drawn: Seq<CardId>) -> Multiset<CardId> {
    draw.to_multiset().add(discard.to_multiset()).add(drawn.to_multiset())
}

proof fn lemma_draw_one_keeps_cards(draw: Seq<CardId>, discard: Seq<CardId>, deck: Seq<CardId>, drawn: Seq<CardId>)
    requires
        draw.len() + discard.len() >= 1,
    ensures
        ({
            let x = spec_draw_one(draw, discard, deck);
            &&& x.2 is Some
            &&& cards_in_play(x.0, x.1, drawn.push(x.2->0)) == cards_in_play(draw, discard, drawn)
            &&& x.0.len() + x.1.len() == draw.len() + discard.len() - 1
        }),
{
    broadcast use vstd::multiset::group_multiset_axioms, vstd::seq_lib::group_to_multiset_ensures;

    let x = spec_draw_one(draw, discard, deck);
    if draw.len() > 0 {
        assert(draw.remove(0) =~= draw.drop_first());
        assert(cards_in_play(x.0, x.1, drawn.push(x.2->0)) =~= cards_in_play(draw, discard, drawn));
    } else {
        assert(discard.remove(0) =~= discard.drop_first());
        assert(x.1 =~= Seq::<CardId>::empty());
        assert(cards_in_play(x.0, x.1, drawn.push(x.2->0)) =~= cards_in_play(draw, discard, drawn));
    }
}

/// While the two piles hold enough cards, drawing loses and makes none: the piles and the cards
/// drawn hold together what the piles held before.
pub proof fn law_draw_keeps_cards(draw: Seq<CardId>, discard: Seq<CardId>, deck: Seq<CardId>, n: nat)
    requires
        n <= draw.len() + discard.len(),
    ensures
        ({
            let d = spec_draw_n(draw, discard, deck, n);
            &&& cards_in_play(d.0, d.1, d.2) == cards_in_play(draw, discard, Seq::empty())
            &&& d.2.len() == n
            &&& d.0.len() + d.1.len() == draw.len() + discard.len() - n
        }),
    decreases n,
{
    if n > 0 {
        law_draw_keeps_cards(draw, discard, deck, (n - 1) as nat);
        let p = spec_draw_n(draw, discard, deck, (n - 1) as nat);
        lemma_draw_one_keeps_cards(p.0, p.1, deck, p.2);
    }
}

/// The end-of-round check goes to the knock-out resolution exactly when a front member has no
/// HP left; otherwise no knock-out stays pending.
pub proof fn law_check_end_on_faint(
    player: TeamView,
    enemy: TeamView,
    pending: PendingKoResolution,
    round: u32,
    events: Seq<EventView>,
)
    ensures
        (spec_check_end(player, enemy, pending, round, events).4 == BattlePhase::DeathResolve) == (
        player.active_hp() <= 0 || enemy.active_hp() <= 0),
        !(player.active_hp() <= 0 || enemy.active_hp() <= 0) ==> spec_check_end(
            player,
            enemy,
            pending,
            round,
            events,
        ).2.is_clear(),
{
}

/// A defeat ends the battle even when a phase was waiting to resume, and leaves nothing to
/// resume; without a defeat the battle goes on.
pub proof fn law_defeat_ends_battle(
    player: TeamView,
    enemy: TeamView,
    pending: PendingKoResolution,
    turn: TurnContext,
    order: RoundOrder,
    events: Seq<EventView>,
)
    ensures
        (spec_resolve_ko(player, enemy, pending, turn, order, events).4 is Finished) == (pending.player_defeated
            || pending.enemy_defeated),
        spec_resolve_ko(player, enemy, pending, turn, order, events).2.resume_phase is None,
{
}

/// A switch keeps the team's roster: the same members, with the same names, sides, elements
/// and skills; when it happens the chosen member, which has HP left, is in front.
pub proof fn law_switch_keeps_roster(t: TeamView, idx: int)
    requires
        t.has_active(),
        0 <= idx < t.members.len(),
    ensures
        ({
            let r = switch_in(t, idx);
            &&& r.0.members.len() == t.members.len()
            &&& forall|j: int| 0 <= j < t.members.len() ==> {
                &&& #[trigger] r.0.members[j].name == t.members[j].name
                &&& r.0.members[j].side == t.members[j].side
                &&& r.0.members[j].element == t.members[j].element
                &&& r.0.members[j].skills == t.members[j].skills
            }
            &&& r.1 ==> r.0.active == idx && t.members[idx].state.stats.hp > 0
            &&& !r.1 ==> r.0 == t
        }),
{
}

/// A skill that is refused (no skill, no use left, or not enough AP) changes nothing.
pub proof fn law_refused_skill_changes_nothing(
    side: Side,
    slot: usize,
    own: TeamView,
    foe: TeamView,
    skills: Seq<SkillDef>,
    ap: ActionPoints,
    boosts: PendingBoosts,
    rng: u64,
    pending: PendingKoResolution,
    events: Seq<EventView>,
    rules: BattleFormulaRules,
    edb: ElementDb,
    sdb: StatusDb,
    rdb: ReactionDb,
    round: u32,
)
    ensures
        ({
            let s = spec_use_skill(side, slot, own, foe, skills, ap, boosts, rng, pending, events, rules, edb, sdb, rdb, round);
            s.0 is Err ==> s == (s.0, own, foe, ap, boosts, rng, pending, events)
        }),
{
}

/// The player cannot end a turn while holding more cards than may be kept: the end key is
/// refused and nothing changes.
pub proof fn law_full_hand_blocks_end_turn(
    link: RemoteLink,
    i: TurnInput,
    v: TurnView,
    tactical: Option<PendingTacticalDiscard>,
    order: RoundOrder,
    skills: Seq<SkillDef>,
    cards: Seq<CardDef>,
    rules: CardRules,
    formula_rules: BattleFormulaRules,
    edb: ElementDb,
    sdb: StatusDb,
    rdb: ReactionDb,
    round: u32,
)
    requires
        link != RemoteLink::Waiting,
        !v.turn.player_ended,
        v.player.has_active(),
        v.enemy.has_active(),
        i.switch_to is None,
        i.ui_skill is None,
        !(tactical is Some && tactical->0.side == Side::Player),
        i.end_turn,
        v.player_hand.len() > rules.max_retained_hand,
    ensures
        spec_player_step(link, i, v, tactical, order, skills, cards, rules, formula_rules, edb, sdb, rdb, round) == (
        TurnStep::HandFull,
        v,
        ),
{
}

/// Ending a turn with the front member still standing leads to the forced discard exactly when
/// the side holds more cards than it may keep; either way the side's turn is over.
pub proof fn law_turn_end_discards_excess(side: Side, v: TurnView, rules: CardRules, order: RoundOrder)
    ensures
        ({
            let r = finalize_step(side, v, rules, order);
            &&& (r.0 is Discard && r.1.team(side).active_hp() > 0) == (r.1.team(side).active_hp() > 0
                && v.held(side).len() > rules.max_retained_hand)
            &&& match side {
                Side::Player => r.1.turn.player_ended,
                Side::Enemy => r.1.turn.enemy_ended,
            }
        }),
{
}

/// An elemental hit that a shield absorbs in part attaches nothing and fires no reaction: the
/// target keeps its aura and statuses, the attacker is untouched, only damage is reported, and
/// no reaction is recorded.
pub proof fn law_shield_blocks_attachment(
    incoming: ElementType,
    raw: int,
    lifesteal: Option<i32>,
    had_aura: Seq<ElementType>,
    had_ids: Seq<Seq<char>>,
    had_shield: bool,
    env: EffectEnv,
    s: SceneView,
)
    requires
        spec_shield_blocks_attachment(
            s.target.shield as int,
            spec_final_damage(
                raw,
                env.elements.effectiveness(incoming, defending_element(s.target, env.set.target_element)),
                env.rules,
            ),
        ),
    ensures
        ({
            let r = element_hit(incoming, raw, lifesteal, false, had_aura, had_ids, had_shield, env, s);
            &&& r.target.aura == s.target.aura
            &&& r.target.statuses == s.target.statuses
            &&& r.attacker == s.attacker
            &&& r.ctx.last_reaction_name is None
            &&& forall|i: int| s.events.len() <= i < r.events.len() ==> (#[trigger] r.events[i] is ShieldAbsorbed
                || r.events[i] is DamageDealt)
        }),
{
    let set = env.set;
    let dmg = spec_final_damage(raw, env.elements.effectiveness(incoming, set.target_element), env.rules);
    let h = fixed_hit(s.target, set.attacker_side, set.target_side, dmg, false, s.events, DamageType::Direct);
    let absorbed = spec_absorbed(s.target.shield as int, dmg);
    let e1 = if absorbed > 0 {
        s.events.push(EventView::ShieldAbsorbed { side: set.target_side, amount: absorbed as i32 })
    } else {
        s.events
    };
    assert(h.1 == e1.push(
        EventView::DamageDealt {
            source: set.attacker_side,
            target: set.target_side,
            amount: spec_hp_damage(s.target.shield as int, dmg) as i32,
            kind: DamageType::Direct,
        },
    ));
}

/// A damage tick of `d > 0` takes the shield first: the shield loses what it absorbs,
/// `min(shield, d)`, and HP loses the rest (never below zero).
pub proof fn law_tick_damage_shield_first(t: TickView, d: int, side: Side)
    requires
        t.shield >= 0,
        0 < d <= i32::MAX,
        0 <= t.stats.hp,
    ensures
        ({
            let r = tick_damage(t, d, side);
            let absorbed = min_int(t.shield, d);
            &&& r.shield == t.shield - absorbed
            &&& r.stats.hp == max_int(t.stats.hp - (d - absorbed), 0)
        }),
{
}

proof fn lemma_tick_status_bounds(t: TickView, e: StatusView, side: Side, m: int)
    requires
        0 <= t.stats.hp <= t.stats.max_hp,
        t.shield >= 0,
        m >= 0,
    ensures
        ({
            let r = tick_status(t, e, side, m);
            &&& 0 <= r.stats.hp <= t.stats.max_hp
            &&& r.stats.max_hp == t.stats.max_hp
            &&& 0 <= r.shield <= t.shield
            &&& t.stats.hp == 0 ==> r.stats.hp == 0
        }),
{
    let t1 = if e.fixed_damage_on_tick > 0 {
        tick_damage(t, e.fixed_damage_on_tick as int, side)
    } else {
        t
    };
    if e.heal_on_tick > 0 {
        let raw = sat_i32(e.heal_on_tick + t1.bonus);
        if raw > 0 && t1.stats.hp > 0 {
            assert(raw * m >= 0) by (nonlinear_arith)
                requires
                    raw > 0,
                    m >= 0,
            ;
        }
    }
}

/// The action-end ticks of a combatant whose HP lies between zero and its maximum, whose shield
/// is not negative and whose heal-taken multiplier is not negative: HP stays between zero and the
/// maximum, the shield only shrinks and stays not negative, a combatant at zero HP stays at zero,
/// and every damage tick takes the shield first (see `law_tick_damage_shield_first`); the aura is
/// left as it is (see `process_side_end_statuses`).
pub proof fn law_side_end_ticks(t: TickView, b: Seq<StatusView>, side: Side, multiplier: int)
    requires
        0 <= t.stats.hp <= t.stats.max_hp,
        t.shield >= 0,
        multiplier >= 0,
    ensures
        ({
            let r = tick_all(t, b, side, multiplier);
            &&& 0 <= r.stats.hp <= t.stats.max_hp
            &&& 0 <= r.shield <= t.shield
            &&& t.stats.hp == 0 ==> r.stats.hp == 0
            &&& r.stats == with_hp(t.stats, r.stats.hp as int)
        }),
    decreases b.len(),
{
    law_ticks_never_revive(t, b, side, multiplier);
    if b.len() > 0 {
        law_side_end_ticks(t, b.drop_last(), side, multiplier);
        let r = tick_all(t, b.drop_last(), side, multiplier);
        lemma_tick_status_bounds(r, b.last(), side, multiplier);
    }
}

/// A sequence whose leading attack misses stops there: nothing after the attack runs, the miss is
/// reported, no damage is done and the attack is recorded as unresolved.
pub proof fn law_missed_attack_stops_sequence(es: Seq<SkillEffect>, env: EffectEnv, s: SceneView)
    requires
        es.len() > 0,
        es[0] is Attack,
        !spec_attack_hits(
            s.attacker.stats,
            env.set.base_accuracy,
            s.target,
            env.rules,
            s.rng,
            s.events,
            env.set.attacker_side,
            env.set.target_side,
        ).0,
    ensures
        ({
            let r = run_seq(es, env, s, 0);
            &&& r == run_effect(es[0], env, s)
            &&& !r.ctx.last_attack_resolved
            &&& r.ctx.last_hp_damage == 0
            &&& r.attacker == s.attacker
            &&& r.target.stats == s.target.stats
            &&& r.target.shield == s.target.shield
            &&& r.events.last() == (EventView::AttackMissed { source: env.set.attacker_side, target: env.set.target_side })
        }),
{
    reveal(run_effect);
    let h = spec_attack_hits(
        s.attacker.stats,
        env.set.base_accuracy,
        s.target,
        env.rules,
        s.rng,
        s.events,
        env.set.attacker_side,
        env.set.target_side,
    );
    assert(h.1.stats == s.target.stats && h.1.shield == s.target.shield);
}

/// An elemental hit that a shield absorbs in part is scaled by the element against the target's
/// own element (not against an attached aura), and lands through the shield.
pub proof fn law_shield_blocked_hit_uses_own_element(
    incoming: ElementType,
    raw: int,
    lifesteal: Option<i32>,
    had_aura: Seq<ElementType>,
    had_ids: Seq<Seq<char>>,
    had_shield: bool,
    env: EffectEnv,
    s: SceneView,
)
    requires
        spec_shield_blocks_attachment(
            s.target.shield as int,
            spec_final_damage(
                raw,
                env.elements.effectiveness(incoming, defending_element(s.target, env.set.target_element)),
                env.rules,
            ),
        ),
    ensures
        ({
            let r = element_hit(incoming, raw, lifesteal, false, had_aura, had_ids, had_shield, env, s);
            let dmg = spec_final_damage(raw, env.elements.effectiveness(incoming, env.set.target_element), env.rules);
            let h = fixed_hit(s.target, env.set.attacker_side, env.set.target_side, dmg, false, s.events, DamageType::Direct);
            &&& r.target == h.0
            &&& r.events == h.1
        }),
{
}

/// A switch that does not happen (no such member, the member already in front, no AP, or a
/// member without HP) changes nothing.
pub proof fn law_refused_switch_changes_nothing(side: Side, target: usize, team: TeamView, ap: ActionPoints, events: Seq<EventView>)
    ensures
        ({
            let r = spec_switch_in_turn(side, target, team, ap, events);
            r.0 != SwitchOutcome::Switched ==> r == (r.0, team, ap, events)
        }),
{
}


/// Without stages a combatant's effective stats are its own: attack (at least 1), defence (not
/// negative) and speed (at least 1) as they stand.
pub proof fn law_unstaged_stats_are_plain(stats: Stats, rules: BattleFormulaRules)
    requires
        rules.sane(),
        rules.attribute_stage_bounds.min <= 0 <= rules.attribute_stage_bounds.max,
    ensures
        stats.atk_stage == 0 && stats.atk >= 1 ==> spec_effective_atk(stats, rules) == stats.atk,
        stats.def_stage == 0 && stats.def >= 0 ==> spec_effective_def(stats, rules) == stats.def,
        stats.spd_stage == 0 && stats.spd >= 1 ==> spec_effective_spd(stats, rules) == stats.spd,
{
    let a = stats.atk as int;
    let d = stats.def as int;
    if a >= 0 {
        assert((2 * (a * 2) + 2) / 4 == a) by (nonlinear_arith) requires a >= 0;
        assert(round_div(a * 2, 2) == a);
    }
    if d >= 0 {
        assert((2 * (d * 2) + 2) / 4 == d) by (nonlinear_arith) requires d >= 0;
        assert(round_div(d * 2, 2) == d);
    }
}

/// The damage of an attack is never below the configured minimum, and defence is subtracted one
/// for one: while both results stay above the minimum (and below the `i32` ceiling), a target
/// with `d` more effective defence takes exactly `d` less damage.
pub proof fn law_defense_lowers_damage(
    power: int,
    attacker: Stats,
    t1: Stats,
    t2: Stats,
    rules: BattleFormulaRules,
)
    requires
        rules.sane(),
    ensures
        spec_damage_after_defense(power, attacker, t1, rules) >= rules.damage.min_damage,
        ({
            let d1 = spec_damage_after_defense(power, attacker, t1, rules);
            let d2 = spec_damage_after_defense(power, attacker, t2, rules);
            (rules.damage.min_damage < d1 < i32::MAX && rules.damage.min_damage < d2 < i32::MAX)
                ==> d1 - d2 == spec_effective_def(t2, rules) - spec_effective_def(t1, rules)
        }),
{
}

/// At power 10 an attack hits for its effective attack: while both results stay above the
/// minimum (and below the `i32` ceiling), an attacker with `a` more effective attack deals
/// exactly `a` more damage to the same target.
pub proof fn law_attack_raises_damage(a1: Stats, a2: Stats, target: Stats, rules: BattleFormulaRules)
    requires
        rules.sane(),
    ensures
        ({
            let d1 = spec_damage_after_defense(10, a1, target, rules);
            let d2 = spec_damage_after_defense(10, a2, target, rules);
            (rules.damage.min_damage < d1 < i32::MAX && rules.damage.min_damage < d2 < i32::MAX)
                ==> d1 - d2 == spec_effective_atk(a1, rules) - spec_effective_atk(a2, rules)
        }),
{
    let x1 = spec_effective_atk(a1, rules);
    let x2 = spec_effective_atk(a2, rules);
    assert(x1 >= 1 && x2 >= 1);
    assert(round_div(x1 * 10, 10) == x1) by (nonlinear_arith) requires x1 >= 1;
    assert(round_div(x2 * 10, 10) == x2) by (nonlinear_arith) requires x2 >= 1;
    assert(max_int(10, 0) == 10);
}

/// A skill's base accuracy scales the hit chance: a skill without one counts as `1000`; while two
/// hit chances lie strictly inside the configured range they differ by the attacker's accuracy
/// times the difference of the base accuracies; and (for a non-negative accuracy) a skill with a
/// lower base accuracy never has a higher hit chance.
pub proof fn law_base_accuracy_scales_hit_chance(stats: Stats, b1: i32, b2: i32, rules: BattleFormulaRules)
    requires
        rules.sane(),
    ensures
        spec_effective_acc(stats, None, rules) == spec_effective_acc(stats, Some(1000i32), rules),
        ({
            let v1 = spec_effective_acc(stats, Some(b1), rules);
            let v2 = spec_effective_acc(stats, Some(b2), rules);
            let lo = rules.accuracy.min * 100;
            let hi = rules.accuracy.max * 100;
            &&& (lo < v1 < hi && lo < v2 < hi) ==> v2 - v1 == stats.acc * (b2 - b1)
            &&& (stats.acc >= 0 && b1 <= b2) ==> v1 <= v2
        }),
{
    let a = stats.acc as int;
    assert(a * b2 - a * b1 == a * (b2 - b1)) by (nonlinear_arith);
    if a >= 0 && b1 <= b2 {
        assert(a * b1 <= a * b2) by (nonlinear_arith) requires a >= 0, b1 <= b2;
    }
}

/// Each accuracy stage within the bounds adds the configured step: one stage more raises the hit
/// chance by `stage_step * 100` while both chances lie strictly inside the configured range.
pub proof fn law_accuracy_stage_step(stats: Stats, base_accuracy: Option<i32>, rules: BattleFormulaRules)
    requires
        rules.sane(),
        rules.attribute_stage_bounds.min <= stats.acc_stage < rules.attribute_stage_bounds.max,
    ensures
        ({
            let up = Stats { acc_stage: (stats.acc_stage + 1) as i32, ..stats };
            let v1 = spec_effective_acc(stats, base_accuracy, rules);
            let v2 = spec_effective_acc(up, base_accuracy, rules);
            let lo = rules.accuracy.min * 100;
            let hi = rules.accuracy.max * 100;
            (lo < v1 < hi && lo < v2 < hi) ==> v2 - v1 == rules.accuracy.stage_step * 100
        }),
{
    let s = stats.acc_stage as int;
    let st = rules.accuracy.stage_step as int;
    assert((s + 1) * st * 100 - s * st * 100 == st * 100) by (nonlinear_arith);
}

/// Effective speed is at least 1, and each speed stage within the bounds adds 2: one stage more
/// raises effective speed by exactly 2 while it stays within `i32`.
pub proof fn law_speed_stage_adds_two(stats: Stats, rules: BattleFormulaRules)
    requires
        rules.sane(),
    ensures
        spec_effective_spd(stats, rules) >= 1,
        ({
            let s = stats.spd_stage as int;
            let up = Stats { spd_stage: (s + 1) as i32, ..stats };
            (rules.attribute_stage_bounds.min <= s < rules.attribute_stage_bounds.max && stats.spd + 2 * s >= 1
                && stats.spd + 2 * (s + 1) <= i32::MAX) ==> spec_effective_spd(up, rules) == spec_effective_spd(
                stats,
                rules,
            ) + 2
        }),
{
}


/// The reaction an element fires is the first of the database whose conditions all hold: its
/// trigger is the incoming element, every required element other than the incoming one is
/// already attached, and every required status is present; when no reaction's conditions hold,
/// none fires.
pub proof fn law_reaction_needs_attached_elements(
    rs: Seq<ReactionDef>,
    auras: Seq<ElementType>,
    st: Seq<StatusView>,
    incoming: ElementType,
)
    ensures
        ({
            let i = first_reaction(rs, auras, st, incoming);
            &&& -1 <= i < rs.len()
            &&& i >= 0 ==> {
                let req = rs[i].required_elements@;
                &&& spec_reaction_matches(rs[i], auras, st, incoming)
                &&& rs[i].trigger_element == incoming
                &&& forall|k: int| 0 <= k < req.len() && req[k] != incoming ==> auras.contains(#[trigger] req[k])
                &&& forall|j: int|
                    0 <= j < rs[i].required_statuses@.len() ==> spec_has_status(
                        st,
                        #[trigger] rs[i].required_statuses@[j]@,
                    )
                &&& forall|j: int| 0 <= j < i ==> !spec_reaction_matches(#[trigger] rs[j], auras, st, incoming)
            }
            &&& i == -1 ==> forall|j: int| 0 <= j < rs.len() ==> !spec_reaction_matches(#[trigger] rs[j], auras, st, incoming)
        }),
    decreases rs.len(),
{
    if rs.len() > 0 {
        let p = rs.drop_last();
        law_reaction_needs_attached_elements(p, auras, st, incoming);
        let i = first_reaction(rs, auras, st, incoming);
        assert forall|j: int| 0 <= j < rs.len() - 1 implies rs[j] == p[j] by {}
        if first_reaction(p, auras, st, incoming) >= 0 {
            assert(rs[i] == p[i]);
        } else if i >= 0 {
            assert(rs[i] == rs.last());
        }
    }
}

/// An element hitting a target with nothing attached fires no reaction that needs another
/// element: where every reaction of the database requires some element other than the incoming
/// one, no reaction fires, the reaction does no damage, and an element that can attach becomes
/// the target's only aura.
pub proof fn law_no_reaction_without_partner(
    target: CombatView,
    incoming: ElementType,
    source: Side,
    sdb: StatusDb,
    rdb: ReactionDb,
    round: u32,
)
    requires
        aura_elems(target.aura).len() == 0,
        forall|i: int|
            #![trigger rdb.reactions@[i]]
            0 <= i < rdb.reactions@.len() ==> exists|k: int|
                0 <= k < rdb.reactions@[i].required_elements@.len()
                    && #[trigger] rdb.reactions@[i].required_elements@[k] != incoming,
    ensures
        attach_reaction_name(target, incoming, rdb) is None,
        attach_hp_damage(target, incoming, source, sdb, rdb, round) == 0,
        (incoming == ElementType::Fire || incoming == ElementType::Water || incoming == ElementType::Grass
            || incoming == ElementType::Thunder) ==> attach_candidate(
            aura_elems(target.aura),
            incoming,
            target.statuses,
            rdb,
        ) == seq![incoming],
{
    let from = aura_elems(target.aura);
    law_reaction_needs_attached_elements(rdb.reactions@, from, target.statuses, incoming);
    let i = first_reaction(rdb.reactions@, from, target.statuses, incoming);
    if i >= 0 {
        let k = choose|k: int|
            0 <= k < rdb.reactions@[i].required_elements@.len()
                && #[trigger] rdb.reactions@[i].required_elements@[k] != incoming;
        assert(from.contains(rdb.reactions@[i].required_elements@[k]));
    }
    assert(seq![incoming] =~= from.push(incoming));
}

/// A wind attack spreads an element exactly when the target has fire, water or thunder attached;
/// the element it spreads is one of those three, is attached, and has a marker status with at
/// least as many turns left as each other attached candidate; a thunder-only aura spreads
/// thunder.
pub proof fn law_spread_picks_attached(aura: ElementAura, b: Seq<StatusView>)
    ensures
        ({
            let r = spec_select_spread(aura, b);
            let a = aura_elems(aura);
            &&& (a.contains(ElementType::Fire) || a.contains(ElementType::Water) || a.contains(ElementType::Thunder))
                <==> r is Some
            &&& r is Some ==> {
                let e = r->0;
                &&& (e == ElementType::Fire || e == ElementType::Water || e == ElementType::Thunder)
                &&& a.contains(e)
                &&& a.contains(ElementType::Fire) ==> aura_turns(ElementType::Fire, b) <= aura_turns(e, b)
                &&& a.contains(ElementType::Water) ==> aura_turns(ElementType::Water, b) <= aura_turns(e, b)
                &&& a.contains(ElementType::Thunder) ==> aura_turns(ElementType::Thunder, b) <= aura_turns(e, b)
            }
            &&& a == seq![ElementType::Thunder] ==> r == Some(ElementType::Thunder)
            &&& (a.contains(ElementType::Fire) && (a.contains(ElementType::Water) ==> aura_turns(ElementType::Water, b)
                <= aura_turns(ElementType::Fire, b)) && (a.contains(ElementType::Thunder) ==> aura_turns(
                ElementType::Thunder,
                b,
            ) <= aura_turns(ElementType::Fire, b))) ==> r == Some(ElementType::Fire)
        }),
{
    let a = aura_elems(aura);
    if a == seq![ElementType::Thunder] {
        assert(a[0] == ElementType::Thunder);
        assert(a.contains(ElementType::Thunder));
        assert(!a.contains(ElementType::Fire));
        assert(!a.contains(ElementType::Water));
    }
}


/// Stages scale a stat by `(2 + s) / 2` upwards and `2 / (2 - s)` downwards: two stages up
/// double it, two stages down halve it back, and (for a stat that is not negative) a higher stage
/// never gives less.
pub proof fn law_stages_scale_stat(base: i32, s1: int, s2: int, rules: BattleFormulaRules)
    requires
        rules.sane(),
        rules.attribute_stage_bounds.min <= -2,
        2 <= rules.attribute_stage_bounds.max,
    ensures
        spec_scale_staged(base as int, 2, rules) == sat_i32(2 * base),
        spec_scale_staged(2 * base, -2, rules) == base,
        (base >= 0 && s1 <= s2) ==> spec_scale_staged(base as int, s1, rules) <= spec_scale_staged(
            base as int,
            s2,
            rules,
        ),
{
    let b = base as int;
    assert(round_div(b * 4, 2) == 2 * b) by {
        if b >= 0 {
            assert((2 * (b * 4) + 2) / 4 == 2 * b) by (nonlinear_arith) requires b >= 0;
        } else {
            assert((2 * (-(b * 4)) + 2) / 4 == -2 * b) by (nonlinear_arith) requires b < 0;
        }
    }
    assert(round_div(2 * b * 2, 4) == b) by {
        if b >= 0 {
            assert((2 * (2 * b * 2) + 4) / 8 == b) by (nonlinear_arith) requires b >= 0;
        } else {
            assert((2 * (-(2 * b * 2)) + 4) / 8 == -b) by (nonlinear_arith) requires b < 0;
        }
    }
    if base >= 0 && s1 <= s2 {
        let c1 = spec_clamped_stage(s1, rules);
        let c2 = spec_clamped_stage(s2, rules);
        assert(c1 <= c2);
        lemma_staged_monotone(b, c1, c2);
    }
}

proof fn lemma_staged_monotone(b: int, c1: int, c2: int)
    requires
        b >= 0,
        c1 <= c2,
    ensures
        (if c1 >= 0 { round_div(b * (2 + c1), 2) } else { round_div(b * 2, 2 + abs_int(c1)) }) <= (if c2
            >= 0 {
            round_div(b * (2 + c2), 2)
        } else {
            round_div(b * 2, 2 + abs_int(c2))
        }),
{
    if c1 >= 0 {
        assert(b * (2 + c1) <= b * (2 + c2)) by (nonlinear_arith) requires b >= 0, c1 <= c2;
        assert((2 * (b * (2 + c1)) + 2) / 4 <= (2 * (b * (2 + c2)) + 2) / 4) by (nonlinear_arith)
            requires b * (2 + c1) <= b * (2 + c2);
    } else if c2 >= 0 {
        let d1 = 2 + abs_int(c1);
        assert((2 * (b * 2) + d1) / (2 * d1) <= b) by (nonlinear_arith) requires b >= 0, d1 >= 3;
        assert(b * (2 + c2) >= 2 * b) by (nonlinear_arith) requires b >= 0, c2 >= 0;
        assert((2 * (b * (2 + c2)) + 2) / 4 >= b) by (nonlinear_arith) requires b * (2 + c2) >= 2 * b;
    } else {
        let d1 = 2 + abs_int(c1);
        let d2 = 2 + abs_int(c2);
        assert(d2 <= d1);
        assert((2 * (b * 2) + d1) / (2 * d1) <= (2 * (b * 2) + d2) / (2 * d2)) by (nonlinear_arith)
            requires b >= 0, 2 <= d2 <= d1;
    }
}

/// The element multiplier (thousandths) scales a hit: a neutral multiplier leaves it as it is and
/// a double one doubles it, never below the configured minimum.
pub proof fn law_element_multiplier_scales_damage(raw: i32, rules: BattleFormulaRules)
    requires
        rules.sane(),
    ensures
        spec_final_damage(raw as int, 1000, rules) == max_int(raw as int, rules.damage.min_damage as int),
        spec_final_damage(raw as int, 2000, rules) == sat_i32(max_int(2 * raw, rules.damage.min_damage as int)),
{
    let r = raw as int;
    assert(round_div(r * 1000, 1000) == r) by {
        if r >= 0 {
            assert((2 * (r * 1000) + 1000) / 2000 == r) by (nonlinear_arith) requires r >= 0;
        } else {
            assert((2 * (-(r * 1000)) + 1000) / 2000 == -r) by (nonlinear_arith) requires r < 0;
        }
    }
    assert(round_div(r * 2000, 1000) == 2 * r) by {
        if r >= 0 {
            assert((2 * (r * 2000) + 1000) / 2000 == 2 * r) by (nonlinear_arith) requires r >= 0;
        } else {
            assert((2 * (-(r * 2000)) + 1000) / 2000 == -2 * r) by (nonlinear_arith) requires r < 0;
        }
    }
}


/// Power adds attack by tens: ten more power adds exactly the attacker's effective attack to the
/// damage while both results stay above the minimum and the attack before defence fits in `i32`,
/// and a negative power counts as none.
pub proof fn law_power_raises_damage(power: int, attacker: Stats, target: Stats, rules: BattleFormulaRules)
    requires
        rules.sane(),
    ensures
        power < 0 ==> spec_damage_after_defense(power, attacker, target, rules) == spec_damage_after_defense(
            0,
            attacker,
            target,
            rules,
        ),
        ({
            let d1 = spec_damage_after_defense(power, attacker, target, rules);
            let d2 = spec_damage_after_defense(power + 10, attacker, target, rules);
            (power >= 0 && spec_effective_atk(attacker, rules) * (power + 10) <= 10 * i32::MAX
                && rules.damage.min_damage < d1 < i32::MAX && rules.damage.min_damage < d2 < i32::MAX)
                ==> d2 - d1 == spec_effective_atk(attacker, rules)
        }),
{
    let a = spec_effective_atk(attacker, rules);
    if power >= 0 {
        assert(a * power >= 0) by (nonlinear_arith) requires a >= 1, power >= 0;
        assert(a * (power + 10) == a * power + 10 * a) by (nonlinear_arith);
        assert((2 * (a * power + 10 * a) + 10) / 20 == (2 * (a * power) + 10) / 20 + a) by (nonlinear_arith)
            requires a * power >= 0;
        assert(round_div(a * (power + 10), 10) == round_div(a * power, 10) + a);
        assert(max_int(power + 10, 0) == power + 10 && max_int(power, 0) == power);
    }
}


/// The side whose front combatant has the higher effective speed (stages counted) acts first,
/// whichever side went first before.
pub proof fn law_faster_side_first(player: Stats, enemy: Stats, previous: Option<Side>, rules: BattleFormulaRules)
    requires
        rules.sane(),
    ensures
        ({
            let p = spec_effective_spd(player, rules);
            let e = spec_effective_spd(enemy, rules);
            &&& p > e ==> spec_first_side(p, e, previous) == Side::Player
            &&& e > p ==> spec_first_side(p, e, previous) == Side::Enemy
        }),
{
}

} // verus!
