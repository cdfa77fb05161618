//! Pieces of skill resolution: targeting, hit checks, stage-shift statuses, cleansing, dispelling
//! and the choice of the element a wind skill spreads.
use vstd::prelude::*;

use super::formula::{effective_acc, spec_effective_acc};
use super::model::{
    aura_elems, aura_without, emit, events_view, BattleEvent, CombatState, CombatView,
    ElementAura, EventView, Side, StatusBoard, StatusInstance, StatusStageModifier, StatusView,
    Stats,
};
use super::reaction::{clear_status_by_id, sv_clear_status};
use super::rng::{rng_next, rng_roll, AccuracyRng};
use super::status::{
    lemma_first_index,
    find_status, first_evade_index, first_index, has_evade_charge, has_status, spec_consume_evade,
    spec_has_status, spec_recalc, spec_upsert, try_consume_evade_charge, upsert_status_instance,
};
use super::ticks::{aura_status_id, spec_aura_status_id};
use crate::arith::clamp_int;
use crate::chars::{str_eq, str_starts_with};
use crate::data::validate::is_stage_shift_id;
use crate::data::{
    AttributeStageModifier, BattleFormulaRules, EffectTarget, ElementType, SkillCategory, SkillDef,
    SkillEffect, StatusCategory, StatusTickTiming,
};

verus! {

#[derive(Debug, Clone, Copy, PartialEq, Eq, Structural)]
pub enum SkillExecutionMode {
    Standard,
    WindSpread,
}

#[derive(Debug, Clone, Copy, PartialEq, Eq, Structural)]
pub enum SkillTargetMode {
    SelfOnly,
    Opponent,
}

/// Utility skills act on their user; attacks and debuffs on the opponent.
pub open spec fn spec_target_mode(c: SkillCategory) -> SkillTargetMode {
    match c {
        SkillCategory::SelfUtility | SkillCategory::AllyUtility => SkillTargetMode::SelfOnly,
        _ => SkillTargetMode::Opponent,
    }
}

pub fn skill_target_mode(skill: &SkillDef) -> (m: SkillTargetMode)
    ensures
        m == spec_target_mode(skill.category),
{
    category_target_mode(skill.category)
}

pub fn category_target_mode(c: SkillCategory) -> (m: SkillTargetMode)
    ensures
        m == spec_target_mode(c),
{
    match c {
        SkillCategory::SelfUtility | SkillCategory::AllyUtility => SkillTargetMode::SelfOnly,
        SkillCategory::NormalAttack | SkillCategory::ElementAttack | SkillCategory::SpecialAttack
        | SkillCategory::EnemyDebuff => SkillTargetMode::Opponent,
    }
}

/// The attack that leads an effect: the effect itself when it is an attack, the lead of the first
/// effect of a sequence.
pub open spec fn spec_primary_attack(e: SkillEffect) -> Option<SkillEffect>
    decreases e,
{
    match e {
        SkillEffect::Attack { .. } => Some(e),
        SkillEffect::Sequence { effects } => if effects@.len() > 0 {
            spec_primary_attack(effects@[0])
        } else {
            None
        },
        _ => None,
    }
}

pub fn primary_attack_effect(e: &SkillEffect) -> (r: Option<&SkillEffect>)
    ensures
        match r {
            Some(a) => spec_primary_attack(*e) == Some(*a),
            None => spec_primary_attack(*e) is None,
        },
    decreases e,
{
    match e {
        SkillEffect::Attack { .. } => Some(e),
        SkillEffect::Sequence { effects } => {
            if effects.len() > 0 {
                primary_attack_effect(&effects[0])
            } else {
                None
            }
        },
        _ => None,
    }
}

/// A special wind attack spreads the target's auras; every other skill resolves normally.
pub open spec fn spec_execution_mode(skill: SkillDef) -> SkillExecutionMode {
    if skill.category == SkillCategory::SpecialAttack && skill.element == Some(ElementType::Wind)
        && spec_primary_attack(skill.effect) is Some {
        SkillExecutionMode::WindSpread
    } else {
        SkillExecutionMode::Standard
    }
}

pub fn skill_execution_mode(skill: &SkillDef) -> (m: SkillExecutionMode)
    ensures
        m == spec_execution_mode(*skill),
{
    if skill.category == SkillCategory::SpecialAttack && skill.element == Some(ElementType::Wind)
        && primary_attack_effect(&skill.effect).is_some() {
        SkillExecutionMode::WindSpread
    } else {
        SkillExecutionMode::Standard
    }
}

/// The side an effect lands on: its explicit target, else what the skill's target mode says.
pub open spec fn spec_effect_target_side(
    explicit: EffectTarget,
    fallback: SkillTargetMode,
    actor: Side,
    target: Side,
) -> Side {
    match explicit {
        EffectTarget::SelfTarget => actor,
        EffectTarget::Opponent => target,
        EffectTarget::Infer => match fallback {
            SkillTargetMode::SelfOnly => actor,
            SkillTargetMode::Opponent => target,
        },
    }
}

pub fn effect_target_side(
    explicit: EffectTarget,
    fallback: SkillTargetMode,
    actor: Side,
    target: Side,
) -> (s: Side)
    ensures
        s == spec_effect_target_side(explicit, fallback, actor, target),
{
    match explicit {
        EffectTarget::SelfTarget => actor,
        EffectTarget::Opponent => target,
        EffectTarget::Infer => match fallback {
            SkillTargetMode::SelfOnly => actor,
            SkillTargetMode::Opponent => target,
        },
    }
}

/// The hit check of a single-target attack: the hit roll against the attacker's accuracy; then,
/// when the target holds an evasion charge, an evasion roll against the target's own accuracy,
/// which on success uses up the charge. A miss or an evasion reports a missed attack.
pub open spec fn spec_attack_hits(
    attacker: Stats,
    base_accuracy: Option<i32>,
    target: CombatView,
    rules: BattleFormulaRules,
    rng: u64,
    events: Seq<EventView>,
    attacker_side: Side,
    target_side: Side,
) -> (bool, CombatView, u64, Seq<EventView>) {
    let acc = spec_effective_acc(attacker, base_accuracy, rules);
    let r1 = rng_next(rng);
    let missed = events.push(EventView::AttackMissed { source: attacker_side, target: target_side });
    if !(rng_roll(r1) <= acc) {
        (false, target, r1, missed)
    } else if first_evade_index(target.statuses) < 0 {
        (true, target, r1, events)
    } else {
        let evade = clamp_int(
            target.stats.acc * 1000,
            rules.accuracy.min * 100,
            rules.accuracy.max * 100,
        );
        let r2 = rng_next(r1);
        if !(rng_roll(r2) <= evade) {
            (true, target, r2, events)
        } else {
            (
                false,
                CombatView { statuses: spec_consume_evade(target.statuses), ..target },
                r2,
                missed,
            )
        }
    }
}

pub fn attack_hits(
    base_accuracy: Option<i32>,
    attacker_side: Side,
    target_side: Side,
    attacker: &Stats,
    target: &mut CombatState,
    rules: &BattleFormulaRules,
    rng: &mut AccuracyRng,
    events: &mut Vec<BattleEvent>,
) -> (hit: bool)
    requires
        rules.sane(),
    ensures
        ({
            let r = spec_attack_hits(
                *attacker,
                base_accuracy,
                old(target)@,
                *rules,
                old(rng).state,
                events_view(old(events)@),
                attacker_side,
                target_side,
            );
            &&& hit == r.0
            &&& final(target)@ == r.1
            &&& final(rng).state == r.2
            &&& events_view(final(events)@) == r.3
        }),
        final(target).aura == old(target).aura,
        final(target).shield == old(target).shield,
{
    let accuracy = effective_acc(attacker, base_accuracy, rules);
    let roll = rng.next_roll();
    if !((roll as i64) <= accuracy) {
        emit(events, BattleEvent::AttackMissed { source: attacker_side, target: target_side });
        return false;
    }
    if !has_evade_charge(&target.statuses) {
        return true;
    }
    let a = (target.stats.acc as i64) * 1000;
    let lo = (rules.accuracy.min as i64) * 100;
    let hi = (rules.accuracy.max as i64) * 100;
    let evade = if a < lo {
        lo
    } else if a > hi {
        hi
    } else {
        a
    };
    let evade_roll = rng.next_roll();
    if !((evade_roll as i64) <= evade) {
        return true;
    }
    let _ = try_consume_evade_charge(&mut target.statuses);
    emit(events, BattleEvent::AttackMissed { source: attacker_side, target: target_side });
    false
}

/// Decimal digits of `n`.
pub open spec fn decimal(n: nat) -> Seq<char>
    decreases n,
{
    if n < 10 {
        seq![digit_char(n)]
    } else {
        decimal(n / 10).push(digit_char(n % 10))
    }
}

pub open spec fn digit_char(d: nat) -> char {
    if d == 0 {
        '0'
    } else if d == 1 {
        '1'
    } else if d == 2 {
        '2'
    } else if d == 3 {
        '3'
    } else if d == 4 {
        '4'
    } else if d == 5 {
        '5'
    } else if d == 6 {
        '6'
    } else if d == 7 {
        '7'
    } else if d == 8 {
        '8'
    } else {
        '9'
    }
}

/// The id `prefix_n`.
pub open spec fn indexed_id(prefix: Seq<char>, n: nat) -> Seq<char> {
    prefix + seq!['_'] + decimal(n)
}

fn format_indexed_id(prefix: &str, n: u128) -> (s: String)
    requires
        n <= i128::MAX,
    ensures
        s@ == indexed_id(prefix@, n as nat),
{
    let head = super::text::concat_text(prefix, "_");
    proof {
        reveal_strlit("_");
    }
    let s = super::text::format_number_after(head.as_str(), n as i128);
    assert(s@ =~= indexed_id(prefix@, n as nat));
    s
}

/// The first index `n` in `[from, limit]` whose id `prefix_n` no status has (`limit` when all
/// below it are taken).
pub open spec fn free_index(b: Seq<StatusView>, prefix: Seq<char>, from: nat, limit: nat) -> nat
    decreases limit - from,
{
    if from >= limit {
        limit
    } else if !spec_has_status(b, indexed_id(prefix, from)) {
        from
    } else {
        free_index(b, prefix, from + 1, limit)
    }
}

/// The id `prefix_n` with the smallest `n >= 1` that no status uses (among `1..=len+1`, of which
/// at least one is free).
pub open spec fn spec_next_status_id(b: Seq<StatusView>, prefix: Seq<char>) -> Seq<char> {
    indexed_id(prefix, free_index(b, prefix, 1, (b.len() + 1) as nat))
}

pub fn next_status_id_with_prefix(board: &StatusBoard, prefix: &str) -> (id: String)
    ensures
        id@ == spec_next_status_id(board@, prefix@),
{
    let limit: u128 = board.entries.len() as u128 + 1;
    let mut n: u128 = 1;
    while n < limit
        invariant
            1 <= n <= limit,
            limit == board@.len() + 1,
            limit <= usize::MAX as u128 + 1,
            free_index(board@, prefix@, 1, limit as nat) == free_index(board@, prefix@, n as nat, limit as nat),
        decreases limit - n,
    {
        let candidate = format_indexed_id(prefix, n);
        if !has_status(board, candidate.as_str()) {
            return candidate;
        }
        n = n + 1;
    }
    format_indexed_id(prefix, limit)
}

/// The stage-shift status that `modifiers` give: a debuff (id `stage_shift_debuff_n`) when some
/// shift is negative, else a buff (`stage_shift_buff_n`), ticking at its owner's action end.
pub open spec fn stage_status(
    b: Seq<StatusView>,
    modifiers: Seq<AttributeStageModifier>,
    duration: i32,
    source: Side,
    round: u32,
) -> StatusView {
    let debuff = exists|i: int| 0 <= i < modifiers.len() && #[trigger] modifiers[i].amount < 0;
    let prefix = if debuff {
        "stage_shift_debuff"@
    } else {
        "stage_shift_buff"@
    };
    StatusView {
        id: spec_next_status_id(b, prefix),
        name: "属性变化"@,
        category: if debuff {
            StatusCategory::Debuff
        } else {
            StatusCategory::Buff
        },
        remaining_turns: duration,
        applied_round: round,
        source_side: Some(source),
        tick_timing: Some(StatusTickTiming::OwnerActionEnd),
        stage_modifiers: modifiers.map_values(
            |m: AttributeStageModifier| StatusStageModifier { attribute: m.attribute, amount: m.amount },
        ),
        fixed_damage_on_tick: 0,
        heal_on_tick: 0,
        heal_taken_multiplier: None,
        evade_charges: 0,
    }
}

/// The combatant after a stage-shift status for `modifiers` is put on (nothing for no shifts).
pub open spec fn sv_stage_modifiers(
    cv: CombatView,
    modifiers: Seq<AttributeStageModifier>,
    duration: i32,
    source: Side,
    round: u32,
) -> CombatView {
    if modifiers.len() == 0 {
        cv
    } else {
        let b = spec_upsert(cv.statuses, stage_status(cv.statuses, modifiers, duration, source, round));
        CombatView { statuses: b, stats: spec_recalc(cv.stats, b), ..cv }
    }
}

fn convert_stage_modifiers(ms: &Vec<AttributeStageModifier>) -> (r: Vec<StatusStageModifier>)
    ensures
        r@ == ms@.map_values(
            |m: AttributeStageModifier| StatusStageModifier { attribute: m.attribute, amount: m.amount },
        ),
{
    let mut out: Vec<StatusStageModifier> = Vec::new();
    let mut k: usize = 0;
    while k < ms.len()
        invariant
            k <= ms@.len(),
            out@ == ms@.subrange(0, k as int).map_values(
                |m: AttributeStageModifier|
                    StatusStageModifier { attribute: m.attribute, amount: m.amount },
            ),
        decreases ms@.len() - k,
    {
        let m = ms[k];
        out.push(StatusStageModifier { attribute: m.attribute, amount: m.amount });
        k = k + 1;
        assert(out@ =~= ms@.subrange(0, k as int).map_values(
            |m: AttributeStageModifier|
                StatusStageModifier { attribute: m.attribute, amount: m.amount },
        ));
    }
    assert(ms@.subrange(0, k as int) =~= ms@);
    out
}

/// Puts the stage-shift status for `modifiers` on a combatant (see `stage_status`).
pub fn apply_stage_modifiers_to_target(
    modifiers: &Vec<AttributeStageModifier>,
    duration_turns: i32,
    source: Side,
    state: &mut CombatState,
    round: u32,
)
    ensures
        final(state)@ == sv_stage_modifiers(old(state)@, modifiers@, duration_turns, source, round),
        final(state).aura == old(state).aura,
        final(state).shield == old(state).shield,
{
    if modifiers.len() == 0 {
        return;
    }
    let mut debuff = false;
    let mut k: usize = 0;
    while k < modifiers.len()
        invariant
            k <= modifiers@.len(),
            debuff == exists|i: int| 0 <= i < k && #[trigger] modifiers@[i].amount < 0,
        decreases modifiers@.len() - k,
    {
        if modifiers[k].amount < 0 {
            debuff = true;
        }
        k = k + 1;
    }
    let prefix = if debuff {
        "stage_shift_debuff"
    } else {
        "stage_shift_buff"
    };
    let id = next_status_id_with_prefix(&state.statuses, prefix);
    let status = StatusInstance {
        id,
        name: String::from_str("属性变化"),
        category: if debuff {
            StatusCategory::Debuff
        } else {
            StatusCategory::Buff
        },
        remaining_turns: duration_turns,
        applied_round: round,
        source_side: Some(source),
        tick_timing: Some(StatusTickTiming::OwnerActionEnd),
        stage_modifiers: convert_stage_modifiers(modifiers),
        fixed_damage_on_tick: 0,
        heal_on_tick: 0,
        heal_taken_multiplier: None,
        evade_charges: 0,
    };
    assert(status@ == stage_status(old(state)@.statuses, modifiers@, duration_turns, source, round));
    let _ = upsert_status_instance(&mut state.statuses, status, &mut state.stats);
}

/// Takes the oldest attached element off, with its marker status.
pub open spec fn sv_clear_one_aura(cv: CombatView) -> (CombatView, Option<ElementType>) {
    let elems = aura_elems(cv.aura);
    if elems.len() == 0 {
        (cv, None)
    } else {
        let e = elems[0];
        let c1 = CombatView { aura: aura_without(cv.aura, e), ..cv };
        let c2 = match spec_aura_status_id(e) {
            Some(id) => sv_clear_status(c1, id),
            None => c1,
        };
        (c2, Some(e))
    }
}

pub fn clear_one_aura(state: &mut CombatState) -> (r: Option<ElementType>)
    ensures
        final(state)@ == sv_clear_one_aura(old(state)@).0,
        r == sv_clear_one_aura(old(state)@).1,
        final(state).shield == old(state).shield,
{
    let element = match state.aura.primary() {
        Some(e) => e,
        None => {
            return None;
        },
    };
    let _ = state.aura.remove(element);
    if let Some(id) = aura_status_id(element) {
        let _ = clear_status_by_id(id, state);
    }
    Some(element)
}

/// Index of the first debuff or special status, or -1.
pub open spec fn first_debuff_index(b: Seq<StatusView>) -> int
    decreases b.len(),
{
    if b.len() == 0 {
        -1
    } else if first_debuff_index(b.drop_last()) >= 0 {
        first_debuff_index(b.drop_last())
    } else if b.last().category == StatusCategory::Debuff || b.last().category
        == StatusCategory::Special {
        b.len() - 1
    } else {
        -1
    }
}

proof fn lemma_first_debuff_index(b: Seq<StatusView>)
    ensures
        -1 <= first_debuff_index(b) < b.len(),
    decreases b.len(),
{
    if b.len() > 0 {
        lemma_first_debuff_index(b.drop_last());
    }
}

/// Takes off the first debuff or special status (by its id).
pub open spec fn sv_clear_one_debuff(cv: CombatView) -> (CombatView, Option<Seq<char>>) {
    let i = first_debuff_index(cv.statuses);
    if i >= 0 {
        (sv_clear_status(cv, cv.statuses[i].id), Some(cv.statuses[i].id))
    } else {
        (cv, None)
    }
}

pub fn clear_one_debuff_status(state: &mut CombatState) -> (r: Option<String>)
    ensures
        final(state)@ == sv_clear_one_debuff(old(state)@).0,
        match r {
            Some(id) => sv_clear_one_debuff(old(state)@).1 == Some(id@),
            None => sv_clear_one_debuff(old(state)@).1 is None,
        },
        final(state).aura == old(state).aura,
        final(state).shield == old(state).shield,
{
    proof {
        lemma_first_debuff_index(state.statuses@);
    }
    let ghost b = state.statuses@;
    let mut k: usize = 0;
    while k < state.statuses.entries.len()
        invariant
            k <= state.statuses.entries@.len(),
            state.statuses@ == b,
            *state == *old(state),
            first_debuff_index(b.subrange(0, k as int)) == -1,
            -1 <= first_debuff_index(b) < b.len(),
        decreases state.statuses.entries@.len() - k,
    {
        let ghost nxt = b.subrange(0, k + 1);
        assert(nxt.drop_last() =~= b.subrange(0, k as int));
        assert(nxt.last() == b[k as int]);
        let c = state.statuses.entries[k].category;
        if c == StatusCategory::Debuff || c == StatusCategory::Special {
            assert(first_debuff_index(nxt) == k);
            proof {
                lemma_first_debuff_prefix(b, k as int + 1);
            }
            let id = state.statuses.entries[k].id.clone();
            let _ = clear_status_by_id(id.as_str(), state);
            return Some(id);
        }
        k = k + 1;
    }
    assert(b.subrange(0, k as int) =~= b);
    None
}

proof fn lemma_first_debuff_prefix(b: Seq<StatusView>, n: int)
    requires
        0 <= n <= b.len(),
        first_debuff_index(b.subrange(0, n)) >= 0,
    ensures
        first_debuff_index(b) == first_debuff_index(b.subrange(0, n)),
    decreases b.len() - n,
{
    if n == b.len() {
        assert(b.subrange(0, n) =~= b);
    } else {
        assert(b.subrange(0, n + 1).drop_last() =~= b.subrange(0, n));
        lemma_first_debuff_prefix(b, n + 1);
    }
}

/// The ids a dispel of `id` goes for: for a stage-shift family id, every status of that family
/// (`id` itself or `id_...`), in board order; else `id` alone.
pub open spec fn matched_ids(b: Seq<StatusView>, id: Seq<char>) -> Seq<Seq<char>>
    decreases b.len(),
{
    if !is_stage_shift_id(id) {
        seq![id]
    } else if b.len() == 0 {
        seq![]
    } else {
        let rest = matched_ids(b.drop_last(), id);
        let x = b.last().id;
        if x == id || (id.len() + 1 <= x.len() && x.subrange(0, (id.len() + 1) as int) == id + seq!['_']) {
            rest.push(x)
        } else {
            rest
        }
    }
}

/// Clearing each id in turn, counting the statuses actually removed.
pub open spec fn clear_ids(cv: CombatView, ids: Seq<Seq<char>>) -> (CombatView, nat)
    decreases ids.len(),
{
    if ids.len() == 0 {
        (cv, 0)
    } else {
        let (c1, n1) = clear_ids(cv, ids.drop_last());
        let removed = spec_has_status(c1.statuses, ids.last());
        (sv_clear_status(c1, ids.last()), if removed {
            n1 + 1
        } else {
            n1
        })
    }
}

/// A dispel of each listed id in turn; gives the combatant and the number of statuses removed.
pub open spec fn sv_dispel(cv: CombatView, ids: Seq<String>) -> (CombatView, nat)
    decreases ids.len(),
{
    if ids.len() == 0 {
        (cv, 0)
    } else {
        let (c1, n1) = sv_dispel(cv, ids.drop_last());
        let (c2, n2) = clear_ids(c1, matched_ids(c1.statuses, ids.last()@));
        (c2, n1 + n2)
    }
}

fn collect_matched(board: &StatusBoard, id: &String) -> (r: Vec<String>)
    ensures
        r@.map_values(|x: String| x@) == matched_ids(board@, id@),
{
    let shift = str_eq(id.as_str(), "stage_shift_buff") || str_eq(id.as_str(), "stage_shift_debuff");
    let mut out: Vec<String> = Vec::new();
    if !shift {
        out.push(id.clone());
        assert(out@.map_values(|x: String| x@) =~= seq![id@]);
        return out;
    }
    let mut with_sep = id.clone();
    with_sep.append("_");
    proof {
        reveal_strlit("_");
    }
    let ghost b = board@;
    let mut k: usize = 0;
    while k < board.entries.len()
        invariant
            is_stage_shift_id(id@),
            with_sep@ == id@ + seq!['_'],
            b == board@,
            k <= board.entries@.len(),
            out@.map_values(|x: String| x@) == matched_ids(b.subrange(0, k as int), id@),
        decreases board.entries@.len() - k,
    {
        let ghost nxt = b.subrange(0, k + 1);
        assert(nxt.drop_last() =~= b.subrange(0, k as int));
        assert(nxt.last() == board.entries@[k as int]@);
        let entry_id = &board.entries[k].id;
        let hit = *entry_id == *id || str_starts_with(entry_id.as_str(), with_sep.as_str());
        if hit {
            let ghost prev = out@;
            out.push(entry_id.clone());
            assert(out@.map_values(|x: String| x@) =~= prev.map_values(|x: String| x@).push(
                entry_id@,
            ));
        }
        k = k + 1;
    }
    assert(b.subrange(0, k as int) =~= b);
    out
}

fn clear_id_list(state: &mut CombatState, ids: &Vec<String>) -> (n: usize)
    ensures
        (final(state)@, n as nat) == clear_ids(old(state)@, ids@.map_values(|x: String| x@)),
        n <= old(state).statuses@.len(),
        old(state).statuses@.len() - n == final(state).statuses@.len(),
        final(state).aura == old(state).aura,
        final(state).shield == old(state).shield,
{
    let ghost v = ids@.map_values(|x: String| x@);
    let total = state.statuses.entries.len();
    assert(old(state).statuses@.len() == total);
    let mut n: usize = 0;
    let mut k: usize = 0;
    while k < ids.len()
        invariant
            k <= ids@.len(),
            old(state).statuses@.len() <= usize::MAX,
            v == ids@.map_values(|x: String| x@),
            (state@, n as nat) == clear_ids(old(state)@, v.subrange(0, k as int)),
            n + state.statuses@.len() == old(state).statuses@.len(),
            state.aura == old(state).aura,
            state.shield == old(state).shield,
        decreases ids@.len() - k,
    {
        assert(v.subrange(0, k + 1).drop_last() =~= v.subrange(0, k as int));
        assert(v.subrange(0, k + 1).last() == ids@[k as int]@);
        proof {
            lemma_first_index(state.statuses@, ids@[k as int]@);
        }
        if clear_status_by_id(ids[k].as_str(), state) {
            n = n + 1;
        }
        k = k + 1;
    }
    assert(v.subrange(0, k as int) =~= v);
    n
}

/// Takes off the listed statuses (stage-shift family ids take off the whole family); gives how
/// many statuses were removed.
pub fn dispel_statuses(ids: &Vec<String>, state: &mut CombatState) -> (n: usize)
    ensures
        (final(state)@, n as nat) == sv_dispel(old(state)@, ids@),
        final(state).aura == old(state).aura,
        final(state).shield == old(state).shield,
{
    let total = state.statuses.entries.len();
    assert(old(state).statuses@.len() == total);
    let mut n: usize = 0;
    let mut k: usize = 0;
    while k < ids.len()
        invariant
            k <= ids@.len(),
            old(state).statuses@.len() <= usize::MAX,
            (state@, n as nat) == sv_dispel(old(state)@, ids@.subrange(0, k as int)),
            n + state.statuses@.len() == old(state).statuses@.len(),
            state.aura == old(state).aura,
            state.shield == old(state).shield,
        decreases ids@.len() - k,
    {
        assert(ids@.subrange(0, k + 1).drop_last() =~= ids@.subrange(0, k as int));
        let matched = collect_matched(&state.statuses, &ids[k]);
        let m = clear_id_list(state, &matched);
        n = n + m;
        k = k + 1;
    }
    assert(ids@.subrange(0, k as int) =~= ids@);
    n
}

pub open spec fn spec_spread_priority(e: ElementType) -> int {
    match e {
        ElementType::Fire => 3,
        ElementType::Water => 2,
        ElementType::Thunder => 1,
        _ => 0,
    }
}

/// Damage a spread of element `e` does to the front target or to a back-line target.
pub open spec fn spec_spread_damage(e: ElementType, is_front: bool) -> int {
    match (e, is_front) {
        (ElementType::Fire, true) => 5,
        (ElementType::Fire, false) => 4,
        (ElementType::Water, true) => 3,
        (ElementType::Water, false) => 2,
        (ElementType::Thunder, true) => 4,
        (ElementType::Thunder, false) => 3,
        _ => 0,
    }
}

pub fn spread_priority(e: ElementType) -> (p: i32)
    ensures
        p == spec_spread_priority(e),
{
    match e {
        ElementType::Fire => 3,
        ElementType::Water => 2,
        ElementType::Thunder => 1,
        _ => 0,
    }
}

pub fn spread_damage(e: ElementType, is_front: bool) -> (d: i32)
    ensures
        d == spec_spread_damage(e, is_front),
{
    match (e, is_front) {
        (ElementType::Fire, true) => 5,
        (ElementType::Fire, false) => 4,
        (ElementType::Water, true) => 3,
        (ElementType::Water, false) => 2,
        (ElementType::Thunder, true) => 4,
        (ElementType::Thunder, false) => 3,
        _ => 0,
    }
}

/// Remaining turns of the marker status of `e` (0 without one).
pub open spec fn aura_turns(e: ElementType, b: Seq<StatusView>) -> int {
    match spec_aura_status_id(e) {
        Some(id) => if spec_has_status(b, id) {
            b[first_index(b, id)].remaining_turns as int
        } else {
            0
        },
        None => 0,
    }
}

/// One candidate of the spread choice: an attached element beats the best so far when its
/// marker status has more turns left, or as many with a higher priority.
pub open spec fn spread_step(
    best: Option<(ElementType, int, int)>,
    e: ElementType,
    aura: ElementAura,
    b: Seq<StatusView>,
) -> Option<(ElementType, int, int)> {
    if !aura_elems(aura).contains(e) {
        best
    } else {
        let t = aura_turns(e, b);
        let p = spec_spread_priority(e);
        match best {
            Some((_, bt, bp)) => if t < bt || (t == bt && p <= bp) {
                best
            } else {
                Some((e, t, p))
            },
            None => Some((e, t, p)),
        }
    }
}

/// The element a wind attack spreads from the target: among attached fire, water and thunder, the
/// one whose marker has the most turns left, ties going to fire, then water, then thunder.
pub open spec fn spec_select_spread(aura: ElementAura, b: Seq<StatusView>) -> Option<ElementType> {
    let s1 = spread_step(None, ElementType::Fire, aura, b);
    let s2 = spread_step(s1, ElementType::Water, aura, b);
    let s3 = spread_step(s2, ElementType::Thunder, aura, b);
    match s3 {
        Some((e, _, _)) => Some(e),
        None => None,
    }
}

fn aura_turns_exec(e: ElementType, board: &StatusBoard) -> (t: i32)
    ensures
        t == aura_turns(e, board@),
{
    match aura_status_id(e) {
        Some(id) => match find_status(board, id) {
            Some(i) => board.entries[i].remaining_turns,
            None => 0,
        },
        None => 0,
    }
}

fn spread_step_exec(
    best: Option<(ElementType, i32, i32)>,
    e: ElementType,
    aura: &ElementAura,
    board: &StatusBoard,
) -> (r: Option<(ElementType, i32, i32)>)
    ensures
        match r {
            Some((x, t, p)) => spread_step(
                match best {
                    Some((a, b, c)) => Some((a, b as int, c as int)),
                    None => None,
                },
                e,
                *aura,
                board@,
            ) == Some((x, t as int, p as int)),
            None => spread_step(
                match best {
                    Some((a, b, c)) => Some((a, b as int, c as int)),
                    None => None,
                },
                e,
                *aura,
                board@,
            ) is None,
        },
{
    if !aura.contains(e) {
        return best;
    }
    let t = aura_turns_exec(e, board);
    let p = spread_priority(e);
    match best {
        Some((_, bt, bp)) => {
            if t < bt || (t == bt && p <= bp) {
                best
            } else {
                Some((e, t, p))
            }
        },
        None => Some((e, t, p)),
    }
}

pub fn select_spread_element(aura: &ElementAura, board: &StatusBoard) -> (r: Option<ElementType>)
    ensures
        r == spec_select_spread(*aura, board@),
{
    let s1 = spread_step_exec(None, ElementType::Fire, aura, board);
    let s2 = spread_step_exec(s1, ElementType::Water, aura, board);
    let s3 = spread_step_exec(s2, ElementType::Thunder, aura, board);
    match s3 {
        Some((e, _, _)) => Some(e),
        None => None,
    }
}

} // verus!
