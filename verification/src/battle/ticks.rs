//! Statuses over time: damage and healing ticks at the end of an owner's action, and the count
//! down of durations at the end of a full round.
use vstd::prelude::*;

use super::damage::{apply_status_tick_heal, spec_hp_healed, spec_scaled, with_hp};
use super::model::{DamageType, 
    aura_without, emit, entries_view, events_view, BattleEvent, CombatState,
    ElementAura, EventView, PendingBoost, Side, StatusInstance, StatusView, Stats,
};
use super::status::{recalculate_stage_modifiers, spec_heal_multiplier, spec_recalc, heal_taken_multiplier};
use crate::arith::{max_int, min_int, sat_i32, to_i32_sat};
use crate::chars::str_eq;
use super::model::aura_elems;
use super::text::{concat_text, format_number_after, int_decimal};
use crate::data::{ElementType, StatusTickTiming};

verus! {

/// The status that marks an attached element, for the elements that attach.
pub open spec fn spec_aura_status_id(e: ElementType) -> Option<Seq<char>> {
    match e {
        ElementType::Fire => Some("burning_aura"@),
        ElementType::Water => Some("wet_aura"@),
        ElementType::Grass => Some("thorn_aura"@),
        ElementType::Thunder => Some("paralysis_aura"@),
        _ => None,
    }
}

/// The element an aura status marks.
pub open spec fn spec_aura_status_element(id: Seq<char>) -> Option<ElementType> {
    if id == "burning_aura"@ {
        Some(ElementType::Fire)
    } else if id == "wet_aura"@ {
        Some(ElementType::Water)
    } else if id == "thorn_aura"@ {
        Some(ElementType::Grass)
    } else if id == "paralysis_aura"@ {
        Some(ElementType::Thunder)
    } else {
        None
    }
}

pub fn aura_status_id(e: ElementType) -> (r: Option<&'static str>)
    ensures
        match r {
            Some(s) => spec_aura_status_id(e) == Some(s@),
            None => spec_aura_status_id(e) is None,
        },
{
    match e {
        ElementType::Fire => Some("burning_aura"),
        ElementType::Water => Some("wet_aura"),
        ElementType::Grass => Some("thorn_aura"),
        ElementType::Thunder => Some("paralysis_aura"),
        _ => None,
    }
}

pub fn aura_status_element(id: &str) -> (r: Option<ElementType>)
    ensures
        r == spec_aura_status_element(id@),
{
    if str_eq(id, "burning_aura") {
        Some(ElementType::Fire)
    } else if str_eq(id, "wet_aura") {
        Some(ElementType::Water)
    } else if str_eq(id, "thorn_aura") {
        Some(ElementType::Grass)
    } else if str_eq(id, "paralysis_aura") {
        Some(ElementType::Thunder)
    } else {
        None
    }
}

/// What the action-end ticks change: stats, shield, the pending heal bonus and the events.
pub ghost struct TickView {
    pub stats: Stats,
    pub shield: int,
    pub bonus: int,
    pub events: Seq<EventView>,
}

/// A damage tick of `amount > 0`: the shield absorbs first, the rest comes off HP.
pub open spec fn tick_damage(t: TickView, amount: int, side: Side) -> TickView {
    let absorbed = min_int(t.shield, amount);
    let hp_damage = max_int(sat_i32(amount - absorbed), 0);
    let ev = if absorbed > 0 {
        t.events.push(EventView::ShieldAbsorbed { side, amount: absorbed as i32 })
    } else {
        t.events
    };
    TickView {
        stats: with_hp(t.stats, max_int(sat_i32(t.stats.hp - hp_damage), 0)),
        shield: if absorbed > 0 {
            t.shield - absorbed
        } else {
            t.shield
        },
        bonus: t.bonus,
        events: ev.push(EventView::DamageDealt { source: side, target: side, amount: hp_damage as i32, kind: DamageType::Fixed }),
    }
}

/// A heal tick of `amount > 0`: the pending heal bonus is added and used up; a fainted combatant
/// is not healed.
pub open spec fn tick_heal(t: TickView, amount: int, side: Side, multiplier: int) -> TickView {
    let raw = sat_i32(amount + t.bonus);
    if raw <= 0 || t.stats.hp <= 0 {
        TickView { bonus: 0, ..t }
    } else {
        let heal = spec_scaled(raw, multiplier);
        let hp = spec_hp_healed(t.stats.hp as int, t.stats.max_hp as int, heal);
        TickView {
            stats: with_hp(t.stats, hp),
            bonus: 0,
            events: t.events.push(
                EventView::Healed { side, amount: sat_i32(hp - t.stats.hp) as i32 },
            ),
            ..t
        }
    }
}

/// The tick of one status at the end of its owner's action.
pub open spec fn tick_status(t: TickView, e: StatusView, side: Side, multiplier: int) -> TickView {
    if e.tick_timing == Some(StatusTickTiming::OwnerActionEnd) {
        let t1 = if e.fixed_damage_on_tick > 0 {
            tick_damage(t, e.fixed_damage_on_tick as int, side)
        } else {
            t
        };
        if e.heal_on_tick > 0 {
            tick_heal(t1, e.heal_on_tick as int, side, multiplier)
        } else {
            t1
        }
    } else {
        t
    }
}

/// The ticks of all statuses, in board order.
pub open spec fn tick_all(t: TickView, b: Seq<StatusView>, side: Side, multiplier: int) -> TickView
    decreases b.len(),
{
    if b.len() == 0 {
        t
    } else {
        tick_status(tick_all(t, b.drop_last(), side, multiplier), b.last(), side, multiplier)
    }
}

/// Runs the action-end ticks of a combatant's statuses: damage ticks go through the shield, heal
/// ticks (with the side's pending heal bonus, used up by the first) are scaled by the heal-taken
/// multiplier and do not revive a fainted combatant.
pub fn process_side_end_statuses(
    state: &mut CombatState,
    side: Side,
    pending: &mut PendingBoost,
    events: &mut Vec<BattleEvent>,
)
    ensures
        ({
            let t = tick_all(
                TickView {
                    stats: old(state).stats,
                    shield: old(state).shield.0 as int,
                    bonus: old(pending).next_heal_bonus as int,
                    events: events_view(old(events)@),
                },
                old(state).statuses@,
                side,
                spec_heal_multiplier(old(state).statuses@),
            );
            &&& final(state).stats == t.stats
            &&& final(state).shield.0 == t.shield
            &&& final(state).aura == old(state).aura
            &&& final(state).statuses@ == old(state).statuses@
            &&& final(pending).next_heal_bonus == t.bonus
            &&& events_view(final(events)@) == t.events
        }),
        final(pending).next_attack_bonus == old(pending).next_attack_bonus,
        final(pending).next_shield_bonus == old(pending).next_shield_bonus,
        final(pending).next_element_attachment_ap == old(pending).next_element_attachment_ap,
        final(pending).next_reaction_fixed_damage == old(pending).next_reaction_fixed_damage,
        final(pending).next_wind_spread_damage == old(pending).next_wind_spread_damage,
        final(pending).next_aura_attack_draw == old(pending).next_aura_attack_draw,
        final(pending).next_skill_cost_draw == old(pending).next_skill_cost_draw,
        final(pending).next_switch_draw == old(pending).next_switch_draw,
        final(pending).next_knockout_draw == old(pending).next_knockout_draw,
        final(pending).shield_absorb_ap == old(pending).shield_absorb_ap,
{
    let multiplier = heal_taken_multiplier(&state.statuses);
    let ghost b = old(state).statuses@;
    let ghost t0 = TickView {
        stats: old(state).stats,
        shield: old(state).shield.0 as int,
        bonus: old(pending).next_heal_bonus as int,
        events: events_view(old(events)@),
    };
    let mut k: usize = 0;
    while k < state.statuses.entries.len()
        invariant
            k <= state.statuses.entries@.len(),
            state.statuses@ == b,
            state.aura == old(state).aura,
            multiplier == spec_heal_multiplier(b),
            ({
                let t = tick_all(t0, b.subrange(0, k as int), side, multiplier as int);
                &&& state.stats == t.stats
                &&& state.shield.0 == t.shield
                &&& pending.next_heal_bonus == t.bonus
                &&& events_view(events@) == t.events
            }),
            pending.next_attack_bonus == old(pending).next_attack_bonus,
            pending.next_shield_bonus == old(pending).next_shield_bonus,
            pending.next_element_attachment_ap == old(pending).next_element_attachment_ap,
            pending.next_reaction_fixed_damage == old(pending).next_reaction_fixed_damage,
            pending.next_wind_spread_damage == old(pending).next_wind_spread_damage,
            pending.next_aura_attack_draw == old(pending).next_aura_attack_draw,
            pending.next_skill_cost_draw == old(pending).next_skill_cost_draw,
            pending.next_switch_draw == old(pending).next_switch_draw,
            pending.next_knockout_draw == old(pending).next_knockout_draw,
            pending.shield_absorb_ap == old(pending).shield_absorb_ap,
        decreases state.statuses.entries@.len() - k,
    {
        let ghost before = tick_all(t0, b.subrange(0, k as int), side, multiplier as int);
        proof {
            assert(b.subrange(0, k + 1).drop_last() =~= b.subrange(0, k as int));
            assert(b.subrange(0, k + 1).last() == b[k as int]);
        }
        let timing = state.statuses.entries[k].tick_timing;
        let fixed = state.statuses.entries[k].fixed_damage_on_tick;
        let heal = state.statuses.entries[k].heal_on_tick;
        assert(b[k as int].tick_timing == timing && b[k as int].fixed_damage_on_tick == fixed
            && b[k as int].heal_on_tick == heal);
        if timing == Some(StatusTickTiming::OwnerActionEnd) {
            if fixed > 0 {
                let shield = state.shield.0;
                let absorbed = if shield <= fixed {
                    shield
                } else {
                    fixed
                };
                if absorbed > 0 {
                    state.shield.0 = shield - absorbed;
                    emit(events, BattleEvent::ShieldAbsorbed { side, amount: absorbed });
                }
                let gap = to_i32_sat(fixed as i64 - absorbed as i64);
                let hp_damage = if gap < 0 {
                    0
                } else {
                    gap
                };
                let left = to_i32_sat(state.stats.hp as i64 - hp_damage as i64);
                state.stats.hp = if left < 0 {
                    0
                } else {
                    left
                };
                emit(events, BattleEvent::DamageDealt { source: side, target: side, amount: hp_damage, kind: DamageType::Fixed });
            }
            if heal > 0 {
                let bonus = pending.next_heal_bonus;
                pending.next_heal_bonus = 0;
                let raw = to_i32_sat(heal as i64 + bonus as i64);
                if let Some((_h, actual)) = apply_status_tick_heal(&mut state.stats, raw, multiplier) {
                    emit(events, BattleEvent::Healed { side, amount: actual });
                }
            }
        }
        k = k + 1;
    }
    assert(b.subrange(0, k as int) =~= b);
}

/// A status that the round-end count down removes: one applied in an earlier round whose
/// remaining turns drop to zero or below.
pub open spec fn expires(e: StatusView, round: u32) -> bool {
    e.applied_round < round && sat_i32(e.remaining_turns - 1) <= 0
}

/// A status after the round-end count down: one turn less, unless applied in this round.
pub open spec fn counted_down(e: StatusView, round: u32) -> StatusView {
    if e.applied_round < round {
        StatusView { remaining_turns: sat_i32(e.remaining_turns - 1) as i32, ..e }
    } else {
        e
    }
}

/// The statuses after the round-end count down: expired ones are gone, the rest counted down.
pub open spec fn round_end_board(b: Seq<StatusView>, round: u32) -> Seq<StatusView>
    decreases b.len(),
{
    if b.len() == 0 {
        b
    } else {
        let rest = round_end_board(b.drop_last(), round);
        if expires(b.last(), round) {
            rest
        } else {
            rest.push(counted_down(b.last(), round))
        }
    }
}

/// The aura after the count down: each expired aura status takes its element off.
pub open spec fn round_end_aura(a: ElementAura, b: Seq<StatusView>, round: u32) -> ElementAura
    decreases b.len(),
{
    if b.len() == 0 {
        a
    } else {
        let rest = round_end_aura(a, b.drop_last(), round);
        if expires(b.last(), round) && spec_aura_status_element(b.last().id) is Some {
            aura_without(rest, spec_aura_status_element(b.last().id)->0)
        } else {
            rest
        }
    }
}

/// A record of the status log: the round, the side, the status (or `element_aura`), what
/// happened and the detail.
#[derive(Debug, Clone)]
pub struct StatusRecord {
    pub round: u32,
    pub side: Side,
    pub status_id: String,
    pub action: String,
    pub detail: String,
}

pub ghost struct StatusRecordView {
    pub round: u32,
    pub side: Side,
    pub status_id: Seq<char>,
    pub action: Seq<char>,
    pub detail: Seq<char>,
}

impl View for StatusRecord {
    type V = StatusRecordView;

    open spec fn view(&self) -> StatusRecordView {
        StatusRecordView {
            round: self.round,
            side: self.side,
            status_id: self.status_id@,
            action: self.action@,
            detail: self.detail@,
        }
    }
}

pub open spec fn records_view(s: Seq<StatusRecord>) -> Seq<StatusRecordView> {
    s.map_values(|r: StatusRecord| r@)
}

/// How an element is named in the status log.
pub open spec fn element_name(e: ElementType) -> Seq<char> {
    match e {
        ElementType::Fire => "Fire"@,
        ElementType::Water => "Water"@,
        ElementType::Grass => "Grass"@,
        ElementType::Light => "Light"@,
        ElementType::Dark => "Dark"@,
        ElementType::Thunder => "Thunder"@,
        ElementType::Wind => "Wind"@,
    }
}

fn element_name_text(e: ElementType) -> (s: &'static str)
    ensures
        s@ == element_name(e),
{
    match e {
        ElementType::Fire => "Fire",
        ElementType::Water => "Water",
        ElementType::Grass => "Grass",
        ElementType::Light => "Light",
        ElementType::Dark => "Dark",
        ElementType::Thunder => "Thunder",
        ElementType::Wind => "Wind",
    }
}

/// The status log of the round-end count down of `b` on a combatant with aura `a`, in board
/// order: each status applied in an earlier round is reported `expired` or `duration_ticked` with
/// its remaining turns and name; an expired aura status whose element was still attached then
/// reports the aura `cleared`.
pub open spec fn round_end_records(a: ElementAura, b: Seq<StatusView>, round: u32, side: Side) -> Seq<StatusRecordView>
    decreases b.len(),
{
    if b.len() == 0 {
        Seq::empty()
    } else {
        let rest = round_end_records(a, b.drop_last(), round, side);
        let e = b.last();
        if e.applied_round < round {
            let r1 = rest.push(
                StatusRecordView {
                    round,
                    side,
                    status_id: e.id,
                    action: if expires(e, round) {
                        "expired"@
                    } else {
                        "duration_ticked"@
                    },
                    detail: "remaining_turns="@ + int_decimal(counted_down(e, round).remaining_turns as int)
                        + " status_name="@ + e.name,
                },
            );
            let before = round_end_aura(a, b.drop_last(), round);
            match spec_aura_status_element(e.id) {
                Some(el) => if expires(e, round) && aura_elems(before).contains(el) {
                    r1.push(
                        StatusRecordView {
                            round,
                            side,
                            status_id: "element_aura"@,
                            action: "cleared"@,
                            detail: "expired_status_id="@ + e.id + " aura_cleared_element="@ + element_name(el),
                        },
                    )
                } else {
                    r1
                },
                None => r1,
            }
        } else {
            rest
        }
    }
}

fn push_record(records: &mut Vec<StatusRecord>, r: StatusRecord)
    ensures
        records_view(final(records)@) == records_view(old(records)@).push(r@),
{
    records.push(r);
    assert(records_view(records@) =~= records_view(old(records)@).push(r@));
}

/// Counts down the statuses of a combatant at the end of a full round `round`. Statuses applied
/// in this round are untouched; the others lose a turn and are removed when none is left, and an
/// expired aura status also takes its element off the aura. Stage shifts are recomputed. What
/// happened goes to the status log (see `round_end_records`), for the combatant's `side`.
pub fn process_round_end_status_durations(
    state: &mut CombatState,
    round: u32,
    side: Side,
    records: &mut Vec<StatusRecord>,
)
    ensures
        records_view(final(records)@) == records_view(old(records)@) + round_end_records(
            old(state).aura,
            old(state).statuses@,
            round,
            side,
        ),
        final(state).statuses@ == round_end_board(old(state).statuses@, round),
        final(state).aura == round_end_aura(old(state).aura, old(state).statuses@, round),
        final(state).stats == spec_recalc(old(state).stats, final(state).statuses@),
        final(state).shield == old(state).shield,
{
    let ghost b = old(state).statuses@;
    let mut rest: Vec<StatusInstance> = Vec::new();
    std::mem::swap(&mut rest, &mut state.statuses.entries);
    assert(entries_view(rest@) == b);
    let n = rest.len();
    let mut k: usize = 0;
    while k < n
        invariant
            n == b.len(),
            k <= n,
            entries_view(rest@) == b.subrange(k as int, n as int),
            state.statuses@ == round_end_board(b.subrange(0, k as int), round),
            state.aura == round_end_aura(old(state).aura, b.subrange(0, k as int), round),
            state.shield == old(state).shield,
            state.stats == old(state).stats,
            records_view(records@) == records_view(old(records)@) + round_end_records(
                old(state).aura,
                b.subrange(0, k as int),
                round,
                side,
            ),
        decreases n - k,
    {
        assert(entries_view(rest@).len() == rest@.len());
        assert(entries_view(rest@)[0] == rest@[0]@);
        assert(b.subrange(k as int, n as int)[0] == b[k as int]);
        let ghost old_rest = rest@;
        let mut e = rest.remove(0);
        let ghost ev = e@;
        proof {
            assert(ev == b[k as int]);
            assert forall|j: int| 0 <= j < rest@.len() implies #[trigger] entries_view(rest@)[j]
                == b.subrange(k + 1, n as int)[j] by {
                assert(rest@[j] == old_rest[j + 1]);
                assert(entries_view(old_rest)[j + 1] == old_rest[j + 1]@);
            }
            assert(entries_view(rest@) =~= b.subrange(k + 1, n as int));
            assert(b.subrange(0, k + 1).drop_last() =~= b.subrange(0, k as int));
            assert(b.subrange(0, k + 1).last() == b[k as int]);
        }
        let ghost rec0 = records_view(records@);
        let older = e.applied_round < round;
        if older {
            e.remaining_turns = to_i32_sat(e.remaining_turns as i64 - 1);
        }
        assert(e@ == counted_down(ev, round));
        let expired = older && e.remaining_turns <= 0;
        if older {
            let action = if expired {
                "expired"
            } else {
                "duration_ticked"
            };
            let head = format_number_after("remaining_turns=", e.remaining_turns as i128);
            let head = concat_text(head.as_str(), " status_name=");
            let detail = concat_text(head.as_str(), e.name.as_str());
            push_record(records, StatusRecord { round, side, status_id: e.id.clone(), action: action.to_owned(), detail });
        }
        if expired {
            if let Some(element) = aura_status_element(e.id.as_str()) {
                if state.aura.remove(element) {
                    let head = concat_text("expired_status_id=", e.id.as_str());
                    let head = concat_text(head.as_str(), " aura_cleared_element=");
                    let detail = concat_text(head.as_str(), element_name_text(element));
                    push_record(
                        records,
                        StatusRecord {
                            round,
                            side,
                            status_id: "element_aura".to_owned(),
                            action: "cleared".to_owned(),
                            detail,
                        },
                    );
                }
            }
        } else {
            let ghost prev = state.statuses@;
            state.statuses.entries.push(e);
            assert(state.statuses@ =~= prev.push(counted_down(ev, round)));
        }
        k = k + 1;
    }
    assert(b.subrange(0, k as int) =~= b);
    recalculate_stage_modifiers(&mut state.stats, &state.statuses);
}

} // verus!
