//! Damage through shields and healing, with the events they report.
use vstd::prelude::*;

use super::model::{DamageType, emit, events_view, BattleEvent, EventView, Shield, Side, Stats};
use crate::arith::{max_int, min_int, round_div, round_div_i128, sat_i32, to_i32_sat};

verus! {

/// `s` with its HP set to `hp`.
pub open spec fn with_hp(s: Stats, hp: int) -> Stats {
    Stats { hp: hp as i32, ..s }
}

/// Shield points that a hit of `amount` uses up.
pub open spec fn spec_absorbed(shield: int, amount: int) -> int {
    min_int(shield, max_int(amount, 0))
}

/// HP damage left of a hit of `amount` after the shield.
pub open spec fn spec_hp_damage(shield: int, amount: int) -> int {
    max_int(sat_i32(amount - spec_absorbed(shield, amount)), 0)
}

/// HP after losing `hp_damage`, never below zero.
pub open spec fn spec_hp_after(hp: int, hp_damage: int) -> int {
    if hp_damage > 0 {
        max_int(sat_i32(hp - hp_damage), 0)
    } else {
        hp
    }
}

/// Events of a hit: the shield absorption (when positive), then the HP damage.
pub open spec fn spec_damage_events(
    events: Seq<EventView>,
    source: Side,
    target: Side,
    shield: int,
    amount: int,
    kind: DamageType,
) -> Seq<EventView> {
    let absorbed = spec_absorbed(shield, amount);
    let e1 = if absorbed > 0 {
        events.push(EventView::ShieldAbsorbed { side: target, amount: absorbed as i32 })
    } else {
        events
    };
    e1.push(
        EventView::DamageDealt {
            source,
            target,
            amount: spec_hp_damage(shield, amount) as i32,
            kind,
        },
    )
}

/// A hit of `amount` on `target`: the shield absorbs what it can, the rest comes off HP (never
/// below zero); reports both and gives `(absorbed, hp_damage)`.
pub fn apply_damage_with_shield(
    source: Side,
    target: Side,
    amount: i32,
    stats: &mut Stats,
    shield: &mut Shield,
    events: &mut Vec<BattleEvent>,
    kind: DamageType,
) -> (r: (i32, i32))
    ensures
        r.0 == spec_absorbed(old(shield).0 as int, amount as int),
        r.1 == spec_hp_damage(old(shield).0 as int, amount as int),
        final(shield).0 == (if r.0 > 0 {
            old(shield).0 - r.0
        } else {
            old(shield).0 as int
        }),
        *final(stats) == with_hp(*old(stats), spec_hp_after(old(stats).hp as int, r.1 as int)),
        events_view(final(events)@) == spec_damage_events(
            events_view(old(events)@),
            source,
            target,
            old(shield).0 as int,
            amount as int,
            kind,
        ),
{
    let a = if amount < 0 {
        0
    } else {
        amount
    };
    let absorbed = if shield.0 <= a {
        shield.0
    } else {
        a
    };
    if absorbed > 0 {
        shield.0 = shield.0 - absorbed;
        emit(events, BattleEvent::ShieldAbsorbed { side: target, amount: absorbed });
    }
    let gap = to_i32_sat(amount as i64 - absorbed as i64);
    let hp_damage = if gap < 0 {
        0
    } else {
        gap
    };
    if hp_damage > 0 {
        let left = to_i32_sat(stats.hp as i64 - hp_damage as i64);
        stats.hp = if left < 0 {
            0
        } else {
            left
        };
    }
    emit(events, BattleEvent::DamageDealt { source, target, amount: hp_damage, kind });
    (absorbed, hp_damage)
}

/// Fixed damage: straight to HP when it ignores shields, else through the shield.
pub fn apply_fixed_damage(
    source: Side,
    target: Side,
    amount: i32,
    ignore_shield: bool,
    stats: &mut Stats,
    shield: &mut Shield,
    events: &mut Vec<BattleEvent>,
    kind: DamageType,
) -> (r: (i32, i32))
    ensures
        ignore_shield ==> {
            &&& r.0 == 0
            &&& r.1 == max_int(amount as int, 0)
            &&& *final(shield) == *old(shield)
            &&& *final(stats) == with_hp(*old(stats), spec_hp_after(old(stats).hp as int, r.1 as int))
            &&& events_view(final(events)@) == events_view(old(events)@).push(
                EventView::DamageDealt { source, target, amount: r.1, kind },
            )
        },
        !ignore_shield ==> {
            &&& r.0 == spec_absorbed(old(shield).0 as int, amount as int)
            &&& r.1 == spec_hp_damage(old(shield).0 as int, amount as int)
            &&& final(shield).0 == (if r.0 > 0 {
                old(shield).0 - r.0
            } else {
                old(shield).0 as int
            })
            &&& *final(stats) == with_hp(*old(stats), spec_hp_after(old(stats).hp as int, r.1 as int))
            &&& events_view(final(events)@) == spec_damage_events(
                events_view(old(events)@),
                source,
                target,
                old(shield).0 as int,
                amount as int,
                kind,
            )
        },
{
    if ignore_shield {
        let hp_damage = if amount < 0 {
            0
        } else {
            amount
        };
        if hp_damage > 0 {
            let left = to_i32_sat(stats.hp as i64 - hp_damage as i64);
            stats.hp = if left < 0 {
                0
            } else {
                left
            };
        }
        emit(events, BattleEvent::DamageDealt { source, target, amount: hp_damage, kind });
        (0, hp_damage)
    } else {
        apply_damage_with_shield(source, target, amount, stats, shield, events, kind)
    }
}

/// `amount` scaled by a multiplier in thousandths, rounded, saturated into `i32`.
pub open spec fn spec_scaled(amount: int, multiplier: int) -> int {
    sat_i32(round_div(amount * multiplier, 1000))
}

/// HP after healing `heal`, never above the maximum.
pub open spec fn spec_hp_healed(hp: int, max_hp: int, heal: int) -> int {
    min_int(sat_i32(hp + heal), max_hp)
}

pub fn scale_by_multiplier(amount: i32, multiplier: i32) -> (r: i32)
    ensures
        r == spec_scaled(amount as int, multiplier as int),
{
    let p = crate::arith::mul_i128(amount as i128, multiplier as i128);
    crate::arith::i128_to_i32_sat(round_div_i128(p, 1000))
}

fn healed_hp(hp: i32, max_hp: i32, heal: i32) -> (r: i32)
    ensures
        r == spec_hp_healed(hp as int, max_hp as int, heal as int),
{
    let raised = to_i32_sat(hp as i64 + heal as i64);
    if raised <= max_hp {
        raised
    } else {
        max_hp
    }
}

/// Heals `raw_amount` scaled by `multiplier` (thousandths), capped at the maximum HP; reports the
/// HP actually gained and gives `(scaled heal, actual heal)`.
pub fn heal_target(
    side: Side,
    raw_amount: i32,
    multiplier: i32,
    stats: &mut Stats,
    events: &mut Vec<BattleEvent>,
) -> (r: (i32, i32))
    ensures
        r.0 == spec_scaled(raw_amount as int, multiplier as int),
        *final(stats) == with_hp(
            *old(stats),
            spec_hp_healed(old(stats).hp as int, old(stats).max_hp as int, r.0 as int),
        ),
        r.1 == sat_i32(final(stats).hp - old(stats).hp),
        events_view(final(events)@) == events_view(old(events)@).push(
            EventView::Healed { side, amount: r.1 },
        ),
{
    let heal = scale_by_multiplier(raw_amount, multiplier);
    let before = stats.hp;
    stats.hp = healed_hp(stats.hp, stats.max_hp, heal);
    let actual = to_i32_sat(stats.hp as i64 - before as i64);
    emit(events, BattleEvent::Healed { side, amount: actual });
    (heal, actual)
}

/// A healing tick of a status: nothing when the heal is not positive or the combatant has
/// fainted; else heals `raw_heal_amount` scaled by `multiplier` (thousandths), capped at the
/// maximum, and gives `(scaled heal, actual heal)`.
pub fn apply_status_tick_heal(stats: &mut Stats, raw_heal_amount: i32, multiplier: i32) -> (r:
    Option<(i32, i32)>)
    ensures
        (raw_heal_amount <= 0 || old(stats).hp <= 0) ==> r is None && *final(stats) == *old(stats),
        !(raw_heal_amount <= 0 || old(stats).hp <= 0) ==> {
            let heal = spec_scaled(raw_heal_amount as int, multiplier as int);
            let hp = spec_hp_healed(old(stats).hp as int, old(stats).max_hp as int, heal);
            &&& *final(stats) == with_hp(*old(stats), hp)
            &&& r == Some((heal as i32, sat_i32(hp - old(stats).hp) as i32))
        },
{
    if raw_heal_amount <= 0 || stats.hp <= 0 {
        return None;
    }
    let heal = scale_by_multiplier(raw_heal_amount, multiplier);
    let before = stats.hp;
    stats.hp = healed_hp(stats.hp, stats.max_hp, heal);
    let actual = to_i32_sat(stats.hp as i64 - before as i64);
    Some((heal, actual))
}

} // verus!
