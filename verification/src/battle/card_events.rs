//! How the card bonuses react to what happens in battle: each reported event may pay out a
//! pending bonus (AP, draws, extra damage), record what a side did this action, and move used or
//! discarded cards to the discard pile.
use vstd::prelude::*;

use super::cards::{
    lemma_boosts_side, apply_card_effect, apply_fixed_damage_to_active, boosts_with, card_post, drew, draw_cards,
    front_replaced, gain_ap, spec_gain, spec_opposite_side, ActionPoints, CardPiles,
    CardTurnMemory, Hand, PendingTacticalDiscard, SideTurnMemory,
};
use super::combat::fixed_hit;
use super::flow::{Team, TeamView};
use super::model::{DamageType, aura_elems, events_view, opposite_side, BattleEvent, EventView, PendingBoost, PendingBoosts, Side};
use crate::data::cards::{CardDef, CardId};
use crate::data::{ElementType, SkillDef};

verus! {

/// The card state of a battle that events change.
#[derive(Debug)]
pub struct CardTable {
    pub hand: Hand,
    pub piles: CardPiles,
    pub action_points: ActionPoints,
    pub pending_boosts: PendingBoosts,
    pub memory: CardTurnMemory,
}

/// The first card definition named `name`, if any.
pub open spec fn card_named(cards: Seq<CardDef>, name: Seq<char>) -> Option<CardDef>
    decreases cards.len(),
{
    if cards.len() == 0 {
        None
    } else if cards[0].name@ == name {
        Some(cards[0])
    } else {
        card_named(cards.drop_first(), name)
    }
}

fn find_card_named<'a>(cards: &'a Vec<CardDef>, name: &String) -> (r: Option<&'a CardDef>)
    ensures
        match r {
            Some(c) => card_named(cards@, name@) == Some(*c),
            None => card_named(cards@, name@) is None,
        },
{
    let mut i: usize = 0;
    assert(cards@.subrange(0, cards@.len() as int) =~= cards@);
    while i < cards.len()
        invariant
            i <= cards@.len(),
            card_named(cards@, name@) == card_named(cards@.subrange(i as int, cards@.len() as int), name@),
        decreases cards@.len() - i,
    {
        let ghost rest = cards@.subrange(i as int, cards@.len() as int);
        assert(rest.drop_first() =~= cards@.subrange(i + 1, cards@.len() as int));
        if crate::chars::str_eq(cards[i].name.as_str(), name.as_str()) {
            return Some(&cards[i]);
        }
        i = i + 1;
    }
    None
}

/// Whether some skill named `name` costs `cost` AP.
pub open spec fn skill_costs(skills: Seq<SkillDef>, cost: i32, name: Seq<char>) -> bool {
    exists|i: int| 0 <= i < skills.len() && #[trigger] skills[i].cost_ap == cost && skills[i].name@ == name
}

fn find_skill_cost(skills: &Vec<SkillDef>, cost: i32, name: &String) -> (b: bool)
    ensures
        b == skill_costs(skills@, cost, name@),
{
    let mut i: usize = 0;
    while i < skills.len()
        invariant
            i <= skills@.len(),
            forall|k: int| 0 <= k < i ==> !(#[trigger] skills@[k].cost_ap == cost && skills@[k].name@ == name@),
        decreases skills@.len() - i,
    {
        if skills[i].cost_ap == cost && crate::chars::str_eq(skills[i].name.as_str(), name.as_str()) {
            return true;
        }
        i = i + 1;
    }
    false
}

/// The table with `side`'s bonuses replaced by `p` and nothing else changed.
pub open spec fn table_boost(t: CardTable, f: CardTable, side: Side, p: PendingBoost) -> bool {
    &&& f.pending_boosts == boosts_with(t.pending_boosts, side, p)
    &&& f.hand.player@ == t.hand.player@
    &&& f.hand.enemy@ == t.hand.enemy@
    &&& f.piles.draw@ == t.piles.draw@
    &&& f.piles.discard@ == t.piles.discard@
    &&& f.action_points == t.action_points
    &&& f.memory == t.memory
}

/// A pending draw for `side` paid out: the bonus `p` (the draw taken off) is set and `n` cards
/// are drawn.
pub open spec fn paid_draw(t: CardTable, f: CardTable, side: Side, p: PendingBoost, n: usize, deck: Seq<CardId>) -> bool {
    &&& f.pending_boosts == boosts_with(t.pending_boosts, side, p)
    &&& drew(side, n as nat, deck, t.hand, f.hand, t.piles, f.piles)
    &&& f.action_points == t.action_points
    &&& f.memory == t.memory
}

/// Everything the same.
pub open spec fn table_kept(t: CardTable, f: CardTable) -> bool {
    &&& f.pending_boosts == t.pending_boosts
    &&& f.hand.player@ == t.hand.player@
    &&& f.hand.enemy@ == t.hand.enemy@
    &&& f.piles.draw@ == t.piles.draw@
    &&& f.piles.discard@ == t.piles.discard@
    &&& f.action_points == t.action_points
    &&& f.memory == t.memory
}

/// An AP bonus of `side` paid out (or nothing when none is pending).
pub open spec fn ap_paid(a: ActionPoints, side: Side, slot: Option<i32>) -> ActionPoints {
    match slot {
        Some(v) => a.with(side, spec_gain(a.of(side) as int, v as int) as i32),
        None => a,
    }
}

/// Hand and piles after a pending draw `slot` of `side` is paid out (or unchanged).
pub open spec fn draw_paid(side: Side, slot: Option<(usize, String)>, deck: Seq<CardId>, t: CardTable, f: CardTable) -> bool {
    match slot {
        Some((n, _)) => drew(side, n as nat, deck, t.hand, f.hand, t.piles, f.piles),
        None => f.hand.player@ == t.hand.player@ && f.hand.enemy@ == t.hand.enemy@ && f.piles.draw@
            == t.piles.draw@ && f.piles.discard@ == t.piles.discard@,
    }
}

/// The team of `side` after becoming `after`, the other team unchanged.
pub open spec fn team_now(side: Side, op: TeamView, oe: TeamView, fp: TeamView, fe: TeamView, after: TeamView) -> bool {
    match side {
        Side::Player => fp == after && fe == oe,
        Side::Enemy => fe == after && fp == op,
    }
}

pub open spec fn team_of(side: Side, op: TeamView, oe: TeamView) -> TeamView {
    match side {
        Side::Player => op,
        Side::Enemy => oe,
    }
}

/// Extra fixed damage `amount` from `source` on the front member of `target`'s team (nothing
/// without a valid front member).
pub open spec fn extra_damage(
    source: Side,
    target: Side,
    amount: i32,
    op: TeamView,
    oe: TeamView,
    fp: TeamView,
    fe: TeamView,
    oev: Seq<EventView>,
    fev: Seq<EventView>,
) -> bool {
    let t = team_of(target, op, oe);
    if t.has_active() {
        let h = fixed_hit(t.members[t.active].state, source, target, amount as int, false, oev, DamageType::Fixed);
        team_now(target, op, oe, fp, fe, front_replaced(t, h.0)) && fev == h.1
    } else {
        fp == op && fe == oe && fev == oev
    }
}

/// A reaction fired by `source` on `target` pays out the element-attachment AP bonus, the
/// aura-attack draw and the reaction's extra fixed damage on the target's front member.
pub open spec fn on_reaction(
    source: Side,
    target: Side,
    deck: Seq<CardId>,
    t: CardTable,
    f: CardTable,
    op: TeamView,
    oe: TeamView,
    fp: TeamView,
    fe: TeamView,
    oev: Seq<EventView>,
    fev: Seq<EventView>,
) -> bool {
    let p0 = t.pending_boosts.of(source);
    &&& f.pending_boosts == boosts_with(
        t.pending_boosts,
        source,
        PendingBoost {
            next_element_attachment_ap: None,
            next_aura_attack_draw: None,
            next_reaction_fixed_damage: None,
            ..p0
        },
    )
    &&& f.action_points == ap_paid(t.action_points, source, p0.next_element_attachment_ap)
    &&& draw_paid(source, p0.next_aura_attack_draw, deck, t, f)
    &&& f.memory == t.memory
    &&& match p0.next_reaction_fixed_damage {
        Some(a) => extra_damage(source, target, a, op, oe, fp, fe, oev, fev),
        None => fp == op && fe == oe && fev == oev,
    }
}

/// An aura change on `side` (attached by the other side): when any aura was or is attached the
/// element-attachment AP bonus pays out; when an aura was attached before, the aura-attack draw.
pub open spec fn on_aura_change(
    side: Side,
    from: Seq<ElementType>,
    to: Seq<ElementType>,
    deck: Seq<CardId>,
    t: CardTable,
    f: CardTable,
) -> bool {
    let source = spec_opposite_side(side);
    let p0 = t.pending_boosts.of(source);
    let pay_ap = (from.len() > 0 || to.len() > 0) && p0.next_element_attachment_ap is Some;
    let pay_draw = from.len() > 0 && p0.next_aura_attack_draw is Some;
    &&& f.pending_boosts == boosts_with(
        t.pending_boosts,
        source,
        PendingBoost {
            next_element_attachment_ap: if pay_ap {
                None
            } else {
                p0.next_element_attachment_ap
            },
            next_aura_attack_draw: if pay_draw {
                None
            } else {
                p0.next_aura_attack_draw
            },
            ..p0
        },
    )
    &&& f.action_points == (if pay_ap {
        ap_paid(t.action_points, source, p0.next_element_attachment_ap)
    } else {
        t.action_points
    })
    &&& draw_paid(source, if pay_draw { p0.next_aura_attack_draw } else { None }, deck, t, f)
    &&& f.memory == t.memory
}

/// A wind spread of `element` by `source`: the spread bonus pays out as fixed damage on the
/// target's front member when it names the element (and is used up); else it stays.
pub open spec fn on_wind_spread(
    source: Side,
    target: Side,
    element: ElementType,
    t: CardTable,
    f: CardTable,
    op: TeamView,
    oe: TeamView,
    fp: TeamView,
    fe: TeamView,
    oev: Seq<EventView>,
    fev: Seq<EventView>,
) -> bool {
    let p0 = t.pending_boosts.of(source);
    match p0.next_wind_spread_damage {
        Some((a, es)) => if es@.contains(element) {
            &&& table_boost(t, f, source, PendingBoost { next_wind_spread_damage: None, ..p0 })
            &&& extra_damage(source, target, a, op, oe, fp, fe, oev, fev)
        } else {
            table_kept(t, f) && fp == op && fe == oe && fev == oev
        },
        None => table_kept(t, f) && fp == op && fe == oe && fev == oev,
    }
}

/// Shield points absorbed on `side` pay out its shield-absorb AP counter.
pub open spec fn on_shield_absorbed(side: Side, amount: i32, t: CardTable, f: CardTable) -> bool {
    let p0 = t.pending_boosts.of(side);
    if amount > 0 && p0.shield_absorb_ap is Some {
        &&& f.pending_boosts == boosts_with(t.pending_boosts, side, PendingBoost { shield_absorb_ap: None, ..p0 })
        &&& f.action_points == ap_paid(t.action_points, side, p0.shield_absorb_ap)
        &&& f.hand.player@ == t.hand.player@ && f.hand.enemy@ == t.hand.enemy@
        &&& f.piles.draw@ == t.piles.draw@ && f.piles.discard@ == t.piles.discard@
        &&& f.memory == t.memory
    } else {
        table_kept(t, f)
    }
}

/// A skill of `side` named `name` pays out the skill-cost draw when a skill of that name costs
/// the AP it names.
pub open spec fn on_skill_used(side: Side, name: Seq<char>, skills: Seq<SkillDef>, deck: Seq<CardId>, t: CardTable, f: CardTable) -> bool {
    let p0 = t.pending_boosts.of(side);
    match p0.next_skill_cost_draw {
        Some((cost, n, _)) => if skill_costs(skills, cost, name) {
            paid_draw(t, f, side, PendingBoost { next_skill_cost_draw: None, ..p0 }, n, deck)
        } else {
            table_kept(t, f)
        },
        None => table_kept(t, f),
    }
}

/// HP damage by `source` on a target whose front member has an aura pays out the aura-attack
/// draw.
pub open spec fn on_damage(
    source: Side,
    target: Side,
    amount: i32,
    deck: Seq<CardId>,
    t: CardTable,
    f: CardTable,
    op: TeamView,
    oe: TeamView,
) -> bool {
    let tt = team_of(target, op, oe);
    let has_aura = tt.has_active() && aura_elems(tt.members[tt.active].state.aura).len() > 0;
    let p0 = t.pending_boosts.of(source);
    match p0.next_aura_attack_draw {
        Some((n, _)) => if amount > 0 && has_aura {
            paid_draw(t, f, source, PendingBoost { next_aura_attack_draw: None, ..p0 }, n, deck)
        } else {
            table_kept(t, f)
        },
        None => table_kept(t, f),
    }
}

/// A member of `side` fainted: the other side has knocked out an opponent this action, and its
/// knock-out draw pays out.
pub open spec fn on_fainted(side: Side, deck: Seq<CardId>, t: CardTable, f: CardTable) -> bool {
    let scoring = spec_opposite_side(side);
    let p0 = t.pending_boosts.of(scoring);
    let m = t.memory.of(scoring);
    &&& f.memory.of(scoring) == (SideTurnMemory { knocked_out_opponent_this_turn: true, ..m })
    &&& f.memory.of(side) == t.memory.of(side)
    &&& f.pending_boosts == boosts_with(t.pending_boosts, scoring, PendingBoost { next_knockout_draw: None, ..p0 })
    &&& draw_paid(scoring, p0.next_knockout_draw, deck, t, f)
    &&& f.action_points == t.action_points
}

/// `side` switched this action, and its switch draw pays out.
pub open spec fn on_switched(side: Side, deck: Seq<CardId>, t: CardTable, f: CardTable) -> bool {
    let p0 = t.pending_boosts.of(side);
    let m = t.memory.of(side);
    &&& f.memory.of(side) == (SideTurnMemory { switched_this_turn: true, ..m })
    &&& f.memory.of(spec_opposite_side(side)) == t.memory.of(spec_opposite_side(side))
    &&& f.pending_boosts == boosts_with(t.pending_boosts, side, PendingBoost { next_switch_draw: None, ..p0 })
    &&& draw_paid(side, p0.next_switch_draw, deck, t, f)
    &&& f.action_points == t.action_points
}

/// A card of `side` named `name` was discarded: it goes on the discard pile; when a tactical
/// discard of this side is waiting (and none was resolved yet in this batch) its draw is paid out
/// and the side is marked as resolved.
pub open spec fn on_discarded(
    side: Side,
    name: Seq<char>,
    cards: Seq<CardDef>,
    deck: Seq<CardId>,
    pending: Option<PendingTacticalDiscard>,
    ores: Option<Side>,
    fres: Option<Side>,
    t: CardTable,
    f: CardTable,
) -> bool {
    let disc = match card_named(cards, name) {
        Some(c) => t.piles.discard@.push(c.id),
        None => t.piles.discard@,
    };
    let waiting = match pending {
        Some(pd) => ores is None && pd.side == side,
        None => false,
    };
    &&& waiting ==> match pending {
        Some(pd) => {
            let d = super::cards::spec_draw_n(t.piles.draw@, disc, deck, pd.draw as nat);
            &&& f.piles.draw@ == d.0
            &&& f.piles.discard@ == d.1
            &&& f.hand.of(side) == t.hand.of(side) + d.2
            &&& f.hand.of(spec_opposite_side(side)) == t.hand.of(spec_opposite_side(side))
            &&& fres == Some(side)
        },
        None => false,
    }
    &&& !waiting ==> {
        &&& f.piles.draw@ == t.piles.draw@
        &&& f.piles.discard@ == disc
        &&& f.hand.player@ == t.hand.player@
        &&& f.hand.enemy@ == t.hand.enemy@
        &&& fres == ores
    }
    &&& f.pending_boosts == t.pending_boosts
    &&& f.action_points == t.action_points
    &&& f.memory == t.memory
}

/// A card of `side` named `name` was used: it goes on the discard pile and its effect is played
/// (see `card_post`) on `side`'s team; a tactical discard it asks for is `fnew`.
pub open spec fn on_used(
    side: Side,
    name: Seq<char>,
    cards: Seq<CardDef>,
    deck: Seq<CardId>,
    onew: Option<PendingTacticalDiscard>,
    fnew: Option<PendingTacticalDiscard>,
    t: CardTable,
    f: CardTable,
    op: TeamView,
    oe: TeamView,
    fp: TeamView,
    fe: TeamView,
    oev: Seq<EventView>,
    fev: Seq<EventView>,
) -> bool {
    match card_named(cards, name) {
        Some(c) => {
            &&& exists|mid: CardPiles|
                mid.draw@ == t.piles.draw@ && mid.discard@ == t.piles.discard@.push(c.id) && #[trigger] card_post(
                    side,
                    c,
                    deck,
                    t.memory,
                    t.hand,
                    f.hand,
                    mid,
                    f.piles,
                    t.action_points,
                    f.action_points,
                    t.pending_boosts,
                    f.pending_boosts,
                    onew,
                    fnew,
                    team_of(side, op, oe),
                    team_of(side, fp, fe),
                    oev,
                    fev,
                )
            &&& team_of(spec_opposite_side(side), fp, fe) == team_of(spec_opposite_side(side), op, oe)
            &&& f.memory == t.memory
        },
        None => table_kept(t, f) && fnew == onew && fp == op && fe == oe && fev == oev,
    }
}

/// What one reported event does to the cards (see the `on_..` relations); every other event
/// changes nothing. `pending` is the tactical discard waiting at the start of the batch,
/// `res` the side whose tactical discard this batch resolved, `new` the tactical discard a
/// card played in this batch asks for.
#[verifier::opaque]
pub open spec fn card_event_post(
    e: EventView,
    cards: Seq<CardDef>,
    skills: Seq<SkillDef>,
    deck: Seq<CardId>,
    pending: Option<PendingTacticalDiscard>,
    ores: Option<Side>,
    fres: Option<Side>,
    onew: Option<PendingTacticalDiscard>,
    fnew: Option<PendingTacticalDiscard>,
    t: CardTable,
    f: CardTable,
    op: TeamView,
    oe: TeamView,
    fp: TeamView,
    fe: TeamView,
    oev: Seq<EventView>,
    fev: Seq<EventView>,
) -> bool {
    let same_rest = fp == op && fe == oe && fev == oev;
    match e {
        EventView::CardDiscarded { side, card_name } => on_discarded(side, card_name, cards, deck, pending, ores, fres, t, f)
            && fnew == onew && same_rest,
        EventView::CardUsed { side, card_name } => on_used(side, card_name, cards, deck, onew, fnew, t, f, op, oe, fp, fe, oev, fev)
            && fres == ores,
        EventView::ReactionTriggered { source, target, .. } => on_reaction(source, target, deck, t, f, op, oe, fp, fe, oev, fev)
            && fres == ores && fnew == onew,
        EventView::ElementAuraApplied { side, from, to, .. } => on_aura_change(side, from, to, deck, t, f) && fres == ores
            && fnew == onew && same_rest,
        EventView::WindSpreadTriggered { source, target, element } => on_wind_spread(source, target, element, t, f, op, oe, fp, fe, oev, fev)
            && fres == ores && fnew == onew,
        EventView::ShieldAbsorbed { side, amount } => on_shield_absorbed(side, amount, t, f) && fres == ores && fnew == onew
            && same_rest,
        EventView::SkillUsed { side, skill_name, .. } => on_skill_used(side, skill_name, skills, deck, t, f) && fres == ores
            && fnew == onew && same_rest,
        EventView::DamageDealt { source, target, amount, .. } => on_damage(source, target, amount, deck, t, f, op, oe)
            && fres == ores && fnew == onew && same_rest,
        EventView::CombatantFainted { side, .. } => on_fainted(side, deck, t, f) && fres == ores && fnew == onew
            && same_rest,
        EventView::Switched { side, .. } => on_switched(side, deck, t, f) && fres == ores && fnew == onew && same_rest,
        _ => table_kept(t, f) && fres == ores && fnew == onew && same_rest,
    }
}

fn elems_contain(v: &Vec<ElementType>, e: ElementType) -> (b: bool)
    ensures
        b == v@.contains(e),
{
    let mut i: usize = 0;
    while i < v.len()
        invariant
            i <= v@.len(),
            forall|k: int| 0 <= k < i ==> v@[k] != e,
        decreases v@.len() - i,
    {
        if v[i] == e {
            assert(v@[i as int] == e);
            return true;
        }
        i = i + 1;
    }
    false
}

fn front_has_aura(team: &Team) -> (b: bool)
    ensures
        b == (team@.has_active() && aura_elems(team@.members[team@.active].state.aura).len() > 0),
{
    if team.active_index >= team.combatants.len() {
        return false;
    }
    let a = &team.combatants[team.active_index];
    a.state.aura.slot0.is_some() || a.state.aura.slot1.is_some()
}

fn damage_front(source: Side, target: Side, amount: i32, player: &mut Team, enemy: &mut Team, events: &mut Vec<BattleEvent>)
    ensures
        extra_damage(source, target, amount, old(player)@, old(enemy)@, final(player)@, final(enemy)@, events_view(old(events)@), events_view(final(events)@)),
{
    match target {
        Side::Player => apply_fixed_damage_to_active(source, target, amount, player, events),
        Side::Enemy => apply_fixed_damage_to_active(source, target, amount, enemy, events),
    }
}

fn on_card_discarded(
    event: &BattleEvent,
    cards: &Vec<CardDef>,
    skills: &Vec<SkillDef>,
    deck: &Vec<CardId>,
    pending: &Option<PendingTacticalDiscard>,
    resolved: &mut Option<Side>,
    new_tactical: &mut Option<PendingTacticalDiscard>,
    table: &mut CardTable,
    player: &mut Team,
    enemy: &mut Team,
    events: &mut Vec<BattleEvent>,
)
    requires
        event@ is CardDiscarded,
    ensures
        card_event_post(
            event@,
            cards@,
            skills@,
            deck@,
            *pending,
            *old(resolved),
            *final(resolved),
            *old(new_tactical),
            *final(new_tactical),
            *old(table),
            *final(table),
            old(player)@,
            old(enemy)@,
            final(player)@,
            final(enemy)@,
            events_view(old(events)@),
            events_view(final(events)@),
        ),
{
    proof {
        reveal(card_event_post);
    }
    match event {
        BattleEvent::CardDiscarded { side, card_name } => {
            match find_card_named(cards, card_name) {
                Some(c) => table.piles.push_discard(c.id),
                None => {},
            }
            let waiting = match pending {
                Some(pd) => resolved.is_none() && pd.side == *side,
                None => false,
            };
            if waiting {
                match pending {
                    Some(pd) => {
                        let _ = draw_cards(*side, pd.draw, &mut table.hand, &mut table.piles, deck);
                        *resolved = Some(*side);
                    },
                    None => {},
                }
            }
        },
        _ => {},
    }
}

fn on_card_used(
    event: &BattleEvent,
    cards: &Vec<CardDef>,
    skills: &Vec<SkillDef>,
    deck: &Vec<CardId>,
    pending: &Option<PendingTacticalDiscard>,
    resolved: &mut Option<Side>,
    new_tactical: &mut Option<PendingTacticalDiscard>,
    table: &mut CardTable,
    player: &mut Team,
    enemy: &mut Team,
    events: &mut Vec<BattleEvent>,
)
    requires
        event@ is CardUsed,
    ensures
        card_event_post(
            event@,
            cards@,
            skills@,
            deck@,
            *pending,
            *old(resolved),
            *final(resolved),
            *old(new_tactical),
            *final(new_tactical),
            *old(table),
            *final(table),
            old(player)@,
            old(enemy)@,
            final(player)@,
            final(enemy)@,
            events_view(old(events)@),
            events_view(final(events)@),
        ),
{
    proof {
        reveal(card_event_post);
    }
    match event {
        BattleEvent::CardUsed { side, card_name } => {
            match find_card_named(cards, card_name) {
                Some(c) => {
                    table.piles.push_discard(c.id);
                    let ghost mid = table.piles;
                    let ghost before = *table;
                    let ghost tac0 = *new_tactical;
                    let ghost pl0 = player@;
                    let ghost en0 = enemy@;
                    let ghost ev0 = events_view(events@);
                    let _ = match side {
                        Side::Player => apply_card_effect(
                            *side,
                            c,
                            deck,
                            &table.memory,
                            &mut table.hand,
                            &mut table.piles,
                            &mut table.action_points,
                            &mut table.pending_boosts,
                            new_tactical,
                            player,
                            events,
                        ),
                        Side::Enemy => apply_card_effect(
                            *side,
                            c,
                            deck,
                            &table.memory,
                            &mut table.hand,
                            &mut table.piles,
                            &mut table.action_points,
                            &mut table.pending_boosts,
                            new_tactical,
                            enemy,
                            events,
                        ),
                    };
                    proof {
                        assert(card_post(
                            *side,
                            *c,
                            deck@,
                            before.memory,
                            before.hand,
                            table.hand,
                            mid,
                            table.piles,
                            before.action_points,
                            table.action_points,
                            before.pending_boosts,
                            table.pending_boosts,
                            tac0,
                            *new_tactical,
                            team_of(*side, pl0, en0),
                            team_of(*side, player@, enemy@),
                            ev0,
                            events_view(events@),
                        ));
                    }
                },
                None => {},
            }
        },
        _ => {},
    }
}

fn on_reaction_event(
    event: &BattleEvent,
    cards: &Vec<CardDef>,
    skills: &Vec<SkillDef>,
    deck: &Vec<CardId>,
    pending: &Option<PendingTacticalDiscard>,
    resolved: &mut Option<Side>,
    new_tactical: &mut Option<PendingTacticalDiscard>,
    table: &mut CardTable,
    player: &mut Team,
    enemy: &mut Team,
    events: &mut Vec<BattleEvent>,
)
    requires
        event@ is ReactionTriggered,
    ensures
        card_event_post(
            event@,
            cards@,
            skills@,
            deck@,
            *pending,
            *old(resolved),
            *final(resolved),
            *old(new_tactical),
            *final(new_tactical),
            *old(table),
            *final(table),
            old(player)@,
            old(enemy)@,
            final(player)@,
            final(enemy)@,
            events_view(old(events)@),
            events_view(final(events)@),
        ),
{
    proof {
        reveal(card_event_post);
    }
    match event {
        BattleEvent::ReactionTriggered { source, target, .. } => {
            let p = table.pending_boosts.side_mut(*source);
            let ap_slot = p.next_element_attachment_ap.take();
            let draw_slot = p.next_aura_attack_draw.take();
            let damage_slot = p.next_reaction_fixed_damage.take();
            proof {
                lemma_boosts_side(old(table).pending_boosts, table.pending_boosts, *source);
            }
            match ap_slot {
                Some(a) => gain_ap(*source, a, &mut table.action_points),
                None => {},
            }
            match draw_slot {
                Some((n, _)) => {
                    let _ = draw_cards(*source, n, &mut table.hand, &mut table.piles, deck);
                },
                None => {},
            }
            match damage_slot {
                Some(a) => damage_front(*source, *target, a, player, enemy, events),
                None => {},
            }
        },
        _ => {},
    }
}

fn on_aura_event(
    event: &BattleEvent,
    cards: &Vec<CardDef>,
    skills: &Vec<SkillDef>,
    deck: &Vec<CardId>,
    pending: &Option<PendingTacticalDiscard>,
    resolved: &mut Option<Side>,
    new_tactical: &mut Option<PendingTacticalDiscard>,
    table: &mut CardTable,
    player: &mut Team,
    enemy: &mut Team,
    events: &mut Vec<BattleEvent>,
)
    requires
        event@ is ElementAuraApplied,
    ensures
        card_event_post(
            event@,
            cards@,
            skills@,
            deck@,
            *pending,
            *old(resolved),
            *final(resolved),
            *old(new_tactical),
            *final(new_tactical),
            *old(table),
            *final(table),
            old(player)@,
            old(enemy)@,
            final(player)@,
            final(enemy)@,
            events_view(old(events)@),
            events_view(final(events)@),
        ),
{
    proof {
        reveal(card_event_post);
    }
    match event {
        BattleEvent::ElementAuraApplied { side, from, to, .. } => {
            let source = opposite_side(*side);
            let p = table.pending_boosts.side_mut(source);
            let pay_ap = (from.len() > 0 || to.len() > 0) && p.next_element_attachment_ap.is_some();
            let ap_slot = if pay_ap {
                p.next_element_attachment_ap.take()
            } else {
                None
            };
            let pay_draw = from.len() > 0 && p.next_aura_attack_draw.is_some();
            let draw_slot = if pay_draw {
                p.next_aura_attack_draw.take()
            } else {
                None
            };
            proof {
                lemma_boosts_side(old(table).pending_boosts, table.pending_boosts, source);
            }
            match ap_slot {
                Some(a) => gain_ap(source, a, &mut table.action_points),
                None => {},
            }
            match draw_slot {
                Some((n, _)) => {
                    let _ = draw_cards(source, n, &mut table.hand, &mut table.piles, deck);
                },
                None => {},
            }
        },
        _ => {},
    }
}

fn on_wind_event(
    event: &BattleEvent,
    cards: &Vec<CardDef>,
    skills: &Vec<SkillDef>,
    deck: &Vec<CardId>,
    pending: &Option<PendingTacticalDiscard>,
    resolved: &mut Option<Side>,
    new_tactical: &mut Option<PendingTacticalDiscard>,
    table: &mut CardTable,
    player: &mut Team,
    enemy: &mut Team,
    events: &mut Vec<BattleEvent>,
)
    requires
        event@ is WindSpreadTriggered,
    ensures
        card_event_post(
            event@,
            cards@,
            skills@,
            deck@,
            *pending,
            *old(resolved),
            *final(resolved),
            *old(new_tactical),
            *final(new_tactical),
            *old(table),
            *final(table),
            old(player)@,
            old(enemy)@,
            final(player)@,
            final(enemy)@,
            events_view(old(events)@),
            events_view(final(events)@),
        ),
{
    proof {
        reveal(card_event_post);
    }
    match event {
        BattleEvent::WindSpreadTriggered { source, target, element } => {
            let p = table.pending_boosts.side_mut(*source);
            let hit = match &p.next_wind_spread_damage {
                Some((_, es)) => elems_contain(es, *element),
                None => false,
            };
            if hit {
                let slot = p.next_wind_spread_damage.take();
                proof {
                    lemma_boosts_side(old(table).pending_boosts, table.pending_boosts, *source);
                }
                match slot {
                    Some((a, _)) => damage_front(*source, *target, a, player, enemy, events),
                    None => {},
                }
            }
        },
        _ => {},
    }
}

fn on_shield_absorbed_event(
    event: &BattleEvent,
    cards: &Vec<CardDef>,
    skills: &Vec<SkillDef>,
    deck: &Vec<CardId>,
    pending: &Option<PendingTacticalDiscard>,
    resolved: &mut Option<Side>,
    new_tactical: &mut Option<PendingTacticalDiscard>,
    table: &mut CardTable,
    player: &mut Team,
    enemy: &mut Team,
    events: &mut Vec<BattleEvent>,
)
    requires
        event@ is ShieldAbsorbed,
    ensures
        card_event_post(
            event@,
            cards@,
            skills@,
            deck@,
            *pending,
            *old(resolved),
            *final(resolved),
            *old(new_tactical),
            *final(new_tactical),
            *old(table),
            *final(table),
            old(player)@,
            old(enemy)@,
            final(player)@,
            final(enemy)@,
            events_view(old(events)@),
            events_view(final(events)@),
        ),
{
    proof {
        reveal(card_event_post);
    }
    match event {
        BattleEvent::ShieldAbsorbed { side, amount } => {
            if *amount > 0 {
                let p = table.pending_boosts.side_mut(*side);
                if p.shield_absorb_ap.is_some() {
                    let slot = p.shield_absorb_ap.take();
                    proof {
                        lemma_boosts_side(old(table).pending_boosts, table.pending_boosts, *side);
                    }
                    match slot {
                        Some(a) => gain_ap(*side, a, &mut table.action_points),
                        None => {},
                    }
                }
            }
        },
        _ => {},
    }
}

fn on_skill_used_event(
    event: &BattleEvent,
    cards: &Vec<CardDef>,
    skills: &Vec<SkillDef>,
    deck: &Vec<CardId>,
    pending: &Option<PendingTacticalDiscard>,
    resolved: &mut Option<Side>,
    new_tactical: &mut Option<PendingTacticalDiscard>,
    table: &mut CardTable,
    player: &mut Team,
    enemy: &mut Team,
    events: &mut Vec<BattleEvent>,
)
    requires
        event@ is SkillUsed,
    ensures
        card_event_post(
            event@,
            cards@,
            skills@,
            deck@,
            *pending,
            *old(resolved),
            *final(resolved),
            *old(new_tactical),
            *final(new_tactical),
            *old(table),
            *final(table),
            old(player)@,
            old(enemy)@,
            final(player)@,
            final(enemy)@,
            events_view(old(events)@),
            events_view(final(events)@),
        ),
{
    proof {
        reveal(card_event_post);
    }
    match event {
        BattleEvent::SkillUsed { side, skill_name, .. } => {
            let p = table.pending_boosts.side_mut(*side);
            let wanted = match &p.next_skill_cost_draw {
                Some((cost, n, _)) => {
                    if find_skill_cost(skills, *cost, skill_name) {
                        Some(*n)
                    } else {
                        None
                    }
                },
                None => None,
            };
            match wanted {
                Some(n) => {
                    p.next_skill_cost_draw = None;
                    proof {
                        lemma_boosts_side(old(table).pending_boosts, table.pending_boosts, *side);
                    }
                    let _ = draw_cards(*side, n, &mut table.hand, &mut table.piles, deck);
                },
                None => {},
            }
        },
        _ => {},
    }
}

fn on_damage_event(
    event: &BattleEvent,
    cards: &Vec<CardDef>,
    skills: &Vec<SkillDef>,
    deck: &Vec<CardId>,
    pending: &Option<PendingTacticalDiscard>,
    resolved: &mut Option<Side>,
    new_tactical: &mut Option<PendingTacticalDiscard>,
    table: &mut CardTable,
    player: &mut Team,
    enemy: &mut Team,
    events: &mut Vec<BattleEvent>,
)
    requires
        event@ is DamageDealt,
    ensures
        card_event_post(
            event@,
            cards@,
            skills@,
            deck@,
            *pending,
            *old(resolved),
            *final(resolved),
            *old(new_tactical),
            *final(new_tactical),
            *old(table),
            *final(table),
            old(player)@,
            old(enemy)@,
            final(player)@,
            final(enemy)@,
            events_view(old(events)@),
            events_view(final(events)@),
        ),
{
    proof {
        reveal(card_event_post);
    }
    match event {
        BattleEvent::DamageDealt { source, target, amount, .. } => {
            let has_aura = match target {
                Side::Player => front_has_aura(player),
                Side::Enemy => front_has_aura(enemy),
            };
            if *amount > 0 && has_aura {
                let p = table.pending_boosts.side_mut(*source);
                if p.next_aura_attack_draw.is_some() {
                    let slot = p.next_aura_attack_draw.take();
                    proof {
                        lemma_boosts_side(old(table).pending_boosts, table.pending_boosts, *source);
                    }
                    match slot {
                        Some((n, _)) => {
                            let _ = draw_cards(*source, n, &mut table.hand, &mut table.piles, deck);
                        },
                        None => {},
                    }
                }
            }
        },
        _ => {},
    }
}

fn on_fainted_event(
    event: &BattleEvent,
    cards: &Vec<CardDef>,
    skills: &Vec<SkillDef>,
    deck: &Vec<CardId>,
    pending: &Option<PendingTacticalDiscard>,
    resolved: &mut Option<Side>,
    new_tactical: &mut Option<PendingTacticalDiscard>,
    table: &mut CardTable,
    player: &mut Team,
    enemy: &mut Team,
    events: &mut Vec<BattleEvent>,
)
    requires
        event@ is CombatantFainted,
    ensures
        card_event_post(
            event@,
            cards@,
            skills@,
            deck@,
            *pending,
            *old(resolved),
            *final(resolved),
            *old(new_tactical),
            *final(new_tactical),
            *old(table),
            *final(table),
            old(player)@,
            old(enemy)@,
            final(player)@,
            final(enemy)@,
            events_view(old(events)@),
            events_view(final(events)@),
        ),
{
    proof {
        reveal(card_event_post);
    }
    match event {
        BattleEvent::CombatantFainted { side, .. } => {
            let scoring = opposite_side(*side);
            match scoring {
                Side::Player => table.memory.player.knocked_out_opponent_this_turn = true,
                Side::Enemy => table.memory.enemy.knocked_out_opponent_this_turn = true,
            }
            let p = table.pending_boosts.side_mut(scoring);
            let slot = p.next_knockout_draw.take();
            proof {
                lemma_boosts_side(old(table).pending_boosts, table.pending_boosts, scoring);
            }
            match slot {
                Some((n, _)) => {
                    let _ = draw_cards(scoring, n, &mut table.hand, &mut table.piles, deck);
                },
                None => {},
            }
        },
        _ => {},
    }
}

fn on_switched_event(
    event: &BattleEvent,
    cards: &Vec<CardDef>,
    skills: &Vec<SkillDef>,
    deck: &Vec<CardId>,
    pending: &Option<PendingTacticalDiscard>,
    resolved: &mut Option<Side>,
    new_tactical: &mut Option<PendingTacticalDiscard>,
    table: &mut CardTable,
    player: &mut Team,
    enemy: &mut Team,
    events: &mut Vec<BattleEvent>,
)
    requires
        event@ is Switched,
    ensures
        card_event_post(
            event@,
            cards@,
            skills@,
            deck@,
            *pending,
            *old(resolved),
            *final(resolved),
            *old(new_tactical),
            *final(new_tactical),
            *old(table),
            *final(table),
            old(player)@,
            old(enemy)@,
            final(player)@,
            final(enemy)@,
            events_view(old(events)@),
            events_view(final(events)@),
        ),
{
    proof {
        reveal(card_event_post);
    }
    match event {
        BattleEvent::Switched { side, .. } => {
            match side {
                Side::Player => table.memory.player.switched_this_turn = true,
                Side::Enemy => table.memory.enemy.switched_this_turn = true,
            }
            let p = table.pending_boosts.side_mut(*side);
            let slot = p.next_switch_draw.take();
            proof {
                lemma_boosts_side(old(table).pending_boosts, table.pending_boosts, *side);
            }
            match slot {
                Some((n, _)) => {
                    let _ = draw_cards(*side, n, &mut table.hand, &mut table.piles, deck);
                },
                None => {},
            }
        },
        _ => {},
    }
}

fn on_event_group_0(
    event: &BattleEvent,
    cards: &Vec<CardDef>,
    skills: &Vec<SkillDef>,
    deck: &Vec<CardId>,
    pending: &Option<PendingTacticalDiscard>,
    resolved: &mut Option<Side>,
    new_tactical: &mut Option<PendingTacticalDiscard>,
    table: &mut CardTable,
    player: &mut Team,
    enemy: &mut Team,
    events: &mut Vec<BattleEvent>,
)
    requires
        event@ is CardDiscarded || event@ is CardUsed || event@ is ReactionTriggered,
    ensures
        card_event_post(
            event@,
            cards@,
            skills@,
            deck@,
            *pending,
            *old(resolved),
            *final(resolved),
            *old(new_tactical),
            *final(new_tactical),
            *old(table),
            *final(table),
            old(player)@,
            old(enemy)@,
            final(player)@,
            final(enemy)@,
            events_view(old(events)@),
            events_view(final(events)@),
        ),
{
    match event {
        BattleEvent::CardDiscarded { .. } => on_card_discarded(event, cards, skills, deck, pending, resolved, new_tactical, table, player, enemy, events),
        BattleEvent::CardUsed { .. } => on_card_used(event, cards, skills, deck, pending, resolved, new_tactical, table, player, enemy, events),
        BattleEvent::ReactionTriggered { .. } => on_reaction_event(event, cards, skills, deck, pending, resolved, new_tactical, table, player, enemy, events),
        _ => {},
    }
}

fn on_event_group_1(
    event: &BattleEvent,
    cards: &Vec<CardDef>,
    skills: &Vec<SkillDef>,
    deck: &Vec<CardId>,
    pending: &Option<PendingTacticalDiscard>,
    resolved: &mut Option<Side>,
    new_tactical: &mut Option<PendingTacticalDiscard>,
    table: &mut CardTable,
    player: &mut Team,
    enemy: &mut Team,
    events: &mut Vec<BattleEvent>,
)
    requires
        event@ is ElementAuraApplied || event@ is WindSpreadTriggered || event@ is ShieldAbsorbed || event@ is SkillUsed,
    ensures
        card_event_post(
            event@,
            cards@,
            skills@,
            deck@,
            *pending,
            *old(resolved),
            *final(resolved),
            *old(new_tactical),
            *final(new_tactical),
            *old(table),
            *final(table),
            old(player)@,
            old(enemy)@,
            final(player)@,
            final(enemy)@,
            events_view(old(events)@),
            events_view(final(events)@),
        ),
{
    match event {
        BattleEvent::ElementAuraApplied { .. } => on_aura_event(event, cards, skills, deck, pending, resolved, new_tactical, table, player, enemy, events),
        BattleEvent::WindSpreadTriggered { .. } => on_wind_event(event, cards, skills, deck, pending, resolved, new_tactical, table, player, enemy, events),
        BattleEvent::ShieldAbsorbed { .. } => on_shield_absorbed_event(event, cards, skills, deck, pending, resolved, new_tactical, table, player, enemy, events),
        BattleEvent::SkillUsed { .. } => on_skill_used_event(event, cards, skills, deck, pending, resolved, new_tactical, table, player, enemy, events),
        _ => {},
    }
}

fn on_other_event(
    event: &BattleEvent,
    cards: &Vec<CardDef>,
    skills: &Vec<SkillDef>,
    deck: &Vec<CardId>,
    pending: &Option<PendingTacticalDiscard>,
    resolved: &mut Option<Side>,
    new_tactical: &mut Option<PendingTacticalDiscard>,
    table: &mut CardTable,
    player: &mut Team,
    enemy: &mut Team,
    events: &mut Vec<BattleEvent>,
)
    requires
        !(event@ is CardDiscarded || event@ is CardUsed || event@ is ReactionTriggered || event@ is ElementAuraApplied
            || event@ is WindSpreadTriggered || event@ is ShieldAbsorbed || event@ is SkillUsed || event@ is DamageDealt
            || event@ is CombatantFainted || event@ is Switched),
    ensures
        card_event_post(
            event@,
            cards@,
            skills@,
            deck@,
            *pending,
            *old(resolved),
            *final(resolved),
            *old(new_tactical),
            *final(new_tactical),
            *old(table),
            *final(table),
            old(player)@,
            old(enemy)@,
            final(player)@,
            final(enemy)@,
            events_view(old(events)@),
            events_view(final(events)@),
        ),
{
    proof {
        reveal(card_event_post);
    }
}

fn on_event_group_2(
    event: &BattleEvent,
    cards: &Vec<CardDef>,
    skills: &Vec<SkillDef>,
    deck: &Vec<CardId>,
    pending: &Option<PendingTacticalDiscard>,
    resolved: &mut Option<Side>,
    new_tactical: &mut Option<PendingTacticalDiscard>,
    table: &mut CardTable,
    player: &mut Team,
    enemy: &mut Team,
    events: &mut Vec<BattleEvent>,
)
    requires
        event_group(event@) == 2,
    ensures
        card_event_post(
            event@,
            cards@,
            skills@,
            deck@,
            *pending,
            *old(resolved),
            *final(resolved),
            *old(new_tactical),
            *final(new_tactical),
            *old(table),
            *final(table),
            old(player)@,
            old(enemy)@,
            final(player)@,
            final(enemy)@,
            events_view(old(events)@),
            events_view(final(events)@),
        ),
{
    match event {
        BattleEvent::DamageDealt { .. } => on_damage_event(event, cards, skills, deck, pending, resolved, new_tactical, table, player, enemy, events),
        BattleEvent::CombatantFainted { .. } => on_fainted_event(event, cards, skills, deck, pending, resolved, new_tactical, table, player, enemy, events),
        BattleEvent::Switched { .. } => on_switched_event(event, cards, skills, deck, pending, resolved, new_tactical, table, player, enemy, events),
        _ => on_other_event(event, cards, skills, deck, pending, resolved, new_tactical, table, player, enemy, events),
    }
}

/// Which of three groups an event falls in (they are handled by separate functions).
pub open spec fn event_group(e: EventView) -> int {
    if e is CardDiscarded || e is CardUsed || e is ReactionTriggered {
        0
    } else if e is ElementAuraApplied || e is WindSpreadTriggered || e is ShieldAbsorbed || e is SkillUsed {
        1
    } else {
        2
    }
}

fn card_event_group(e: &BattleEvent) -> (g: u8)
    ensures
        g == event_group(e@),
{
    match e {
        BattleEvent::CardDiscarded { .. } => 0,
        BattleEvent::CardUsed { .. } => 0,
        BattleEvent::ReactionTriggered { .. } => 0,
        BattleEvent::ElementAuraApplied { .. } => 1,
        BattleEvent::WindSpreadTriggered { .. } => 1,
        BattleEvent::ShieldAbsorbed { .. } => 1,
        BattleEvent::SkillUsed { .. } => 1,
        _ => 2,
    }
}

/// What one reported event does to the cards (see `card_event_post`). A batch of events is
/// handled one by one in order, with `pending` the tactical discard waiting at its start and
/// `resolved` and `new_tactical` starting empty; `finish_card_events` closes the batch. Events
/// that this raises belong to the next batch.
pub fn card_trigger_event(
    event: &BattleEvent,
    cards: &Vec<CardDef>,
    skills: &Vec<SkillDef>,
    deck: &Vec<CardId>,
    pending: &Option<PendingTacticalDiscard>,
    resolved: &mut Option<Side>,
    new_tactical: &mut Option<PendingTacticalDiscard>,
    table: &mut CardTable,
    player: &mut Team,
    enemy: &mut Team,
    events: &mut Vec<BattleEvent>,
)
    ensures
        card_event_post(
            event@,
            cards@,
            skills@,
            deck@,
            *pending,
            *old(resolved),
            *final(resolved),
            *old(new_tactical),
            *final(new_tactical),
            *old(table),
            *final(table),
            old(player)@,
            old(enemy)@,
            final(player)@,
            final(enemy)@,
            events_view(old(events)@),
            events_view(final(events)@),
        ),
{
    let g = card_event_group(event);
    if g == 0 {
        on_event_group_0(event, cards, skills, deck, pending, resolved, new_tactical, table, player, enemy, events);
    } else if g == 1 {
        on_event_group_1(event, cards, skills, deck, pending, resolved, new_tactical, table, player, enemy, events);
    } else {
        on_event_group_2(event, cards, skills, deck, pending, resolved, new_tactical, table, player, enemy, events);
    }
}

} // verus!
