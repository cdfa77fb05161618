//! The card side of a battle: action points, the shared draw and discard piles, the hands, the
//! one-shot card bonuses, and what playing, discarding and drawing cards does.
use vstd::prelude::*;

use super::flow::{BattleControlMode, MemberView, Team, TeamView};
use super::model::{DamageType, 
    emit, events_view, BattleEvent, CombatState, CombatView, EventView, PendingBoost,
    PendingBoosts, Side, StatusInstance, StatusStageModifier, StatusView,
};
use super::combat::{fixed_hit, hit_combatant};
use super::model::{aura_elems, aura_without, entries_view, StatusBoard};
use super::status::{recalculate_stage_modifiers, spec_recalc, spec_upsert, upsert_status_instance};
use super::text::{concat_text, format_number_after, int_decimal};
use super::ticks::{aura_status_id, spec_aura_status_id};
use crate::chars::str_eq;
use crate::arith::{max_int, min_int, sat_i32, to_i32_sat};
use crate::data::cards::{CardDef, CardEffect, CardId};
use crate::data::{AttributeType, ElementType, StatusCategory};
use crate::game_state::BattlePhase;

verus! {

/// The action points of both sides.
#[derive(Debug, Clone, Copy, PartialEq, Eq, Structural)]
pub struct ActionPoints {
    pub player: i32,
    pub enemy: i32,
}

impl ActionPoints {
    pub open spec fn of(self, side: Side) -> i32 {
        match side {
            Side::Player => self.player,
            Side::Enemy => self.enemy,
        }
    }

    pub open spec fn with(self, side: Side, v: i32) -> Self {
        match side {
            Side::Player => ActionPoints { player: v, ..self },
            Side::Enemy => ActionPoints { enemy: v, ..self },
        }
    }
}

/// AP after gaining `amount` (negative to pay): never below zero.
pub open spec fn spec_gain(ap: int, amount: int) -> int {
    max_int(sat_i32(ap + amount), 0)
}

/// `side` gains `amount` AP (a negative amount pays); AP never goes below zero.
pub fn gain_ap(side: Side, amount: i32, action_points: &mut ActionPoints)
    ensures
        *final(action_points) == old(action_points).with(
            side,
            spec_gain(old(action_points).of(side) as int, amount as int) as i32,
        ),
{
    match side {
        Side::Player => {
            let v = to_i32_sat(action_points.player as i64 + amount as i64);
            action_points.player = if v < 0 {
                0
            } else {
                v
            };
        },
        Side::Enemy => {
            let v = to_i32_sat(action_points.enemy as i64 + amount as i64);
            action_points.enemy = if v < 0 {
                0
            } else {
                v
            };
        },
    }
}

/// `side`'s AP is cut down to `max_ap`.
pub fn clamp_ap_to_max(side: Side, max_ap: i32, action_points: &mut ActionPoints)
    ensures
        *final(action_points) == old(action_points).with(
            side,
            min_int(old(action_points).of(side) as int, max_ap as int) as i32,
        ),
{
    match side {
        Side::Player => {
            if action_points.player > max_ap {
                action_points.player = max_ap;
            }
        },
        Side::Enemy => {
            if action_points.enemy > max_ap {
                action_points.enemy = max_ap;
            }
        },
    }
}

/// The limits of the card economy.
#[derive(Debug, Clone, Copy, PartialEq, Eq, Structural)]
pub struct CardRules {
    /// The AP a side keeps at the end of its turn at most.
    pub max_ap: i32,
    /// The AP a forced discard gives.
    pub discard_ap_gain: i32,
    /// The cards a side may keep at the end of its turn.
    pub max_retained_hand: usize,
}

impl CardRules {
    /// The limits a battle uses when the configuration sets none: at most 10 AP kept, one AP per
    /// forced discard, five cards kept.
    pub fn standard() -> (r: Self)
        ensures
            r.max_ap == 10,
            r.discard_ap_gain == 1,
            r.max_retained_hand == 5,
    {
        CardRules { max_ap: 10, discard_ap_gain: 1, max_retained_hand: 5 }
    }
}

/// Both sides' hands.
#[derive(Debug, Clone)]
pub struct Hand {
    pub player: Vec<CardId>,
    pub enemy: Vec<CardId>,
}

impl Hand {
    pub open spec fn of(self, side: Side) -> Seq<CardId> {
        match side {
            Side::Player => self.player@,
            Side::Enemy => self.enemy@,
        }
    }

    pub fn new() -> (h: Self)
        ensures
            h.player@.len() == 0,
            h.enemy@.len() == 0,
    {
        Hand { player: Vec::new(), enemy: Vec::new() }
    }

    pub fn len_of(&self, side: Side) -> (n: usize)
        ensures
            n == self.of(side).len(),
    {
        match side {
            Side::Player => self.player.len(),
            Side::Enemy => self.enemy.len(),
        }
    }

    pub fn side_mut(&mut self, side: Side) -> (r: &mut Vec<CardId>)
        ensures
            r@ == old(self).of(side),
            final(self).of(side) == final(r)@,
            final(self).of(spec_opposite_side(side)) == old(self).of(spec_opposite_side(side)),
    {
        match side {
            Side::Player => &mut self.player,
            Side::Enemy => &mut self.enemy,
        }
    }
}

pub open spec fn spec_opposite_side(side: Side) -> Side {
    super::model::spec_opposite(side)
}

/// The shared draw pile and discard pile.
#[derive(Debug, Clone)]
pub struct CardPiles {
    pub draw: Vec<CardId>,
    pub discard: Vec<CardId>,
}

/// The piles a draw takes from: an empty draw pile takes over the discard pile; when both are
/// empty the deck is dealt again.
pub open spec fn refill(draw: Seq<CardId>, discard: Seq<CardId>, deck: Seq<CardId>) -> (
    Seq<CardId>,
    Seq<CardId>,
) {
    if draw.len() > 0 {
        (draw, discard)
    } else if discard.len() > 0 {
        (discard, seq![])
    } else {
        (deck, discard)
    }
}

/// One draw: the top card of the (refilled) draw pile, none when there is no card at all.
pub open spec fn spec_draw_one(draw: Seq<CardId>, discard: Seq<CardId>, deck: Seq<CardId>) -> (
    Seq<CardId>,
    Seq<CardId>,
    Option<CardId>,
) {
    let r = refill(draw, discard, deck);
    if r.0.len() == 0 {
        (r.0, r.1, None)
    } else {
        (r.0.drop_first(), r.1, Some(r.0[0]))
    }
}

/// `n` draws in a row; gives the piles and the cards drawn, in order.
pub open spec fn spec_draw_n(draw: Seq<CardId>, discard: Seq<CardId>, deck: Seq<CardId>, n: nat) -> (
    Seq<CardId>,
    Seq<CardId>,
    Seq<CardId>,
)
    decreases n,
{
    if n == 0 {
        (draw, discard, seq![])
    } else {
        let p = spec_draw_n(draw, discard, deck, (n - 1) as nat);
        let d = spec_draw_one(p.0, p.1, deck);
        (
            d.0,
            d.1,
            match d.2 {
                Some(c) => p.2.push(c),
                None => p.2,
            },
        )
    }
}

impl CardPiles {
    pub fn new() -> (p: Self)
        ensures
            p.draw@.len() == 0,
            p.discard@.len() == 0,
    {
        CardPiles { draw: Vec::new(), discard: Vec::new() }
    }

    /// Draws one card (see `spec_draw_one`).
    pub fn draw_one(&mut self, deck: &Vec<CardId>) -> (c: Option<CardId>)
        ensures
            (final(self).draw@, final(self).discard@, c) == spec_draw_one(
                old(self).draw@,
                old(self).discard@,
                deck@,
            ),
    {
        if self.draw.len() == 0 {
            if self.discard.len() > 0 {
                let mut taken: Vec<CardId> = Vec::new();
                std::mem::swap(&mut taken, &mut self.discard);
                self.draw = taken;
            } else {
                self.draw = deck.clone();
            }
        }
        if self.draw.len() == 0 {
            None
        } else {
            let c = self.draw.remove(0);
            proof {
                let r = refill(old(self).draw@, old(self).discard@, deck@);
                assert(self.draw@ =~= r.0.drop_first());
            }
            Some(c)
        }
    }

    /// A used or discarded card goes on the discard pile.
    pub fn push_discard(&mut self, card: CardId)
        ensures
            final(self).discard@ == old(self).discard@.push(card),
            final(self).draw@ == old(self).draw@,
    {
        self.discard.push(card);
    }
}

/// `side` draws up to `amount` cards into its hand; gives the cards drawn.
pub fn draw_cards(
    side: Side,
    amount: usize,
    hand: &mut Hand,
    piles: &mut CardPiles,
    deck: &Vec<CardId>,
) -> (drawn: Vec<CardId>)
    ensures
        ({
            let d = spec_draw_n(old(piles).draw@, old(piles).discard@, deck@, amount as nat);
            &&& final(piles).draw@ == d.0
            &&& final(piles).discard@ == d.1
            &&& drawn@ == d.2
            &&& final(hand).of(side) == old(hand).of(side) + d.2
            &&& final(hand).of(spec_opposite_side(side)) == old(hand).of(spec_opposite_side(side))
        }),
{
    let mut drawn: Vec<CardId> = Vec::new();
    let mut k: usize = 0;
    while k < amount
        invariant
            k <= amount,
            ({
                let d = spec_draw_n(old(piles).draw@, old(piles).discard@, deck@, k as nat);
                &&& piles.draw@ == d.0
                &&& piles.discard@ == d.1
                &&& drawn@ == d.2
                &&& hand.of(side) == old(hand).of(side) + d.2
                &&& hand.of(spec_opposite_side(side)) == old(hand).of(spec_opposite_side(side))
            }),
        decreases amount - k,
    {
        match piles.draw_one(deck) {
            Some(c) => {
                let cards = hand.side_mut(side);
                cards.push(c);
                drawn.push(c);
                proof {
                    let d = spec_draw_n(old(piles).draw@, old(piles).discard@, deck@, k as nat);
                    assert(hand.of(side) =~= old(hand).of(side) + d.2.push(c));
                }
            },
            None => {},
        }
        k = k + 1;
    }
    drawn
}

/// The one-shot bonuses that last for one action are dropped.
pub open spec fn action_cleared(p: PendingBoost) -> PendingBoost {
    PendingBoost {
        next_attack_bonus: 0,
        next_shield_bonus: 0,
        next_heal_bonus: 0,
        next_element_attachment_ap: None,
        next_reaction_fixed_damage: None,
        next_wind_spread_damage: None,
        next_aura_attack_draw: None,
        next_skill_cost_draw: None,
        next_switch_draw: None,
        next_knockout_draw: None,
        ..p
    }
}

/// All bonuses are dropped but the shield-absorb AP counter.
pub open spec fn round_cleared(p: PendingBoost) -> PendingBoost {
    PendingBoost { shield_absorb_ap: p.shield_absorb_ap, ..action_cleared(p) }
}

/// `b` with `side`'s bonuses replaced by `p`.
pub open spec fn boosts_with(b: PendingBoosts, side: Side, p: PendingBoost) -> PendingBoosts {
    match side {
        Side::Player => PendingBoosts { player: p, ..b },
        Side::Enemy => PendingBoosts { enemy: p, ..b },
    }
}

fn clear_action_fields(p: &mut PendingBoost)
    ensures
        *final(p) == action_cleared(*old(p)),
{
    p.next_attack_bonus = 0;
    p.next_shield_bonus = 0;
    p.next_heal_bonus = 0;
    p.next_element_attachment_ap = None;
    p.next_reaction_fixed_damage = None;
    p.next_wind_spread_damage = None;
    p.next_aura_attack_draw = None;
    p.next_skill_cost_draw = None;
    p.next_switch_draw = None;
    p.next_knockout_draw = None;
}

/// At the end of `side`'s action its action-scoped bonuses are dropped.
pub fn clear_action_scoped_card_effects(side: Side, pending_boosts: &mut PendingBoosts)
    ensures
        *final(pending_boosts) == boosts_with(
            *old(pending_boosts),
            side,
            action_cleared(old(pending_boosts).of(side)),
        ),
{
    let p = pending_boosts.side_mut(side);
    clear_action_fields(p);
    proof {
        let want = boosts_with(*old(pending_boosts), side, action_cleared(old(pending_boosts).of(side)));
        assert(pending_boosts.of(side) == want.of(side));
    }
}

/// At a round's start every bonus of both sides is dropped but the shield-absorb counters.
pub fn clear_round_scoped_card_effects(pending_boosts: &mut PendingBoosts)
    ensures
        final(pending_boosts).player == round_cleared(old(pending_boosts).player),
        final(pending_boosts).enemy == round_cleared(old(pending_boosts).enemy),
{
    clear_action_fields(&mut pending_boosts.player);
    clear_action_fields(&mut pending_boosts.enemy);
}

/// When `acting_side` acts, the other side's shield-absorb AP counter lapses.
pub fn clear_opponent_guard_counter_effects(acting_side: Side, pending_boosts: &mut PendingBoosts)
    ensures
        ({
            let owner = spec_opposite_side(acting_side);
            *final(pending_boosts) == boosts_with(
                *old(pending_boosts),
                owner,
                PendingBoost { shield_absorb_ap: None, ..old(pending_boosts).of(owner) },
            )
        }),
{
    let owner = super::model::opposite_side(acting_side);
    let p = pending_boosts.side_mut(owner);
    p.shield_absorb_ap = None;
    proof {
        let want = boosts_with(
            *old(pending_boosts),
            owner,
            PendingBoost { shield_absorb_ap: None, ..old(pending_boosts).of(owner) },
        );
        assert(pending_boosts.of(owner) == want.of(owner));
    }
}

/// The name a card is shown with: its definition's name, else the name of its id.
pub open spec fn spec_card_name(cards: Seq<CardDef>, id: CardId) -> Seq<char>
    decreases cards.len(),
{
    if cards.len() == 0 {
        card_id_name(id)
    } else if cards[0].id == id {
        cards[0].name@
    } else {
        spec_card_name(cards.drop_first(), id)
    }
}

/// The name of a card id.
pub open spec fn card_id_name(id: CardId) -> Seq<char> {
    match id {
        CardId::GainAp => "GainAp"@,
        CardId::NextAttackBoost => "NextAttackBoost"@,
        CardId::NextShieldBoost => "NextShieldBoost"@,
        CardId::NextHealBoost => "NextHealBoost"@,
        CardId::ElementWarmup => "ElementWarmup"@,
        CardId::ReactionCatalyst => "ReactionCatalyst"@,
        CardId::WindSpreadFlow => "WindSpreadFlow"@,
        CardId::ReactionCountdown => "ReactionCountdown"@,
        CardId::TacticalRefresh => "TacticalRefresh"@,
        CardId::ReadyToAct => "ReadyToAct"@,
        CardId::Pursuit => "Pursuit"@,
        CardId::EmergencyShield => "EmergencyShield"@,
        CardId::GuardCounter => "GuardCounter"@,
        CardId::FortifiedLine => "FortifiedLine"@,
        CardId::CleanseConversion => "CleanseConversion"@,
        CardId::TeamCommand => "TeamCommand"@,
        CardId::RotationCover => "RotationCover"@,
    }
}

fn card_id_text(id: CardId) -> (s: String)
    ensures
        s@ == card_id_name(id),
{
    let t = match id {
        CardId::GainAp => "GainAp",
        CardId::NextAttackBoost => "NextAttackBoost",
        CardId::NextShieldBoost => "NextShieldBoost",
        CardId::NextHealBoost => "NextHealBoost",
        CardId::ElementWarmup => "ElementWarmup",
        CardId::ReactionCatalyst => "ReactionCatalyst",
        CardId::WindSpreadFlow => "WindSpreadFlow",
        CardId::ReactionCountdown => "ReactionCountdown",
        CardId::TacticalRefresh => "TacticalRefresh",
        CardId::ReadyToAct => "ReadyToAct",
        CardId::Pursuit => "Pursuit",
        CardId::EmergencyShield => "EmergencyShield",
        CardId::GuardCounter => "GuardCounter",
        CardId::FortifiedLine => "FortifiedLine",
        CardId::CleanseConversion => "CleanseConversion",
        CardId::TeamCommand => "TeamCommand",
        CardId::RotationCover => "RotationCover",
    };
    String::from_str(t)
}

/// The name of card `id` (see `spec_card_name`).
pub fn card_name(cards: &Vec<CardDef>, id: CardId) -> (s: String)
    ensures
        s@ == spec_card_name(cards@, id),
{
    let mut i: usize = 0;
    assert(cards@.subrange(0, cards@.len() as int) =~= cards@);
    while i < cards.len()
        invariant
            i <= cards@.len(),
            spec_card_name(cards@, id) == spec_card_name(cards@.subrange(i as int, cards@.len() as int), id),
        decreases cards@.len() - i,
    {
        let ghost rest = cards@.subrange(i as int, cards@.len() as int);
        assert(rest.drop_first() =~= cards@.subrange(i + 1, cards@.len() as int));
        if cards[i].id == id {
            return cards[i].name.clone();
        }
        i = i + 1;
    }
    card_id_text(id)
}

/// The card definition with id `id` (the first one), if any.
pub open spec fn spec_find_card(cards: Seq<CardDef>, id: CardId) -> Option<CardDef>
    decreases cards.len(),
{
    if cards.len() == 0 {
        None
    } else if cards[0].id == id {
        Some(cards[0])
    } else {
        spec_find_card(cards.drop_first(), id)
    }
}

pub fn find_card(cards: &Vec<CardDef>, id: CardId) -> (r: Option<&CardDef>)
    ensures
        match r {
            Some(c) => spec_find_card(cards@, id) == Some(*c),
            None => spec_find_card(cards@, id) is None,
        },
{
    let mut i: usize = 0;
    assert(cards@.subrange(0, cards@.len() as int) =~= cards@);
    while i < cards.len()
        invariant
            i <= cards@.len(),
            spec_find_card(cards@, id) == spec_find_card(cards@.subrange(i as int, cards@.len() as int), id),
        decreases cards@.len() - i,
    {
        let ghost rest = cards@.subrange(i as int, cards@.len() as int);
        assert(rest.drop_first() =~= cards@.subrange(i + 1, cards@.len() as int));
        if cards[i].id == id {
            return Some(&cards[i]);
        }
        i = i + 1;
    }
    None
}

/// `side` discards card `index` of its hand for `ap_gain` AP; the discard is reported with the
/// card's name. Nothing happens for an index past the hand.
pub fn discard_card_from_hand(
    side: Side,
    index: usize,
    ap_gain: i32,
    hand: &mut Hand,
    action_points: &mut ActionPoints,
    cards: &Vec<CardDef>,
    events: &mut Vec<BattleEvent>,
) -> (r: Option<String>)
    ensures
        index >= old(hand).of(side).len() ==> {
            &&& r is None
            &&& *final(hand) == *old(hand)
            &&& *final(action_points) == *old(action_points)
            &&& events_view(final(events)@) == events_view(old(events)@)
        },
        index < old(hand).of(side).len() ==> {
            let id = old(hand).of(side)[index as int];
            &&& r is Some && r->0@ == spec_card_name(cards@, id)
            &&& final(hand).of(side) == old(hand).of(side).remove(index as int)
            &&& final(hand).of(spec_opposite_side(side)) == old(hand).of(spec_opposite_side(side))
            &&& *final(action_points) == old(action_points).with(
                side,
                spec_gain(old(action_points).of(side) as int, ap_gain as int) as i32,
            )
            &&& events_view(final(events)@) == events_view(old(events)@).push(
                EventView::CardDiscarded { side, card_name: spec_card_name(cards@, id) },
            )
        },
{
    if index >= hand.len_of(side) {
        return None;
    }
    let held = hand.side_mut(side);
    let id = held.remove(index);
    gain_ap(side, ap_gain, action_points);
    let name = card_name(cards, id);
    emit(events, BattleEvent::CardDiscarded { side, card_name: name.clone() });
    Some(name)
}

/// The AP and events after `n` forced discards of `side` from the end of `held`, each for
/// `gain` AP and reported with the card's name.
pub open spec fn auto_discards(
    side: Side,
    held: Seq<CardId>,
    n: nat,
    gain: i32,
    ap: ActionPoints,
    events: Seq<EventView>,
    cards: Seq<CardDef>,
) -> (ActionPoints, Seq<EventView>)
    decreases n,
{
    if n == 0 {
        (ap, events)
    } else {
        let r = auto_discards(side, held, (n - 1) as nat, gain, ap, events, cards);
        (
            r.0.with(side, spec_gain(r.0.of(side) as int, gain as int) as i32),
            r.1.push(EventView::CardDiscarded { side, card_name: spec_card_name(cards, held[held.len() - n]) }),
        )
    }
}

/// While `side` holds more cards than it may keep, its last card is discarded (for
/// `discard_ap_gain` AP each, see `auto_discards`).
pub fn auto_discard_excess_hand(
    side: Side,
    hand: &mut Hand,
    rules: &CardRules,
    action_points: &mut ActionPoints,
    cards: &Vec<CardDef>,
    events: &mut Vec<BattleEvent>,
)
    ensures
        final(hand).of(side) == old(hand).of(side).subrange(
            0,
            min_int(old(hand).of(side).len() as int, rules.max_retained_hand as int),
        ),
        final(hand).of(spec_opposite_side(side)) == old(hand).of(spec_opposite_side(side)),
        (*final(action_points), events_view(final(events)@)) == auto_discards(
            side,
            old(hand).of(side),
            (old(hand).of(side).len() - final(hand).of(side).len()) as nat,
            rules.discard_ap_gain,
            *old(action_points),
            events_view(old(events)@),
            cards@,
        ),
{
    while hand.len_of(side) > rules.max_retained_hand
        invariant
            hand.of(side) == old(hand).of(side).subrange(0, hand.of(side).len() as int),
            hand.of(side).len() <= old(hand).of(side).len(),
            hand.of(side).len() >= min_int(old(hand).of(side).len() as int, rules.max_retained_hand as int),
            hand.of(spec_opposite_side(side)) == old(hand).of(spec_opposite_side(side)),
            (*action_points, events_view(events@)) == auto_discards(
                side,
                old(hand).of(side),
                (old(hand).of(side).len() - hand.of(side).len()) as nat,
                rules.discard_ap_gain,
                *old(action_points),
                events_view(old(events)@),
                cards@,
            ),
        decreases hand.of(side).len(),
    {
        let last = hand.len_of(side) - 1;
        let _ = discard_card_from_hand(side, last, rules.discard_ap_gain, hand, action_points, cards, events);
        assert(hand.of(side) =~= old(hand).of(side).subrange(0, hand.of(side).len() as int));
    }
}

/// A forced discard waiting for `side`, and the phase after it.
#[derive(Debug, Clone, Copy, PartialEq, Eq, Structural)]
pub struct PendingHandDiscard {
    pub side: Side,
    pub next_phase: BattlePhase,
}

/// After `side`'s turn: with more cards than it may keep it must discard first (the discard
/// phase, remembering `next_after_discard`); else its AP is cut to the maximum and the battle
/// goes on to `next_after_discard`.
pub fn enter_discard_phase_or_continue(
    side: Side,
    next_after_discard: BattlePhase,
    hand: &Hand,
    rules: &CardRules,
    action_points: &mut ActionPoints,
) -> (r: (BattlePhase, Option<PendingHandDiscard>))
    ensures
        hand.of(side).len() > rules.max_retained_hand ==> {
            &&& r.0 == BattlePhase::Discard
            &&& r.1 == Some(PendingHandDiscard { side, next_phase: next_after_discard })
            &&& *final(action_points) == *old(action_points)
        },
        hand.of(side).len() <= rules.max_retained_hand ==> {
            &&& r.0 == next_after_discard
            &&& r.1 is None
            &&& *final(action_points) == old(action_points).with(
                side,
                min_int(old(action_points).of(side) as int, rules.max_ap as int) as i32,
            )
        },
{
    if hand.len_of(side) > rules.max_retained_hand {
        (BattlePhase::Discard, Some(PendingHandDiscard { side, next_phase: next_after_discard }))
    } else {
        clamp_ap_to_max(side, rules.max_ap, action_points);
        (next_after_discard, None)
    }
}

/// Whether the local player picks the discards of `side` (else they are made automatically).
pub open spec fn spec_locally_controls_discard(side: Side, mode: BattleControlMode) -> bool {
    match mode {
        BattleControlMode::PlayerVsAi => side == Side::Player,
        _ => true,
    }
}

pub fn locally_controls_discard_side(side: Side, mode: BattleControlMode) -> (b: bool)
    ensures
        b == spec_locally_controls_discard(side, mode),
{
    match mode {
        BattleControlMode::PlayerVsAi => side == Side::Player,
        BattleControlMode::DebugPlayerControlsBoth | BattleControlMode::PlayerVsRemote => true,
    }
}

/// A team after its front member's state became `cv`.
pub open spec fn front_replaced(t: TeamView, cv: CombatView) -> TeamView {
    TeamView { members: t.members.update(t.active, MemberView { state: cv, ..t.members[t.active] }), ..t }
}

/// The shield gained from `amount` when the shield may not exceed `cap`.
pub open spec fn capped_gain(shield: int, cap: int, amount: int) -> int {
    max_int(min_int(amount, cap - shield), 0)
}

fn gain_shield_capped(state: &mut CombatState, amount: i32) -> (gained: i32)
    ensures
        gained == capped_gain(old(state).shield.0 as int, old(state).stats.max_hp as int, amount as int),
        final(state)@ == (CombatView { shield: (old(state).shield.0 + gained) as i32, ..old(state)@ }),
{
    let room = state.stats.max_hp as i64 - state.shield.0 as i64;
    let g64 = if (amount as i64) < room {
        amount as i64
    } else {
        room
    };
    let g: i32 = if g64 < 0 {
        0
    } else {
        g64 as i32
    };
    state.shield.0 = state.shield.0 + g;
    g
}

/// A card's shield for `side`'s front member: the pending shield bonus is added (and used up),
/// a negative sum gives nothing, the shield may not exceed the member's maximum HP; the gain is
/// reported. Nothing at all happens without a valid front member.
pub fn gain_shield_on_active(
    side: Side,
    amount: i32,
    pending_boosts: &mut PendingBoosts,
    team: &mut Team,
    events: &mut Vec<BattleEvent>,
) -> (gained: i32)
    ensures
        !old(team)@.has_active() ==> {
            &&& gained == 0
            &&& *final(pending_boosts) == *old(pending_boosts)
            &&& final(team)@ == old(team)@
            &&& events_view(final(events)@) == events_view(old(events)@)
        },
        old(team)@.has_active() ==> {
            let front = old(team)@.members[old(team)@.active].state;
            let p = old(pending_boosts).of(side);
            let want = max_int(sat_i32(amount + p.next_shield_bonus), 0);
            &&& gained == capped_gain(front.shield as int, front.stats.max_hp as int, want)
            &&& *final(pending_boosts) == boosts_with(*old(pending_boosts), side, PendingBoost { next_shield_bonus: 0, ..p })
            &&& final(team)@ == front_replaced(old(team)@, CombatView { shield: (front.shield + gained) as i32, ..front })
            &&& events_view(final(events)@) == events_view(old(events)@).push(EventView::ShieldGained { side, amount: gained })
        },
{
    let a = team.active_index;
    if a >= team.combatants.len() {
        return 0;
    }
    let p = pending_boosts.side_mut(side);
    let bonus = p.next_shield_bonus;
    p.next_shield_bonus = 0;
    proof {
        let p0 = old(pending_boosts).of(side);
        let want = boosts_with(*old(pending_boosts), side, PendingBoost { next_shield_bonus: 0, ..p0 });
        assert(pending_boosts.of(side) == want.of(side));
    }
    let sum = to_i32_sat(amount as i64 + bonus as i64);
    let want = if sum < 0 {
        0
    } else {
        sum
    };
    let ghost m0 = team@.members;
    let mut c = team.combatants.remove(a);
    assert(c@ == m0[a as int]);
    let gained = gain_shield_capped(&mut c.state, want);
    let ghost cv = c@;
    team.combatants.insert(a, c);
    assert(team@.members =~= m0.update(a as int, cv));
    emit(events, BattleEvent::ShieldGained { side, amount: gained });
    gained
}

/// The text of a side as the card stage status ids spell it.
pub open spec fn side_id_text(side: Side) -> Seq<char> {
    match side {
        Side::Player => "Player"@,
        Side::Enemy => "Enemy"@,
    }
}

/// The text of an attribute as the card stage status ids spell it.
pub open spec fn attribute_id_text(a: AttributeType) -> Seq<char> {
    match a {
        AttributeType::Atk => "Atk"@,
        AttributeType::Def => "Def"@,
        AttributeType::Spd => "Spd"@,
        AttributeType::Acc => "Acc"@,
    }
}

/// The id of the stage status a card gives `side` for `a`: `card_stage_<side>_<attribute>`.
pub open spec fn card_stage_id(side: Side, a: AttributeType) -> Seq<char> {
    "card_stage_"@ + side_id_text(side) + "_"@ + attribute_id_text(a)
}

fn card_stage_id_text(side: Side, a: AttributeType) -> (s: String)
    ensures
        s@ == card_stage_id(side, a),
{
    let mut s = String::from_str("card_stage_");
    match side {
        Side::Player => s.append("Player"),
        Side::Enemy => s.append("Enemy"),
    }
    s.append("_");
    match a {
        AttributeType::Atk => s.append("Atk"),
        AttributeType::Def => s.append("Def"),
        AttributeType::Spd => s.append("Spd"),
        AttributeType::Acc => s.append("Acc"),
    }
    s
}

/// The stage status a card puts on `side`'s front member: a buff shifting `a` by `amount` for
/// `duration` turns, counted from round 0, with no tick.
pub open spec fn card_stage_status(side: Side, a: AttributeType, amount: i32, duration: i32) -> StatusView {
    StatusView {
        id: card_stage_id(side, a),
        name: "技能牌属性强化"@,
        category: StatusCategory::Buff,
        remaining_turns: duration,
        applied_round: 0,
        source_side: Some(side),
        tick_timing: None,
        stage_modifiers: seq![StatusStageModifier { attribute: a, amount }],
        fixed_damage_on_tick: 0,
        heal_on_tick: 0,
        heal_taken_multiplier: None,
        evade_charges: 0,
    }
}

/// Puts the card stage status on `side`'s front member (see `card_stage_status`); says whether
/// there was a valid front member.
pub fn apply_stage_status_on_active(
    side: Side,
    attribute: AttributeType,
    amount: i32,
    duration_turns: i32,
    team: &mut Team,
) -> (applied: bool)
    ensures
        applied == old(team)@.has_active(),
        !applied ==> final(team)@ == old(team)@,
        applied ==> {
            let front = old(team)@.members[old(team)@.active].state;
            let b = spec_upsert(front.statuses, card_stage_status(side, attribute, amount, duration_turns));
            final(team)@ == front_replaced(old(team)@, CombatView { statuses: b, stats: spec_recalc(front.stats, b), ..front })
        },
{
    let a = team.active_index;
    if a >= team.combatants.len() {
        return false;
    }
    let id = card_stage_id_text(side, attribute);
    let mut mods: Vec<StatusStageModifier> = Vec::new();
    mods.push(StatusStageModifier { attribute, amount });
    let status = StatusInstance {
        id,
        name: String::from_str("技能牌属性强化"),
        category: StatusCategory::Buff,
        remaining_turns: duration_turns,
        applied_round: 0,
        source_side: Some(side),
        tick_timing: None,
        stage_modifiers: mods,
        fixed_damage_on_tick: 0,
        heal_on_tick: 0,
        heal_taken_multiplier: None,
        evade_charges: 0,
    };
    assert(status@.stage_modifiers =~= seq![StatusStageModifier { attribute, amount }]);
    assert(status@ == card_stage_status(side, attribute, amount, duration_turns));
    let ghost m0 = team@.members;
    let mut c = team.combatants.remove(a);
    assert(c@ == m0[a as int]);
    let _ = upsert_status_instance(&mut c.state.statuses, status, &mut c.state.stats);
    let ghost cv = c@;
    team.combatants.insert(a, c);
    assert(team@.members =~= m0.update(a as int, cv));
    true
}

/// How many of the team's members have HP left.
pub open spec fn alive_count(m: Seq<MemberView>) -> nat
    decreases m.len(),
{
    if m.len() == 0 {
        0
    } else {
        alive_count(m.drop_last()) + if m.last().state.stats.hp > 0 {
            1nat
        } else {
            0nat
        }
    }
}

pub fn team_alive_count(team: &Team) -> (n: usize)
    ensures
        n == alive_count(team@.members),
{
    let ghost m = team@.members;
    let mut n: usize = 0;
    let mut i: usize = 0;
    while i < team.combatants.len()
        invariant
            i <= team.combatants@.len(),
            m == team@.members,
            n == alive_count(m.subrange(0, i as int)),
            n <= i,
        decreases team.combatants@.len() - i,
    {
        assert(m.subrange(0, i + 1).drop_last() =~= m.subrange(0, i as int));
        assert(m.subrange(0, i + 1).last() == team.combatants@[i as int]@);
        if team.combatants[i].state.stats.hp > 0 {
            n = n + 1;
        }
        i = i + 1;
    }
    assert(m.subrange(0, i as int) =~= m);
    n
}

/// `b` without any status whose id is `id`.
pub open spec fn without_id(b: Seq<StatusView>, id: Seq<char>) -> Seq<StatusView>
    decreases b.len(),
{
    if b.len() == 0 {
        b
    } else if b.last().id == id {
        without_id(b.drop_last(), id)
    } else {
        without_id(b.drop_last(), id).push(b.last())
    }
}

/// Index of the first status of category `c`, or -1.
pub open spec fn first_of_category(b: Seq<StatusView>, c: StatusCategory) -> int
    decreases b.len(),
{
    if b.len() == 0 {
        -1
    } else if first_of_category(b.drop_last(), c) >= 0 {
        first_of_category(b.drop_last(), c)
    } else if b.last().category == c {
        b.len() - 1
    } else {
        -1
    }
}

proof fn lemma_first_of_category(b: Seq<StatusView>, c: StatusCategory)
    ensures
        -1 <= first_of_category(b, c) < b.len(),
    decreases b.len(),
{
    if b.len() > 0 {
        lemma_first_of_category(b.drop_last(), c);
    }
}

proof fn lemma_first_of_category_prefix(b: Seq<StatusView>, c: StatusCategory, n: int)
    requires
        0 <= n <= b.len(),
        first_of_category(b.subrange(0, n), c) >= 0,
    ensures
        first_of_category(b, c) == first_of_category(b.subrange(0, n), c),
    decreases b.len() - n,
{
    if n == b.len() {
        assert(b.subrange(0, n) =~= b);
    } else {
        assert(b.subrange(0, n + 1).drop_last() =~= b.subrange(0, n));
        lemma_first_of_category_prefix(b, c, n + 1);
    }
}

/// A card cleanse: the categories are tried in order; for the aura category the oldest aura
/// comes off with its marker statuses, else the first status of the category comes off.
pub open spec fn cleanse_categories(cv: CombatView, cats: Seq<StatusCategory>, i: int) -> (CombatView, bool)
    decreases cats.len() - i,
{
    if i < 0 || i >= cats.len() {
        (cv, false)
    } else {
        let c = cats[i];
        let elems = aura_elems(cv.aura);
        if c == StatusCategory::Aura && elems.len() > 0 {
            let e = elems[0];
            let b = match spec_aura_status_id(e) {
                Some(id) => without_id(cv.statuses, id),
                None => cv.statuses,
            };
            (CombatView { aura: aura_without(cv.aura, e), statuses: b, stats: spec_recalc(cv.stats, b), ..cv }, true)
        } else if first_of_category(cv.statuses, c) >= 0 {
            let b = cv.statuses.remove(first_of_category(cv.statuses, c));
            (CombatView { statuses: b, stats: spec_recalc(cv.stats, b), ..cv }, true)
        } else {
            cleanse_categories(cv, cats, i + 1)
        }
    }
}

fn remove_all_with_id(board: &mut StatusBoard, id: &str)
    ensures
        final(board)@ == without_id(old(board)@, id@),
{
    let ghost b = board@;
    let mut rest: Vec<StatusInstance> = Vec::new();
    std::mem::swap(&mut rest, &mut board.entries);
    assert(entries_view(rest@) == b);
    let mut kept: Vec<StatusInstance> = Vec::new();
    let n = rest.len();
    let mut k: usize = 0;
    assert(b.subrange(0, n as int) =~= b);
    while k < n
        invariant
            n == b.len(),
            k <= n,
            entries_view(rest@) == b.subrange(k as int, n as int),
            rest@.len() == n - k,
            entries_view(kept@) == without_id(b.subrange(0, k as int), id@),
        decreases n - k,
    {
        let ghost pre = b.subrange(0, k + 1);
        assert(pre.drop_last() =~= b.subrange(0, k as int));
        assert(entries_view(rest@)[0] == b[k as int]);
        assert(rest@[0]@ == b[k as int]);
        let ghost r0 = rest@;
        let e = rest.remove(0);
        assert forall|j: int| 0 <= j < rest@.len() implies #[trigger] entries_view(rest@)[j] == b.subrange(
            k + 1,
            n as int,
        )[j] by {
            assert(rest@[j] == r0[j + 1]);
            assert(entries_view(r0)[j + 1] == b.subrange(k as int, n as int)[j + 1]);
        }
        assert(entries_view(rest@) =~= b.subrange(k + 1, n as int));
        let same = str_eq(e.id.as_str(), id);
        if !same {
            let ghost kv = kept@;
            kept.push(e);
            assert(entries_view(kept@) =~= entries_view(kv).push(e@));
        }
        k = k + 1;
    }
    board.entries = kept;
}

fn find_category(board: &StatusBoard, c: StatusCategory) -> (r: Option<usize>)
    ensures
        match r {
            Some(i) => first_of_category(board@, c) == i as int,
            None => first_of_category(board@, c) < 0,
        },
{
    let ghost b = board@;
    let mut k: usize = 0;
    while k < board.entries.len()
        invariant
            k <= board.entries@.len(),
            b == board@,
            first_of_category(b.subrange(0, k as int), c) < 0,
        decreases board.entries@.len() - k,
    {
        let ghost pre = b.subrange(0, k + 1);
        assert(pre.drop_last() =~= b.subrange(0, k as int));
        assert(pre.last() == board.entries@[k as int]@);
        if board.entries[k].category == c {
            proof {
                lemma_first_of_category_prefix(b, c, k + 1);
            }
            return Some(k);
        }
        k = k + 1;
    }
    assert(b.subrange(0, k as int) =~= b);
    None
}

fn cleanse_state(state: &mut CombatState, cats: &Vec<StatusCategory>) -> (removed: bool)
    ensures
        (final(state)@, removed) == cleanse_categories(old(state)@, cats@, 0),
{
    let mut i: usize = 0;
    while i < cats.len()
        invariant
            i <= cats@.len(),
            *state == *old(state),
            cleanse_categories(old(state)@, cats@, 0) == cleanse_categories(old(state)@, cats@, i as int),
        decreases cats@.len() - i,
    {
        let c = cats[i];
        if c == StatusCategory::Aura {
            match state.aura.primary() {
                Some(e) => {
                    let _ = state.aura.remove(e);
                    match aura_status_id(e) {
                        Some(id) => remove_all_with_id(&mut state.statuses, id),
                        None => {},
                    }
                    recalculate_stage_modifiers(&mut state.stats, &state.statuses);
                    return true;
                },
                None => {},
            }
        }
        proof {
            lemma_first_of_category(state.statuses@, c);
        }
        match find_category(&state.statuses, c) {
            Some(idx) => {
                let _ = state.statuses.entries.remove(idx);
                assert(state.statuses@ =~= old(state).statuses@.remove(idx as int));
                recalculate_stage_modifiers(&mut state.stats, &state.statuses);
                return true;
            },
            None => {},
        }
        i = i + 1;
    }
    false
}

/// The card cleanse on `side`'s front member (see `cleanse_categories`); says whether something
/// came off (never without a valid front member).
pub fn cleanse_one(categories: &Vec<StatusCategory>, team: &mut Team) -> (removed: bool)
    ensures
        !old(team)@.has_active() ==> !removed && final(team)@ == old(team)@,
        old(team)@.has_active() ==> {
            let r = cleanse_categories(old(team)@.members[old(team)@.active].state, categories@, 0);
            &&& removed == r.1
            &&& final(team)@ == front_replaced(old(team)@, r.0)
        },
{
    let a = team.active_index;
    if a >= team.combatants.len() {
        return false;
    }
    let ghost m0 = team@.members;
    let mut c = team.combatants.remove(a);
    assert(c@ == m0[a as int]);
    let removed = cleanse_state(&mut c.state, categories);
    let ghost cv = c@;
    team.combatants.insert(a, c);
    assert(team@.members =~= m0.update(a as int, cv));
    removed
}

/// Fixed card damage from `source` on `target`'s front member, through its shield (nothing
/// without a valid front member).
pub fn apply_fixed_damage_to_active(
    source: Side,
    target: Side,
    amount: i32,
    team: &mut Team,
    events: &mut Vec<BattleEvent>,
)
    ensures
        !old(team)@.has_active() ==> final(team)@ == old(team)@ && events_view(final(events)@)
            == events_view(old(events)@),
        old(team)@.has_active() ==> {
            let h = fixed_hit(old(team)@.members[old(team)@.active].state, source, target, amount as int, false, events_view(old(events)@), DamageType::Fixed);
            &&& final(team)@ == front_replaced(old(team)@, h.0)
            &&& events_view(final(events)@) == h.1
        },
{
    let a = team.active_index;
    if a >= team.combatants.len() {
        return;
    }
    let ghost m0 = team@.members;
    let mut c = team.combatants.remove(a);
    assert(c@ == m0[a as int]);
    let _ = hit_combatant(source, target, amount, false, &mut c.state, events, DamageType::Fixed);
    let ghost cv = c@;
    team.combatants.insert(a, c);
    assert(team@.members =~= m0.update(a as int, cv));
}

/// Whether `s` holds the separator ` + ` at `j`.
pub open spec fn is_sep_at(s: Seq<char>, j: int) -> bool {
    0 <= j && j + 3 <= s.len() && s[j] == ' ' && s[j + 1] == '+' && s[j + 2] == ' '
}

/// The first separator at or after `i`, or -1.
pub open spec fn next_sep(s: Seq<char>, i: int) -> int
    decreases s.len() - i,
{
    if i < 0 || i + 3 > s.len() {
        -1
    } else if is_sep_at(s, i) {
        i
    } else {
        next_sep(s, i + 1)
    }
}

proof fn lemma_next_sep(s: Seq<char>, i: int)
    requires
        0 <= i,
    ensures
        next_sep(s, i) == -1 || (i <= next_sep(s, i) && next_sep(s, i) + 3 <= s.len()),
    decreases s.len() - i,
{
    if i + 3 <= s.len() && !is_sep_at(s, i) {
        lemma_next_sep(s, i + 1);
    }
}

/// The pieces of `s` from `start` on between the ` + ` separators (as `str::split` gives them).
pub open spec fn segments_from(s: Seq<char>, start: int) -> Seq<Seq<char>>
    decreases s.len() - start,
{
    if start < 0 || start > s.len() {
        seq![]
    } else {
        let j = next_sep(s, start);
        if j < start || j + 3 > s.len() {
            seq![s.subrange(start, s.len() as int)]
        } else {
            seq![s.subrange(start, j)] + segments_from(s, j + 3)
        }
    }
}

/// A card source list with `src` added, unless it is already one of its pieces.
pub open spec fn merged_sources(existing: Seq<char>, src: Seq<char>) -> Seq<char> {
    if segments_from(existing, 0).contains(src) {
        existing
    } else {
        existing + " + "@ + src
    }
}

fn find_sep(s: &str, start: usize) -> (r: usize)
    requires
        start <= s@.len(),
    ensures
        next_sep(s@, start as int) == -1 ==> r == s@.len(),
        next_sep(s@, start as int) != -1 ==> r as int == next_sep(s@, start as int),
{
    let n = s.unicode_len();
    let mut i = start;
    while i < n && n - i >= 3
        invariant
            n == s@.len(),
            start <= i <= n,
            next_sep(s@, start as int) == next_sep(s@, i as int),
        decreases n - i,
    {
        if s.get_char(i) == ' ' && s.get_char(i + 1) == '+' && s.get_char(i + 2) == ' ' {
            return i;
        }
        i = i + 1;
    }
    n
}

fn range_eq(s: &str, start: usize, end: usize, t: &str) -> (r: bool)
    requires
        start <= end <= s@.len(),
    ensures
        r == (s@.subrange(start as int, end as int) == t@),
{
    let m = t.unicode_len();
    if end - start != m {
        return false;
    }
    let mut i: usize = 0;
    while i < m
        invariant
            m == t@.len(),
            end - start == m,
            start <= end <= s@.len(),
            i <= m,
            forall|k: int| 0 <= k < i ==> s@[start + k] == t@[k],
        decreases m - i,
    {
        if s.get_char(start + i) != t.get_char(i) {
            assert(s@.subrange(start as int, end as int)[i as int] != t@[i as int]);
            return false;
        }
        i = i + 1;
    }
    assert(s@.subrange(start as int, end as int) =~= t@);
    true
}

proof fn lemma_contains_cons(a: Seq<char>, r: Seq<Seq<char>>, t: Seq<char>)
    ensures
        (seq![a] + r).contains(t) == (a == t || r.contains(t)),
{
    let whole = seq![a] + r;
    if whole.contains(t) {
        let k = choose|k: int| 0 <= k < whole.len() && whole[k] == t;
        if k > 0 {
            assert(r[k - 1] == t);
        }
    }
    if a == t {
        assert(whole[0] == t);
    }
    if r.contains(t) {
        let k = choose|k: int| 0 <= k < r.len() && r[k] == t;
        assert(whole[k + 1] == t);
    }
}

fn has_segment(s: &str, t: &str) -> (b: bool)
    ensures
        b == segments_from(s@, 0).contains(t@),
{
    let n = s.unicode_len();
    let mut start: usize = 0;
    loop
        invariant
            n == s@.len(),
            start <= n,
            segments_from(s@, 0).contains(t@) == segments_from(s@, start as int).contains(t@),
        decreases n - start,
    {
        let j = find_sep(s, start);
        proof {
            lemma_next_sep(s@, start as int);
        }
        if j == n {
            proof {
                assert(segments_from(s@, start as int) == seq![s@.subrange(start as int, n as int)]);
                let one = seq![s@.subrange(start as int, n as int)];
                if one.contains(t@) {
                    let k = choose|k: int| 0 <= k < one.len() && one[k] == t@;
                    assert(k == 0);
                }
                if s@.subrange(start as int, n as int) == t@ {
                    assert(one[0] == t@);
                }
            }
            return range_eq(s, start, n, t);
        }
        proof {
            lemma_contains_cons(s@.subrange(start as int, j as int), segments_from(s@, j + 3), t@);
        }
        if range_eq(s, start, j, t) {
            return true;
        }
        start = j + 3;
    }
}

/// Adds `source` to a card source list unless it is already one of its pieces.
pub fn merge_card_effect_sources(existing: &mut String, source: &str)
    ensures
        final(existing)@ == merged_sources(old(existing)@, source@),
{
    if !has_segment(existing.as_str(), source) {
        existing.append(" + ");
        existing.append(source);
    }
}

/// What a side did in its current action, as the cards read it.
#[derive(Debug, Clone, Copy, PartialEq, Eq, Structural)]
pub struct SideTurnMemory {
    pub knocked_out_opponent_this_turn: bool,
    pub switched_this_turn: bool,
}

#[derive(Debug, Clone, Copy, PartialEq, Eq, Structural)]
pub struct CardTurnMemory {
    pub player: SideTurnMemory,
    pub enemy: SideTurnMemory,
}

impl CardTurnMemory {
    pub open spec fn of(self, side: Side) -> SideTurnMemory {
        match side {
            Side::Player => self.player,
            Side::Enemy => self.enemy,
        }
    }

    pub fn new() -> (m: Self)
        ensures
            !m.player.knocked_out_opponent_this_turn && !m.player.switched_this_turn,
            !m.enemy.knocked_out_opponent_this_turn && !m.enemy.switched_this_turn,
    {
        let fresh = SideTurnMemory { knocked_out_opponent_this_turn: false, switched_this_turn: false };
        CardTurnMemory { player: fresh, enemy: fresh }
    }
}

/// A tactical discard waiting for `side`: after discarding another card it draws `draw`.
#[derive(Debug, Clone)]
pub struct PendingTacticalDiscard {
    pub side: Side,
    pub draw: usize,
    pub source_card: String,
}

/// `a + b` for counts, capped at the largest `usize`.
pub open spec fn count_add(a: int, b: int) -> int {
    min_int(a + b, usize::MAX as int)
}

fn add_count(a: usize, b: usize) -> (r: usize)
    ensures
        r == count_add(a as int, b as int),
{
    if a <= usize::MAX - b {
        a + b
    } else {
        usize::MAX
    }
}

fn add_i32(slot: &mut i32, amount: i32)
    ensures
        *final(slot) == sat_i32(*old(slot) + amount),
{
    *slot = to_i32_sat(*slot as i64 + amount as i64);
}

/// An optional AP or damage bonus after `amount` more.
pub open spec fn pending_sum(slot: Option<i32>, amount: i32) -> Option<i32> {
    Some(
        sat_i32(
            match slot {
                Some(v) => v as int,
                None => 0,
            } + amount,
        ) as i32,
    )
}

fn add_i32_pending(slot: &mut Option<i32>, amount: i32)
    ensures
        *final(slot) == pending_sum(*old(slot), amount),
{
    let base: i32 = match *slot {
        Some(v) => v,
        None => 0,
    };
    *slot = Some(to_i32_sat(base as i64 + amount as i64));
}

/// `es` with each element of `xs` not yet in it appended, in order.
pub open spec fn with_new_elements(es: Seq<ElementType>, xs: Seq<ElementType>) -> Seq<ElementType>
    decreases xs.len(),
{
    if xs.len() == 0 {
        es
    } else {
        let r = with_new_elements(es, xs.drop_last());
        if r.contains(xs.last()) {
            r
        } else {
            r.push(xs.last())
        }
    }
}

fn add_new_elements(es: &mut Vec<ElementType>, xs: &Vec<ElementType>)
    ensures
        final(es)@ == with_new_elements(old(es)@, xs@),
{
    let mut k: usize = 0;
    while k < xs.len()
        invariant
            k <= xs@.len(),
            es@ == with_new_elements(old(es)@, xs@.subrange(0, k as int)),
        decreases xs@.len() - k,
    {
        assert(xs@.subrange(0, k + 1).drop_last() =~= xs@.subrange(0, k as int));
        let x = xs[k];
        let mut found = false;
        let mut j: usize = 0;
        while j < es.len()
            invariant
                j <= es@.len(),
                found == (exists|q: int| 0 <= q < j && es@[q] == x),
            decreases es@.len() - j,
        {
            if es[j] == x {
                found = true;
            }
            j = j + 1;
        }
        if !found {
            es.push(x);
        }
        k = k + 1;
    }
    assert(xs@.subrange(0, k as int) =~= xs@);
}

/// A pending draw `(count, sources)` after `amount` more from card `name`.
pub open spec fn draw_source_sum(slot: Option<(usize, String)>, amount: usize, name: Seq<char>, f: Option<(usize, String)>) -> bool {
    match slot {
        Some((a, src)) => match f {
            Some((fa, fs)) => fa == count_add(a as int, amount as int) && fs@ == merged_sources(src@, name),
            None => false,
        },
        None => match f {
            Some((fa, fs)) => fa == amount && fs@ == name,
            None => false,
        },
    }
}

fn add_draw_source(slot: &mut Option<(usize, String)>, amount: usize, name: &String)
    ensures
        draw_source_sum(*old(slot), amount, name@, *final(slot)),
{
    match slot {
        Some(entry) => {
            entry.0 = add_count(entry.0, amount);
            merge_card_effect_sources(&mut entry.1, name.as_str());
        },
        None => {
            *slot = Some((amount, name.clone()));
        },
    }
}

/// A pending skill-cost draw after a card for `cost`-AP skills drawing `draw`: merged when it
/// names the same cost, else replaced.
pub open spec fn skill_cost_draw_sum(
    slot: Option<(i32, usize, String)>,
    cost: i32,
    draw: usize,
    name: Seq<char>,
    f: Option<(i32, usize, String)>,
) -> bool {
    match slot {
        Some((c, d, src)) => if c == cost {
            match f {
                Some((fc, fd, fs)) => fc == c && fd == count_add(d as int, draw as int) && fs@ == merged_sources(src@, name),
                None => false,
            }
        } else {
            match f {
                Some((fc, fd, fs)) => fc == cost && fd == draw && fs@ == name,
                None => false,
            }
        },
        None => match f {
            Some((fc, fd, fs)) => fc == cost && fd == draw && fs@ == name,
            None => false,
        },
    }
}

fn add_skill_cost_draw(slot: &mut Option<(i32, usize, String)>, cost: i32, draw: usize, name: &String)
    ensures
        skill_cost_draw_sum(*old(slot), cost, draw, name@, *final(slot)),
{
    let same = match slot {
        Some(entry) => entry.0 == cost,
        None => false,
    };
    if same {
        match slot {
            Some(entry) => {
                entry.1 = add_count(entry.1, draw);
                merge_card_effect_sources(&mut entry.2, name.as_str());
            },
            None => {},
        }
    } else {
        *slot = Some((cost, draw, name.clone()));
    }
}

/// The wind-spread bonus after a card adding `amount` for `elements`.
pub open spec fn wind_bonus_sum(
    slot: Option<(i32, Vec<ElementType>)>,
    amount: i32,
    elements: Seq<ElementType>,
    f: Option<(i32, Vec<ElementType>)>,
) -> bool {
    match slot {
        Some((a, es)) => match f {
            Some((fa, fes)) => fa == sat_i32(a + amount) && fes@ == with_new_elements(es@, elements),
            None => false,
        },
        None => match f {
            Some((fa, fes)) => fa == amount && fes@ == elements,
            None => false,
        },
    }
}

fn add_wind_bonus(slot: &mut Option<(i32, Vec<ElementType>)>, amount: i32, elements: &Vec<ElementType>)
    ensures
        wind_bonus_sum(*old(slot), amount, elements@, *final(slot)),
{
    match slot {
        Some(entry) => {
            add_i32(&mut entry.0, amount);
            add_new_elements(&mut entry.1, elements);
        },
        None => {
            *slot = Some((amount, elements.clone()));
        },
    }
}

/// `side` drew `n` cards from the piles into its hand.
pub open spec fn drew(side: Side, n: nat, deck: Seq<CardId>, oh: Hand, fh: Hand, op: CardPiles, fp: CardPiles) -> bool {
    let d = spec_draw_n(op.draw@, op.discard@, deck, n);
    &&& fp.draw@ == d.0
    &&& fp.discard@ == d.1
    &&& fh.of(side) == oh.of(side) + d.2
    &&& fh.of(spec_opposite_side(side)) == oh.of(spec_opposite_side(side))
}

/// Hands and piles unchanged.
pub open spec fn cards_kept(oh: Hand, fh: Hand, op: CardPiles, fp: CardPiles) -> bool {
    &&& fh.player@ == oh.player@
    &&& fh.enemy@ == oh.enemy@
    &&& fp.draw@ == op.draw@
    &&& fp.discard@ == op.discard@
}

/// A card's shield for `side` (see `gain_shield_on_active`).
pub open spec fn shield_card(
    side: Side,
    amount: i32,
    ob: PendingBoosts,
    fb: PendingBoosts,
    ot: TeamView,
    ft: TeamView,
    oev: Seq<EventView>,
    fev: Seq<EventView>,
) -> bool {
    if !ot.has_active() {
        &&& fb == ob
        &&& ft == ot
        &&& fev == oev
    } else {
        let front = ot.members[ot.active].state;
        let p = ob.of(side);
        let gained = capped_gain(front.shield as int, front.stats.max_hp as int, max_int(sat_i32(amount + p.next_shield_bonus), 0));
        &&& fb == boosts_with(ob, side, PendingBoost { next_shield_bonus: 0, ..p })
        &&& ft == front_replaced(ot, CombatView { shield: (front.shield + gained) as i32, ..front })
        &&& fev == oev.push(EventView::ShieldGained { side, amount: gained as i32 })
    }
}

/// The name an attribute is written with in card texts.
pub open spec fn attribute_word(a: AttributeType) -> Seq<char> {
    match a {
        AttributeType::Atk => "Atk"@,
        AttributeType::Def => "Def"@,
        AttributeType::Spd => "Spd"@,
        AttributeType::Acc => "Acc"@,
    }
}

fn attribute_word_text(a: AttributeType) -> (s: &'static str)
    ensures
        s@ == attribute_word(a),
{
    match a {
        AttributeType::Atk => "Atk",
        AttributeType::Def => "Def",
        AttributeType::Spd => "Spd",
        AttributeType::Acc => "Acc",
    }
}

/// The shield a card's shield of `amount` gives `side`'s front member (see `shield_card`): none
/// without a front member.
pub open spec fn card_shield_gain(side: Side, amount: i32, ob: PendingBoosts, ot: TeamView) -> int {
    if ot.has_active() {
        let front = ot.members[ot.active].state;
        capped_gain(
            front.shield as int,
            front.stats.max_hp as int,
            max_int(sat_i32(amount + ob.of(side).next_shield_bonus), 0),
        )
    } else {
        0
    }
}

/// The text that describes what playing `card` for `side` did, from the hands before (`oh`) and
/// after (`fh`), the bonuses and `side`'s team before: the amounts the card adds, the cards it
/// drew, the shield it gave, whether it cleansed, and so on.
pub open spec fn spec_card_detail(
    side: Side,
    card: CardDef,
    mem: CardTurnMemory,
    oh: Hand,
    fh: Hand,
    ob: PendingBoosts,
    ot: TeamView,
) -> Seq<char> {
    let drawn = fh.of(side).len() - oh.of(side).len();
    match card.effect {
        CardEffect::GainAp { amount } => "获得AP="@ + int_decimal(amount as int),
        CardEffect::NextAttackBoost { amount } => "下次攻击加成="@ + int_decimal(amount as int),
        CardEffect::NextShieldBoost { amount } => "下次护盾加成="@ + int_decimal(amount as int),
        CardEffect::NextHealBoost { amount } => "下次治疗加成="@ + int_decimal(amount as int),
        CardEffect::NextElementAttachmentGainAp { amount } => "下次元素附着/反应获得AP="@ + int_decimal(amount as int),
        CardEffect::NextReactionFixedDamage { amount, .. } => "下次元素反应追加固定伤害="@ + int_decimal(amount as int),
        CardEffect::NextWindSpreadDamage { amount, .. } => "下次指定元素扩散追加固定伤害="@ + int_decimal(amount as int),
        CardEffect::NextAuraAttackDraw { amount } => "下次攻击命中附着目标抽牌="@ + int_decimal(amount as int),
        CardEffect::DiscardOtherDrawGainAp { draw, gain_ap } => if oh.of(side).len() == 0 {
            "没有其他手牌，效果未触发"@
        } else {
            "等待选择弃置其他手牌1；弃后抽牌="@ + int_decimal(draw as int) + "；弃牌获得AP="@ + int_decimal(gain_ap as int)
        },
        CardEffect::NextSkillCostDraw { skill_cost, draw } => "下次使用"@ + int_decimal(skill_cost as int) + "AP技能后抽牌="@
            + int_decimal(draw as int),
        CardEffect::DrawIfKnockedOutThisTurn { amount } => if mem.of(side).knocked_out_opponent_this_turn {
            "本行动已击倒目标；抽牌="@ + int_decimal(drawn)
        } else {
            "等待本行动内击倒敌方精灵后抽牌="@ + int_decimal(amount as int)
        },
        CardEffect::GainShield { amount } => "获得护盾="@ + int_decimal(card_shield_gain(side, amount, ob, ot)),
        CardEffect::ShieldAbsorbGainAp { amount } => "敌方下次行动前护盾吸收伤害时获得AP="@ + int_decimal(amount as int),
        CardEffect::ModifyStages { attribute, amount, duration_turns } => if ot.has_active() {
            attribute_word(attribute) + "等级变化="@ + int_decimal(amount as int) + "，持续"@ + int_decimal(
                duration_turns as int,
            ) + "回合"@
        } else {
            "属性等级效果未触发"@
        },
        CardEffect::CleanseOrGainAp { categories, fallback_ap } => if ot.has_active() && cleanse_categories(
            ot.members[ot.active].state,
            categories@,
            0,
        ).1 {
            "清除1个可清除效果"@
        } else {
            "无可清除效果；获得AP="@ + int_decimal(fallback_ap as int)
        },
        CardEffect::DrawAndGainApIfAliveTeam { min_alive, gain_ap, .. } => if alive_count(ot.members) >= min_alive {
            "抽牌="@ + int_decimal(drawn) + "；存活队友数="@ + int_decimal(alive_count(ot.members) as int) + "，获得AP="@
                + int_decimal(gain_ap as int)
        } else {
            "抽牌="@ + int_decimal(drawn) + "；存活队友数="@ + int_decimal(alive_count(ot.members) as int) + "，未获得额外AP"@
        },
        CardEffect::GainShieldDrawIfSwitchedThisTurn { shield, draw } => if mem.of(side).switched_this_turn {
            "获得护盾="@ + int_decimal(card_shield_gain(side, shield, ob, ot)) + "；本行动已换人，抽牌="@ + int_decimal(drawn)
        } else {
            "获得护盾="@ + int_decimal(card_shield_gain(side, shield, ob, ot)) + "；等待本行动内换人后抽牌="@ + int_decimal(
                draw as int,
            )
        },
    }
}

fn number_text(label: &str, n: i128) -> (s: String)
    ensures
        s@ == label@ + int_decimal(n as int),
{
    format_number_after(label, n)
}

fn two_numbers(a: &str, n: i128, b: &str, m: i128) -> (s: String)
    ensures
        s@ == a@ + int_decimal(n as int) + b@ + int_decimal(m as int),
{
    let first = format_number_after(a, n);
    let head = concat_text(first.as_str(), b);
    format_number_after(head.as_str(), m)
}

/// What playing `card` does for `side`, as a relation between the state before (`o..`) and
/// after (`f..`): hands, piles, AP, bonuses, the tactical discard, `side`'s team and the events.
#[verifier::opaque]
pub open spec fn card_post(
    side: Side,
    card: CardDef,
    deck: Seq<CardId>,
    mem: CardTurnMemory,
    oh: Hand,
    fh: Hand,
    op: CardPiles,
    fp: CardPiles,
    oa: ActionPoints,
    fa: ActionPoints,
    ob: PendingBoosts,
    fb: PendingBoosts,
    otac: Option<PendingTacticalDiscard>,
    ftac: Option<PendingTacticalDiscard>,
    ot: TeamView,
    ft: TeamView,
    oev: Seq<EventView>,
    fev: Seq<EventView>,
) -> bool {
    let p = ob.of(side);
    let fpb = fb.of(side);
    let gain = |a: ActionPoints, amount: i32| a.with(side, spec_gain(a.of(side) as int, amount as int) as i32);
    match card.effect {
        CardEffect::GainAp { amount } => {
            &&& fa == gain(oa, amount)
            &&& cards_kept(oh, fh, op, fp) &&& fb == ob &&& ftac == otac &&& ft == ot &&& fev == oev
        },
        CardEffect::NextAttackBoost { amount } => {
            &&& fb == boosts_with(ob, side, PendingBoost { next_attack_bonus: sat_i32(p.next_attack_bonus + amount) as i32, ..p })
            &&& cards_kept(oh, fh, op, fp) &&& fa == oa &&& ftac == otac &&& ft == ot &&& fev == oev
        },
        CardEffect::NextShieldBoost { amount } => {
            &&& fb == boosts_with(ob, side, PendingBoost { next_shield_bonus: sat_i32(p.next_shield_bonus + amount) as i32, ..p })
            &&& cards_kept(oh, fh, op, fp) &&& fa == oa &&& ftac == otac &&& ft == ot &&& fev == oev
        },
        CardEffect::NextHealBoost { amount } => {
            &&& fb == boosts_with(ob, side, PendingBoost { next_heal_bonus: sat_i32(p.next_heal_bonus + amount) as i32, ..p })
            &&& cards_kept(oh, fh, op, fp) &&& fa == oa &&& ftac == otac &&& ft == ot &&& fev == oev
        },
        CardEffect::NextElementAttachmentGainAp { amount } => {
            &&& fb == boosts_with(ob, side, PendingBoost { next_element_attachment_ap: pending_sum(p.next_element_attachment_ap, amount), ..p })
            &&& cards_kept(oh, fh, op, fp) &&& fa == oa &&& ftac == otac &&& ft == ot &&& fev == oev
        },
        CardEffect::NextReactionFixedDamage { amount, .. } => {
            &&& fb == boosts_with(ob, side, PendingBoost { next_reaction_fixed_damage: pending_sum(p.next_reaction_fixed_damage, amount), ..p })
            &&& cards_kept(oh, fh, op, fp) &&& fa == oa &&& ftac == otac &&& ft == ot &&& fev == oev
        },
        CardEffect::NextWindSpreadDamage { amount, elements, .. } => {
            &&& fb == boosts_with(ob, side, PendingBoost { next_wind_spread_damage: fpb.next_wind_spread_damage, ..p })
            &&& wind_bonus_sum(p.next_wind_spread_damage, amount, elements@, fpb.next_wind_spread_damage)
            &&& cards_kept(oh, fh, op, fp) &&& fa == oa &&& ftac == otac &&& ft == ot &&& fev == oev
        },
        CardEffect::NextAuraAttackDraw { amount } => {
            &&& fb == boosts_with(ob, side, PendingBoost { next_aura_attack_draw: fpb.next_aura_attack_draw, ..p })
            &&& draw_source_sum(p.next_aura_attack_draw, amount, card.name@, fpb.next_aura_attack_draw)
            &&& cards_kept(oh, fh, op, fp) &&& fa == oa &&& ftac == otac &&& ft == ot &&& fev == oev
        },
        CardEffect::DiscardOtherDrawGainAp { draw, .. } => {
            &&& oh.of(side).len() == 0 ==> ftac == otac
            &&& oh.of(side).len() > 0 ==> match ftac {
                Some(t) => t.side == side && t.draw == draw && t.source_card@ == card.name@,
                None => false,
            }
            &&& cards_kept(oh, fh, op, fp) &&& fa == oa &&& fb == ob &&& ft == ot &&& fev == oev
        },
        CardEffect::NextSkillCostDraw { skill_cost, draw } => {
            &&& fb == boosts_with(ob, side, PendingBoost { next_skill_cost_draw: fpb.next_skill_cost_draw, ..p })
            &&& skill_cost_draw_sum(p.next_skill_cost_draw, skill_cost, draw, card.name@, fpb.next_skill_cost_draw)
            &&& cards_kept(oh, fh, op, fp) &&& fa == oa &&& ftac == otac &&& ft == ot &&& fev == oev
        },
        CardEffect::DrawIfKnockedOutThisTurn { amount } => {
            &&& mem.of(side).knocked_out_opponent_this_turn ==> drew(side, amount as nat, deck, oh, fh, op, fp) && fb == ob
            &&& !mem.of(side).knocked_out_opponent_this_turn ==> {
                &&& cards_kept(oh, fh, op, fp)
                &&& fb == boosts_with(ob, side, PendingBoost { next_knockout_draw: fpb.next_knockout_draw, ..p })
                &&& draw_source_sum(p.next_knockout_draw, amount, card.name@, fpb.next_knockout_draw)
            }
            &&& fa == oa &&& ftac == otac &&& ft == ot &&& fev == oev
        },
        CardEffect::GainShield { amount } => {
            &&& shield_card(side, amount, ob, fb, ot, ft, oev, fev)
            &&& cards_kept(oh, fh, op, fp) &&& fa == oa &&& ftac == otac
        },
        CardEffect::ShieldAbsorbGainAp { amount } => {
            &&& fb == boosts_with(ob, side, PendingBoost { shield_absorb_ap: pending_sum(p.shield_absorb_ap, amount), ..p })
            &&& cards_kept(oh, fh, op, fp) &&& fa == oa &&& ftac == otac &&& ft == ot &&& fev == oev
        },
        CardEffect::ModifyStages { attribute, amount, duration_turns } => {
            &&& !ot.has_active() ==> ft == ot
            &&& ot.has_active() ==> {
                let front = ot.members[ot.active].state;
                let b = spec_upsert(front.statuses, card_stage_status(side, attribute, amount, duration_turns));
                ft == front_replaced(ot, CombatView { statuses: b, stats: spec_recalc(front.stats, b), ..front })
            }
            &&& cards_kept(oh, fh, op, fp) &&& fa == oa &&& fb == ob &&& ftac == otac &&& fev == oev
        },
        CardEffect::CleanseOrGainAp { categories, fallback_ap } => {
            let r = cleanse_categories(ot.members[ot.active].state, categories@, 0);
            let removed = ot.has_active() && r.1;
            &&& !ot.has_active() ==> ft == ot
            &&& ot.has_active() ==> ft == front_replaced(ot, r.0)
            &&& fa == (if removed { oa } else { gain(oa, fallback_ap) })
            &&& cards_kept(oh, fh, op, fp) &&& fb == ob &&& ftac == otac &&& fev == oev
        },
        CardEffect::DrawAndGainApIfAliveTeam { draw, min_alive, gain_ap } => {
            &&& drew(side, draw as nat, deck, oh, fh, op, fp)
            &&& fa == (if alive_count(ot.members) >= min_alive { gain(oa, gain_ap) } else { oa })
            &&& fb == ob &&& ftac == otac &&& ft == ot &&& fev == oev
        },
        CardEffect::GainShieldDrawIfSwitchedThisTurn { shield, draw } => {
            let sb = if ot.has_active() {
                boosts_with(ob, side, PendingBoost { next_shield_bonus: 0, ..p })
            } else {
                ob
            };
            let sp = sb.of(side);
            &&& shield_card(side, shield, ob, sb, ot, ft, oev, fev)
            &&& mem.of(side).switched_this_turn ==> drew(side, draw as nat, deck, oh, fh, op, fp) && fb == sb
            &&& !mem.of(side).switched_this_turn ==> {
                &&& cards_kept(oh, fh, op, fp)
                &&& fb == boosts_with(sb, side, PendingBoost { next_switch_draw: fpb.next_switch_draw, ..sp })
                &&& draw_source_sum(sp.next_switch_draw, draw, card.name@, fpb.next_switch_draw)
            }
            &&& fa == oa &&& ftac == otac
        },
    }
}

pub proof fn lemma_boosts_side(b: PendingBoosts, f: PendingBoosts, side: Side)
    requires
        f.of(spec_opposite_side(side)) == b.of(spec_opposite_side(side)),
    ensures
        f == boosts_with(b, side, f.of(side)),
{
}

/// Plays the effect of `card` for `side` (see `card_post`); `team` is `side`'s team. Gives the
/// text that describes what it did (see `spec_card_detail`).
fn play_gain_ap(
    side: Side,
    card: &CardDef,
    deck: &Vec<CardId>,
    memory: &CardTurnMemory,
    hand: &mut Hand,
    piles: &mut CardPiles,
    action_points: &mut ActionPoints,
    pending_boosts: &mut PendingBoosts,
    tactical: &mut Option<PendingTacticalDiscard>,
    team: &mut Team,
    events: &mut Vec<BattleEvent>,
) -> (detail: String)
    requires
        card.effect is GainAp,
    ensures
        card_post(
            side,
            *card,
            deck@,
            *memory,
            *old(hand),
            *final(hand),
            *old(piles),
            *final(piles),
            *old(action_points),
            *final(action_points),
            *old(pending_boosts),
            *final(pending_boosts),
            *old(tactical),
            *final(tactical),
            old(team)@,
            final(team)@,
            events_view(old(events)@),
            events_view(final(events)@),
        ),
        detail@ == spec_card_detail(side, *card, *memory, *old(hand), *final(hand), *old(pending_boosts), old(team)@),
{
    proof {
        reveal(card_post);
    }
    match &card.effect {
        CardEffect::GainAp { amount } => {
            gain_ap(side, *amount, action_points);
            number_text("获得AP=", *amount as i128)
        },
        _ => String::new(),
    }
}

fn play_next_attack_boost(
    side: Side,
    card: &CardDef,
    deck: &Vec<CardId>,
    memory: &CardTurnMemory,
    hand: &mut Hand,
    piles: &mut CardPiles,
    action_points: &mut ActionPoints,
    pending_boosts: &mut PendingBoosts,
    tactical: &mut Option<PendingTacticalDiscard>,
    team: &mut Team,
    events: &mut Vec<BattleEvent>,
) -> (detail: String)
    requires
        card.effect is NextAttackBoost,
    ensures
        card_post(
            side,
            *card,
            deck@,
            *memory,
            *old(hand),
            *final(hand),
            *old(piles),
            *final(piles),
            *old(action_points),
            *final(action_points),
            *old(pending_boosts),
            *final(pending_boosts),
            *old(tactical),
            *final(tactical),
            old(team)@,
            final(team)@,
            events_view(old(events)@),
            events_view(final(events)@),
        ),
        detail@ == spec_card_detail(side, *card, *memory, *old(hand), *final(hand), *old(pending_boosts), old(team)@),
{
    proof {
        reveal(card_post);
    }
    match &card.effect {
        CardEffect::NextAttackBoost { amount } => {
            let p = pending_boosts.side_mut(side);
            add_i32(&mut p.next_attack_bonus, *amount);
            proof {
                lemma_boosts_side(*old(pending_boosts), *pending_boosts, side);
            }
            number_text("下次攻击加成=", *amount as i128)
        },
        _ => String::new(),
    }
}

fn play_next_shield_boost(
    side: Side,
    card: &CardDef,
    deck: &Vec<CardId>,
    memory: &CardTurnMemory,
    hand: &mut Hand,
    piles: &mut CardPiles,
    action_points: &mut ActionPoints,
    pending_boosts: &mut PendingBoosts,
    tactical: &mut Option<PendingTacticalDiscard>,
    team: &mut Team,
    events: &mut Vec<BattleEvent>,
) -> (detail: String)
    requires
        card.effect is NextShieldBoost,
    ensures
        card_post(
            side,
            *card,
            deck@,
            *memory,
            *old(hand),
            *final(hand),
            *old(piles),
            *final(piles),
            *old(action_points),
            *final(action_points),
            *old(pending_boosts),
            *final(pending_boosts),
            *old(tactical),
            *final(tactical),
            old(team)@,
            final(team)@,
            events_view(old(events)@),
            events_view(final(events)@),
        ),
        detail@ == spec_card_detail(side, *card, *memory, *old(hand), *final(hand), *old(pending_boosts), old(team)@),
{
    proof {
        reveal(card_post);
    }
    match &card.effect {
        CardEffect::NextShieldBoost { amount } => {
            let p = pending_boosts.side_mut(side);
            add_i32(&mut p.next_shield_bonus, *amount);
            proof {
                lemma_boosts_side(*old(pending_boosts), *pending_boosts, side);
            }
            number_text("下次护盾加成=", *amount as i128)
        },
        _ => String::new(),
    }
}

fn play_next_heal_boost(
    side: Side,
    card: &CardDef,
    deck: &Vec<CardId>,
    memory: &CardTurnMemory,
    hand: &mut Hand,
    piles: &mut CardPiles,
    action_points: &mut ActionPoints,
    pending_boosts: &mut PendingBoosts,
    tactical: &mut Option<PendingTacticalDiscard>,
    team: &mut Team,
    events: &mut Vec<BattleEvent>,
) -> (detail: String)
    requires
        card.effect is NextHealBoost,
    ensures
        card_post(
            side,
            *card,
            deck@,
            *memory,
            *old(hand),
            *final(hand),
            *old(piles),
            *final(piles),
            *old(action_points),
            *final(action_points),
            *old(pending_boosts),
            *final(pending_boosts),
            *old(tactical),
            *final(tactical),
            old(team)@,
            final(team)@,
            events_view(old(events)@),
            events_view(final(events)@),
        ),
        detail@ == spec_card_detail(side, *card, *memory, *old(hand), *final(hand), *old(pending_boosts), old(team)@),
{
    proof {
        reveal(card_post);
    }
    match &card.effect {
        CardEffect::NextHealBoost { amount } => {
            let p = pending_boosts.side_mut(side);
            add_i32(&mut p.next_heal_bonus, *amount);
            proof {
                lemma_boosts_side(*old(pending_boosts), *pending_boosts, side);
            }
            number_text("下次治疗加成=", *amount as i128)
        },
        _ => String::new(),
    }
}

fn play_next_element_attachment_gain_ap(
    side: Side,
    card: &CardDef,
    deck: &Vec<CardId>,
    memory: &CardTurnMemory,
    hand: &mut Hand,
    piles: &mut CardPiles,
    action_points: &mut ActionPoints,
    pending_boosts: &mut PendingBoosts,
    tactical: &mut Option<PendingTacticalDiscard>,
    team: &mut Team,
    events: &mut Vec<BattleEvent>,
) -> (detail: String)
    requires
        card.effect is NextElementAttachmentGainAp,
    ensures
        card_post(
            side,
            *card,
            deck@,
            *memory,
            *old(hand),
            *final(hand),
            *old(piles),
            *final(piles),
            *old(action_points),
            *final(action_points),
            *old(pending_boosts),
            *final(pending_boosts),
            *old(tactical),
            *final(tactical),
            old(team)@,
            final(team)@,
            events_view(old(events)@),
            events_view(final(events)@),
        ),
        detail@ == spec_card_detail(side, *card, *memory, *old(hand), *final(hand), *old(pending_boosts), old(team)@),
{
    proof {
        reveal(card_post);
    }
    match &card.effect {
        CardEffect::NextElementAttachmentGainAp { amount } => {
            let p = pending_boosts.side_mut(side);
            add_i32_pending(&mut p.next_element_attachment_ap, *amount);
            proof {
                lemma_boosts_side(*old(pending_boosts), *pending_boosts, side);
            }
            number_text("下次元素附着/反应获得AP=", *amount as i128)
        },
        _ => String::new(),
    }
}

fn play_next_reaction_fixed_damage(
    side: Side,
    card: &CardDef,
    deck: &Vec<CardId>,
    memory: &CardTurnMemory,
    hand: &mut Hand,
    piles: &mut CardPiles,
    action_points: &mut ActionPoints,
    pending_boosts: &mut PendingBoosts,
    tactical: &mut Option<PendingTacticalDiscard>,
    team: &mut Team,
    events: &mut Vec<BattleEvent>,
) -> (detail: String)
    requires
        card.effect is NextReactionFixedDamage,
    ensures
        card_post(
            side,
            *card,
            deck@,
            *memory,
            *old(hand),
            *final(hand),
            *old(piles),
            *final(piles),
            *old(action_points),
            *final(action_points),
            *old(pending_boosts),
            *final(pending_boosts),
            *old(tactical),
            *final(tactical),
            old(team)@,
            final(team)@,
            events_view(old(events)@),
            events_view(final(events)@),
        ),
        detail@ == spec_card_detail(side, *card, *memory, *old(hand), *final(hand), *old(pending_boosts), old(team)@),
{
    proof {
        reveal(card_post);
    }
    match &card.effect {
        CardEffect::NextReactionFixedDamage { amount, .. } => {
            let p = pending_boosts.side_mut(side);
            add_i32_pending(&mut p.next_reaction_fixed_damage, *amount);
            proof {
                lemma_boosts_side(*old(pending_boosts), *pending_boosts, side);
            }
            number_text("下次元素反应追加固定伤害=", *amount as i128)
        },
        _ => String::new(),
    }
}

fn play_next_wind_spread_damage(
    side: Side,
    card: &CardDef,
    deck: &Vec<CardId>,
    memory: &CardTurnMemory,
    hand: &mut Hand,
    piles: &mut CardPiles,
    action_points: &mut ActionPoints,
    pending_boosts: &mut PendingBoosts,
    tactical: &mut Option<PendingTacticalDiscard>,
    team: &mut Team,
    events: &mut Vec<BattleEvent>,
) -> (detail: String)
    requires
        card.effect is NextWindSpreadDamage,
    ensures
        card_post(
            side,
            *card,
            deck@,
            *memory,
            *old(hand),
            *final(hand),
            *old(piles),
            *final(piles),
            *old(action_points),
            *final(action_points),
            *old(pending_boosts),
            *final(pending_boosts),
            *old(tactical),
            *final(tactical),
            old(team)@,
            final(team)@,
            events_view(old(events)@),
            events_view(final(events)@),
        ),
        detail@ == spec_card_detail(side, *card, *memory, *old(hand), *final(hand), *old(pending_boosts), old(team)@),
{
    proof {
        reveal(card_post);
    }
    match &card.effect {
        CardEffect::NextWindSpreadDamage { amount, elements, .. } => {
            let p = pending_boosts.side_mut(side);
            add_wind_bonus(&mut p.next_wind_spread_damage, *amount, elements);
            proof {
                lemma_boosts_side(*old(pending_boosts), *pending_boosts, side);
            }
            number_text("下次指定元素扩散追加固定伤害=", *amount as i128)
        },
        _ => String::new(),
    }
}

fn play_next_aura_attack_draw(
    side: Side,
    card: &CardDef,
    deck: &Vec<CardId>,
    memory: &CardTurnMemory,
    hand: &mut Hand,
    piles: &mut CardPiles,
    action_points: &mut ActionPoints,
    pending_boosts: &mut PendingBoosts,
    tactical: &mut Option<PendingTacticalDiscard>,
    team: &mut Team,
    events: &mut Vec<BattleEvent>,
) -> (detail: String)
    requires
        card.effect is NextAuraAttackDraw,
    ensures
        card_post(
            side,
            *card,
            deck@,
            *memory,
            *old(hand),
            *final(hand),
            *old(piles),
            *final(piles),
            *old(action_points),
            *final(action_points),
            *old(pending_boosts),
            *final(pending_boosts),
            *old(tactical),
            *final(tactical),
            old(team)@,
            final(team)@,
            events_view(old(events)@),
            events_view(final(events)@),
        ),
        detail@ == spec_card_detail(side, *card, *memory, *old(hand), *final(hand), *old(pending_boosts), old(team)@),
{
    proof {
        reveal(card_post);
    }
    match &card.effect {
        CardEffect::NextAuraAttackDraw { amount } => {
            let p = pending_boosts.side_mut(side);
            add_draw_source(&mut p.next_aura_attack_draw, *amount, &card.name);
            proof {
                lemma_boosts_side(*old(pending_boosts), *pending_boosts, side);
            }
            number_text("下次攻击命中附着目标抽牌=", *amount as i128)
        },
        _ => String::new(),
    }
}

fn play_discard_other_draw_gain_ap(
    side: Side,
    card: &CardDef,
    deck: &Vec<CardId>,
    memory: &CardTurnMemory,
    hand: &mut Hand,
    piles: &mut CardPiles,
    action_points: &mut ActionPoints,
    pending_boosts: &mut PendingBoosts,
    tactical: &mut Option<PendingTacticalDiscard>,
    team: &mut Team,
    events: &mut Vec<BattleEvent>,
) -> (detail: String)
    requires
        card.effect is DiscardOtherDrawGainAp,
    ensures
        card_post(
            side,
            *card,
            deck@,
            *memory,
            *old(hand),
            *final(hand),
            *old(piles),
            *final(piles),
            *old(action_points),
            *final(action_points),
            *old(pending_boosts),
            *final(pending_boosts),
            *old(tactical),
            *final(tactical),
            old(team)@,
            final(team)@,
            events_view(old(events)@),
            events_view(final(events)@),
        ),
        detail@ == spec_card_detail(side, *card, *memory, *old(hand), *final(hand), *old(pending_boosts), old(team)@),
{
    proof {
        reveal(card_post);
    }
    match &card.effect {
        CardEffect::DiscardOtherDrawGainAp { draw, gain_ap: ap_gain } => {
            if hand.len_of(side) > 0 {
                *tactical = Some(PendingTacticalDiscard { side, draw: *draw, source_card: card.name.clone() });
                two_numbers("等待选择弃置其他手牌1；弃后抽牌=", *draw as i128, "；弃牌获得AP=", *ap_gain as i128)
            } else {
                "没有其他手牌，效果未触发".to_owned()
            }
        },
        _ => String::new(),
    }
}

fn play_next_skill_cost_draw(
    side: Side,
    card: &CardDef,
    deck: &Vec<CardId>,
    memory: &CardTurnMemory,
    hand: &mut Hand,
    piles: &mut CardPiles,
    action_points: &mut ActionPoints,
    pending_boosts: &mut PendingBoosts,
    tactical: &mut Option<PendingTacticalDiscard>,
    team: &mut Team,
    events: &mut Vec<BattleEvent>,
) -> (detail: String)
    requires
        card.effect is NextSkillCostDraw,
    ensures
        card_post(
            side,
            *card,
            deck@,
            *memory,
            *old(hand),
            *final(hand),
            *old(piles),
            *final(piles),
            *old(action_points),
            *final(action_points),
            *old(pending_boosts),
            *final(pending_boosts),
            *old(tactical),
            *final(tactical),
            old(team)@,
            final(team)@,
            events_view(old(events)@),
            events_view(final(events)@),
        ),
        detail@ == spec_card_detail(side, *card, *memory, *old(hand), *final(hand), *old(pending_boosts), old(team)@),
{
    proof {
        reveal(card_post);
    }
    match &card.effect {
        CardEffect::NextSkillCostDraw { skill_cost, draw } => {
            let p = pending_boosts.side_mut(side);
            add_skill_cost_draw(&mut p.next_skill_cost_draw, *skill_cost, *draw, &card.name);
            proof {
                lemma_boosts_side(*old(pending_boosts), *pending_boosts, side);
            }
            let head = number_text("下次使用", *skill_cost as i128);
            let tail = concat_text(head.as_str(), "AP技能后抽牌=");
            number_text(tail.as_str(), *draw as i128)
        },
        _ => String::new(),
    }
}

fn play_draw_if_knocked_out_this_turn(
    side: Side,
    card: &CardDef,
    deck: &Vec<CardId>,
    memory: &CardTurnMemory,
    hand: &mut Hand,
    piles: &mut CardPiles,
    action_points: &mut ActionPoints,
    pending_boosts: &mut PendingBoosts,
    tactical: &mut Option<PendingTacticalDiscard>,
    team: &mut Team,
    events: &mut Vec<BattleEvent>,
) -> (detail: String)
    requires
        card.effect is DrawIfKnockedOutThisTurn,
    ensures
        card_post(
            side,
            *card,
            deck@,
            *memory,
            *old(hand),
            *final(hand),
            *old(piles),
            *final(piles),
            *old(action_points),
            *final(action_points),
            *old(pending_boosts),
            *final(pending_boosts),
            *old(tactical),
            *final(tactical),
            old(team)@,
            final(team)@,
            events_view(old(events)@),
            events_view(final(events)@),
        ),
        detail@ == spec_card_detail(side, *card, *memory, *old(hand), *final(hand), *old(pending_boosts), old(team)@),
{
    proof {
        reveal(card_post);
    }
    match &card.effect {
        CardEffect::DrawIfKnockedOutThisTurn { amount } => {
            let knocked_out = match side {
                Side::Player => memory.player.knocked_out_opponent_this_turn,
                Side::Enemy => memory.enemy.knocked_out_opponent_this_turn,
            };
            if knocked_out {
                let drawn = draw_cards(side, *amount, hand, piles, deck);
                number_text("本行动已击倒目标；抽牌=", drawn.len() as i128)
            } else {
                let p = pending_boosts.side_mut(side);
                add_draw_source(&mut p.next_knockout_draw, *amount, &card.name);
                proof {
                    lemma_boosts_side(*old(pending_boosts), *pending_boosts, side);
                }
                number_text("等待本行动内击倒敌方精灵后抽牌=", *amount as i128)
            }
        },
        _ => String::new(),
    }
}

fn play_gain_shield(
    side: Side,
    card: &CardDef,
    deck: &Vec<CardId>,
    memory: &CardTurnMemory,
    hand: &mut Hand,
    piles: &mut CardPiles,
    action_points: &mut ActionPoints,
    pending_boosts: &mut PendingBoosts,
    tactical: &mut Option<PendingTacticalDiscard>,
    team: &mut Team,
    events: &mut Vec<BattleEvent>,
) -> (detail: String)
    requires
        card.effect is GainShield,
    ensures
        card_post(
            side,
            *card,
            deck@,
            *memory,
            *old(hand),
            *final(hand),
            *old(piles),
            *final(piles),
            *old(action_points),
            *final(action_points),
            *old(pending_boosts),
            *final(pending_boosts),
            *old(tactical),
            *final(tactical),
            old(team)@,
            final(team)@,
            events_view(old(events)@),
            events_view(final(events)@),
        ),
        detail@ == spec_card_detail(side, *card, *memory, *old(hand), *final(hand), *old(pending_boosts), old(team)@),
{
    proof {
        reveal(card_post);
    }
    match &card.effect {
        CardEffect::GainShield { amount } => {
            let gained = gain_shield_on_active(side, *amount, pending_boosts, team, events);
            number_text("获得护盾=", gained as i128)
        },
        _ => String::new(),
    }
}

fn play_shield_absorb_gain_ap(
    side: Side,
    card: &CardDef,
    deck: &Vec<CardId>,
    memory: &CardTurnMemory,
    hand: &mut Hand,
    piles: &mut CardPiles,
    action_points: &mut ActionPoints,
    pending_boosts: &mut PendingBoosts,
    tactical: &mut Option<PendingTacticalDiscard>,
    team: &mut Team,
    events: &mut Vec<BattleEvent>,
) -> (detail: String)
    requires
        card.effect is ShieldAbsorbGainAp,
    ensures
        card_post(
            side,
            *card,
            deck@,
            *memory,
            *old(hand),
            *final(hand),
            *old(piles),
            *final(piles),
            *old(action_points),
            *final(action_points),
            *old(pending_boosts),
            *final(pending_boosts),
            *old(tactical),
            *final(tactical),
            old(team)@,
            final(team)@,
            events_view(old(events)@),
            events_view(final(events)@),
        ),
        detail@ == spec_card_detail(side, *card, *memory, *old(hand), *final(hand), *old(pending_boosts), old(team)@),
{
    proof {
        reveal(card_post);
    }
    match &card.effect {
        CardEffect::ShieldAbsorbGainAp { amount } => {
            let p = pending_boosts.side_mut(side);
            add_i32_pending(&mut p.shield_absorb_ap, *amount);
            proof {
                lemma_boosts_side(*old(pending_boosts), *pending_boosts, side);
            }
            number_text("敌方下次行动前护盾吸收伤害时获得AP=", *amount as i128)
        },
        _ => String::new(),
    }
}

fn play_modify_stages(
    side: Side,
    card: &CardDef,
    deck: &Vec<CardId>,
    memory: &CardTurnMemory,
    hand: &mut Hand,
    piles: &mut CardPiles,
    action_points: &mut ActionPoints,
    pending_boosts: &mut PendingBoosts,
    tactical: &mut Option<PendingTacticalDiscard>,
    team: &mut Team,
    events: &mut Vec<BattleEvent>,
) -> (detail: String)
    requires
        card.effect is ModifyStages,
    ensures
        card_post(
            side,
            *card,
            deck@,
            *memory,
            *old(hand),
            *final(hand),
            *old(piles),
            *final(piles),
            *old(action_points),
            *final(action_points),
            *old(pending_boosts),
            *final(pending_boosts),
            *old(tactical),
            *final(tactical),
            old(team)@,
            final(team)@,
            events_view(old(events)@),
            events_view(final(events)@),
        ),
        detail@ == spec_card_detail(side, *card, *memory, *old(hand), *final(hand), *old(pending_boosts), old(team)@),
{
    proof {
        reveal(card_post);
    }
    match &card.effect {
        CardEffect::ModifyStages { attribute, amount, duration_turns } => {
            if apply_stage_status_on_active(side, *attribute, *amount, *duration_turns, team) {
                let first = concat_text(attribute_word_text(*attribute), "等级变化=");
                let mid = two_numbers(first.as_str(), *amount as i128, "，持续", *duration_turns as i128);
                concat_text(mid.as_str(), "回合")
            } else {
                "属性等级效果未触发".to_owned()
            }
        },
        _ => String::new(),
    }
}

fn play_cleanse_or_gain_ap(
    side: Side,
    card: &CardDef,
    deck: &Vec<CardId>,
    memory: &CardTurnMemory,
    hand: &mut Hand,
    piles: &mut CardPiles,
    action_points: &mut ActionPoints,
    pending_boosts: &mut PendingBoosts,
    tactical: &mut Option<PendingTacticalDiscard>,
    team: &mut Team,
    events: &mut Vec<BattleEvent>,
) -> (detail: String)
    requires
        card.effect is CleanseOrGainAp,
    ensures
        card_post(
            side,
            *card,
            deck@,
            *memory,
            *old(hand),
            *final(hand),
            *old(piles),
            *final(piles),
            *old(action_points),
            *final(action_points),
            *old(pending_boosts),
            *final(pending_boosts),
            *old(tactical),
            *final(tactical),
            old(team)@,
            final(team)@,
            events_view(old(events)@),
            events_view(final(events)@),
        ),
        detail@ == spec_card_detail(side, *card, *memory, *old(hand), *final(hand), *old(pending_boosts), old(team)@),
{
    proof {
        reveal(card_post);
    }
    match &card.effect {
        CardEffect::CleanseOrGainAp { categories, fallback_ap } => {
            if !cleanse_one(categories, team) {
                gain_ap(side, *fallback_ap, action_points);
                number_text("无可清除效果；获得AP=", *fallback_ap as i128)
            } else {
                "清除1个可清除效果".to_owned()
            }
        },
        _ => String::new(),
    }
}

fn play_draw_and_gain_ap_if_alive_team(
    side: Side,
    card: &CardDef,
    deck: &Vec<CardId>,
    memory: &CardTurnMemory,
    hand: &mut Hand,
    piles: &mut CardPiles,
    action_points: &mut ActionPoints,
    pending_boosts: &mut PendingBoosts,
    tactical: &mut Option<PendingTacticalDiscard>,
    team: &mut Team,
    events: &mut Vec<BattleEvent>,
) -> (detail: String)
    requires
        card.effect is DrawAndGainApIfAliveTeam,
    ensures
        card_post(
            side,
            *card,
            deck@,
            *memory,
            *old(hand),
            *final(hand),
            *old(piles),
            *final(piles),
            *old(action_points),
            *final(action_points),
            *old(pending_boosts),
            *final(pending_boosts),
            *old(tactical),
            *final(tactical),
            old(team)@,
            final(team)@,
            events_view(old(events)@),
            events_view(final(events)@),
        ),
        detail@ == spec_card_detail(side, *card, *memory, *old(hand), *final(hand), *old(pending_boosts), old(team)@),
{
    proof {
        reveal(card_post);
    }
    match &card.effect {
        CardEffect::DrawAndGainApIfAliveTeam { draw, min_alive, gain_ap: ap_gain } => {
            let drawn = draw_cards(side, *draw, hand, piles, deck);
            let alive = team_alive_count(team);
            let head = two_numbers("抽牌=", drawn.len() as i128, "；存活队友数=", alive as i128);
            if alive >= *min_alive {
                gain_ap(side, *ap_gain, action_points);
                number_text(concat_text(head.as_str(), "，获得AP=").as_str(), *ap_gain as i128)
            } else {
                concat_text(head.as_str(), "，未获得额外AP")
            }
        },
        _ => String::new(),
    }
}

fn play_gain_shield_draw_if_switched_this_turn(
    side: Side,
    card: &CardDef,
    deck: &Vec<CardId>,
    memory: &CardTurnMemory,
    hand: &mut Hand,
    piles: &mut CardPiles,
    action_points: &mut ActionPoints,
    pending_boosts: &mut PendingBoosts,
    tactical: &mut Option<PendingTacticalDiscard>,
    team: &mut Team,
    events: &mut Vec<BattleEvent>,
) -> (detail: String)
    requires
        card.effect is GainShieldDrawIfSwitchedThisTurn,
    ensures
        card_post(
            side,
            *card,
            deck@,
            *memory,
            *old(hand),
            *final(hand),
            *old(piles),
            *final(piles),
            *old(action_points),
            *final(action_points),
            *old(pending_boosts),
            *final(pending_boosts),
            *old(tactical),
            *final(tactical),
            old(team)@,
            final(team)@,
            events_view(old(events)@),
            events_view(final(events)@),
        ),
        detail@ == spec_card_detail(side, *card, *memory, *old(hand), *final(hand), *old(pending_boosts), old(team)@),
{
    proof {
        reveal(card_post);
    }
    match &card.effect {
        CardEffect::GainShieldDrawIfSwitchedThisTurn { shield, draw } => {
            let gained = gain_shield_on_active(side, *shield, pending_boosts, team, events);
            let head = number_text("获得护盾=", gained as i128);
            let ghost sb = *pending_boosts;
            let switched = match side {
                Side::Player => memory.player.switched_this_turn,
                Side::Enemy => memory.enemy.switched_this_turn,
            };
            if switched {
                let drawn = draw_cards(side, *draw, hand, piles, deck);
                number_text(concat_text(head.as_str(), "；本行动已换人，抽牌=").as_str(), drawn.len() as i128)
            } else {
                let p = pending_boosts.side_mut(side);
                add_draw_source(&mut p.next_switch_draw, *draw, &card.name);
                proof {
                    lemma_boosts_side(sb, *pending_boosts, side);
                }
                number_text(concat_text(head.as_str(), "；等待本行动内换人后抽牌=").as_str(), *draw as i128)
            }
        },
        _ => String::new(),
    }
}

fn play_group_0(
    side: Side,
    card: &CardDef,
    deck: &Vec<CardId>,
    memory: &CardTurnMemory,
    hand: &mut Hand,
    piles: &mut CardPiles,
    action_points: &mut ActionPoints,
    pending_boosts: &mut PendingBoosts,
    tactical: &mut Option<PendingTacticalDiscard>,
    team: &mut Team,
    events: &mut Vec<BattleEvent>,
) -> (detail: String)
    requires
        card.effect is GainAp || card.effect is NextAttackBoost || card.effect is NextShieldBoost || card.effect is NextHealBoost || card.effect is NextElementAttachmentGainAp || card.effect is NextReactionFixedDamage,
    ensures
        card_post(
            side,
            *card,
            deck@,
            *memory,
            *old(hand),
            *final(hand),
            *old(piles),
            *final(piles),
            *old(action_points),
            *final(action_points),
            *old(pending_boosts),
            *final(pending_boosts),
            *old(tactical),
            *final(tactical),
            old(team)@,
            final(team)@,
            events_view(old(events)@),
            events_view(final(events)@),
        ),
        detail@ == spec_card_detail(side, *card, *memory, *old(hand), *final(hand), *old(pending_boosts), old(team)@),
{
    match &card.effect {
        CardEffect::GainAp { .. } => play_gain_ap(side, card, deck, memory, hand, piles, action_points, pending_boosts, tactical, team, events),
        CardEffect::NextAttackBoost { .. } => play_next_attack_boost(side, card, deck, memory, hand, piles, action_points, pending_boosts, tactical, team, events),
        CardEffect::NextShieldBoost { .. } => play_next_shield_boost(side, card, deck, memory, hand, piles, action_points, pending_boosts, tactical, team, events),
        CardEffect::NextHealBoost { .. } => play_next_heal_boost(side, card, deck, memory, hand, piles, action_points, pending_boosts, tactical, team, events),
        CardEffect::NextElementAttachmentGainAp { .. } => play_next_element_attachment_gain_ap(side, card, deck, memory, hand, piles, action_points, pending_boosts, tactical, team, events),
        CardEffect::NextReactionFixedDamage { .. } => play_next_reaction_fixed_damage(side, card, deck, memory, hand, piles, action_points, pending_boosts, tactical, team, events),
        _ => String::new(),
    }
}

fn play_group_1(
    side: Side,
    card: &CardDef,
    deck: &Vec<CardId>,
    memory: &CardTurnMemory,
    hand: &mut Hand,
    piles: &mut CardPiles,
    action_points: &mut ActionPoints,
    pending_boosts: &mut PendingBoosts,
    tactical: &mut Option<PendingTacticalDiscard>,
    team: &mut Team,
    events: &mut Vec<BattleEvent>,
) -> (detail: String)
    requires
        card.effect is NextWindSpreadDamage || card.effect is NextAuraAttackDraw || card.effect is DiscardOtherDrawGainAp || card.effect is NextSkillCostDraw || card.effect is DrawIfKnockedOutThisTurn || card.effect is GainShield,
    ensures
        card_post(
            side,
            *card,
            deck@,
            *memory,
            *old(hand),
            *final(hand),
            *old(piles),
            *final(piles),
            *old(action_points),
            *final(action_points),
            *old(pending_boosts),
            *final(pending_boosts),
            *old(tactical),
            *final(tactical),
            old(team)@,
            final(team)@,
            events_view(old(events)@),
            events_view(final(events)@),
        ),
        detail@ == spec_card_detail(side, *card, *memory, *old(hand), *final(hand), *old(pending_boosts), old(team)@),
{
    match &card.effect {
        CardEffect::NextWindSpreadDamage { .. } => play_next_wind_spread_damage(side, card, deck, memory, hand, piles, action_points, pending_boosts, tactical, team, events),
        CardEffect::NextAuraAttackDraw { .. } => play_next_aura_attack_draw(side, card, deck, memory, hand, piles, action_points, pending_boosts, tactical, team, events),
        CardEffect::DiscardOtherDrawGainAp { .. } => play_discard_other_draw_gain_ap(side, card, deck, memory, hand, piles, action_points, pending_boosts, tactical, team, events),
        CardEffect::NextSkillCostDraw { .. } => play_next_skill_cost_draw(side, card, deck, memory, hand, piles, action_points, pending_boosts, tactical, team, events),
        CardEffect::DrawIfKnockedOutThisTurn { .. } => play_draw_if_knocked_out_this_turn(side, card, deck, memory, hand, piles, action_points, pending_boosts, tactical, team, events),
        CardEffect::GainShield { .. } => play_gain_shield(side, card, deck, memory, hand, piles, action_points, pending_boosts, tactical, team, events),
        _ => String::new(),
    }
}

fn play_group_2(
    side: Side,
    card: &CardDef,
    deck: &Vec<CardId>,
    memory: &CardTurnMemory,
    hand: &mut Hand,
    piles: &mut CardPiles,
    action_points: &mut ActionPoints,
    pending_boosts: &mut PendingBoosts,
    tactical: &mut Option<PendingTacticalDiscard>,
    team: &mut Team,
    events: &mut Vec<BattleEvent>,
) -> (detail: String)
    requires
        card.effect is ShieldAbsorbGainAp || card.effect is ModifyStages || card.effect is CleanseOrGainAp || card.effect is DrawAndGainApIfAliveTeam || card.effect is GainShieldDrawIfSwitchedThisTurn,
    ensures
        card_post(
            side,
            *card,
            deck@,
            *memory,
            *old(hand),
            *final(hand),
            *old(piles),
            *final(piles),
            *old(action_points),
            *final(action_points),
            *old(pending_boosts),
            *final(pending_boosts),
            *old(tactical),
            *final(tactical),
            old(team)@,
            final(team)@,
            events_view(old(events)@),
            events_view(final(events)@),
        ),
        detail@ == spec_card_detail(side, *card, *memory, *old(hand), *final(hand), *old(pending_boosts), old(team)@),
{
    match &card.effect {
        CardEffect::ShieldAbsorbGainAp { .. } => play_shield_absorb_gain_ap(side, card, deck, memory, hand, piles, action_points, pending_boosts, tactical, team, events),
        CardEffect::ModifyStages { .. } => play_modify_stages(side, card, deck, memory, hand, piles, action_points, pending_boosts, tactical, team, events),
        CardEffect::CleanseOrGainAp { .. } => play_cleanse_or_gain_ap(side, card, deck, memory, hand, piles, action_points, pending_boosts, tactical, team, events),
        CardEffect::DrawAndGainApIfAliveTeam { .. } => play_draw_and_gain_ap_if_alive_team(side, card, deck, memory, hand, piles, action_points, pending_boosts, tactical, team, events),
        CardEffect::GainShieldDrawIfSwitchedThisTurn { .. } => play_gain_shield_draw_if_switched_this_turn(side, card, deck, memory, hand, piles, action_points, pending_boosts, tactical, team, events),
        _ => String::new(),
    }
}

/// Which of three groups an effect falls in (they are played by separate functions).
pub open spec fn effect_group(e: CardEffect) -> int {
    if e is GainAp || e is NextAttackBoost || e is NextShieldBoost || e is NextHealBoost || e is NextElementAttachmentGainAp || e is NextReactionFixedDamage {
        0
    } else if e is NextWindSpreadDamage || e is NextAuraAttackDraw || e is DiscardOtherDrawGainAp || e is NextSkillCostDraw || e is DrawIfKnockedOutThisTurn || e is GainShield {
        1
    } else {
        2
    }
}

fn card_effect_group(e: &CardEffect) -> (g: u8)
    ensures
        g == effect_group(*e),
{
    match e {
        CardEffect::GainAp { .. } => 0,
        CardEffect::NextAttackBoost { .. } => 0,
        CardEffect::NextShieldBoost { .. } => 0,
        CardEffect::NextHealBoost { .. } => 0,
        CardEffect::NextElementAttachmentGainAp { .. } => 0,
        CardEffect::NextReactionFixedDamage { .. } => 0,
        CardEffect::NextWindSpreadDamage { .. } => 1,
        CardEffect::NextAuraAttackDraw { .. } => 1,
        CardEffect::DiscardOtherDrawGainAp { .. } => 1,
        CardEffect::NextSkillCostDraw { .. } => 1,
        CardEffect::DrawIfKnockedOutThisTurn { .. } => 1,
        CardEffect::GainShield { .. } => 1,
        _ => 2,
    }
}

/// Plays the effect of `card` for `side` (see `card_post`); `team` is `side`'s team. Gives the
/// text that describes what it did (see `spec_card_detail`).
pub fn apply_card_effect(
    side: Side,
    card: &CardDef,
    deck: &Vec<CardId>,
    memory: &CardTurnMemory,
    hand: &mut Hand,
    piles: &mut CardPiles,
    action_points: &mut ActionPoints,
    pending_boosts: &mut PendingBoosts,
    tactical: &mut Option<PendingTacticalDiscard>,
    team: &mut Team,
    events: &mut Vec<BattleEvent>,
) -> (detail: String)
    ensures
        card_post(
            side,
            *card,
            deck@,
            *memory,
            *old(hand),
            *final(hand),
            *old(piles),
            *final(piles),
            *old(action_points),
            *final(action_points),
            *old(pending_boosts),
            *final(pending_boosts),
            *old(tactical),
            *final(tactical),
            old(team)@,
            final(team)@,
            events_view(old(events)@),
            events_view(final(events)@),
        ),
        detail@ == spec_card_detail(side, *card, *memory, *old(hand), *final(hand), *old(pending_boosts), old(team)@),
{
    let g = card_effect_group(&card.effect);
    if g == 0 {
        play_group_0(side, card, deck, memory, hand, piles, action_points, pending_boosts, tactical, team, events)
    } else if g == 1 {
        play_group_1(side, card, deck, memory, hand, piles, action_points, pending_boosts, tactical, team, events)
    } else {
        play_group_2(side, card, deck, memory, hand, piles, action_points, pending_boosts, tactical, team, events)
    }
}

/// A side's card selection in the interface: the card picked, and whether a discard is armed.
#[derive(Debug, Clone, Copy, PartialEq, Eq, Structural)]
pub struct SelectedCardState {
    pub index: Option<usize>,
    pub discard_armed: bool,
}

#[derive(Debug, Clone, Copy, PartialEq, Eq, Structural)]
pub struct SelectedCards {
    pub player: SelectedCardState,
    pub enemy: SelectedCardState,
}

impl SelectedCards {
    pub open spec fn of(self, side: Side) -> SelectedCardState {
        match side {
            Side::Player => self.player,
            Side::Enemy => self.enemy,
        }
    }

    pub open spec fn with(self, side: Side, v: SelectedCardState) -> Self {
        match side {
            Side::Player => SelectedCards { player: v, ..self },
            Side::Enemy => SelectedCards { enemy: v, ..self },
        }
    }

    pub fn new() -> (s: Self)
        ensures
            s.player == (SelectedCardState { index: None, discard_armed: false }),
            s.enemy == (SelectedCardState { index: None, discard_armed: false }),
    {
        let none = SelectedCardState { index: None, discard_armed: false };
        SelectedCards { player: none, enemy: none }
    }

    pub fn set(&mut self, side: Side, v: SelectedCardState)
        ensures
            *final(self) == old(self).with(side, v),
    {
        match side {
            Side::Player => self.player = v,
            Side::Enemy => self.enemy = v,
        }
    }

    pub fn get(&self, side: Side) -> (v: SelectedCardState)
        ensures
            v == self.of(side),
    {
        match side {
            Side::Player => self.player,
            Side::Enemy => self.enemy,
        }
    }
}

/// Closing a batch of card events: a resolved tactical discard clears its side's selection and
/// is no longer waiting; a newly asked one clears its side's pick, arms its discard and is now
/// waiting; a pending guard-counter clear for `guard_clear` (the side that acted) takes the
/// other side's shield-absorb counter away. Gives the tactical discard waiting afterwards.
pub fn finish_card_events(
    pending: Option<PendingTacticalDiscard>,
    resolved: Option<Side>,
    new_tactical: Option<PendingTacticalDiscard>,
    guard_clear: Option<Side>,
    selected: &mut SelectedCards,
    pending_boosts: &mut PendingBoosts,
) -> (r: Option<PendingTacticalDiscard>)
    ensures
        ({
            let s1 = match resolved {
                Some(side) => old(selected).with(side, SelectedCardState { index: None, discard_armed: false }),
                None => *old(selected),
            };
            let s2 = match new_tactical {
                Some(t) => s1.with(t.side, SelectedCardState { index: None, discard_armed: true }),
                None => s1,
            };
            *final(selected) == s2
        }),
        r == (match new_tactical {
            Some(t) => Some(t),
            None => if resolved is Some {
                None
            } else {
                pending
            },
        }),
        match guard_clear {
            Some(acting) => {
                let owner = spec_opposite_side(acting);
                *final(pending_boosts) == boosts_with(
                    *old(pending_boosts),
                    owner,
                    PendingBoost { shield_absorb_ap: None, ..old(pending_boosts).of(owner) },
                )
            },
            None => *final(pending_boosts) == *old(pending_boosts),
        },
{
    let mut waiting = pending;
    if let Some(side) = resolved {
        selected.set(side, SelectedCardState { index: None, discard_armed: false });
        waiting = None;
    }
    match new_tactical {
        Some(t) => {
            selected.set(t.side, SelectedCardState { index: None, discard_armed: true });
            waiting = Some(t);
        },
        None => {},
    }
    if let Some(acting) = guard_clear {
        clear_opponent_guard_counter_effects(acting, pending_boosts);
    }
    waiting
}

/// One frame of the forced discard phase of `pending.side`. When the local player picks its
/// discards, the card it picked (if any) is discarded; otherwise the side's last cards are
/// discarded until it may keep the rest. Either way its selection is cleared. Once the side holds
/// no more than it may keep, its AP is cut to the maximum and the phase to go on with is given.
pub fn discard_phase_step(
    pending: PendingHandDiscard,
    mode: BattleControlMode,
    picked: Option<usize>,
    hand: &mut Hand,
    rules: &CardRules,
    action_points: &mut ActionPoints,
    selected: &mut SelectedCards,
    cards: &Vec<CardDef>,
    events: &mut Vec<BattleEvent>,
) -> (next: Option<BattlePhase>)
    ensures
        ({
            let side = pending.side;
            &&& spec_locally_controls_discard(side, mode) ==> match picked {
                Some(i) => i < old(hand).of(side).len() ==> final(hand).of(side) == old(hand).of(side).remove(i as int),
                None => final(hand).of(side) == old(hand).of(side),
            }
            &&& spec_locally_controls_discard(side, mode) && picked is Some && picked->0 >= old(hand).of(side).len()
                ==> final(hand).of(side) == old(hand).of(side)
            &&& !spec_locally_controls_discard(side, mode) ==> final(hand).of(side) == old(hand).of(side).subrange(
                0,
                min_int(old(hand).of(side).len() as int, rules.max_retained_hand as int),
            )
            &&& final(hand).of(spec_opposite_side(side)) == old(hand).of(spec_opposite_side(side))
            &&& *final(selected) == old(selected).with(side, SelectedCardState { index: None, discard_armed: false })
            &&& next == (if final(hand).of(side).len() <= rules.max_retained_hand {
                Some(pending.next_phase)
            } else {
                None
            })
            &&& ({
                let held = old(hand).of(side);
                let done = if spec_locally_controls_discard(side, mode) {
                    match picked {
                        Some(i) => if i < held.len() {
                            (
                                old(action_points).with(
                                    side,
                                    spec_gain(old(action_points).of(side) as int, rules.discard_ap_gain as int) as i32,
                                ),
                                events_view(old(events)@).push(
                                    EventView::CardDiscarded { side, card_name: spec_card_name(cards@, held[i as int]) },
                                ),
                            )
                        } else {
                            (*old(action_points), events_view(old(events)@))
                        },
                        None => (*old(action_points), events_view(old(events)@)),
                    }
                } else {
                    auto_discards(
                        side,
                        held,
                        (held.len() - min_int(held.len() as int, rules.max_retained_hand as int)) as nat,
                        rules.discard_ap_gain,
                        *old(action_points),
                        events_view(old(events)@),
                        cards@,
                    )
                };
                &&& events_view(final(events)@) == done.1
                &&& *final(action_points) == if final(hand).of(side).len() <= rules.max_retained_hand {
                    done.0.with(side, min_int(done.0.of(side) as int, rules.max_ap as int) as i32)
                } else {
                    done.0
                }
            })
        }),
{
    let side = pending.side;
    if locally_controls_discard_side(side, mode) {
        match picked {
            Some(i) => {
                let _ = discard_card_from_hand(side, i, rules.discard_ap_gain, hand, action_points, cards, events);
            },
            None => {},
        }
    } else {
        auto_discard_excess_hand(side, hand, rules, action_points, cards, events);
    }
    selected.set(side, SelectedCardState { index: None, discard_armed: false });
    if hand.len_of(side) <= rules.max_retained_hand {
        clamp_ap_to_max(side, rules.max_ap, action_points);
        Some(pending.next_phase)
    } else {
        None
    }
}

/// Whether a card that waits for the enemy's next fitting action has its slot free: a card of
/// that kind does not stack on a bonus of its kind still pending. Every other card is free.
pub open spec fn spec_pending_slot_available(effect: CardEffect, pending: PendingBoost) -> bool {
    match effect {
        CardEffect::NextAttackBoost { .. } => pending.next_attack_bonus == 0,
        CardEffect::NextShieldBoost { .. } => pending.next_shield_bonus == 0,
        CardEffect::NextHealBoost { .. } => pending.next_heal_bonus == 0,
        CardEffect::NextElementAttachmentGainAp { .. } => pending.next_element_attachment_ap is None,
        CardEffect::NextReactionFixedDamage { .. } => pending.next_reaction_fixed_damage is None,
        CardEffect::NextWindSpreadDamage { .. } => pending.next_wind_spread_damage is None,
        CardEffect::NextAuraAttackDraw { .. } => pending.next_aura_attack_draw is None,
        CardEffect::NextSkillCostDraw { .. } => pending.next_skill_cost_draw is None,
        CardEffect::DrawIfKnockedOutThisTurn { .. } => pending.next_knockout_draw is None,
        _ => true,
    }
}

/// Whether the enemy may play `card` before a skill (see `spec_pending_slot_available`).
pub fn skill_card_pending_slot_available(card: &CardDef, pending_boosts: &PendingBoosts) -> (b: bool)
    ensures
        b == spec_pending_slot_available(card.effect, pending_boosts.enemy),
{
    let pending = &pending_boosts.enemy;
    match &card.effect {
        CardEffect::NextAttackBoost { .. } => pending.next_attack_bonus == 0,
        CardEffect::NextShieldBoost { .. } => pending.next_shield_bonus == 0,
        CardEffect::NextHealBoost { .. } => pending.next_heal_bonus == 0,
        CardEffect::NextElementAttachmentGainAp { .. } => pending.next_element_attachment_ap.is_none(),
        CardEffect::NextReactionFixedDamage { .. } => pending.next_reaction_fixed_damage.is_none(),
        CardEffect::NextWindSpreadDamage { .. } => pending.next_wind_spread_damage.is_none(),
        CardEffect::NextAuraAttackDraw { .. } => pending.next_aura_attack_draw.is_none(),
        CardEffect::NextSkillCostDraw { .. } => pending.next_skill_cost_draw.is_none(),
        CardEffect::DrawIfKnockedOutThisTurn { .. } => pending.next_knockout_draw.is_none(),
        _ => true,
    }
}

} // verus!
