//! The battle's state: sides, combatant stats, shields, element auras, statuses and events.
use vstd::prelude::*;

use crate::data::{AttributeType, ElementType, StatusCategory, StatusTickTiming};

verus! {

#[derive(Debug, Clone, Copy, PartialEq, Eq, Hash, Structural)]
pub enum Side {
    Player,
    Enemy,
}

pub open spec fn spec_opposite(side: Side) -> Side {
    match side {
        Side::Player => Side::Enemy,
        Side::Enemy => Side::Player,
    }
}

pub fn opposite_side(side: Side) -> (o: Side)
    ensures
        o == spec_opposite(side),
        o != side,
{
    match side {
        Side::Player => Side::Enemy,
        Side::Enemy => Side::Player,
    }
}

/// A combatant's numbers; the `*_stage` fields are the stage shifts that its statuses give.
#[derive(Debug, Clone, Copy, PartialEq, Eq, Structural)]
pub struct Stats {
    pub hp: i32,
    pub max_hp: i32,
    pub atk: i32,
    pub def: i32,
    pub spd: i32,
    pub acc: i32,
    pub atk_stage: i32,
    pub def_stage: i32,
    pub spd_stage: i32,
    pub acc_stage: i32,
}

/// Shield points, absorbed before HP.
#[derive(Debug, Clone, Copy, PartialEq, Eq, Structural)]
pub struct Shield(pub i32);

/// The (at most two) elements attached to a combatant, oldest first.
#[derive(Debug, Clone, Copy, PartialEq, Eq, Structural)]
pub struct ElementAura {
    pub slot0: Option<ElementType>,
    pub slot1: Option<ElementType>,
}

/// The attached elements of an aura, in slot order.
pub open spec fn aura_elems(a: ElementAura) -> Seq<ElementType> {
    match (a.slot0, a.slot1) {
        (Some(x), Some(y)) => seq![x, y],
        (Some(x), None) => seq![x],
        (None, Some(y)) => seq![y],
        (None, None) => seq![],
    }
}

/// The aura holding the first two elements of `list`.
pub open spec fn aura_from_list(list: Seq<ElementType>) -> ElementAura {
    ElementAura {
        slot0: if list.len() > 0 {
            Some(list[0])
        } else {
            None
        },
        slot1: if list.len() > 1 {
            Some(list[1])
        } else {
            None
        },
    }
}

/// `list` without any occurrence of `e`.
pub open spec fn without_elem(list: Seq<ElementType>, e: ElementType) -> Seq<ElementType> {
    list.filter(|x: ElementType| x != e)
}

/// The aura with `e` taken off.
pub open spec fn aura_without(a: ElementAura, e: ElementType) -> ElementAura {
    aura_from_list(without_elem(aura_elems(a), e))
}

impl Default for ElementAura {
    fn default() -> (a: Self)
        ensures
            aura_elems(a).len() == 0,
    {
        ElementAura { slot0: None, slot1: None }
    }
}

impl ElementAura {
    pub fn elements(&self) -> (v: Vec<ElementType>)
        ensures
            v@ == aura_elems(*self),
    {
        let mut v: Vec<ElementType> = Vec::new();
        if let Some(x) = self.slot0 {
            v.push(x);
        }
        if let Some(y) = self.slot1 {
            v.push(y);
        }
        assert(v@ =~= aura_elems(*self));
        v
    }

    /// The oldest attached element.
    pub fn primary(&self) -> (p: Option<ElementType>)
        ensures
            p == (if aura_elems(*self).len() > 0 {
                Some(aura_elems(*self)[0])
            } else {
                None
            }),
    {
        if self.slot0.is_some() {
            self.slot0
        } else {
            self.slot1
        }
    }

    pub fn contains(&self, e: ElementType) -> (b: bool)
        ensures
            b == aura_elems(*self).contains(e),
    {
        let r = self.slot0 == Some(e) || self.slot1 == Some(e);
        proof {
            let s = aura_elems(*self);
            if r {
                if self.slot0 == Some(e) {
                    assert(s[0] == e);
                } else {
                    assert(s[s.len() - 1] == e);
                }
            } else {
                assert forall|k: int| 0 <= k < s.len() implies s[k] != e by {}
            }
        }
        r
    }

    /// Keeps the first two elements of `list`.
    pub fn set_elements(&mut self, list: &Vec<ElementType>)
        ensures
            *final(self) == aura_from_list(list@),
    {
        self.slot0 = if list.len() > 0 {
            Some(list[0])
        } else {
            None
        };
        self.slot1 = if list.len() > 1 {
            Some(list[1])
        } else {
            None
        };
    }

    /// Takes `e` off; says whether it was attached.
    pub fn remove(&mut self, e: ElementType) -> (b: bool)
        ensures
            b == aura_elems(*old(self)).contains(e),
            *final(self) == aura_without(*old(self), e),
    {
        let present = self.contains(e);
        let elems = self.elements();
        let mut kept: Vec<ElementType> = Vec::new();
        let mut i: usize = 0;
        while i < elems.len()
            invariant
                i <= elems@.len(),
                kept@ == without_elem(elems@.subrange(0, i as int), e),
            decreases elems@.len() - i,
        {
            let x = elems[i];
            proof {
                let pre = elems@.subrange(0, i as int);
                let nxt = elems@.subrange(0, i + 1);
                assert(nxt.drop_last() =~= pre);
                reveal(Seq::filter);
            }
            if x != e {
                kept.push(x);
            }
            i = i + 1;
        }
        assert(elems@.subrange(0, i as int) =~= elems@);
        self.set_elements(&kept);
        present
    }
}

/// A stage shift that a status gives.
#[derive(Debug, Clone, Copy, PartialEq, Eq, Structural)]
pub struct StatusStageModifier {
    pub attribute: AttributeType,
    pub amount: i32,
}

/// A status on a combatant. `heal_taken_multiplier` is in thousandths.
#[derive(Debug)]
pub struct StatusInstance {
    pub id: String,
    pub name: String,
    pub category: StatusCategory,
    pub remaining_turns: i32,
    pub applied_round: u32,
    pub source_side: Option<Side>,
    pub tick_timing: Option<StatusTickTiming>,
    pub stage_modifiers: Vec<StatusStageModifier>,
    pub fixed_damage_on_tick: i32,
    pub heal_on_tick: i32,
    pub heal_taken_multiplier: Option<i32>,
    pub evade_charges: i32,
}

/// A status as a value.
pub ghost struct StatusView {
    pub id: Seq<char>,
    pub name: Seq<char>,
    pub category: StatusCategory,
    pub remaining_turns: i32,
    pub applied_round: u32,
    pub source_side: Option<Side>,
    pub tick_timing: Option<StatusTickTiming>,
    pub stage_modifiers: Seq<StatusStageModifier>,
    pub fixed_damage_on_tick: i32,
    pub heal_on_tick: i32,
    pub heal_taken_multiplier: Option<i32>,
    pub evade_charges: i32,
}

impl View for StatusInstance {
    type V = StatusView;

    open spec fn view(&self) -> StatusView {
        StatusView {
            id: self.id@,
            name: self.name@,
            category: self.category,
            remaining_turns: self.remaining_turns,
            applied_round: self.applied_round,
            source_side: self.source_side,
            tick_timing: self.tick_timing,
            stage_modifiers: self.stage_modifiers@,
            fixed_damage_on_tick: self.fixed_damage_on_tick,
            heal_on_tick: self.heal_on_tick,
            heal_taken_multiplier: self.heal_taken_multiplier,
            evade_charges: self.evade_charges,
        }
    }
}

/// The statuses of one combatant, in the order they were first applied.
#[derive(Debug)]
pub struct StatusBoard {
    pub entries: Vec<StatusInstance>,
}

pub open spec fn entries_view(s: Seq<StatusInstance>) -> Seq<StatusView> {
    s.map_values(|e: StatusInstance| e@)
}

impl View for StatusBoard {
    type V = Seq<StatusView>;

    open spec fn view(&self) -> Seq<StatusView> {
        entries_view(self.entries@)
    }
}

impl Default for StatusBoard {
    fn default() -> (b: Self)
        ensures
            b@.len() == 0,
    {
        StatusBoard { entries: Vec::new() }
    }
}

/// One-shot card bonuses waiting for a side's next fitting action.
#[derive(Debug, Clone)]
pub struct PendingBoost {
    pub next_attack_bonus: i32,
    pub next_shield_bonus: i32,
    pub next_heal_bonus: i32,
    pub next_element_attachment_ap: Option<i32>,
    pub next_reaction_fixed_damage: Option<i32>,
    pub next_wind_spread_damage: Option<(i32, Vec<ElementType>)>,
    pub next_aura_attack_draw: Option<(usize, String)>,
    pub next_skill_cost_draw: Option<(i32, usize, String)>,
    pub next_switch_draw: Option<(usize, String)>,
    pub next_knockout_draw: Option<(usize, String)>,
    pub shield_absorb_ap: Option<i32>,
}

impl PendingBoost {
    /// No pending bonus at all.
    pub open spec fn is_clear(self) -> bool {
        &&& self.next_attack_bonus == 0
        &&& self.next_shield_bonus == 0
        &&& self.next_heal_bonus == 0
        &&& self.next_element_attachment_ap is None
        &&& self.next_reaction_fixed_damage is None
        &&& self.next_wind_spread_damage is None
        &&& self.next_aura_attack_draw is None
        &&& self.next_skill_cost_draw is None
        &&& self.next_switch_draw is None
        &&& self.next_knockout_draw is None
        &&& self.shield_absorb_ap is None
    }

    pub fn new() -> (p: Self)
        ensures
            p.is_clear(),
    {
        PendingBoost {
            next_attack_bonus: 0,
            next_shield_bonus: 0,
            next_heal_bonus: 0,
            next_element_attachment_ap: None,
            next_reaction_fixed_damage: None,
            next_wind_spread_damage: None,
            next_aura_attack_draw: None,
            next_skill_cost_draw: None,
            next_switch_draw: None,
            next_knockout_draw: None,
            shield_absorb_ap: None,
        }
    }
}

#[derive(Debug, Clone)]
pub struct PendingBoosts {
    pub player: PendingBoost,
    pub enemy: PendingBoost,
}

impl PendingBoosts {
    pub open spec fn of(self, side: Side) -> PendingBoost {
        match side {
            Side::Player => self.player,
            Side::Enemy => self.enemy,
        }
    }

    pub fn new() -> (p: Self)
        ensures
            p.player.is_clear(),
            p.enemy.is_clear(),
    {
        PendingBoosts { player: PendingBoost::new(), enemy: PendingBoost::new() }
    }

    pub fn side_mut(&mut self, side: Side) -> (r: &mut PendingBoost)
        ensures
            *r == old(self).of(side),
            final(self).of(side) == *final(r),
            final(self).of(spec_opposite(side)) == old(self).of(spec_opposite(side)),
    {
        match side {
            Side::Player => &mut self.player,
            Side::Enemy => &mut self.enemy,
        }
    }
}

/// What kind of damage a hit did: the direct damage of an attack, or fixed damage (fixed-damage
/// effects, reactions, wind spreads, status ticks, cards).
#[derive(Debug, Clone, Copy, PartialEq, Eq, Structural)]
pub enum DamageType {
    Direct,
    Fixed,
}

/// Things that happen in a battle, reported to the log, the cards and the presentation.
/// `effectiveness` is in thousandths.
#[derive(Debug)]
pub enum BattleEvent {
    TurnStarted { round: u32 },
    AttackMissed { source: Side, target: Side },
    ShieldAbsorbed { side: Side, amount: i32 },
    DamageDealt { source: Side, target: Side, amount: i32, kind: DamageType },
    Healed { side: Side, amount: i32 },
    ShieldGained { side: Side, amount: i32 },
    ElementAuraApplied {
        side: Side,
        from: Vec<ElementType>,
        to: Vec<ElementType>,
        effectiveness: i32,
    },
    ReactionTriggered { source: Side, target: Side, reaction_name: String },
    WindSpreadTriggered { source: Side, target: Side, element: ElementType },
    WindSpreadSkipped { source: Side, target: Side, aura: Vec<ElementType> },
    SkillUsed { side: Side, skill_name: String, slot: usize },
    CardUsed { side: Side, card_name: String },
    CardDiscarded { side: Side, card_name: String },
    CombatantFainted { side: Side, index: usize },
    Switched { side: Side, index: usize },
}

/// An event as a value.
pub ghost enum EventView {
    TurnStarted { round: u32 },
    AttackMissed { source: Side, target: Side },
    ShieldAbsorbed { side: Side, amount: i32 },
    DamageDealt { source: Side, target: Side, amount: i32, kind: DamageType },
    Healed { side: Side, amount: i32 },
    ShieldGained { side: Side, amount: i32 },
    ElementAuraApplied {
        side: Side,
        from: Seq<ElementType>,
        to: Seq<ElementType>,
        effectiveness: i32,
    },
    ReactionTriggered { source: Side, target: Side, reaction_name: Seq<char> },
    WindSpreadTriggered { source: Side, target: Side, element: ElementType },
    WindSpreadSkipped { source: Side, target: Side, aura: Seq<ElementType> },
    SkillUsed { side: Side, skill_name: Seq<char>, slot: usize },
    CardUsed { side: Side, card_name: Seq<char> },
    CardDiscarded { side: Side, card_name: Seq<char> },
    CombatantFainted { side: Side, index: usize },
    Switched { side: Side, index: usize },
}

impl View for BattleEvent {
    type V = EventView;

    open spec fn view(&self) -> EventView {
        match self {
            BattleEvent::TurnStarted { round } => EventView::TurnStarted { round: *round },
            BattleEvent::AttackMissed { source, target } => EventView::AttackMissed {
                source: *source,
                target: *target,
            },
            BattleEvent::ShieldAbsorbed { side, amount } => EventView::ShieldAbsorbed {
                side: *side,
                amount: *amount,
            },
            BattleEvent::DamageDealt { source, target, amount, kind } => EventView::DamageDealt {
                source: *source,
                target: *target,
                amount: *amount,
                kind: *kind,
            },
            BattleEvent::Healed { side, amount } => EventView::Healed {
                side: *side,
                amount: *amount,
            },
            BattleEvent::ShieldGained { side, amount } => EventView::ShieldGained {
                side: *side,
                amount: *amount,
            },
            BattleEvent::ElementAuraApplied { side, from, to, effectiveness } =>
                EventView::ElementAuraApplied {
                side: *side,
                from: from@,
                to: to@,
                effectiveness: *effectiveness,
            },
            BattleEvent::ReactionTriggered { source, target, reaction_name } =>
                EventView::ReactionTriggered {
                source: *source,
                target: *target,
                reaction_name: reaction_name@,
            },
            BattleEvent::WindSpreadTriggered { source, target, element } =>
                EventView::WindSpreadTriggered {
                source: *source,
                target: *target,
                element: *element,
            },
            BattleEvent::WindSpreadSkipped { source, target, aura } =>
                EventView::WindSpreadSkipped { source: *source, target: *target, aura: aura@ },
            BattleEvent::SkillUsed { side, skill_name, slot } => EventView::SkillUsed {
                side: *side,
                skill_name: skill_name@,
                slot: *slot,
            },
            BattleEvent::CardUsed { side, card_name } => EventView::CardUsed {
                side: *side,
                card_name: card_name@,
            },
            BattleEvent::CardDiscarded { side, card_name } => EventView::CardDiscarded {
                side: *side,
                card_name: card_name@,
            },
            BattleEvent::CombatantFainted { side, index } => EventView::CombatantFainted {
                side: *side,
                index: *index,
            },
            BattleEvent::Switched { side, index } => EventView::Switched {
                side: *side,
                index: *index,
            },
        }
    }
}

/// The event log.
pub open spec fn events_view(s: Seq<BattleEvent>) -> Seq<EventView> {
    s.map_values(|e: BattleEvent| e@)
}

/// Appends an event to the log.
pub fn emit(events: &mut Vec<BattleEvent>, e: BattleEvent)
    ensures
        events_view(final(events)@) == events_view(old(events)@).push(e@),
{
    events.push(e);
    assert(events_view(events@) =~= events_view(old(events)@).push(e@));
}

/// The battle state of one combatant that effects change: stats, shield, aura and statuses.
#[derive(Debug)]
pub struct CombatState {
    pub stats: Stats,
    pub shield: Shield,
    pub aura: ElementAura,
    pub statuses: StatusBoard,
}

pub ghost struct CombatView {
    pub stats: Stats,
    pub shield: i32,
    pub aura: ElementAura,
    pub statuses: Seq<StatusView>,
}

impl View for CombatState {
    type V = CombatView;

    open spec fn view(&self) -> CombatView {
        CombatView {
            stats: self.stats,
            shield: self.shield.0,
            aura: self.aura,
            statuses: self.statuses@,
        }
    }
}

} // verus!
