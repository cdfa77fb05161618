//! Skill cards: identities, effects and the deck.
use vstd::prelude::*;

use super::{AttributeType, ElementType, StatusCategory};

verus! {

/// Identity of a skill card.
#[derive(Debug, Clone, Copy, PartialEq, Eq, Hash, Structural)]
pub enum CardId {
    GainAp,
    NextAttackBoost,
    NextShieldBoost,
    NextHealBoost,
    ElementWarmup,
    ReactionCatalyst,
    WindSpreadFlow,
    ReactionCountdown,
    TacticalRefresh,
    ReadyToAct,
    Pursuit,
    EmergencyShield,
    GuardCounter,
    FortifiedLine,
    CleanseConversion,
    TeamCommand,
    RotationCover,
}

/// What playing a card does.
#[derive(Debug, Clone)]
pub enum CardEffect {
    GainAp { amount: i32 },
    NextAttackBoost { amount: i32 },
    NextShieldBoost { amount: i32 },
    NextHealBoost { amount: i32 },
    NextElementAttachmentGainAp { amount: i32 },
    NextReactionFixedDamage { amount: i32, ignore_shield: bool },
    NextWindSpreadDamage { amount: i32, elements: Vec<ElementType>, ignore_shield: bool },
    NextAuraAttackDraw { amount: usize },
    DiscardOtherDrawGainAp { draw: usize, gain_ap: i32 },
    NextSkillCostDraw { skill_cost: i32, draw: usize },
    DrawIfKnockedOutThisTurn { amount: usize },
    GainShield { amount: i32 },
    ShieldAbsorbGainAp { amount: i32 },
    ModifyStages { attribute: AttributeType, amount: i32, duration_turns: i32 },
    CleanseOrGainAp { categories: Vec<StatusCategory>, fallback_ap: i32 },
    DrawAndGainApIfAliveTeam { draw: usize, min_alive: usize, gain_ap: i32 },
    GainShieldDrawIfSwitchedThisTurn { shield: i32, draw: usize },
}

/// A card's full definition.
#[derive(Debug, Clone)]
pub struct CardDef {
    pub id: CardId,
    pub name: String,
    pub cost_ap: i32,
    pub effect: CardEffect,
}

/// The deck: the cards that the draw pile is built from, in order.
#[derive(Debug, Clone)]
pub struct CardDeck(pub Vec<CardId>);

impl Default for CardDeck {
    fn default() -> (d: Self)
        ensures
            d.0@.len() == 0,
    {
        CardDeck(Vec::new())
    }
}

} // verus!
