//! Turning a validated battle configuration into the tables a battle reads.
use vstd::prelude::*;

use super::cards::{CardDeck, CardDef};
use super::validate::{config_verdict, validate_battle_config, ConfigError};
use super::{
    default_effectiveness, relation_lookup, BattleConfig, BattleDbs, BattleFormulaRules,
    BattleRules, ElementDb, ElementType, MonsterPool, ReactionDb, StatusDb,
};

verus! {

/// Everything a battle reads from the configuration.
#[derive(Debug)]
pub struct BattleData {
    pub dbs: BattleDbs,
    pub monsters: MonsterPool,
    pub deck: CardDeck,
    pub rules: BattleRules,
    pub formulas: BattleFormulaRules,
}

/// The multiplier that the loaded element matrix gives: the configured relations (a later one
/// for a pair wins, an unlisted pair has `1000`), or the built-in matrix when none is
/// configured.
pub open spec fn loaded_effectiveness(config: BattleConfig, a: ElementType, d: ElementType) -> int {
    if config.element_matrix.relations@.len() == 0 {
        default_effectiveness(a, d)
    } else {
        match relation_lookup(config.element_matrix.relations@, a, d) {
            Some(m) => m,
            None => 1000,
        }
    }
}

/// Loads a configuration. An invalid one gives the first error that validation finds (see
/// `config_verdict`). A valid one gives its skills, cards, statuses and reactions as listed
/// (a later status with an id overrides an earlier one on lookup), its element matrix (see
/// `loaded_effectiveness`), its monsters, its deck in order, and its rules.
pub fn battle_data_from_config(config: BattleConfig) -> (r: Result<BattleData, ConfigError>)
    ensures
        match r {
            Ok(d) => {
                &&& config_verdict(config) is Ok
                &&& d.dbs.skills@ == config.skills@
                &&& d.dbs.cards@ == config.cards@
                &&& d.dbs.statuses.statuses@ == config.statuses@
                &&& d.dbs.reactions.reactions@ == config.reactions@
                &&& forall|a: ElementType, e: ElementType| #[trigger] d.dbs.elements.effectiveness(a, e)
                    == loaded_effectiveness(config, a, e)
                &&& d.monsters.monsters@ == config.monsters@
                &&& d.deck.0@ == config.deck@
                &&& d.rules == BattleRules {
                    max_team_size: config.rules.max_team_size,
                    cards_per_round: config.rules.cards_per_round,
                    ap_per_round: config.rules.ap_per_round,
                }
                &&& d.formulas == BattleFormulaRules {
                    attribute_stage_bounds: config.formulas.attribute_stage_bounds,
                    accuracy: config.formulas.accuracy,
                    damage: config.formulas.damage,
                }
            },
            Err(e) => config_verdict(config) == Err::<(), ConfigError>(e),
        },
{
    match validate_battle_config(&config) {
        Err(e) => {
            return Err(e);
        },
        Ok(()) => {},
    }
    let rules = BattleRules::from_config(&config.rules);
    let formulas = BattleFormulaRules::from_config(&config.formulas);
    let elements = if config.element_matrix.relations.len() == 0 {
        ElementDb::from_default_config()
    } else {
        ElementDb::from_config(&config.element_matrix)
    };
    let BattleConfig { element_matrix: _, rules: _, formulas: _, statuses, reactions, skills, monsters, cards, deck } =
        config;
    let dbs = BattleDbs {
        skills,
        cards,
        elements,
        statuses: StatusDb { statuses },
        reactions: ReactionDb { reactions },
    };
    Ok(BattleData { dbs, monsters: MonsterPool { monsters }, deck: CardDeck(deck), rules, formulas })
}

/// What a battle reads when the configuration could not be read or is invalid: no skills,
/// cards, statuses, reactions or monsters, an empty deck, the built-in element matrix and the
/// default rules.
pub fn fallback_battle_data() -> (d: BattleData)
    ensures
        d.dbs.skills@.len() == 0,
        d.dbs.cards@.len() == 0,
        d.dbs.statuses.statuses@.len() == 0,
        d.dbs.reactions.reactions@.len() == 0,
        forall|a: ElementType, e: ElementType| #[trigger] d.dbs.elements.effectiveness(a, e) == default_effectiveness(a, e),
        d.monsters.monsters@.len() == 0,
        d.deck.0@.len() == 0,
        d.rules == (BattleRules { max_team_size: 3, cards_per_round: 5, ap_per_round: 6 }),
        d.formulas.attribute_stage_bounds.min == -6,
        d.formulas.attribute_stage_bounds.max == 6,
        d.formulas.accuracy.min == 500,
        d.formulas.accuracy.max == 1000,
        d.formulas.accuracy.stage_step == 50,
        d.formulas.damage.min_damage == 1,
{
    let dbs = BattleDbs {
        skills: Vec::new(),
        cards: Vec::<CardDef>::new(),
        elements: ElementDb::from_default_config(),
        statuses: StatusDb::new(),
        reactions: ReactionDb { reactions: Vec::new() },
    };
    BattleData {
        dbs,
        monsters: MonsterPool { monsters: Vec::new() },
        deck: CardDeck(Vec::new()),
        rules: BattleRules::default(),
        formulas: BattleFormulaRules::default(),
    }
}

} // verus!
