//! Battle content: elements, skills, statuses, reactions, monsters and rule settings.
//!
//! Ratios that the configuration writes as fractions (element multipliers, accuracy bounds,
//! heal and lifesteal ratios) are held here in thousandths: `1000` stands for `1.0`.
use vstd::prelude::*;

use crate::arith::min_int;
use crate::chars::str_eq;

pub mod cards;
pub mod validate;
pub mod load;
pub mod messages;

pub use cards::{CardDeck, CardDef, CardEffect, CardId};

verus! {

/// Element (type) of a monster or a skill.
#[derive(Debug, Clone, Copy, PartialEq, Eq, Hash, Structural)]
pub enum ElementType {
    Fire,
    Water,
    Grass,
    Light,
    Dark,
    Thunder,
    Wind,
}

#[derive(Debug, Clone, Copy, PartialEq, Eq, Hash, Structural)]
pub enum SkillCategory {
    NormalAttack,
    ElementAttack,
    SpecialAttack,
    SelfUtility,
    AllyUtility,
    EnemyDebuff,
}

/// The category a skill has when the configuration names none.
pub fn default_skill_category() -> (c: SkillCategory)
    ensures
        c == SkillCategory::NormalAttack,
{
    SkillCategory::NormalAttack
}

#[derive(Debug, Clone, Copy, PartialEq, Eq, Hash, Structural)]
pub enum StatusCategory {
    Aura,
    Buff,
    Debuff,
    Special,
}

#[derive(Debug, Clone, Copy, PartialEq, Eq, Hash, Structural)]
pub enum StatusTickTiming {
    OwnerActionEnd,
}

#[derive(Debug, Clone, Copy, PartialEq, Eq, Hash, Structural)]
pub enum AttributeType {
    Atk,
    Def,
    Spd,
    Acc,
}

#[derive(Debug, Clone, Copy, PartialEq, Eq, Hash, Structural)]
pub enum EffectTarget {
    Infer,
    SelfTarget,
    Opponent,
}

impl Default for EffectTarget {
    fn default() -> (t: Self)
        ensures
            t == EffectTarget::Infer,
    {
        EffectTarget::Infer
    }
}

/// A condition that a conditional skill branch tests against what the previous effects did.
#[derive(Debug)]
pub enum SkillCondition {
    TargetHadAura { element: ElementType },
    TargetHadStatus { status_id: String },
    TargetHadNoShield,
    LastReactionName { reaction_name: String },
    LastWindSpreadSucceeded,
    LastWindSpreadFailed,
    LastCleanseSucceeded,
    LastCleanseFailed,
    LastTargetFainted,
    Any { conditions: Vec<SkillCondition> },
    All { conditions: Vec<SkillCondition> },
}

#[derive(Debug)]
pub struct ConditionalSkillEffect {
    pub condition: SkillCondition,
    pub effect: Box<SkillEffect>,
}

#[derive(Debug, Clone, Copy, PartialEq, Eq, Structural)]
pub struct AttributeStageModifier {
    pub attribute: AttributeType,
    pub amount: i32,
}

#[derive(Debug, Clone, Copy, PartialEq, Eq, Structural)]
pub struct AttributeStageBounds {
    pub min: i32,
    pub max: i32,
}

impl Default for AttributeStageBounds {
    fn default() -> (b: Self)
        ensures
            b.min == -6,
            b.max == 6,
    {
        Self { min: -6, max: 6 }
    }
}

/// Accuracy bounds and the accuracy change per stage, in thousandths.
#[derive(Debug, Clone, Copy, PartialEq, Eq, Structural)]
pub struct AccuracyRulesConfig {
    pub min: i32,
    pub max: i32,
    pub stage_step: i32,
}

impl Default for AccuracyRulesConfig {
    fn default() -> (c: Self)
        ensures
            c.min == 500,
            c.max == 1000,
            c.stage_step == 50,
    {
        Self { min: 500, max: 1000, stage_step: 50 }
    }
}

#[derive(Debug, Clone, Copy, PartialEq, Eq, Structural)]
pub struct DamageFormulaConfig {
    pub min_damage: i32,
}

impl Default for DamageFormulaConfig {
    fn default() -> (c: Self)
        ensures
            c.min_damage == 1,
    {
        Self { min_damage: 1 }
    }
}

#[derive(Debug, Clone, Copy, PartialEq, Eq, Structural)]
pub struct BattleFormulaConfig {
    pub attribute_stage_bounds: AttributeStageBounds,
    pub accuracy: AccuracyRulesConfig,
    pub damage: DamageFormulaConfig,
}

impl Default for BattleFormulaConfig {
    fn default() -> (c: Self)
        ensures
            c.attribute_stage_bounds.min == -6,
            c.attribute_stage_bounds.max == 6,
            c.accuracy.min == 500,
            c.accuracy.max == 1000,
            c.accuracy.stage_step == 50,
            c.damage.min_damage == 1,
    {
        Self {
            attribute_stage_bounds: AttributeStageBounds::default(),
            accuracy: AccuracyRulesConfig::default(),
            damage: DamageFormulaConfig::default(),
        }
    }
}

#[derive(Debug, Clone, Copy, PartialEq, Eq, Structural)]
pub struct BattleFormulaRules {
    pub attribute_stage_bounds: AttributeStageBounds,
    pub accuracy: AccuracyRulesConfig,
    pub damage: DamageFormulaConfig,
}

impl BattleFormulaRules {
    pub fn from_config(config: &BattleFormulaConfig) -> (r: Self)
        ensures
            r.attribute_stage_bounds == config.attribute_stage_bounds,
            r.accuracy == config.accuracy,
            r.damage == config.damage,
    {
        Self {
            attribute_stage_bounds: config.attribute_stage_bounds,
            accuracy: config.accuracy,
            damage: config.damage,
        }
    }

    /// Rules whose lower bounds do not exceed their upper bounds (clamping into inverted bounds
    /// is refused).
    pub open spec fn sane(self) -> bool {
        &&& self.attribute_stage_bounds.min <= self.attribute_stage_bounds.max
        &&& self.accuracy.min <= self.accuracy.max
    }

    /// Whether the rules are `sane`.
    pub fn is_sane(&self) -> (b: bool)
        ensures
            b == self.sane(),
    {
        self.attribute_stage_bounds.min <= self.attribute_stage_bounds.max && self.accuracy.min <= self.accuracy.max
    }
}

impl Default for BattleFormulaRules {
    fn default() -> (r: Self)
        ensures
            r.attribute_stage_bounds.min == -6,
            r.attribute_stage_bounds.max == 6,
            r.accuracy.min == 500,
            r.accuracy.max == 1000,
            r.accuracy.stage_step == 50,
            r.damage.min_damage == 1,
    {
        Self::from_config(&BattleFormulaConfig::default())
    }
}

/// A status as the configuration defines it; `heal_taken_multiplier` is in thousandths.
#[derive(Debug, Clone)]
pub struct StatusDef {
    pub id: String,
    pub name: String,
    pub category: StatusCategory,
    pub duration_turns: i32,
    pub tick_timing: Option<StatusTickTiming>,
    pub stage_modifiers: Vec<AttributeStageModifier>,
    pub fixed_damage_on_tick: i32,
    pub heal_on_tick: i32,
    pub heal_taken_multiplier: Option<i32>,
    pub evade_charges: i32,
}

/// The defined statuses, looked up by id.
#[derive(Debug, Clone)]
pub struct StatusDb {
    pub statuses: Vec<StatusDef>,
}

/// Index of the last status in `s` with id `id`, or -1.
pub open spec fn last_status_index(s: Seq<StatusDef>, id: Seq<char>) -> int
    decreases s.len(),
{
    if s.len() == 0 {
        -1
    } else if s.last().id@ == id {
        s.len() - 1
    } else {
        last_status_index(s.drop_last(), id)
    }
}

proof fn lemma_last_status_index_bounds(s: Seq<StatusDef>, id: Seq<char>)
    ensures
        -1 <= last_status_index(s, id) < s.len(),
        last_status_index(s, id) >= 0 ==> s[last_status_index(s, id)].id@ == id,
        last_status_index(s, id) == -1 ==> forall|k: int| 0 <= k < s.len() ==> #[trigger] s[k].id@
            != id,
    decreases s.len(),
{
    if s.len() > 0 {
        lemma_last_status_index_bounds(s.drop_last(), id);
        if s.last().id@ != id {
            if last_status_index(s, id) == -1 {
                assert forall|k: int| 0 <= k < s.len() implies #[trigger] s[k].id@ != id by {
                    if k < s.len() - 1 {
                        assert(s[k] == s.drop_last()[k]);
                    }
                }
            }
        }
    }
}

impl StatusDb {
    /// The definition registered under `id` (when several share the id, the last one).
    pub open spec fn lookup(self, id: Seq<char>) -> Option<StatusDef> {
        let i = last_status_index(self.statuses@, id);
        if i >= 0 {
            Some(self.statuses@[i])
        } else {
            None
        }
    }

    pub fn new() -> (db: Self)
        ensures
            db.statuses@.len() == 0,
    {
        StatusDb { statuses: Vec::new() }
    }

    pub fn get(&self, id: &str) -> (r: Option<&StatusDef>)
        ensures
            match r {
                Some(d) => self.lookup(id@) == Some(*d),
                None => self.lookup(id@) is None,
            },
    {
        proof {
            lemma_last_status_index_bounds(self.statuses@, id@);
        }
        let mut i: usize = self.statuses.len();
        assert(self.statuses@.subrange(0, i as int) =~= self.statuses@);
        while i > 0
            invariant
                i <= self.statuses@.len(),
                last_status_index(self.statuses@, id@) == last_status_index(
                    self.statuses@.subrange(0, i as int),
                    id@,
                ),
            decreases i,
        {
            let ghost pre = self.statuses@.subrange(0, i as int);
            if str_eq(self.statuses[i - 1].id.as_str(), id) {
                return Some(&self.statuses[i - 1]);
            }
            assert(pre.drop_last() =~= self.statuses@.subrange(0, i - 1));
            i = i - 1;
        }
        None
    }
}

#[derive(Debug, Clone)]
pub struct ReactionDef {
    pub id: String,
    pub name: String,
    pub required_elements: Vec<ElementType>,
    pub required_statuses: Vec<String>,
    pub trigger_element: ElementType,
    pub fixed_damage: i32,
    pub heal_attacker: i32,
    pub apply_statuses: Vec<String>,
    pub clear_statuses: Vec<String>,
    pub aura_results: Vec<ElementType>,
}

#[derive(Debug, Clone)]
pub struct ReactionDb {
    pub reactions: Vec<ReactionDef>,
}

/// One entry of the element matrix: `multiplier` (thousandths) of `attacker` against `defender`.
#[derive(Debug, Clone, Copy, PartialEq, Eq, Structural)]
pub struct ElementRelation {
    pub attacker: ElementType,
    pub defender: ElementType,
    pub multiplier: i32,
}

/// The multiplier of the last relation for `(a, d)` in `s`, if any (later entries override
/// earlier ones, as repeated inserts into a map do).
pub open spec fn relation_lookup(s: Seq<ElementRelation>, a: ElementType, d: ElementType) -> Option<
    int,
>
    decreases s.len(),
{
    if s.len() == 0 {
        None
    } else if s.last().attacker == a && s.last().defender == d {
        Some(s.last().multiplier as int)
    } else {
        relation_lookup(s.drop_last(), a, d)
    }
}

/// The element matrix: damage multipliers (thousandths) between attacking and defending elements.
/// A pair that is not listed has multiplier `1000`.
#[derive(Debug, Clone)]
pub struct ElementDb {
    matrix: Vec<ElementRelation>,
}

/// The multiplier the configuration-less matrix gives.
pub open spec fn default_effectiveness(a: ElementType, d: ElementType) -> int {
    match (a, d) {
        (ElementType::Light, ElementType::Dark) => 2000,
        (ElementType::Dark, ElementType::Light) => 500,
        (ElementType::Water, ElementType::Fire) => 2000,
        (ElementType::Fire, ElementType::Grass) => 2000,
        (ElementType::Grass, ElementType::Water) => 2000,
        (ElementType::Water, ElementType::Grass) => 500,
        (ElementType::Fire, ElementType::Water) => 500,
        (ElementType::Grass, ElementType::Fire) => 500,
        (ElementType::Thunder, ElementType::Water) => 2000,
        (ElementType::Water, ElementType::Thunder) => 500,
        (ElementType::Thunder, ElementType::Wind) => 2000,
        (ElementType::Wind, ElementType::Thunder) => 500,
        (ElementType::Thunder, ElementType::Grass) => 500,
        (ElementType::Wind, ElementType::Grass) => 2000,
        (ElementType::Fire, ElementType::Wind) => 2000,
        (ElementType::Wind, ElementType::Fire) => 500,
        _ => 1000,
    }
}

fn rel(a: ElementType, d: ElementType, m: i32) -> (r: ElementRelation)
    ensures
        r.attacker == a,
        r.defender == d,
        r.multiplier == m,
{
    ElementRelation { attacker: a, defender: d, multiplier: m }
}

impl ElementDb {
    /// The multiplier (thousandths) of `a` attacking `d`.
    pub closed spec fn effectiveness(self, a: ElementType, d: ElementType) -> int {
        match relation_lookup(self.matrix@, a, d) {
            Some(m) => m,
            None => 1000,
        }
    }

    /// The relations this matrix was built from, in order.
    pub closed spec fn relations(self) -> Seq<ElementRelation> {
        self.matrix@
    }

    /// The empty matrix: every pair has multiplier `1000`.
    pub fn new() -> (db: Self)
        ensures
            db.relations().len() == 0,
            forall|a: ElementType, d: ElementType| db.effectiveness(a, d) == 1000,
    {
        ElementDb { matrix: Vec::new() }
    }

    /// How much damage `attacker`'s element does to `defender`'s element, in thousandths;
    /// `1000` for a pair that the matrix does not list.
    pub fn get_effectiveness(&self, attacker: ElementType, defender: ElementType) -> (m: i32)
        ensures
            m as int == self.effectiveness(attacker, defender),
    {
        let mut i: usize = self.matrix.len();
        assert(self.matrix@.subrange(0, i as int) =~= self.matrix@);
        while i > 0
            invariant
                i <= self.matrix@.len(),
                relation_lookup(self.matrix@, attacker, defender) == relation_lookup(
                    self.matrix@.subrange(0, i as int),
                    attacker,
                    defender,
                ),
            decreases i,
        {
            let r = self.matrix[i - 1];
            let ghost pre = self.matrix@.subrange(0, i as int);
            assert(pre.last() == r);
            if r.attacker == attacker && r.defender == defender {
                return r.multiplier;
            }
            assert(pre.drop_last() =~= self.matrix@.subrange(0, i - 1));
            i = i - 1;
        }
        1000
    }

    /// The built-in matrix, used when the configuration lists no relation.
    pub fn from_default_config() -> (db: Self)
        ensures
            forall|a: ElementType, d: ElementType| db.effectiveness(a, d) == default_effectiveness(
                a,
                d,
            ),
    {
        let mut matrix: Vec<ElementRelation> = Vec::new();
        matrix.push(rel(ElementType::Light, ElementType::Dark, 2000));
        matrix.push(rel(ElementType::Dark, ElementType::Light, 500));
        matrix.push(rel(ElementType::Water, ElementType::Fire, 2000));
        matrix.push(rel(ElementType::Fire, ElementType::Grass, 2000));
        matrix.push(rel(ElementType::Grass, ElementType::Water, 2000));
        matrix.push(rel(ElementType::Water, ElementType::Grass, 500));
        matrix.push(rel(ElementType::Fire, ElementType::Water, 500));
        matrix.push(rel(ElementType::Grass, ElementType::Fire, 500));
        matrix.push(rel(ElementType::Thunder, ElementType::Water, 2000));
        matrix.push(rel(ElementType::Water, ElementType::Thunder, 500));
        matrix.push(rel(ElementType::Thunder, ElementType::Wind, 2000));
        matrix.push(rel(ElementType::Wind, ElementType::Thunder, 500));
        matrix.push(rel(ElementType::Thunder, ElementType::Grass, 500));
        matrix.push(rel(ElementType::Wind, ElementType::Grass, 2000));
        matrix.push(rel(ElementType::Fire, ElementType::Wind, 2000));
        matrix.push(rel(ElementType::Wind, ElementType::Fire, 500));
        let db = ElementDb { matrix };
        proof {
            let s = db.matrix@;
            assert forall|a: ElementType, d: ElementType| db.effectiveness(a, d)
                == default_effectiveness(a, d) by {
                reveal_with_fuel(relation_lookup, 17);
                assert(s.len() == 16);
                assert(s.drop_last() =~= s.subrange(0, 15));
            }
        }
        db
    }

    /// The matrix that the configured relations give (a later relation for a pair wins).
    pub fn from_config(config: &ElementMatrixConfig) -> (db: Self)
        ensures
            db.relations() == config.relations@,
            forall|a: ElementType, d: ElementType| db.effectiveness(a, d) == match relation_lookup(
                config.relations@,
                a,
                d,
            ) {
                Some(m) => m,
                None => 1000,
            },
    {
        ElementDb { matrix: config.to_hashmap() }
    }
}

impl Default for ElementDb {
    fn default() -> (db: Self)
        ensures
            forall|a: ElementType, d: ElementType| db.effectiveness(a, d) == 1000,
    {
        ElementDb::new()
    }
}

/// The element matrix as the configuration lists it.
#[derive(Debug, Clone)]
pub struct ElementMatrixConfig {
    pub relations: Vec<ElementRelation>,
}

impl ElementMatrixConfig {
    /// The relations, in order, as the matrix keeps them (a later one for a pair overrides).
    pub fn to_hashmap(&self) -> (m: Vec<ElementRelation>)
        ensures
            m@ == self.relations@,
    {
        let mut out: Vec<ElementRelation> = Vec::new();
        let mut i: usize = 0;
        while i < self.relations.len()
            invariant
                i <= self.relations@.len(),
                out@ == self.relations@.subrange(0, i as int),
            decreases self.relations@.len() - i,
        {
            out.push(self.relations[i]);
            i = i + 1;
            assert(out@ =~= self.relations@.subrange(0, i as int));
        }
        assert(self.relations@.subrange(0, i as int) =~= self.relations@);
        out
    }
}

/// Whether a shield keeps an elemental hit from attaching its element: it does when the shield
/// absorbs part of the hit (`min(shield, damage) > 0`).
pub open spec fn spec_shield_blocks_attachment(shield: int, theoretical_damage: int) -> bool {
    min_int(shield, theoretical_damage) > 0
}

pub fn shield_blocks_element_attachment(shield: i32, theoretical_damage: i32) -> (b: bool)
    ensures
        b == spec_shield_blocks_attachment(shield as int, theoretical_damage as int),
{
    let m = if shield <= theoretical_damage {
        shield
    } else {
        theoretical_damage
    };
    m > 0
}

/// Identity of a skill.
#[derive(Debug, Clone, Copy, PartialEq, Eq, Hash, Structural)]
pub enum SkillId {
    FirePunch,
    FlameStorm,
    BurningSoul,
    ExplosiveIgnition,
    WaterBlade,
    UndertowCrash,
    WaterScreen,
    TidalImpact,
    VineWhip,
    EntanglingVines,
    NatureHealing,
    LifeBloom,
    ThunderStrike,
    ThousandThunder,
    SwiftThunder,
    ElectroPulse,
    WindBlade,
    ShadowWingAssassinate,
    GaleEvasion,
    CycloneRend,
    LightBladeSlash,
    SacredJudgment,
    HolyShelter,
    PurifyingLight,
    ShadowBlade,
    AbyssReap,
    CurseWhisper,
    BloodTouch,
}

/// A skill as configured; `base_accuracy` is in thousandths.
#[derive(Debug)]
pub struct SkillDef {
    pub id: SkillId,
    pub name: String,
    pub category: SkillCategory,
    pub cost_ap: i32,
    pub effect: SkillEffect,
    pub element: Option<ElementType>,
    pub base_accuracy: Option<i32>,
}

/// What a skill does; `lifesteal_ratio` is in thousandths.
#[derive(Debug)]
pub enum SkillEffect {
    Attack { power: i32, lifesteal_ratio: Option<i32>, ignore_shield: bool },
    Heal { amount: i32 },
    Shield { amount: i32 },
    ApplyStatus { status_id: String },
    Cleanse { prefer_aura: bool, fallback_to_debuff: bool, amount: usize },
    Dispel { status_ids: Vec<String>, target: EffectTarget },
    DealFixedDamage { amount: i32, ignore_shield: bool, target: EffectTarget },
    DealStatDifferenceDamage {
        source_attribute: AttributeType,
        target_attribute: AttributeType,
        multiply_by_source_stage: bool,
        ignore_shield: bool,
        target: EffectTarget,
    },
    ModifyStages { modifiers: Vec<AttributeStageModifier>, duration_turns: i32, target: EffectTarget },
    Conditional { branches: Vec<ConditionalSkillEffect> },
    Sequence { effects: Vec<SkillEffect> },
}

#[derive(Debug, Clone, Copy, PartialEq, Eq, Structural)]
pub struct StatsData {
    pub hp: i32,
    pub atk: i32,
    pub def: i32,
    pub spd: i32,
    pub acc: i32,
}

/// The accuracy a monster has when the configuration names none (percent).
pub fn default_accuracy_percent() -> (a: i32)
    ensures
        a == 100,
{
    100
}

#[derive(Debug, Clone)]
pub struct MonsterPrototype {
    pub name: String,
    pub element: ElementType,
    pub stats: StatsData,
    pub skills: Vec<SkillId>,
}

pub fn default_max_team_size() -> (n: usize)
    ensures
        n == 3,
{
    3
}

pub fn default_cards_per_round() -> (n: usize)
    ensures
        n == 5,
{
    5
}

pub fn default_ap_per_round() -> (n: i32)
    ensures
        n == 6,
{
    6
}

#[derive(Debug, Clone, Copy, PartialEq, Eq, Structural)]
pub struct BattleRulesConfig {
    pub max_team_size: usize,
    pub cards_per_round: usize,
    pub ap_per_round: i32,
}

impl Default for BattleRulesConfig {
    fn default() -> (c: Self)
        ensures
            c.max_team_size == 3,
            c.cards_per_round == 5,
            c.ap_per_round == 6,
    {
        Self {
            max_team_size: default_max_team_size(),
            cards_per_round: default_cards_per_round(),
            ap_per_round: default_ap_per_round(),
        }
    }
}

#[derive(Debug, Clone, Copy, PartialEq, Eq, Structural)]
pub struct BattleRules {
    pub max_team_size: usize,
    pub cards_per_round: usize,
    pub ap_per_round: i32,
}

impl BattleRules {
    pub fn from_config(config: &BattleRulesConfig) -> (r: Self)
        ensures
            r.max_team_size == config.max_team_size,
            r.cards_per_round == config.cards_per_round,
            r.ap_per_round == config.ap_per_round,
    {
        Self {
            max_team_size: config.max_team_size,
            cards_per_round: config.cards_per_round,
            ap_per_round: config.ap_per_round,
        }
    }
}

impl Default for BattleRules {
    fn default() -> (r: Self)
        ensures
            r.max_team_size == 3,
            r.cards_per_round == 5,
            r.ap_per_round == 6,
    {
        Self::from_config(&BattleRulesConfig::default())
    }
}

/// The whole battle configuration file.
#[derive(Debug)]
pub struct BattleConfig {
    pub element_matrix: ElementMatrixConfig,
    pub rules: BattleRulesConfig,
    pub formulas: BattleFormulaConfig,
    pub statuses: Vec<StatusDef>,
    pub reactions: Vec<ReactionDef>,
    pub skills: Vec<SkillDef>,
    pub monsters: Vec<MonsterPrototype>,
    pub cards: Vec<CardDef>,
    pub deck: Vec<CardId>,
}

#[derive(Debug, Clone, Copy, PartialEq, Eq, Structural)]
pub struct BattleRulesBundle {
    pub battle: BattleRules,
    pub formulas: BattleFormulaRules,
}

impl Default for BattleRulesBundle {
    fn default() -> (b: Self)
        ensures
            b.battle.max_team_size == 3,
            b.battle.cards_per_round == 5,
            b.battle.ap_per_round == 6,
            b.formulas.attribute_stage_bounds.min == -6,
            b.formulas.attribute_stage_bounds.max == 6,
            b.formulas.accuracy.min == 500,
            b.formulas.accuracy.max == 1000,
            b.formulas.accuracy.stage_step == 50,
            b.formulas.damage.min_damage == 1,
    {
        Self { battle: BattleRules::default(), formulas: BattleFormulaRules::default() }
    }
}

/// Skills, cards, the element matrix, statuses and reactions of a battle.
#[derive(Debug)]
pub struct BattleDbs {
    pub skills: Vec<SkillDef>,
    pub cards: Vec<CardDef>,
    pub elements: ElementDb,
    pub statuses: StatusDb,
    pub reactions: ReactionDb,
}

#[derive(Debug, Clone)]
pub struct MonsterPool {
    pub monsters: Vec<MonsterPrototype>,
}

#[derive(Debug, Clone)]
pub struct TeamSelections {
    pub player_indices: Vec<usize>,
    pub enemy_indices: Vec<usize>,
}

/// Why loading the battle data failed, if it did.
#[derive(Debug, Clone)]
pub struct BattleDataStatus {
    pub error: Option<String>,
}

} // verus!
