//! What a side can do in its turn: use a skill of its front member, switch members, select,
//! play and discard cards, and end the turn; and how a round starts.
use vstd::prelude::*;

use super::cards::{
    clamp_ap_to_max, clear_action_scoped_card_effects, discard_card_from_hand,
    enter_discard_phase_or_continue,
    find_card, spec_card_name, spec_find_card, spec_gain, spec_opposite_side, ActionPoints,
    CardRules, Hand, PendingHandDiscard, SelectedCardState, SelectedCards,
};
use super::combat::{
    apply_effect, apply_self_effect, env_of, run_effect, run_self, spec_setting, start_ctx,
    ActorView, SceneView,
};
use super::context::EffectResolutionContext;
use super::effects::{
    skill_execution_mode, skill_target_mode, spec_execution_mode, spec_target_mode,
    SkillExecutionMode, SkillTargetMode,
};
use super::flow::{
    battle_phase_for_side, RoundOrder, TurnContext, members_view, spec_phase_for_side, switch_in, switch_team, Combatant,
    MemberView, PendingKoResolution, Team, TeamView,
};
use super::model::{
    PendingBoost, emit, events_view, opposite_side, BattleEvent, CombatView, EventView,
    PendingBoosts, Side,
};
use super::rng::AccuracyRng;
use super::wind::{apply_wind_effect, run_wind, WindView};
use super::status::spec_heal_multiplier;
use super::ticks::{process_side_end_statuses, tick_all, TickView};
use crate::arith::{min_int, sat_i32};
use crate::data::cards::{CardDef, CardId};
use crate::data::{BattleFormulaRules, ElementDb, ReactionDb, SkillDef, SkillId, StatusDb};
use crate::game_state::BattlePhase;

verus! {

/// The skill definition with id `id` (the first one), if any.
pub open spec fn spec_find_skill(skills: Seq<SkillDef>, id: SkillId) -> Option<SkillDef>
    decreases skills.len(),
{
    if skills.len() == 0 {
        None
    } else if skills[0].id == id {
        Some(skills[0])
    } else {
        spec_find_skill(skills.drop_first(), id)
    }
}

pub fn find_skill(skills: &Vec<SkillDef>, id: SkillId) -> (r: Option<&SkillDef>)
    ensures
        match r {
            Some(s) => spec_find_skill(skills@, id) == Some(*s),
            None => spec_find_skill(skills@, id) is None,
        },
{
    let mut i: usize = 0;
    assert(skills@.subrange(0, skills@.len() as int) =~= skills@);
    while i < skills.len()
        invariant
            i <= skills@.len(),
            spec_find_skill(skills@, id) == spec_find_skill(skills@.subrange(i as int, skills@.len() as int), id),
        decreases skills@.len() - i,
    {
        let ghost rest = skills@.subrange(i as int, skills@.len() as int);
        assert(rest.drop_first() =~= skills@.subrange(i + 1, skills@.len() as int));
        if skills[i].id == id {
            return Some(&skills[i]);
        }
        i = i + 1;
    }
    None
}

/// Why a skill was not used.
#[derive(Debug, Clone, Copy, PartialEq, Eq, Structural)]
pub enum SkillRefusal {
    /// The slot holds no skill, or the skill is not defined: nothing happens.
    NoSkill,
    /// The skill has no use left in this round.
    NoUsesLeft,
    /// The side lacks the AP.
    NotEnoughAp,
}

/// The check before `side`'s front member uses the skill in `slot`: the slot must hold a defined
/// skill, with a use left this round when the player uses it (the enemy's uses are not counted),
/// and the side must have its AP. Gives the skill.
pub open spec fn spec_check_skill(
    side: Side,
    slot: usize,
    own: TeamView,
    skills: Seq<SkillDef>,
    ap: ActionPoints,
) -> Result<SkillDef, SkillRefusal> {
    let m = own.members[own.active];
    if slot >= m.skills.len() {
        Err(SkillRefusal::NoSkill)
    } else {
        match spec_find_skill(skills, m.skills[slot as int]) {
            None => Err(SkillRefusal::NoSkill),
            Some(skill) => if side == Side::Player && !(slot < m.skill_uses.len() && m.skill_uses[slot as int] > 0) {
                Err(SkillRefusal::NoUsesLeft)
            } else if ap.of(side) < skill.cost_ap {
                Err(SkillRefusal::NotEnoughAp)
            } else {
                Ok(skill)
            },
        }
    }
}

pub fn check_skill<'a>(
    side: Side,
    slot: usize,
    own: &Team,
    skills: &'a Vec<SkillDef>,
    ap: &ActionPoints,
) -> (r: Result<&'a SkillDef, SkillRefusal>)
    requires
        own@.has_active(),
    ensures
        match r {
            Ok(s) => spec_check_skill(side, slot, own@, skills@, *ap) == Ok::<SkillDef, SkillRefusal>(*s),
            Err(e) => spec_check_skill(side, slot, own@, skills@, *ap) == Err::<SkillDef, SkillRefusal>(e),
        },
{
    let m = &own.combatants[own.active_index];
    assert(m@ == own@.members[own@.active]);
    if slot >= m.skills.len() {
        return Err(SkillRefusal::NoSkill);
    }
    let skill = match find_skill(skills, m.skills[slot]) {
        Some(s) => s,
        None => {
            return Err(SkillRefusal::NoSkill);
        },
    };
    if side == Side::Player && !(slot < m.skill_uses.len() && m.skill_uses[slot] > 0) {
        return Err(SkillRefusal::NoUsesLeft);
    }
    let have = match side {
        Side::Player => ap.player,
        Side::Enemy => ap.enemy,
    };
    if have < skill.cost_ap {
        return Err(SkillRefusal::NotEnoughAp);
    }
    Ok(skill)
}

/// The front member after using the skill in `slot`: one use less.
pub open spec fn use_spent(m: MemberView, slot: usize) -> MemberView {
    MemberView { skill_uses: m.skill_uses.update(slot as int, (m.skill_uses[slot as int] - 1) as u32), ..m }
}

/// `side`'s team after its front member used the skill in `slot`: the player's front member has
/// one use less; the enemy's uses are not counted.
pub open spec fn spent_team(side: Side, own: TeamView, slot: usize) -> TeamView {
    if side == Side::Player {
        TeamView { members: own.members.update(own.active, use_spent(own.members[own.active], slot)), ..own }
    } else {
        own
    }
}

/// Pays for a skill: `side` loses its cost in AP (see `spent_team` for the use).
pub(crate) fn pay_skill(side: Side, slot: usize, cost: i32, own: &mut Team, ap: &mut ActionPoints)
    requires
        old(own)@.has_active(),
        side == Side::Player ==> slot < old(own)@.members[old(own)@.active].skill_uses.len(),
        side == Side::Player ==> old(own)@.members[old(own)@.active].skill_uses[slot as int] > 0,
    ensures
        *final(ap) == old(ap).with(side, sat_i32(old(ap).of(side) - cost) as i32),
        final(own)@ == spent_team(side, old(own)@, slot),
{
    match side {
        Side::Player => ap.player = crate::arith::to_i32_sat(ap.player as i64 - cost as i64),
        Side::Enemy => ap.enemy = crate::arith::to_i32_sat(ap.enemy as i64 - cost as i64),
    }
    if side == Side::Enemy {
        return;
    }
    let a = own.active_index;
    let ghost m0 = own@.members;
    let mut c = own.combatants.remove(a);
    assert(c@ == m0[a as int]);
    let left = c.skill_uses[slot] - 1;
    c.skill_uses.set(slot, left);
    let ghost cv = c@;
    own.combatants.insert(a, c);
    assert(own@.members =~= m0.update(a as int, cv));
}

/// What a skill used by `side`'s front member does to both teams (its front members, and for a
/// wind spread the first two other members of the opposing team), the card bonuses, the hit
/// roller and the events: a wind spread (see `run_wind`, without a kept context), a utility skill
/// on the user (see `run_self`), or any other skill on the opposing front member (see
/// `run_effect`).
#[verifier::opaque]
pub open spec fn skill_on_teams(
    skill: SkillDef,
    side: Side,
    own: TeamView,
    foe: TeamView,
    boosts: PendingBoosts,
    rng: u64,
    events: Seq<EventView>,
    rules: BattleFormulaRules,
    edb: ElementDb,
    sdb: StatusDb,
    rdb: ReactionDb,
    round: u32,
) -> (TeamView, TeamView, PendingBoosts, u64, Seq<EventView>) {
    let me = own.members[own.active];
    let front = foe.members[foe.active];
    let env = env_of(spec_setting(skill, side, spec_opposite_side(side), front.element, round), rules, edb, sdb, rdb);
    if spec_execution_mode(skill) == SkillExecutionMode::WindSpread {
        let rest = foe.members.remove(foe.active);
        let k = if rest.len() < 2 {
            rest.len() as int
        } else {
            2
        };
        let w = run_wind(
            skill.effect,
            env,
            false,
            WindView {
                attacker: me.state,
                front: front.state,
                back: rest.subrange(0, k),
                boosts,
                rng,
                events,
                ctx: super::context::empty_ctx(),
            },
        );
        (
            super::cards::front_replaced(own, w.attacker),
            TeamView {
                members: (w.back + rest.subrange(k, rest.len() as int)).insert(
                    foe.active,
                    MemberView { state: w.front, ..front },
                ),
                ..foe
            },
            w.boosts,
            w.rng,
            w.events,
        )
    } else if spec_target_mode(skill.category) == SkillTargetMode::SelfOnly {
        let r = run_self(
            skill.effect,
            side,
            round,
            rules,
            sdb,
            ActorView { actor: me.state, boosts, events, ctx: start_ctx(me.state) },
        );
        (super::cards::front_replaced(own, r.actor), foe, r.boosts, rng, r.events)
    } else {
        let r = run_effect(
            skill.effect,
            env,
            SceneView {
                attacker: me.state,
                target: front.state,
                boosts,
                rng,
                events,
                ctx: start_ctx(front.state),
            },
        );
        (super::cards::front_replaced(own, r.attacker), super::cards::front_replaced(foe, r.target), r.boosts, r.rng, r.events)
    }
}

/// Takes the front member out of a team.
fn take_front(team: &mut Team) -> (c: Combatant)
    requires
        old(team)@.has_active(),
    ensures
        c@ == old(team)@.members[old(team)@.active],
        final(team)@.members == old(team)@.members.remove(old(team)@.active),
        final(team)@.active == old(team)@.active,
{
    let a = team.active_index;
    let c = team.combatants.remove(a);
    assert(team@.members =~= old(team)@.members.remove(a as int));
    c
}

/// Puts a member back in front.
fn put_front(team: &mut Team, c: Combatant)
    requires
        0 <= old(team)@.active <= old(team)@.members.len(),
    ensures
        final(team)@.members == old(team)@.members.insert(old(team)@.active, c@),
        final(team)@.active == old(team)@.active,
{
    let a = team.active_index;
    let ghost cv = c@;
    team.combatants.insert(a, c);
    assert(team@.members =~= old(team)@.members.insert(a as int, cv));
}

proof fn lemma_take_put(m: Seq<MemberView>, a: int, v: MemberView)
    requires
        0 <= a < m.len(),
    ensures
        m.remove(a).insert(a, v) == m.update(a, v),
{
    assert(m.remove(a).insert(a, v) =~= m.update(a, v));
}

fn self_skill_on_team(
    skill: &SkillDef,
    side: Side,
    own: &mut Team,
    boosts: &mut PendingBoosts,
    rules: &BattleFormulaRules,
    sdb: &StatusDb,
    events: &mut Vec<BattleEvent>,
    round: u32,
)
    requires
        old(own)@.has_active(),
        rules.sane(),
    ensures
        ({
            let me = old(own)@.members[old(own)@.active];
            let r = run_self(
                skill.effect,
                side,
                round,
                *rules,
                *sdb,
                ActorView { actor: me.state, boosts: *old(boosts), events: events_view(old(events)@), ctx: start_ctx(me.state) },
            );
            &&& final(own)@ == super::cards::front_replaced(old(own)@, r.actor)
            &&& *final(boosts) == r.boosts
            &&& events_view(final(events)@) == r.events
        }),
        final(own)@.has_active(),
{
    let a = own.active_index;
    let ghost m0 = own@.members;
    let mut c = own.combatants.remove(a);
    assert(c@ == m0[a as int]);
    apply_self_effect(skill, side, &mut c.state, boosts, rules, sdb, events, round);
    let ghost cv = c@;
    own.combatants.insert(a, c);
    assert(own@.members =~= m0.update(a as int, cv));
}

fn opponent_skill_on_teams(
    skill: &SkillDef,
    side: Side,
    own: &mut Team,
    foe: &mut Team,
    boosts: &mut PendingBoosts,
    rules: &BattleFormulaRules,
    rng: &mut AccuracyRng,
    edb: &ElementDb,
    sdb: &StatusDb,
    rdb: &ReactionDb,
    events: &mut Vec<BattleEvent>,
    round: u32,
)
    requires
        old(own)@.has_active(),
        old(foe)@.has_active(),
        rules.sane(),
    ensures
        ({
            let me = old(own)@.members[old(own)@.active];
            let front = old(foe)@.members[old(foe)@.active];
            let r = run_effect(
                skill.effect,
                env_of(spec_setting(*skill, side, spec_opposite_side(side), front.element, round), *rules, *edb, *sdb, *rdb),
                SceneView {
                    attacker: me.state,
                    target: front.state,
                    boosts: *old(boosts),
                    rng: old(rng).state,
                    events: events_view(old(events)@),
                    ctx: start_ctx(front.state),
                },
            );
            &&& final(own)@ == super::cards::front_replaced(old(own)@, r.attacker)
            &&& final(foe)@ == super::cards::front_replaced(old(foe)@, r.target)
            &&& *final(boosts) == r.boosts
            &&& final(rng).state == r.rng
            &&& events_view(final(events)@) == r.events
        }),
        final(own)@.has_active(),
        final(foe)@.has_active(),
{
    let ghost m0 = own@.members;
    let ghost f0 = foe@.members;
    let mut c = take_front(own);
    let mut d = take_front(foe);
    let element = d.element;
    apply_effect(
        skill,
        side,
        opposite_side(side),
        element,
        &mut c.state,
        &mut d.state,
        boosts,
        rules,
        rng,
        edb,
        sdb,
        rdb,
        events,
        round,
    );
    proof {
        lemma_take_put(m0, own@.active, c@);
        lemma_take_put(f0, foe@.active, d@);
    }
    put_front(own, c);
    put_front(foe, d);
}

fn wind_skill_on_teams(
    skill: &SkillDef,
    side: Side,
    own: &mut Team,
    foe: &mut Team,
    boosts: &mut PendingBoosts,
    rules: &BattleFormulaRules,
    rng: &mut AccuracyRng,
    edb: &ElementDb,
    sdb: &StatusDb,
    rdb: &ReactionDb,
    events: &mut Vec<BattleEvent>,
    round: u32,
)
    requires
        old(own)@.has_active(),
        old(foe)@.has_active(),
        rules.sane(),
    ensures
        ({
            let me = old(own)@.members[old(own)@.active];
            let front = old(foe)@.members[old(foe)@.active];
            let rest = old(foe)@.members.remove(old(foe)@.active);
            let k = if rest.len() < 2 {
                rest.len() as int
            } else {
                2
            };
            let w = run_wind(
                skill.effect,
                env_of(spec_setting(*skill, side, spec_opposite_side(side), front.element, round), *rules, *edb, *sdb, *rdb),
                false,
                WindView {
                    attacker: me.state,
                    front: front.state,
                    back: rest.subrange(0, k),
                    boosts: *old(boosts),
                    rng: old(rng).state,
                    events: events_view(old(events)@),
                    ctx: super::context::empty_ctx(),
                },
            );
            &&& final(own)@ == super::cards::front_replaced(old(own)@, w.attacker)
            &&& final(foe)@ == (TeamView {
                members: (w.back + rest.subrange(k, rest.len() as int)).insert(
                    old(foe)@.active,
                    MemberView { state: w.front, ..front },
                ),
                ..old(foe)@
            })
            &&& *final(boosts) == w.boosts
            &&& final(rng).state == w.rng
            &&& events_view(final(events)@) == w.events
        }),
        final(own)@.has_active(),
        final(foe)@.has_active(),
{
    let ghost m0 = own@.members;
    let ghost f0 = foe@.members;
    let mut c = take_front(own);
    let mut front = take_front(foe);
    let mut backs: Vec<Combatant> = Vec::new();
    std::mem::swap(&mut backs, &mut foe.combatants);
    let k = if backs.len() < 2 {
        backs.len()
    } else {
        2
    };
    let ghost all = backs@;
    let mut tail = backs.split_off(k);
    proof {
        assert(members_view(all) == old(foe)@.members.remove(old(foe)@.active));
        assert(members_view(backs@) =~= members_view(all).subrange(0, k as int));
        assert(members_view(tail@) =~= members_view(all).subrange(k as int, all.len() as int));
    }
    let mut ctx = EffectResolutionContext::default();
    let element = front.element;
    apply_wind_effect(
        skill,
        side,
        opposite_side(side),
        element,
        &mut c.state,
        &mut front.state,
        &mut backs,
        boosts,
        rules,
        rng,
        edb,
        sdb,
        rdb,
        events,
        round,
        &mut ctx,
        false,
    );
    let ghost hit_backs = members_view(backs@);
    let ghost tail_v = members_view(tail@);
    backs.append(&mut tail);
    foe.combatants = backs;
    assert(foe@.members =~= hit_backs + tail_v);
    assert(foe@.members.len() == old(foe)@.members.len() - 1);
    proof {
        lemma_take_put(m0, own@.active, c@);
    }
    put_front(foe, front);
    put_front(own, c);
}

/// Using the skill in `slot` of `side`'s front member against the other team (see
/// `spec_check_skill` and `skill_on_teams`): when refused nothing changes; else the side pays
/// the AP (and the use: see `spent_team`), the skill is reported, then resolved; when a front member has no HP left
/// afterwards the battle goes to the end check and comes back to this side's turn.
pub open spec fn spec_use_skill(
    side: Side,
    slot: usize,
    own: TeamView,
    foe: TeamView,
    skills: Seq<SkillDef>,
    ap: ActionPoints,
    boosts: PendingBoosts,
    rng: u64,
    pending: PendingKoResolution,
    events: Seq<EventView>,
    rules: BattleFormulaRules,
    edb: ElementDb,
    sdb: StatusDb,
    rdb: ReactionDb,
    round: u32,
) -> (Result<Option<BattlePhase>, SkillRefusal>, TeamView, TeamView, ActionPoints, PendingBoosts, u64, PendingKoResolution, Seq<EventView>) {
    match spec_check_skill(side, slot, own, skills, ap) {
        Err(e) => (Err(e), own, foe, ap, boosts, rng, pending, events),
        Ok(skill) => {
            let own1 = spent_team(side, own, slot);
            let ap1 = ap.with(side, sat_i32(ap.of(side) - skill.cost_ap) as i32);
            let ev1 = events.push(EventView::SkillUsed { side, skill_name: skill.name@, slot });
            let t = skill_on_teams(skill, side, own1, foe, boosts, rng, ev1, rules, edb, sdb, rdb, round);
            let ko = t.0.active_hp() <= 0 || t.1.active_hp() <= 0;
            (
                Ok(if ko {
                    Some(BattlePhase::CheckEnd)
                } else {
                    None
                }),
                t.0,
                t.1,
                ap1,
                t.2,
                t.3,
                if ko {
                    PendingKoResolution { resume_phase: Some(spec_phase_for_side(side)), ..pending }
                } else {
                    pending
                },
                t.4,
            )
        },
    }
}

fn skill_on_teams_exec(
    skill: &SkillDef,
    side: Side,
    own: &mut Team,
    foe: &mut Team,
    boosts: &mut PendingBoosts,
    rules: &BattleFormulaRules,
    rng: &mut AccuracyRng,
    edb: &ElementDb,
    sdb: &StatusDb,
    rdb: &ReactionDb,
    events: &mut Vec<BattleEvent>,
    round: u32,
)
    requires
        old(own)@.has_active(),
        old(foe)@.has_active(),
        rules.sane(),
    ensures
        ({
            let t = skill_on_teams(*skill, side, old(own)@, old(foe)@, *old(boosts), old(rng).state, events_view(old(events)@), *rules, *edb, *sdb, *rdb, round);
            &&& final(own)@ == t.0
            &&& final(foe)@ == t.1
            &&& *final(boosts) == t.2
            &&& final(rng).state == t.3
            &&& events_view(final(events)@) == t.4
        }),
        final(own)@.has_active(),
        final(foe)@.has_active(),
{
    proof {
        reveal(skill_on_teams);
    }
    if skill_execution_mode(skill) == SkillExecutionMode::WindSpread {
        wind_skill_on_teams(skill, side, own, foe, boosts, rules, rng, edb, sdb, rdb, events, round);
    } else if skill_target_mode(skill) == SkillTargetMode::SelfOnly {
        self_skill_on_team(skill, side, own, boosts, rules, sdb, events, round);
    } else {
        opponent_skill_on_teams(skill, side, own, foe, boosts, rules, rng, edb, sdb, rdb, events, round);
    }
}

fn front_down(t: &Team) -> (b: bool)
    requires
        t@.has_active(),
    ensures
        b == (t@.active_hp() <= 0),
{
    let c = &t.combatants[t.active_index];
    assert(c@ == t@.members[t@.active]);
    c.state.stats.hp <= 0
}

/// Uses the skill in `slot` of `side`'s front member (see `spec_use_skill`).
pub fn use_skill(
    side: Side,
    slot: usize,
    own: &mut Team,
    foe: &mut Team,
    skills: &Vec<SkillDef>,
    action_points: &mut ActionPoints,
    pending_boosts: &mut PendingBoosts,
    formula_rules: &BattleFormulaRules,
    accuracy_rng: &mut AccuracyRng,
    element_db: &ElementDb,
    status_db: &StatusDb,
    reaction_db: &ReactionDb,
    pending_ko: &mut PendingKoResolution,
    events: &mut Vec<BattleEvent>,
    round: u32,
) -> (r: Result<Option<BattlePhase>, SkillRefusal>)
    requires
        old(own)@.has_active(),
        old(foe)@.has_active(),
        formula_rules.sane(),
    ensures
        ({
            let s = spec_use_skill(
                side,
                slot,
                old(own)@,
                old(foe)@,
                skills@,
                *old(action_points),
                *old(pending_boosts),
                old(accuracy_rng).state,
                *old(pending_ko),
                events_view(old(events)@),
                *formula_rules,
                *element_db,
                *status_db,
                *reaction_db,
                round,
            );
            &&& r == s.0
            &&& final(own)@ == s.1
            &&& final(foe)@ == s.2
            &&& *final(action_points) == s.3
            &&& *final(pending_boosts) == s.4
            &&& final(accuracy_rng).state == s.5
            &&& *final(pending_ko) == s.6
            &&& events_view(final(events)@) == s.7
        }),
        final(own)@.has_active(),
        final(foe)@.has_active(),
{
    let skill = match check_skill(side, slot, own, skills, action_points) {
        Ok(s) => s,
        Err(e) => {
            return Err(e);
        },
    };
    pay_skill(side, slot, skill.cost_ap, own, action_points);
    emit(events, BattleEvent::SkillUsed { side, skill_name: skill.name.clone(), slot });
    skill_on_teams_exec(skill, side, own, foe, pending_boosts, formula_rules, accuracy_rng, element_db, status_db, reaction_db, events, round);
    let ko = front_down(own) || front_down(foe);
    if ko {
        pending_ko.resume_phase = Some(battle_phase_for_side(side));
        Ok(Some(BattlePhase::CheckEnd))
    } else {
        Ok(None)
    }
}

/// What became of a switch asked for in a turn.
#[derive(Debug, Clone, Copy, PartialEq, Eq, Structural)]
pub enum SwitchOutcome {
    /// No member there, the member already in front, or one without HP: nothing happens.
    Ignored,
    /// The side lacks the AP a switch costs: nothing happens.
    NotEnoughAp,
    /// The member came in, for one AP.
    Switched,
}

/// Switching `side`'s member `target` in during its turn: the index must name another member
/// than the front one; the switch costs one AP; a member without HP does not come in. The
/// leaving member hands its nature regeneration status over, and the switch is reported.
pub open spec fn spec_switch_in_turn(
    side: Side,
    target: usize,
    team: TeamView,
    ap: ActionPoints,
    events: Seq<EventView>,
) -> (SwitchOutcome, TeamView, ActionPoints, Seq<EventView>) {
    if target >= team.members.len() || target == team.active {
        (SwitchOutcome::Ignored, team, ap, events)
    } else if ap.of(side) < 1 {
        (SwitchOutcome::NotEnoughAp, team, ap, events)
    } else {
        let r = switch_in(team, target as int);
        if r.1 {
            (
                SwitchOutcome::Switched,
                r.0,
                ap.with(side, (ap.of(side) - 1) as i32),
                events.push(EventView::Switched { side, index: target }),
            )
        } else {
            (SwitchOutcome::Ignored, team, ap, events)
        }
    }
}

/// Switches `side`'s member `target` in during its turn (see `spec_switch_in_turn`).
pub fn switch_in_turn(
    side: Side,
    target: usize,
    team: &mut Team,
    action_points: &mut ActionPoints,
    events: &mut Vec<BattleEvent>,
) -> (r: SwitchOutcome)
    requires
        old(team)@.has_active(),
    ensures
        (r, final(team)@, *final(action_points), events_view(final(events)@)) == spec_switch_in_turn(
            side,
            target,
            old(team)@,
            *old(action_points),
            events_view(old(events)@),
        ),
{
    if target >= team.combatants.len() || target == team.active_index {
        return SwitchOutcome::Ignored;
    }
    let have = match side {
        Side::Player => action_points.player,
        Side::Enemy => action_points.enemy,
    };
    if have < 1 {
        return SwitchOutcome::NotEnoughAp;
    }
    if !switch_team(team, target) {
        return SwitchOutcome::Ignored;
    }
    match side {
        Side::Player => action_points.player = have - 1,
        Side::Enemy => action_points.enemy = have - 1,
    }
    emit(events, BattleEvent::Switched { side, index: target });
    SwitchOutcome::Switched
}

/// A side's selection with nothing picked and no discard armed.
pub open spec fn cleared_pick() -> SelectedCardState {
    SelectedCardState { index: None, discard_armed: false }
}

/// `side` discards card `index` of its hand in its turn, for one AP, and its selection is
/// cleared. Nothing happens for an index past the hand. Gives whether a card was discarded.
pub fn discard_in_turn(
    side: Side,
    index: usize,
    hand: &mut Hand,
    action_points: &mut ActionPoints,
    selected: &mut SelectedCards,
    cards: &Vec<CardDef>,
    events: &mut Vec<BattleEvent>,
) -> (done: bool)
    ensures
        done == (index < old(hand).of(side).len()),
        !done ==> {
            &&& *final(hand) == *old(hand)
            &&& *final(action_points) == *old(action_points)
            &&& *final(selected) == *old(selected)
            &&& final(events)@ == old(events)@
        },
        done ==> {
            let id = old(hand).of(side)[index as int];
            &&& final(hand).of(side) == old(hand).of(side).remove(index as int)
            &&& final(hand).of(spec_opposite_side(side)) == old(hand).of(spec_opposite_side(side))
            &&& *final(action_points) == old(action_points).with(
                side,
                spec_gain(old(action_points).of(side) as int, 1) as i32,
            )
            &&& *final(selected) == old(selected).with(side, cleared_pick())
            &&& events_view(final(events)@) == events_view(old(events)@).push(
                EventView::CardDiscarded { side, card_name: spec_card_name(cards@, id) },
            )
        },
{
    if index >= hand.len_of(side) {
        return false;
    }
    let _ = discard_card_from_hand(side, index, 1, hand, action_points, cards, events);
    selected.set(side, SelectedCardState { index: None, discard_armed: false });
    true
}

/// The discard key in `side`'s turn: with an empty hand nothing happens; with a card picked it
/// is discarded (see `discard_in_turn`); else the armed discard is switched on or off.
pub fn discard_key(
    side: Side,
    hand: &mut Hand,
    action_points: &mut ActionPoints,
    selected: &mut SelectedCards,
    cards: &Vec<CardDef>,
    events: &mut Vec<BattleEvent>,
) -> (done: bool)
    ensures
        ({
            let held = old(hand).of(side);
            let pick = old(selected).of(side);
            if held.len() == 0 {
                &&& !done
                &&& *final(hand) == *old(hand)
                &&& *final(action_points) == *old(action_points)
                &&& *final(selected) == *old(selected)
                &&& final(events)@ == old(events)@
            } else if pick.index is Some && pick.index->0 < held.len() {
                let id = held[pick.index->0 as int];
                &&& done
                &&& final(hand).of(side) == held.remove(pick.index->0 as int)
                &&& final(hand).of(spec_opposite_side(side)) == old(hand).of(spec_opposite_side(side))
                &&& *final(action_points) == old(action_points).with(
                    side,
                    spec_gain(old(action_points).of(side) as int, 1) as i32,
                )
                &&& *final(selected) == old(selected).with(side, cleared_pick())
                &&& events_view(final(events)@) == events_view(old(events)@).push(
                    EventView::CardDiscarded { side, card_name: spec_card_name(cards@, id) },
                )
            } else {
                &&& !done
                &&& *final(hand) == *old(hand)
                &&& *final(action_points) == *old(action_points)
                &&& *final(selected) == old(selected).with(
                    side,
                    SelectedCardState { discard_armed: !pick.discard_armed, ..pick },
                )
                &&& final(events)@ == old(events)@
            }
        }),
{
    let n = hand.len_of(side);
    if n == 0 {
        return false;
    }
    let pick = selected.get(side);
    match pick.index {
        Some(i) => {
            if i < n {
                return discard_in_turn(side, i, hand, action_points, selected, cards, events);
            }
        },
        None => {},
    }
    selected.set(side, SelectedCardState { discard_armed: !pick.discard_armed, ..pick });
    false
}

/// What a hand key did in a side's turn.
#[derive(Debug, Clone, Copy, PartialEq, Eq, Structural)]
pub enum CardKeyOutcome {
    /// No card there, or a card that is not defined: nothing happens.
    Ignored,
    /// The armed discard took the card.
    Discarded,
    /// The card is now picked.
    Selected,
    /// The side lacks the card's AP: nothing happens.
    NotEnoughAp,
    /// The card was played; when a front member has no HP left the battle goes to this phase.
    Played(Option<BattlePhase>),
}

/// The hand key for card `idx` in `side`'s turn (`held` is its hand). Past the hand nothing happens. With a discard
/// armed the card is discarded (see `discard_in_turn`). A card that is not the picked one is
/// picked. The picked card is played when the side has its AP: it leaves the hand, its cost is
/// paid, it is reported (its effect comes from that report), and the selection is cleared; when
/// a front member has no HP left, the battle goes to the end check and comes back to this side.
pub open spec fn spec_card_key(
    side: Side,
    idx: usize,
    held: Seq<CardId>,
    ap: ActionPoints,
    selected: SelectedCards,
    player: TeamView,
    enemy: TeamView,
    pending: PendingKoResolution,
    cards: Seq<CardDef>,
    events: Seq<EventView>,
) -> (CardKeyOutcome, Seq<CardId>, ActionPoints, SelectedCards, PendingKoResolution, Seq<EventView>) {
    let pick = selected.of(side);
    if idx >= held.len() {
        (CardKeyOutcome::Ignored, held, ap, selected, pending, events)
    } else if pick.discard_armed {
        let id = held[idx as int];
        (
            CardKeyOutcome::Discarded,
            held.remove(idx as int),
            ap.with(side, spec_gain(ap.of(side) as int, 1) as i32),
            selected.with(side, cleared_pick()),
            pending,
            events.push(EventView::CardDiscarded { side, card_name: spec_card_name(cards, id) }),
        )
    } else if pick.index != Some(idx) {
        (
            CardKeyOutcome::Selected,
            held,
            ap,
            selected.with(side, SelectedCardState { index: Some(idx), ..pick }),
            pending,
            events,
        )
    } else {
        match spec_find_card(cards, held[idx as int]) {
            None => (CardKeyOutcome::Ignored, held, ap, selected, pending, events),
            Some(card) => if ap.of(side) < card.cost_ap {
                (CardKeyOutcome::NotEnoughAp, held, ap, selected, pending, events)
            } else {
                let ko = player.active_hp() <= 0 || enemy.active_hp() <= 0;
                (
                    CardKeyOutcome::Played(
                        if ko {
                            Some(BattlePhase::CheckEnd)
                        } else {
                            None
                        },
                    ),
                    held.remove(idx as int),
                    ap.with(side, sat_i32(ap.of(side) - card.cost_ap) as i32),
                    selected.with(side, cleared_pick()),
                    if ko {
                        PendingKoResolution { resume_phase: Some(spec_phase_for_side(side)), ..pending }
                    } else {
                        pending
                    },
                    events.push(EventView::CardUsed { side, card_name: card.name@ }),
                )
            },
        }
    }
}

pub(crate) fn front_hp_down(player: &Team, enemy: &Team) -> (b: bool)
    requires
        player@.has_active(),
        enemy@.has_active(),
    ensures
        b == (player@.active_hp() <= 0 || enemy@.active_hp() <= 0),
{
    front_down(player) || front_down(enemy)
}

/// Runs the hand key for card `idx` in `side`'s turn (see `spec_card_key`); `side`'s hand is
/// changed as given there, the other one is not.
pub fn card_key(
    side: Side,
    idx: usize,
    player: &Team,
    enemy: &Team,
    hand: &mut Hand,
    action_points: &mut ActionPoints,
    selected: &mut SelectedCards,
    pending_ko: &mut PendingKoResolution,
    cards: &Vec<CardDef>,
    events: &mut Vec<BattleEvent>,
) -> (r: CardKeyOutcome)
    requires
        player@.has_active(),
        enemy@.has_active(),
    ensures
        ({
            let s = spec_card_key(
                side,
                idx,
                old(hand).of(side),
                *old(action_points),
                *old(selected),
                player@,
                enemy@,
                *old(pending_ko),
                cards@,
                events_view(old(events)@),
            );
            &&& r == s.0
            &&& final(hand).of(side) == s.1
            &&& final(hand).of(spec_opposite_side(side)) == old(hand).of(spec_opposite_side(side))
            &&& *final(action_points) == s.2
            &&& *final(selected) == s.3
            &&& *final(pending_ko) == s.4
            &&& events_view(final(events)@) == s.5
        }),
{
    let n = hand.len_of(side);
    if idx >= n {
        return CardKeyOutcome::Ignored;
    }
    let pick = selected.get(side);
    if pick.discard_armed {
        let _ = discard_in_turn(side, idx, hand, action_points, selected, cards, events);
        return CardKeyOutcome::Discarded;
    }
    if pick.index != Some(idx) {
        selected.set(side, SelectedCardState { index: Some(idx), ..pick });
        return CardKeyOutcome::Selected;
    }
    let id = match side {
        Side::Player => hand.player[idx],
        Side::Enemy => hand.enemy[idx],
    };
    let card = match find_card(cards, id) {
        Some(c) => c,
        None => {
            return CardKeyOutcome::Ignored;
        },
    };
    let have = match side {
        Side::Player => action_points.player,
        Side::Enemy => action_points.enemy,
    };
    if have < card.cost_ap {
        return CardKeyOutcome::NotEnoughAp;
    }
    let held = hand.side_mut(side);
    let _ = held.remove(idx);
    let left = crate::arith::to_i32_sat(have as i64 - card.cost_ap as i64);
    match side {
        Side::Player => action_points.player = left,
        Side::Enemy => action_points.enemy = left,
    }
    emit(events, BattleEvent::CardUsed { side, card_name: card.name.clone() });
    selected.set(side, SelectedCardState { index: None, discard_armed: false });
    if front_hp_down(player, enemy) {
        pending_ko.resume_phase = Some(battle_phase_for_side(side));
        CardKeyOutcome::Played(Some(BattlePhase::CheckEnd))
    } else {
        CardKeyOutcome::Played(None)
    }
}

/// The phase after `side` has ended its turn: the second side's turn when `side` acted first,
/// else the end-of-round check.
pub open spec fn spec_next_phase_after_side_end(order: RoundOrder, side: Side) -> BattlePhase {
    if side == order.first {
        spec_phase_for_side(order.second)
    } else {
        BattlePhase::CheckEnd
    }
}

pub fn next_phase_after_side_end(order: &RoundOrder, side: Side) -> (p: BattlePhase)
    ensures
        p == spec_next_phase_after_side_end(*order, side),
{
    if side == order.first {
        battle_phase_for_side(order.second)
    } else {
        BattlePhase::CheckEnd
    }
}

/// The action-end ticks of one member's statuses (see `tick_all`), with the side's pending heal
/// bonus as it stands; gives the member, the bonus left and the events.
pub open spec fn side_end_member(m: MemberView, side: Side, bonus: int, events: Seq<EventView>) -> (
    MemberView,
    int,
    Seq<EventView>,
) {
    let t = tick_all(
        TickView { stats: m.state.stats, shield: m.state.shield as int, bonus, events },
        m.state.statuses,
        side,
        spec_heal_multiplier(m.state.statuses),
    );
    (MemberView { state: CombatView { stats: t.stats, shield: t.shield as i32, ..m.state }, ..m }, t.bonus, t.events)
}

/// The action-end ticks of the first `n` members, in team order.
pub open spec fn side_end_team(ms: Seq<MemberView>, n: nat, side: Side, bonus: int, events: Seq<EventView>) -> (
    Seq<MemberView>,
    int,
    Seq<EventView>,
)
    decreases n,
{
    if n == 0 {
        (ms, bonus, events)
    } else {
        let r = side_end_team(ms, (n - 1) as nat, side, bonus, events);
        let x = side_end_member(ms[n - 1], side, r.1, r.2);
        (r.0.update(n - 1, x.0), x.1, x.2)
    }
}

proof fn lemma_side_end_team_rest(ms: Seq<MemberView>, n: nat, side: Side, bonus: int, events: Seq<EventView>)
    requires
        n <= ms.len(),
    ensures
        side_end_team(ms, n, side, bonus, events).0.len() == ms.len(),
        forall|j: int| n <= j < ms.len() ==> side_end_team(ms, n, side, bonus, events).0[j] == ms[j],
    decreases n,
{
    if n > 0 {
        lemma_side_end_team_rest(ms, (n - 1) as nat, side, bonus, events);
    }
}

/// `turn` with `side`'s turn ended and its end request dropped.
pub open spec fn ended_for(turn: TurnContext, side: Side) -> TurnContext {
    match side {
        Side::Player => TurnContext { player_ended: true, player_end_requested: false, ..turn },
        Side::Enemy => TurnContext { enemy_ended: true, enemy_end_requested: false, ..turn },
    }
}

/// Ends `side`'s turn: the action-end ticks of every member of its team run in team order, its
/// action-scoped card bonuses are dropped and its turn is marked ended (the other side's
/// shield-absorb counter lapses afterwards: see `finish_card_events`). When its front member has
/// no HP left, its AP is cut to the maximum and the end check follows; else see
/// `enter_discard_phase_or_continue`, with the phase after this side's turn.
pub fn finalize_turn(
    side: Side,
    own: &mut Team,
    pending_boosts: &mut PendingBoosts,
    action_points: &mut ActionPoints,
    hand: &Hand,
    rules: &CardRules,
    order: &RoundOrder,
    turn: &mut TurnContext,
    events: &mut Vec<BattleEvent>,
) -> (r: (BattlePhase, Option<PendingHandDiscard>))
    requires
        old(own)@.has_active(),
    ensures
        ({
            let t = side_end_team(
                old(own)@.members,
                old(own)@.members.len(),
                side,
                old(pending_boosts).of(side).next_heal_bonus as int,
                events_view(old(events)@),
            );
            let next = spec_next_phase_after_side_end(*order, side);
            let clamped = old(action_points).with(
                side,
                min_int(old(action_points).of(side) as int, rules.max_ap as int) as i32,
            );
            &&& final(own)@ == (TeamView { members: t.0, ..old(own)@ })
            &&& events_view(final(events)@) == t.2
            &&& *final(pending_boosts) == super::cards::boosts_with(
                *old(pending_boosts),
                side,
                super::cards::action_cleared(old(pending_boosts).of(side)),
            )
            &&& *final(turn) == ended_for(*old(turn), side)
            &&& if final(own)@.active_hp() <= 0 {
                &&& r == (BattlePhase::CheckEnd, None::<PendingHandDiscard>)
                &&& *final(action_points) == clamped
            } else if hand.of(side).len() > rules.max_retained_hand {
                &&& r == (BattlePhase::Discard, Some(PendingHandDiscard { side, next_phase: next }))
                &&& *final(action_points) == *old(action_points)
            } else {
                &&& r == (next, None::<PendingHandDiscard>)
                &&& *final(action_points) == clamped
            }
        }),
{
    let ghost m0 = own@.members;
    let ghost b0 = old(pending_boosts).of(side).next_heal_bonus as int;
    let ghost e0 = events_view(old(events)@);
    let n = own.combatants.len();
    let mut i: usize = 0;
    while i < n
        invariant
            n == m0.len(),
            i <= n,
            own@.members == side_end_team(m0, i as nat, side, b0, e0).0,
            own.active_index == old(own).active_index,
            pending_boosts.of(side) == (PendingBoost {
                next_heal_bonus: pending_boosts.of(side).next_heal_bonus,
                ..old(pending_boosts).of(side)
            }),
            pending_boosts.of(side).next_heal_bonus == side_end_team(m0, i as nat, side, b0, e0).1,
            pending_boosts.of(spec_opposite_side(side)) == old(pending_boosts).of(spec_opposite_side(side)),
            events_view(events@) == side_end_team(m0, i as nat, side, b0, e0).2,
        decreases n - i,
    {
        proof {
            lemma_side_end_team_rest(m0, i as nat, side, b0, e0);
            lemma_side_end_team_rest(m0, (i + 1) as nat, side, b0, e0);
        }
        let ghost before = own@.members;
        let mut c = own.combatants.remove(i);
        assert(c@ == m0[i as int]);
        let p = pending_boosts.side_mut(side);
        process_side_end_statuses(&mut c.state, side, p, events);
        let ghost cv = c@;
        own.combatants.insert(i, c);
        proof {
            assert(own@.members =~= before.update(i as int, cv));
            let x = side_end_member(m0[i as int], side, side_end_team(m0, i as nat, side, b0, e0).1, side_end_team(m0, i as nat, side, b0, e0).2);
            assert(cv == x.0);
        }
        i = i + 1;
    }
    proof {
        lemma_side_end_team_rest(m0, n as nat, side, b0, e0);
    }
    clear_action_scoped_card_effects(side, pending_boosts);
    proof {
        let want = super::cards::boosts_with(
            *old(pending_boosts),
            side,
            super::cards::action_cleared(old(pending_boosts).of(side)),
        );
        assert(pending_boosts.of(side) == want.of(side));
        assert(pending_boosts.of(spec_opposite_side(side)) == want.of(spec_opposite_side(side)));
        match side {
            Side::Player => assert(*pending_boosts == want),
            Side::Enemy => assert(*pending_boosts == want),
        }
    }
    match side {
        Side::Player => {
            turn.player_ended = true;
            turn.player_end_requested = false;
        },
        Side::Enemy => {
            turn.enemy_ended = true;
            turn.enemy_end_requested = false;
        },
    }
    if front_down(own) {
        clamp_ap_to_max(side, rules.max_ap, action_points);
        return (BattlePhase::CheckEnd, None);
    }
    let next = next_phase_after_side_end(order, side);
    enter_discard_phase_or_continue(side, next, hand, rules, action_points)
}

} // verus!
