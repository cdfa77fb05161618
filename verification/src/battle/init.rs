//! Setting up a battle: the checks on the chosen teams and the teams they give.
use vstd::prelude::*;

use super::flow::{Combatant, MemberView, Team, TeamView};
use super::model::{CombatState, CombatView, ElementAura, Shield, Side, StatusBoard, Stats};
use super::turn::{find_skill, spec_find_skill};
use crate::data::{MonsterPrototype, SkillDef, SkillId, TeamSelections};

verus! {

/// Why a battle cannot be set up.
#[derive(Debug, Clone, Copy, PartialEq, Eq, Structural)]
pub enum InitError {
    /// The player's team is empty or larger than the rules allow.
    PlayerTeamSize { max: usize, count: usize },
    /// The enemy's team is empty or larger than the rules allow.
    EnemyTeamSize { max: usize, count: usize },
    /// No skill is defined.
    NoSkills,
    /// A chosen index names no monster.
    BadIndex(usize),
    /// The monster at `index` has no skill or more than four.
    SkillCount { index: usize, count: usize },
    /// The monster at `index` has a skill that is not defined.
    UnknownSkill { index: usize, skill: SkillId },
}

/// The first of `ids` that no skill definition has.
pub open spec fn first_unknown(ids: Seq<SkillId>, skills: Seq<SkillDef>) -> Option<SkillId>
    decreases ids.len(),
{
    if ids.len() == 0 {
        None
    } else if spec_find_skill(skills, ids[0]) is None {
        Some(ids[0])
    } else {
        first_unknown(ids.drop_first(), skills)
    }
}

/// What is wrong with the monster chosen by `idx`, if anything.
pub open spec fn monster_problem(pool: Seq<MonsterPrototype>, skills: Seq<SkillDef>, idx: usize) -> Option<InitError> {
    if idx >= pool.len() {
        Some(InitError::BadIndex(idx))
    } else if pool[idx as int].skills@.len() == 0 || pool[idx as int].skills@.len() > 4 {
        Some(InitError::SkillCount { index: idx, count: pool[idx as int].skills@.len() as usize })
    } else {
        match first_unknown(pool[idx as int].skills@, skills) {
            Some(s) => Some(InitError::UnknownSkill { index: idx, skill: s }),
            None => None,
        }
    }
}

/// The first problem among the monsters chosen by `idxs`, in order.
pub open spec fn first_problem(pool: Seq<MonsterPrototype>, skills: Seq<SkillDef>, idxs: Seq<usize>) -> Option<InitError>
    decreases idxs.len(),
{
    if idxs.len() == 0 {
        None
    } else {
        match monster_problem(pool, skills, idxs[0]) {
            Some(e) => Some(e),
            None => first_problem(pool, skills, idxs.drop_first()),
        }
    }
}

/// Why the chosen teams cannot fight, if they cannot: the player's team size, then the enemy's,
/// must lie in `1..=max`; some skill must be defined; then the monsters chosen by the player,
/// then by the enemy, are checked in order (see `monster_problem`).
pub open spec fn init_problem(
    pool: Seq<MonsterPrototype>,
    player: Seq<usize>,
    enemy: Seq<usize>,
    skills: Seq<SkillDef>,
    max: usize,
) -> Option<InitError> {
    if !(1 <= player.len() <= max) {
        Some(InitError::PlayerTeamSize { max, count: player.len() as usize })
    } else if !(1 <= enemy.len() <= max) {
        Some(InitError::EnemyTeamSize { max, count: enemy.len() as usize })
    } else if skills.len() == 0 {
        Some(InitError::NoSkills)
    } else {
        first_problem(pool, skills, player + enemy)
    }
}

/// A monster as it enters a battle on `side`: full HP, no stage, shield, aura or status, and no
/// skill use before the first round starts.
pub open spec fn fresh_member(m: MonsterPrototype, side: Side) -> MemberView {
    MemberView {
        name: m.name@,
        side,
        element: m.element,
        skills: m.skills@,
        skill_uses: seq![],
        state: CombatView {
            stats: Stats {
                hp: m.stats.hp,
                max_hp: m.stats.hp,
                atk: m.stats.atk,
                def: m.stats.def,
                spd: m.stats.spd,
                acc: m.stats.acc,
                atk_stage: 0,
                def_stage: 0,
                spd_stage: 0,
                acc_stage: 0,
            },
            shield: 0,
            aura: ElementAura { slot0: None, slot1: None },
            statuses: seq![],
        },
    }
}

/// The team of the monsters chosen by `idxs`, in that order, the first one in front.
pub open spec fn fresh_team(pool: Seq<MonsterPrototype>, idxs: Seq<usize>, side: Side) -> TeamView {
    TeamView { members: Seq::new(idxs.len(), |i: int| fresh_member(pool[idxs[i] as int], side)), active: 0 }
}

fn copy_ids(ids: &Vec<SkillId>) -> (r: Vec<SkillId>)
    ensures
        r@ == ids@,
{
    let mut r: Vec<SkillId> = Vec::new();
    let mut i: usize = 0;
    while i < ids.len()
        invariant
            i <= ids@.len(),
            r@ == ids@.subrange(0, i as int),
        decreases ids@.len() - i,
    {
        r.push(ids[i]);
        assert(r@ =~= ids@.subrange(0, i + 1));
        i = i + 1;
    }
    assert(r@ =~= ids@);
    r
}

fn enter_battle(m: &MonsterPrototype, side: Side) -> (c: Combatant)
    ensures
        c@ == fresh_member(*m, side),
{
    let stats = Stats {
        hp: m.stats.hp,
        max_hp: m.stats.hp,
        atk: m.stats.atk,
        def: m.stats.def,
        spd: m.stats.spd,
        acc: m.stats.acc,
        atk_stage: 0,
        def_stage: 0,
        spd_stage: 0,
        acc_stage: 0,
    };
    let state = CombatState {
        stats,
        shield: Shield(0),
        aura: ElementAura { slot0: None, slot1: None },
        statuses: StatusBoard { entries: Vec::new() },
    };
    let c = Combatant {
        name: m.name.clone(),
        side,
        element: m.element,
        skills: copy_ids(&m.skills),
        skill_uses: Vec::new(),
        state,
    };
    assert(c@.state.statuses =~= seq![]);
    assert(c@.skill_uses =~= seq![]);
    c
}

fn check_monster(pool: &Vec<MonsterPrototype>, skills: &Vec<SkillDef>, idx: usize) -> (r: Option<InitError>)
    ensures
        r == monster_problem(pool@, skills@, idx),
{
    if idx >= pool.len() {
        return Some(InitError::BadIndex(idx));
    }
    let m = &pool[idx];
    let n = m.skills.len();
    if n == 0 || n > 4 {
        return Some(InitError::SkillCount { index: idx, count: n });
    }
    let mut i: usize = 0;
    assert(m.skills@.subrange(0, n as int) =~= m.skills@);
    while i < n
        invariant
            n == m.skills@.len(),
            0 < n <= 4,
            idx < pool@.len(),
            *m == pool@[idx as int],
            i <= n,
            first_unknown(m.skills@, skills@) == first_unknown(m.skills@.subrange(i as int, n as int), skills@),
        decreases n - i,
    {
        let ghost rest = m.skills@.subrange(i as int, n as int);
        assert(rest.drop_first() =~= m.skills@.subrange(i + 1, n as int));
        let sid = m.skills[i];
        assert(rest[0] == sid);
        if find_skill(skills, sid).is_none() {
            return Some(InitError::UnknownSkill { index: idx, skill: sid });
        }
        i = i + 1;
    }
    assert(m.skills@.subrange(n as int, n as int) =~= Seq::<SkillId>::empty());
    None
}

fn check_monsters(pool: &Vec<MonsterPrototype>, skills: &Vec<SkillDef>, idxs: &Vec<usize>) -> (r: Option<InitError>)
    ensures
        r == first_problem(pool@, skills@, idxs@),
{
    let mut i: usize = 0;
    assert(idxs@.subrange(0, idxs@.len() as int) =~= idxs@);
    while i < idxs.len()
        invariant
            i <= idxs@.len(),
            first_problem(pool@, skills@, idxs@) == first_problem(pool@, skills@, idxs@.subrange(i as int, idxs@.len() as int)),
        decreases idxs@.len() - i,
    {
        let ghost rest = idxs@.subrange(i as int, idxs@.len() as int);
        assert(rest.drop_first() =~= idxs@.subrange(i + 1, idxs@.len() as int));
        let p = check_monster(pool, skills, idxs[i]);
        if p.is_some() {
            return p;
        }
        i = i + 1;
    }
    assert(idxs@.subrange(i as int, idxs@.len() as int) =~= Seq::<usize>::empty());
    None
}

proof fn lemma_first_problem_append(pool: Seq<MonsterPrototype>, skills: Seq<SkillDef>, a: Seq<usize>, b: Seq<usize>)
    ensures
        first_problem(pool, skills, a + b) == (match first_problem(pool, skills, a) {
            Some(e) => Some(e),
            None => first_problem(pool, skills, b),
        }),
    decreases a.len(),
{
    if a.len() > 0 {
        assert((a + b).drop_first() =~= a.drop_first() + b);
        lemma_first_problem_append(pool, skills, a.drop_first(), b);
    } else {
        assert(a + b =~= b);
    }
}

fn build_team(pool: &Vec<MonsterPrototype>, idxs: &Vec<usize>, side: Side) -> (t: Team)
    requires
        forall|i: int| 0 <= i < idxs@.len() ==> idxs@[i] < pool@.len(),
    ensures
        t@ == fresh_team(pool@, idxs@, side),
{
    let mut combatants: Vec<Combatant> = Vec::new();
    let mut i: usize = 0;
    while i < idxs.len()
        invariant
            i <= idxs@.len(),
            forall|j: int| 0 <= j < idxs@.len() ==> idxs@[j] < pool@.len(),
            combatants@.len() == i,
            forall|j: int| 0 <= j < i ==> combatants@[j]@ == fresh_member(pool@[idxs@[j] as int], side),
        decreases idxs@.len() - i,
    {
        let c = enter_battle(&pool[idxs[i]], side);
        combatants.push(c);
        i = i + 1;
    }
    let t = Team { combatants, active_index: 0 };
    assert(t@.members =~= fresh_team(pool@, idxs@, side).members);
    t
}

/// Checks the chosen teams (see `init_problem`) and, when they may fight, gives the player's and
/// the enemy's team, each made of its chosen monsters in order (see `fresh_team`).
pub fn init_battle_system(
    pool: &Vec<MonsterPrototype>,
    selections: &TeamSelections,
    skills: &Vec<SkillDef>,
    max_team_size: usize,
) -> (r: Result<(Team, Team), InitError>)
    ensures
        match r {
            Ok((p, e)) => {
                &&& init_problem(pool@, selections.player_indices@, selections.enemy_indices@, skills@, max_team_size) is None
                &&& p@ == fresh_team(pool@, selections.player_indices@, Side::Player)
                &&& e@ == fresh_team(pool@, selections.enemy_indices@, Side::Enemy)
            },
            Err(err) => init_problem(pool@, selections.player_indices@, selections.enemy_indices@, skills@, max_team_size)
                == Some(err),
        },
{
    let pc = selections.player_indices.len();
    let ec = selections.enemy_indices.len();
    if !(1 <= pc && pc <= max_team_size) {
        return Err(InitError::PlayerTeamSize { max: max_team_size, count: pc });
    }
    if !(1 <= ec && ec <= max_team_size) {
        return Err(InitError::EnemyTeamSize { max: max_team_size, count: ec });
    }
    if skills.len() == 0 {
        return Err(InitError::NoSkills);
    }
    proof {
        lemma_first_problem_append(pool@, skills@, selections.player_indices@, selections.enemy_indices@);
    }
    match check_monsters(pool, skills, &selections.player_indices) {
        Some(e) => {
            return Err(e);
        },
        None => {},
    }
    match check_monsters(pool, skills, &selections.enemy_indices) {
        Some(e) => {
            return Err(e);
        },
        None => {},
    }
    proof {
        lemma_no_problem_in_range(pool@, skills@, selections.player_indices@);
        lemma_no_problem_in_range(pool@, skills@, selections.enemy_indices@);
    }
    let p = build_team(pool, &selections.player_indices, Side::Player);
    let e = build_team(pool, &selections.enemy_indices, Side::Enemy);
    Ok((p, e))
}

proof fn lemma_no_problem_in_range(pool: Seq<MonsterPrototype>, skills: Seq<SkillDef>, idxs: Seq<usize>)
    requires
        first_problem(pool, skills, idxs) is None,
    ensures
        forall|i: int| 0 <= i < idxs.len() ==> idxs[i] < pool.len(),
    decreases idxs.len(),
{
    if idxs.len() > 0 {
        lemma_no_problem_in_range(pool, skills, idxs.drop_first());
        assert forall|i: int| 0 <= i < idxs.len() implies idxs[i] < pool.len() by {
            if i > 0 {
                assert(idxs[i] == idxs.drop_first()[i - 1]);
            }
        }
    }
}

} // verus!
