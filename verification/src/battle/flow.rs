//! The flow of a battle between actions: teams, the end-of-round check, the resolution of
//! knock-outs, who acts first in a round, and which side the local controls drive.
use vstd::prelude::*;

use super::formula::{effective_spd, spec_effective_spd};
use super::model::{
    emit, events_view, opposite_side, spec_opposite, BattleEvent, CombatState, CombatView,
    EventView, Side,
};
use super::text::{auto_switch_detail, fainted_detail, spec_auto_switch_detail, spec_fainted_detail};
use super::status::{first_index, spec_recalc, spec_upsert, transfer_status_by_id};
use super::ticks::{
    process_round_end_status_durations, records_view, round_end_aura, round_end_board, round_end_records,
    StatusRecord, StatusRecordView,
};
use crate::data::{BattleFormulaRules, ElementType, SkillId};
use crate::game_state::BattlePhase;

verus! {

/// A combatant of a team: its name, side, own element, skills (with the uses of each left in
/// this round) and battle state.
#[derive(Debug)]
pub struct Combatant {
    pub name: String,
    pub side: Side,
    pub element: ElementType,
    pub skills: Vec<SkillId>,
    pub skill_uses: Vec<u32>,
    pub state: CombatState,
}

pub ghost struct MemberView {
    pub name: Seq<char>,
    pub side: Side,
    pub element: ElementType,
    pub skills: Seq<SkillId>,
    pub skill_uses: Seq<u32>,
    pub state: CombatView,
}

impl View for Combatant {
    type V = MemberView;

    open spec fn view(&self) -> MemberView {
        MemberView {
            name: self.name@,
            side: self.side,
            element: self.element,
            skills: self.skills@,
            skill_uses: self.skill_uses@,
            state: self.state@,
        }
    }
}

/// A team: its combatants and which of them is in front.
#[derive(Debug)]
pub struct Team {
    pub combatants: Vec<Combatant>,
    pub active_index: usize,
}

pub ghost struct TeamView {
    pub members: Seq<MemberView>,
    pub active: int,
}

pub open spec fn members_view(s: Seq<Combatant>) -> Seq<MemberView> {
    s.map_values(|c: Combatant| c@)
}

impl View for Team {
    type V = TeamView;

    open spec fn view(&self) -> TeamView {
        TeamView { members: members_view(self.combatants@), active: self.active_index as int }
    }
}

impl TeamView {
    /// Whether the front index names a member.
    pub open spec fn has_active(self) -> bool {
        0 <= self.active < self.members.len()
    }

    /// The front member's HP.
    pub open spec fn active_hp(self) -> int {
        self.members[self.active].state.stats.hp as int
    }
}

/// What the knock-out resolution still has to do: the members to switch in, which sides have no
/// one left, and the phase to go back to.
#[derive(Debug, Clone, Copy, PartialEq, Eq, Structural)]
pub struct PendingKoResolution {
    pub player_switch_index: Option<usize>,
    pub enemy_switch_index: Option<usize>,
    pub player_defeated: bool,
    pub enemy_defeated: bool,
    pub resume_phase: Option<BattlePhase>,
}

impl PendingKoResolution {
    pub open spec fn is_clear(self) -> bool {
        &&& self.player_switch_index is None
        &&& self.enemy_switch_index is None
        &&& !self.player_defeated
        &&& !self.enemy_defeated
        &&& self.resume_phase is None
    }

    pub fn new() -> (p: Self)
        ensures
            p.is_clear(),
    {
        PendingKoResolution {
            player_switch_index: None,
            enemy_switch_index: None,
            player_defeated: false,
            enemy_defeated: false,
            resume_phase: None,
        }
    }
}

/// Which sides have finished (or asked to finish) their turn in this round.
#[derive(Debug, Clone, Copy, PartialEq, Eq, Structural)]
pub struct TurnContext {
    pub player_ended: bool,
    pub enemy_ended: bool,
    pub player_end_requested: bool,
    pub enemy_end_requested: bool,
}

impl TurnContext {
    pub fn new() -> (t: Self)
        ensures
            !t.player_ended && !t.enemy_ended && !t.player_end_requested && !t.enemy_end_requested,
    {
        TurnContext {
            player_ended: false,
            enemy_ended: false,
            player_end_requested: false,
            enemy_end_requested: false,
        }
    }
}

/// An entry of the action trace: the round, the side, what it did and the detail.
#[derive(Debug, Clone)]
pub struct ActionTraceEntry {
    pub round: u32,
    pub side: Side,
    pub action: String,
    pub detail: String,
}

pub ghost struct TraceView {
    pub round: u32,
    pub side: Side,
    pub action: Seq<char>,
    pub detail: Seq<char>,
}

impl View for ActionTraceEntry {
    type V = TraceView;

    open spec fn view(&self) -> TraceView {
        TraceView { round: self.round, side: self.side, action: self.action@, detail: self.detail@ }
    }
}

pub open spec fn traces_view(s: Seq<ActionTraceEntry>) -> Seq<TraceView> {
    s.map_values(|e: ActionTraceEntry| e@)
}

fn push_trace(trace: &mut Vec<ActionTraceEntry>, e: ActionTraceEntry)
    ensures
        traces_view(final(trace)@) == traces_view(old(trace)@).push(e@),
{
    trace.push(e);
    assert(traces_view(trace@) =~= traces_view(old(trace)@).push(e@));
}

/// Who acts first and second in this round, and who acted first in the last one.
#[derive(Debug, Clone, Copy, PartialEq, Eq, Structural)]
pub struct RoundOrder {
    pub first: Side,
    pub second: Side,
    pub previous_first: Option<Side>,
}

impl RoundOrder {
    pub fn new() -> (o: Self)
        ensures
            o.first == Side::Player,
            o.second == Side::Enemy,
            o.previous_first is None,
    {
        RoundOrder { first: Side::Player, second: Side::Enemy, previous_first: None }
    }

    /// `side` acts first this round, the other second; it is remembered as the last first side.
    pub fn set_first(&mut self, side: Side)
        ensures
            final(self).first == side,
            final(self).second == spec_opposite(side),
            final(self).previous_first == Some(side),
    {
        self.first = side;
        self.second = opposite_side(side);
        self.previous_first = Some(side);
    }
}

/// The phase in which `side` acts.
pub open spec fn spec_phase_for_side(side: Side) -> BattlePhase {
    match side {
        Side::Player => BattlePhase::PlayerTurn,
        Side::Enemy => BattlePhase::EnemyTurn,
    }
}

pub fn battle_phase_for_side(side: Side) -> (p: BattlePhase)
    ensures
        p == spec_phase_for_side(side),
{
    match side {
        Side::Player => BattlePhase::PlayerTurn,
        Side::Enemy => BattlePhase::EnemyTurn,
    }
}

/// The side that acts first: the faster one; on a tie the one that did not go first last round
/// (the player in the first round).
pub open spec fn spec_first_side(player_spd: int, enemy_spd: int, previous_first: Option<Side>) -> Side {
    if player_spd > enemy_spd {
        Side::Player
    } else if enemy_spd > player_spd {
        Side::Enemy
    } else {
        match previous_first {
            Some(s) => spec_opposite(s),
            None => Side::Player,
        }
    }
}

pub fn first_side(player_spd: i32, enemy_spd: i32, previous_first: Option<Side>) -> (s: Side)
    ensures
        s == spec_first_side(player_spd as int, enemy_spd as int, previous_first),
{
    if player_spd > enemy_spd {
        Side::Player
    } else if enemy_spd > player_spd {
        Side::Enemy
    } else {
        match previous_first {
            Some(s) => opposite_side(s),
            None => Side::Player,
        }
    }
}

/// Orders a round by the two front combatants' effective speeds (see `spec_first_side`); gives
/// the phase of the side that acts first.
pub fn order_round(
    player: &CombatState,
    enemy: &CombatState,
    rules: &BattleFormulaRules,
    order: &mut RoundOrder,
) -> (p: BattlePhase)
    requires
        rules.sane(),
    ensures
        ({
            let first = spec_first_side(
                spec_effective_spd(player.stats, *rules),
                spec_effective_spd(enemy.stats, *rules),
                old(order).previous_first,
            );
            &&& final(order).first == first
            &&& final(order).second == spec_opposite(first)
            &&& final(order).previous_first == Some(first)
            &&& p == spec_phase_for_side(first)
        }),
{
    let player_spd = effective_spd(&player.stats, rules);
    let enemy_spd = effective_spd(&enemy.stats, rules);
    let first = first_side(player_spd, enemy_spd, order.previous_first);
    order.set_first(first);
    battle_phase_for_side(first)
}

/// The first member (by index) with HP left, if any.
pub open spec fn first_living(m: Seq<MemberView>) -> Option<int>
    decreases m.len(),
{
    if m.len() == 0 {
        None
    } else {
        match first_living(m.drop_last()) {
            Some(i) => Some(i),
            None => if m.last().state.stats.hp > 0 {
                Some(m.len() - 1)
            } else {
                None
            },
        }
    }
}

proof fn lemma_first_living(m: Seq<MemberView>)
    ensures
        match first_living(m) {
            Some(i) => 0 <= i < m.len() && m[i].state.stats.hp > 0 && forall|k: int|
                0 <= k < i ==> #[trigger] m[k].state.stats.hp <= 0,
            None => forall|k: int| 0 <= k < m.len() ==> #[trigger] m[k].state.stats.hp <= 0,
        },
    decreases m.len(),
{
    if m.len() > 0 {
        let p = m.drop_last();
        lemma_first_living(p);
        match first_living(p) {
            Some(i) => {
                assert(p[i] == m[i]);
                assert forall|k: int| 0 <= k < i implies #[trigger] m[k].state.stats.hp <= 0 by {
                    assert(p[k] == m[k]);
                }
            },
            None => {
                assert forall|k: int| 0 <= k < m.len() - 1 implies #[trigger] m[k].state.stats.hp
                    <= 0 by {
                    assert(p[k] == m[k]);
                }
            },
        }
    }
}

fn find_living(team: &Team) -> (r: Option<usize>)
    ensures
        match r {
            Some(i) => first_living(team@.members) == Some(i as int),
            None => first_living(team@.members) is None,
        },
{
    let ghost m = team@.members;
    let mut i: usize = 0;
    while i < team.combatants.len()
        invariant
            i <= team.combatants@.len(),
            m == team@.members,
            first_living(m.subrange(0, i as int)) is None,
        decreases team.combatants@.len() - i,
    {
        let ghost pre = m.subrange(0, i + 1);
        assert(pre.drop_last() =~= m.subrange(0, i as int));
        assert(pre.last() == team.combatants@[i as int]@);
        if team.combatants[i].state.stats.hp > 0 {
            proof {
                lemma_first_living_prefix(m, i + 1);
            }
            return Some(i);
        }
        i = i + 1;
    }
    assert(m.subrange(0, i as int) =~= m);
    None
}

proof fn lemma_first_living_prefix(m: Seq<MemberView>, n: int)
    requires
        0 <= n <= m.len(),
        first_living(m.subrange(0, n)) is Some,
    ensures
        first_living(m) == first_living(m.subrange(0, n)),
    decreases m.len() - n,
{
    if n == m.len() {
        assert(m.subrange(0, n) =~= m);
    } else {
        assert(m.subrange(0, n + 1).drop_last() =~= m.subrange(0, n));
        lemma_first_living_prefix(m, n + 1);
    }
}

/// A member's state after the count down at the end of round `round` (see
/// `process_round_end_status_durations`).
pub open spec fn round_end_member(m: MemberView, round: u32) -> MemberView {
    let b = round_end_board(m.state.statuses, round);
    MemberView {
        state: CombatView {
            statuses: b,
            aura: round_end_aura(m.state.aura, m.state.statuses, round),
            stats: spec_recalc(m.state.stats, b),
            ..m.state
        },
        ..m
    }
}

/// The status log of the round-end count down of the first `n` members, in team order.
pub open spec fn team_round_end_records(ms: Seq<MemberView>, n: nat, round: u32, side: Side) -> Seq<StatusRecordView>
    decreases n,
{
    if n == 0 {
        Seq::empty()
    } else {
        team_round_end_records(ms, (n - 1) as nat, round, side) + round_end_records(
            ms[n - 1].state.aura,
            ms[n - 1].state.statuses,
            round,
            side,
        )
    }
}

fn round_end_team(team: &mut Team, round: u32, side: Side, records: &mut Vec<StatusRecord>)
    ensures
        records_view(final(records)@) == records_view(old(records)@) + team_round_end_records(
            old(team)@.members,
            old(team)@.members.len(),
            round,
            side,
        ),
        final(team)@.active == old(team)@.active,
        final(team)@.members.len() == old(team)@.members.len(),
        forall|i: int|
            0 <= i < old(team)@.members.len() ==> #[trigger] final(team)@.members[i]
                == round_end_member(old(team)@.members[i], round),
{
    let n = team.combatants.len();
    let mut i: usize = 0;
    while i < n
        invariant
            n == team.combatants@.len(),
            n == old(team).combatants@.len(),
            i <= n,
            team.active_index == old(team).active_index,
            forall|k: int| 0 <= k < i ==> #[trigger] team@.members[k] == round_end_member(old(team)@.members[k], round),
            forall|k: int| i <= k < n ==> #[trigger] team@.members[k] == old(team)@.members[k],
            records_view(records@) == records_view(old(records)@) + team_round_end_records(
                old(team)@.members,
                i as nat,
                round,
                side,
            ),
        decreases n - i,
    {
        let ghost before = team@.members;
        let ghost r0 = records_view(records@);
        let mut c = team.combatants.remove(i);
        assert(c@ == before[i as int]);
        process_round_end_status_durations(&mut c.state, round, side, records);
        proof {
            let m = old(team)@.members;
            assert(records_view(records@) =~= records_view(old(records)@) + team_round_end_records(m, (i + 1) as nat, round, side));
        }
        let ghost cv = c@;
        team.combatants.insert(i, c);
        proof {
            assert(team@.members =~= before.update(i as int, cv));
        }
        i = i + 1;
    }
}

/// Why the end-of-round check cannot run.
#[derive(Debug, Clone, Copy, PartialEq, Eq, Structural)]
pub enum EndCheckError {
    InvalidPlayerActive,
    InvalidEnemyActive,
}

/// The knock-out bookkeeping of one side whose front member fainted: the member to switch in
/// (the first one with HP left), and whether none is left.
pub open spec fn faint_entry(t: TeamView) -> (Option<usize>, bool) {
    match first_living(t.members) {
        Some(i) => (Some(i as usize), false),
        None => (None, true),
    }
}

/// The end-of-round check. When a front member has fainted it is reported (player first), the
/// knock-out resolution is set up for each fainted side (whom to switch in, or that the side is
/// defeated) and the battle goes to `DeathResolve`. Otherwise the pending knock-out state is
/// cleared, every member of both teams has its statuses counted down for round `round`, and a
/// new round starts.
pub open spec fn spec_check_end(
    player: TeamView,
    enemy: TeamView,
    pending: PendingKoResolution,
    round: u32,
    events: Seq<EventView>,
) -> (TeamView, TeamView, PendingKoResolution, Seq<EventView>, BattlePhase) {
    let p_down = player.active_hp() <= 0;
    let e_down = enemy.active_hp() <= 0;
    if p_down || e_down {
        let ev1 = if p_down {
            events.push(EventView::CombatantFainted { side: Side::Player, index: player.active as usize })
        } else {
            events
        };
        let ev2 = if e_down {
            ev1.push(EventView::CombatantFainted { side: Side::Enemy, index: enemy.active as usize })
        } else {
            ev1
        };
        let pf = faint_entry(player);
        let ef = faint_entry(enemy);
        let p1 = PendingKoResolution {
            player_switch_index: if p_down {
                pf.0
            } else {
                pending.player_switch_index
            },
            enemy_switch_index: if e_down {
                ef.0
            } else {
                pending.enemy_switch_index
            },
            player_defeated: p_down && pf.1,
            enemy_defeated: e_down && ef.1,
            ..pending
        };
        (player, enemy, p1, ev2, BattlePhase::DeathResolve)
    } else {
        (
            TeamView { members: player.members.map_values(|m: MemberView| round_end_member(m, round)), ..player },
            TeamView { members: enemy.members.map_values(|m: MemberView| round_end_member(m, round)), ..enemy },
            PendingKoResolution {
                player_switch_index: None,
                enemy_switch_index: None,
                player_defeated: false,
                enemy_defeated: false,
                resume_phase: None,
            },
            events,
            BattlePhase::RoundStart,
        )
    }
}

/// The action-trace entries of the end check: a `fainted` entry for each front member without
/// HP (player first), with its name and HP.
pub open spec fn faint_trace(player: TeamView, enemy: TeamView, round: u32, trace: Seq<TraceView>) -> Seq<TraceView> {
    let t1 = if player.active_hp() <= 0 {
        trace.push(
            TraceView {
                round,
                side: Side::Player,
                action: "fainted"@,
                detail: spec_fainted_detail(player.members[player.active].name, player.members[player.active].state.stats.hp),
            },
        )
    } else {
        trace
    };
    if enemy.active_hp() <= 0 {
        t1.push(
            TraceView {
                round,
                side: Side::Enemy,
                action: "fainted"@,
                detail: spec_fainted_detail(enemy.members[enemy.active].name, enemy.members[enemy.active].state.stats.hp),
            },
        )
    } else {
        t1
    }
}

/// Runs the end-of-round check (see `spec_check_end`); fails when a team's front index names no
/// member.
pub fn check_end_system(
    player: &mut Team,
    enemy: &mut Team,
    pending: &mut PendingKoResolution,
    round: u32,
    events: &mut Vec<BattleEvent>,
    trace: &mut Vec<ActionTraceEntry>,
    records: &mut Vec<StatusRecord>,
) -> (r: Result<BattlePhase, EndCheckError>)
    ensures
        records_view(final(records)@) == if r == Ok::<BattlePhase, EndCheckError>(BattlePhase::RoundStart) {
            records_view(old(records)@) + team_round_end_records(
                old(player)@.members,
                old(player)@.members.len(),
                round,
                Side::Player,
            ) + team_round_end_records(old(enemy)@.members, old(enemy)@.members.len(), round, Side::Enemy)
        } else {
            records_view(old(records)@)
        },
        r is Err ==> traces_view(final(trace)@) == traces_view(old(trace)@),
        r is Ok ==> traces_view(final(trace)@) == faint_trace(old(player)@, old(enemy)@, round, traces_view(old(trace)@)),
        !old(player)@.has_active() ==> r == Err::<BattlePhase, EndCheckError>(
            EndCheckError::InvalidPlayerActive,
        ),
        old(player)@.has_active() && !old(enemy)@.has_active() ==> r == Err::<
            BattlePhase,
            EndCheckError,
        >(EndCheckError::InvalidEnemyActive),
        r is Err ==> {
            &&& final(player)@ == old(player)@
            &&& final(enemy)@ == old(enemy)@
            &&& *final(pending) == *old(pending)
            &&& events_view(final(events)@) == events_view(old(events)@)
        },
        old(player)@.has_active() && old(enemy)@.has_active() ==> {
            let s = spec_check_end(old(player)@, old(enemy)@, *old(pending), round, events_view(old(events)@));
            &&& r == Ok::<BattlePhase, EndCheckError>(s.4)
            &&& final(player)@ == s.0
            &&& final(enemy)@ == s.1
            &&& *final(pending) == s.2
            &&& events_view(final(events)@) == s.3
        },
{
    if player.active_index >= player.combatants.len() {
        return Err(EndCheckError::InvalidPlayerActive);
    }
    if enemy.active_index >= enemy.combatants.len() {
        return Err(EndCheckError::InvalidEnemyActive);
    }
    let p_hp = player.combatants[player.active_index].state.stats.hp;
    let e_hp = enemy.combatants[enemy.active_index].state.stats.hp;
    let ghost pv = player@;
    let ghost ev = enemy@;
    assert(pv.active_hp() == p_hp);
    assert(ev.active_hp() == e_hp);
    if p_hp <= 0 || e_hp <= 0 {
        let player_next = if p_hp <= 0 {
            find_living(player)
        } else {
            None
        };
        let enemy_next = if e_hp <= 0 {
            find_living(enemy)
        } else {
            None
        };
        if p_hp <= 0 {
            emit(events, BattleEvent::CombatantFainted { side: Side::Player, index: player.active_index });
            pending.player_switch_index = player_next;
            let c = &player.combatants[player.active_index];
            assert(c@ == pv.members[pv.active]);
            let detail = fainted_detail(c.name.as_str(), p_hp);
            push_trace(trace, ActionTraceEntry { round, side: Side::Player, action: "fainted".to_owned(), detail });
        }
        if e_hp <= 0 {
            emit(events, BattleEvent::CombatantFainted { side: Side::Enemy, index: enemy.active_index });
            pending.enemy_switch_index = enemy_next;
            let c = &enemy.combatants[enemy.active_index];
            assert(c@ == ev.members[ev.active]);
            let detail = fainted_detail(c.name.as_str(), e_hp);
            push_trace(trace, ActionTraceEntry { round, side: Side::Enemy, action: "fainted".to_owned(), detail });
        }
        pending.player_defeated = p_hp <= 0 && player_next.is_none();
        pending.enemy_defeated = e_hp <= 0 && enemy_next.is_none();
        proof {
            lemma_first_living(pv.members);
            lemma_first_living(ev.members);
        }
        Ok(BattlePhase::DeathResolve)
    } else {
        *pending = PendingKoResolution::new();
        round_end_team(player, round, Side::Player, records);
        round_end_team(enemy, round, Side::Enemy, records);
        proof {
            assert(player@.members =~= pv.members.map_values(|m: MemberView| round_end_member(m, round)));
            assert(enemy@.members =~= ev.members.map_values(|m: MemberView| round_end_member(m, round)));
        }
        Ok(BattlePhase::RoundStart)
    }
}

/// The status `id` moved from one combatant to another (kept on `from` when it has none).
pub open spec fn transfer_view(from: CombatView, to: CombatView, id: Seq<char>) -> (CombatView, CombatView) {
    let i = first_index(from.statuses, id);
    if i >= 0 {
        let fb = from.statuses.remove(i);
        let tb = spec_upsert(to.statuses, from.statuses[i]);
        (
            CombatView { statuses: fb, stats: spec_recalc(from.stats, fb), ..from },
            CombatView { statuses: tb, stats: spec_recalc(to.stats, tb), ..to },
        )
    } else {
        (from, to)
    }
}

fn transfer_between(from: &mut CombatState, to: &mut CombatState, id: &str)
    ensures
        (final(from)@, final(to)@) == transfer_view(old(from)@, old(to)@, id@),
{
    transfer_status_by_id(&mut from.statuses, &mut from.stats, &mut to.statuses, &mut to.stats, id);
}

/// Switching member `idx` in: it happens when it is not already in front and has HP left; the
/// leaving member hands its nature regeneration status over.
pub open spec fn switch_in(t: TeamView, idx: int) -> (TeamView, bool) {
    let a = t.active;
    if idx != a && t.members[idx].state.stats.hp > 0 {
        let tr = transfer_view(t.members[a].state, t.members[idx].state, "nature_regen"@);
        (
            TeamView {
                members: t.members.update(a, MemberView { state: tr.0, ..t.members[a] }).update(
                    idx,
                    MemberView { state: tr.1, ..t.members[idx] },
                ),
                active: idx,
            },
            true,
        )
    } else {
        (t, false)
    }
}

spec fn team_of(members: Seq<MemberView>, active: int) -> TeamView {
    TeamView { members, active }
}

pub(crate) fn switch_team(team: &mut Team, idx: usize) -> (switched: bool)
    requires
        old(team)@.has_active(),
        idx < old(team)@.members.len(),
    ensures
        (final(team)@, switched) == switch_in(old(team)@, idx as int),
{
    let a = team.active_index;
    if idx == a {
        return false;
    }
    if team.combatants[idx].state.stats.hp <= 0 {
        return false;
    }
    let ghost m0 = team@.members;
    let (lo, hi) = if a < idx {
        (a, idx)
    } else {
        (idx, a)
    };
    let mut h = team.combatants.remove(hi);
    let mut l = team.combatants.remove(lo);
    assert(h@ == m0[hi as int]);
    assert(l@ == m0[lo as int]);
    if a == lo {
        transfer_between(&mut l.state, &mut h.state, "nature_regen");
    } else {
        transfer_between(&mut h.state, &mut l.state, "nature_regen");
    }
    let ghost lv = l@;
    let ghost hv = h@;
    team.combatants.insert(lo, l);
    team.combatants.insert(hi, h);
    team.active_index = idx;
    proof {
        assert(team@.members =~= m0.update(lo as int, lv).update(hi as int, hv));
        let tr = transfer_view(m0[a as int].state, m0[idx as int].state, "nature_regen"@);
        if a == lo {
            assert(lv == MemberView { state: tr.0, ..m0[a as int] });
            assert(hv == MemberView { state: tr.1, ..m0[idx as int] });
        } else {
            assert(hv == MemberView { state: tr.0, ..m0[a as int] });
            assert(lv == MemberView { state: tr.1, ..m0[idx as int] });
        }
        assert(switch_in(team_of(m0, a as int), idx as int).0.members =~= team@.members);
    }
    true
}

/// How a battle ended, from the player's side.
#[derive(Debug, Clone, Copy, PartialEq, Eq, Structural)]
pub enum BattleOutcome {
    Victory,
    Defeat,
    Draw,
}

/// What the knock-out resolution leads to: the end of the battle, or a phase.
#[derive(Debug, Clone, Copy, PartialEq, Eq, Structural)]
pub enum KoResolution {
    Finished(BattleOutcome),
    Continue(BattlePhase),
}

/// A pending switch of one side; reports it when it happens.
pub open spec fn pending_switch(
    t: TeamView,
    idx: Option<usize>,
    side: Side,
    events: Seq<EventView>,
) -> (TeamView, Seq<EventView>) {
    match idx {
        Some(i) => {
            let r = switch_in(t, i as int);
            if r.1 {
                (r.0, events.push(EventView::Switched { side, index: i }))
            } else {
                (t, events)
            }
        },
        None => (t, events),
    }
}

/// The knock-out resolution. The pending switches happen (player first). When a side was
/// defeated the battle ends (both: a draw; else a victory when the enemy was defeated, a defeat
/// otherwise). Else the battle resumes the phase it was interrupted in; without one, the second
/// side of the round acts when only the first one has ended its turn, else the end-of-round check
/// follows. The pending state is left clear but for what was not used.
pub open spec fn spec_resolve_ko(
    player: TeamView,
    enemy: TeamView,
    pending: PendingKoResolution,
    turn: TurnContext,
    order: RoundOrder,
    events: Seq<EventView>,
) -> (TeamView, TeamView, PendingKoResolution, Seq<EventView>, KoResolution) {
    let ps = pending_switch(player, pending.player_switch_index, Side::Player, events);
    let es = pending_switch(enemy, pending.enemy_switch_index, Side::Enemy, ps.1);
    let p1 = PendingKoResolution { player_switch_index: None, enemy_switch_index: None, ..pending };
    if pending.player_defeated || pending.enemy_defeated {
        let outcome = if pending.player_defeated && pending.enemy_defeated {
            BattleOutcome::Draw
        } else if pending.enemy_defeated {
            BattleOutcome::Victory
        } else {
            BattleOutcome::Defeat
        };
        (
            ps.0,
            es.0,
            PendingKoResolution { player_defeated: false, enemy_defeated: false, resume_phase: None, ..p1 },
            es.1,
            KoResolution::Finished(outcome),
        )
    } else {
        match pending.resume_phase {
            Some(phase) => (
                ps.0,
                es.0,
                PendingKoResolution { resume_phase: None, ..p1 },
                es.1,
                KoResolution::Continue(phase),
            ),
            None => {
                let next = if order.first == Side::Player && turn.player_ended && !turn.enemy_ended {
                    spec_phase_for_side(order.second)
                } else if order.first == Side::Enemy && turn.enemy_ended && !turn.player_ended {
                    spec_phase_for_side(order.second)
                } else {
                    BattlePhase::CheckEnd
                };
                (ps.0, es.0, p1, es.1, KoResolution::Continue(next))
            },
        }
    }
}

/// Whether a pending switch index names a member of the team.
pub open spec fn switch_in_range(t: TeamView, idx: Option<usize>) -> bool {
    match idx {
        Some(i) => i < t.members.len(),
        None => true,
    }
}

/// The action-trace entry of a pending switch that happens: `auto_switch`, with the name and
/// index of the member that comes in.
pub open spec fn switch_trace(t: TeamView, idx: Option<usize>, side: Side, round: u32, trace: Seq<TraceView>) -> Seq<TraceView> {
    match idx {
        Some(i) => if switch_in(t, i as int).1 {
            trace.push(
                TraceView { round, side, action: "auto_switch"@, detail: spec_auto_switch_detail(t.members[i as int].name, i) },
            )
        } else {
            trace
        },
        None => trace,
    }
}

fn run_pending_switch(
    team: &mut Team,
    idx: Option<usize>,
    side: Side,
    round: u32,
    events: &mut Vec<BattleEvent>,
    trace: &mut Vec<ActionTraceEntry>,
)
    requires
        old(team)@.has_active(),
        switch_in_range(old(team)@, idx),
    ensures
        (final(team)@, events_view(final(events)@)) == pending_switch(
            old(team)@,
            idx,
            side,
            events_view(old(events)@),
        ),
        traces_view(final(trace)@) == switch_trace(old(team)@, idx, side, round, traces_view(old(trace)@)),
        final(team)@.has_active(),
{
    if let Some(i) = idx {
        let ghost t0 = team@;
        if switch_team(team, i) {
            emit(events, BattleEvent::Switched { side, index: i });
            assert(team@.members.len() == t0.members.len());
            assert(team.combatants@.len() == team@.members.len());
            let c = &team.combatants[i];
            assert(c@ == team@.members[i as int]);
            assert(team@.members[i as int].name == t0.members[i as int].name);
            let detail = auto_switch_detail(c.name.as_str(), i);
            push_trace(trace, ActionTraceEntry { round, side, action: "auto_switch".to_owned(), detail });
        }
    }
}

/// Runs the knock-out resolution (see `spec_resolve_ko`), once the faint has been shown.
pub fn resolve_ko_system(
    player: &mut Team,
    enemy: &mut Team,
    pending: &mut PendingKoResolution,
    turn: &TurnContext,
    order: &RoundOrder,
    round: u32,
    events: &mut Vec<BattleEvent>,
    trace: &mut Vec<ActionTraceEntry>,
) -> (r: KoResolution)
    requires
        old(player)@.has_active(),
        old(enemy)@.has_active(),
        switch_in_range(old(player)@, old(pending).player_switch_index),
        switch_in_range(old(enemy)@, old(pending).enemy_switch_index),
    ensures
        ({
            let s = spec_resolve_ko(old(player)@, old(enemy)@, *old(pending), *turn, *order, events_view(old(events)@));
            &&& final(player)@ == s.0
            &&& final(enemy)@ == s.1
            &&& *final(pending) == s.2
            &&& events_view(final(events)@) == s.3
            &&& r == s.4
        }),
        traces_view(final(trace)@) == switch_trace(
            old(enemy)@,
            old(pending).enemy_switch_index,
            Side::Enemy,
            round,
            switch_trace(old(player)@, old(pending).player_switch_index, Side::Player, round, traces_view(old(trace)@)),
        ),
{
    let p_idx = pending.player_switch_index;
    let e_idx = pending.enemy_switch_index;
    pending.player_switch_index = None;
    pending.enemy_switch_index = None;
    run_pending_switch(player, p_idx, Side::Player, round, events, trace);
    run_pending_switch(enemy, e_idx, Side::Enemy, round, events, trace);
    if pending.player_defeated || pending.enemy_defeated {
        let outcome = if pending.player_defeated && pending.enemy_defeated {
            BattleOutcome::Draw
        } else if pending.enemy_defeated {
            BattleOutcome::Victory
        } else {
            BattleOutcome::Defeat
        };
        pending.player_defeated = false;
        pending.enemy_defeated = false;
        pending.resume_phase = None;
        KoResolution::Finished(outcome)
    } else {
        match pending.resume_phase {
            Some(phase) => {
                pending.resume_phase = None;
                KoResolution::Continue(phase)
            },
            None => {
                let next = if order.first == Side::Player && turn.player_ended && !turn.enemy_ended {
                    battle_phase_for_side(order.second)
                } else if order.first == Side::Enemy && turn.enemy_ended && !turn.player_ended {
                    battle_phase_for_side(order.second)
                } else {
                    BattlePhase::CheckEnd
                };
                KoResolution::Continue(next)
            },
        }
    }
}

/// Who drives a battle's sides.
#[derive(Debug, Clone, Copy, PartialEq, Eq, Structural)]
pub enum BattleControlMode {
    PlayerVsAi,
    DebugPlayerControlsBoth,
    PlayerVsRemote,
}

/// The side whose controls the local interface shows. In the discard phase it is the
/// discarding side, except that an enemy discard shows the player's side against the AI or a
/// remote player (the player's side when no discard is pending). In the enemy's turn it is the
/// enemy in the debug mode; otherwise (a remote client included) the player.
pub open spec fn spec_ui_control_side(
    phase: BattlePhase,
    mode: BattleControlMode,
    pending_discard: Option<Side>,
) -> Side {
    match phase {
        BattlePhase::Discard => match pending_discard {
            Some(s) => if (mode == BattleControlMode::PlayerVsAi || mode
                == BattleControlMode::PlayerVsRemote) && s == Side::Enemy {
                Side::Player
            } else {
                s
            },
            None => Side::Player,
        },
        BattlePhase::EnemyTurn => if mode == BattleControlMode::DebugPlayerControlsBoth {
            Side::Enemy
        } else {
            Side::Player
        },
        _ => Side::Player,
    }
}

pub fn sync_ui_control_side_system(
    phase: BattlePhase,
    mode: BattleControlMode,
    pending_discard: Option<Side>,
) -> (s: Side)
    ensures
        s == spec_ui_control_side(phase, mode, pending_discard),
{
    match phase {
        BattlePhase::Discard => match pending_discard {
            Some(s) => {
                if (mode == BattleControlMode::PlayerVsAi || mode == BattleControlMode::PlayerVsRemote)
                    && s == Side::Enemy {
                    Side::Player
                } else {
                    s
                }
            },
            None => Side::Player,
        },
        BattlePhase::EnemyTurn => {
            if mode == BattleControlMode::DebugPlayerControlsBoth {
                Side::Enemy
            } else {
                Side::Player
            }
        },
        _ => Side::Player,
    }
}

} // verus!
