//! The replay log: every battle, trace, state, lifecycle, formula and status record, numbered in
//! order, and the snapshots of both teams that the structured log keeps.
use vstd::prelude::*;

use super::context::strings_view;
use super::effects::decimal;
use super::flow::{ActionTraceEntry, MemberView, Team, TeamView};
use super::ticks::StatusRecord;
use super::model::{aura_elems, BattleEvent, EventView, Side, StatusView};
use super::text::{
    battle_event_line, concat_text, elements_text, elems_text, event_line, format_number_after,
    int_decimal, join_texts, joined,
};
use crate::arith::max_int;

verus! {

/// A record that goes into the replay log.
#[derive(Debug)]
pub enum LogInput {
    /// A battle event.
    Battle(BattleEvent),
    /// An action-trace record of round `round`.
    Trace { round: u32, action: String, detail: String },
    /// A state record of round `round`.
    State { round: u32, summary: String, detail: String },
    /// A lifecycle record, with its own phase name.
    Lifecycle { phase: String, summary: String, detail: String },
    /// A formula record of round `round`.
    Formula { round: u32, action: String, detail: String },
    /// A status record of round `round`.
    Status { round: u32, status_id: String, action: String, detail: String },
}

pub ghost enum LogInputView {
    Battle(EventView),
    Trace { round: u32, action: Seq<char>, detail: Seq<char> },
    State { round: u32, summary: Seq<char>, detail: Seq<char> },
    Lifecycle { phase: Seq<char>, summary: Seq<char>, detail: Seq<char> },
    Formula { round: u32, action: Seq<char>, detail: Seq<char> },
    Status { round: u32, status_id: Seq<char>, action: Seq<char>, detail: Seq<char> },
}

impl View for LogInput {
    type V = LogInputView;

    open spec fn view(&self) -> LogInputView {
        match self {
            LogInput::Battle(e) => LogInputView::Battle(e@),
            LogInput::Trace { round, action, detail } => LogInputView::Trace { round: *round, action: action@, detail: detail@ },
            LogInput::State { round, summary, detail } => LogInputView::State { round: *round, summary: summary@, detail: detail@ },
            LogInput::Lifecycle { phase, summary, detail } => LogInputView::Lifecycle {
                phase: phase@,
                summary: summary@,
                detail: detail@,
            },
            LogInput::Formula { round, action, detail } => LogInputView::Formula { round: *round, action: action@, detail: detail@ },
            LogInput::Status { round, status_id, action, detail } => LogInputView::Status {
                round: *round,
                status_id: status_id@,
                action: action@,
                detail: detail@,
            },
        }
    }
}

/// One entry of the replay log: its number, phase, summary and detail.
#[derive(Debug, Clone)]
pub struct ReplayLogEntry {
    pub seq: u64,
    pub phase: String,
    pub summary: String,
    pub detail: String,
}

pub ghost struct ReplayView {
    pub seq: u64,
    pub phase: Seq<char>,
    pub summary: Seq<char>,
    pub detail: Seq<char>,
}

impl View for ReplayLogEntry {
    type V = ReplayView;

    open spec fn view(&self) -> ReplayView {
        ReplayView { seq: self.seq, phase: self.phase@, summary: self.summary@, detail: self.detail@ }
    }
}

/// The replay entry numbered `seq` for a record: a battle event goes under `battle-event` with its
/// log line (see `event_line`); trace, state, formula and status records go under
/// `trace-r<round>`, `state-r<round>`, `formula-r<round>` and `status-r<round>`, a status record
/// summarised as `<status id>:<action>`; a lifecycle record keeps its own phase.
pub open spec fn spec_replay_entry(input: LogInputView, seq: u64, player: TeamView, enemy: TeamView) -> ReplayView {
    match input {
        LogInputView::Battle(e) => ReplayView {
            seq,
            phase: "battle-event"@,
            summary: "BattleEvent"@,
            detail: event_line(e, player, enemy),
        },
        LogInputView::Trace { round, action, detail } => ReplayView {
            seq,
            phase: "trace-r"@ + int_decimal(round as int),
            summary: action,
            detail,
        },
        LogInputView::State { round, summary, detail } => ReplayView {
            seq,
            phase: "state-r"@ + int_decimal(round as int),
            summary,
            detail,
        },
        LogInputView::Lifecycle { phase, summary, detail } => ReplayView { seq, phase, summary, detail },
        LogInputView::Formula { round, action, detail } => ReplayView {
            seq,
            phase: "formula-r"@ + int_decimal(round as int),
            summary: action,
            detail,
        },
        LogInputView::Status { round, status_id, action, detail } => ReplayView {
            seq,
            phase: "status-r"@ + int_decimal(round as int),
            summary: status_id + ":"@ + action,
            detail,
        },
    }
}

fn replay_entry(input: &LogInput, seq: u64, player: &Team, enemy: &Team) -> (r: ReplayLogEntry)
    ensures
        r@ == spec_replay_entry(input@, seq, player@, enemy@),
{
    match input {
        LogInput::Battle(e) => ReplayLogEntry {
            seq,
            phase: "battle-event".to_owned(),
            summary: "BattleEvent".to_owned(),
            detail: battle_event_line(e, player, enemy),
        },
        LogInput::Trace { round, action, detail } => ReplayLogEntry {
            seq,
            phase: format_number_after("trace-r", *round as i128),
            summary: action.clone(),
            detail: detail.clone(),
        },
        LogInput::State { round, summary, detail } => ReplayLogEntry {
            seq,
            phase: format_number_after("state-r", *round as i128),
            summary: summary.clone(),
            detail: detail.clone(),
        },
        LogInput::Lifecycle { phase, summary, detail } => ReplayLogEntry {
            seq,
            phase: phase.clone(),
            summary: summary.clone(),
            detail: detail.clone(),
        },
        LogInput::Formula { round, action, detail } => ReplayLogEntry {
            seq,
            phase: format_number_after("formula-r", *round as i128),
            summary: action.clone(),
            detail: detail.clone(),
        },
        LogInput::Status { round, status_id, action, detail } => {
            let head = concat_text(status_id.as_str(), ":");
            ReplayLogEntry {
                seq,
                phase: format_number_after("status-r", *round as i128),
                summary: concat_text(head.as_str(), action.as_str()),
                detail: detail.clone(),
            }
        },
    }
}

/// The replay entries of `inputs`, in order, numbered from `first_seq` on.
pub fn replay_entries(inputs: &Vec<LogInput>, first_seq: u64, player: &Team, enemy: &Team) -> (r: Vec<ReplayLogEntry>)
    requires
        first_seq + inputs@.len() <= u64::MAX,
    ensures
        r@.len() == inputs@.len(),
        forall|i: int| 0 <= i < r@.len() ==> #[trigger] r@[i]@ == spec_replay_entry(inputs@[i]@, (first_seq + i) as u64, player@, enemy@),
{
    let mut r: Vec<ReplayLogEntry> = Vec::new();
    let mut i: usize = 0;
    while i < inputs.len()
        invariant
            i <= inputs@.len(),
            first_seq + inputs@.len() <= u64::MAX,
            r@.len() == i,
            forall|k: int| 0 <= k < i ==> #[trigger] r@[k]@ == spec_replay_entry(inputs@[k]@, (first_seq + k) as u64, player@, enemy@),
        decreases inputs@.len() - i,
    {
        let e = replay_entry(&inputs[i], first_seq + i as u64, player, enemy);
        r.push(e);
        i = i + 1;
    }
    r
}

/// A stage for the snapshot: its sign always written (`+0`, `+2`, `-1`).
pub open spec fn signed_decimal(n: int) -> Seq<char> {
    if n >= 0 {
        "+"@ + decimal(n as nat)
    } else {
        int_decimal(n)
    }
}

fn signed_text(prefix: &str, n: i32) -> (s: String)
    ensures
        s@ == prefix@ + signed_decimal(n as int),
{
    if n >= 0 {
        let p = concat_text(prefix, "+");
        let s = format_number_after(p.as_str(), n as i128);
        assert(s@ =~= prefix@ + signed_decimal(n as int));
        s
    } else {
        format_number_after(prefix, n as i128)
    }
}

/// The names of statuses for the snapshot: joined by `/`, or `无` when there are none.
pub open spec fn status_names_text(b: Seq<StatusView>) -> Seq<char> {
    if b.len() == 0 {
        "无"@
    } else {
        joined(b.map_values(|e: StatusView| e.name), "/"@)
    }
}

fn status_names(member: &super::flow::Combatant) -> (s: String)
    ensures
        s@ == status_names_text(member@.state.statuses),
{
    let entries = &member.state.statuses.entries;
    if entries.len() == 0 {
        return "无".to_owned();
    }
    let mut names: Vec<String> = Vec::new();
    let mut i: usize = 0;
    while i < entries.len()
        invariant
            i <= entries@.len(),
            names@.len() == i,
            *entries == member.state.statuses.entries,
            forall|k: int| 0 <= k < i ==> #[trigger] names@[k]@ == member@.state.statuses[k].name,
        decreases entries@.len() - i,
    {
        names.push(entries[i].name.clone());
        i = i + 1;
    }
    assert(strings_view(names@) =~= member@.state.statuses.map_values(|e: StatusView| e.name));
    join_texts(&names, "/")
}

/// The snapshot line of member `i` of a team: front or back, its number, name, HP (not below
/// zero) against its maximum, shield, aura, statuses and stages.
pub open spec fn member_line(t: TeamView, i: int) -> Seq<char> {
    let m = t.members[i];
    let s = m.state;
    (if i == t.active {
        "前场"@
    } else {
        "后场"@
    }) + "#"@ + int_decimal(i + 1) + " "@ + m.name + " | HP "@ + int_decimal(max_int(s.stats.hp as int, 0)) + "/"@
        + int_decimal(s.stats.max_hp as int) + " | 护盾 "@ + int_decimal(max_int(s.shield as int, 0)) + " | 附着 "@
        + elems_text(aura_elems(s.aura)) + " | 状态 "@ + status_names_text(s.statuses) + " | 属性等级 Atk"@
        + signed_decimal(s.stats.atk_stage as int) + "/Def"@ + signed_decimal(s.stats.def_stage as int) + "/Spd"@
        + signed_decimal(s.stats.spd_stage as int) + "/Acc"@ + signed_decimal(s.stats.acc_stage as int)
}

fn member_line_text(t: &Team, i: usize) -> (s: String)
    requires
        i < t@.members.len(),
    ensures
        s@ == member_line(t@, i as int),
{
    let c = &t.combatants[i];
    assert(c@ == t@.members[i as int]);
    let st = &c.state;
    let place = if i == t.active_index {
        "前场"
    } else {
        "后场"
    };
    let a = concat_text(place, "#");
    let a = format_number_after(a.as_str(), i as i128 + 1);
    let a = concat_text(a.as_str(), " ");
    let a = concat_text(a.as_str(), c.name.as_str());
    let hp: i32 = if st.stats.hp < 0 {
        0
    } else {
        st.stats.hp
    };
    let a = format_number_after(concat_text(a.as_str(), " | HP ").as_str(), hp as i128);
    let a = format_number_after(concat_text(a.as_str(), "/").as_str(), st.stats.max_hp as i128);
    let shield: i32 = if st.shield.0 < 0 {
        0
    } else {
        st.shield.0
    };
    let a = format_number_after(concat_text(a.as_str(), " | 护盾 ").as_str(), shield as i128);
    let a = concat_text(concat_text(a.as_str(), " | 附着 ").as_str(), elements_text(&st.aura.elements()).as_str());
    let a = concat_text(concat_text(a.as_str(), " | 状态 ").as_str(), status_names(c).as_str());
    let a = signed_text(concat_text(a.as_str(), " | 属性等级 Atk").as_str(), st.stats.atk_stage);
    let a = signed_text(concat_text(a.as_str(), "/Def").as_str(), st.stats.def_stage);
    let a = signed_text(concat_text(a.as_str(), "/Spd").as_str(), st.stats.spd_stage);
    signed_text(concat_text(a.as_str(), "/Acc").as_str(), st.stats.acc_stage)
}

/// A team's snapshot: the lines of its members joined by ` || `, or `<side> 无可用成员` for a team
/// without members.
pub open spec fn spec_team_snapshot(t: TeamView, side: Side) -> Seq<char> {
    if t.members.len() == 0 {
        (match side {
            Side::Player => "Player"@,
            Side::Enemy => "Enemy"@,
        }) + " 无可用成员"@
    } else {
        joined(Seq::new(t.members.len(), |i: int| member_line(t, i)), " || "@)
    }
}

pub fn team_snapshot(team: &Team, side: Side) -> (s: String)
    ensures
        s@ == spec_team_snapshot(team@, side),
{
    let n = team.combatants.len();
    if n == 0 {
        let name = match side {
            Side::Player => "Player",
            Side::Enemy => "Enemy",
        };
        return concat_text(name, " 无可用成员");
    }
    let mut lines: Vec<String> = Vec::new();
    let mut i: usize = 0;
    while i < n
        invariant
            n == team@.members.len(),
            i <= n,
            lines@.len() == i,
            forall|k: int| 0 <= k < i ==> #[trigger] lines@[k]@ == member_line(team@, k),
        decreases n - i,
    {
        lines.push(member_line_text(team, i));
        i = i + 1;
    }
    assert(strings_view(lines@) =~= Seq::new(team@.members.len(), |k: int| member_line(team@, k)));
    join_texts(&lines, " || ")
}

/// The detail of the structured log's snapshot of both teams.
pub open spec fn spec_state_snapshot(player: TeamView, enemy: TeamView) -> Seq<char> {
    "我方 => "@ + spec_team_snapshot(player, Side::Player) + "\n敌方 => "@ + spec_team_snapshot(enemy, Side::Enemy)
}

pub fn state_snapshot(player: &Team, enemy: &Team) -> (s: String)
    ensures
        s@ == spec_state_snapshot(player@, enemy@),
{
    let a = concat_text("我方 => ", team_snapshot(player, Side::Player).as_str());
    let a = concat_text(a.as_str(), "\n敌方 => ");
    concat_text(a.as_str(), team_snapshot(enemy, Side::Enemy).as_str())
}

/// An action-trace entry as a replay record.
pub fn trace_input(e: ActionTraceEntry) -> (r: LogInput)
    ensures
        r@ == (LogInputView::Trace { round: e.round, action: e.action@, detail: e.detail@ }),
{
    LogInput::Trace { round: e.round, action: e.action, detail: e.detail }
}

/// A status-log record as a replay record.
pub fn status_input(e: StatusRecord) -> (r: LogInput)
    ensures
        r@ == (LogInputView::Status { round: e.round, status_id: e.status_id@, action: e.action@, detail: e.detail@ }),
{
    LogInput::Status { round: e.round, status_id: e.status_id, action: e.action, detail: e.detail }
}

/// A state record of round `round`.
#[derive(Debug, Clone)]
pub struct StateRecord {
    pub round: u32,
    pub summary: String,
    pub detail: String,
}

/// A lifecycle record, with its own phase name.
#[derive(Debug, Clone)]
pub struct LifecycleRecord {
    pub phase: String,
    pub summary: String,
    pub detail: String,
}

/// A formula record of round `round`.
#[derive(Debug, Clone)]
pub struct FormulaRecord {
    pub round: u32,
    pub action: String,
    pub detail: String,
}

/// The records of one frame, by kind.
#[derive(Debug)]
pub struct LogBatch {
    pub battle: Vec<BattleEvent>,
    pub trace: Vec<ActionTraceEntry>,
    pub state: Vec<StateRecord>,
    pub lifecycle: Vec<LifecycleRecord>,
    pub formula: Vec<FormulaRecord>,
    pub status: Vec<StatusRecord>,
}

/// The replay records of a frame, in the order the replay keeps them: battle events, then trace,
/// state, lifecycle, formula and status records, each kind in its own order.
pub open spec fn batch_inputs(b: LogBatch) -> Seq<LogInputView> {
    b.battle@.map_values(|e: BattleEvent| LogInputView::Battle(e@))
        + b.trace@.map_values(|e: ActionTraceEntry| LogInputView::Trace { round: e.round, action: e.action@, detail: e.detail@ })
        + b.state@.map_values(|e: StateRecord| LogInputView::State { round: e.round, summary: e.summary@, detail: e.detail@ })
        + b.lifecycle@.map_values(|e: LifecycleRecord| LogInputView::Lifecycle { phase: e.phase@, summary: e.summary@, detail: e.detail@ })
        + b.formula@.map_values(|e: FormulaRecord| LogInputView::Formula { round: e.round, action: e.action@, detail: e.detail@ })
        + b.status@.map_values(
            |e: StatusRecord| LogInputView::Status { round: e.round, status_id: e.status_id@, action: e.action@, detail: e.detail@ },
        )
}

pub open spec fn inputs_view(s: Seq<LogInput>) -> Seq<LogInputView> {
    s.map_values(|e: LogInput| e@)
}

fn push_input(inputs: &mut Vec<LogInput>, e: LogInput)
    ensures
        inputs_view(final(inputs)@) == inputs_view(old(inputs)@).push(e@),
{
    inputs.push(e);
    assert(inputs_view(inputs@) =~= inputs_view(old(inputs)@).push(e@));
}

#[verifier::loop_isolation(false)]
fn batch_to_inputs(batch: LogBatch) -> (r: Vec<LogInput>)
    ensures
        inputs_view(r@) == batch_inputs(batch),
{
    let ghost b = batch;
    let LogBatch { battle, trace, state, lifecycle, formula, status } = batch;
    let mut out: Vec<LogInput> = Vec::new();
    let ghost g0 = b.battle@.map_values(|e: BattleEvent| LogInputView::Battle(e@));
    let ghost g1 = b.trace@.map_values(|e: ActionTraceEntry| LogInputView::Trace { round: e.round, action: e.action@, detail: e.detail@ });
    let ghost g2 = b.state@.map_values(|e: StateRecord| LogInputView::State { round: e.round, summary: e.summary@, detail: e.detail@ });
    let ghost g3 = b.lifecycle@.map_values(|e: LifecycleRecord| LogInputView::Lifecycle { phase: e.phase@, summary: e.summary@, detail: e.detail@ });
    let ghost g4 = b.formula@.map_values(|e: FormulaRecord| LogInputView::Formula { round: e.round, action: e.action@, detail: e.detail@ });
    let ghost g5 = b.status@.map_values(
        |e: StatusRecord| LogInputView::Status { round: e.round, status_id: e.status_id@, action: e.action@, detail: e.detail@ },
    );
    let mut i: usize = 0;
    let mut battle = battle;
    let n = battle.len();
    while battle.len() > 0
        invariant
            n == b.battle@.len(),
            battle@ == b.battle@.subrange(i as int, b.battle@.len() as int),
            i <= b.battle@.len(),
            inputs_view(out@) == g0.subrange(0, i as int),
        decreases battle@.len(),
    {
        let ghost rest = battle@;
        assert(rest.len() == b.battle@.len() - i);
        assert(rest[0] == b.battle@[i as int]);
        let e = battle.remove(0);
        assert(battle@ =~= b.battle@.subrange(i + 1, b.battle@.len() as int));
        push_input(&mut out, LogInput::Battle(e));
        assert(g0.subrange(0, i + 1) =~= g0.subrange(0, i as int).push(LogInputView::Battle(b.battle@[i as int]@)));
        i = i + 1;
    }
    assert(g0.subrange(0, i as int) =~= g0);
    let ghost p0 = inputs_view(out@);
    let mut k: usize = 0;
    while k < trace.len()
        invariant
            k <= trace@.len(),
            trace@ == b.trace@,
            inputs_view(out@) == p0 + g1.subrange(0, k as int),
        decreases trace@.len() - k,
    {
        let e = &trace[k];
        push_input(&mut out, LogInput::Trace { round: e.round, action: e.action.clone(), detail: e.detail.clone() });
        assert(p0 + g1.subrange(0, k + 1) =~= (p0 + g1.subrange(0, k as int)).push(g1[k as int]));
        k = k + 1;
    }
    assert(g1.subrange(0, k as int) =~= g1);
    let ghost p1 = inputs_view(out@);
    let mut k: usize = 0;
    while k < state.len()
        invariant
            k <= state@.len(),
            state@ == b.state@,
            inputs_view(out@) == p1 + g2.subrange(0, k as int),
        decreases state@.len() - k,
    {
        let e = &state[k];
        push_input(&mut out, LogInput::State { round: e.round, summary: e.summary.clone(), detail: e.detail.clone() });
        assert(p1 + g2.subrange(0, k + 1) =~= (p1 + g2.subrange(0, k as int)).push(g2[k as int]));
        k = k + 1;
    }
    assert(g2.subrange(0, k as int) =~= g2);
    let ghost p2 = inputs_view(out@);
    let mut k: usize = 0;
    while k < lifecycle.len()
        invariant
            k <= lifecycle@.len(),
            lifecycle@ == b.lifecycle@,
            inputs_view(out@) == p2 + g3.subrange(0, k as int),
        decreases lifecycle@.len() - k,
    {
        let e = &lifecycle[k];
        push_input(&mut out, LogInput::Lifecycle { phase: e.phase.clone(), summary: e.summary.clone(), detail: e.detail.clone() });
        assert(p2 + g3.subrange(0, k + 1) =~= (p2 + g3.subrange(0, k as int)).push(g3[k as int]));
        k = k + 1;
    }
    assert(g3.subrange(0, k as int) =~= g3);
    let ghost p3 = inputs_view(out@);
    let mut k: usize = 0;
    while k < formula.len()
        invariant
            k <= formula@.len(),
            formula@ == b.formula@,
            inputs_view(out@) == p3 + g4.subrange(0, k as int),
        decreases formula@.len() - k,
    {
        let e = &formula[k];
        push_input(&mut out, LogInput::Formula { round: e.round, action: e.action.clone(), detail: e.detail.clone() });
        assert(p3 + g4.subrange(0, k + 1) =~= (p3 + g4.subrange(0, k as int)).push(g4[k as int]));
        k = k + 1;
    }
    assert(g4.subrange(0, k as int) =~= g4);
    let ghost p4 = inputs_view(out@);
    let mut k: usize = 0;
    while k < status.len()
        invariant
            k <= status@.len(),
            status@ == b.status@,
            inputs_view(out@) == p4 + g5.subrange(0, k as int),
        decreases status@.len() - k,
    {
        let e = &status[k];
        push_input(
            &mut out,
            LogInput::Status { round: e.round, status_id: e.status_id.clone(), action: e.action.clone(), detail: e.detail.clone() },
        );
        assert(p4 + g5.subrange(0, k + 1) =~= (p4 + g5.subrange(0, k as int)).push(g5[k as int]));
        k = k + 1;
    }
    assert(g5.subrange(0, k as int) =~= g5);
    out
}

pub open spec fn replay_view(s: Seq<ReplayLogEntry>) -> Seq<ReplayView> {
    s.map_values(|e: ReplayLogEntry| e@)
}

/// Adds a frame's records to the replay log (see `batch_inputs` for their order), numbered on
/// from the entries already there (the first entry is number 1).
pub fn consume_battle_events_system(log: &mut Vec<ReplayLogEntry>, batch: LogBatch, player: &Team, enemy: &Team)
    requires
        old(log)@.len() + batch_inputs(batch).len() < u64::MAX,
    ensures
        replay_view(final(log)@).len() == old(log)@.len() + batch_inputs(batch).len(),
        replay_view(final(log)@).subrange(0, old(log)@.len() as int) == replay_view(old(log)@),
        forall|i: int|
            0 <= i < batch_inputs(batch).len() ==> #[trigger] replay_view(final(log)@)[old(log)@.len() + i] == spec_replay_entry(
                batch_inputs(batch)[i],
                (old(log)@.len() + 1 + i) as u64,
                player@,
                enemy@,
            ),
{
    let ghost bi = batch_inputs(batch);
    let inputs = batch_to_inputs(batch);
    let first = log.len() as u64 + 1;
    let mut entries = replay_entries(&inputs, first, player, enemy);
    let ghost before = log@;
    let ghost added = entries@;
    log.append(&mut entries);
    proof {
        assert(log@ == before + added);
        assert(replay_view(log@).subrange(0, before.len() as int) =~= replay_view(before));
        assert forall|i: int| 0 <= i < bi.len() implies #[trigger] replay_view(log@)[before.len() + i] == spec_replay_entry(
            bi[i],
            (before.len() + 1 + i) as u64,
            player@,
            enemy@,
        ) by {
            assert(log@[before.len() + i] == added[i]);
            assert(inputs@[i]@ == bi[i]);
        }
    }
}

} // verus!
