//! Operations on a combatant's statuses: applying, refreshing, removing, stage shifts, healing
//! modifiers, evasion charges, ticking at the end of an action and counting down at round end.
use vstd::prelude::*;

use super::model::{entries_view, StatusBoard, StatusInstance, StatusStageModifier, StatusView, Side, Stats};
use crate::arith::{min_int, sat_i32};
use crate::chars::str_eq;
use crate::data::{AttributeStageModifier, AttributeType, StatusDef};

verus! {

/// Index of the first status with id `id` in `b`, or -1.
pub open spec fn first_index(b: Seq<StatusView>, id: Seq<char>) -> int
    decreases b.len(),
{
    if b.len() == 0 {
        -1
    } else if first_index(b.drop_last(), id) >= 0 {
        first_index(b.drop_last(), id)
    } else if b.last().id == id {
        b.len() - 1
    } else {
        -1
    }
}

pub proof fn lemma_first_index(b: Seq<StatusView>, id: Seq<char>)
    ensures
        -1 <= first_index(b, id) < b.len(),
        first_index(b, id) >= 0 ==> b[first_index(b, id)].id == id,
        first_index(b, id) >= 0 ==> forall|k: int| 0 <= k < first_index(b, id) ==> #[trigger] b[k].id
            != id,
        first_index(b, id) == -1 ==> forall|k: int| 0 <= k < b.len() ==> #[trigger] b[k].id != id,
    decreases b.len(),
{
    if b.len() > 0 {
        let p = b.drop_last();
        lemma_first_index(p, id);
        assert forall|k: int| 0 <= k < p.len() implies #[trigger] b[k] == p[k] by {}
    }
}

/// Whether a status with id `id` is present.
pub open spec fn spec_has_status(b: Seq<StatusView>, id: Seq<char>) -> bool {
    first_index(b, id) >= 0
}

/// Sum of the shifts for `attr` in `ms`, each partial sum saturated into `i32`.
pub open spec fn modifier_sum(ms: Seq<StatusStageModifier>, attr: AttributeType) -> int
    decreases ms.len(),
{
    if ms.len() == 0 {
        0
    } else {
        let rest = modifier_sum(ms.drop_last(), attr);
        if ms.last().attribute == attr {
            sat_i32(rest + ms.last().amount)
        } else {
            rest
        }
    }
}

/// Total stage shift for `attr` that the statuses give (partial sums saturated into `i32`).
pub open spec fn board_stage(b: Seq<StatusView>, attr: AttributeType) -> int
    decreases b.len(),
{
    if b.len() == 0 {
        0
    } else {
        sat_i32(board_stage(b.drop_last(), attr) + modifier_sum(b.last().stage_modifiers, attr))
    }
}

/// `stats` with its stage fields recomputed from the statuses.
pub open spec fn spec_recalc(stats: Stats, b: Seq<StatusView>) -> Stats {
    Stats {
        atk_stage: board_stage(b, AttributeType::Atk) as i32,
        def_stage: board_stage(b, AttributeType::Def) as i32,
        spd_stage: board_stage(b, AttributeType::Spd) as i32,
        acc_stage: board_stage(b, AttributeType::Acc) as i32,
        ..stats
    }
}

proof fn lemma_modifier_sum_range(ms: Seq<StatusStageModifier>, attr: AttributeType)
    ensures
        -2147483648 <= modifier_sum(ms, attr) <= 2147483647,
    decreases ms.len(),
{
    if ms.len() > 0 {
        lemma_modifier_sum_range(ms.drop_last(), attr);
    }
}

proof fn lemma_board_stage_range(b: Seq<StatusView>, attr: AttributeType)
    ensures
        -2147483648 <= board_stage(b, attr) <= 2147483647,
    decreases b.len(),
{
    if b.len() > 0 {
        lemma_board_stage_range(b.drop_last(), attr);
    }
}

fn modifiers_sum(ms: &Vec<StatusStageModifier>, attr: AttributeType) -> (r: i32)
    ensures
        r == modifier_sum(ms@, attr),
{
    let mut acc: i32 = 0;
    let mut k: usize = 0;
    while k < ms.len()
        invariant
            k <= ms@.len(),
            acc == modifier_sum(ms@.subrange(0, k as int), attr),
        decreases ms@.len() - k,
    {
        let m = ms[k];
        proof {
            let nxt = ms@.subrange(0, k + 1);
            assert(nxt.drop_last() =~= ms@.subrange(0, k as int));
        }
        if m.attribute == attr {
            acc = crate::arith::to_i32_sat(acc as i64 + m.amount as i64);
        }
        k = k + 1;
    }
    assert(ms@.subrange(0, k as int) =~= ms@);
    acc
}

fn stage_sum(board: &StatusBoard, attr: AttributeType) -> (r: i32)
    ensures
        r == board_stage(board@, attr),
{
    let mut acc: i32 = 0;
    let mut k: usize = 0;
    while k < board.entries.len()
        invariant
            k <= board.entries@.len(),
            acc == board_stage(entries_view(board.entries@.subrange(0, k as int)), attr),
        decreases board.entries@.len() - k,
    {
        let part = modifiers_sum(&board.entries[k].stage_modifiers, attr);
        proof {
            let nxt = entries_view(board.entries@.subrange(0, k + 1));
            assert(nxt.drop_last() =~= entries_view(board.entries@.subrange(0, k as int)));
            assert(nxt.last() == board.entries@[k as int]@);
        }
        acc = crate::arith::to_i32_sat(acc as i64 + part as i64);
        k = k + 1;
    }
    assert(board.entries@.subrange(0, k as int) =~= board.entries@);
    acc
}

/// Recomputes the stage fields of `stats` from the statuses.
pub fn recalculate_stage_modifiers(stats: &mut Stats, board: &StatusBoard)
    ensures
        *final(stats) == spec_recalc(*old(stats), board@),
{
    proof {
        lemma_board_stage_range(board@, AttributeType::Atk);
        lemma_board_stage_range(board@, AttributeType::Def);
        lemma_board_stage_range(board@, AttributeType::Spd);
        lemma_board_stage_range(board@, AttributeType::Acc);
    }
    stats.atk_stage = stage_sum(board, AttributeType::Atk);
    stats.def_stage = stage_sum(board, AttributeType::Def);
    stats.spd_stage = stage_sum(board, AttributeType::Spd);
    stats.acc_stage = stage_sum(board, AttributeType::Acc);
}

/// Index of the first status with id `id`.
pub fn find_status(board: &StatusBoard, id: &str) -> (r: Option<usize>)
    ensures
        match r {
            Some(i) => i as int == first_index(board@, id@) && i < board@.len() && board@[i as int].id
                == id@,
            None => first_index(board@, id@) == -1,
        },
{
    proof {
        lemma_first_index(board@, id@);
    }
    let mut k: usize = 0;
    while k < board.entries.len()
        invariant
            k <= board.entries@.len(),
            -1 <= first_index(board@, id@) < board@.len(),
            first_index(board@, id@) >= 0 ==> board@[first_index(board@, id@)].id == id@,
            first_index(board@, id@) >= 0 ==> forall|m: int|
                0 <= m < first_index(board@, id@) ==> #[trigger] board@[m].id != id@,
            first_index(board@, id@) == -1 ==> forall|m: int|
                0 <= m < board@.len() ==> #[trigger] board@[m].id != id@,
            forall|m: int| 0 <= m < k ==> #[trigger] board@[m].id != id@,
        decreases board.entries@.len() - k,
    {
        if str_eq(board.entries[k].id.as_str(), id) {
            assert(board@[k as int].id == id@);
            return Some(k);
        }
        k = k + 1;
    }
    None
}

pub fn has_status(board: &StatusBoard, id: &str) -> (b: bool)
    ensures
        b == spec_has_status(board@, id@),
{
    find_status(board, id).is_some()
}

/// The board after putting `s` in: it replaces the first status with the same id, or is
/// appended.
pub open spec fn spec_upsert(b: Seq<StatusView>, s: StatusView) -> Seq<StatusView> {
    let i = first_index(b, s.id);
    if i >= 0 {
        b.update(i, s)
    } else {
        b.push(s)
    }
}

/// Puts `status` on the board (replacing a status with the same id) and recomputes the stage
/// shifts; says whether an existing status was refreshed.
pub fn upsert_status_instance(board: &mut StatusBoard, status: StatusInstance, stats: &mut Stats) -> (refreshed: bool)
    ensures
        refreshed == spec_has_status(old(board)@, status@.id),
        final(board)@ == spec_upsert(old(board)@, status@),
        *final(stats) == spec_recalc(*old(stats), final(board)@),
{
    let ghost sv = status@;
    let found = find_status(board, status.id.as_str());
    match found {
        Some(i) => {
            board.entries.set(i, status);
            assert(board@ =~= old(board)@.update(i as int, sv));
        },
        None => {
            board.entries.push(status);
            assert(board@ =~= old(board)@.push(sv));
        },
    }
    recalculate_stage_modifiers(stats, board);
    found.is_some()
}

/// Takes the first status with id `id` off and recomputes the stage shifts; says whether there
/// was one.
pub fn remove_status_by_id(board: &mut StatusBoard, stats: &mut Stats, id: &str) -> (removed: bool)
    ensures
        removed == spec_has_status(old(board)@, id@),
        final(board)@ == (if removed {
            old(board)@.remove(first_index(old(board)@, id@))
        } else {
            old(board)@
        }),
        *final(stats) == (if removed {
            spec_recalc(*old(stats), final(board)@)
        } else {
            *old(stats)
        }),
{
    match find_status(board, id) {
        Some(i) => {
            let _ = board.entries.remove(i);
            assert(board@ =~= old(board)@.remove(i as int));
            recalculate_stage_modifiers(stats, board);
            true
        },
        None => false,
    }
}

/// The status a definition gives when applied in `round` by `source`.
pub open spec fn status_from_def(def: StatusDef, source: Side, round: u32) -> StatusView {
    StatusView {
        id: def.id@,
        name: def.name@,
        category: def.category,
        remaining_turns: def.duration_turns,
        applied_round: round,
        source_side: Some(source),
        tick_timing: def.tick_timing,
        stage_modifiers: def.stage_modifiers@.map_values(
            |m: AttributeStageModifier| StatusStageModifier { attribute: m.attribute, amount: m.amount },
        ),
        fixed_damage_on_tick: def.fixed_damage_on_tick,
        heal_on_tick: def.heal_on_tick,
        heal_taken_multiplier: def.heal_taken_multiplier,
        evade_charges: def.evade_charges,
    }
}

fn convert_modifiers(ms: &Vec<AttributeStageModifier>) -> (r: Vec<StatusStageModifier>)
    ensures
        r@ == ms@.map_values(
            |m: AttributeStageModifier| StatusStageModifier { attribute: m.attribute, amount: m.amount },
        ),
{
    let mut out: Vec<StatusStageModifier> = Vec::new();
    let mut k: usize = 0;
    while k < ms.len()
        invariant
            k <= ms@.len(),
            out@ == ms@.subrange(0, k as int).map_values(
                |m: AttributeStageModifier|
                    StatusStageModifier { attribute: m.attribute, amount: m.amount },
            ),
        decreases ms@.len() - k,
    {
        let m = ms[k];
        out.push(StatusStageModifier { attribute: m.attribute, amount: m.amount });
        k = k + 1;
        assert(out@ =~= ms@.subrange(0, k as int).map_values(
            |m: AttributeStageModifier|
                StatusStageModifier { attribute: m.attribute, amount: m.amount },
        ));
    }
    assert(ms@.subrange(0, k as int) =~= ms@);
    out
}

/// Applies (or refreshes) the status that `def` defines; says whether it was a refresh.
pub fn apply_status_from_def(
    board: &mut StatusBoard,
    stats: &mut Stats,
    def: &StatusDef,
    source: Side,
    round: u32,
) -> (refreshed: bool)
    ensures
        refreshed == spec_has_status(old(board)@, def.id@),
        final(board)@ == spec_upsert(old(board)@, status_from_def(*def, source, round)),
        *final(stats) == spec_recalc(*old(stats), final(board)@),
{
    let status = StatusInstance {
        id: def.id.clone(),
        name: def.name.clone(),
        category: def.category,
        remaining_turns: def.duration_turns,
        applied_round: round,
        source_side: Some(source),
        tick_timing: def.tick_timing,
        stage_modifiers: convert_modifiers(&def.stage_modifiers),
        fixed_damage_on_tick: def.fixed_damage_on_tick,
        heal_on_tick: def.heal_on_tick,
        heal_taken_multiplier: def.heal_taken_multiplier,
        evade_charges: def.evade_charges,
    };
    assert(status@ == status_from_def(*def, source, round));
    upsert_status_instance(board, status, stats)
}

/// The smallest heal-taken multiplier among the statuses that set one, if any.
pub open spec fn min_heal_multiplier(b: Seq<StatusView>) -> Option<int>
    decreases b.len(),
{
    if b.len() == 0 {
        None
    } else {
        let rest = min_heal_multiplier(b.drop_last());
        match b.last().heal_taken_multiplier {
            Some(m) => match rest {
                Some(r) => Some(min_int(r, m as int)),
                None => Some(m as int),
            },
            None => rest,
        }
    }
}

/// The multiplier (thousandths) applied to healing that this combatant receives: the smallest
/// one its statuses set, `1000` when none sets one.
pub open spec fn spec_heal_multiplier(b: Seq<StatusView>) -> int {
    match min_heal_multiplier(b) {
        Some(m) => m,
        None => 1000,
    }
}

proof fn lemma_min_heal_range(b: Seq<StatusView>)
    ensures
        match min_heal_multiplier(b) {
            Some(m) => -2147483648 <= m <= 2147483647,
            None => true,
        },
    decreases b.len(),
{
    if b.len() > 0 {
        lemma_min_heal_range(b.drop_last());
    }
}

pub fn heal_taken_multiplier(board: &StatusBoard) -> (m: i32)
    ensures
        m == spec_heal_multiplier(board@),
{
    let mut best: Option<i32> = None;
    let mut k: usize = 0;
    while k < board.entries.len()
        invariant
            k <= board.entries@.len(),
            match best {
                Some(v) => min_heal_multiplier(entries_view(board.entries@.subrange(0, k as int)))
                    == Some(v as int),
                None => min_heal_multiplier(entries_view(board.entries@.subrange(0, k as int)))
                    is None,
            },
        decreases board.entries@.len() - k,
    {
        proof {
            let nxt = entries_view(board.entries@.subrange(0, k + 1));
            assert(nxt.drop_last() =~= entries_view(board.entries@.subrange(0, k as int)));
            assert(nxt.last() == board.entries@[k as int]@);
        }
        if let Some(m) = board.entries[k].heal_taken_multiplier {
            best = match best {
                Some(v) => Some(
                    if v <= m {
                        v
                    } else {
                        m
                    },
                ),
                None => Some(m),
            };
        }
        k = k + 1;
    }
    assert(board.entries@.subrange(0, k as int) =~= board.entries@);
    match best {
        Some(v) => v,
        None => 1000,
    }
}

/// Index of the first status with an evasion charge left, or -1.
pub open spec fn first_evade_index(b: Seq<StatusView>) -> int
    decreases b.len(),
{
    if b.len() == 0 {
        -1
    } else if first_evade_index(b.drop_last()) >= 0 {
        first_evade_index(b.drop_last())
    } else if b.last().evade_charges > 0 {
        b.len() - 1
    } else {
        -1
    }
}

pub proof fn lemma_first_evade_index(b: Seq<StatusView>)
    ensures
        -1 <= first_evade_index(b) < b.len(),
        first_evade_index(b) >= 0 ==> b[first_evade_index(b)].evade_charges > 0,
        first_evade_index(b) >= 0 ==> forall|k: int|
            0 <= k < first_evade_index(b) ==> #[trigger] b[k].evade_charges <= 0,
        first_evade_index(b) == -1 ==> forall|k: int| 0 <= k < b.len() ==> #[trigger] b[k].evade_charges
            <= 0,
    decreases b.len(),
{
    if b.len() > 0 {
        let p = b.drop_last();
        lemma_first_evade_index(p);
        assert forall|k: int| 0 <= k < p.len() implies #[trigger] b[k] == p[k] by {}
    }
}

/// The board after one evasion charge of the first status holding one is used up.
pub open spec fn spec_consume_evade(b: Seq<StatusView>) -> Seq<StatusView> {
    let i = first_evade_index(b);
    if i >= 0 {
        b.update(i, StatusView { evade_charges: (b[i].evade_charges - 1) as i32, ..b[i] })
    } else {
        b
    }
}

fn find_evade(board: &StatusBoard) -> (r: Option<usize>)
    ensures
        match r {
            Some(i) => i as int == first_evade_index(board@) && i < board@.len()
                && board@[i as int].evade_charges > 0,
            None => first_evade_index(board@) == -1,
        },
{
    proof {
        lemma_first_evade_index(board@);
    }
    let mut k: usize = 0;
    while k < board.entries.len()
        invariant
            k <= board.entries@.len(),
            -1 <= first_evade_index(board@) < board@.len(),
            first_evade_index(board@) >= 0 ==> board@[first_evade_index(board@)].evade_charges > 0,
            first_evade_index(board@) >= 0 ==> forall|m: int|
                0 <= m < first_evade_index(board@) ==> #[trigger] board@[m].evade_charges <= 0,
            first_evade_index(board@) == -1 ==> forall|m: int|
                0 <= m < board@.len() ==> #[trigger] board@[m].evade_charges <= 0,
            forall|m: int| 0 <= m < k ==> #[trigger] board@[m].evade_charges <= 0,
        decreases board.entries@.len() - k,
    {
        if board.entries[k].evade_charges > 0 {
            assert(board@[k as int].evade_charges > 0);
            return Some(k);
        }
        k = k + 1;
    }
    None
}

/// Whether some status still holds an evasion charge.
pub fn has_evade_charge(board: &StatusBoard) -> (b: bool)
    ensures
        b == (first_evade_index(board@) >= 0),
{
    find_evade(board).is_some()
}

/// Uses up one evasion charge of the first status holding one; gives that status's id.
pub fn try_consume_evade_charge(board: &mut StatusBoard) -> (r: Option<String>)
    ensures
        final(board)@ == spec_consume_evade(old(board)@),
        match r {
            Some(id) => first_evade_index(old(board)@) >= 0 && id@ == old(board)@[first_evade_index(
                old(board)@,
            )].id,
            None => first_evade_index(old(board)@) == -1,
        },
{
    match find_evade(board) {
        Some(i) => {
            let mut entry = board.entries.remove(i);
            let ghost before = entry@;
            entry.evade_charges = entry.evade_charges - 1;
            let id = entry.id.clone();
            board.entries.insert(i, entry);
            assert(board@ =~= spec_consume_evade(old(board)@));
            Some(id)
        },
        None => None,
    }
}

/// Moves the status `id` (if the giver has it) from one combatant to another, recomputing both
/// stage shifts.
pub fn transfer_status_by_id(
    from: &mut StatusBoard,
    from_stats: &mut Stats,
    to: &mut StatusBoard,
    to_stats: &mut Stats,
    id: &str,
)
    ensures
        match (first_index(old(from)@, id@)) {
            i => if i >= 0 {
                &&& final(from)@ == old(from)@.remove(i)
                &&& *final(from_stats) == spec_recalc(*old(from_stats), final(from)@)
                &&& final(to)@ == spec_upsert(old(to)@, old(from)@[i])
                &&& *final(to_stats) == spec_recalc(*old(to_stats), final(to)@)
            } else {
                &&& final(from)@ == old(from)@
                &&& *final(from_stats) == *old(from_stats)
                &&& final(to)@ == old(to)@
                &&& *final(to_stats) == *old(to_stats)
            },
        },
{
    proof {
        lemma_first_index(old(from)@, id@);
    }
    match find_status(from, id) {
        Some(i) => {
            let entry = from.entries.remove(i);
            assert(from@ =~= old(from)@.remove(i as int));
            recalculate_stage_modifiers(from_stats, from);
            let _ = upsert_status_instance(to, entry, to_stats);
        },
        None => {},
    }
}

} // verus!
