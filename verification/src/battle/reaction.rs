//! Statuses by id, aura statuses, element reactions and element attachment.
use vstd::prelude::*;

use super::damage::{
    apply_damage_with_shield, heal_target, spec_absorbed, spec_damage_events, spec_hp_after,
    spec_hp_damage, spec_hp_healed, spec_scaled, with_hp,
};
use super::model::{DamageType, 
    aura_elems, aura_from_list, emit, events_view, BattleEvent, CombatState, CombatView, EventView, Side, StatusView,
};
use super::status::{
    apply_status_from_def, first_index, has_status, remove_status_by_id, spec_has_status,
    spec_heal_multiplier, spec_recalc, spec_upsert, status_from_def, heal_taken_multiplier,
};
use super::ticks::{aura_status_id, spec_aura_status_id};
use crate::data::{ElementType, ReactionDb, ReactionDef, StatusDb};

verus! {

/// The combatant after the status `id` is applied from the database (unchanged when `id` is not
/// defined).
pub open spec fn sv_apply_status(
    cv: CombatView,
    id: Seq<char>,
    db: StatusDb,
    source: Side,
    round: u32,
) -> CombatView {
    match db.lookup(id) {
        Some(def) => {
            let b = spec_upsert(cv.statuses, status_from_def(def, source, round));
            CombatView { statuses: b, stats: spec_recalc(cv.stats, b), ..cv }
        },
        None => cv,
    }
}

/// The combatant after the status `id` is taken off (unchanged when it has none).
pub open spec fn sv_clear_status(cv: CombatView, id: Seq<char>) -> CombatView {
    if spec_has_status(cv.statuses, id) {
        let b = cv.statuses.remove(first_index(cv.statuses, id));
        CombatView { statuses: b, stats: spec_recalc(cv.stats, b), ..cv }
    } else {
        cv
    }
}

/// Applies a status defined in the database to a combatant; says whether `id` was defined.
pub fn apply_status_by_id(
    status_id: &str,
    source: Side,
    state: &mut CombatState,
    db: &StatusDb,
    round: u32,
) -> (applied: bool)
    ensures
        applied == db.lookup(status_id@) is Some,
        final(state)@ == sv_apply_status(old(state)@, status_id@, *db, source, round),
        final(state).aura == old(state).aura,
        final(state).shield == old(state).shield,
{
    match db.get(status_id) {
        Some(def) => {
            let _ = apply_status_from_def(&mut state.statuses, &mut state.stats, def, source, round);
            true
        },
        None => false,
    }
}

/// Takes the status `id` off a combatant; says whether it had one.
pub fn clear_status_by_id(status_id: &str, state: &mut CombatState) -> (removed: bool)
    ensures
        removed == spec_has_status(old(state)@.statuses, status_id@),
        final(state)@ == sv_clear_status(old(state)@, status_id@),
        final(state).aura == old(state).aura,
        final(state).shield == old(state).shield,
{
    remove_status_by_id(&mut state.statuses, &mut state.stats, status_id)
}

/// One step of the aura-status sync: the marker status of `e` is applied when `e` is attached,
/// else taken off.
pub open spec fn sync_one(
    cv: CombatView,
    e: ElementType,
    aura: Seq<ElementType>,
    db: StatusDb,
    source: Side,
    round: u32,
) -> CombatView {
    let id = spec_aura_status_id(e)->0;
    if aura.contains(e) {
        sv_apply_status(cv, id, db, source, round)
    } else {
        sv_clear_status(cv, id)
    }
}

/// Makes the marker statuses (burning, wet, thorn, paralysis) follow the attached elements.
pub open spec fn sv_sync_aura(
    cv: CombatView,
    aura: Seq<ElementType>,
    db: StatusDb,
    source: Side,
    round: u32,
) -> CombatView {
    let c1 = sync_one(cv, ElementType::Fire, aura, db, source, round);
    let c2 = sync_one(c1, ElementType::Water, aura, db, source, round);
    let c3 = sync_one(c2, ElementType::Grass, aura, db, source, round);
    sync_one(c3, ElementType::Thunder, aura, db, source, round)
}

fn contains_elem(list: &Vec<ElementType>, e: ElementType) -> (b: bool)
    ensures
        b == list@.contains(e),
{
    let mut k: usize = 0;
    while k < list.len()
        invariant
            k <= list@.len(),
            forall|m: int| 0 <= m < k ==> list@[m] != e,
        decreases list@.len() - k,
    {
        if list[k] == e {
            assert(list@[k as int] == e);
            return true;
        }
        k = k + 1;
    }
    false
}

fn sync_one_exec(
    state: &mut CombatState,
    e: ElementType,
    aura: &Vec<ElementType>,
    db: &StatusDb,
    source: Side,
    round: u32,
)
    requires
        spec_aura_status_id(e) is Some,
    ensures
        final(state)@ == sync_one(old(state)@, e, aura@, *db, source, round),
        final(state).aura == old(state).aura,
        final(state).shield == old(state).shield,
{
    let id = aura_status_id(e).unwrap();
    if contains_elem(aura, e) {
        let _ = apply_status_by_id(id, source, state, db, round);
    } else {
        let _ = clear_status_by_id(id, state);
    }
}

pub fn sync_aura_status(
    aura: &Vec<ElementType>,
    source: Side,
    state: &mut CombatState,
    db: &StatusDb,
    round: u32,
)
    ensures
        final(state)@ == sv_sync_aura(old(state)@, aura@, *db, source, round),
        final(state).aura == old(state).aura,
        final(state).shield == old(state).shield,
{
    sync_one_exec(state, ElementType::Fire, aura, db, source, round);
    sync_one_exec(state, ElementType::Water, aura, db, source, round);
    sync_one_exec(state, ElementType::Grass, aura, db, source, round);
    sync_one_exec(state, ElementType::Thunder, aura, db, source, round);
}

/// Whether `r` fires when `incoming` hits a target with auras `auras` and statuses `st`: the
/// trigger element matches, at most two required elements, the incoming element among them (when
/// any is required), every other required element attached, every required status present.
pub open spec fn spec_reaction_matches(
    r: ReactionDef,
    auras: Seq<ElementType>,
    st: Seq<StatusView>,
    incoming: ElementType,
) -> bool {
    let req = r.required_elements@;
    &&& r.trigger_element == incoming
    &&& req.len() <= 2
    &&& (req.len() == 0 || req.contains(incoming))
    &&& forall|i: int| 0 <= i < req.len() && req[i] != incoming ==> auras.contains(#[trigger] req[i])
    &&& forall|j: int|
        0 <= j < r.required_statuses@.len() ==> spec_has_status(
            st,
            #[trigger] r.required_statuses@[j]@,
        )
}

/// Index of the first reaction of the database that fires, or -1.
pub open spec fn first_reaction(
    rs: Seq<ReactionDef>,
    auras: Seq<ElementType>,
    st: Seq<StatusView>,
    incoming: ElementType,
) -> int
    decreases rs.len(),
{
    if rs.len() == 0 {
        -1
    } else if first_reaction(rs.drop_last(), auras, st, incoming) >= 0 {
        first_reaction(rs.drop_last(), auras, st, incoming)
    } else if spec_reaction_matches(rs.last(), auras, st, incoming) {
        rs.len() - 1
    } else {
        -1
    }
}

proof fn lemma_first_reaction(
    rs: Seq<ReactionDef>,
    auras: Seq<ElementType>,
    st: Seq<StatusView>,
    incoming: ElementType,
)
    ensures
        -1 <= first_reaction(rs, auras, st, incoming) < rs.len(),
    decreases rs.len(),
{
    if rs.len() > 0 {
        lemma_first_reaction(rs.drop_last(), auras, st, incoming);
    }
}

pub fn reaction_matches(
    r: &ReactionDef,
    auras: &Vec<ElementType>,
    st: &super::model::StatusBoard,
    incoming: ElementType,
) -> (b: bool)
    ensures
        b == spec_reaction_matches(*r, auras@, st@, incoming),
{
    if r.trigger_element != incoming {
        return false;
    }
    if r.required_elements.len() > 2 {
        return false;
    }
    if r.required_elements.len() != 0 && !contains_elem(&r.required_elements, incoming) {
        return false;
    }
    let req = &r.required_elements;
    let mut i: usize = 0;
    while i < req.len()
        invariant
            req@ == r.required_elements@,
            i <= req@.len(),
            forall|m: int| 0 <= m < i && req@[m] != incoming ==> auras@.contains(#[trigger] req@[m]),
        decreases req@.len() - i,
    {
        if req[i] != incoming && !contains_elem(auras, req[i]) {
            assert(req@[i as int] != incoming && !auras@.contains(req@[i as int]));
            return false;
        }
        i = i + 1;
    }
    let rs = &r.required_statuses;
    let mut j: usize = 0;
    while j < rs.len()
        invariant
            rs@ == r.required_statuses@,
            j <= rs@.len(),
            forall|m: int| 0 <= m < j ==> spec_has_status(st@, #[trigger] rs@[m]@),
        decreases rs@.len() - j,
    {
        if !has_status(st, rs[j].as_str()) {
            assert(!spec_has_status(st@, rs@[j as int]@));
            return false;
        }
        j = j + 1;
    }
    true
}

/// The first reaction that fires, by index.
pub fn detect_element_reaction(
    db: &ReactionDb,
    auras: &Vec<ElementType>,
    st: &super::model::StatusBoard,
    incoming: ElementType,
) -> (r: Option<usize>)
    ensures
        match r {
            Some(i) => i as int == first_reaction(db.reactions@, auras@, st@, incoming) && i
                < db.reactions@.len(),
            None => first_reaction(db.reactions@, auras@, st@, incoming) == -1,
        },
{
    let rs = &db.reactions;
    let mut k: usize = 0;
    while k < rs.len()
        invariant
            rs@ == db.reactions@,
            k <= rs@.len(),
            first_reaction(rs@.subrange(0, k as int), auras@, st@, incoming) == -1,
        decreases rs@.len() - k,
    {
        let ghost pre = rs@.subrange(0, k as int);
        let ghost nxt = rs@.subrange(0, k + 1);
        assert(nxt.drop_last() =~= pre);
        assert(nxt.last() == rs@[k as int]);
        if reaction_matches(&rs[k], auras, st, incoming) {
            assert(first_reaction(nxt, auras@, st@, incoming) == k);
            proof {
                lemma_first_reaction_prefix(rs@, auras@, st@, incoming, k as int + 1);
            }
            return Some(k);
        }
        k = k + 1;
    }
    assert(rs@.subrange(0, k as int) =~= rs@);
    None
}

/// Once a prefix already has a firing reaction, longer sequences find the same one.
proof fn lemma_first_reaction_prefix(
    rs: Seq<ReactionDef>,
    auras: Seq<ElementType>,
    st: Seq<StatusView>,
    incoming: ElementType,
    n: int,
)
    requires
        0 <= n <= rs.len(),
        first_reaction(rs.subrange(0, n), auras, st, incoming) >= 0,
    ensures
        first_reaction(rs, auras, st, incoming) == first_reaction(rs.subrange(0, n), auras, st, incoming),
    decreases rs.len() - n,
{
    if n == rs.len() {
        assert(rs.subrange(0, n) =~= rs);
    } else {
        assert(rs.subrange(0, n + 1).drop_last() =~= rs.subrange(0, n));
        lemma_first_reaction_prefix(rs, auras, st, incoming, n + 1);
    }
}

/// The elements that attach to a target whose only fitting reaction is none: the incoming
/// element is added (the oldest is pushed out when two are attached) unless already present.
pub open spec fn plain_attach(from: Seq<ElementType>, incoming: ElementType) -> Seq<ElementType> {
    if from.contains(incoming) {
        from
    } else if from.len() >= 2 {
        from.drop_first().push(incoming)
    } else {
        from.push(incoming)
    }
}

/// The elements that can attach as auras: fire, water, grass and thunder.
pub open spec fn spec_supports_attachment(e: ElementType) -> bool {
    e == ElementType::Fire || e == ElementType::Water || e == ElementType::Grass || e
        == ElementType::Thunder
}

pub fn supports_normal_attachment(e: ElementType) -> (b: bool)
    ensures
        b == spec_supports_attachment(e),
{
    e == ElementType::Fire || e == ElementType::Water || e == ElementType::Grass || e
        == ElementType::Thunder
}

/// Which reaction (by index) an incoming element triggers, if it attaches at all.
pub open spec fn attach_reaction(
    from: Seq<ElementType>,
    incoming: ElementType,
    st: Seq<StatusView>,
    db: ReactionDb,
) -> int {
    if spec_supports_attachment(incoming) {
        first_reaction(db.reactions@, from, st, incoming)
    } else {
        -1
    }
}

/// The candidate aura list after an element hits.
pub open spec fn attach_candidate(
    from: Seq<ElementType>,
    incoming: ElementType,
    st: Seq<StatusView>,
    db: ReactionDb,
) -> Seq<ElementType> {
    if !spec_supports_attachment(incoming) {
        from
    } else {
        let i = first_reaction(db.reactions@, from, st, incoming);
        if i >= 0 {
            db.reactions@[i].aura_results@
        } else {
            plain_attach(from, incoming)
        }
    }
}

/// Clearing each listed status in turn.
pub open spec fn sv_clear_all(cv: CombatView, ids: Seq<String>) -> CombatView
    decreases ids.len(),
{
    if ids.len() == 0 {
        cv
    } else {
        sv_clear_status(sv_clear_all(cv, ids.drop_last()), ids.last()@)
    }
}

/// Applying each listed status in turn.
pub open spec fn sv_apply_all(
    cv: CombatView,
    ids: Seq<String>,
    db: StatusDb,
    source: Side,
    round: u32,
) -> CombatView
    decreases ids.len(),
{
    if ids.len() == 0 {
        cv
    } else {
        sv_apply_status(sv_apply_all(cv, ids.drop_last(), db, source, round), ids.last()@, db, source, round)
    }
}

fn clear_all(state: &mut CombatState, ids: &Vec<String>)
    ensures
        final(state)@ == sv_clear_all(old(state)@, ids@),
        final(state).aura == old(state).aura,
        final(state).shield == old(state).shield,
{
    let mut k: usize = 0;
    while k < ids.len()
        invariant
            k <= ids@.len(),
            state@ == sv_clear_all(old(state)@, ids@.subrange(0, k as int)),
            state.aura == old(state).aura,
            state.shield == old(state).shield,
        decreases ids@.len() - k,
    {
        proof {
            assert(ids@.subrange(0, k + 1).drop_last() =~= ids@.subrange(0, k as int));
        }
        let _ = clear_status_by_id(ids[k].as_str(), state);
        k = k + 1;
    }
    assert(ids@.subrange(0, k as int) =~= ids@);
}

fn apply_all(state: &mut CombatState, ids: &Vec<String>, db: &StatusDb, source: Side, round: u32)
    ensures
        final(state)@ == sv_apply_all(old(state)@, ids@, *db, source, round),
        final(state).aura == old(state).aura,
        final(state).shield == old(state).shield,
{
    let mut k: usize = 0;
    while k < ids.len()
        invariant
            k <= ids@.len(),
            state@ == sv_apply_all(old(state)@, ids@.subrange(0, k as int), *db, source, round),
            state.aura == old(state).aura,
            state.shield == old(state).shield,
        decreases ids@.len() - k,
    {
        proof {
            assert(ids@.subrange(0, k + 1).drop_last() =~= ids@.subrange(0, k as int));
        }
        let _ = apply_status_by_id(ids[k].as_str(), source, state, db, round);
        k = k + 1;
    }
    assert(ids@.subrange(0, k as int) =~= ids@);
}

/// What an element attachment changes: both combatants and the events.
pub ghost struct AttachView {
    pub attacker: CombatView,
    pub target: CombatView,
    pub events: Seq<EventView>,
}

/// The state after the target's attached elements are replaced: the statuses the reaction
/// clears go first, the aura is set, the marker statuses follow it, then the reaction's statuses
/// are applied.
pub open spec fn attach_target_part(
    target: CombatView,
    from: Seq<ElementType>,
    incoming: ElementType,
    source: Side,
    sdb: StatusDb,
    rdb: ReactionDb,
    round: u32,
) -> CombatView {
    let i = attach_reaction(from, incoming, target.statuses, rdb);
    let to = attach_candidate(from, incoming, target.statuses, rdb);
    let c1 = if i >= 0 {
        sv_clear_all(target, rdb.reactions@[i].clear_statuses@)
    } else {
        target
    };
    let c2 = CombatView { aura: aura_from_list(to), ..c1 };
    let c3 = sv_sync_aura(c2, aura_elems(c2.aura), sdb, source, round);
    if i >= 0 {
        sv_apply_all(c3, rdb.reactions@[i].apply_statuses@, sdb, source, round)
    } else {
        c3
    }
}

/// An element attachment on `target` by `incoming` from the attacker's side: the aura changes
/// (or a reaction fires: its statuses are cleared and applied, its fixed damage goes through the
/// target's shield, its heal goes to the attacker), and an aura-change event is reported with
/// `effectiveness` when the attached elements changed.
pub open spec fn spec_attach(
    s: AttachView,
    incoming: ElementType,
    attacker_side: Side,
    target_side: Side,
    effectiveness: i32,
    sdb: StatusDb,
    rdb: ReactionDb,
    round: u32,
) -> AttachView {
    let from = aura_elems(s.target.aura);
    let i = attach_reaction(from, incoming, s.target.statuses, rdb);
    let t3 = attach_target_part(s.target, from, incoming, attacker_side, sdb, rdb, round);
    let to = aura_elems(t3.aura);
    let fixed = if i >= 0 {
        rdb.reactions@[i].fixed_damage as int
    } else {
        0
    };
    let heal = if i >= 0 {
        rdb.reactions@[i].heal_attacker as int
    } else {
        0
    };
    let absorbed = spec_absorbed(t3.shield as int, fixed);
    let hp_damage = spec_hp_damage(t3.shield as int, fixed);
    let t4 = if fixed > 0 {
        CombatView {
            stats: with_hp(t3.stats, spec_hp_after(t3.stats.hp as int, hp_damage)),
            shield: if absorbed > 0 {
                (t3.shield - absorbed) as i32
            } else {
                t3.shield
            },
            ..t3
        }
    } else {
        t3
    };
    let e4 = if fixed > 0 {
        spec_damage_events(s.events, attacker_side, target_side, t3.shield as int, fixed, DamageType::Fixed)
    } else {
        s.events
    };
    let hv = spec_scaled(heal, spec_heal_multiplier(s.attacker.statuses));
    let new_hp = spec_hp_healed(s.attacker.stats.hp as int, s.attacker.stats.max_hp as int, hv);
    let a5 = if heal > 0 {
        CombatView { stats: with_hp(s.attacker.stats, new_hp), ..s.attacker }
    } else {
        s.attacker
    };
    let e5 = if heal > 0 {
        e4.push(
            EventView::Healed {
                side: attacker_side,
                amount: crate::arith::sat_i32(new_hp - s.attacker.stats.hp) as i32,
            },
        )
    } else {
        e4
    };
    let e6 = if from != to {
        e5.push(
            EventView::ElementAuraApplied { side: target_side, from, to, effectiveness },
        )
    } else {
        e5
    };
    AttachView { attacker: a5, target: t4, events: e6 }
}

/// The name of the reaction an attachment fires, if any.
pub open spec fn attach_reaction_name(
    target: CombatView,
    incoming: ElementType,
    rdb: ReactionDb,
) -> Option<Seq<char>> {
    let i = attach_reaction(aura_elems(target.aura), incoming, target.statuses, rdb);
    if i >= 0 {
        Some(rdb.reactions@[i].name@)
    } else {
        None
    }
}

/// The HP damage that the fired reaction's fixed damage does to the target (0 when none fires or
/// its fixed damage is not positive).
pub open spec fn attach_hp_damage(
    target: CombatView,
    incoming: ElementType,
    source: Side,
    sdb: StatusDb,
    rdb: ReactionDb,
    round: u32,
) -> int {
    let from = aura_elems(target.aura);
    let i = attach_reaction(from, incoming, target.statuses, rdb);
    let t3 = attach_target_part(target, from, incoming, source, sdb, rdb, round);
    if i >= 0 && rdb.reactions@[i].fixed_damage > 0 {
        spec_hp_damage(t3.shield as int, rdb.reactions@[i].fixed_damage as int)
    } else {
        0
    }
}

/// The element an attachment pushes out of a full aura: the oldest one, when an element that can
/// attach, fires no reaction and is not attached yet meets two attached elements.
pub open spec fn attach_evicted(target: CombatView, incoming: ElementType, rdb: ReactionDb) -> Option<ElementType> {
    let from = aura_elems(target.aura);
    if spec_supports_attachment(incoming) && attach_reaction(from, incoming, target.statuses, rdb) < 0
        && !from.contains(incoming) && from.len() >= 2 {
        Some(from[0])
    } else {
        None
    }
}

/// Resolves an element hitting `target` (see `spec_attach`); gives the fired reaction's name, the
/// HP damage its fixed damage did, the elements attached before, and the element pushed out of a
/// full aura (see `attach_evicted`).
pub fn attach_element(
    incoming: ElementType,
    attacker_side: Side,
    target_side: Side,
    effectiveness: i32,
    attacker: &mut CombatState,
    target: &mut CombatState,
    sdb: &StatusDb,
    rdb: &ReactionDb,
    round: u32,
    events: &mut Vec<BattleEvent>,
) -> (r: (Option<String>, i32, Vec<ElementType>, Option<ElementType>))
    ensures
        ({
            let s = spec_attach(
                AttachView {
                    attacker: old(attacker)@,
                    target: old(target)@,
                    events: events_view(old(events)@),
                },
                incoming,
                attacker_side,
                target_side,
                effectiveness,
                *sdb,
                *rdb,
                round,
            );
            &&& final(attacker)@ == s.attacker
            &&& final(target)@ == s.target
            &&& events_view(final(events)@) == s.events
        }),
        match r.0 {
            Some(n) => attach_reaction_name(old(target)@, incoming, *rdb) == Some(n@),
            None => attach_reaction_name(old(target)@, incoming, *rdb) is None,
        },
        r.1 == attach_hp_damage(old(target)@, incoming, attacker_side, *sdb, *rdb, round),
        r.2@ == aura_elems(old(target)@.aura),
        r.3 == attach_evicted(old(target)@, incoming, *rdb),
{
    let from = target.aura.elements();
    let ghost t0 = target@;
    let mut reaction: Option<usize> = None;
    let mut to: Vec<ElementType> = Vec::new();
    if supports_normal_attachment(incoming) {
        reaction = detect_element_reaction(rdb, &from, &target.statuses, incoming);
        match reaction {
            Some(i) => {
                to = clone_elems(&rdb.reactions[i].aura_results);
            },
            None => {
                to = plain_attach_exec(&from, incoming);
            },
        }
    } else {
        to = clone_elems(&from);
    }
    assert(to@ == attach_candidate(from@, incoming, t0.statuses, *rdb));
    if let Some(i) = reaction {
        clear_all(target, &rdb.reactions[i].clear_statuses);
    }
    target.aura.set_elements(&to);
    let after = target.aura.elements();
    sync_aura_status(&after, attacker_side, target, sdb, round);
    if let Some(i) = reaction {
        apply_all(target, &rdb.reactions[i].apply_statuses, sdb, attacker_side, round);
    }
    assert(target@ == attach_target_part(t0, from@, incoming, attacker_side, *sdb, *rdb, round));
    let ghost i_spec = attach_reaction(from@, incoming, t0.statuses, *rdb);
    assert(match reaction {
        Some(i) => i as int == i_spec && i_spec >= 0,
        None => i_spec < 0,
    });
    let evicted = if supports_normal_attachment(incoming) && reaction.is_none() && !contains_elem(&from, incoming)
        && from.len() >= 2 {
        Some(from[0])
    } else {
        None
    };
    let ghost t3 = target@;
    let ghost a0 = attacker@;
    let ghost ev0 = events_view(events@);
    assert(after@ == aura_elems(t3.aura));
    let mut fixed: i32 = 0;
    let mut heal: i32 = 0;
    let mut name: Option<String> = None;
    if let Some(i) = reaction {
        fixed = rdb.reactions[i].fixed_damage;
        heal = rdb.reactions[i].heal_attacker;
        name = Some(rdb.reactions[i].name.clone());
    }
    let mut hp_damage: i32 = 0;
    if fixed > 0 {
        let (_a, h) = apply_damage_with_shield(
            attacker_side,
            target_side,
            fixed,
            &mut target.stats,
            &mut target.shield,
            events,
            DamageType::Fixed,
        );
        hp_damage = h;
    }
    if heal > 0 {
        let m = heal_taken_multiplier(&attacker.statuses);
        let _ = heal_target(attacker_side, heal, m, &mut attacker.stats, events);
    }
    assert(attacker@.stats.hp == (if heal > 0 {
        spec_hp_healed(a0.stats.hp as int, a0.stats.max_hp as int, spec_scaled(heal as int, spec_heal_multiplier(a0.statuses)))
    } else {
        a0.stats.hp as int
    }));
    let changed = !elems_eq(&from, &after);
    if changed {
        let from_copy = clone_elems(&from);
        let to_copy = clone_elems(&after);
        emit(
            events,
            BattleEvent::ElementAuraApplied {
                side: target_side,
                from: from_copy,
                to: to_copy,
                effectiveness,
            },
        );
    }
    (name, hp_damage, from, evicted)
}

pub fn clone_elems(list: &Vec<ElementType>) -> (r: Vec<ElementType>)
    ensures
        r@ == list@,
{
    let mut out: Vec<ElementType> = Vec::new();
    let mut k: usize = 0;
    while k < list.len()
        invariant
            k <= list@.len(),
            out@ == list@.subrange(0, k as int),
        decreases list@.len() - k,
    {
        out.push(list[k]);
        k = k + 1;
        assert(out@ =~= list@.subrange(0, k as int));
    }
    assert(list@.subrange(0, k as int) =~= list@);
    out
}

pub fn elems_eq(a: &Vec<ElementType>, b: &Vec<ElementType>) -> (r: bool)
    ensures
        r == (a@ == b@),
{
    if a.len() != b.len() {
        return false;
    }
    let mut k: usize = 0;
    while k < a.len()
        invariant
            a@.len() == b@.len(),
            k <= a@.len(),
            forall|m: int| 0 <= m < k ==> a@[m] == b@[m],
        decreases a@.len() - k,
    {
        if a[k] != b[k] {
            return false;
        }
        k = k + 1;
    }
    assert(a@ =~= b@);
    true
}

fn plain_attach_exec(from: &Vec<ElementType>, incoming: ElementType) -> (r: Vec<ElementType>)
    ensures
        r@ == plain_attach(from@, incoming),
{
    if contains_elem(from, incoming) {
        clone_elems(from)
    } else if from.len() >= 2 {
        let mut out: Vec<ElementType> = Vec::new();
        let mut k: usize = 1;
        while k < from.len()
            invariant
                1 <= k <= from@.len(),
                out@ == from@.subrange(1, k as int),
            decreases from@.len() - k,
        {
            out.push(from[k]);
            k = k + 1;
            assert(out@ =~= from@.subrange(1, k as int));
        }
        assert(from@.subrange(1, k as int) =~= from@.drop_first());
        out.push(incoming);
        out
    } else {
        let mut out = clone_elems(from);
        out.push(incoming);
        out
    }
}

} // verus!
