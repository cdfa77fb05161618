//! One frame of a side's turn: which of the controls pressed is acted on, in which order, and
//! what it does; what a remote battle's client predicts of its own actions; and what the enemy
//! AI's chosen plan does.
use vstd::prelude::*;

use super::cards::{
    card_name, discard_card_from_hand, find_card, gain_ap, spec_card_name, spec_find_card, spec_gain,
    ActionPoints, CardRules, Hand, PendingHandDiscard, PendingTacticalDiscard, SelectedCardState,
    SelectedCards,
};
use super::flow::{
    switch_in, switch_team, BattleControlMode, PendingKoResolution, RoundOrder, Team, TeamView,
    TurnContext,
};
use super::model::{emit, events_view, BattleEvent, EventView, PendingBoosts, Side};
use super::rng::AccuracyRng;
use super::turn::{
    card_key, check_skill, cleared_pick, discard_in_turn, discard_key, ended_for, finalize_turn,
    front_hp_down, pay_skill, side_end_team, spec_card_key, spec_check_skill,
    spec_next_phase_after_side_end, spec_switch_in_turn, spec_use_skill, spent_team, switch_in_turn,
    use_skill, CardKeyOutcome, SkillRefusal, SwitchOutcome,
};
use crate::arith::{min_int, sat_i32, to_i32_sat};
use crate::data::cards::{CardDef, CardId};
use crate::data::{BattleFormulaRules, ElementDb, ReactionDb, SkillDef, SkillId, StatusDb};
use crate::game_state::BattlePhase;

verus! {

/// The controls used in one frame of a side's turn, as the interface reads them.
#[derive(Debug, Clone, Copy, PartialEq, Eq, Structural)]
pub struct TurnInput {
    /// A skill chosen with the interface's skill buttons.
    pub ui_skill: Option<SkillId>,
    /// The member picked with the switch keys.
    pub switch_to: Option<usize>,
    /// The hand card of the first hand key pressed.
    pub card: Option<usize>,
    /// The key that ends the turn.
    pub end_turn: bool,
    /// The discard key.
    pub discard: bool,
    /// The skill slot picked with the skill keys.
    pub skill_slot: Option<usize>,
}

/// Why a battle cannot go on.
#[derive(Debug, Clone, Copy, PartialEq, Eq, Structural)]
pub enum AbortReason {
    /// A team has no members.
    EmptyTeam,
    /// The player's front index names no member.
    PlayerFrontMissing,
    /// The enemy's front index names no member.
    EnemyFrontMissing,
}

/// What one frame of a turn came to.
#[derive(Debug, Clone, Copy, PartialEq, Eq, Structural)]
pub enum TurnStep {
    /// Nothing was done.
    Idle,
    /// The battle cannot go on.
    Aborted(AbortReason),
    /// Refused: the side lacks the AP.
    NotEnoughAp,
    /// Refused: the skill has no use left this round.
    NoUsesLeft,
    /// Refused: the turn cannot end while the hand holds more than may be kept.
    HandFull,
    /// Something was done; the turn goes on.
    Acted,
    /// The enemy's skill is chosen; it is used in the next frame.
    Queued(SkillId),
    /// The battle goes on to this phase.
    Next(BattlePhase),
    /// The side must discard down to what it may keep first.
    Discard(PendingHandDiscard),
    /// The tactical discard waiting for the side lapses: its hand is empty.
    TacticalLapsed,
    /// The action goes to the host of a remote battle; its outcome is only predicted here.
    Sent(BattleIntent),
}

/// An action of the local player that a remote battle's host carries out.
#[derive(Debug, Clone, Copy, PartialEq, Eq, Structural)]
pub enum BattleIntent {
    Switch { target_index: usize },
    UseSkill { slot: usize },
    DiscardCard { card_index: usize },
    UseCard { card_index: usize },
    EndTurn,
}

/// How the local player's side takes part in the battle.
#[derive(Debug, Clone, Copy, PartialEq, Eq, Structural)]
pub enum RemoteLink {
    /// Its actions are carried out here (no remote battle, or this side hosts it).
    Local,
    /// It is a remote battle's client: its actions go to the host and are only predicted here.
    Client,
    /// It is a client whose last action still awaits the host's answer: nothing is done.
    Waiting,
}

/// The state that a frame of a turn reads and changes.
pub ghost struct TurnView {
    pub player: TeamView,
    pub enemy: TeamView,
    pub player_hand: Seq<CardId>,
    pub enemy_hand: Seq<CardId>,
    pub ap: ActionPoints,
    pub boosts: PendingBoosts,
    pub pending_ko: PendingKoResolution,
    pub turn: TurnContext,
    pub selected: SelectedCards,
    pub rng: u64,
    pub events: Seq<EventView>,
}

/// The state that a frame of a turn reads and changes.
#[derive(Debug)]
pub struct TurnState {
    pub player: Team,
    pub enemy: Team,
    pub hand: Hand,
    pub action_points: ActionPoints,
    pub pending_boosts: PendingBoosts,
    pub pending_ko: PendingKoResolution,
    pub turn: TurnContext,
    pub selected: SelectedCards,
    pub rng: AccuracyRng,
    pub events: Vec<BattleEvent>,
}

impl View for TurnState {
    type V = TurnView;

    open spec fn view(&self) -> TurnView {
        TurnView {
            player: self.player@,
            enemy: self.enemy@,
            player_hand: self.hand.player@,
            enemy_hand: self.hand.enemy@,
            ap: self.action_points,
            boosts: self.pending_boosts,
            pending_ko: self.pending_ko,
            turn: self.turn,
            selected: self.selected,
            rng: self.rng.state,
            events: events_view(self.events@),
        }
    }
}

impl TurnView {
    pub open spec fn team(self, side: Side) -> TeamView {
        match side {
            Side::Player => self.player,
            Side::Enemy => self.enemy,
        }
    }

    pub open spec fn held(self, side: Side) -> Seq<CardId> {
        match side {
            Side::Player => self.player_hand,
            Side::Enemy => self.enemy_hand,
        }
    }

    pub open spec fn with_team(self, side: Side, t: TeamView) -> TurnView {
        match side {
            Side::Player => TurnView { player: t, ..self },
            Side::Enemy => TurnView { enemy: t, ..self },
        }
    }

    pub open spec fn with_held(self, side: Side, h: Seq<CardId>) -> TurnView {
        match side {
            Side::Player => TurnView { player_hand: h, ..self },
            Side::Enemy => TurnView { enemy_hand: h, ..self },
        }
    }

    pub open spec fn foe(self, side: Side) -> TeamView {
        match side {
            Side::Player => self.enemy,
            Side::Enemy => self.player,
        }
    }
}

/// The first slot from `i` on among `skills` that holds `id`.
pub open spec fn skill_slot_from(skills: Seq<SkillId>, id: SkillId, i: int) -> Option<usize>
    decreases skills.len() - i,
{
    if i < 0 || i >= skills.len() {
        None
    } else if skills[i] == id {
        Some(i as usize)
    } else {
        skill_slot_from(skills, id, i + 1)
    }
}

/// The slot of a member that holds skill `id` (the first one).
pub fn find_skill_slot(skills: &Vec<SkillId>, id: SkillId) -> (r: Option<usize>)
    ensures
        r == skill_slot_from(skills@, id, 0),
{
    let mut i: usize = 0;
    while i < skills.len()
        invariant
            i <= skills@.len(),
            skill_slot_from(skills@, id, 0) == skill_slot_from(skills@, id, i as int),
        decreases skills@.len() - i,
    {
        if skills[i] == id {
            return Some(i);
        }
        i = i + 1;
    }
    None
}

/// A switch to member `target` in `side`'s turn (see `spec_switch_in_turn`).
pub open spec fn switch_step(side: Side, target: usize, v: TurnView) -> (TurnStep, TurnView) {
    let s = spec_switch_in_turn(side, target, v.team(side), v.ap, v.events);
    (
        match s.0 {
            SwitchOutcome::Ignored => TurnStep::Idle,
            SwitchOutcome::NotEnoughAp => TurnStep::NotEnoughAp,
            SwitchOutcome::Switched => TurnStep::Acted,
        },
        TurnView { ap: s.2, events: s.3, ..v.with_team(side, s.1) },
    )
}

/// The skill in `slot` used by `side`'s front member (see `spec_use_skill`).
pub open spec fn skill_step(
    side: Side,
    slot: usize,
    v: TurnView,
    skills: Seq<SkillDef>,
    rules: BattleFormulaRules,
    edb: ElementDb,
    sdb: StatusDb,
    rdb: ReactionDb,
    round: u32,
) -> (TurnStep, TurnView) {
    let s = spec_use_skill(
        side,
        slot,
        v.team(side),
        v.foe(side),
        skills,
        v.ap,
        v.boosts,
        v.rng,
        v.pending_ko,
        v.events,
        rules,
        edb,
        sdb,
        rdb,
        round,
    );
    (
        match s.0 {
            Err(SkillRefusal::NoSkill) => TurnStep::Idle,
            Err(SkillRefusal::NoUsesLeft) => TurnStep::NoUsesLeft,
            Err(SkillRefusal::NotEnoughAp) => TurnStep::NotEnoughAp,
            Ok(None) => TurnStep::Acted,
            Ok(Some(p)) => TurnStep::Next(p),
        },
        TurnView {
            ap: s.3,
            boosts: s.4,
            rng: s.5,
            pending_ko: s.6,
            events: s.7,
            ..v.with_team(side, s.1).with_team(super::model::spec_opposite(side), s.2)
        },
    )
}

/// A skill chosen in the interface: used from the first slot of the front member that holds
/// it; nothing happens when none does.
pub open spec fn ui_skill_step(
    side: Side,
    id: SkillId,
    v: TurnView,
    skills: Seq<SkillDef>,
    rules: BattleFormulaRules,
    edb: ElementDb,
    sdb: StatusDb,
    rdb: ReactionDb,
    round: u32,
) -> (TurnStep, TurnView) {
    let t = v.team(side);
    match skill_slot_from(t.members[t.active].skills, id, 0) {
        None => (TurnStep::Idle, v),
        Some(slot) => skill_step(side, slot, v, skills, rules, edb, sdb, rdb, round),
    }
}

/// Card `idx` discarded in `side`'s turn for one AP (see `discard_in_turn`).
pub open spec fn discard_step(side: Side, idx: usize, v: TurnView, cards: Seq<CardDef>) -> (TurnStep, TurnView) {
    let held = v.held(side);
    if idx >= held.len() {
        (TurnStep::Idle, v)
    } else {
        (
            TurnStep::Acted,
            TurnView {
                ap: v.ap.with(side, spec_gain(v.ap.of(side) as int, 1) as i32),
                selected: v.selected.with(side, cleared_pick()),
                events: v.events.push(EventView::CardDiscarded { side, card_name: spec_card_name(cards, held[idx as int]) }),
                ..v.with_held(side, held.remove(idx as int))
            },
        )
    }
}

/// The discard key in `side`'s turn (see `discard_key`).
pub open spec fn discard_key_step(side: Side, v: TurnView, cards: Seq<CardDef>) -> (TurnStep, TurnView) {
    let held = v.held(side);
    let pick = v.selected.of(side);
    if held.len() == 0 {
        (TurnStep::Idle, v)
    } else if pick.index is Some && pick.index->0 < held.len() {
        discard_step(side, pick.index->0, v, cards)
    } else {
        (
            TurnStep::Acted,
            TurnView {
                selected: v.selected.with(side, SelectedCardState { discard_armed: !pick.discard_armed, ..pick }),
                ..v
            },
        )
    }
}

/// The hand key for card `idx` in `side`'s turn (see `spec_card_key`).
pub open spec fn card_step(side: Side, idx: usize, v: TurnView, cards: Seq<CardDef>) -> (TurnStep, TurnView) {
    let s = spec_card_key(side, idx, v.held(side), v.ap, v.selected, v.player, v.enemy, v.pending_ko, cards, v.events);
    (
        match s.0 {
            CardKeyOutcome::Ignored => TurnStep::Idle,
            CardKeyOutcome::Discarded => TurnStep::Acted,
            CardKeyOutcome::Selected => TurnStep::Acted,
            CardKeyOutcome::NotEnoughAp => TurnStep::NotEnoughAp,
            CardKeyOutcome::Played(None) => TurnStep::Acted,
            CardKeyOutcome::Played(Some(p)) => TurnStep::Next(p),
        },
        TurnView { ap: s.2, selected: s.3, pending_ko: s.4, events: s.5, ..v.with_held(side, s.1) },
    )
}

/// The end of `side`'s turn (see `finalize_turn`).
pub open spec fn finalize_step(side: Side, v: TurnView, rules: CardRules, order: RoundOrder) -> (TurnStep, TurnView) {
    let own = v.team(side);
    let t = side_end_team(own.members, own.members.len(), side, v.boosts.of(side).next_heal_bonus as int, v.events);
    let own1 = TeamView { members: t.0, ..own };
    let next = spec_next_phase_after_side_end(order, side);
    let clamped = v.ap.with(side, min_int(v.ap.of(side) as int, rules.max_ap as int) as i32);
    let v1 = TurnView {
        events: t.2,
        boosts: super::cards::boosts_with(v.boosts, side, super::cards::action_cleared(v.boosts.of(side))),
        turn: ended_for(v.turn, side),
        ..v.with_team(side, own1)
    };
    if own1.active_hp() <= 0 {
        (TurnStep::Next(BattlePhase::CheckEnd), TurnView { ap: clamped, ..v1 })
    } else if v.held(side).len() > rules.max_retained_hand {
        (TurnStep::Discard(PendingHandDiscard { side, next_phase: next }), v1)
    } else {
        (TurnStep::Next(next), TurnView { ap: clamped, ..v1 })
    }
}

/// A client's switch to member `target`: checked as in `spec_switch_in_turn`; the switch (with
/// its AP) is predicted and sent, without a report.
pub open spec fn client_switch_step(target: usize, v: TurnView) -> (TurnStep, TurnView) {
    let t = v.player;
    if target >= t.members.len() || target == t.active {
        (TurnStep::Idle, v)
    } else if v.ap.player < 1 {
        (TurnStep::NotEnoughAp, v)
    } else {
        let r = switch_in(t, target as int);
        if r.1 {
            (
                TurnStep::Sent(BattleIntent::Switch { target_index: target }),
                TurnView { player: r.0, ap: v.ap.with(Side::Player, (v.ap.player - 1) as i32), ..v },
            )
        } else {
            (TurnStep::Idle, v)
        }
    }
}

/// A client's skill in `slot`: checked as in `spec_check_skill`; the AP and the use are
/// predicted and the skill is sent.
pub open spec fn client_skill_step(slot: usize, v: TurnView, skills: Seq<SkillDef>) -> (TurnStep, TurnView) {
    match spec_check_skill(Side::Player, slot, v.player, skills, v.ap) {
        Err(SkillRefusal::NoSkill) => (TurnStep::Idle, v),
        Err(SkillRefusal::NoUsesLeft) => (TurnStep::NoUsesLeft, v),
        Err(SkillRefusal::NotEnoughAp) => (TurnStep::NotEnoughAp, v),
        Ok(skill) => (
            TurnStep::Sent(BattleIntent::UseSkill { slot }),
            TurnView {
                player: spent_team(Side::Player, v.player, slot),
                ap: v.ap.with(Side::Player, sat_i32(v.ap.player - skill.cost_ap) as i32),
                ..v
            },
        ),
    }
}

/// A client's skill chosen in the interface (see `ui_skill_step`).
pub open spec fn client_ui_skill_step(id: SkillId, v: TurnView, skills: Seq<SkillDef>) -> (TurnStep, TurnView) {
    match skill_slot_from(v.player.members[v.player.active].skills, id, 0) {
        None => (TurnStep::Idle, v),
        Some(slot) => client_skill_step(slot, v, skills),
    }
}

/// A client's discard of card `idx`: the card leaving the hand for one AP and the cleared
/// selection are predicted and the discard is sent.
pub open spec fn client_discard_step(idx: usize, v: TurnView) -> (TurnStep, TurnView) {
    if idx >= v.player_hand.len() {
        (TurnStep::Idle, v)
    } else {
        (
            TurnStep::Sent(BattleIntent::DiscardCard { card_index: idx }),
            TurnView {
                player_hand: v.player_hand.remove(idx as int),
                ap: v.ap.with(Side::Player, spec_gain(v.ap.player as int, 1) as i32),
                selected: v.selected.with(Side::Player, cleared_pick()),
                ..v
            },
        )
    }
}

/// A client's discard key (see `discard_key_step`).
pub open spec fn client_discard_key_step(v: TurnView) -> (TurnStep, TurnView) {
    let pick = v.selected.player;
    if v.player_hand.len() == 0 {
        (TurnStep::Idle, v)
    } else if pick.index is Some && pick.index->0 < v.player_hand.len() {
        client_discard_step(pick.index->0, v)
    } else {
        (
            TurnStep::Acted,
            TurnView {
                selected: v.selected.with(Side::Player, SelectedCardState { discard_armed: !pick.discard_armed, ..pick }),
                ..v
            },
        )
    }
}

/// A client's hand key for card `idx` (see `spec_card_key`): a discard or a play is predicted
/// (the card leaves the hand, its cost is paid, the selection is cleared) and sent.
pub open spec fn client_card_step(idx: usize, v: TurnView, cards: Seq<CardDef>) -> (TurnStep, TurnView) {
    let held = v.player_hand;
    let pick = v.selected.player;
    if idx >= held.len() {
        (TurnStep::Idle, v)
    } else if pick.discard_armed {
        client_discard_step(idx, v)
    } else if pick.index != Some(idx) {
        (TurnStep::Acted, TurnView { selected: v.selected.with(Side::Player, SelectedCardState { index: Some(idx), ..pick }), ..v })
    } else {
        match spec_find_card(cards, held[idx as int]) {
            None => (TurnStep::Idle, v),
            Some(card) => if v.ap.player < card.cost_ap {
                (TurnStep::NotEnoughAp, v)
            } else {
                (
                    TurnStep::Sent(BattleIntent::UseCard { card_index: idx }),
                    TurnView {
                        player_hand: held.remove(idx as int),
                        ap: v.ap.with(Side::Player, sat_i32(v.ap.player - card.cost_ap) as i32),
                        selected: v.selected.with(Side::Player, cleared_pick()),
                        ..v
                    },
                )
            },
        }
    }
}

/// One frame of the player's turn. Nothing happens while a sent action awaits the host, or once
/// its turn has ended; the battle cannot go on when a team is empty or has no front member. Else
/// the first of these that applies is acted on: a switch key; a skill chosen in the interface;
/// while a tactical discard waits for the player, a hand key discards that card (other controls
/// wait); the end key, refused while the hand holds more than may be kept, and a pending end
/// request end the turn; the discard key; a hand key; a skill key. A client checks each action as
/// the host would, predicts what it changes and sends it (see the `client_..` steps; an end of
/// turn only drops the request).
pub open spec fn spec_player_step(
    link: RemoteLink,
    i: TurnInput,
    v: TurnView,
    tactical: Option<PendingTacticalDiscard>,
    order: RoundOrder,
    skills: Seq<SkillDef>,
    cards: Seq<CardDef>,
    rules: CardRules,
    formula_rules: BattleFormulaRules,
    edb: ElementDb,
    sdb: StatusDb,
    rdb: ReactionDb,
    round: u32,
) -> (TurnStep, TurnView) {
    let side = Side::Player;
    let client = link == RemoteLink::Client;
    if link == RemoteLink::Waiting || v.turn.player_ended {
        (TurnStep::Idle, v)
    } else if v.player.members.len() == 0 || v.enemy.members.len() == 0 {
        (TurnStep::Aborted(AbortReason::EmptyTeam), v)
    } else if !v.player.has_active() {
        (TurnStep::Aborted(AbortReason::PlayerFrontMissing), v)
    } else if !v.enemy.has_active() {
        (TurnStep::Aborted(AbortReason::EnemyFrontMissing), v)
    } else if i.switch_to is Some {
        if client {
            client_switch_step(i.switch_to->0, v)
        } else {
            switch_step(side, i.switch_to->0, v)
        }
    } else if i.ui_skill is Some {
        if client {
            client_ui_skill_step(i.ui_skill->0, v, skills)
        } else {
            ui_skill_step(side, i.ui_skill->0, v, skills, formula_rules, edb, sdb, rdb, round)
        }
    } else if tactical is Some && tactical->0.side == side {
        match i.card {
            Some(idx) => if client {
                client_discard_step(idx, v)
            } else {
                discard_step(side, idx, v, cards)
            },
            None => (TurnStep::Idle, v),
        }
    } else if i.end_turn && v.player_hand.len() > rules.max_retained_hand {
        (TurnStep::HandFull, v)
    } else if i.end_turn || v.turn.player_end_requested {
        if client {
            (
                TurnStep::Sent(BattleIntent::EndTurn),
                TurnView { turn: TurnContext { player_end_requested: false, ..v.turn }, ..v },
            )
        } else {
            finalize_step(side, v, rules, order)
        }
    } else if i.discard {
        if client {
            client_discard_key_step(v)
        } else {
            discard_key_step(side, v, cards)
        }
    } else if i.card is Some {
        if client {
            client_card_step(i.card->0, v, cards)
        } else {
            card_step(side, i.card->0, v, cards)
        }
    } else if i.skill_slot is Some {
        if client {
            client_skill_step(i.skill_slot->0, v, skills)
        } else {
            skill_step(side, i.skill_slot->0, v, skills, formula_rules, edb, sdb, rdb, round)
        }
    } else {
        (TurnStep::Idle, v)
    }
}

/// One frame of the enemy's turn under local control: nothing happens against the AI or once
/// its turn has ended; the battle cannot go on when a team has no front member. Else the first of
/// these that applies is acted on, where the keys count only when the enemy is not a remote
/// player: a switch key; while a tactical discard waits for the enemy, a hand key discards that
/// card (other controls wait); the discard key; a skill chosen in the interface; a hand key; a
/// skill key, which chooses the skill of that slot for the next frame; the end key or a pending
/// end request end the turn. The enemy's skill uses are not counted.
pub open spec fn spec_enemy_step(
    mode: BattleControlMode,
    i: TurnInput,
    v: TurnView,
    tactical: Option<PendingTacticalDiscard>,
    order: RoundOrder,
    skills: Seq<SkillDef>,
    cards: Seq<CardDef>,
    rules: CardRules,
    formula_rules: BattleFormulaRules,
    edb: ElementDb,
    sdb: StatusDb,
    rdb: ReactionDb,
    round: u32,
) -> (TurnStep, TurnView) {
    let side = Side::Enemy;
    let keys = mode != BattleControlMode::PlayerVsRemote;
    if mode == BattleControlMode::PlayerVsAi || v.turn.enemy_ended {
        (TurnStep::Idle, v)
    } else if !v.player.has_active() {
        (TurnStep::Aborted(AbortReason::PlayerFrontMissing), v)
    } else if !v.enemy.has_active() {
        (TurnStep::Aborted(AbortReason::EnemyFrontMissing), v)
    } else if keys && i.switch_to is Some {
        switch_step(side, i.switch_to->0, v)
    } else if keys && tactical is Some && tactical->0.side == side {
        match i.card {
            Some(idx) => discard_step(side, idx, v, cards),
            None => (TurnStep::Idle, v),
        }
    } else if keys && i.discard {
        discard_key_step(side, v, cards)
    } else if i.ui_skill is Some {
        ui_skill_step(side, i.ui_skill->0, v, skills, formula_rules, edb, sdb, rdb, round)
    } else if keys && i.card is Some {
        card_step(side, i.card->0, v, cards)
    } else if keys && i.skill_slot is Some {
        let front = v.enemy.members[v.enemy.active];
        if i.skill_slot->0 < front.skills.len() {
            (TurnStep::Queued(front.skills[i.skill_slot->0 as int]), v)
        } else {
            (TurnStep::Idle, v)
        }
    } else if (keys && i.end_turn) || v.turn.enemy_end_requested {
        finalize_step(side, v, rules, order)
    } else {
        (TurnStep::Idle, v)
    }
}

fn switch_exec(side: Side, target: usize, st: &mut TurnState) -> (r: TurnStep)
    requires
        old(st)@.player.has_active(),
        old(st)@.enemy.has_active(),
    ensures
        (r, final(st)@) == switch_step(side, target, old(st)@),
{
    let o = match side {
        Side::Player => switch_in_turn(side, target, &mut st.player, &mut st.action_points, &mut st.events),
        Side::Enemy => switch_in_turn(side, target, &mut st.enemy, &mut st.action_points, &mut st.events),
    };
    match o {
        SwitchOutcome::Ignored => TurnStep::Idle,
        SwitchOutcome::NotEnoughAp => TurnStep::NotEnoughAp,
        SwitchOutcome::Switched => TurnStep::Acted,
    }
}

fn skill_exec(
    side: Side,
    slot: usize,
    st: &mut TurnState,
    skills: &Vec<SkillDef>,
    formula_rules: &BattleFormulaRules,
    edb: &ElementDb,
    sdb: &StatusDb,
    rdb: &ReactionDb,
    round: u32,
) -> (r: TurnStep)
    requires
        old(st)@.player.has_active(),
        old(st)@.enemy.has_active(),
        formula_rules.sane(),
    ensures
        (r, final(st)@) == skill_step(side, slot, old(st)@, skills@, *formula_rules, *edb, *sdb, *rdb, round),
        final(st)@.player.has_active(),
        final(st)@.enemy.has_active(),
{
    let res = match side {
        Side::Player => use_skill(
            side,
            slot,
            &mut st.player,
            &mut st.enemy,
            skills,
            &mut st.action_points,
            &mut st.pending_boosts,
            formula_rules,
            &mut st.rng,
            edb,
            sdb,
            rdb,
            &mut st.pending_ko,
            &mut st.events,
            round,
        ),
        Side::Enemy => use_skill(
            side,
            slot,
            &mut st.enemy,
            &mut st.player,
            skills,
            &mut st.action_points,
            &mut st.pending_boosts,
            formula_rules,
            &mut st.rng,
            edb,
            sdb,
            rdb,
            &mut st.pending_ko,
            &mut st.events,
            round,
        ),
    };
    match res {
        Err(SkillRefusal::NoSkill) => TurnStep::Idle,
        Err(SkillRefusal::NoUsesLeft) => TurnStep::NoUsesLeft,
        Err(SkillRefusal::NotEnoughAp) => TurnStep::NotEnoughAp,
        Ok(None) => TurnStep::Acted,
        Ok(Some(p)) => TurnStep::Next(p),
    }
}

fn ui_skill_exec(
    side: Side,
    id: SkillId,
    st: &mut TurnState,
    skills: &Vec<SkillDef>,
    formula_rules: &BattleFormulaRules,
    edb: &ElementDb,
    sdb: &StatusDb,
    rdb: &ReactionDb,
    round: u32,
) -> (r: TurnStep)
    requires
        old(st)@.player.has_active(),
        old(st)@.enemy.has_active(),
        formula_rules.sane(),
    ensures
        (r, final(st)@) == ui_skill_step(side, id, old(st)@, skills@, *formula_rules, *edb, *sdb, *rdb, round),
{
    let found = match side {
        Side::Player => {
            let m = &st.player.combatants[st.player.active_index];
            assert(m@ == st@.player.members[st@.player.active]);
            find_skill_slot(&m.skills, id)
        },
        Side::Enemy => {
            let m = &st.enemy.combatants[st.enemy.active_index];
            assert(m@ == st@.enemy.members[st@.enemy.active]);
            find_skill_slot(&m.skills, id)
        },
    };
    match found {
        None => TurnStep::Idle,
        Some(slot) => skill_exec(side, slot, st, skills, formula_rules, edb, sdb, rdb, round),
    }
}

fn discard_exec(side: Side, idx: usize, st: &mut TurnState, cards: &Vec<CardDef>) -> (r: TurnStep)
    ensures
        (r, final(st)@) == discard_step(side, idx, old(st)@, cards@),
{
    if discard_in_turn(side, idx, &mut st.hand, &mut st.action_points, &mut st.selected, cards, &mut st.events) {
        TurnStep::Acted
    } else {
        TurnStep::Idle
    }
}

fn discard_key_exec(side: Side, st: &mut TurnState, cards: &Vec<CardDef>) -> (r: TurnStep)
    ensures
        (r, final(st)@) == discard_key_step(side, old(st)@, cards@),
{
    let empty = st.hand.len_of(side) == 0;
    let _ = discard_key(side, &mut st.hand, &mut st.action_points, &mut st.selected, cards, &mut st.events);
    if empty {
        TurnStep::Idle
    } else {
        TurnStep::Acted
    }
}

fn card_exec(side: Side, idx: usize, st: &mut TurnState, cards: &Vec<CardDef>) -> (r: TurnStep)
    requires
        old(st)@.player.has_active(),
        old(st)@.enemy.has_active(),
    ensures
        (r, final(st)@) == card_step(side, idx, old(st)@, cards@),
{
    let o = card_key(
        side,
        idx,
        &st.player,
        &st.enemy,
        &mut st.hand,
        &mut st.action_points,
        &mut st.selected,
        &mut st.pending_ko,
        cards,
        &mut st.events,
    );
    match o {
        CardKeyOutcome::Ignored => TurnStep::Idle,
        CardKeyOutcome::Discarded => TurnStep::Acted,
        CardKeyOutcome::Selected => TurnStep::Acted,
        CardKeyOutcome::NotEnoughAp => TurnStep::NotEnoughAp,
        CardKeyOutcome::Played(None) => TurnStep::Acted,
        CardKeyOutcome::Played(Some(p)) => TurnStep::Next(p),
    }
}

fn finalize_exec(side: Side, st: &mut TurnState, rules: &CardRules, order: &RoundOrder) -> (r: TurnStep)
    requires
        old(st)@.player.has_active(),
        old(st)@.enemy.has_active(),
    ensures
        (r, final(st)@) == finalize_step(side, old(st)@, *rules, *order),
{
    let (phase, discard) = match side {
        Side::Player => finalize_turn(
            side,
            &mut st.player,
            &mut st.pending_boosts,
            &mut st.action_points,
            &st.hand,
            rules,
            order,
            &mut st.turn,
            &mut st.events,
        ),
        Side::Enemy => finalize_turn(
            side,
            &mut st.enemy,
            &mut st.pending_boosts,
            &mut st.action_points,
            &st.hand,
            rules,
            order,
            &mut st.turn,
            &mut st.events,
        ),
    };
    match discard {
        Some(d) => TurnStep::Discard(d),
        None => TurnStep::Next(phase),
    }
}

fn client_switch_exec(target: usize, st: &mut TurnState) -> (r: TurnStep)
    requires
        old(st)@.player.has_active(),
    ensures
        (r, final(st)@) == client_switch_step(target, old(st)@),
{
    if target >= st.player.combatants.len() || target == st.player.active_index {
        return TurnStep::Idle;
    }
    if st.action_points.player < 1 {
        return TurnStep::NotEnoughAp;
    }
    if !switch_team(&mut st.player, target) {
        return TurnStep::Idle;
    }
    st.action_points.player = st.action_points.player - 1;
    TurnStep::Sent(BattleIntent::Switch { target_index: target })
}

fn client_skill_exec(slot: usize, st: &mut TurnState, skills: &Vec<SkillDef>) -> (r: TurnStep)
    requires
        old(st)@.player.has_active(),
    ensures
        (r, final(st)@) == client_skill_step(slot, old(st)@, skills@),
{
    let cost = match check_skill(Side::Player, slot, &st.player, skills, &st.action_points) {
        Ok(skill) => skill.cost_ap,
        Err(SkillRefusal::NoSkill) => {
            return TurnStep::Idle;
        },
        Err(SkillRefusal::NoUsesLeft) => {
            return TurnStep::NoUsesLeft;
        },
        Err(SkillRefusal::NotEnoughAp) => {
            return TurnStep::NotEnoughAp;
        },
    };
    pay_skill(Side::Player, slot, cost, &mut st.player, &mut st.action_points);
    TurnStep::Sent(BattleIntent::UseSkill { slot })
}

fn client_ui_skill_exec(id: SkillId, st: &mut TurnState, skills: &Vec<SkillDef>) -> (r: TurnStep)
    requires
        old(st)@.player.has_active(),
    ensures
        (r, final(st)@) == client_ui_skill_step(id, old(st)@, skills@),
{
    let m = &st.player.combatants[st.player.active_index];
    assert(m@ == st@.player.members[st@.player.active]);
    match find_skill_slot(&m.skills, id) {
        None => TurnStep::Idle,
        Some(slot) => client_skill_exec(slot, st, skills),
    }
}

fn client_discard_exec(idx: usize, st: &mut TurnState) -> (r: TurnStep)
    ensures
        (r, final(st)@) == client_discard_step(idx, old(st)@),
{
    if idx >= st.hand.player.len() {
        return TurnStep::Idle;
    }
    let _ = st.hand.player.remove(idx);
    gain_ap(Side::Player, 1, &mut st.action_points);
    st.selected.set(Side::Player, SelectedCardState { index: None, discard_armed: false });
    TurnStep::Sent(BattleIntent::DiscardCard { card_index: idx })
}

fn client_discard_key_exec(st: &mut TurnState) -> (r: TurnStep)
    ensures
        (r, final(st)@) == client_discard_key_step(old(st)@),
{
    let n = st.hand.player.len();
    if n == 0 {
        return TurnStep::Idle;
    }
    let pick = st.selected.player;
    if let Some(i) = pick.index {
        if i < n {
            return client_discard_exec(i, st);
        }
    }
    st.selected.set(Side::Player, SelectedCardState { discard_armed: !pick.discard_armed, ..pick });
    TurnStep::Acted
}

fn client_card_exec(idx: usize, st: &mut TurnState, cards: &Vec<CardDef>) -> (r: TurnStep)
    ensures
        (r, final(st)@) == client_card_step(idx, old(st)@, cards@),
{
    if idx >= st.hand.player.len() {
        return TurnStep::Idle;
    }
    let pick = st.selected.player;
    if pick.discard_armed {
        return client_discard_exec(idx, st);
    }
    if pick.index != Some(idx) {
        st.selected.set(Side::Player, SelectedCardState { index: Some(idx), ..pick });
        return TurnStep::Acted;
    }
    let cost = match find_card(cards, st.hand.player[idx]) {
        Some(c) => c.cost_ap,
        None => {
            return TurnStep::Idle;
        },
    };
    if st.action_points.player < cost {
        return TurnStep::NotEnoughAp;
    }
    let _ = st.hand.player.remove(idx);
    st.action_points.player = to_i32_sat(st.action_points.player as i64 - cost as i64);
    st.selected.set(Side::Player, SelectedCardState { index: None, discard_armed: false });
    TurnStep::Sent(BattleIntent::UseCard { card_index: idx })
}

fn front_ok(t: &Team) -> (b: bool)
    ensures
        b == t@.has_active(),
{
    t.active_index < t.combatants.len()
}

fn tactical_for(tactical: &Option<PendingTacticalDiscard>, side: Side) -> (b: bool)
    ensures
        b == (tactical is Some && tactical->0.side == side),
{
    match tactical {
        Some(t) => t.side == side,
        None => false,
    }
}

/// Runs one frame of the player's turn (see `spec_player_step`).
pub fn player_turn_input_system(
    link: RemoteLink,
    input: &TurnInput,
    st: &mut TurnState,
    tactical: &Option<PendingTacticalDiscard>,
    order: &RoundOrder,
    skills: &Vec<SkillDef>,
    cards: &Vec<CardDef>,
    rules: &CardRules,
    formula_rules: &BattleFormulaRules,
    element_db: &ElementDb,
    status_db: &StatusDb,
    reaction_db: &ReactionDb,
    round: u32,
) -> (r: TurnStep)
    requires
        formula_rules.sane(),
    ensures
        (r, final(st)@) == spec_player_step(
            link,
            *input,
            old(st)@,
            *tactical,
            *order,
            skills@,
            cards@,
            *rules,
            *formula_rules,
            *element_db,
            *status_db,
            *reaction_db,
            round,
        ),
{
    let side = Side::Player;
    let client = link == RemoteLink::Client;
    if link == RemoteLink::Waiting || st.turn.player_ended {
        return TurnStep::Idle;
    }
    if st.player.combatants.len() == 0 || st.enemy.combatants.len() == 0 {
        return TurnStep::Aborted(AbortReason::EmptyTeam);
    }
    if !front_ok(&st.player) {
        return TurnStep::Aborted(AbortReason::PlayerFrontMissing);
    }
    if !front_ok(&st.enemy) {
        return TurnStep::Aborted(AbortReason::EnemyFrontMissing);
    }
    if let Some(target) = input.switch_to {
        return if client {
            client_switch_exec(target, st)
        } else {
            switch_exec(side, target, st)
        };
    }
    if let Some(id) = input.ui_skill {
        return if client {
            client_ui_skill_exec(id, st, skills)
        } else {
            ui_skill_exec(side, id, st, skills, formula_rules, element_db, status_db, reaction_db, round)
        };
    }
    if tactical_for(tactical, side) {
        return match input.card {
            Some(idx) => if client {
                client_discard_exec(idx, st)
            } else {
                discard_exec(side, idx, st, cards)
            },
            None => TurnStep::Idle,
        };
    }
    if input.end_turn && st.hand.player.len() > rules.max_retained_hand {
        return TurnStep::HandFull;
    }
    if input.end_turn || st.turn.player_end_requested {
        if client {
            st.turn.player_end_requested = false;
            return TurnStep::Sent(BattleIntent::EndTurn);
        }
        return finalize_exec(side, st, rules, order);
    }
    if input.discard {
        return if client {
            client_discard_key_exec(st)
        } else {
            discard_key_exec(side, st, cards)
        };
    }
    if let Some(idx) = input.card {
        return if client {
            client_card_exec(idx, st, cards)
        } else {
            card_exec(side, idx, st, cards)
        };
    }
    if let Some(slot) = input.skill_slot {
        return if client {
            client_skill_exec(slot, st, skills)
        } else {
            skill_exec(side, slot, st, skills, formula_rules, element_db, status_db, reaction_db, round)
        };
    }
    TurnStep::Idle
}

/// Runs one frame of the enemy's turn under local control (see `spec_enemy_step`).
pub fn enemy_turn_input_system(
    mode: BattleControlMode,
    input: &TurnInput,
    st: &mut TurnState,
    tactical: &Option<PendingTacticalDiscard>,
    order: &RoundOrder,
    skills: &Vec<SkillDef>,
    cards: &Vec<CardDef>,
    rules: &CardRules,
    formula_rules: &BattleFormulaRules,
    element_db: &ElementDb,
    status_db: &StatusDb,
    reaction_db: &ReactionDb,
    round: u32,
) -> (r: TurnStep)
    requires
        formula_rules.sane(),
    ensures
        (r, final(st)@) == spec_enemy_step(
            mode,
            *input,
            old(st)@,
            *tactical,
            *order,
            skills@,
            cards@,
            *rules,
            *formula_rules,
            *element_db,
            *status_db,
            *reaction_db,
            round,
        ),
{
    let side = Side::Enemy;
    let keys = mode != BattleControlMode::PlayerVsRemote;
    if mode == BattleControlMode::PlayerVsAi || st.turn.enemy_ended {
        return TurnStep::Idle;
    }
    if !front_ok(&st.player) {
        return TurnStep::Aborted(AbortReason::PlayerFrontMissing);
    }
    if !front_ok(&st.enemy) {
        return TurnStep::Aborted(AbortReason::EnemyFrontMissing);
    }
    if keys {
        if let Some(target) = input.switch_to {
            return switch_exec(side, target, st);
        }
        if tactical_for(tactical, side) {
            return match input.card {
                Some(idx) => discard_exec(side, idx, st, cards),
                None => TurnStep::Idle,
            };
        }
        if input.discard {
            return discard_key_exec(side, st, cards);
        }
    }
    if let Some(id) = input.ui_skill {
        return ui_skill_exec(side, id, st, skills, formula_rules, element_db, status_db, reaction_db, round);
    }
    if keys {
        if let Some(idx) = input.card {
            return card_exec(side, idx, st, cards);
        }
        if let Some(slot) = input.skill_slot {
            let front = &st.enemy.combatants[st.enemy.active_index];
            assert(front@ == st@.enemy.members[st@.enemy.active]);
            if slot < front.skills.len() {
                return TurnStep::Queued(front.skills[slot]);
            }
            return TurnStep::Idle;
        }
    }
    if (keys && input.end_turn) || st.turn.enemy_end_requested {
        return finalize_exec(side, st, rules, order);
    }
    TurnStep::Idle
}

/// What the enemy AI chose to do next, with the hand cards and members it picked.
#[derive(Debug, Clone, Copy, PartialEq, Eq, Structural)]
pub enum AiPlan {
    /// Play a boost card before a skill: the card it picked, if any card fits.
    CardForSkill { card: Option<usize> },
    /// Switch member `index` in.
    Switch { index: usize },
    /// Use the skill in `slot` of the front member.
    UseSkill { slot: usize },
    /// Play hand card `index` at once.
    ImmediateCard { index: usize },
    /// Discard hand card `index` for one AP.
    Discard { index: usize },
}

/// The indices a plan names are valid for the state.
pub open spec fn ai_plan_valid(plan: Option<AiPlan>, v: TurnView) -> bool {
    let held = v.enemy_hand;
    match plan {
        Some(AiPlan::CardForSkill { card: Some(i) }) => i < held.len(),
        Some(AiPlan::Switch { index }) => index < v.enemy.members.len(),
        Some(AiPlan::ImmediateCard { index }) => index < held.len(),
        Some(AiPlan::Discard { index }) => held.len() == 0 || index < held.len(),
        _ => true,
    }
}

/// The enemy's card `index` goes for one AP (reported), without touching its selection.
pub open spec fn ai_discard(index: usize, v: TurnView, cards: Seq<CardDef>) -> TurnView {
    TurnView {
        enemy_hand: v.enemy_hand.remove(index as int),
        ap: v.ap.with(Side::Enemy, spec_gain(v.ap.enemy as int, 1) as i32),
        events: v.events.push(
            EventView::CardDiscarded { side: Side::Enemy, card_name: spec_card_name(cards, v.enemy_hand[index as int]) },
        ),
        ..v
    }
}

/// The enemy plays card `index`: it leaves the hand, its cost (none for a card that is not
/// defined) is paid and it is reported.
pub open spec fn ai_play(index: usize, v: TurnView, cards: Seq<CardDef>) -> TurnView {
    let id = v.enemy_hand[index as int];
    let cost = match spec_find_card(cards, id) {
        Some(c) => c.cost_ap as int,
        None => 0,
    };
    TurnView {
        enemy_hand: v.enemy_hand.remove(index as int),
        ap: v.ap.with(Side::Enemy, sat_i32(v.ap.enemy - cost) as i32),
        events: v.events.push(EventView::CardUsed { side: Side::Enemy, card_name: spec_card_name(cards, id) }),
        ..v
    }
}

/// After an action the AI waits for its next one while it has AP; else its turn ends.
pub open spec fn ai_after_action(v: TurnView, rules: CardRules, order: RoundOrder) -> (TurnStep, TurnView) {
    if v.ap.enemy > 0 {
        (TurnStep::Acted, v)
    } else {
        finalize_step(Side::Enemy, v, rules, order)
    }
}

/// One decision of the enemy AI, once it may act. Nothing happens unless the enemy plays against
/// the AI and its turn is still on. A tactical discard waiting for the enemy comes first: it
/// lapses when the hand is empty, else card `tactical_pick` (the first card when none is picked)
/// is discarded for one AP. The battle cannot go on without two front members. Without AP the
/// turn ends; a front member without HP sends the battle to the end check (coming back to the
/// enemy). Else the plan runs: a boost card the AI picked is played (a card that is not defined
/// is lost unplayed); a switch to a member with HP costs one AP; a skill is used as in
/// `spec_use_skill`; a card is played at once; a card is discarded for one AP. After an action
/// the enemy acts again while it has AP; when no action happened, or none was left, its turn ends.
pub open spec fn spec_enemy_ai_step(
    mode: BattleControlMode,
    tactical: Option<PendingTacticalDiscard>,
    tactical_pick: Option<usize>,
    plan: Option<AiPlan>,
    v: TurnView,
    order: RoundOrder,
    skills: Seq<SkillDef>,
    cards: Seq<CardDef>,
    rules: CardRules,
    formula_rules: BattleFormulaRules,
    edb: ElementDb,
    sdb: StatusDb,
    rdb: ReactionDb,
    round: u32,
) -> (TurnStep, TurnView) {
    let side = Side::Enemy;
    if mode != BattleControlMode::PlayerVsAi || v.turn.enemy_ended {
        (TurnStep::Idle, v)
    } else if tactical is Some && tactical->0.side == side {
        if v.enemy_hand.len() == 0 {
            (TurnStep::TacticalLapsed, v)
        } else {
            (
                TurnStep::Acted,
                ai_discard(
                    match tactical_pick {
                        Some(i) => i,
                        None => 0,
                    },
                    v,
                    cards,
                ),
            )
        }
    } else if !v.player.has_active() {
        (TurnStep::Aborted(AbortReason::PlayerFrontMissing), v)
    } else if !v.enemy.has_active() {
        (TurnStep::Aborted(AbortReason::EnemyFrontMissing), v)
    } else if v.ap.enemy <= 0 {
        finalize_step(side, v, rules, order)
    } else if v.player.active_hp() <= 0 || v.enemy.active_hp() <= 0 {
        (
            TurnStep::Next(BattlePhase::CheckEnd),
            TurnView {
                pending_ko: PendingKoResolution { resume_phase: Some(BattlePhase::EnemyTurn), ..v.pending_ko },
                ..v
            },
        )
    } else {
        match plan {
            Some(AiPlan::CardForSkill { card: Some(i) }) => match spec_find_card(cards, v.enemy_hand[i as int]) {
                Some(_) => ai_after_action(ai_play(i, v, cards), rules, order),
                None => finalize_step(side, TurnView { enemy_hand: v.enemy_hand.remove(i as int), ..v }, rules, order),
            },
            Some(AiPlan::Switch { index }) => {
                let r = switch_in(v.enemy, index as int);
                if r.1 {
                    ai_after_action(
                        TurnView {
                            enemy: r.0,
                            ap: v.ap.with(side, (v.ap.enemy - 1) as i32),
                            events: v.events.push(EventView::Switched { side, index }),
                            ..v
                        },
                        rules,
                        order,
                    )
                } else {
                    finalize_step(side, v, rules, order)
                }
            },
            Some(AiPlan::UseSkill { slot }) => {
                let r = skill_step(side, slot, v, skills, formula_rules, edb, sdb, rdb, round);
                match r.0 {
                    TurnStep::Next(p) => (TurnStep::Next(p), r.1),
                    TurnStep::Acted => ai_after_action(r.1, rules, order),
                    _ => finalize_step(side, v, rules, order),
                }
            },
            Some(AiPlan::ImmediateCard { index }) => ai_after_action(ai_play(index, v, cards), rules, order),
            Some(AiPlan::Discard { index }) => if v.enemy_hand.len() == 0 {
                finalize_step(side, v, rules, order)
            } else {
                ai_after_action(ai_discard(index, v, cards), rules, order)
            },
            _ => finalize_step(side, v, rules, order),
        }
    }
}

fn ai_discard_exec(index: usize, st: &mut TurnState, cards: &Vec<CardDef>)
    requires
        index < old(st)@.enemy_hand.len(),
    ensures
        final(st)@ == ai_discard(index, old(st)@, cards@),
{
    let _ = discard_card_from_hand(Side::Enemy, index, 1, &mut st.hand, &mut st.action_points, cards, &mut st.events);
}

fn ai_play_exec(index: usize, st: &mut TurnState, cards: &Vec<CardDef>)
    requires
        index < old(st)@.enemy_hand.len(),
    ensures
        final(st)@ == ai_play(index, old(st)@, cards@),
{
    let id = st.hand.enemy.remove(index);
    let name = card_name(cards, id);
    let cost = match find_card(cards, id) {
        Some(c) => c.cost_ap,
        None => 0,
    };
    st.action_points.enemy = to_i32_sat(st.action_points.enemy as i64 - cost as i64);
    emit(&mut st.events, BattleEvent::CardUsed { side: Side::Enemy, card_name: name });
}

fn ai_after_action_exec(
    st: &mut TurnState,
    rules: &CardRules,
    order: &RoundOrder,
) -> (r: TurnStep)
    requires
        old(st)@.player.has_active(),
        old(st)@.enemy.has_active(),
    ensures
        (r, final(st)@) == ai_after_action(old(st)@, *rules, *order),
{
    if st.action_points.enemy > 0 {
        TurnStep::Acted
    } else {
        finalize_exec(Side::Enemy, st, rules, order)
    }
}

/// Runs one decision of the enemy AI (see `spec_enemy_ai_step`).
pub fn enemy_ai_step(
    mode: BattleControlMode,
    tactical: &Option<PendingTacticalDiscard>,
    tactical_pick: Option<usize>,
    plan: Option<AiPlan>,
    st: &mut TurnState,
    order: &RoundOrder,
    skills: &Vec<SkillDef>,
    cards: &Vec<CardDef>,
    rules: &CardRules,
    formula_rules: &BattleFormulaRules,
    element_db: &ElementDb,
    status_db: &StatusDb,
    reaction_db: &ReactionDb,
    round: u32,
) -> (r: TurnStep)
    requires
        formula_rules.sane(),
        ai_plan_valid(plan, old(st)@),
        tactical_pick is Some ==> tactical_pick->0 < old(st)@.enemy_hand.len(),
    ensures
        (r, final(st)@) == spec_enemy_ai_step(
            mode,
            *tactical,
            tactical_pick,
            plan,
            old(st)@,
            *order,
            skills@,
            cards@,
            *rules,
            *formula_rules,
            *element_db,
            *status_db,
            *reaction_db,
            round,
        ),
{
    let side = Side::Enemy;
    if mode != BattleControlMode::PlayerVsAi || st.turn.enemy_ended {
        return TurnStep::Idle;
    }
    if tactical_for(tactical, side) {
        if st.hand.enemy.len() == 0 {
            return TurnStep::TacticalLapsed;
        }
        let pick = match tactical_pick {
            Some(i) => i,
            None => 0,
        };
        ai_discard_exec(pick, st, cards);
        return TurnStep::Acted;
    }
    if !front_ok(&st.player) {
        return TurnStep::Aborted(AbortReason::PlayerFrontMissing);
    }
    if !front_ok(&st.enemy) {
        return TurnStep::Aborted(AbortReason::EnemyFrontMissing);
    }
    if st.action_points.enemy <= 0 {
        return finalize_exec(side, st, rules, order);
    }
    if front_hp_down(&st.player, &st.enemy) {
        st.pending_ko.resume_phase = Some(BattlePhase::EnemyTurn);
        return TurnStep::Next(BattlePhase::CheckEnd);
    }
    match plan {
        Some(AiPlan::CardForSkill { card: Some(i) }) => {
            let id = st.hand.enemy[i];
            if find_card(cards, id).is_some() {
                ai_play_exec(i, st, cards);
                ai_after_action_exec(st, rules, order)
            } else {
                let _ = st.hand.enemy.remove(i);
                finalize_exec(side, st, rules, order)
            }
        },
        Some(AiPlan::Switch { index }) => {
            if switch_team(&mut st.enemy, index) {
                st.action_points.enemy = st.action_points.enemy - 1;
                emit(&mut st.events, BattleEvent::Switched { side, index });
                ai_after_action_exec(st, rules, order)
            } else {
                finalize_exec(side, st, rules, order)
            }
        },
        Some(AiPlan::UseSkill { slot }) => {
            let ghost v0 = st@;
            let r = skill_exec(side, slot, st, skills, formula_rules, element_db, status_db, reaction_db, round);
            match r {
                TurnStep::Next(p) => TurnStep::Next(p),
                TurnStep::Acted => ai_after_action_exec(st, rules, order),
                _ => {
                    proof {
                        super::laws::law_refused_skill_changes_nothing(
                            side,
                            slot,
                            v0.enemy,
                            v0.player,
                            skills@,
                            v0.ap,
                            v0.boosts,
                            v0.rng,
                            v0.pending_ko,
                            v0.events,
                            *formula_rules,
                            *element_db,
                            *status_db,
                            *reaction_db,
                            round,
                        );
                        assert(st@ == v0);
                    }
                    finalize_exec(side, st, rules, order)
                },
            }
        },
        Some(AiPlan::ImmediateCard { index }) => {
            ai_play_exec(index, st, cards);
            ai_after_action_exec(st, rules, order)
        },
        Some(AiPlan::Discard { index }) => {
            if st.hand.enemy.len() == 0 {
                finalize_exec(side, st, rules, order)
            } else {
                ai_discard_exec(index, st, cards);
                ai_after_action_exec(st, rules, order)
            }
        },
        _ => finalize_exec(side, st, rules, order),
    }
}

/// Whether `side`'s turn is marked ended.
pub open spec fn spec_turn_ended(turn: TurnContext, side: Side) -> bool {
    match side {
        Side::Player => turn.player_ended,
        Side::Enemy => turn.enemy_ended,
    }
}

/// The side whose turn a frame ended, when it did: its opponent's shield-absorb AP counter then
/// lapses (the guard-counter clear of `finish_card_events`). `was_ended` is whether the turn was
/// marked ended before the frame, `turn` how it stands after it.
pub fn guard_clear_after(was_ended: bool, turn: &TurnContext, side: Side) -> (r: Option<Side>)
    ensures
        r == (if !was_ended && spec_turn_ended(*turn, side) {
            Some(side)
        } else {
            None
        }),
{
    let ended = match side {
        Side::Player => turn.player_ended,
        Side::Enemy => turn.enemy_ended,
    };
    if !was_ended && ended {
        Some(side)
    } else {
        None
    }
}

} // verus!
