//! The start of a round: the round count, the draws, the AP, the reset of what lasts for a
//! round, fresh skill uses, and who acts first.
use vstd::prelude::*;

use super::cards::{
    clear_round_scoped_card_effects, draw_cards, gain_ap, round_cleared, spec_draw_n, spec_gain,
    ActionPoints, CardPiles, CardTurnMemory, Hand, SelectedCardState, SelectedCards,
};
use super::flow::{
    order_round, spec_first_side, spec_phase_for_side, MemberView, RoundOrder, Team, TeamView,
    TurnContext,
};
use super::formula::spec_effective_spd;
use super::model::{emit, events_view, spec_opposite, BattleEvent, EventView, PendingBoosts, Side};
use crate::data::cards::CardId;
use crate::data::{BattleFormulaRules, BattleRules};
use crate::game_state::BattlePhase;

verus! {

/// The uses each skill slot gets per round when the configuration sets none.
pub fn standard_skill_uses() -> (n: u32)
    ensures
        n == 1,
{
    1
}

/// A member with `uses` uses for each of its skills.
pub open spec fn refreshed(m: MemberView, uses: u32) -> MemberView {
    MemberView { skill_uses: Seq::new(m.skills.len(), |_i: int| uses), ..m }
}

/// A team whose members all have `uses` uses for each of their skills.
pub open spec fn refreshed_team(t: TeamView, uses: u32) -> TeamView {
    TeamView { members: t.members.map_values(|m: MemberView| refreshed(m, uses)), ..t }
}

/// Gives every member of `team` (the front one and those behind) `uses` uses of each skill.
pub fn refresh_skill_uses(team: &mut Team, uses: u32)
    ensures
        final(team)@ == refreshed_team(old(team)@, uses),
{
    let ghost m0 = team@.members;
    let n = team.combatants.len();
    let mut i: usize = 0;
    while i < n
        invariant
            n == m0.len(),
            i <= n,
            team.active_index == old(team).active_index,
            team@.members.len() == n,
            forall|j: int| 0 <= j < i ==> team@.members[j] == refreshed(m0[j], uses),
            forall|j: int| i <= j < n ==> team@.members[j] == m0[j],
        decreases n - i,
    {
        let ghost before = team@.members;
        let mut c = team.combatants.remove(i);
        assert(c@ == m0[i as int]);
        let k = c.skills.len();
        let mut fresh: Vec<u32> = Vec::new();
        while fresh.len() < k
            invariant
                fresh.len() <= k,
                fresh@ == Seq::new(fresh.len() as nat, |_i: int| uses),
            decreases k - fresh.len(),
        {
            fresh.push(uses);
            assert(fresh@ =~= Seq::new(fresh.len() as nat, |_i: int| uses));
        }
        c.skill_uses = fresh;
        let ghost cv = c@;
        assert(cv == refreshed(m0[i as int], uses)) by {
            assert(cv.skill_uses =~= refreshed(m0[i as int], uses).skill_uses);
        }
        team.combatants.insert(i, c);
        assert(team@.members =~= before.update(i as int, cv));
        i = i + 1;
    }
    assert(team@.members =~= m0.map_values(|m: MemberView| refreshed(m, uses)));
}

/// A selection with nothing picked and no discard armed, for both sides.
pub open spec fn fresh_selection(s: SelectedCards) -> bool {
    &&& s.player == (SelectedCardState { index: None, discard_armed: false })
    &&& s.enemy == (SelectedCardState { index: None, discard_armed: false })
}

/// Starts a round. With an empty deck nothing happens. Else the round count goes up and the new
/// round is reported; the player, then the enemy, draws `cards_per_round` cards; both sides gain
/// `ap_per_round` AP; no turn is ended or asked to end; the round-scoped card bonuses are dropped
/// (see `clear_round_scoped_card_effects`); what the cards remember of the turn and the card
/// selections are reset; every member of both teams gets `uses_per_slot` uses of each skill.
/// When both teams have a front member, the faster one acts first (see `order_round`) and its
/// phase is given; else no phase follows.
pub fn round_start_system(
    deck: &Vec<CardId>,
    rules: &BattleRules,
    uses_per_slot: u32,
    formula_rules: &BattleFormulaRules,
    player: &mut Team,
    enemy: &mut Team,
    action_points: &mut ActionPoints,
    hand: &mut Hand,
    piles: &mut CardPiles,
    turn: &mut TurnContext,
    turn_count: &mut u32,
    order: &mut RoundOrder,
    pending_boosts: &mut PendingBoosts,
    memory: &mut CardTurnMemory,
    selected: &mut SelectedCards,
    events: &mut Vec<BattleEvent>,
) -> (r: Option<BattlePhase>)
    requires
        formula_rules.sane(),
        *old(turn_count) < u32::MAX,
    ensures
        deck@.len() == 0 ==> {
            &&& r is None
            &&& final(player)@ == old(player)@
            &&& final(enemy)@ == old(enemy)@
            &&& *final(action_points) == *old(action_points)
            &&& final(hand).player@ == old(hand).player@
            &&& final(hand).enemy@ == old(hand).enemy@
            &&& final(piles).draw@ == old(piles).draw@
            &&& final(piles).discard@ == old(piles).discard@
            &&& *final(turn) == *old(turn)
            &&& *final(turn_count) == *old(turn_count)
            &&& *final(order) == *old(order)
            &&& *final(pending_boosts) == *old(pending_boosts)
            &&& *final(memory) == *old(memory)
            &&& *final(selected) == *old(selected)
            &&& final(events)@ == old(events)@
        },
        deck@.len() > 0 ==> {
            let round = (*old(turn_count) + 1) as u32;
            let dp = spec_draw_n(old(piles).draw@, old(piles).discard@, deck@, rules.cards_per_round as nat);
            let de = spec_draw_n(dp.0, dp.1, deck@, rules.cards_per_round as nat);
            let p1 = refreshed_team(old(player)@, uses_per_slot);
            let e1 = refreshed_team(old(enemy)@, uses_per_slot);
            &&& *final(turn_count) == round
            &&& events_view(final(events)@) == events_view(old(events)@).push(EventView::TurnStarted { round })
            &&& final(hand).player@ == old(hand).player@ + dp.2
            &&& final(hand).enemy@ == old(hand).enemy@ + de.2
            &&& final(piles).draw@ == de.0
            &&& final(piles).discard@ == de.1
            &&& final(action_points).player == spec_gain(old(action_points).player as int, rules.ap_per_round as int)
            &&& final(action_points).enemy == spec_gain(old(action_points).enemy as int, rules.ap_per_round as int)
            &&& !final(turn).player_ended && !final(turn).enemy_ended
            &&& !final(turn).player_end_requested && !final(turn).enemy_end_requested
            &&& final(pending_boosts).player == round_cleared(old(pending_boosts).player)
            &&& final(pending_boosts).enemy == round_cleared(old(pending_boosts).enemy)
            &&& !final(memory).player.knocked_out_opponent_this_turn && !final(memory).player.switched_this_turn
            &&& !final(memory).enemy.knocked_out_opponent_this_turn && !final(memory).enemy.switched_this_turn
            &&& fresh_selection(*final(selected))
            &&& final(player)@ == p1
            &&& final(enemy)@ == e1
            &&& if p1.has_active() && e1.has_active() {
                let first = spec_first_side(
                    spec_effective_spd(p1.members[p1.active].state.stats, *formula_rules),
                    spec_effective_spd(e1.members[e1.active].state.stats, *formula_rules),
                    old(order).previous_first,
                );
                &&& r == Some(spec_phase_for_side(first))
                &&& final(order).first == first
                &&& final(order).second == spec_opposite(first)
                &&& final(order).previous_first == Some(first)
            } else {
                &&& r is None
                &&& *final(order) == *old(order)
            }
        },
{
    if deck.len() == 0 {
        return None;
    }
    *turn_count = *turn_count + 1;
    emit(events, BattleEvent::TurnStarted { round: *turn_count });
    let _ = draw_cards(Side::Player, rules.cards_per_round, hand, piles, deck);
    let _ = draw_cards(Side::Enemy, rules.cards_per_round, hand, piles, deck);
    gain_ap(Side::Player, rules.ap_per_round, action_points);
    gain_ap(Side::Enemy, rules.ap_per_round, action_points);
    *turn = TurnContext::new();
    clear_round_scoped_card_effects(pending_boosts);
    *memory = CardTurnMemory::new();
    *selected = SelectedCards::new();
    refresh_skill_uses(player, uses_per_slot);
    refresh_skill_uses(enemy, uses_per_slot);
    if player.active_index >= player.combatants.len() || enemy.active_index >= enemy.combatants.len() {
        return None;
    }
    let p = &player.combatants[player.active_index];
    let e = &enemy.combatants[enemy.active_index];
    proof {
        assert(p@ == player@.members[player@.active]);
        assert(e@ == enemy@.members[enemy@.active]);
    }
    Some(order_round(&p.state, &e.state, formula_rules, order))
}

} // verus!
