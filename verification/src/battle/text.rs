//! Player-facing words for sides, elements and battle results, and the battle log's lines.
use vstd::prelude::*;
use vstd::string::*;

use super::effects::{decimal, digit_char};
use super::flow::{BattleOutcome, Team, TeamView};
use super::model::{BattleEvent, DamageType, EventView, Side};
use super::cards::{card_name, spec_card_name};
use super::context::strings_view;
use crate::data::cards::{CardDef, CardId};
use crate::data::ElementType;

verus! {

/// The decimal digits of `n`, with a minus sign in front when it is negative.
pub open spec fn int_decimal(n: int) -> Seq<char> {
    if n < 0 {
        seq!['-'] + decimal((-n) as nat)
    } else {
        decimal(n as nat)
    }
}

/// The text of one decimal digit.
fn digit_text(d: u8) -> (s: &'static str)
    requires
        d < 10,
    ensures
        s@ == seq![digit_char(d as nat)],
{
    match d {
        0 => {
            proof {
                reveal_strlit("0");
            }
            "0"
        },
        1 => {
            proof {
                reveal_strlit("1");
            }
            "1"
        },
        2 => {
            proof {
                reveal_strlit("2");
            }
            "2"
        },
        3 => {
            proof {
                reveal_strlit("3");
            }
            "3"
        },
        4 => {
            proof {
                reveal_strlit("4");
            }
            "4"
        },
        5 => {
            proof {
                reveal_strlit("5");
            }
            "5"
        },
        6 => {
            proof {
                reveal_strlit("6");
            }
            "6"
        },
        7 => {
            proof {
                reveal_strlit("7");
            }
            "7"
        },
        8 => {
            proof {
                reveal_strlit("8");
            }
            "8"
        },
        _ => {
            proof {
                reveal_strlit("9");
            }
            "9"
        },
    }
}

/// `prefix` followed by the decimal digits of `n`.
fn decimal_after(prefix: &str, n: u128) -> (s: String)
    ensures
        s@ == prefix@ + decimal(n as nat),
    decreases n,
{
    if n < 10 {
        concat_text(prefix, digit_text(n as u8))
    } else {
        let head = decimal_after(prefix, n / 10);
        let s = concat_text(head.as_str(), digit_text((n % 10) as u8));
        assert(s@ =~= prefix@ + decimal(n as nat));
        s
    }
}

/// `prefix` followed by `n` in decimal, with a minus sign in front when it is negative.
pub(crate) fn format_number_after(prefix: &str, n: i128) -> (s: String)
    ensures
        s@ == prefix@ + int_decimal(n as int),
{
    if n < 0 {
        let magnitude: u128 = ((-(n + 1)) as u128) + 1;
        let signed = concat_text(prefix, "-");
        proof {
            reveal_strlit("-");
        }
        let s = decimal_after(signed.as_str(), magnitude);
        assert(s@ =~= prefix@ + int_decimal(n as int));
        s
    } else {
        decimal_after(prefix, n as u128)
    }
}

/// `a` followed by `b`.
pub(crate) fn concat_text(a: &str, b: &str) -> (s: String)
    ensures
        s@ == a@ + b@,
{
    let head = String::from_str(a);
    head.concat(b)
}

pub open spec fn spec_side_text(side: Side) -> Seq<char> {
    match side {
        Side::Player => "玩家"@,
        Side::Enemy => "敌方"@,
    }
}

pub open spec fn spec_element_text(element: ElementType) -> Seq<char> {
    match element {
        ElementType::Fire => "火"@,
        ElementType::Water => "水"@,
        ElementType::Grass => "草"@,
        ElementType::Light => "光"@,
        ElementType::Dark => "暗"@,
        ElementType::Thunder => "雷"@,
        ElementType::Wind => "风"@,
    }
}

/// The word for a side, for logs and the interface.
pub fn side_text(side: Side) -> (t: &'static str)
    ensures
        t@ == spec_side_text(side),
{
    match side {
        Side::Player => "玩家",
        Side::Enemy => "敌方",
    }
}

/// The word for an element.
pub fn element_text(element: ElementType) -> (t: &'static str)
    ensures
        t@ == spec_element_text(element),
{
    match element {
        ElementType::Fire => "火",
        ElementType::Water => "水",
        ElementType::Grass => "草",
        ElementType::Light => "光",
        ElementType::Dark => "暗",
        ElementType::Thunder => "雷",
        ElementType::Wind => "风",
    }
}

/// The message the result screen shows for an outcome.
pub fn result_message(outcome: BattleOutcome) -> (t: &'static str)
    ensures
        t@ == (match outcome {
            BattleOutcome::Draw => "平局！按 R 返回。"@,
            BattleOutcome::Victory => "胜利！全歼敌方。按 R 返回。"@,
            BattleOutcome::Defeat => "失败！队伍全灭。按 R 返回。"@,
        }),
{
    match outcome {
        BattleOutcome::Draw => "平局！按 R 返回。",
        BattleOutcome::Victory => "胜利！全歼敌方。按 R 返回。",
        BattleOutcome::Defeat => "失败！队伍全灭。按 R 返回。",
    }
}

/// Elements for the log: their words joined by `/`, or `无` when there are none.
pub open spec fn elems_text(es: Seq<ElementType>) -> Seq<char>
    decreases es.len(),
{
    if es.len() == 0 {
        "无"@
    } else if es.len() == 1 {
        spec_element_text(es[0])
    } else {
        elems_text(es.drop_last()) + "/"@ + spec_element_text(es.last())
    }
}

pub fn elements_text(es: &Vec<ElementType>) -> (t: String)
    ensures
        t@ == elems_text(es@),
{
    if es.len() == 0 {
        return "无".to_owned();
    }
    let mut t = element_text(es[0]).to_owned();
    let mut i: usize = 1;
    while i < es.len()
        invariant
            1 <= i <= es@.len(),
            t@ == elems_text(es@.subrange(0, i as int)),
        decreases es@.len() - i,
    {
        let ghost pre = es@.subrange(0, i + 1);
        assert(pre.drop_last() =~= es@.subrange(0, i as int));
        let with_bar = concat_text(t.as_str(), "/");
        t = concat_text(with_bar.as_str(), element_text(es[i]));
        i = i + 1;
    }
    assert(es@.subrange(0, i as int) =~= es@);
    t
}

/// Three decimal places of a fraction `f` in `1..=999` thousandths, without trailing zeros.
pub open spec fn frac_digits(f: nat) -> Seq<char> {
    if f % 100 == 0 {
        decimal(f / 100)
    } else if f % 10 == 0 {
        if f < 100 {
            "0"@ + decimal(f / 10)
        } else {
            decimal(f / 10)
        }
    } else if f < 10 {
        "00"@ + decimal(f)
    } else if f < 100 {
        "0"@ + decimal(f)
    } else {
        decimal(f)
    }
}

/// A non-negative multiplier given in thousandths, as a decimal number: the whole part, and the
/// fraction after a `.` when there is one.
pub open spec fn unsigned_ratio_text(m: nat) -> Seq<char> {
    if m % 1000 == 0 {
        decimal(m / 1000)
    } else {
        decimal(m / 1000) + "."@ + frac_digits(m % 1000)
    }
}

/// A multiplier given in thousandths, as a decimal number (`2000` is `2`, `500` is `0.5`).
pub open spec fn ratio_text(m: int) -> Seq<char> {
    if m < 0 {
        "-"@ + unsigned_ratio_text((-m) as nat)
    } else {
        unsigned_ratio_text(m as nat)
    }
}

fn frac_text(f: i128) -> (t: String)
    requires
        1 <= f <= 999,
    ensures
        t@ == frac_digits(f as nat),
{
    proof {
        reveal_strlit("");
        assert(""@ + decimal((f / 100) as nat) =~= decimal((f / 100) as nat));
        assert(""@ + decimal((f / 10) as nat) =~= decimal((f / 10) as nat));
        assert(""@ + decimal(f as nat) =~= decimal(f as nat));
    }
    if f % 100 == 0 {
        format_number_after("", f / 100)
    } else if f % 10 == 0 {
        if f < 100 {
            format_number_after("0", f / 10)
        } else {
            format_number_after("", f / 10)
        }
    } else if f < 10 {
        format_number_after("00", f)
    } else if f < 100 {
        format_number_after("0", f)
    } else {
        format_number_after("", f)
    }
}

pub fn multiplier_text(m: i32) -> (t: String)
    ensures
        t@ == ratio_text(m as int),
{
    let u: i128 = if m < 0 {
        -(m as i128)
    } else {
        m as i128
    };
    let whole = format_number_after("", u / 1000);
    proof {
        reveal_strlit("");
        assert(whole@ =~= decimal((u / 1000) as nat));
    }
    let body = if u % 1000 == 0 {
        whole
    } else {
        let dotted = concat_text(whole.as_str(), ".");
        let frac = frac_text(u % 1000);
        concat_text(dotted.as_str(), frac.as_str())
    };
    proof {
        reveal_strlit("");
    }
    if m < 0 {
        concat_text("-", body.as_str())
    } else {
        body
    }
}

/// The name of member `index` of a team (empty when no member has that index).
pub open spec fn member_name(t: TeamView, index: usize) -> Seq<char> {
    if index < t.members.len() {
        t.members[index as int].name
    } else {
        Seq::empty()
    }
}

fn member_name_text(t: &Team, index: usize) -> (s: String)
    ensures
        s@ == member_name(t@, index),
{
    if index < t.combatants.len() {
        let c = &t.combatants[index];
        assert(c@ == t@.members[index as int]);
        c.name.clone()
    } else {
        String::new()
    }
}

/// How the log words a hit's damage: direct damage of an attack, actual damage otherwise.
pub open spec fn damage_word(kind: DamageType) -> Seq<char> {
    match kind {
        DamageType::Direct => " 点直接伤害。"@,
        DamageType::Fixed => " 点实际伤害。"@,
    }
}

fn damage_word_text(kind: DamageType) -> (s: &'static str)
    ensures
        s@ == damage_word(kind),
{
    match kind {
        DamageType::Direct => " 点直接伤害。",
        DamageType::Fixed => " 点实际伤害。",
    }
}

/// The battle log's line for an event; fainted and switched-in members are named from their
/// side's team.
pub open spec fn event_line(e: EventView, player: TeamView, enemy: TeamView) -> Seq<char> {
    let team_of = |side: Side| match side {
        Side::Player => player,
        Side::Enemy => enemy,
    };
    match e {
        EventView::TurnStarted { round } => "--- 第 "@ + int_decimal(round as int) + " 回合 ---"@,
        EventView::CardUsed { side, card_name } => spec_side_text(side) + " 使用了卡牌："@ + card_name + "。"@,
        EventView::CardDiscarded { side, card_name } => spec_side_text(side) + " 弃置了卡牌："@ + card_name + "。"@,
        EventView::ElementAuraApplied { side, from, to, effectiveness } => spec_side_text(side) + " 元素附着："@
            + elems_text(from) + " -> "@ + elems_text(to) + "（克制倍率 "@ + ratio_text(effectiveness as int) + "）。"@,
        EventView::SkillUsed { side, skill_name, .. } => spec_side_text(side) + " 使用了 "@ + skill_name + "。"@,
        EventView::ReactionTriggered { source, target, reaction_name } => spec_side_text(source) + " 对 "@
            + spec_side_text(target) + " 触发了元素反应："@ + reaction_name + "。"@,
        EventView::WindSpreadTriggered { source, target, element } => spec_side_text(source) + " 对 "@
            + spec_side_text(target) + " 触发了风扩散："@ + spec_element_text(element) + "。"@,
        EventView::WindSpreadSkipped { source, target, aura } => spec_side_text(source) + " 对 "@
            + spec_side_text(target) + " 未触发风扩散（当前附着："@ + elems_text(aura) + "）。"@,
        EventView::DamageDealt { source, target, amount, kind } => spec_side_text(source) + " 对 "@
            + spec_side_text(target) + " 造成了 "@ + int_decimal(amount as int) + damage_word(kind),
        EventView::AttackMissed { source, target } => spec_side_text(source) + " 对 "@ + spec_side_text(target)
            + " 的攻击未命中。"@,
        EventView::ShieldAbsorbed { side, amount } => spec_side_text(side) + " 的护盾吸收了 "@ + int_decimal(
            amount as int,
        ) + " 点伤害。"@,
        EventView::Healed { side, amount } => spec_side_text(side) + " 恢复了 "@ + int_decimal(amount as int)
            + " 点生命。"@,
        EventView::ShieldGained { side, amount } => spec_side_text(side) + " 获得了 "@ + int_decimal(amount as int)
            + " 点护盾。"@,
        EventView::CombatantFainted { side, index } => "【"@ + spec_side_text(side) + "】"@ + member_name(
            team_of(side),
            index,
        ) + " 倒下了。"@,
        EventView::Switched { side, index } => spec_side_text(side) + " 换上了 "@ + member_name(team_of(side), index)
            + "！"@,
    }
}

fn join3(a: &str, b: &str, c: &str) -> (s: String)
    ensures
        s@ == a@ + b@ + c@,
{
    let ab = concat_text(a, b);
    concat_text(ab.as_str(), c)
}

fn number_line(head: &str, n: i128, tail: &str) -> (s: String)
    ensures
        s@ == head@ + int_decimal(n as int) + tail@,
{
    let hn = format_number_after(head, n);
    concat_text(hn.as_str(), tail)
}

fn versus(source: Side, target: Side) -> (s: String)
    ensures
        s@ == spec_side_text(source) + " 对 "@ + spec_side_text(target),
{
    join3(side_text(source), " 对 ", side_text(target))
}

/// The battle log's line for `event` (see `event_line`).
pub fn battle_event_line(event: &BattleEvent, player: &Team, enemy: &Team) -> (s: String)
    ensures
        s@ == event_line(event@, player@, enemy@),
{
    match event {
        BattleEvent::TurnStarted { round } => number_line("--- 第 ", *round as i128, " 回合 ---"),
        BattleEvent::CardUsed { side, card_name } => {
            let head = concat_text(side_text(*side), " 使用了卡牌：");
            join3(head.as_str(), card_name.as_str(), "。")
        },
        BattleEvent::CardDiscarded { side, card_name } => {
            let head = concat_text(side_text(*side), " 弃置了卡牌：");
            join3(head.as_str(), card_name.as_str(), "。")
        },
        BattleEvent::ElementAuraApplied { side, from, to, effectiveness } => {
            let head = join3(side_text(*side), " 元素附着：", elements_text(from).as_str());
            let mid = join3(head.as_str(), " -> ", elements_text(to).as_str());
            let eff = join3(mid.as_str(), "（克制倍率 ", multiplier_text(*effectiveness).as_str());
            concat_text(eff.as_str(), "）。")
        },
        BattleEvent::SkillUsed { side, skill_name, .. } => {
            let head = concat_text(side_text(*side), " 使用了 ");
            join3(head.as_str(), skill_name.as_str(), "。")
        },
        BattleEvent::ReactionTriggered { source, target, reaction_name } => {
            let head = concat_text(versus(*source, *target).as_str(), " 触发了元素反应：");
            join3(head.as_str(), reaction_name.as_str(), "。")
        },
        BattleEvent::WindSpreadTriggered { source, target, element } => {
            let head = concat_text(versus(*source, *target).as_str(), " 触发了风扩散：");
            join3(head.as_str(), element_text(*element), "。")
        },
        BattleEvent::WindSpreadSkipped { source, target, aura } => {
            let head = concat_text(versus(*source, *target).as_str(), " 未触发风扩散（当前附着：");
            join3(head.as_str(), elements_text(aura).as_str(), "）。")
        },
        BattleEvent::DamageDealt { source, target, amount, kind } => {
            let head = concat_text(versus(*source, *target).as_str(), " 造成了 ");
            number_line(head.as_str(), *amount as i128, damage_word_text(*kind))
        },
        BattleEvent::AttackMissed { source, target } => concat_text(versus(*source, *target).as_str(), " 的攻击未命中。"),
        BattleEvent::ShieldAbsorbed { side, amount } => {
            let head = concat_text(side_text(*side), " 的护盾吸收了 ");
            number_line(head.as_str(), *amount as i128, " 点伤害。")
        },
        BattleEvent::Healed { side, amount } => {
            let head = concat_text(side_text(*side), " 恢复了 ");
            number_line(head.as_str(), *amount as i128, " 点生命。")
        },
        BattleEvent::ShieldGained { side, amount } => {
            let head = concat_text(side_text(*side), " 获得了 ");
            number_line(head.as_str(), *amount as i128, " 点护盾。")
        },
        BattleEvent::CombatantFainted { side, index } => {
            let name = match side {
                Side::Player => member_name_text(player, *index),
                Side::Enemy => member_name_text(enemy, *index),
            };
            let head = join3("【", side_text(*side), "】");
            join3(head.as_str(), name.as_str(), " 倒下了。")
        },
        BattleEvent::Switched { side, index } => {
            let name = match side {
                Side::Player => member_name_text(player, *index),
                Side::Enemy => member_name_text(enemy, *index),
            };
            let head = concat_text(side_text(*side), " 换上了 ");
            join3(head.as_str(), name.as_str(), "！")
        },
    }
}

/// Whether an event is followed by a snapshot of both teams in the structured log: every kind
/// but a missed attack and a shield absorption is.
pub fn should_emit_snapshot(event: &BattleEvent) -> (b: bool)
    ensures
        b == !(event@ is AttackMissed || event@ is ShieldAbsorbed),
{
    match event {
        BattleEvent::TurnStarted { .. } | BattleEvent::SkillUsed { .. } | BattleEvent::CardUsed { .. }
        | BattleEvent::CardDiscarded { .. } | BattleEvent::DamageDealt { .. } | BattleEvent::Healed { .. }
        | BattleEvent::ShieldGained { .. } | BattleEvent::ElementAuraApplied { .. }
        | BattleEvent::ReactionTriggered { .. } | BattleEvent::WindSpreadTriggered { .. }
        | BattleEvent::WindSpreadSkipped { .. } | BattleEvent::CombatantFainted { .. }
        | BattleEvent::Switched { .. } => true,
        _ => false,
    }
}

/// Texts joined by `sep`, in order (empty when there are none).
pub open spec fn joined(texts: Seq<Seq<char>>, sep: Seq<char>) -> Seq<char>
    decreases texts.len(),
{
    if texts.len() == 0 {
        Seq::empty()
    } else if texts.len() == 1 {
        texts[0]
    } else {
        joined(texts.drop_last(), sep) + sep + texts.last()
    }
}

pub fn join_texts(texts: &Vec<String>, sep: &str) -> (s: String)
    ensures
        s@ == joined(strings_view(texts@), sep@),
{
    if texts.len() == 0 {
        return String::new();
    }
    let mut s = texts[0].clone();
    let mut i: usize = 1;
    while i < texts.len()
        invariant
            1 <= i <= texts@.len(),
            s@ == joined(strings_view(texts@.subrange(0, i as int)), sep@),
        decreases texts@.len() - i,
    {
        proof {
            let pre = strings_view(texts@.subrange(0, i + 1));
            assert(pre.drop_last() =~= strings_view(texts@.subrange(0, i as int)));
        }
        s = join3(s.as_str(), sep, texts[i].as_str());
        i = i + 1;
    }
    proof {
        assert(texts@.subrange(0, i as int) =~= texts@);
        assert(strings_view(texts@.subrange(0, 1)) =~= seq![texts@[0]@]);
    }
    s
}

/// The names of cards drawn by an effect, for the log: joined by ` / `, or `无` when none.
pub fn drawn_cards_text(drawn: &Vec<String>) -> (s: String)
    ensures
        s@ == if drawn@.len() == 0 {
            "无"@
        } else {
            joined(strings_view(drawn@), " / "@)
        },
{
    if drawn.len() == 0 {
        "无".to_owned()
    } else {
        join_texts(drawn, " / ")
    }
}

/// The names of cards, in order.
pub open spec fn card_names(ids: Seq<CardId>, cards: Seq<CardDef>) -> Seq<Seq<char>> {
    ids.map_values(|id: CardId| spec_card_name(cards, id))
}

/// The names of the cards in a hand, for the log, joined by ` / `.
pub fn hand_names(hand: &Vec<CardId>, cards: &Vec<CardDef>) -> (s: String)
    ensures
        s@ == joined(card_names(hand@, cards@), " / "@),
{
    let mut names: Vec<String> = Vec::new();
    let mut i: usize = 0;
    while i < hand.len()
        invariant
            i <= hand@.len(),
            names@.len() == i,
            strings_view(names@) == card_names(hand@.subrange(0, i as int), cards@),
        decreases hand@.len() - i,
    {
        let ghost before = names@;
        let name = card_name(cards, hand[i]);
        let ghost nv = name@;
        names.push(name);
        proof {
            assert(names@[i as int]@ == nv);
            assert(strings_view(names@) =~= card_names(hand@.subrange(0, i + 1), cards@)) by {
                assert forall|k: int| 0 <= k < i + 1 implies strings_view(names@)[k] == card_names(
                    hand@.subrange(0, i + 1),
                    cards@,
                )[k] by {
                    if k < i {
                        assert(strings_view(before)[k] == card_names(hand@.subrange(0, i as int), cards@)[k]);
                    }
                }
            }
        }
        i = i + 1;
    }
    assert(hand@.subrange(0, i as int) =~= hand@);
    join_texts(&names, " / ")
}

/// The battle log's line when a knocked-out side's next member comes in.
pub fn switched_in_line(side: Side, name: &str) -> (s: String)
    ensures
        s@ == spec_side_text(side) + "换上了 "@ + name@ + "！"@,
{
    let head = concat_text(side_text(side), "换上了 ");
    join3(head.as_str(), name, "！")
}

/// The action trace's detail when a front member faints.
pub open spec fn spec_fainted_detail(name: Seq<char>, hp: i32) -> Seq<char> {
    name + " 倒下；当前HP="@ + int_decimal(hp as int)
}

pub fn fainted_detail(name: &str, hp: i32) -> (s: String)
    ensures
        s@ == spec_fainted_detail(name@, hp),
{
    let head = concat_text(name, " 倒下；当前HP=");
    format_number_after(head.as_str(), hp as i128)
}

/// The action trace's detail when a knocked-out side's member `index` comes in.
pub open spec fn spec_auto_switch_detail(name: Seq<char>, index: usize) -> Seq<char> {
    "换上 "@ + name + "；索引="@ + int_decimal(index as int)
}

pub fn auto_switch_detail(name: &str, index: usize) -> (s: String)
    ensures
        s@ == spec_auto_switch_detail(name@, index),
{
    let head = join3("换上 ", name, "；索引=");
    format_number_after(head.as_str(), index as i128)
}

} // verus!
