# mon_battle

The rules of a turn-based monster battle with elements, statuses, reactions, a shared card
deck and action points, written in Verus with their contracts proved.

## Layout

- `src/data/` — battle content: elements and the effectiveness matrix, skills, statuses,
  reactions, monsters, cards, rule settings; `validate.rs` checks a configuration, `load.rs`
  turns a valid one into the tables a battle reads; `messages.rs` words the refusals.
- `src/battle/` — the battle itself:
  - `model.rs`, `formula.rs`, `status.rs`, `damage.rs`, `ticks.rs`, `rng.rs` — combatant state,
    stat and damage formulas (fixed point, thousandths), status boards, shields and healing,
    status ticks and the round-end count down, the hit roller;
  - `reaction.rs`, `context.rs`, `effects.rs`, `combat.rs`, `wind.rs` — element attachment and
    reactions, conditional branches, and the resolution of every skill effect, wind spreads
    included;
  - `cards.rs`, `card_events.rs` — hands, piles, AP, card effects and the card bonuses that
    answer battle events;
  - `flow.rs`, `turn.rs`, `controls.rs`, `round.rs`, `init.rs` — teams, the end-of-round check,
    knock-outs, the actions of a turn, one frame of a side's turn (local keys, a remote client's
    predictions, the enemy AI's chosen plan), the start of a round and the set-up of a battle;
  - `text.rs`, `replay.rs`, `export.rs`, `result.rs` — the battle log's lines, the replay log and
    team snapshots, export file names, and what the result screen's actions reset and where they
    lead;
  - `laws.rs` — properties that span several functions.
- `src/console_log.rs`, `src/game_state.rs`, `src/map.rs`, `src/chars.rs`, `src/arith.rs` — log
  categories, the game's states, map names, text and integer helpers.
- `app/` — a console front end: reads the RON data file, builds the teams and plays a battle in
  which the local player controls both sides.
- `tests/` — tests of the library.

Ratios (element multipliers, accuracy, heal and lifesteal ratios) are integers in thousandths:
`1000` stands for `1.0`. Hit rolls are integers below `100000`.
