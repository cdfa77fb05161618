//! The battle rules: formulas, statuses, effects, cards and the flow of a battle.
pub mod model;
pub mod formula;
pub mod status;
pub mod damage;
pub mod ticks;
pub mod round;
pub mod reaction;
pub mod rng;
pub mod context;
pub mod effects;
pub mod combat;
pub mod wind;
pub mod flow;
pub mod text;
pub mod cards;
pub mod card_events;
pub mod turn;
pub mod controls;
pub mod init;
pub mod laws;
pub mod export;
pub mod result;
pub mod replay;
