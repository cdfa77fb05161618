//! The rules of a turn-based monster battle: battle content and its checks, the resolution of
//! skills and cards, the flow of turns and rounds, and the battle log's text.
pub mod arith;
pub mod battle;
pub mod chars;
pub mod console_log;
pub mod data;
pub mod game_state;
pub mod map;
