pub mod board;
pub mod counters;
pub mod factory;
pub mod board_text;
pub mod game;
pub mod input;
pub mod judge;
pub mod lines;
pub mod listing;
pub mod subcmd;
pub mod todo;
