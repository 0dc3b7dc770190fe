//! A tic-tac-toe library: board model, outcome analysis, and a verified
//! game-tree move evaluator with a difficulty-driven AI player policy.

pub mod active_player;
pub mod ai;
pub mod game_outcome;
pub mod game_settings;
pub mod gameboard;
pub mod player_type;
pub mod ui;
pub mod winner;
