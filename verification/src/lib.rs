//! Rules engine for a two-player territorial conquest board game:
//! 42 territories in 6 continents, alternating turns, dice-resolved combat
//! with exact weighted outcome distributions.

pub mod apply_move_result;
pub mod arena;
pub mod bots;
pub mod combat;
pub mod draw_map;
pub mod game;
pub mod game_state;
pub mod initial_placement;
pub mod move_results;
pub mod moves;
pub mod player;
mod rng;
pub mod seq_facts;
pub mod territories;

pub use player::Player;
