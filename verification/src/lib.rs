//! Deterministic simulation core of a falling-block puzzle game: the cell
//! grid, the active piece with wall-kick rotation, gravity and lock delay,
//! garbage injection and a seeded bag randomizer, each with a proved contract.

pub mod board;
pub mod board_command;
pub mod board_manager;
pub mod cell_holder;
pub mod game_settings;
pub mod gravity_mgr;
pub mod lobbies;
pub mod piece;
pub mod piece_generators;
pub mod piece_mgr;
pub mod piece_points;
pub mod piece_queue;
pub mod primitives;
pub mod replays;
pub mod rng_manager;
pub mod utils;
pub mod wall_kick_data;
