//! The settings a board is made with. The engine only reads them.

use vstd::prelude::*;
use crate::wall_kick_data::WallKickDataMode;

verus! {

/// The size of the grid, in cells.
#[derive(Clone, Copy, Debug, PartialEq, Eq, Structural)]
pub struct BoardSettings {
    pub width: usize,
    pub height: usize,
}

impl BoardSettings {
    /// A grid has at least one cell, and its sides fit in 31 bits.
    pub open spec fn wf(self) -> bool {
        &&& 1 <= self.width <= 0x7fff_ffff
        &&& 1 <= self.height <= 0x7fff_ffff
    }
}

/// How fast pieces fall and how long they rest before they lock.
///
/// Time is counted in milliseconds and descent in millionths of a cell, so a
/// rate of 1000 lets a piece fall one cell per second.
#[derive(Clone, Copy, Debug, PartialEq, Eq, Structural)]
pub struct GravitySettings {
    /// The rate at the start of a game, in millionths of a cell per
    /// millisecond.
    pub base_rate: u32,
    /// What is added to the rate for every full second played.
    pub rate_increase: u32,
    /// How long a resting piece waits before it locks, in milliseconds.
    pub lock_delay: u32,
    /// How often the wait of one piece may be started anew.
    pub max_lock_resets: u32,
}

/// The lines of garbage a lock sends, by the number of rows it cleared.
#[derive(Clone, Copy, Debug, PartialEq, Eq, Structural)]
pub struct AttackSettings {
    pub lines_1: u32,
    pub lines_2: u32,
    pub lines_3: u32,
    pub lines_4: u32,
    /// What is added when a four-row clear follows another with no smaller
    /// clear in between.
    pub back_to_back: u32,
}

/// Everything a board is configured with.
#[derive(Clone, Copy, Debug, PartialEq, Eq, Structural)]
pub struct GameSettings {
    pub board: BoardSettings,
    pub gravity: GravitySettings,
    pub attack: AttackSettings,
    pub wall_kick_data_mode: WallKickDataMode,
    /// How many upcoming pieces the queue shows.
    pub queue_size: usize,
}

/// The settings of a standard game: a grid ten cells wide and forty high, one
/// cell of descent per second, half a second of lock delay, five pieces of
/// lookahead.
pub open spec fn default_settings() -> GameSettings {
    GameSettings {
        board: BoardSettings { width: 10, height: 40 },
        gravity: GravitySettings {
            base_rate: 1000,
            rate_increase: 0,
            lock_delay: 500,
            max_lock_resets: 15,
        },
        attack: AttackSettings { lines_1: 0, lines_2: 1, lines_3: 2, lines_4: 4, back_to_back: 1 },
        wall_kick_data_mode: WallKickDataMode::Standard,
        queue_size: 5,
    }
}

impl GameSettings {
    /// Settings are usable when the grid is.
    pub open spec fn wf(self) -> bool {
        self.board.wf()
    }

    /// Whether a board can be made with these settings.
    pub fn is_valid(&self) -> (b: bool)
        ensures
            b == self.wf(),
    {
        1 <= self.board.width && self.board.width <= 0x7fff_ffff && 1 <= self.board.height
            && self.board.height <= 0x7fff_ffff
    }

    pub fn get_board(&self) -> (b: &BoardSettings)
        ensures
            *b == self.board,
    {
        &self.board
    }

    pub fn get_gravity(&self) -> (g: &GravitySettings)
        ensures
            *g == self.gravity,
    {
        &self.gravity
    }

    pub fn get_attack(&self) -> (a: &AttackSettings)
        ensures
            *a == self.attack,
    {
        &self.attack
    }
}

impl Default for GameSettings {
    fn default() -> (s: GameSettings)
        ensures
            s == default_settings(),
            s.wf(),
    {
        GameSettings {
            board: BoardSettings { width: 10, height: 40 },
            gravity: GravitySettings {
                base_rate: 1000,
                rate_increase: 0,
                lock_delay: 500,
                max_lock_resets: 15,
            },
            attack: AttackSettings {
                lines_1: 0,
                lines_2: 1,
                lines_3: 2,
                lines_4: 4,
                back_to_back: 1,
            },
            wall_kick_data_mode: WallKickDataMode::Standard,
            queue_size: 5,
        }
    }
}

} // verus!
