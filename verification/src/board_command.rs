//! What a driver tells a board, and what a board tells its observers.

use vstd::prelude::*;
use crate::board::GameState;
use crate::piece::{PieceType, RotationDirection};

verus! {

#[derive(Clone, Copy, Debug, PartialEq, Eq, Structural)]
pub enum BoardMoveDir {
    Left,
    Right,
}

/// A command to a board.
#[derive(Clone, Copy, Debug, PartialEq, Eq, Structural)]
pub enum BoardCommand {
    /// Move the active piece: the direction and the number of cells.
    Move(BoardMoveDir, i32),
    Rotate(RotationDirection),
    HardDrop,
    /// Move the active piece down by this many cells.
    SoftDrop(u32),
    /// Take in garbage: the number of rows and the messiness.
    SendGarbage(u32, u32),
    /// Let time pass: the milliseconds since the last update.
    Update(u32),
    HoldPiece,
    RequestBoardLayout,
}

/// A notice from a board.
#[derive(Clone, Copy, Debug, PartialEq, Eq, Structural)]
pub enum BoardMessage {
    /// This piece has entered the queue at its back.
    NewPieceInQueue(PieceType),
    /// The active piece has moved, turned or been replaced.
    PieceUpdated,
    /// Garbage came in: the number of rows and the column of their hole.
    GarbageReceived(u32, u32),
    GameStateChanged(GameState),
    PlayerRemoved,
    /// The grid was written to, or its layout was asked for.
    BoardUpdated,
}

} // verus!
