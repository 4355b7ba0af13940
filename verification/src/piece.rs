//! Piece types, orientations and the active piece's geometric state.

use vstd::prelude::*;
use crate::cell_holder::CellType;
use crate::piece_points::{deg180_pos, init_pos, layout, left_pos, offset_type_of, right_pos};
use crate::primitives::{Color, Point, Rect};
use crate::utils::{calc_bounds, is_bounding_box};
use crate::wall_kick_data::WallKickType;

verus! {

/// The seven standard piece types, and `Pixel`, the single cell that garbage
/// is made of.
#[derive(Clone, Copy, Debug, PartialEq, Eq, Structural)]
pub enum PieceType {
    I,
    O,
    T,
    L,
    J,
    S,
    Z,
    Pixel,
}

/// The orientation of a piece.
#[derive(Clone, Copy, Debug, PartialEq, Eq, Structural)]
pub enum RotationState {
    Initial,
    Clockwise,
    CounterClockwise,
    Deg180,
}

/// A requested rotation.
#[derive(Clone, Copy, Debug, PartialEq, Eq, Structural)]
pub enum RotationDirection {
    Clockwise,
    CounterClockwise,
    Deg180,
}

/// The transition a rotation makes; the key into the wall-kick tables.
#[derive(Clone, Copy, Debug, PartialEq, Eq, Hash, Structural)]
pub enum RotationMove {
    InitToRight,
    RightToInit,
    RightToDeg180,
    Deg180ToRight,
    Deg180ToLeft,
    LeftToDeg180,
    LeftToInit,
    InitToLeft,
    InitToDeg180,
    Deg180ToInit,
}

/// Where the pivot of a piece lies: in the centre of its origin cell, or on
/// the corner between cells.
#[derive(Clone, Copy, Debug, PartialEq, Eq, Structural)]
pub enum OffsetType {
    Cell,
    BetweenCells,
}

impl PieceType {
    /// The name of the piece type.
    pub fn name(&self) -> (s: &'static str)
        ensures
            s@ == piece_name(*self),
    {
        match self {
            PieceType::I => "I",
            PieceType::O => "O",
            PieceType::T => "T",
            PieceType::L => "L",
            PieceType::J => "J",
            PieceType::S => "S",
            PieceType::Z => "Z",
            PieceType::Pixel => "Pixel",
        }
    }
}

/// The text that names a piece type.
pub open spec fn piece_name(t: PieceType) -> Seq<char> {
    match t {
        PieceType::I => "I"@,
        PieceType::O => "O"@,
        PieceType::T => "T"@,
        PieceType::L => "L"@,
        PieceType::J => "J"@,
        PieceType::S => "S"@,
        PieceType::Z => "Z"@,
        PieceType::Pixel => "Pixel"@,
    }
}

/// The material that a piece type leaves in the grid.
pub open spec fn cell_type_of(t: PieceType) -> CellType {
    match t {
        PieceType::I => CellType::I,
        PieceType::O => CellType::O,
        PieceType::T => CellType::T,
        PieceType::L => CellType::L,
        PieceType::J => CellType::J,
        PieceType::S => CellType::S,
        PieceType::Z => CellType::Z,
        PieceType::Pixel => CellType::Garbage,
    }
}

/// The kick table class of a piece type.
pub open spec fn wall_kick_type_of(t: PieceType) -> WallKickType {
    match t {
        PieceType::I => WallKickType::PieceI,
        PieceType::O => WallKickType::PieceO,
        _ => WallKickType::Default,
    }
}

/// The colour a piece type is drawn in.
pub open spec fn piece_color(t: PieceType) -> Color {
    match t {
        PieceType::I => Color { r: 0, g: 255, b: 255, a: 255 },
        PieceType::O => Color { r: 255, g: 255, b: 0, a: 255 },
        PieceType::T => Color { r: 160, g: 0, b: 240, a: 255 },
        PieceType::L => Color { r: 255, g: 160, b: 0, a: 255 },
        PieceType::J => Color { r: 0, g: 0, b: 255, a: 255 },
        PieceType::S => Color { r: 0, g: 255, b: 0, a: 255 },
        PieceType::Z => Color { r: 255, g: 0, b: 0, a: 255 },
        PieceType::Pixel => Color { r: 128, g: 128, b: 128, a: 255 },
    }
}

/// The orientation a quarter turn clockwise leads to.
pub open spec fn turned_right(s: RotationState) -> RotationState {
    match s {
        RotationState::Initial => RotationState::Clockwise,
        RotationState::Clockwise => RotationState::Deg180,
        RotationState::Deg180 => RotationState::CounterClockwise,
        RotationState::CounterClockwise => RotationState::Initial,
    }
}

/// The orientation a quarter turn counter-clockwise leads to.
pub open spec fn turned_left(s: RotationState) -> RotationState {
    match s {
        RotationState::Initial => RotationState::CounterClockwise,
        RotationState::Clockwise => RotationState::Initial,
        RotationState::CounterClockwise => RotationState::Deg180,
        RotationState::Deg180 => RotationState::Clockwise,
    }
}

/// The orientation a rotation leads to: a half turn is two quarter turns
/// clockwise.
pub open spec fn rotated(s: RotationState, d: RotationDirection) -> RotationState {
    match d {
        RotationDirection::Clockwise => turned_right(s),
        RotationDirection::CounterClockwise => turned_left(s),
        RotationDirection::Deg180 => turned_right(turned_right(s)),
    }
}

/// The kick table entry consulted for a rotation out of orientation `s`.
///
/// The table has no entry for the half turns between the two side
/// orientations: the one out of `Clockwise` uses `Deg180ToLeft`, the one out
/// of `CounterClockwise` uses `InitToRight`.
pub open spec fn rotation_move(s: RotationState, d: RotationDirection) -> RotationMove {
    match s {
        RotationState::Initial => match d {
            RotationDirection::Clockwise => RotationMove::InitToRight,
            RotationDirection::CounterClockwise => RotationMove::InitToLeft,
            RotationDirection::Deg180 => RotationMove::InitToDeg180,
        },
        RotationState::Clockwise => match d {
            RotationDirection::Clockwise => RotationMove::RightToDeg180,
            RotationDirection::CounterClockwise => RotationMove::RightToInit,
            RotationDirection::Deg180 => RotationMove::Deg180ToLeft,
        },
        RotationState::Deg180 => match d {
            RotationDirection::Clockwise => RotationMove::Deg180ToLeft,
            RotationDirection::CounterClockwise => RotationMove::Deg180ToRight,
            RotationDirection::Deg180 => RotationMove::Deg180ToInit,
        },
        RotationState::CounterClockwise => match d {
            RotationDirection::Clockwise => RotationMove::LeftToInit,
            RotationDirection::CounterClockwise => RotationMove::LeftToDeg180,
            RotationDirection::Deg180 => RotationMove::InitToRight,
        },
    }
}

/// The candidate offsets of one wall-kick check and the layout they are
/// tried with.
#[derive(Debug)]
pub struct WallKickCheckParams<'a> {
    pub tests: &'a [Point],
    pub expected_pos: &'a [Point],
}

/// The outcome of a wall-kick check: whether a candidate fitted, and which.
#[derive(Debug)]
pub struct WallKickCheckResult {
    pub is_success: bool,
    pub wall_kick_pos: Option<Point>,
}

/// What a piece is, mathematically: its type, its orientation and the grid
/// position of its origin.
pub struct PieceState {
    pub piece_type: PieceType,
    pub rotation: RotationState,
    pub x: int,
    pub y: int,
}

impl PieceState {
    /// The cells of the piece relative to its origin.
    pub open spec fn cells(self) -> Seq<Point> {
        layout(self.piece_type, self.rotation)
    }

    /// The piece after a rotation that also shifts it by `(dx, dy)`.
    pub open spec fn rotate(self, d: RotationDirection, dx: int, dy: int) -> PieceState {
        PieceState {
            piece_type: self.piece_type,
            rotation: rotated(self.rotation, d),
            x: self.x + dx,
            y: self.y + dy,
        }
    }

    /// The piece shifted by `(dx, dy)`.
    pub open spec fn shift(self, dx: int, dy: int) -> PieceState {
        PieceState { x: self.x + dx, y: self.y + dy, ..self }
    }
}

/// Four rotations in one direction lead back to the orientation a piece
/// started in, and leave it shifted by the sum of the four kicks: where no
/// kick shifted it, the piece is where it was, cell for cell.
pub proof fn lemma_four_rotations_restore(
    s: PieceState,
    d: RotationDirection,
    k1: (int, int),
    k2: (int, int),
    k3: (int, int),
    k4: (int, int),
)
    ensures
        s.rotate(d, k1.0, k1.1).rotate(d, k2.0, k2.1).rotate(d, k3.0, k3.1).rotate(d, k4.0, k4.1)
            == s.shift(k1.0 + k2.0 + k3.0 + k4.0, k1.1 + k2.1 + k3.1 + k4.1),
        s.rotate(d, 0, 0).rotate(d, 0, 0).rotate(d, 0, 0).rotate(d, 0, 0) == s,
        s.rotate(d, 0, 0).rotate(d, 0, 0).rotate(d, 0, 0).rotate(d, 0, 0).cells() == s.cells(),
{
}

/// A piece on the board: its type with the four layouts of that type, its
/// position, its orientation and the bounding box of its cells.
#[derive(Debug)]
pub struct Piece {
    piece_type: PieceType,
    board_cell_type: CellType,
    init_pos: Vec<Point>,
    right_pos: Vec<Point>,
    deg180_pos: Vec<Point>,
    left_pos: Vec<Point>,
    offset_type: OffsetType,
    bounds: Rect,
    x: u32,
    y: u32,
    current_rotation: RotationState,
    wall_kick_type: WallKickType,
}

impl View for Piece {
    type V = PieceState;

    closed spec fn view(&self) -> PieceState {
        PieceState {
            piece_type: self.piece_type,
            rotation: self.current_rotation,
            x: self.x as int,
            y: self.y as int,
        }
    }
}

impl Piece {
    /// The invariant of a piece: its stored layouts, material, offset
    /// convention and kick class are those of its type, and its bounding box
    /// is the tight box round its cells.
    pub closed spec fn wf(&self) -> bool {
        &&& self.init_pos@ == layout(self.piece_type, RotationState::Initial)
        &&& self.right_pos@ == layout(self.piece_type, RotationState::Clockwise)
        &&& self.deg180_pos@ == layout(self.piece_type, RotationState::Deg180)
        &&& self.left_pos@ == layout(self.piece_type, RotationState::CounterClockwise)
        &&& self.board_cell_type == cell_type_of(self.piece_type)
        &&& self.offset_type == offset_type_of(self.piece_type)
        &&& self.wall_kick_type == wall_kick_type_of(self.piece_type)
        &&& is_bounding_box(self.bounds, self@.cells(), self.x as int, self.y as int)
    }

    /// The bounding box the piece holds.
    pub closed spec fn spec_bounds(&self) -> Rect {
        self.bounds
    }

    /// A well-formed piece holds the tight bounding box of its cells.
    pub proof fn lemma_bounds_tight(&self)
        requires
            self.wf(),
        ensures
            is_bounding_box(self.spec_bounds(), self@.cells(), self@.x, self@.y),
            0 <= self@.x <= u32::MAX,
            0 <= self@.y <= u32::MAX,
    {
    }

    /// A piece of the given type at the origin of the grid, in its initial
    /// orientation.
    pub fn new(piece_type: PieceType) -> (p: Piece)
        ensures
            p.wf(),
            p@ == (PieceState { piece_type, rotation: RotationState::Initial, x: 0, y: 0 }),
    {
        let wall_kick_type = match piece_type {
            PieceType::I => WallKickType::PieceI,
            PieceType::O => WallKickType::PieceO,
            _ => WallKickType::Default,
        };
        let offset_type = match piece_type {
            PieceType::I | PieceType::O => OffsetType::BetweenCells,
            _ => OffsetType::Cell,
        };
        let board_cell_type = match piece_type {
            PieceType::I => CellType::I,
            PieceType::O => CellType::O,
            PieceType::T => CellType::T,
            PieceType::L => CellType::L,
            PieceType::J => CellType::J,
            PieceType::S => CellType::S,
            PieceType::Z => CellType::Z,
            PieceType::Pixel => CellType::Garbage,
        };
        let init = init_pos(piece_type);
        let right = right_pos(piece_type);
        let deg180 = deg180_pos(piece_type);
        let left = left_pos(piece_type);
        let bounds = calc_bounds(init.as_slice(), 0, 0);
        Piece {
            bounds,
            piece_type,
            board_cell_type,
            init_pos: init,
            right_pos: right,
            deg180_pos: deg180,
            left_pos: left,
            offset_type,
            x: 0,
            y: 0,
            current_rotation: RotationState::Initial,
            wall_kick_type,
        }
    }

    /// Turns the piece back to its initial orientation, where it stands.
    pub fn reset(&mut self)
        requires
            old(self).wf(),
        ensures
            final(self).wf(),
            final(self)@ == (PieceState { rotation: RotationState::Initial, ..old(self)@ }),
    {
        self.current_rotation = RotationState::Initial;
        self.bounds = self.calc_bounds();
    }

    /// The cells of the piece in its current orientation, relative to its
    /// origin.
    pub fn get_positions(&self) -> (cells: &[Point])
        requires
            self.wf(),
        ensures
            cells@ == self@.cells(),
    {
        self.get_current_pos()
    }

    pub fn get_type(&self) -> (t: PieceType)
        ensures
            t == self@.piece_type,
    {
        self.piece_type
    }

    pub fn get_rotation(&self) -> (r: RotationState)
        ensures
            r == self@.rotation,
    {
        self.current_rotation
    }

    pub fn get_cell_type(&self) -> (c: CellType)
        requires
            self.wf(),
        ensures
            c == cell_type_of(self@.piece_type),
    {
        self.board_cell_type
    }

    /// Moves the origin of the piece to column `x`.
    pub fn set_x(&mut self, x: u32)
        requires
            old(self).wf(),
        ensures
            final(self).wf(),
            final(self)@ == (PieceState { x: x as int, ..old(self)@ }),
    {
        self.x = x;
        self.bounds = self.calc_bounds();
    }

    /// Moves the origin of the piece to row `y`.
    pub fn set_y(&mut self, y: u32)
        requires
            old(self).wf(),
        ensures
            final(self).wf(),
            final(self)@ == (PieceState { y: y as int, ..old(self)@ }),
    {
        self.y = y;
        self.bounds = self.calc_bounds();
    }

    pub fn get_x(&self) -> (x: u32)
        ensures
            x == self@.x,
    {
        self.x
    }

    pub fn get_y(&self) -> (y: u32)
        ensures
            y == self@.y,
    {
        self.y
    }

    /// Moves the piece one cell to the left. Nothing is checked against the
    /// grid.
    pub fn move_left(&mut self)
        requires
            old(self).wf(),
            old(self)@.x > 0,
        ensures
            final(self).wf(),
            final(self)@ == old(self)@.shift(-1, 0),
    {
        self.set_x(self.x - 1);
    }

    /// Moves the piece one cell to the right. Nothing is checked against the
    /// grid.
    pub fn move_right(&mut self)
        requires
            old(self).wf(),
            old(self)@.x < u32::MAX,
        ensures
            final(self).wf(),
            final(self)@ == old(self)@.shift(1, 0),
    {
        self.set_x(self.x + 1);
    }

    /// Moves the piece one cell down. Nothing is checked against the grid.
    pub fn move_down(&mut self)
        requires
            old(self).wf(),
            old(self)@.y < u32::MAX,
        ensures
            final(self).wf(),
            final(self)@ == old(self)@.shift(0, 1),
    {
        self.set_y(self.y + 1);
    }

    pub fn get_offset_type(&self) -> (o: OffsetType)
        requires
            self.wf(),
        ensures
            o == offset_type_of(self@.piece_type),
    {
        self.offset_type
    }

    /// The cells of the piece in its current orientation, relative to its
    /// origin.
    pub fn get_current_pos(&self) -> (cells: &[Point])
        requires
            self.wf(),
        ensures
            cells@ == self@.cells(),
    {
        match self.current_rotation {
            RotationState::Initial => self.init_pos.as_slice(),
            RotationState::Clockwise => self.right_pos.as_slice(),
            RotationState::CounterClockwise => self.left_pos.as_slice(),
            RotationState::Deg180 => self.deg180_pos.as_slice(),
        }
    }

    pub fn get_wall_kick_type(&self) -> (k: &WallKickType)
        requires
            self.wf(),
        ensures
            *k == wall_kick_type_of(self@.piece_type),
    {
        &self.wall_kick_type
    }

    /// Rotates the piece and shifts it by the given offset, the wall kick
    /// that the caller resolved. Nothing is checked against the grid.
    pub fn rotate(&mut self, rotation: RotationDirection, x_offset: i32, y_offset: i32)
        requires
            old(self).wf(),
            0 <= old(self)@.x + x_offset <= u32::MAX,
            0 <= old(self)@.y + y_offset <= u32::MAX,
        ensures
            final(self).wf(),
            final(self)@ == old(self)@.rotate(rotation, x_offset as int, y_offset as int),
    {
        self.rotate_simple(rotation);
        let ix: i64 = self.x as i64 + x_offset as i64;
        let iy: i64 = self.y as i64 + y_offset as i64;
        self.x = ix as u32;
        self.y = iy as u32;
        self.bounds = self.calc_bounds();
    }

    /// The tight bounding box of the piece's cells on the grid.
    pub fn get_bounds(&self) -> (r: Rect)
        requires
            self.wf(),
        ensures
            r == self.spec_bounds(),
            is_bounding_box(r, self@.cells(), self@.x, self@.y),
    {
        self.bounds
    }

    pub fn get_color(&self) -> (c: Color)
        ensures
            c == piece_color(self@.piece_type),
    {
        match self.piece_type {
            PieceType::I => Color::new(0, 255, 255, 255),
            PieceType::O => Color::new(255, 255, 0, 255),
            PieceType::T => Color::new(160, 0, 240, 255),
            PieceType::L => Color::new(255, 160, 0, 255),
            PieceType::J => Color::new(0, 0, 255, 255),
            PieceType::S => Color::new(0, 255, 0, 255),
            PieceType::Z => Color::new(255, 0, 0, 255),
            PieceType::Pixel => Color::new(128, 128, 128, 255),
        }
    }

    /// The invariant but for the bounding box, which the methods below are
    /// about to compute.
    spec fn layouts_wf(&self) -> bool {
        &&& self.init_pos@ == layout(self.piece_type, RotationState::Initial)
        &&& self.right_pos@ == layout(self.piece_type, RotationState::Clockwise)
        &&& self.deg180_pos@ == layout(self.piece_type, RotationState::Deg180)
        &&& self.left_pos@ == layout(self.piece_type, RotationState::CounterClockwise)
        &&& self.board_cell_type == cell_type_of(self.piece_type)
        &&& self.offset_type == offset_type_of(self.piece_type)
        &&& self.wall_kick_type == wall_kick_type_of(self.piece_type)
    }

    fn calc_bounds(&self) -> (r: Rect)
        requires
            self.layouts_wf(),
        ensures
            is_bounding_box(r, self@.cells(), self.x as int, self.y as int),
    {
        let cells = match self.current_rotation {
            RotationState::Initial => self.init_pos.as_slice(),
            RotationState::Clockwise => self.right_pos.as_slice(),
            RotationState::CounterClockwise => self.left_pos.as_slice(),
            RotationState::Deg180 => self.deg180_pos.as_slice(),
        };
        calc_bounds(cells, self.x as i64, self.y as i64)
    }

    fn rotate_simple(&mut self, rotation: RotationDirection)
        requires
            old(self).layouts_wf(),
        ensures
            final(self).wf(),
            final(self)@ == old(self)@.rotate(rotation, 0, 0),
    {
        match rotation {
            RotationDirection::Clockwise => self.rotate_right(),
            RotationDirection::CounterClockwise => self.rotate_left(),
            RotationDirection::Deg180 => {
                self.rotate_right();
                self.rotate_right();
            },
        }
        self.bounds = self.calc_bounds();
    }

    fn rotate_right(&mut self)
        ensures
            final(self).current_rotation == turned_right(old(self).current_rotation),
            final(self).same_but_rotation(*old(self)),
    {
        self.current_rotation =
        match self.current_rotation {
            RotationState::Initial => RotationState::Clockwise,
            RotationState::Clockwise => RotationState::Deg180,
            RotationState::Deg180 => RotationState::CounterClockwise,
            RotationState::CounterClockwise => RotationState::Initial,
        }
    }

    fn rotate_left(&mut self)
        ensures
            final(self).current_rotation == turned_left(old(self).current_rotation),
            final(self).same_but_rotation(*old(self)),
    {
        self.current_rotation =
        match self.current_rotation {
            RotationState::Initial => RotationState::CounterClockwise,
            RotationState::Clockwise => RotationState::Initial,
            RotationState::CounterClockwise => RotationState::Deg180,
            RotationState::Deg180 => RotationState::Clockwise,
        }
    }

    /// Whether the two pieces differ in nothing but their orientation.
    spec fn same_but_rotation(&self, other: Piece) -> bool {
        &&& self.piece_type == other.piece_type
        &&& self.board_cell_type == other.board_cell_type
        &&& self.init_pos == other.init_pos
        &&& self.right_pos == other.right_pos
        &&& self.deg180_pos == other.deg180_pos
        &&& self.left_pos == other.left_pos
        &&& self.offset_type == other.offset_type
        &&& self.bounds == other.bounds
        &&& self.x == other.x
        &&& self.y == other.y
        &&& self.wall_kick_type == other.wall_kick_type
    }

    /// The kick table entry for a rotation out of the current orientation,
    /// and the layout the piece would have after it.
    pub fn get_rotation_type(&self, rotation: RotationDirection) -> (r: (RotationMove, &[Point]))
        requires
            self.wf(),
        ensures
            r.0 == rotation_move(self@.rotation, rotation),
            r.1@ == layout(self@.piece_type, rotated(self@.rotation, rotation)),
    {
        match self.current_rotation {
            RotationState::Initial => match rotation {
                RotationDirection::Clockwise => (
                    RotationMove::InitToRight,
                    self.right_pos.as_slice(),
                ),
                RotationDirection::CounterClockwise => (
                    RotationMove::InitToLeft,
                    self.left_pos.as_slice(),
                ),
                RotationDirection::Deg180 => (
                    RotationMove::InitToDeg180,
                    self.deg180_pos.as_slice(),
                ),
            },
            RotationState::Clockwise => match rotation {
                RotationDirection::Clockwise => (
                    RotationMove::RightToDeg180,
                    self.deg180_pos.as_slice(),
                ),
                RotationDirection::CounterClockwise => (
                    RotationMove::RightToInit,
                    self.init_pos.as_slice(),
                ),
                RotationDirection::Deg180 => (RotationMove::Deg180ToLeft, self.left_pos.as_slice()),
            },
            RotationState::Deg180 => match rotation {
                RotationDirection::Clockwise => (
                    RotationMove::Deg180ToLeft,
                    self.left_pos.as_slice(),
                ),
                RotationDirection::CounterClockwise => (
                    RotationMove::Deg180ToRight,
                    self.right_pos.as_slice(),
                ),
                RotationDirection::Deg180 => (RotationMove::Deg180ToInit, self.init_pos.as_slice()),
            },
            RotationState::CounterClockwise => match rotation {
                RotationDirection::Clockwise => (
                    RotationMove::LeftToInit,
                    self.init_pos.as_slice(),
                ),
                RotationDirection::CounterClockwise => (
                    RotationMove::LeftToDeg180,
                    self.deg180_pos.as_slice(),
                ),
                RotationDirection::Deg180 => (RotationMove::InitToRight, self.right_pos.as_slice()),
            },
        }
    }
}

} // verus!
