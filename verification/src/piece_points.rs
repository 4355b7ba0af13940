//! The cell layouts of every piece type in each of its four orientations.
//!
//! A layout lists the cells of a piece relative to its origin, `y` growing
//! downwards. The orientations of one piece are quarter turns of its initial
//! layout: about the centre of the origin cell for the cell-centred pieces,
//! about the upper left corner of the origin cell for `I` and `O`.

use vstd::prelude::*;
use crate::piece::{OffsetType, PieceType, RotationState};
use crate::primitives::Point;

verus! {

/// The offset convention of a piece type.
pub open spec fn offset_type_of(t: PieceType) -> OffsetType {
    match t {
        PieceType::I | PieceType::O => OffsetType::BetweenCells,
        _ => OffsetType::Cell,
    }
}

/// The cell `p` after a quarter turn clockwise about the pivot of the given
/// offset convention.
pub open spec fn turned(offset: OffsetType, p: Point) -> Point {
    match offset {
        OffsetType::Cell => Point { x: (-p.y) as i32, y: p.x },
        OffsetType::BetweenCells => Point { x: (-p.y - 1) as i32, y: p.x },
    }
}

/// Every cell of `cells` after a quarter turn clockwise, in the same order.
pub open spec fn turned_all(offset: OffsetType, cells: Seq<Point>) -> Seq<Point> {
    Seq::new(cells.len(), |i: int| turned(offset, cells[i]))
}

/// The cell at offset `(x, y)` from the origin.
pub open spec fn cell(x: int, y: int) -> Point {
    Point { x: x as i32, y: y as i32 }
}

/// The layout of a piece type in its initial orientation.
pub open spec fn initial_layout(t: PieceType) -> Seq<Point> {
    match t {
        PieceType::I => seq![
            cell(-2, -1),
            cell(-1, -1),
            cell(0, -1),
            cell(1, -1),
        ],
        PieceType::O => seq![
            cell(-1, -1),
            cell(0, -1),
            cell(-1, 0),
            cell(0, 0),
        ],
        PieceType::T => seq![
            cell(-1, 0),
            cell(0, 0),
            cell(1, 0),
            cell(0, -1),
        ],
        PieceType::L => seq![
            cell(-1, 0),
            cell(0, 0),
            cell(1, 0),
            cell(1, -1),
        ],
        PieceType::J => seq![
            cell(-1, -1),
            cell(-1, 0),
            cell(0, 0),
            cell(1, 0),
        ],
        PieceType::S => seq![
            cell(-1, 0),
            cell(0, 0),
            cell(0, -1),
            cell(1, -1),
        ],
        PieceType::Z => seq![
            cell(-1, -1),
            cell(0, -1),
            cell(0, 0),
            cell(1, 0),
        ],
        PieceType::Pixel => seq![cell(0, 0)],
    }
}

/// The layout of a piece type in the given orientation: its initial layout
/// after as many quarter turns clockwise as lead to that orientation.
pub open spec fn layout(t: PieceType, state: RotationState) -> Seq<Point> {
    let o = offset_type_of(t);
    match state {
        RotationState::Initial => initial_layout(t),
        RotationState::Clockwise => turned_all(o, initial_layout(t)),
        RotationState::Deg180 => turned_all(o, turned_all(o, initial_layout(t))),
        RotationState::CounterClockwise => turned_all(
            o,
            turned_all(o, turned_all(o, initial_layout(t))),
        ),
    }
}

/// The index of a cell that every layout of a piece type has in or left of
/// the origin column and in or above the origin row.
pub open spec fn anchor_index(t: PieceType) -> int {
    match t {
        PieceType::I => 2,
        PieceType::O => 3,
        PieceType::T => 1,
        PieceType::L => 1,
        PieceType::J => 2,
        PieceType::S => 1,
        PieceType::Z => 2,
        PieceType::Pixel => 0,
    }
}

/// A layout has between one and four cells, none further than two cells from
/// the origin, and its anchor cell lies neither right of nor below the
/// origin: a piece that is inside the grid has its origin inside the grid's
/// columns and rows.
pub proof fn lemma_layout_shape(t: PieceType, state: RotationState)
    ensures
        1 <= layout(t, state).len() <= 4,
        0 <= anchor_index(t) < layout(t, state).len(),
        layout(t, state)[anchor_index(t)].x <= 0,
        layout(t, state)[anchor_index(t)].y <= 0,
        forall|i: int|
            0 <= i < layout(t, state).len() ==> -2 <= (#[trigger] layout(t, state)[i]).x <= 1
                && -2 <= layout(t, state)[i].y <= 1,
{
}

/// The layouts of the orientations follow one another by quarter turns
/// clockwise, and the fourth turn leads back to the initial layout.
pub proof fn lemma_layout_turns(t: PieceType, state: RotationState)
    ensures
        layout(t, crate::piece::turned_right(state)) == turned_all(
            offset_type_of(t),
            layout(t, state),
        ),
{
    let o = offset_type_of(t);
    assert(turned_all(o, turned_all(o, turned_all(o, turned_all(o, initial_layout(t)))))
        =~= initial_layout(t));
}

pub fn init_pos(t: PieceType) -> (cells: Vec<Point>)
    ensures
        cells@ == layout(t, RotationState::Initial),
{
    let cells = match t {
        PieceType::I => vec![
            Point::new(-2, -1),
            Point::new(-1, -1),
            Point::new(0, -1),
            Point::new(1, -1),
        ],
        PieceType::O => vec![
            Point::new(-1, -1),
            Point::new(0, -1),
            Point::new(-1, 0),
            Point::new(0, 0),
        ],
        PieceType::T => vec![
            Point::new(-1, 0),
            Point::new(0, 0),
            Point::new(1, 0),
            Point::new(0, -1),
        ],
        PieceType::L => vec![
            Point::new(-1, 0),
            Point::new(0, 0),
            Point::new(1, 0),
            Point::new(1, -1),
        ],
        PieceType::J => vec![
            Point::new(-1, -1),
            Point::new(-1, 0),
            Point::new(0, 0),
            Point::new(1, 0),
        ],
        PieceType::S => vec![
            Point::new(-1, 0),
            Point::new(0, 0),
            Point::new(0, -1),
            Point::new(1, -1),
        ],
        PieceType::Z => vec![
            Point::new(-1, -1),
            Point::new(0, -1),
            Point::new(0, 0),
            Point::new(1, 0),
        ],
        PieceType::Pixel => vec![Point::new(0, 0)],
    };
    assert(cells@ =~= layout(t, RotationState::Initial));
    cells
}

pub fn right_pos(t: PieceType) -> (cells: Vec<Point>)
    ensures
        cells@ == layout(t, RotationState::Clockwise),
{
    let cells = match t {
        PieceType::I => vec![
            Point::new(0, -2),
            Point::new(0, -1),
            Point::new(0, 0),
            Point::new(0, 1),
        ],
        PieceType::O => vec![
            Point::new(0, -1),
            Point::new(0, 0),
            Point::new(-1, -1),
            Point::new(-1, 0),
        ],
        PieceType::T => vec![
            Point::new(0, -1),
            Point::new(0, 0),
            Point::new(0, 1),
            Point::new(1, 0),
        ],
        PieceType::L => vec![
            Point::new(0, -1),
            Point::new(0, 0),
            Point::new(0, 1),
            Point::new(1, 1),
        ],
        PieceType::J => vec![
            Point::new(1, -1),
            Point::new(0, -1),
            Point::new(0, 0),
            Point::new(0, 1),
        ],
        PieceType::S => vec![
            Point::new(0, -1),
            Point::new(0, 0),
            Point::new(1, 0),
            Point::new(1, 1),
        ],
        PieceType::Z => vec![
            Point::new(1, -1),
            Point::new(1, 0),
            Point::new(0, 0),
            Point::new(0, 1),
        ],
        PieceType::Pixel => vec![Point::new(0, 0)],
    };
    assert(cells@ =~= layout(t, RotationState::Clockwise));
    cells
}

pub fn deg180_pos(t: PieceType) -> (cells: Vec<Point>)
    ensures
        cells@ == layout(t, RotationState::Deg180),
{
    let cells = match t {
        PieceType::I => vec![
            Point::new(1, 0),
            Point::new(0, 0),
            Point::new(-1, 0),
            Point::new(-2, 0),
        ],
        PieceType::O => vec![
            Point::new(0, 0),
            Point::new(-1, 0),
            Point::new(0, -1),
            Point::new(-1, -1),
        ],
        PieceType::T => vec![
            Point::new(1, 0),
            Point::new(0, 0),
            Point::new(-1, 0),
            Point::new(0, 1),
        ],
        PieceType::L => vec![
            Point::new(1, 0),
            Point::new(0, 0),
            Point::new(-1, 0),
            Point::new(-1, 1),
        ],
        PieceType::J => vec![
            Point::new(1, 1),
            Point::new(1, 0),
            Point::new(0, 0),
            Point::new(-1, 0),
        ],
        PieceType::S => vec![
            Point::new(1, 0),
            Point::new(0, 0),
            Point::new(0, 1),
            Point::new(-1, 1),
        ],
        PieceType::Z => vec![
            Point::new(1, 1),
            Point::new(0, 1),
            Point::new(0, 0),
            Point::new(-1, 0),
        ],
        PieceType::Pixel => vec![Point::new(0, 0)],
    };
    assert(cells@ =~= layout(t, RotationState::Deg180));
    cells
}

pub fn left_pos(t: PieceType) -> (cells: Vec<Point>)
    ensures
        cells@ == layout(t, RotationState::CounterClockwise),
{
    let cells = match t {
        PieceType::I => vec![
            Point::new(-1, 1),
            Point::new(-1, 0),
            Point::new(-1, -1),
            Point::new(-1, -2),
        ],
        PieceType::O => vec![
            Point::new(-1, 0),
            Point::new(-1, -1),
            Point::new(0, 0),
            Point::new(0, -1),
        ],
        PieceType::T => vec![
            Point::new(0, 1),
            Point::new(0, 0),
            Point::new(0, -1),
            Point::new(-1, 0),
        ],
        PieceType::L => vec![
            Point::new(0, 1),
            Point::new(0, 0),
            Point::new(0, -1),
            Point::new(-1, -1),
        ],
        PieceType::J => vec![
            Point::new(-1, 1),
            Point::new(0, 1),
            Point::new(0, 0),
            Point::new(0, -1),
        ],
        PieceType::S => vec![
            Point::new(0, 1),
            Point::new(0, 0),
            Point::new(-1, 0),
            Point::new(-1, -1),
        ],
        PieceType::Z => vec![
            Point::new(-1, 1),
            Point::new(-1, 0),
            Point::new(0, 0),
            Point::new(0, -1),
        ],
        PieceType::Pixel => vec![Point::new(0, 0)],
    };
    assert(cells@ =~= layout(t, RotationState::CounterClockwise));
    cells
}

} // verus!
