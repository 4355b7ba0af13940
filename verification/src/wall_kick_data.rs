//! Wall-kick tables: the offsets tried, in order, when a rotation in place
//! would collide.
//!
//! Offsets are in grid coordinates, `y` growing downwards. The first test of
//! every entry is `(0, 0)`, the rotation in place.

use vstd::prelude::*;
use crate::piece::RotationMove;
use crate::piece_points::cell;
use crate::primitives::Point;

verus! {

/// The class of kick table a piece uses.
#[derive(Clone, Copy, Debug, PartialEq, Eq, Structural)]
pub enum WallKickType {
    Default,
    PieceI,
    PieceO,
}

/// The ruleset the tables are taken from.
#[derive(Clone, Copy, Debug, PartialEq, Eq, Structural)]
pub enum WallKickDataMode {
    /// The kicks of the Standard Rotation System. Half turns are tried in
    /// place only.
    Standard,
}

/// The transition that undoes `mv`.
pub open spec fn reverse_move(mv: RotationMove) -> RotationMove {
    match mv {
        RotationMove::InitToRight => RotationMove::RightToInit,
        RotationMove::RightToInit => RotationMove::InitToRight,
        RotationMove::RightToDeg180 => RotationMove::Deg180ToRight,
        RotationMove::Deg180ToRight => RotationMove::RightToDeg180,
        RotationMove::Deg180ToLeft => RotationMove::LeftToDeg180,
        RotationMove::LeftToDeg180 => RotationMove::Deg180ToLeft,
        RotationMove::LeftToInit => RotationMove::InitToLeft,
        RotationMove::InitToLeft => RotationMove::LeftToInit,
        RotationMove::InitToDeg180 => RotationMove::Deg180ToInit,
        RotationMove::Deg180ToInit => RotationMove::InitToDeg180,
    }
}

/// The position of a transition in a table.
pub open spec fn move_index(mv: RotationMove) -> int {
    match mv {
        RotationMove::InitToRight => 0,
        RotationMove::RightToInit => 1,
        RotationMove::RightToDeg180 => 2,
        RotationMove::Deg180ToRight => 3,
        RotationMove::Deg180ToLeft => 4,
        RotationMove::LeftToDeg180 => 5,
        RotationMove::LeftToInit => 6,
        RotationMove::InitToLeft => 7,
        RotationMove::InitToDeg180 => 8,
        RotationMove::Deg180ToInit => 9,
    }
}

/// The tests of the `Standard` ruleset for the cell-centred pieces.
pub open spec fn standard_default_tests(mv: RotationMove) -> Seq<Point> {
    match mv {
        RotationMove::InitToRight => seq![
            cell(0, 0),
            cell(-1, 0),
            cell(-1, -1),
            cell(0, 2),
            cell(-1, 2),
        ],
        RotationMove::RightToInit => seq![
            cell(0, 0),
            cell(1, 0),
            cell(1, 1),
            cell(0, -2),
            cell(1, -2),
        ],
        RotationMove::RightToDeg180 => seq![
            cell(0, 0),
            cell(1, 0),
            cell(1, 1),
            cell(0, -2),
            cell(1, -2),
        ],
        RotationMove::Deg180ToRight => seq![
            cell(0, 0),
            cell(-1, 0),
            cell(-1, -1),
            cell(0, 2),
            cell(-1, 2),
        ],
        RotationMove::Deg180ToLeft => seq![
            cell(0, 0),
            cell(1, 0),
            cell(1, -1),
            cell(0, 2),
            cell(1, 2),
        ],
        RotationMove::LeftToDeg180 => seq![
            cell(0, 0),
            cell(-1, 0),
            cell(-1, 1),
            cell(0, -2),
            cell(-1, -2),
        ],
        RotationMove::LeftToInit => seq![
            cell(0, 0),
            cell(-1, 0),
            cell(-1, 1),
            cell(0, -2),
            cell(-1, -2),
        ],
        RotationMove::InitToLeft => seq![
            cell(0, 0),
            cell(1, 0),
            cell(1, -1),
            cell(0, 2),
            cell(1, 2),
        ],
        RotationMove::InitToDeg180 | RotationMove::Deg180ToInit => seq![cell(0, 0)],
    }
}

/// The tests of the `Standard` ruleset for the `I` piece.
pub open spec fn standard_i_tests(mv: RotationMove) -> Seq<Point> {
    match mv {
        RotationMove::InitToRight => seq![
            cell(0, 0),
            cell(-2, 0),
            cell(1, 0),
            cell(-2, 1),
            cell(1, -2),
        ],
        RotationMove::RightToInit => seq![
            cell(0, 0),
            cell(2, 0),
            cell(-1, 0),
            cell(2, -1),
            cell(-1, 2),
        ],
        RotationMove::RightToDeg180 => seq![
            cell(0, 0),
            cell(-1, 0),
            cell(2, 0),
            cell(-1, -2),
            cell(2, 1),
        ],
        RotationMove::Deg180ToRight => seq![
            cell(0, 0),
            cell(1, 0),
            cell(-2, 0),
            cell(1, 2),
            cell(-2, -1),
        ],
        RotationMove::Deg180ToLeft => seq![
            cell(0, 0),
            cell(2, 0),
            cell(-1, 0),
            cell(2, -1),
            cell(-1, 2),
        ],
        RotationMove::LeftToDeg180 => seq![
            cell(0, 0),
            cell(-2, 0),
            cell(1, 0),
            cell(-2, 1),
            cell(1, -2),
        ],
        RotationMove::LeftToInit => seq![
            cell(0, 0),
            cell(1, 0),
            cell(-2, 0),
            cell(1, 2),
            cell(-2, -1),
        ],
        RotationMove::InitToLeft => seq![
            cell(0, 0),
            cell(-1, 0),
            cell(2, 0),
            cell(-1, -2),
            cell(2, 1),
        ],
        RotationMove::InitToDeg180 | RotationMove::Deg180ToInit => seq![cell(0, 0)],
    }
}

/// The ordered tests of a ruleset for a kick class and a transition. The `O`
/// piece looks the same in every orientation and is only tried in place.
pub open spec fn kick_tests(
    mode: WallKickDataMode,
    kind: WallKickType,
    mv: RotationMove,
) -> Seq<Point> {
    match mode {
        WallKickDataMode::Standard => match kind {
            WallKickType::Default => standard_default_tests(mv),
            WallKickType::PieceI => standard_i_tests(mv),
            WallKickType::PieceO => seq![cell(0, 0)],
        },
    }
}

/// Every entry begins with the rotation in place, holds at most five tests,
/// and no test shifts a piece by more than two cells along either axis.
pub proof fn lemma_kick_tests_shape(mode: WallKickDataMode, kind: WallKickType, mv: RotationMove)
    ensures
        1 <= kick_tests(mode, kind, mv).len() <= 5,
        kick_tests(mode, kind, mv)[0] == cell(0, 0),
        forall|i: int|
            0 <= i < kick_tests(mode, kind, mv).len() ==> -2 <= (#[trigger] kick_tests(
                mode,
                kind,
                mv,
            )[i]).x <= 2 && -2 <= kick_tests(mode, kind, mv)[i].y <= 2,
{
}

/// The tests of a transition are those of the transition that undoes it,
/// each pointing the opposite way: a kick that was needed to turn a piece is
/// taken back when the piece is turned back.
pub proof fn lemma_kick_tests_reverse(mode: WallKickDataMode, kind: WallKickType, mv: RotationMove)
    ensures
        kick_tests(mode, kind, reverse_move(mv)).len() == kick_tests(mode, kind, mv).len(),
        forall|i: int|
            0 <= i < kick_tests(mode, kind, mv).len() ==> (#[trigger] kick_tests(
                mode,
                kind,
                reverse_move(mv),
            )[i]).x == -kick_tests(mode, kind, mv)[i].x && kick_tests(
                mode,
                kind,
                reverse_move(mv),
            )[i].y == -kick_tests(mode, kind, mv)[i].y,
{
}

/// The kick tables of one ruleset.
#[derive(Debug)]
pub struct WallKickData {
    mode: WallKickDataMode,
    default_tests: Vec<Vec<Point>>,
    i_tests: Vec<Vec<Point>>,
    o_tests: Vec<Vec<Point>>,
}

/// Whether `table` holds the tests of `kind`, one entry per transition.
pub open spec fn is_table(
    table: Seq<Vec<Point>>,
    mode: WallKickDataMode,
    kind: WallKickType,
) -> bool {
    &&& table.len() == 10
    &&& forall|mv: RotationMove| (#[trigger] table[move_index(mv)])@ == kick_tests(mode, kind, mv)
}

fn row1(a: (i32, i32)) -> (row: Vec<Point>)
    ensures
        row@ == seq![cell(a.0 as int, a.1 as int)],
{
    let row = vec![Point::new(a.0, a.1)];
    assert(row@ =~= seq![cell(a.0 as int, a.1 as int)]);
    row
}

fn row5(a: (i32, i32), b: (i32, i32), c: (i32, i32), d: (i32, i32), e: (i32, i32)) -> (row: Vec<
    Point,
>)
    ensures
        row@ == seq![
            cell(a.0 as int, a.1 as int),
            cell(b.0 as int, b.1 as int),
            cell(c.0 as int, c.1 as int),
            cell(d.0 as int, d.1 as int),
            cell(e.0 as int, e.1 as int),
        ],
{
    let row = vec![
        Point::new(a.0, a.1),
        Point::new(b.0, b.1),
        Point::new(c.0, c.1),
        Point::new(d.0, d.1),
        Point::new(e.0, e.1),
    ];
    assert(row@ =~= seq![
        cell(a.0 as int, a.1 as int),
        cell(b.0 as int, b.1 as int),
        cell(c.0 as int, c.1 as int),
        cell(d.0 as int, d.1 as int),
        cell(e.0 as int, e.1 as int),
    ]);
    row
}

fn default_table(mode: WallKickDataMode) -> (table: Vec<Vec<Point>>)
    ensures
        is_table(table@, mode, WallKickType::Default),
{
    let mut table: Vec<Vec<Point>> = Vec::new();
    match mode {
        WallKickDataMode::Standard => {
            table.push(row5((0, 0), (-1, 0), (-1, -1), (0, 2), (-1, 2)));
            table.push(row5((0, 0), (1, 0), (1, 1), (0, -2), (1, -2)));
            table.push(row5((0, 0), (1, 0), (1, 1), (0, -2), (1, -2)));
            table.push(row5((0, 0), (-1, 0), (-1, -1), (0, 2), (-1, 2)));
            table.push(row5((0, 0), (1, 0), (1, -1), (0, 2), (1, 2)));
            table.push(row5((0, 0), (-1, 0), (-1, 1), (0, -2), (-1, -2)));
            table.push(row5((0, 0), (-1, 0), (-1, 1), (0, -2), (-1, -2)));
            table.push(row5((0, 0), (1, 0), (1, -1), (0, 2), (1, 2)));
            table.push(row1((0, 0)));
            table.push(row1((0, 0)));
        },
    }
    table
}

fn i_table(mode: WallKickDataMode) -> (table: Vec<Vec<Point>>)
    ensures
        is_table(table@, mode, WallKickType::PieceI),
{
    let mut table: Vec<Vec<Point>> = Vec::new();
    match mode {
        WallKickDataMode::Standard => {
            table.push(row5((0, 0), (-2, 0), (1, 0), (-2, 1), (1, -2)));
            table.push(row5((0, 0), (2, 0), (-1, 0), (2, -1), (-1, 2)));
            table.push(row5((0, 0), (-1, 0), (2, 0), (-1, -2), (2, 1)));
            table.push(row5((0, 0), (1, 0), (-2, 0), (1, 2), (-2, -1)));
            table.push(row5((0, 0), (2, 0), (-1, 0), (2, -1), (-1, 2)));
            table.push(row5((0, 0), (-2, 0), (1, 0), (-2, 1), (1, -2)));
            table.push(row5((0, 0), (1, 0), (-2, 0), (1, 2), (-2, -1)));
            table.push(row5((0, 0), (-1, 0), (2, 0), (-1, -2), (2, 1)));
            table.push(row1((0, 0)));
            table.push(row1((0, 0)));
        },
    }
    table
}

fn o_table(mode: WallKickDataMode) -> (table: Vec<Vec<Point>>)
    ensures
        is_table(table@, mode, WallKickType::PieceO),
{
    let mut table: Vec<Vec<Point>> = Vec::new();
    let mut i: usize = 0;
    while i < 10
        invariant
            i <= 10,
            table@.len() == i,
            forall|j: int| 0 <= j < i ==> (#[trigger] table@[j])@ == seq![cell(0, 0)],
        decreases 10 - i,
    {
        table.push(row1((0, 0)));
        i += 1;
    }
    table
}

impl WallKickData {
    /// The invariant of the tables: each holds the tests of its kick class
    /// under the ruleset.
    pub closed spec fn wf(&self) -> bool {
        &&& is_table(self.default_tests@, self.mode, WallKickType::Default)
        &&& is_table(self.i_tests@, self.mode, WallKickType::PieceI)
        &&& is_table(self.o_tests@, self.mode, WallKickType::PieceO)
    }

    /// The ruleset of the tables.
    pub closed spec fn spec_mode(&self) -> WallKickDataMode {
        self.mode
    }

    /// The tables of the given ruleset.
    pub fn new(mode: WallKickDataMode) -> (data: WallKickData)
        ensures
            data.wf(),
            data.spec_mode() == mode,
    {
        WallKickData {
            mode,
            default_tests: default_table(mode),
            i_tests: i_table(mode),
            o_tests: o_table(mode),
        }
    }

    pub fn get_mode(&self) -> (mode: WallKickDataMode)
        ensures
            mode == self.spec_mode(),
    {
        self.mode
    }

    /// The ordered tests for a kick class and a transition.
    pub fn get(&self, kind: WallKickType, mv: RotationMove) -> (tests: &[Point])
        requires
            self.wf(),
        ensures
            tests@ == kick_tests(self.spec_mode(), kind, mv),
    {
        let index: usize = match mv {
            RotationMove::InitToRight => 0,
            RotationMove::RightToInit => 1,
            RotationMove::RightToDeg180 => 2,
            RotationMove::Deg180ToRight => 3,
            RotationMove::Deg180ToLeft => 4,
            RotationMove::LeftToDeg180 => 5,
            RotationMove::LeftToInit => 6,
            RotationMove::InitToLeft => 7,
            RotationMove::InitToDeg180 => 8,
            RotationMove::Deg180ToInit => 9,
        };
        assert(index == move_index(mv));
        let table = match kind {
            WallKickType::Default => &self.default_tests,
            WallKickType::PieceI => &self.i_tests,
            WallKickType::PieceO => &self.o_tests,
        };
        table[index].as_slice()
    }
}

impl Default for WallKickData {
    /// The tables of the `Standard` ruleset.
    fn default() -> (data: WallKickData)
        ensures
            data.wf(),
            data.spec_mode() == WallKickDataMode::Standard,
    {
        WallKickData::new(WallKickDataMode::Standard)
    }
}

} // verus!
