//! The grid of cells that locked pieces and garbage occupy.
//!
//! Row 0 is the top row; rows are stored top first.

use vstd::prelude::*;
use crate::game_settings::BoardSettings;
use crate::piece::{cell_type_of, Piece};
use crate::primitives::Point;

verus! {

/// What a grid cell holds: nothing, the material of the piece type that was
/// locked there, or garbage.
#[derive(Clone, Copy, Debug, PartialEq, Eq, Structural)]
pub enum CellType {
    Empty,
    I,
    O,
    T,
    L,
    J,
    S,
    Z,
    Garbage,
}

/// Why a piece could not be placed.
#[derive(Clone, Copy, Debug, PartialEq, Eq, Structural)]
pub enum PlaceError {
    /// A cell of the piece lies outside the grid.
    OutOfBounds,
    /// The piece lies inside the grid, on a cell that is taken.
    CellOccupied,
}

/// The occupancy of a grid, row by row.
pub type BoolArray = Vec<Vec<bool>>;

/// What `clear_lines` removed.
#[derive(Debug)]
pub struct ClearedLines {
    /// How many rows were removed.
    pub count: usize,
    /// The rows that were removed, as they were numbered before, top first.
    pub rows: Vec<usize>,
}

/// Whether every cell of the row is taken.
pub open spec fn row_full(row: Seq<CellType>) -> bool {
    forall|c: int| 0 <= c < row.len() ==> row[c] != CellType::Empty
}

/// Whether some cell of the row is taken.
pub open spec fn row_occupied(row: Seq<CellType>) -> bool {
    exists|c: int| 0 <= c < row.len() && row[c] != CellType::Empty
}

/// The rows that `clear_lines` keeps.
pub open spec fn kept() -> spec_fn(Seq<CellType>) -> bool {
    |row: Seq<CellType>| !row_full(row)
}

/// The rows that `clear_lines` removes.
pub open spec fn removed() -> spec_fn(Seq<CellType>) -> bool {
    |row: Seq<CellType>| row_full(row)
}

/// A row with nothing in it.
pub open spec fn empty_row(width: int) -> Seq<CellType> {
    Seq::new(width as nat, |c: int| CellType::Empty)
}

/// A row of garbage with one hole. With `hole` outside the row it has none.
pub open spec fn garbage_row(width: int, hole: int) -> Seq<CellType> {
    Seq::new(
        width as nat,
        |c: int|
            if c == hole {
                CellType::Empty
            } else {
                CellType::Garbage
            },
    )
}

/// `count` rows with nothing in them.
pub open spec fn empty_rows(count: int, width: int) -> Seq<Seq<CellType>> {
    Seq::new(count as nat, |r: int| empty_row(width))
}

/// Whether one of `cells`, placed at `(x, y)`, lies on the cell `(c, r)`.
pub open spec fn covered(cells: Seq<Point>, x: int, y: int, c: int, r: int) -> bool {
    exists|i: int| 0 <= i < cells.len() && x + (#[trigger] cells[i]).x == c && y + cells[i].y == r
}

/// What a grid is, mathematically: its size and its rows of cells.
pub struct Grid {
    pub width: int,
    pub height: int,
    pub rows: Seq<Seq<CellType>>,
}

impl Grid {
    /// A grid has `height` rows of `width` cells, at least one of each.
    pub open spec fn wf(self) -> bool {
        &&& 1 <= self.width
        &&& 1 <= self.height
        &&& self.rows.len() == self.height
        &&& forall|r: int| 0 <= r < self.height ==> (#[trigger] self.rows[r]).len() == self.width
    }

    /// The grid of the given size with nothing in it.
    pub open spec fn empty(width: int, height: int) -> Grid {
        Grid { width, height, rows: empty_rows(height, width) }
    }

    pub open spec fn in_bounds(self, c: int, r: int) -> bool {
        0 <= c < self.width && 0 <= r < self.height
    }

    /// Whether nothing can be put on `(c, r)`: it lies outside the grid or is
    /// taken.
    pub open spec fn blocked(self, c: int, r: int) -> bool {
        !self.in_bounds(c, r) || self.rows[r][c] != CellType::Empty
    }

    /// Whether one of `cells`, placed at `(x, y)`, lies outside the grid.
    pub open spec fn out_of_bounds(self, cells: Seq<Point>, x: int, y: int) -> bool {
        exists|i: int|
            0 <= i < cells.len() && !self.in_bounds(x + (#[trigger] cells[i]).x, y + cells[i].y)
    }

    /// Whether `cells`, placed at `(x, y)`, would collide: one of them lies
    /// outside the grid or on a cell that is taken.
    pub open spec fn colliding(self, cells: Seq<Point>, x: int, y: int) -> bool {
        exists|i: int|
            0 <= i < cells.len() && self.blocked(x + (#[trigger] cells[i]).x, y + cells[i].y)
    }

    /// The grid with `t` written to every cell that `cells`, placed at
    /// `(x, y)`, lie on.
    pub open spec fn stamped(self, cells: Seq<Point>, x: int, y: int, t: CellType) -> Grid {
        Grid {
            rows: Seq::new(
                self.height as nat,
                |r: int|
                    Seq::new(
                        self.width as nat,
                        |c: int|
                            if covered(cells, x, y, c, r) {
                                t
                            } else {
                                self.rows[r][c]
                            },
                    ),
            ),
            ..self
        }
    }

    /// How many rows are full.
    pub open spec fn full_count(self) -> nat {
        self.rows.filter(removed()).len()
    }

    /// The grid without its full rows: the other rows keep their order and
    /// sink to the bottom, and as many empty rows as were removed fill the
    /// top.
    pub open spec fn cleared(self) -> Grid {
        let rest = self.rows.filter(kept());
        Grid { rows: empty_rows(self.height - rest.len(), self.width) + rest, ..self }
    }

    /// The grid after a row of garbage came in at the bottom: every row has
    /// moved up by one and the top row is gone.
    pub open spec fn pushed(self, hole: int) -> Grid {
        Grid { rows: self.rows.subrange(1, self.height).push(garbage_row(self.width, hole)), ..self }
    }

    /// The grid after `count` rows of garbage with the same hole came in.
    pub open spec fn pushed_times(self, hole: int, count: nat) -> Grid
        decreases count,
    {
        if count == 0 {
            self
        } else {
            self.pushed_times(hole, (count - 1) as nat).pushed(hole)
        }
    }

    /// Which cells are taken, row by row.
    pub open spec fn occupancy(self) -> Seq<Seq<bool>> {
        Seq::new(
            self.height as nat,
            |r: int| Seq::new(self.width as nat, |c: int| self.rows[r][c] != CellType::Empty),
        )
    }
}

/// Every row is either kept or removed.
proof fn lemma_rows_split(rows: Seq<Seq<CellType>>)
    ensures
        rows.filter(kept()).len() + rows.filter(removed()).len() == rows.len(),
    decreases rows.len(),
{
    reveal(Seq::filter);
    if rows.len() > 0 {
        lemma_rows_split(rows.drop_last());
    }
}

/// Clearing a grid that has `k` full rows among its `n` rows removes exactly
/// those `k`: the result has `n` rows again, of which the top `k` are empty
/// and the others are the `n - k` rows that were not full, in the order they
/// had. No row of the result is full.
pub proof fn lemma_clear_lines_shape(g: Grid)
    requires
        g.wf(),
    ensures
        g.cleared().wf(),
        g.cleared().width == g.width,
        g.cleared().height == g.height,
        g.full_count() + g.rows.filter(kept()).len() == g.height,
        g.cleared().rows.take(g.full_count() as int) == empty_rows(g.full_count() as int, g.width),
        g.cleared().rows.skip(g.full_count() as int) == g.rows.filter(kept()),
        forall|r: int| 0 <= r < g.height ==> !row_full(#[trigger] g.cleared().rows[r]),
        g.cleared().full_count() == 0,
{
    broadcast use vstd::seq_lib::group_filter_ensures;

    let rest = g.rows.filter(kept());
    let k = g.full_count() as int;
    lemma_rows_split(g.rows);
    let out = g.cleared();
    assert forall|i: int| 0 <= i < rest.len() implies (#[trigger] rest[i]).len() == g.width
        && !row_full(rest[i]) by {
        assert(kept()(rest[i]));
        assert(g.rows.contains(rest[i])) by {
            lemma_filter_within(g.rows, i);
        }
        let j = choose|j: int| 0 <= j < g.rows.len() && g.rows[j] == rest[i];
        assert(g.rows[j].len() == g.width);
    }
    assert forall|r: int| 0 <= r < g.height implies (#[trigger] out.rows[r]).len() == g.width
        && !row_full(out.rows[r]) by {
        if r < k {
            assert(out.rows[r] == empty_row(g.width));
            assert(empty_row(g.width)[0] == CellType::Empty);
        } else {
            assert(out.rows[r] == rest[r - k]);
        }
    }
    assert(out.rows.take(k) =~= empty_rows(k, g.width));
    assert(out.rows.skip(k) =~= rest);
    lemma_none_removed(out.rows);
}

/// What a filter keeps was there before.
proof fn lemma_filter_within(rows: Seq<Seq<CellType>>, i: int)
    requires
        0 <= i < rows.filter(kept()).len(),
    ensures
        rows.contains(rows.filter(kept())[i]),
    decreases rows.len(),
{
    reveal(Seq::filter);
    if rows.len() > 0 {
        let head = rows.drop_last().filter(kept());
        if i < head.len() {
            lemma_filter_within(rows.drop_last(), i);
            let j = choose|j: int| 0 <= j < rows.drop_last().len() && rows.drop_last()[j] == head[i];
            assert(rows[j] == head[i]);
        } else {
            assert(rows[rows.len() - 1] == rows.last());
        }
    }
}

/// Where no row is full, none is removed.
proof fn lemma_none_removed(rows: Seq<Seq<CellType>>)
    requires
        forall|r: int| 0 <= r < rows.len() ==> !row_full(#[trigger] rows[r]),
    ensures
        rows.filter(removed()).len() == 0,
    decreases rows.len(),
{
    reveal(Seq::filter);
    if rows.len() > 0 {
        assert(!row_full(rows[rows.len() - 1]));
        lemma_none_removed(rows.drop_last());
    }
}

/// Rows of garbage that come in one after the other with the same hole stack
/// up from the bottom, their holes in one column, and lift what was there:
/// after `count` of them a row is the row that stood `count` rows below it,
/// or garbage where there was none.
pub proof fn lemma_garbage_stacks(g: Grid, hole: int, count: nat)
    requires
        g.wf(),
    ensures
        g.pushed_times(hole, count).wf(),
        g.pushed_times(hole, count).width == g.width,
        g.pushed_times(hole, count).height == g.height,
        forall|r: int|
            0 <= r < g.height ==> #[trigger] g.pushed_times(hole, count).rows[r] == if r + count
                < g.height {
                g.rows[r + count]
            } else {
                garbage_row(g.width, hole)
            },
    decreases count,
{
    if count > 0 {
        lemma_garbage_stacks(g, hole, (count - 1) as nat);
    }
}

/// The rows of an occupancy matrix in the opposite order: what was indexed
/// from the top is indexed from the bottom, and the other way round.
pub open spec fn flipped(rows: Seq<Seq<bool>>) -> Seq<Seq<bool>> {
    Seq::new(rows.len(), |r: int| rows[rows.len() - 1 - r])
}

/// Flipping twice gives the matrix back.
pub proof fn lemma_flipped_twice(rows: Seq<Seq<bool>>)
    ensures
        flipped(flipped(rows)) == rows,
{
    assert(flipped(flipped(rows)) =~= rows);
}

/// The rows of a matrix, each as a sequence.
pub open spec fn matrix_view(rows: Seq<Vec<bool>>) -> Seq<Seq<bool>> {
    Seq::new(rows.len(), |r: int| rows[r]@)
}

/// The grid store.
#[derive(Debug)]
pub struct CellHolder {
    width: usize,
    height: usize,
    cells: Vec<Vec<CellType>>,
}

impl View for CellHolder {
    type V = Grid;

    closed spec fn view(&self) -> Grid {
        Grid {
            width: self.width as int,
            height: self.height as int,
            rows: Seq::new(self.cells@.len(), |r: int| self.cells@[r]@),
        }
    }
}

fn new_empty_row(width: usize) -> (row: Vec<CellType>)
    ensures
        row@ == empty_row(width as int),
{
    let mut row: Vec<CellType> = Vec::new();
    let mut c: usize = 0;
    while c < width
        invariant
            c <= width,
            row@.len() == c,
            forall|j: int| 0 <= j < c ==> row@[j] == CellType::Empty,
        decreases width - c,
    {
        row.push(CellType::Empty);
        c += 1;
    }
    assert(row@ =~= empty_row(width as int));
    row
}

fn new_garbage_row(width: usize, hole: u32) -> (row: Vec<CellType>)
    ensures
        row@ == garbage_row(width as int, hole as int),
{
    let mut row: Vec<CellType> = Vec::new();
    let mut c: usize = 0;
    while c < width
        invariant
            c <= width,
            row@.len() == c,
            forall|j: int| 0 <= j < c ==> row@[j] == garbage_row(width as int, hole as int)[j],
        decreases width - c,
    {
        if c as u64 == hole as u64 {
            row.push(CellType::Empty);
        } else {
            row.push(CellType::Garbage);
        }
        c += 1;
    }
    assert(row@ =~= garbage_row(width as int, hole as int));
    row
}

fn copy_row(row: &Vec<CellType>) -> (copy: Vec<CellType>)
    ensures
        copy@ == row@,
{
    let mut copy: Vec<CellType> = Vec::new();
    let mut c: usize = 0;
    while c < row.len()
        invariant
            c <= row@.len(),
            copy@.len() == c,
            forall|j: int| 0 <= j < c ==> copy@[j] == row@[j],
        decreases row@.len() - c,
    {
        copy.push(row[c]);
        c += 1;
    }
    assert(copy@ =~= row@);
    copy
}

fn is_row_full(row: &Vec<CellType>) -> (full: bool)
    ensures
        full == row_full(row@),
{
    let mut c: usize = 0;
    while c < row.len()
        invariant
            c <= row@.len(),
            forall|j: int| 0 <= j < c ==> row@[j] != CellType::Empty,
        decreases row@.len() - c,
    {
        if row[c] == CellType::Empty {
            return false;
        }
        c += 1;
    }
    true
}

fn is_row_occupied(row: &Vec<CellType>) -> (occupied: bool)
    ensures
        occupied == row_occupied(row@),
{
    let mut c: usize = 0;
    while c < row.len()
        invariant
            c <= row@.len(),
            forall|j: int| 0 <= j < c ==> row@[j] == CellType::Empty,
        decreases row@.len() - c,
    {
        if row[c] != CellType::Empty {
            return true;
        }
        c += 1;
    }
    false
}

impl CellHolder {
    /// The invariant of the store: it holds a grid, whose sides fit in 31
    /// bits.
    pub open spec fn wf(&self) -> bool {
        &&& self@.wf()
        &&& self@.width <= 0x7fff_ffff
        &&& self@.height <= 0x7fff_ffff
    }

    /// An empty grid of the size the settings give.
    pub fn new(board: &BoardSettings) -> (holder: CellHolder)
        requires
            board.wf(),
        ensures
            holder.wf(),
            holder@ == Grid::empty(board.width as int, board.height as int),
    {
        let mut cells: Vec<Vec<CellType>> = Vec::new();
        let mut r: usize = 0;
        while r < board.height
            invariant
                r <= board.height,
                cells@.len() == r,
                forall|j: int| 0 <= j < r ==> (#[trigger] cells@[j])@ == empty_row(board.width as int),
            decreases board.height - r,
        {
            cells.push(new_empty_row(board.width));
            r += 1;
        }
        let holder = CellHolder { width: board.width, height: board.height, cells };
        assert(holder@.rows =~= empty_rows(board.height as int, board.width as int));
        holder
    }

    pub fn get_width(&self) -> (w: usize)
        ensures
            w == self@.width,
    {
        self.width
    }

    pub fn get_height(&self) -> (h: usize)
        ensures
            h == self@.height,
    {
        self.height
    }

    /// What the cell in column `x` of row `y` holds, if the grid has such a
    /// cell.
    pub fn get_cell_at(&self, x: usize, y: usize) -> (cell: Option<CellType>)
        requires
            self.wf(),
        ensures
            cell == if self@.in_bounds(x as int, y as int) {
                Some(self@.rows[y as int][x as int])
            } else {
                None
            },
    {
        if x < self.width && y < self.height {
            assert(self@.rows[y as int] == self.cells@[y as int]@);
            Some(self.cells[y][x])
        } else {
            None
        }
    }

    fn is_blocked(&self, c: i128, r: i128) -> (b: bool)
        requires
            self.wf(),
        ensures
            b == self@.blocked(c as int, r as int),
    {
        if c < 0 || r < 0 || c >= self.width as i128 || r >= self.height as i128 {
            true
        } else {
            assert(self@.rows[r as int] == self.cells@[r as int]@);
            self.cells[r as usize][c as usize] != CellType::Empty
        }
    }

    /// Whether `cells`, placed at `(x, y)`, would collide. Nothing changes.
    pub fn is_colliding(&self, cells: &[Point], x: i64, y: i64) -> (b: bool)
        requires
            self.wf(),
        ensures
            b == self@.colliding(cells@, x as int, y as int),
    {
        let mut i: usize = 0;
        while i < cells.len()
            invariant
                self.wf(),
                i <= cells@.len(),
                forall|j: int|
                    0 <= j < i ==> !self@.blocked(x + (#[trigger] cells@[j]).x, y + cells@[j].y),
            decreases cells@.len() - i,
        {
            let p = cells[i];
            if self.is_blocked(x as i128 + p.x as i128, y as i128 + p.y as i128) {
                return true;
            }
            i += 1;
        }
        false
    }

    /// Writes the piece's material to the cells it lies on.
    ///
    /// Fails, and changes nothing, with `OutOfBounds` if a cell of the piece
    /// lies outside the grid, and else with `CellOccupied` if one lies on a
    /// cell that is taken.
    pub fn place(&mut self, piece: &Piece) -> (res: Result<(), PlaceError>)
        requires
            old(self).wf(),
            piece.wf(),
        ensures
            final(self).wf(),
            match res {
                Ok(()) => !old(self)@.colliding(piece@.cells(), piece@.x, piece@.y) && final(self)@
                    == old(self)@.stamped(
                    piece@.cells(),
                    piece@.x,
                    piece@.y,
                    cell_type_of(piece@.piece_type),
                ),
                Err(PlaceError::OutOfBounds) => old(self)@.out_of_bounds(
                    piece@.cells(),
                    piece@.x,
                    piece@.y,
                ) && final(self)@ == old(self)@,
                Err(PlaceError::CellOccupied) => !old(self)@.out_of_bounds(
                    piece@.cells(),
                    piece@.x,
                    piece@.y,
                ) && old(self)@.colliding(piece@.cells(), piece@.x, piece@.y) && final(self)@
                    == old(self)@,
            },
    {
        let cells = piece.get_current_pos();
        let x: i64 = piece.get_x() as i64;
        let y: i64 = piece.get_y() as i64;
        let t = piece.get_cell_type();
        let n = cells.len();
        let mut i: usize = 0;
        while i < n
            invariant
                self.wf(),
                *self == *old(self),
                n == cells@.len(),
                i <= n,
                0 <= x <= u32::MAX,
                0 <= y <= u32::MAX,
                cells@ == piece@.cells(),
                x == piece@.x,
                y == piece@.y,
                forall|j: int|
                    0 <= j < i ==> self@.in_bounds(x + (#[trigger] cells@[j]).x, y + cells@[j].y),
            decreases n - i,
        {
            let p = cells[i];
            let c: i64 = x + p.x as i64;
            let r: i64 = y + p.y as i64;
            if c < 0 || r < 0 || c >= self.width as i64 || r >= self.height as i64 {
                assert(!self@.in_bounds(x + cells@[i as int].x, y + cells@[i as int].y));
                return Err(PlaceError::OutOfBounds);
            }
            i += 1;
        }
        i = 0;
        while i < n
            invariant
                self.wf(),
                *self == *old(self),
                n == cells@.len(),
                i <= n,
                0 <= x <= u32::MAX,
                0 <= y <= u32::MAX,
                cells@ == piece@.cells(),
                x == piece@.x,
                y == piece@.y,
                forall|j: int|
                    0 <= j < n ==> self@.in_bounds(x + (#[trigger] cells@[j]).x, y + cells@[j].y),
                forall|j: int|
                    0 <= j < i ==> !self@.blocked(x + (#[trigger] cells@[j]).x, y + cells@[j].y),
            decreases n - i,
        {
            let p = cells[i];
            let c: usize = (x + p.x as i64) as usize;
            let r: usize = (y + p.y as i64) as usize;
            assert(self@.in_bounds(x + cells@[i as int].x, y + cells@[i as int].y));
            assert(self@.rows[r as int] == self.cells@[r as int]@);
            if self.cells[r][c] != CellType::Empty {
                assert(self@.blocked(x + cells@[i as int].x, y + cells@[i as int].y));
                return Err(PlaceError::CellOccupied);
            }
            i += 1;
        }
        i = 0;
        proof {
            let start = old(self)@.stamped(cells@.take(0), x as int, y as int, t);
            assert forall|rr: int| 0 <= rr < self@.height implies #[trigger] self@.rows[rr]
                =~= start.rows[rr] by {}
            assert(self@.rows =~= start.rows);
        }
        while i < n
            invariant
                self.wf(),
                old(self).wf(),
                n == cells@.len(),
                i <= n,
                0 <= x <= u32::MAX,
                0 <= y <= u32::MAX,
                forall|j: int|
                    0 <= j < n ==> old(self)@.in_bounds(
                        x + (#[trigger] cells@[j]).x,
                        y + cells@[j].y,
                    ),
                self@ == old(self)@.stamped(cells@.take(i as int), x as int, y as int, t),
            decreases n - i,
        {
            let p = cells[i];
            let c: usize = (x + p.x as i64) as usize;
            let r: usize = (y + p.y as i64) as usize;
            assert(old(self)@.in_bounds(x + cells@[i as int].x, y + cells@[i as int].y));
            let ghost before = self@;
            assert(before.rows[r as int] == self.cells@[r as int]@);
            self.cells[r][c] = t;
            proof {
                let done = cells@.take(i as int);
                let next = cells@.take(i + 1);
                assert(next[i as int] == cells@[i as int]);
                assert forall|cc: int, rr: int|
                    covered(next, x as int, y as int, cc, rr) <==> (covered(
                        done,
                        x as int,
                        y as int,
                        cc,
                        rr,
                    ) || (cc == c && rr == r)) by {
                    if covered(done, x as int, y as int, cc, rr) {
                        let k = choose|k: int|
                            0 <= k < done.len() && x + (#[trigger] done[k]).x == cc && y
                                + done[k].y == rr;
                        assert(next[k] == done[k]);
                    }
                    if covered(next, x as int, y as int, cc, rr) {
                        let k = choose|k: int|
                            0 <= k < next.len() && x + (#[trigger] next[k]).x == cc && y
                                + next[k].y == rr;
                        if k < i {
                            assert(done[k] == next[k]);
                        }
                    }
                }
                let goal = old(self)@.stamped(next, x as int, y as int, t);
                assert forall|rr: int| 0 <= rr < self@.height implies #[trigger] self@.rows[rr]
                    =~= goal.rows[rr] by {
                    assert(before.rows[rr] == old(self)@.stamped(
                        done,
                        x as int,
                        y as int,
                        t,
                    ).rows[rr]);
                }
                assert(self@.rows =~= goal.rows);
            }
            i += 1;
        }
        assert(cells@.take(n as int) =~= cells@);
        Ok(())
    }

    /// Removes every full row. The rows above a removed row move down, in
    /// their order, and empty rows fill the top.
    pub fn clear_lines(&mut self) -> (lines: ClearedLines)
        requires
            old(self).wf(),
        ensures
            final(self).wf(),
            final(self)@ == old(self)@.cleared(),
            lines.count == old(self)@.full_count(),
            lines.count == lines.rows@.len(),
            forall|k: int|
                0 <= k < lines.rows@.len() ==> 0 <= #[trigger] lines.rows@[k] < old(self)@.height
                    && row_full(old(self)@.rows[lines.rows@[k] as int]),
            forall|j: int, k: int|
                0 <= j < k < lines.rows@.len() ==> lines.rows@[j] < lines.rows@[k],
            forall|r: int|
                0 <= r < old(self)@.height && row_full(old(self)@.rows[r]) ==> lines.rows@.contains(
                    r as usize,
                ),
    {
        let ghost rows = self@.rows;
        let mut rest: Vec<Vec<CellType>> = Vec::new();
        let mut full: Vec<usize> = Vec::new();
        let mut r: usize = 0;
        while r < self.height
            invariant
                self.wf(),
                *self == *old(self),
                rows == self@.rows,
                r <= self.height,
                Seq::new(rest@.len(), |k: int| rest@[k]@) == rows.take(r as int).filter(kept()),
                full@.len() == rows.take(r as int).filter(removed()).len(),
                full@.len() + rest@.len() == r,
                forall|k: int|
                    0 <= k < full@.len() ==> 0 <= #[trigger] full@[k] < r && row_full(
                        rows[full@[k] as int],
                    ),
                forall|j: int, k: int| 0 <= j < k < full@.len() ==> full@[j] < full@[k],
                forall|j: int| 0 <= j < r && row_full(rows[j]) ==> full@.contains(j as usize),
                forall|k: int| 0 <= k < rest@.len() ==> (#[trigger] rest@[k])@.len() == self.width,
            decreases self.height - r,
        {
            proof {
                assert(rows.take(r + 1).drop_last() =~= rows.take(r as int));
                assert(rows.take(r + 1).last() == rows[r as int]);
                assert(rows[r as int] == self.cells@[r as int]@);
                reveal(Seq::filter);
            }
            let ghost old_full = full@;
            let ghost old_rest = Seq::new(rest@.len(), |k: int| rest@[k]@);
            if is_row_full(&self.cells[r]) {
                full.push(r);
                proof {
                    assert forall|j: int| 0 <= j < r + 1 && row_full(rows[j]) implies full@.contains(
                        j as usize,
                    ) by {
                        if j < r {
                            let k = choose|k: int| 0 <= k < old_full.len() && old_full[k] == j as usize;
                            assert(full@[k] == j as usize);
                        } else {
                            assert(full@[old_full.len() as int] == r);
                        }
                    }
                }
            } else {
                rest.push(copy_row(&self.cells[r]));
                proof {
                    assert(Seq::new(rest@.len(), |k: int| rest@[k]@) =~= old_rest.push(
                        rows[r as int],
                    ));
                    assert forall|j: int| 0 <= j < r + 1 && row_full(rows[j]) implies full@.contains(
                        j as usize,
                    ) by {
                        let k = choose|k: int| 0 <= k < old_full.len() && old_full[k] == j as usize;
                        assert(full@[k] == j as usize);
                    }
                }
            }
            r += 1;
        }
        assert(rows.take(self.height as int) =~= rows);
        let count = full.len();
        let ghost rest_rows = Seq::new(rest@.len(), |k: int| rest@[k]@);
        let mut cells: Vec<Vec<CellType>> = Vec::new();
        let mut k: usize = 0;
        while k < count
            invariant
                k <= count,
                cells@.len() == k,
                forall|j: int| 0 <= j < k ==> (#[trigger] cells@[j])@ == empty_row(self.width as int),
            decreases count - k,
        {
            cells.push(new_empty_row(self.width));
            k += 1;
        }
        cells.append(&mut rest);
        self.cells = cells;
        proof {
            let goal = old(self)@.cleared();
            assert(self@.rows =~= goal.rows);
        }
        ClearedLines { count, rows: full }
    }

    /// Lets one row of garbage in at the bottom: every row moves up by one,
    /// the top row is lost, and the new bottom row is garbage but for the
    /// hole. Says whether the row that was lost had a cell taken: the stack
    /// has then grown out of the grid.
    pub fn push_garbage(&mut self, hole_column: u32) -> (overflow: bool)
        requires
            old(self).wf(),
        ensures
            final(self).wf(),
            final(self)@ == old(self)@.pushed(hole_column as int),
            overflow == row_occupied(old(self)@.rows[0]),
    {
        assert(self@.rows[0] == self.cells@[0]@);
        let top = self.cells.remove(0);
        let overflow = is_row_occupied(&top);
        self.cells.push(new_garbage_row(self.width, hole_column));
        proof {
            assert(self@.rows =~= old(self)@.pushed(hole_column as int).rows);
        }
        overflow
    }

    /// Empties the grid. Its size stays.
    pub fn reset(&mut self)
        requires
            old(self).wf(),
        ensures
            final(self).wf(),
            final(self)@ == Grid::empty(old(self)@.width, old(self)@.height),
    {
        let fresh = CellHolder::new(&BoardSettings { width: self.width, height: self.height });
        self.cells = fresh.cells;
        assert(self@.rows =~= fresh@.rows);
    }

    /// Which cells are taken, row by row from the top.
    pub fn to_bool_array(&self) -> (rows: BoolArray)
        requires
            self.wf(),
        ensures
            matrix_view(rows@) == self@.occupancy(),
    {
        let mut rows: Vec<Vec<bool>> = Vec::new();
        let mut r: usize = 0;
        while r < self.height
            invariant
                self.wf(),
                r <= self.height,
                rows@.len() == r,
                forall|j: int| 0 <= j < r ==> (#[trigger] rows@[j])@ == self@.occupancy()[j],
            decreases self.height - r,
        {
            let mut row: Vec<bool> = Vec::new();
            let mut c: usize = 0;
            assert(self@.rows[r as int] == self.cells@[r as int]@);
            while c < self.width
                invariant
                    self.wf(),
                    r < self.height,
                    c <= self.width,
                    row@.len() == c,
                    forall|j: int|
                        0 <= j < c ==> row@[j] == (self@.rows[r as int][j] != CellType::Empty),
                decreases self.width - c,
            {
                assert(self@.rows[r as int] == self.cells@[r as int]@);
                row.push(self.cells[r][c] != CellType::Empty);
                c += 1;
            }
            assert(row@ =~= self@.occupancy()[r as int]);
            rows.push(row);
            r += 1;
        }
        assert(matrix_view(rows@) =~= self@.occupancy());
        rows
    }
}

/// The matrix with its rows in the opposite order: from indexed from the top
/// to indexed from the bottom, and back.
pub fn flip_bool_array(rows: &BoolArray) -> (out: BoolArray)
    ensures
        matrix_view(out@) == flipped(matrix_view(rows@)),
{
    let n = rows.len();
    let mut out: Vec<Vec<bool>> = Vec::new();
    let mut r: usize = 0;
    while r < n
        invariant
            n == rows@.len(),
            r <= n,
            out@.len() == r,
            forall|j: int| 0 <= j < r ==> (#[trigger] out@[j])@ == rows@[n - 1 - j]@,
        decreases n - r,
    {
        let src = &rows[n - 1 - r];
        let mut row: Vec<bool> = Vec::new();
        let mut c: usize = 0;
        while c < src.len()
            invariant
                c <= src@.len(),
                row@.len() == c,
                forall|j: int| 0 <= j < c ==> row@[j] == src@[j],
            decreases src@.len() - c,
        {
            row.push(src[c]);
            c += 1;
        }
        assert(row@ =~= src@);
        out.push(row);
        r += 1;
    }
    assert(matrix_view(out@) =~= flipped(matrix_view(rows@)));
    out
}

} // verus!
