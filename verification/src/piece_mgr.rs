//! The active piece on the grid: how it moves, turns, drops and locks, the
//! queue it is drawn from and the piece on hold.

use vstd::prelude::*;
use crate::cell_holder::{CellHolder, Grid, PlaceError};
use crate::game_settings::{AttackSettings, GameSettings};
use crate::piece::{
    cell_type_of, rotated, rotation_move, wall_kick_type_of, OffsetType, Piece, PieceState,
    PieceType, RotationDirection, RotationState, WallKickCheckParams, WallKickCheckResult,
};
use crate::piece_generators::piece_at;
use crate::piece_points::{anchor_index, layout, lemma_layout_shape, offset_type_of};
use crate::piece_queue::PieceQueue;
use crate::primitives::Point;
use crate::replays::{
    attack_of, compute_attack, compute_b2b, compute_combo, next_b2b, next_combo, AttackInfo, MoveResult,
};
use crate::wall_kick_data::{kick_tests, lemma_kick_tests_shape, WallKickData, WallKickDataMode};

verus! {

/// Why an operation on the board failed.
#[derive(Clone, Copy, Debug, PartialEq, Eq, Structural)]
pub enum UpdateErrorReason {
    /// A piece was to be placed with a cell outside the grid.
    OutOfBounds,
    /// A piece was to be placed on a cell that is taken.
    CellOccupied,
    /// No wall-kick test of the rotation fitted.
    RotationFailed,
    /// A piece was held already since the last spawn.
    HoldUnavailable,
    /// The board has no active piece: the last spawn collided.
    BoardDead,
}

/// The column in which a piece of type `t` spawns on a grid `width` cells
/// wide: the middle, rounded to the left.
pub open spec fn spawn_x(width: int, t: PieceType) -> int {
    if offset_type_of(t) == OffsetType::BetweenCells {
        width / 2
    } else {
        (width - 1) / 2
    }
}

/// A piece of type `t` as it spawns: in its initial orientation, in the top
/// two rows of the grid.
pub open spec fn spawn_state(width: int, t: PieceType) -> PieceState {
    PieceState { piece_type: t, rotation: RotationState::Initial, x: spawn_x(width, t), y: 1 }
}

/// Whether the piece collides where it is.
pub open spec fn piece_colliding(g: Grid, p: PieceState) -> bool {
    g.colliding(p.cells(), p.x, p.y)
}

/// How many steps of `(dx, dy)` the piece makes when it is asked for up to
/// `limit`: each step is taken only if the piece does not collide after it,
/// and the first step that is not taken ends the move.
pub open spec fn slide(g: Grid, p: PieceState, dx: int, dy: int, limit: int) -> int
    decreases limit,
{
    if limit <= 0 || piece_colliding(g, p.shift(dx, dy)) {
        0
    } else {
        1 + slide(g, p.shift(dx, dy), dx, dy, limit - 1)
    }
}

/// How many rows a piece rises that is lifted out of what it collides
/// with, by up to `limit` rows: it rises one row at a time while it
/// collides, and not above the top row.
pub open spec fn rise(g: Grid, p: PieceState, limit: int) -> int
    decreases limit,
{
    if limit <= 0 || p.y <= 0 || !piece_colliding(g, p) {
        0
    } else {
        1 + rise(g, p.shift(0, -1), limit - 1)
    }
}

/// How far the piece can fall.
pub open spec fn drop_distance(g: Grid, p: PieceState) -> int {
    slide(g, p, 0, 1, g.height + 2)
}

/// The index of the first of `tests`, from index `from` on, at which `cells`
/// placed at `(x, y)` and shifted by the test do not collide; the number of
/// tests if there is none.
pub open spec fn first_fit(
    g: Grid,
    cells: Seq<Point>,
    x: int,
    y: int,
    tests: Seq<Point>,
    from: int,
) -> int
    decreases tests.len() - from,
{
    if from < 0 || from >= tests.len() {
        tests.len() as int
    } else if !g.colliding(cells, x + tests[from].x, y + tests[from].y) {
        from
    } else {
        first_fit(g, cells, x, y, tests, from + 1)
    }
}

/// A move of `slide` steps passes only through places where the piece does
/// not collide, and ends short of the limit only where the next step would
/// collide.
pub proof fn lemma_slide_steps(g: Grid, p: PieceState, dx: int, dy: int, limit: int)
    requires
        0 <= limit,
    ensures
        0 <= slide(g, p, dx, dy, limit) <= limit,
        forall|j: int|
            1 <= j <= slide(g, p, dx, dy, limit) ==> !piece_colliding(
                g,
                #[trigger] p.shift(j * dx, j * dy),
            ),
        slide(g, p, dx, dy, limit) < limit ==> piece_colliding(
            g,
            p.shift((slide(g, p, dx, dy, limit) + 1) * dx, (slide(g, p, dx, dy, limit) + 1) * dy),
        ),
    decreases limit,
{
    if limit <= 0 || piece_colliding(g, p.shift(dx, dy)) {
        assert(1 * dx == dx && 1 * dy == dy);
    } else {
        let q = p.shift(dx, dy);
        let rest = slide(g, q, dx, dy, limit - 1);
        lemma_slide_steps(g, q, dx, dy, limit - 1);
        assert forall|j: int| 1 <= j <= rest + 1 implies !piece_colliding(
            g,
            #[trigger] p.shift(j * dx, j * dy),
        ) by {
            assert(j * dx == (j - 1) * dx + dx) by (nonlinear_arith);
            assert(j * dy == (j - 1) * dy + dy) by (nonlinear_arith);
            if j == 1 {
                assert(p.shift(j * dx, j * dy) == q);
            } else {
                assert(p.shift(j * dx, j * dy) == q.shift((j - 1) * dx, (j - 1) * dy));
            }
        }
        if rest < limit - 1 {
            assert((rest + 2) * dx == (rest + 1) * dx + dx) by (nonlinear_arith);
            assert((rest + 2) * dy == (rest + 1) * dy + dy) by (nonlinear_arith);
            assert(p.shift((rest + 2) * dx, (rest + 2) * dy) == q.shift(
                (rest + 1) * dx,
                (rest + 1) * dy,
            ));
        }
    }
}

/// A piece that does not collide has its origin in the grid's columns and
/// rows or at most two cells right of or below them.
pub proof fn lemma_fits_origin(g: Grid, p: PieceState)
    requires
        g.wf(),
        !piece_colliding(g, p),
    ensures
        0 <= p.x < g.width + 2,
        0 <= p.y < g.height + 2,
{
    lemma_layout_shape(p.piece_type, p.rotation);
    let a = anchor_index(p.piece_type);
    assert(!g.blocked(p.x + p.cells()[a].x, p.y + p.cells()[a].y));
}

/// A piece that does not collide lands without colliding, as far down as it
/// can go: one row further it would collide.
pub proof fn lemma_drop_lands(g: Grid, p: PieceState)
    requires
        g.wf(),
        !piece_colliding(g, p),
    ensures
        0 <= drop_distance(g, p) <= g.height + 1,
        !piece_colliding(g, p.shift(0, drop_distance(g, p))),
        piece_colliding(g, p.shift(0, drop_distance(g, p) + 1)),
        forall|j: int|
            0 <= j <= drop_distance(g, p) ==> !piece_colliding(g, #[trigger] p.shift(0, j)),
{
    let limit = g.height + 2;
    let d = drop_distance(g, p);
    lemma_slide_steps(g, p, 0, 1, limit);
    assert forall|j: int| 0 <= j <= d implies !piece_colliding(g, #[trigger] p.shift(0, j)) by {
        if j == 0 {
            assert(p.shift(0, 0) == p);
        } else {
            assert(p.shift(j * 0, j * 1) == p.shift(0, j));
        }
    }
    lemma_fits_origin(g, p);
    lemma_fits_origin(g, p.shift(0, d));
    assert(p.shift((d + 1) * 0, (d + 1) * 1) == p.shift(0, d + 1));
}

/// The first fit is a test at which the cells do not collide, the tests
/// before it are tests at which they do, and where there is no fit they
/// collide at every test.
pub proof fn lemma_first_fit(
    g: Grid,
    cells: Seq<Point>,
    x: int,
    y: int,
    tests: Seq<Point>,
    from: int,
)
    requires
        0 <= from <= tests.len(),
    ensures
        from <= first_fit(g, cells, x, y, tests, from) <= tests.len(),
        first_fit(g, cells, x, y, tests, from) < tests.len() ==> !g.colliding(
            cells,
            x + tests[first_fit(g, cells, x, y, tests, from)].x,
            y + tests[first_fit(g, cells, x, y, tests, from)].y,
        ),
        forall|i: int|
            from <= i < first_fit(g, cells, x, y, tests, from) ==> g.colliding(
                cells,
                x + (#[trigger] tests[i]).x,
                y + tests[i].y,
            ),
    decreases tests.len() - from,
{
    if from < tests.len() && g.colliding(cells, x + tests[from].x, y + tests[from].y) {
        lemma_first_fit(g, cells, x, y, tests, from + 1);
    }
}

/// A move leaves a piece that did not collide at a place where it does not
/// collide, however many of the steps asked for it could make.
pub proof fn lemma_slide_keeps_free(g: Grid, p: PieceState, dx: int, dy: int, limit: int)
    requires
        !piece_colliding(g, p),
    ensures
        !piece_colliding(
            g,
            p.shift(slide(g, p, dx, dy, limit) * dx, slide(g, p, dx, dy, limit) * dy),
        ),
{
    let k = slide(g, p, dx, dy, limit);
    if limit <= 0 {
        assert(k == 0);
    } else {
        lemma_slide_steps(g, p, dx, dy, limit);
    }
    if k == 0 {
        assert(k * dx == 0 && k * dy == 0);
        assert(p.shift(0, 0) == p);
    }
}

/// A hard drop of a piece that does not collide places it, without fail, in
/// the row that `find_nearest_y` finds: there the piece does not collide, so
/// no placement error arises and the piece is written into the grid at that
/// row.
pub proof fn lemma_hard_drop_places(s: PieceMgrState, g: Grid)
    requires
        g.wf(),
        !s.dead,
        !piece_colliding(g, s.piece),
    ensures
        dropped(s, g).piece.y == s.piece.y + drop_distance(g, s.piece),
        dropped(s, g).piece.x == s.piece.x,
        !piece_colliding(g, dropped(s, g).piece),
        lock_error(dropped(s, g), g) is None,
{
    lemma_drop_lands(g, s.piece);
    let q = dropped(s, g).piece;
    assert(q == s.piece.shift(0, drop_distance(g, s.piece)));
    assert(!g.out_of_bounds(q.cells(), q.x, q.y)) by {
        if g.out_of_bounds(q.cells(), q.x, q.y) {
            let i = choose|i: int|
                0 <= i < q.cells().len() && !g.in_bounds(
                    q.x + (#[trigger] q.cells()[i]).x,
                    q.y + q.cells()[i].y,
                );
            assert(g.blocked(q.x + q.cells()[i].x, q.y + q.cells()[i].y));
        }
    }
}

/// What the piece manager is, mathematically.
pub struct PieceMgrState {
    /// The active piece. On a dead board, the piece whose spawn collided.
    pub piece: PieceState,
    /// The type of the piece on hold.
    pub hold: Option<PieceType>,
    /// Whether a piece was held since the last spawn from the queue.
    pub hold_used: bool,
    /// Whether the board has no active piece.
    pub dead: bool,
    /// Whether the active piece is to lock at the next update.
    pub lock_pending: bool,
    pub combo: u32,
    pub b2b: u32,
    /// The seed of the piece sequence.
    pub seed: u64,
    /// How many pieces were taken from the queue.
    pub taken: nat,
    /// How many upcoming pieces the queue shows.
    pub queue_len: nat,
    /// The width of the grid that pieces spawn on.
    pub width: int,
    pub attack: AttackSettings,
}

/// The tests that a rotation of the piece tries under the ruleset.
pub open spec fn rotation_tests(p: PieceState, mode: WallKickDataMode, d: RotationDirection) -> Seq<
    Point,
> {
    kick_tests(mode, wall_kick_type_of(p.piece_type), rotation_move(p.rotation, d))
}

/// The index of the first test at which the piece fits after the rotation;
/// the number of tests if it fits at none.
pub open spec fn kick_fit(g: Grid, p: PieceState, mode: WallKickDataMode, d: RotationDirection) -> int {
    first_fit(
        g,
        layout(p.piece_type, rotated(p.rotation, d)),
        p.x,
        p.y,
        rotation_tests(p, mode, d),
        0,
    )
}

/// The piece after a rotation that fits: turned, and shifted by the first
/// test that fits.
pub open spec fn kicked(g: Grid, p: PieceState, mode: WallKickDataMode, d: RotationDirection) -> PieceState {
    let kick = rotation_tests(p, mode, d)[kick_fit(g, p, mode, d)];
    p.rotate(d, kick.x as int, kick.y as int)
}

/// The piece manager with its active piece fallen as far as it can.
pub open spec fn dropped(s: PieceMgrState, g: Grid) -> PieceMgrState {
    PieceMgrState { piece: s.piece.shift(0, drop_distance(g, s.piece)), ..s }
}

/// The piece manager of a new game under `seed`, on the grid `g`.
pub open spec fn initial_state(settings: GameSettings, seed: u64, g: Grid) -> PieceMgrState {
    let piece = spawn_state(settings.board.width as int, piece_at(seed, 0));
    PieceMgrState {
        piece,
        hold: None,
        hold_used: false,
        dead: piece_colliding(g, piece),
        lock_pending: false,
        combo: 0,
        b2b: 0,
        seed,
        taken: 1,
        queue_len: settings.queue_size as nat,
        width: settings.board.width as int,
        attack: settings.attack,
    }
}

/// Why the active piece cannot lock where it is, if it cannot.
pub open spec fn lock_error(s: PieceMgrState, g: Grid) -> Option<UpdateErrorReason> {
    if s.dead {
        Some(UpdateErrorReason::BoardDead)
    } else if g.out_of_bounds(s.piece.cells(), s.piece.x, s.piece.y) {
        Some(UpdateErrorReason::OutOfBounds)
    } else if piece_colliding(g, s.piece) {
        Some(UpdateErrorReason::CellOccupied)
    } else {
        None
    }
}

/// The grid with the piece written into it, before full rows are cleared.
pub open spec fn placed_grid(g: Grid, p: PieceState) -> Grid {
    g.stamped(p.cells(), p.x, p.y, cell_type_of(p.piece_type))
}

/// The grid after the piece locked where it is.
pub open spec fn locked_grid(g: Grid, p: PieceState) -> Grid {
    placed_grid(g, p).cleared()
}

/// How many rows the lock of the piece clears.
pub open spec fn locked_lines(g: Grid, p: PieceState) -> int {
    placed_grid(g, p).full_count() as int
}

/// The piece manager after the active piece locked where it is: the streaks
/// count the lock, the next piece of the queue has spawned and may be held
/// again, and the board is dead if that piece collides where it spawned.
pub open spec fn locked(s: PieceMgrState, g: Grid) -> PieceMgrState {
    let lines = locked_lines(g, s.piece);
    let piece = spawn_state(s.width, piece_at(s.seed, s.taken));
    PieceMgrState {
        piece,
        hold_used: false,
        dead: piece_colliding(locked_grid(g, s.piece), piece),
        lock_pending: false,
        combo: next_combo(s.combo, lines),
        b2b: next_b2b(s.b2b, lines),
        taken: s.taken + 1,
        ..s
    }
}

/// Whether `r` holds the score of the lock that led from `s` on the grid
/// `g`: the rows it cleared, the streaks after it and the garbage it sends.
pub open spec fn is_lock_score(r: MoveResult, s: PieceMgrState, g: Grid) -> bool {
    let lines = locked_lines(g, s.piece);
    &&& r.lines_cleared == lines
    &&& r.combo == next_combo(s.combo, lines)
    &&& r.b2b == next_b2b(s.b2b, lines)
    &&& r.attack.out_damage == attack_of(s.attack, lines, next_b2b(s.b2b, lines))
}

/// Whether `r` is the piece manager's report of the lock that led from `s`
/// on the grid `g`: its score, and no incoming garbage, of which the piece
/// manager knows nothing.
pub open spec fn is_lock_report(r: MoveResult, s: PieceMgrState, g: Grid) -> bool {
    &&& is_lock_score(r, s, g)
    &&& r.attack.in_damage_queue@.len() == 0
}

/// Whether `res`, the piece manager `after` and the grid `g_after` are what
/// an attempt to lock the active piece of `s` on the grid `g` gives: where
/// the piece cannot lock, that error and nothing changed; else the lock,
/// reported unless the next piece collides where it spawns.
pub open spec fn is_lock_outcome(
    res: Result<MoveResult, UpdateErrorReason>,
    after: PieceMgrState,
    g_after: Grid,
    s: PieceMgrState,
    g: Grid,
) -> bool {
    match lock_error(s, g) {
        Some(e) => res == Err::<MoveResult, UpdateErrorReason>(e) && after == s && g_after == g,
        None => {
            &&& after == locked(s, g)
            &&& g_after == locked_grid(g, s.piece)
            &&& match res {
                Ok(r) => !after.dead && is_lock_report(r, s, g),
                Err(e) => after.dead && e == UpdateErrorReason::BoardDead,
            }
        },
    }
}

/// The piece manager after a hold: the active piece's type is on hold, and
/// the piece that was on hold, or the next of the queue where none was, has
/// spawned.
pub open spec fn held(s: PieceMgrState, g: Grid) -> PieceMgrState {
    let from_queue = s.hold is None;
    let t = match s.hold {
        Some(h) => h,
        None => piece_at(s.seed, s.taken),
    };
    let piece = spawn_state(s.width, t);
    PieceMgrState {
        piece,
        hold: Some(s.piece.piece_type),
        hold_used: true,
        dead: piece_colliding(g, piece),
        taken: if from_queue {
            s.taken + 1
        } else {
            s.taken
        },
        ..s
    }
}

/// The piece manager.
pub struct PieceMgr {
    cur_piece: Piece,
    piece_queue: PieceQueue,
    hold_piece: Option<PieceType>,
    is_hold_used: bool,
    is_dead: bool,
    is_lock_pending: bool,
    combo: u32,
    b2b: u32,
    board_width: usize,
    attack: AttackSettings,
}

impl View for PieceMgr {
    type V = PieceMgrState;

    closed spec fn view(&self) -> PieceMgrState {
        PieceMgrState {
            piece: self.cur_piece@,
            hold: self.hold_piece,
            hold_used: self.is_hold_used,
            dead: self.is_dead,
            lock_pending: self.is_lock_pending,
            combo: self.combo,
            b2b: self.b2b,
            seed: self.piece_queue.spec_seed(),
            taken: self.piece_queue.spec_taken(),
            queue_len: self.piece_queue@.len(),
            width: self.board_width as int,
            attack: self.attack,
        }
    }
}

impl PieceMgr {
    /// The invariant: the piece and the queue are well formed, and the
    /// width is that of a grid.
    pub closed spec fn wf(&self) -> bool {
        &&& self.cur_piece.wf()
        &&& self.piece_queue.wf()
        &&& 1 <= self.board_width <= 0x7fff_ffff
    }

    /// The upcoming pieces as the queue shows them.
    pub closed spec fn spec_queue(&self) -> Seq<PieceType> {
        self.piece_queue@
    }

    /// What the queue of a well-formed piece manager shows: the pieces that
    /// follow those taken.
    pub proof fn lemma_queue_contents(&self)
        requires
            self.wf(),
        ensures
            self.spec_queue() == crate::piece_queue::upcoming(
                self@.seed,
                self@.taken,
                self@.queue_len,
            ),
    {
        self.piece_queue.lemma_contents();
    }

    /// A piece of the given type where it spawns.
    fn spawn(t: PieceType, width: usize) -> (piece: Piece)
        requires
            1 <= width <= 0x7fff_ffff,
        ensures
            piece.wf(),
            piece@ == spawn_state(width as int, t),
    {
        let mut piece = Piece::new(t);
        let x = match t {
            PieceType::I | PieceType::O => width / 2,
            _ => (width - 1) / 2,
        };
        piece.set_x(x as u32);
        piece.set_y(1);
        piece
    }

    /// Whether the active piece would collide after a shift by `(dx, dy)`.
    pub fn test_movement(&self, holder: &CellHolder, dx: i32, dy: i32) -> (free: bool)
        requires
            self.wf(),
            holder.wf(),
        ensures
            free == !piece_colliding(holder@, self@.piece.shift(dx as int, dy as int)),
    {
        holder.is_colliding(
            self.cur_piece.get_current_pos(),
            self.cur_piece.get_x() as i64 + dx as i64,
            self.cur_piece.get_y() as i64 + dy as i64,
        ) == false
    }

    /// The active piece.
    pub fn get_piece(&self) -> (piece: &Piece)
        requires
            self.wf(),
        ensures
            piece.wf(),
            piece@ == self@.piece,
    {
        &self.cur_piece
    }

    pub fn get_hold_piece(&self) -> (hold: Option<PieceType>)
        ensures
            hold == self@.hold,
    {
        self.hold_piece
    }

    /// Whether the board has no active piece.
    pub fn is_dead(&self) -> (dead: bool)
        ensures
            dead == self@.dead,
    {
        self.is_dead
    }

    /// The upcoming pieces, the next one first.
    pub fn get_queue(&self) -> (pieces: &Vec<PieceType>)
        ensures
            pieces@ == self.spec_queue(),
            pieces@.len() == self@.queue_len,
    {
        self.piece_queue.get_queue()
    }

    /// A piece manager for a new game: the queue is filled from the start
    /// of the sequence of `seed` and its first piece has spawned.
    pub fn new(game_settings: &GameSettings, seed: u64, holder: &CellHolder) -> (mgr: PieceMgr)
        requires
            game_settings.wf(),
            holder.wf(),
        ensures
            mgr.wf(),
            mgr@ == initial_state(*game_settings, seed, holder@),
    {
        let mut piece_queue = PieceQueue::new(seed, game_settings.queue_size);
        let first = piece_queue.next();
        let cur_piece = Self::spawn(first, game_settings.board.width);
        let is_dead = holder.is_colliding(
            cur_piece.get_current_pos(),
            cur_piece.get_x() as i64,
            cur_piece.get_y() as i64,
        );
        PieceMgr {
            cur_piece,
            piece_queue,
            hold_piece: None,
            is_hold_used: false,
            is_dead,
            is_lock_pending: false,
            combo: 0,
            b2b: 0,
            board_width: game_settings.board.width,
            attack: game_settings.attack,
        }
    }

    /// Starts the game over under the same seed, on the grid as it is now.
    pub fn reset(&mut self, holder: &CellHolder)
        requires
            old(self).wf(),
            holder.wf(),
        ensures
            final(self).wf(),
            final(self)@ == (PieceMgrState {
                piece: spawn_state(old(self)@.width, piece_at(old(self)@.seed, 0)),
                hold: None,
                hold_used: false,
                dead: piece_colliding(
                    holder@,
                    spawn_state(old(self)@.width, piece_at(old(self)@.seed, 0)),
                ),
                lock_pending: false,
                combo: 0,
                b2b: 0,
                taken: 1,
                ..old(self)@
            }),
    {
        self.piece_queue.reset();
        let first = self.piece_queue.next();
        self.cur_piece = Self::spawn(first, self.board_width);
        self.hold_piece = None;
        self.is_hold_used = false;
        self.is_lock_pending = false;
        self.combo = 0;
        self.b2b = 0;
        self.is_dead = holder.is_colliding(
            self.cur_piece.get_current_pos(),
            self.cur_piece.get_x() as i64,
            self.cur_piece.get_y() as i64,
        );
    }

    /// How many steps of `(dx, dy)` the active piece can make, up to
    /// `limit`. Nothing moves.
    fn probe(&self, holder: &CellHolder, dx: i32, dy: i32, limit: u32) -> (steps: u32)
        requires
            self.wf(),
            holder.wf(),
            -1 <= dx <= 1,
            -1 <= dy <= 1,
        ensures
            steps == slide(holder@, self@.piece, dx as int, dy as int, limit as int),
    {
        let cells = self.cur_piece.get_current_pos();
        let ghost p = self@.piece;
        let ghost g = holder@;
        let mut x: i64 = self.cur_piece.get_x() as i64;
        let mut y: i64 = self.cur_piece.get_y() as i64;
        let mut steps: u32 = 0;
        let mut free = true;
        assert(p.shift(0, 0) == p);
        while steps < limit && free
            invariant
                holder.wf(),
                g == holder@,
                cells@ == p.cells(),
                -1 <= dx <= 1,
                -1 <= dy <= 1,
                steps <= limit,
                x == p.x + steps * dx,
                y == p.y + steps * dy,
                0 <= p.x <= u32::MAX,
                0 <= p.y <= u32::MAX,
                slide(g, p, dx as int, dy as int, limit as int) == steps + if free {
                    slide(
                        g,
                        p.shift(steps * dx, steps * dy),
                        dx as int,
                        dy as int,
                        limit - steps,
                    )
                } else {
                    0
                },
            decreases
                    limit - steps + if free {
                        1int
                    } else {
                        0int
                    },
        {
            let ghost here = p.shift(steps * dx, steps * dy);
            assert((steps + 1) * dx == steps * dx + dx) by (nonlinear_arith);
            assert((steps + 1) * dy == steps * dy + dy) by (nonlinear_arith);
            assert(-steps <= steps * dx <= steps) by (nonlinear_arith)
                requires
                    -1 <= dx <= 1,
                    0 <= steps,
            ;
            assert(-steps <= steps * dy <= steps) by (nonlinear_arith)
                requires
                    -1 <= dy <= 1,
                    0 <= steps,
            ;
            assert(here.shift(dx as int, dy as int) == p.shift((steps + 1) * dx, (steps + 1) * dy));
            assert(here.shift(dx as int, dy as int).cells() == p.cells());
            if holder.is_colliding(cells, x + dx as i64, y + dy as i64) {
                free = false;
            } else {
                x = x + dx as i64;
                y = y + dy as i64;
                steps += 1;
            }
        }
        steps
    }

    /// Moves the active piece by `steps` times `(dx, dy)`.
    fn shift_piece(&mut self, dx: i32, dy: i32, steps: u32)
        requires
            old(self).wf(),
            -1 <= dx <= 1,
            -1 <= dy <= 1,
            0 <= old(self)@.piece.x + steps * dx <= u32::MAX,
            0 <= old(self)@.piece.y + steps * dy <= u32::MAX,
        ensures
            final(self).wf(),
            final(self)@ == (PieceMgrState {
                piece: old(self)@.piece.shift(steps * dx, steps * dy),
                ..old(self)@
            }),
    {
        assert(-steps <= steps * dx <= steps) by (nonlinear_arith)
            requires
                -1 <= dx <= 1,
                0 <= steps,
        ;
        assert(-steps <= steps * dy <= steps) by (nonlinear_arith)
            requires
                -1 <= dy <= 1,
                0 <= steps,
        ;
        let x: i64 = self.cur_piece.get_x() as i64 + steps as i64 * dx as i64;
        let y: i64 = self.cur_piece.get_y() as i64 + steps as i64 * dy as i64;
        self.cur_piece.set_x(x as u32);
        self.cur_piece.set_y(y as u32);
    }

    /// Makes up to `limit` steps of `(dx, dy)` with the active piece, as
    /// many as `slide` allows. On a dead board nothing moves.
    fn advance(&mut self, holder: &CellHolder, dx: i32, dy: i32, limit: u32) -> (steps: u32)
        requires
            old(self).wf(),
            holder.wf(),
            -1 <= dx <= 1,
            -1 <= dy <= 1,
        ensures
            final(self).wf(),
            steps == if old(self)@.dead {
                0
            } else {
                slide(holder@, old(self)@.piece, dx as int, dy as int, limit as int)
            },
            final(self)@ == (PieceMgrState {
                piece: old(self)@.piece.shift(steps * dx, steps * dy),
                ..old(self)@
            }),
    {
        if self.is_dead {
            assert(self@.piece.shift(0, 0) == self@.piece);
            return 0;
        }
        let steps = self.probe(holder, dx, dy, limit);
        proof {
            let p = self@.piece;
            self.cur_piece.lemma_bounds_tight();
            lemma_slide_steps(holder@, p, dx as int, dy as int, limit as int);
            if steps > 0 {
                assert(!piece_colliding(holder@, p.shift(steps * dx, steps * dy)));
                lemma_fits_origin(holder@, p.shift(steps * dx, steps * dy));
            } else {
                assert(steps * dx == 0 && steps * dy == 0);
            }
        }
        self.shift_piece(dx, dy, steps);
        steps
    }

    /// Moves the active piece to the left by up to `delta` cells, one cell
    /// at a time, and stops at the first step that would collide. Says how
    /// many cells it moved.
    pub fn move_left(&mut self, holder: &CellHolder, delta: i32) -> (moved: i32)
        requires
            old(self).wf(),
            holder.wf(),
        ensures
            final(self).wf(),
            moved == if old(self)@.dead {
                0
            } else {
                slide(holder@, old(self)@.piece, -1, 0, delta as int)
            },
            final(self)@ == (PieceMgrState {
                piece: old(self)@.piece.shift(-moved, 0),
                ..old(self)@
            }),
    {
        let limit: u32 = if delta > 0 {
            delta as u32
        } else {
            0
        };
        let steps = self.advance(holder, -1, 0, limit);
        proof {
            lemma_slide_steps(holder@, old(self)@.piece, -1, 0, limit as int);
        }
        steps as i32
    }

    /// Moves the active piece to the right by up to `delta` cells, one cell
    /// at a time, and stops at the first step that would collide. Says how
    /// many cells it moved.
    pub fn move_right(&mut self, holder: &CellHolder, delta: i32) -> (moved: i32)
        requires
            old(self).wf(),
            holder.wf(),
        ensures
            final(self).wf(),
            moved == if old(self)@.dead {
                0
            } else {
                slide(holder@, old(self)@.piece, 1, 0, delta as int)
            },
            final(self)@ == (PieceMgrState {
                piece: old(self)@.piece.shift(moved as int, 0),
                ..old(self)@
            }),
    {
        let limit: u32 = if delta > 0 {
            delta as u32
        } else {
            0
        };
        let steps = self.advance(holder, 1, 0, limit);
        proof {
            lemma_slide_steps(holder@, old(self)@.piece, 1, 0, limit as int);
        }
        steps as i32
    }

    /// Moves the active piece down by up to `delta` cells, one cell at a
    /// time, and stops at the first step that would collide. Says how many
    /// cells it moved.
    pub fn soft_drop(&mut self, holder: &CellHolder, delta: u32) -> (moved: u32)
        requires
            old(self).wf(),
            holder.wf(),
        ensures
            final(self).wf(),
            moved == if old(self)@.dead {
                0
            } else {
                slide(holder@, old(self)@.piece, 0, 1, delta as int)
            },
            final(self)@ == (PieceMgrState {
                piece: old(self)@.piece.shift(0, moved as int),
                ..old(self)@
            }),
    {
        self.advance(holder, 0, 1, delta)
    }

    /// The row the active piece would come to rest in: the row of its
    /// origin after it fell as far as it can.
    pub fn find_nearest_y(&self, holder: &CellHolder) -> (y: u32)
        requires
            self.wf(),
            holder.wf(),
        ensures
            y == self@.piece.y + drop_distance(holder@, self@.piece),
    {
        let limit = holder.get_height() as u32 + 2;
        let steps = self.probe(holder, 0, 1, limit);
        proof {
            let p = self@.piece;
            lemma_slide_steps(holder@, p, 0, 1, limit as int);
            if steps > 0 {
                assert(p.shift(steps * 0, steps * 1) == p.shift(0, steps as int));
                lemma_fits_origin(holder@, p.shift(0, steps as int));
            }
        }
        self.cur_piece.get_y() + steps
    }

    /// Whether the active piece rests on something: one row further down it
    /// would collide.
    pub fn is_grounded(&self, holder: &CellHolder) -> (grounded: bool)
        requires
            self.wf(),
            holder.wf(),
        ensures
            grounded == piece_colliding(holder@, self@.piece.shift(0, 1)),
    {
        !self.test_movement(holder, 0, 1)
    }

    /// Tries the tests in order with the expected layout, from where the
    /// active piece is, and reports the first that fits.
    pub fn test_rotation(&self, holder: &CellHolder, params: &WallKickCheckParams) -> (res:
        WallKickCheckResult)
        requires
            self.wf(),
            holder.wf(),
        ensures
            res.is_success == (first_fit(
                holder@,
                params.expected_pos@,
                self@.piece.x,
                self@.piece.y,
                params.tests@,
                0,
            ) < params.tests@.len()),
            res.wall_kick_pos == if res.is_success {
                Some(
                    params.tests@[first_fit(
                        holder@,
                        params.expected_pos@,
                        self@.piece.x,
                        self@.piece.y,
                        params.tests@,
                        0,
                    )],
                )
            } else {
                None
            },
    {
        let x: i64 = self.cur_piece.get_x() as i64;
        let y: i64 = self.cur_piece.get_y() as i64;
        let n = params.tests.len();
        let mut i: usize = 0;
        proof {
            self.cur_piece.lemma_bounds_tight();
        }
        while i < n
            invariant
                holder.wf(),
                n == params.tests@.len(),
                i <= n,
                0 <= x <= u32::MAX,
                0 <= y <= u32::MAX,
                x == self@.piece.x,
                y == self@.piece.y,
                first_fit(holder@, params.expected_pos@, x as int, y as int, params.tests@, 0)
                    == first_fit(
                    holder@,
                    params.expected_pos@,
                    x as int,
                    y as int,
                    params.tests@,
                    i as int,
                ),
            decreases n - i,
        {
            let t = params.tests[i];
            if !holder.is_colliding(params.expected_pos, x + t.x as i64, y + t.y as i64) {
                assert(first_fit(
                    holder@,
                    params.expected_pos@,
                    x as int,
                    y as int,
                    params.tests@,
                    i as int,
                ) == i);
                return WallKickCheckResult { is_success: true, wall_kick_pos: Some(t) };
            }
            assert(first_fit(
                holder@,
                params.expected_pos@,
                x as int,
                y as int,
                params.tests@,
                i as int,
            ) == first_fit(
                holder@,
                params.expected_pos@,
                x as int,
                y as int,
                params.tests@,
                i + 1,
            ));
            i += 1;
        }
        WallKickCheckResult { is_success: false, wall_kick_pos: None }
    }

    /// Turns the active piece, with the first wall kick that fits.
    ///
    /// The tests of the piece's kick class for the transition are tried in
    /// order with the layout of the orientation turned to. At the first at
    /// which the piece would not collide, the piece turns and shifts by that
    /// test. If there is none the rotation fails with `RotationFailed`, on a
    /// dead board with `BoardDead`, and nothing changes.
    pub fn rotate(
        &mut self,
        holder: &CellHolder,
        wkd: &WallKickData,
        direction: RotationDirection,
    ) -> (res: Result<(), UpdateErrorReason>)
        requires
            old(self).wf(),
            holder.wf(),
            wkd.wf(),
        ensures
            final(self).wf(),
            match res {
                Ok(()) => {
                    &&& !old(self)@.dead
                    &&& 0 <= kick_fit(holder@, old(self)@.piece, wkd.spec_mode(), direction)
                        < rotation_tests(old(self)@.piece, wkd.spec_mode(), direction).len()
                    &&& final(self)@ == (PieceMgrState {
                        piece: kicked(holder@, old(self)@.piece, wkd.spec_mode(), direction),
                        ..old(self)@
                    })
                },
                Err(e) => {
                    &&& final(self)@ == old(self)@
                    &&& e == if old(self)@.dead {
                        UpdateErrorReason::BoardDead
                    } else {
                        UpdateErrorReason::RotationFailed
                    }
                    &&& !old(self)@.dead ==> kick_fit(
                        holder@,
                        old(self)@.piece,
                        wkd.spec_mode(),
                        direction,
                    ) == rotation_tests(old(self)@.piece, wkd.spec_mode(), direction).len()
                },
            },
    {
        if self.is_dead {
            return Err(UpdateErrorReason::BoardDead);
        }
        let (mv, expected_pos) = self.cur_piece.get_rotation_type(direction);
        let tests = wkd.get(*self.cur_piece.get_wall_kick_type(), mv);
        let params = WallKickCheckParams { tests, expected_pos };
        let check = self.test_rotation(holder, &params);
        proof {
            let p = self@.piece;
            lemma_first_fit(holder@, expected_pos@, p.x, p.y, tests@, 0);
            lemma_kick_tests_shape(
                wkd.spec_mode(),
                wall_kick_type_of(p.piece_type),
                rotation_move(p.rotation, direction),
            );
        }
        match check.wall_kick_pos {
            Some(kick) => {
                proof {
                    let p = self@.piece;
                    lemma_fits_origin(holder@, p.rotate(direction, kick.x as int, kick.y as int));
                }
                self.cur_piece.rotate(direction, kick.x, kick.y);
                Ok(())
            },
            None => Err(UpdateErrorReason::RotationFailed),
        }
    }

    /// Lifts the active piece out of what it collides with, by up to
    /// `limit` rows, and says by how many rows it rose. On a dead board
    /// nothing moves.
    pub fn lift(&mut self, holder: &CellHolder, limit: u32) -> (lifted: u32)
        requires
            old(self).wf(),
            holder.wf(),
        ensures
            final(self).wf(),
            lifted == if old(self)@.dead {
                0
            } else {
                rise(holder@, old(self)@.piece, limit as int)
            },
            final(self)@ == (PieceMgrState {
                piece: old(self)@.piece.shift(0, -lifted),
                ..old(self)@
            }),
    {
        if self.is_dead {
            assert(self@.piece.shift(0, 0) == self@.piece);
            return 0;
        }
        let start = self.cur_piece.get_y();
        let x: i64 = self.cur_piece.get_x() as i64;
        let ghost p = self@.piece;
        let ghost g = holder@;
        let mut lifted: u32 = 0;
        let mut colliding = true;
        proof {
            self.cur_piece.lemma_bounds_tight();
            assert(p.shift(0, 0) == p);
        }
        while lifted < limit && lifted < start && colliding
            invariant
                self.wf(),
                holder.wf(),
                g == holder@,
                p == self@.piece,
                start == p.y,
                x == p.x,
                lifted <= limit,
                lifted <= start,
                rise(g, p, limit as int) == lifted + if colliding {
                    rise(g, p.shift(0, -lifted), limit - lifted)
                } else {
                    0
                },
            decreases
                    limit - lifted + if colliding {
                        1int
                    } else {
                        0int
                    },
        {
            let ghost here = p.shift(0, -lifted);
            assert(here.shift(0, -1) == p.shift(0, -(lifted + 1)));
            assert(here.cells() == p.cells());
            if holder.is_colliding(self.cur_piece.get_current_pos(), x, (start - lifted) as i64) {
                lifted += 1;
            } else {
                colliding = false;
            }
        }
        self.cur_piece.set_y(start - lifted);
        lifted
    }

    /// Ends the game on this board: it has no active piece from now on.
    pub fn kill(&mut self)
        requires
            old(self).wf(),
        ensures
            final(self).wf(),
            final(self)@ == (PieceMgrState { dead: true, ..old(self)@ }),
    {
        self.is_dead = true;
    }

    /// Asks for the active piece to lock at the next update.
    pub fn request_lock(&mut self)
        requires
            old(self).wf(),
        ensures
            final(self).wf(),
            final(self)@ == (PieceMgrState { lock_pending: true, ..old(self)@ }),
    {
        self.is_lock_pending = true;
    }

    /// Locks the active piece where it is: writes it into the grid, clears
    /// the full rows, counts the streaks and spawns the next piece of the
    /// queue.
    pub fn lock_piece(&mut self, holder: &mut CellHolder) -> (res: Result<
        MoveResult,
        UpdateErrorReason,
    >)
        requires
            old(self).wf(),
            old(holder).wf(),
        ensures
            final(self).wf(),
            final(holder).wf(),
            is_lock_outcome(res, final(self)@, final(holder)@, old(self)@, old(holder)@),
    {
        if self.is_dead {
            return Err(UpdateErrorReason::BoardDead);
        }
        match holder.place(&self.cur_piece) {
            Err(PlaceError::OutOfBounds) => {
                return Err(UpdateErrorReason::OutOfBounds);
            },
            Err(PlaceError::CellOccupied) => {
                return Err(UpdateErrorReason::CellOccupied);
            },
            Ok(()) => {},
        }
        proof {
            broadcast use vstd::seq_lib::group_filter_ensures;

            assert(holder@.full_count() <= holder@.rows.len());
        }
        let lines = holder.clear_lines();
        self.combo = compute_combo(self.combo, lines.count);
        self.b2b = compute_b2b(self.b2b, lines.count);
        let out_damage = compute_attack(&self.attack, lines.count, self.b2b);
        let next = self.piece_queue.next();
        self.cur_piece = Self::spawn(next, self.board_width);
        self.is_hold_used = false;
        self.is_lock_pending = false;
        if holder.is_colliding(
            self.cur_piece.get_current_pos(),
            self.cur_piece.get_x() as i64,
            self.cur_piece.get_y() as i64,
        ) {
            self.is_dead = true;
            return Err(UpdateErrorReason::BoardDead);
        }
        Ok(
            MoveResult {
                lines_cleared: lines.count as u32,
                b2b: self.b2b,
                combo: self.combo,
                attack: AttackInfo { out_damage, in_damage_queue: Vec::new() },
            },
        )
    }

    /// Drops the active piece as far as it falls and locks it there.
    ///
    /// Fails with `BoardDead` on a dead board, and with the placement error
    /// if the piece cannot lock where it lands, which happens only to a
    /// piece that collided already; nothing has changed then. Else the piece
    /// locks, and the result is the report of the lock, or `BoardDead` where
    /// the next piece collides as it spawns.
    pub fn hard_drop(&mut self, holder: &mut CellHolder) -> (res: Result<
        MoveResult,
        UpdateErrorReason,
    >)
        requires
            old(self).wf(),
            old(holder).wf(),
        ensures
            final(self).wf(),
            final(holder).wf(),
            match lock_error(dropped(old(self)@, old(holder)@), old(holder)@) {
                Some(e) => res == Err::<MoveResult, UpdateErrorReason>(e) && final(self)@ == old(self)@ && final(holder)@ == old(holder)@,
                None => is_lock_outcome(
                    res,
                    final(self)@,
                    final(holder)@,
                    dropped(old(self)@, old(holder)@),
                    old(holder)@,
                ),
            },
    {
        if self.is_dead {
            return Err(UpdateErrorReason::BoardDead);
        }
        let limit = holder.get_height() as u32 + 2;
        proof {
            self.cur_piece.lemma_bounds_tight();
        }
        let steps = self.advance(holder, 0, 1, limit);
        assert(steps * 0 == 0 && steps * 1 == steps);
        assert(self@ == dropped(old(self)@, old(holder)@));
        let res = self.lock_piece(holder);
        match res {
            Err(UpdateErrorReason::OutOfBounds) | Err(UpdateErrorReason::CellOccupied) => {
                let y = self.cur_piece.get_y();
                self.cur_piece.set_y(y - steps);
                assert(self@.piece == old(self)@.piece);
            },
            _ => {},
        }
        res
    }

    /// Puts the active piece on hold and spawns the piece that was on hold,
    /// or the next of the queue where none was.
    ///
    /// Fails with `BoardDead` on a dead board and with `HoldUnavailable`
    /// where a piece was held since the last spawn from the queue; nothing
    /// changes then. Fails with `BoardDead` also where the piece that spawns
    /// collides; the board is dead then.
    pub fn hold_piece(&mut self, holder: &CellHolder) -> (res: Result<(), UpdateErrorReason>)
        requires
            old(self).wf(),
            holder.wf(),
        ensures
            final(self).wf(),
            if old(self)@.dead {
                res == Err::<(), UpdateErrorReason>(UpdateErrorReason::BoardDead) && final(self)@
                    == old(self)@
            } else if old(self)@.hold_used {
                res == Err::<(), UpdateErrorReason>(UpdateErrorReason::HoldUnavailable) && final(self)@ == old(self)@
            } else {
                final(self)@ == held(old(self)@, holder@) && res == if final(self)@.dead {
                    Err::<(), UpdateErrorReason>(UpdateErrorReason::BoardDead)
                } else {
                    Ok::<(), UpdateErrorReason>(())
                }
            },
    {
        if self.is_dead {
            return Err(UpdateErrorReason::BoardDead);
        }
        if self.is_hold_used {
            return Err(UpdateErrorReason::HoldUnavailable);
        }
        let current = self.cur_piece.get_type();
        let next = match self.hold_piece {
            Some(t) => t,
            None => self.piece_queue.next(),
        };
        self.hold_piece = Some(current);
        self.is_hold_used = true;
        self.cur_piece = Self::spawn(next, self.board_width);
        if holder.is_colliding(
            self.cur_piece.get_current_pos(),
            self.cur_piece.get_x() as i64,
            self.cur_piece.get_y() as i64,
        ) {
            self.is_dead = true;
            return Err(UpdateErrorReason::BoardDead);
        }
        Ok(())
    }

    /// The piece manager's part of a frame: locks the active piece if a
    /// lock was asked for. The time that passed plays no part in it.
    pub fn update(&mut self, holder: &mut CellHolder, dt: u32) -> (res: Option<
        Result<MoveResult, UpdateErrorReason>,
    >)
        requires
            old(self).wf(),
            old(holder).wf(),
        ensures
            final(self).wf(),
            final(holder).wf(),
            match res {
                None => (!old(self)@.lock_pending || old(self)@.dead) && final(holder)@ == old(holder)@ && final(self)@ == (PieceMgrState { lock_pending: false, ..old(self)@ }),
                Some(r) => old(self)@.lock_pending && !old(self)@.dead && is_lock_outcome(
                    r,
                    final(self)@,
                    final(holder)@,
                    (PieceMgrState { lock_pending: false, ..old(self)@ }),
                    old(holder)@,
                ),
            },
    {
        if self.is_lock_pending && !self.is_dead {
            self.is_lock_pending = false;
            Some(self.lock_piece(holder))
        } else {
            self.is_lock_pending = false;
            None
        }
    }
}

} // verus!
