//! The board: one player's grid, piece manager and gravity behind a single
//! command interface, with the garbage that comes in from opponents.

use vstd::prelude::*;
use crate::board_command::{BoardCommand, BoardMessage, BoardMoveDir};
use crate::cell_holder::{row_occupied, CellHolder, Grid};
use crate::game_settings::GameSettings;
use crate::gravity_mgr::{
    due_steps, gravity_after, initial_gravity, pieces_after_gravity, prolonged, restarted, GravityMgr,
    GravityState, CELL,
};
use crate::piece::{rotated, PieceType, RotationDirection, RotationState};
use crate::piece_points::layout;
use crate::piece_generators::piece_at;
use crate::piece_mgr::{
    lemma_first_fit, lemma_hard_drop_places, lemma_slide_keeps_free, piece_colliding, rise, dropped, held, initial_state, is_lock_score, kick_fit, kicked, lock_error, locked, locked_grid, rotation_tests, slide, PieceMgr, PieceMgrState, UpdateErrorReason,
};
use crate::replays::MoveResult;
use crate::rng_manager::{draw_at, RngManager};
use crate::wall_kick_data::{WallKickData, WallKickDataMode};

verus! {

/// Where a board stands in the life of its pieces.
#[derive(Clone, Copy, Debug, PartialEq, Eq, Structural)]
pub enum GameState {
    /// The board is dead: the last piece to spawn collided.
    NoPiece,
    /// The active piece falls, or has not been found resting yet.
    Falling,
    /// The active piece rests and its lock delay runs.
    Locking,
}

/// What a board is, mathematically.
pub struct BoardState {
    pub settings: GameSettings,
    pub grid: Grid,
    pub pieces: PieceMgrState,
    pub gravity: GravityState,
    pub enabled: bool,
    pub seed: u64,
    /// The column of the hole of the garbage that came in last; -1 where
    /// the next garbage draws a column of its own.
    pub last_garbage_x: int,
    /// How many columns were drawn.
    pub garbage_draws: nat,
    /// The amounts of garbage that came in since the last lock.
    pub incoming: Seq<u32>,
    /// The notices that no one has taken yet.
    pub messages: Seq<BoardMessage>,
}

/// Whether garbage that came in `count` rows high has pushed a taken cell
/// out of the top of the grid.
pub open spec fn overflowed(g: Grid, hole: int, count: nat) -> bool
    decreases count,
{
    count > 0 && (overflowed(g, hole, (count - 1) as nat) || row_occupied(
        g.pushed_times(hole, (count - 1) as nat).rows[0],
    ))
}

impl BoardState {
    /// The parts of a board fit together: they share the settings, the size
    /// of the grid and the seed. And on a board that is not dead the active
    /// piece does not collide.
    pub open spec fn wf(self) -> bool {
        &&& self.settings.wf()
        &&& self.grid.wf()
        &&& self.grid.width == self.settings.board.width
        &&& self.grid.height == self.settings.board.height
        &&& self.pieces.width == self.grid.width
        &&& self.pieces.seed == self.seed
        &&& self.pieces.attack == self.settings.attack
        &&& self.pieces.queue_len == self.settings.queue_size
        &&& self.gravity.settings == self.settings.gravity
        &&& self.gravity.progress < CELL
        &&& -1 <= self.last_garbage_x < self.grid.width
        &&& !self.pieces.dead ==> !piece_colliding(self.grid, self.pieces.piece)
    }

    /// The board of a new game.
    pub open spec fn new_game(settings: GameSettings, seed: u64) -> BoardState {
        let grid = Grid::empty(settings.board.width as int, settings.board.height as int);
        BoardState {
            settings,
            grid,
            pieces: initial_state(settings, seed, grid),
            gravity: initial_gravity(settings.gravity),
            enabled: true,
            seed,
            last_garbage_x: -1,
            garbage_draws: 0,
            incoming: Seq::empty(),
            messages: Seq::empty(),
        }
    }

    /// Where the board stands in the life of its pieces.
    pub open spec fn game_state(self) -> GameState {
        if self.pieces.dead {
            GameState::NoPiece
        } else if self.gravity.locking {
            GameState::Locking
        } else {
            GameState::Falling
        }
    }

    /// How many steps of `(dx, dy)` the active piece makes when asked for
    /// `limit`: none on a dead board.
    pub open spec fn steps(self, dx: int, dy: int, limit: int) -> int {
        if self.pieces.dead {
            0
        } else {
            slide(self.grid, self.pieces.piece, dx, dy, limit)
        }
    }

    /// The board after its active piece was asked to make `limit` steps of
    /// `(dx, dy)`: the piece has made the steps it could, and if it moved
    /// sideways the lock delay was asked to start anew.
    pub open spec fn moved(self, dx: int, dy: int, limit: int) -> BoardState {
        let k = self.steps(dx, dy, limit);
        BoardState {
            pieces: PieceMgrState { piece: self.pieces.piece.shift(k * dx, k * dy), ..self.pieces },
            gravity: if k > 0 && dy == 0 {
                prolonged(self.gravity)
            } else {
                self.gravity
            },
            ..self
        }
    }

    /// Whether a rotation of the active piece fits under the ruleset.
    pub open spec fn can_rotate(self, mode: WallKickDataMode, d: RotationDirection) -> bool {
        !self.pieces.dead && kick_fit(self.grid, self.pieces.piece, mode, d) < rotation_tests(
            self.pieces.piece,
            mode,
            d,
        ).len()
    }

    /// The board after a rotation was asked for: where it fits, the piece
    /// has turned with its kick and the lock delay was asked to start anew.
    pub open spec fn rotated(self, mode: WallKickDataMode, d: RotationDirection) -> BoardState {
        if self.can_rotate(mode, d) {
            BoardState {
                pieces: PieceMgrState {
                    piece: kicked(self.grid, self.pieces.piece, mode, d),
                    ..self.pieces
                },
                gravity: prolonged(self.gravity),
                ..self
            }
        } else {
            self
        }
    }

    /// What a rotation reports.
    pub open spec fn rotate_result(self, mode: WallKickDataMode, d: RotationDirection) -> Result<
        (),
        UpdateErrorReason,
    > {
        if self.pieces.dead {
            Err(UpdateErrorReason::BoardDead)
        } else if self.can_rotate(mode, d) {
            Ok(())
        } else {
            Err(UpdateErrorReason::RotationFailed)
        }
    }

    /// Whether a hold takes place.
    pub open spec fn can_hold(self) -> bool {
        !self.pieces.dead && !self.pieces.hold_used
    }

    /// The board after a hold was asked for: where it takes place, the
    /// pieces have changed places and gravity starts over.
    pub open spec fn after_hold(self) -> BoardState {
        if self.can_hold() {
            BoardState {
                pieces: held(self.pieces, self.grid),
                gravity: restarted(self.gravity),
                ..self
            }
        } else {
            self
        }
    }

    /// What a hold reports.
    pub open spec fn hold_result(self) -> Result<(), UpdateErrorReason> {
        if self.pieces.dead {
            Err(UpdateErrorReason::BoardDead)
        } else if self.pieces.hold_used {
            Err(UpdateErrorReason::HoldUnavailable)
        } else if self.after_hold().pieces.dead {
            Err(UpdateErrorReason::BoardDead)
        } else {
            Ok(())
        }
    }

    /// The board after the active piece of `s`, which is this board's piece
    /// manager but for where the piece is, was locked: nothing has changed
    /// where the piece cannot lock; else the grid holds the piece, the next
    /// piece has spawned, gravity starts over and the record of incoming
    /// garbage is empty.
    pub open spec fn after_lock(self, s: PieceMgrState) -> BoardState {
        if lock_error(s, self.grid) is Some {
            self
        } else {
            BoardState {
                grid: locked_grid(self.grid, s.piece),
                pieces: locked(s, self.grid),
                gravity: restarted(self.gravity),
                incoming: Seq::empty(),
                ..self
            }
        }
    }

    /// Whether `res` is what the lock of the active piece of `s` reports.
    pub open spec fn is_lock_result(
        self,
        s: PieceMgrState,
        res: Result<MoveResult, UpdateErrorReason>,
    ) -> bool {
        match lock_error(s, self.grid) {
            Some(e) => res == Err::<MoveResult, UpdateErrorReason>(e),
            None => match res {
                Ok(r) => !locked(s, self.grid).dead && is_lock_score(r, s, self.grid)
                    && r.attack.in_damage_queue@ == self.incoming,
                Err(e) => locked(s, self.grid).dead && e == UpdateErrorReason::BoardDead,
            },
        }
    }

    /// The column of the hole of the garbage that comes in next: that of
    /// the garbage before, or a column drawn where there is none.
    pub open spec fn garbage_column(self) -> int {
        if self.last_garbage_x >= 0 {
            self.last_garbage_x
        } else {
            draw_at(self.seed, self.garbage_draws, self.grid.width as u32) as int
        }
    }

    /// The board after `amount` rows of garbage came in with their hole in
    /// `column`: the rows stand at the bottom of the grid and the amount is
    /// on record. An active piece that the rising stack has run into was
    /// lifted out of it, by up to as many rows as came in. The board is
    /// dead if the garbage pushed a taken cell out of the top, or if the
    /// piece could not be lifted free.
    pub open spec fn with_garbage(self, amount: u32, column: int) -> BoardState {
        let grid = self.grid.pushed_times(column, amount as nat);
        let over = overflowed(self.grid, column, amount as nat);
        let lifted = if self.pieces.dead || over {
            0
        } else {
            rise(grid, self.pieces.piece, amount as int)
        };
        let piece = self.pieces.piece.shift(0, -lifted);
        BoardState {
            grid,
            pieces: PieceMgrState {
                piece,
                dead: self.pieces.dead || over || piece_colliding(grid, piece),
                ..self.pieces
            },
            incoming: if amount > 0 {
                self.incoming.push(amount)
            } else {
                self.incoming
            },
            ..self
        }
    }

    /// The board after garbage was sent to it: the column is that of the
    /// garbage before or newly drawn, and is kept for the garbage to come.
    pub open spec fn after_garbage(self, amount: u32) -> BoardState {
        let column = self.garbage_column();
        BoardState {
            last_garbage_x: column,
            garbage_draws: if self.last_garbage_x >= 0 {
                self.garbage_draws
            } else {
                self.garbage_draws + 1
            },
            ..self.with_garbage(amount, column)
        }
    }

    /// The board after gravity acted for `dt` milliseconds, before the
    /// piece manager's part of the update.
    pub open spec fn after_gravity(self, dt: u32) -> BoardState {
        BoardState {
            pieces: pieces_after_gravity(self.gravity, self.pieces, self.grid, dt),
            gravity: gravity_after(self.gravity, self.pieces, self.grid, dt),
            ..self
        }
    }

    /// Whether an update of `dt` milliseconds locks the active piece, or
    /// tries to.
    pub open spec fn update_locks(self, dt: u32) -> bool {
        self.after_gravity(dt).pieces.lock_pending && !self.after_gravity(dt).pieces.dead
    }

    /// The board after an update of `dt` milliseconds: gravity has acted,
    /// and then the piece has locked if its lock was due.
    pub open spec fn updated(self, dt: u32) -> BoardState {
        let fell = self.after_gravity(dt);
        let s = PieceMgrState { lock_pending: false, ..fell.pieces };
        if self.update_locks(dt) {
            BoardState { pieces: s, ..fell }.after_lock(s)
        } else {
            BoardState { pieces: s, ..fell }
        }
    }
    /// The board after a command, but for the notices of the command.
    pub open spec fn executed(self, cmd: BoardCommand) -> BoardState {
        match cmd {
            BoardCommand::Move(BoardMoveDir::Left, delta) => self.moved(-1, 0, delta as int),
            BoardCommand::Move(BoardMoveDir::Right, delta) => self.moved(1, 0, delta as int),
            BoardCommand::Rotate(d) => self.rotated(self.settings.wall_kick_data_mode, d),
            BoardCommand::HardDrop => self.after_lock(dropped(self.pieces, self.grid)),
            BoardCommand::SoftDrop(delta) => self.moved(0, 1, delta as int),
            BoardCommand::SendGarbage(amount, _) => self.after_garbage(amount),
            BoardCommand::Update(dt) => self.updated(dt),
            BoardCommand::HoldPiece => self.after_hold(),
            BoardCommand::RequestBoardLayout => self,
        }
    }

    /// Whether a command took a piece from the queue.
    pub open spec fn took(self, after: BoardState) -> bool {
        after.pieces.taken != self.pieces.taken
    }

    /// The notice of the garbage that a command let in.
    pub open spec fn garbage_notice(self, cmd: BoardCommand, after: BoardState) -> Seq<
        BoardMessage,
    > {
        match cmd {
            BoardCommand::SendGarbage(amount, _) => if amount > 0 {
                seq![BoardMessage::GarbageReceived(amount, after.last_garbage_x as u32)]
            } else {
                Seq::empty()
            },
            _ => Seq::empty(),
        }
    }

    /// The notice that the grid was written to, by a lock or by garbage,
    /// or that its layout was asked for.
    pub open spec fn grid_notice(self, cmd: BoardCommand, after: BoardState) -> Seq<BoardMessage> {
        if (self.took(after) && cmd != BoardCommand::HoldPiece) || self.garbage_notice(
            cmd,
            after,
        ).len() > 0 || cmd == BoardCommand::RequestBoardLayout {
            seq![BoardMessage::BoardUpdated]
        } else {
            Seq::empty()
        }
    }

    /// The notice of the piece that entered the queue when one was taken
    /// from it.
    pub open spec fn queue_notice(self, after: BoardState) -> Seq<BoardMessage> {
        if self.took(after) && after.pieces.queue_len > 0 {
            seq![
                BoardMessage::NewPieceInQueue(
                    piece_at(
                        after.pieces.seed,
                        (after.pieces.taken + after.pieces.queue_len - 1) as nat,
                    ),
                ),
            ]
        } else {
            Seq::empty()
        }
    }

    /// The notice that the active piece has moved, turned or been
    /// replaced.
    pub open spec fn piece_notice(self, after: BoardState) -> Seq<BoardMessage> {
        if after.pieces.piece != self.pieces.piece {
            seq![BoardMessage::PieceUpdated]
        } else {
            Seq::empty()
        }
    }

    /// The notice that the board has come to another game state.
    pub open spec fn state_notice(self, after: BoardState) -> Seq<BoardMessage> {
        if after.game_state() != self.game_state() {
            seq![BoardMessage::GameStateChanged(after.game_state())]
        } else {
            Seq::empty()
        }
    }

    /// The notices of a command that led from this board to `after`, in
    /// the order they are given.
    pub open spec fn notices(self, cmd: BoardCommand, after: BoardState) -> Seq<BoardMessage> {
        self.garbage_notice(cmd, after) + self.grid_notice(cmd, after) + self.queue_notice(after)
            + self.piece_notice(after) + self.state_notice(after)
    }

    /// The board after a command: what the command did, and its notices
    /// behind those that were not taken yet.
    pub open spec fn after_cmd(self, cmd: BoardCommand) -> BoardState {
        let after = self.executed(cmd);
        BoardState { messages: self.messages + self.notices(cmd, after), ..after }
    }

    /// Whether `res` is what a command reports: the report of the lock
    /// where the command locked a piece, nothing where it did something
    /// else, and the error where it failed.
    pub open spec fn is_cmd_result(
        self,
        cmd: BoardCommand,
        res: Result<Option<MoveResult>, UpdateErrorReason>,
    ) -> bool {
        match cmd {
            BoardCommand::Move(_, _) | BoardCommand::SoftDrop(_) | BoardCommand::RequestBoardLayout => res
                matches Ok(None),
            BoardCommand::Rotate(d) => match self.rotate_result(self.settings.wall_kick_data_mode, d) {
                Ok(_) => res matches Ok(None),
                Err(e) => res == Err::<Option<MoveResult>, UpdateErrorReason>(e),
            },
            BoardCommand::HoldPiece => match self.hold_result() {
                Ok(_) => res matches Ok(None),
                Err(e) => res == Err::<Option<MoveResult>, UpdateErrorReason>(e),
            },
            BoardCommand::SendGarbage(amount, _) => if self.after_garbage(amount).pieces.dead {
                res == Err::<Option<MoveResult>, UpdateErrorReason>(UpdateErrorReason::BoardDead)
            } else {
                res matches Ok(None)
            },
            BoardCommand::HardDrop => self.is_lock_cmd_result(
                dropped(self.pieces, self.grid),
                res,
            ),
            BoardCommand::Update(dt) => if self.update_locks(dt) {
                self.after_gravity(dt).is_lock_cmd_result(
                    PieceMgrState { lock_pending: false, ..self.after_gravity(dt).pieces },
                    res,
                )
            } else {
                res matches Ok(None)
            },
        }
    }

    /// Whether `res` is what a command reports that locked the active piece
    /// of `s`, or tried to.
    pub open spec fn is_lock_cmd_result(
        self,
        s: PieceMgrState,
        res: Result<Option<MoveResult>, UpdateErrorReason>,
    ) -> bool {
        match res {
            Ok(Some(r)) => self.is_lock_result(s, Ok(r)),
            Ok(None) => false,
            Err(e) => self.is_lock_result(s, Err(e)),
        }
    }
}

/// A move leaves a well-formed board well formed: the piece of a board
/// that is not dead does not collide after it.
pub proof fn lemma_moved_keeps_wf(b: BoardState, dx: int, dy: int, limit: int)
    requires
        b.wf(),
    ensures
        b.moved(dx, dy, limit).wf(),
{
    if !b.pieces.dead {
        lemma_slide_keeps_free(b.grid, b.pieces.piece, dx, dy, limit);
    }
}

/// A rotation leaves a well-formed board well formed: the kick that is
/// taken is one at which the piece does not collide.
pub proof fn lemma_rotated_keeps_wf(b: BoardState, mode: WallKickDataMode, d: RotationDirection)
    requires
        b.wf(),
    ensures
        b.rotated(mode, d).wf(),
{
    let p = b.pieces.piece;
    lemma_first_fit(
        b.grid,
        layout(p.piece_type, rotated(p.rotation, d)),
        p.x,
        p.y,
        rotation_tests(p, mode, d),
        0,
    );
}

/// Gravity leaves a well-formed board well formed.
pub proof fn lemma_gravity_keeps_wf(b: BoardState, dt: u32)
    requires
        b.wf(),
    ensures
        b.after_gravity(dt).wf(),
{
    if !b.pieces.dead && !piece_colliding(b.grid, b.pieces.piece.shift(0, 1)) {
        let steps = due_steps(b.gravity, dt) as int;
        lemma_slide_keeps_free(b.grid, b.pieces.piece, 0, 1, steps);
        let k = slide(b.grid, b.pieces.piece, 0, 1, steps);
        assert(b.pieces.piece.shift(k * 0, k * 1) == b.pieces.piece.shift(0, k));
    }
}

/// On a board that is not dead a hard drop does not fail to place the
/// piece: the piece does not collide, so it lands where it does not
/// collide either.
pub proof fn lemma_live_board_places(b: BoardState)
    requires
        b.wf(),
        !b.pieces.dead,
    ensures
        lock_error(dropped(b.pieces, b.grid), b.grid) is None,
        lock_error(b.pieces, b.grid) is None,
{
    lemma_hard_drop_places(b.pieces, b.grid);
    let p = b.pieces.piece;
    assert(!b.grid.out_of_bounds(p.cells(), p.x, p.y)) by {
        if b.grid.out_of_bounds(p.cells(), p.x, p.y) {
            let i = choose|i: int|
                0 <= i < p.cells().len() && !b.grid.in_bounds(
                    p.x + (#[trigger] p.cells()[i]).x,
                    p.y + p.cells()[i].y,
                );
            assert(b.grid.blocked(p.x + p.cells()[i].x, p.y + p.cells()[i].y));
        }
    }
}

/// No command leaves the active piece of a board that is not dead at a
/// place where it collides.
pub proof fn lemma_cmd_keeps_piece_free(b: BoardState, cmd: BoardCommand)
    requires
        b.wf(),
    ensures
        !b.after_cmd(cmd).pieces.dead ==> !piece_colliding(
            b.after_cmd(cmd).grid,
            b.after_cmd(cmd).pieces.piece,
        ),
{
    match cmd {
        BoardCommand::Move(BoardMoveDir::Left, delta) => {
            lemma_moved_keeps_wf(b, -1, 0, delta as int);
        },
        BoardCommand::Move(BoardMoveDir::Right, delta) => {
            lemma_moved_keeps_wf(b, 1, 0, delta as int);
        },
        BoardCommand::SoftDrop(delta) => {
            lemma_moved_keeps_wf(b, 0, 1, delta as int);
        },
        BoardCommand::Rotate(d) => {
            lemma_rotated_keeps_wf(b, b.settings.wall_kick_data_mode, d);
        },
        BoardCommand::Update(dt) => {
            lemma_gravity_keeps_wf(b, dt);
        },
        _ => {},
    }
}

/// Garbage that comes in twice, with no other draw of a column in between,
/// has its holes in one column: the column of the first is kept for the
/// second, and the rows of both stand stacked in the grid.
pub proof fn lemma_garbage_column_kept(b: BoardState, first: u32, second: u32)
    ensures
        b.after_garbage(first).last_garbage_x == b.garbage_column(),
        b.after_garbage(first).garbage_column() == b.garbage_column(),
        b.after_garbage(first).after_garbage(second).last_garbage_x == b.garbage_column(),
        b.after_garbage(first).after_garbage(second).grid == b.grid.pushed_times(
            b.garbage_column(),
            first as nat,
        ).pushed_times(b.garbage_column(), second as nat),
{
}

/// What can be reset, switched on and switched off.
pub trait BoardStateful {
    /// What the implementor needs to hold of itself.
    spec fn stateful_wf(&self) -> bool;

    /// Whether it is switched on.
    spec fn enabled(&self) -> bool;

    fn reset(&mut self)
        requires
            old(self).stateful_wf(),
        ensures
            final(self).stateful_wf(),
            final(self).enabled() == old(self).enabled(),
    ;

    fn enable(&mut self)
        requires
            old(self).stateful_wf(),
        ensures
            final(self).stateful_wf(),
    {
    }

    fn disable(&mut self)
        requires
            old(self).stateful_wf(),
        ensures
            final(self).stateful_wf(),
    {
    }

    fn is_enabled(&self) -> (b: bool)
        ensures
            b == self.enabled(),
    ;
}

/// A part of a board that is reset, switched and updated with it.
pub trait BoardComponent {
    /// What the component needs to hold of itself.
    spec fn component_wf(&self) -> bool;

    /// The text that names the component.
    spec fn component_name(&self) -> Seq<char>;

    /// The name of the component.
    fn get_name(&self) -> (name: &'static str)
        ensures
            name@ == self.component_name(),
    ;

    fn reset(&mut self)
        requires
            old(self).component_wf(),
        ensures
            final(self).component_wf(),
    ;

    fn enable(&mut self)
        requires
            old(self).component_wf(),
        ensures
            final(self).component_wf(),
    {
    }

    fn disable(&mut self)
        requires
            old(self).component_wf(),
        ensures
            final(self).component_wf(),
    {
    }

    /// Lets `dt` milliseconds pass.
    fn update(&mut self, dt: u32)
        requires
            old(self).component_wf(),
        ensures
            final(self).component_wf(),
    {
    }
}

impl BoardComponent for CellHolder {
    open spec fn component_wf(&self) -> bool {
        self.wf()
    }

    open spec fn component_name(&self) -> Seq<char> {
        "cell_holder"@
    }

    fn get_name(&self) -> (name: &'static str) {
        "cell_holder"
    }

    /// Empties the grid.
    fn reset(&mut self)
        ensures
            final(self)@ == Grid::empty(old(self)@.width, old(self)@.height),
    {
        CellHolder::reset(self)
    }
}

impl BoardComponent for GravityMgr {
    open spec fn component_wf(&self) -> bool {
        self.wf()
    }

    open spec fn component_name(&self) -> Seq<char> {
        "gravity_mgr"@
    }

    fn get_name(&self) -> (name: &'static str) {
        "gravity_mgr"
    }

    /// Starts over as at the start of a game.
    fn reset(&mut self)
        ensures
            final(self)@ == initial_gravity(old(self)@.settings),
    {
        GravityMgr::reset(self)
    }
}

/// The active piece and the game state of a board at one moment.
struct Snapshot {
    piece_type: PieceType,
    rotation: RotationState,
    x: u32,
    y: u32,
    state: GameState,
}

impl Snapshot {
    /// Whether the snapshot is of the board `b`.
    spec fn matches_board(&self, b: BoardState) -> bool {
        &&& self.piece_type == b.pieces.piece.piece_type
        &&& self.rotation == b.pieces.piece.rotation
        &&& self.x == b.pieces.piece.x
        &&& self.y == b.pieces.piece.y
        &&& self.state == b.game_state()
    }
}

/// One player's board.
pub struct Board {
    game_settings: GameSettings,
    cell_holder: CellHolder,
    piece_mgr: PieceMgr,
    gravity_mgr: GravityMgr,
    wkd: WallKickData,
    is_enabled: bool,
    seed: u64,
    last_garbage_x: i32,
    rng: RngManager,
    incoming_damage: Vec<u32>,
    messages: Vec<BoardMessage>,
}

impl View for Board {
    type V = BoardState;

    closed spec fn view(&self) -> BoardState {
        BoardState {
            settings: self.game_settings,
            grid: self.cell_holder@,
            pieces: self.piece_mgr@,
            gravity: self.gravity_mgr@,
            enabled: self.is_enabled,
            seed: self.seed,
            last_garbage_x: self.last_garbage_x as int,
            garbage_draws: self.rng.spec_drawn(),
            incoming: self.incoming_damage@,
            messages: self.messages@,
        }
    }
}

impl Board {
    /// The invariant: every part is well formed and the parts fit together.
    pub closed spec fn wf(&self) -> bool {
        &&& self@.wf()
        &&& self.cell_holder.wf()
        &&& self.piece_mgr.wf()
        &&& self.gravity_mgr.wf()
        &&& self.wkd.wf()
        &&& self.wkd.spec_mode() == self.game_settings.wall_kick_data_mode
        &&& self.rng.wf()
        &&& self.rng.spec_seed() == self.seed
    }

    /// What the invariant says of the board as a value.
    pub proof fn lemma_view_wf(&self)
        requires
            self.wf(),
        ensures
            self@.wf(),
    {
    }

    /// A board for a new game. The seed fixes the pieces and the garbage
    /// columns.
    pub fn new(game_settings: GameSettings, seed: u64) -> (board: Board)
        requires
            game_settings.wf(),
        ensures
            board.wf(),
            board@ == BoardState::new_game(game_settings, seed),
    {
        let cell_holder = CellHolder::new(game_settings.get_board());
        let piece_mgr = PieceMgr::new(&game_settings, seed, &cell_holder);
        let gravity_mgr = GravityMgr::new(game_settings.get_gravity());
        Board {
            game_settings,
            cell_holder,
            piece_mgr,
            gravity_mgr,
            wkd: WallKickData::new(game_settings.wall_kick_data_mode),
            is_enabled: true,
            seed,
            last_garbage_x: -1,
            rng: RngManager::new(seed),
            incoming_damage: Vec::new(),
            messages: Vec::new(),
        }
    }

    /// Lets `dt` milliseconds pass: first gravity acts on the active
    /// piece, then the piece manager locks the piece if its lock is due.
    /// Reports the lock if there was one.
    pub fn update(&mut self, dt: u32) -> (res: Option<Result<MoveResult, UpdateErrorReason>>)
        requires
            old(self).wf(),
        ensures
            final(self).wf(),
            final(self)@ == old(self)@.updated(dt),
            match res {
                None => !old(self)@.update_locks(dt),
                Some(r) => old(self)@.update_locks(dt) && old(self)@.after_gravity(
                    dt,
                ).is_lock_result(
                    (PieceMgrState {
                        lock_pending: false,
                        ..old(self)@.after_gravity(dt).pieces
                    }),
                    r,
                ),
            },
            res matches Some(Err(e)) ==> e == UpdateErrorReason::BoardDead,
    {
        proof {
            lemma_gravity_keeps_wf(self@, dt);
            let fell = self@.after_gravity(dt);
            if !fell.pieces.dead {
                lemma_live_board_places(
                    BoardState { pieces: PieceMgrState { lock_pending: false, ..fell.pieces }, ..fell },
                );
            }
        }
        self.gravity_mgr.update(dt, &mut self.piece_mgr, &self.cell_holder);
        let res = self.piece_mgr.update(&mut self.cell_holder, dt);
        match res {
            None => None,
            Some(r) => {
                let locked = match r {
                    Err(UpdateErrorReason::OutOfBounds) | Err(UpdateErrorReason::CellOccupied) => false,
                    _ => true,
                };
                Some(self.finish_lock(r, locked))
            },
        }
    }

    /// After a lock was tried: where the piece has locked, gravity starts
    /// over and the report takes the record of incoming garbage with it.
    fn finish_lock(&mut self, res: Result<MoveResult, UpdateErrorReason>, locked: bool) -> (out:
        Result<MoveResult, UpdateErrorReason>)
        requires
            old(self).wf(),
            res is Ok ==> locked,
        ensures
            final(self).wf(),
            final(self)@ == if locked {
                BoardState {
                    gravity: restarted(old(self)@.gravity),
                    incoming: Seq::empty(),
                    ..old(self)@
                }
            } else {
                old(self)@
            },
            match res {
                Err(e) => out == res,
                Ok(r) => out is Ok && out->Ok_0.lines_cleared == r.lines_cleared && out->Ok_0.b2b
                    == r.b2b && out->Ok_0.combo == r.combo && out->Ok_0.attack.out_damage
                    == r.attack.out_damage && out->Ok_0.attack.in_damage_queue@ == old(self)@.incoming,
            },
    {
        if !locked {
            return res;
        }
        self.gravity_mgr.restart();
        let mut incoming: Vec<u32> = Vec::new();
        std::mem::swap(&mut incoming, &mut self.incoming_damage);
        match res {
            Err(e) => Err(e),
            Ok(r) => {
                let mut report = r;
                report.attack.in_damage_queue = incoming;
                Ok(report)
            },
        }
    }

    /// Moves the active piece to the left by up to `delta` cells, as far as
    /// it can go. If it moves, the lock delay is asked to start anew.
    pub fn move_left(&mut self, delta: i32)
        requires
            old(self).wf(),
        ensures
            final(self).wf(),
            final(self)@ == old(self)@.moved(-1, 0, delta as int),
    {
        proof {
            lemma_moved_keeps_wf(self@, -1, 0, delta as int);
        }
        let moved = self.piece_mgr.move_left(&self.cell_holder, delta);
        if moved > 0 {
            self.gravity_mgr.prolong_lock();
        }
    }

    /// Moves the active piece to the right by up to `delta` cells, as far
    /// as it can go. If it moves, the lock delay is asked to start anew.
    pub fn move_right(&mut self, delta: i32)
        requires
            old(self).wf(),
        ensures
            final(self).wf(),
            final(self)@ == old(self)@.moved(1, 0, delta as int),
    {
        proof {
            lemma_moved_keeps_wf(self@, 1, 0, delta as int);
        }
        let moved = self.piece_mgr.move_right(&self.cell_holder, delta);
        if moved > 0 {
            self.gravity_mgr.prolong_lock();
        }
    }

    /// Turns the active piece with the first wall kick of `wkd` that fits,
    /// and asks for the lock delay to start anew. Fails with
    /// `RotationFailed` where no kick fits, with `BoardDead` on a dead
    /// board; nothing changes then.
    pub fn rotate(&mut self, wkd: &WallKickData, direction: &RotationDirection) -> (res: Result<
        (),
        UpdateErrorReason,
    >)
        requires
            old(self).wf(),
            wkd.wf(),
        ensures
            final(self).wf(),
            final(self)@ == old(self)@.rotated(wkd.spec_mode(), *direction),
            res == old(self)@.rotate_result(wkd.spec_mode(), *direction),
    {
        proof {
            lemma_rotated_keeps_wf(self@, wkd.spec_mode(), *direction);
        }
        match self.piece_mgr.rotate(&self.cell_holder, wkd, *direction) {
            Ok(()) => {
                self.gravity_mgr.prolong_lock();
                Ok(())
            },
            Err(e) => Err(e),
        }
    }

    /// Drops the active piece as far as it falls and locks it there. The
    /// only failure is `BoardDead`: on a dead board, where nothing happens,
    /// and where the next piece collides as it spawns.
    pub fn hard_drop(&mut self) -> (res: Result<MoveResult, UpdateErrorReason>)
        requires
            old(self).wf(),
        ensures
            final(self).wf(),
            final(self)@ == old(self)@.after_lock(dropped(old(self)@.pieces, old(self)@.grid)),
            old(self)@.is_lock_result(dropped(old(self)@.pieces, old(self)@.grid), res),
            res matches Err(e) ==> e == UpdateErrorReason::BoardDead,
    {
        proof {
            if !self@.pieces.dead {
                lemma_live_board_places(self@);
            }
        }
        let was_dead = self.piece_mgr.is_dead();
        let res = self.piece_mgr.hard_drop(&mut self.cell_holder);
        let locked = match res {
            Ok(_) => true,
            Err(UpdateErrorReason::BoardDead) => !was_dead,
            _ => false,
        };
        self.finish_lock(res, locked)
    }

    /// Moves the active piece down by up to `delta` cells, as far as it can
    /// go.
    pub fn soft_drop(&mut self, delta: u32)
        requires
            old(self).wf(),
        ensures
            final(self).wf(),
            final(self)@ == old(self)@.moved(0, 1, delta as int),
    {
        proof {
            lemma_moved_keeps_wf(self@, 0, 1, delta as int);
        }
        self.piece_mgr.soft_drop(&self.cell_holder, delta);
    }

    /// Puts the active piece on hold.
    pub fn hold_piece(&mut self) -> (res: Result<(), UpdateErrorReason>)
        requires
            old(self).wf(),
        ensures
            final(self).wf(),
            final(self)@ == old(self)@.after_hold(),
            res == old(self)@.hold_result(),
    {
        let could = !self.piece_mgr.is_dead();
        let res = self.piece_mgr.hold_piece(&self.cell_holder);
        match res {
            Err(UpdateErrorReason::HoldUnavailable) => {},
            _ => {
                if could {
                    self.gravity_mgr.restart();
                }
            },
        }
        res
    }

    /// Lets `amount` rows of garbage in at the bottom of the grid, their
    /// holes in `column`, and lifts the active piece out of the stack if
    /// the stack has risen into it. Fails with `BoardDead` if the board is
    /// dead afterwards.
    pub fn apply_garbage(&mut self, amount: u32, column: u32) -> (res: Result<
        (),
        UpdateErrorReason,
    >)
        requires
            old(self).wf(),
        ensures
            final(self).wf(),
            final(self)@ == old(self)@.with_garbage(amount, column as int),
            res == if final(self)@.pieces.dead {
                Err::<(), UpdateErrorReason>(UpdateErrorReason::BoardDead)
            } else {
                Ok::<(), UpdateErrorReason>(())
            },
    {
        let mut overflow = false;
        let mut i: u32 = 0;
        while i < amount
            invariant
                i <= amount,
                self.cell_holder.wf(),
                self.cell_holder@ == old(self).cell_holder@.pushed_times(column as int, i as nat),
                overflow == overflowed(old(self).cell_holder@, column as int, i as nat),
                self.cell_holder@.width == old(self).cell_holder@.width,
                self.cell_holder@.height == old(self).cell_holder@.height,
                self.game_settings == old(self).game_settings,
                self.piece_mgr == old(self).piece_mgr,
                self.gravity_mgr == old(self).gravity_mgr,
                self.wkd == old(self).wkd,
                self.is_enabled == old(self).is_enabled,
                self.seed == old(self).seed,
                self.last_garbage_x == old(self).last_garbage_x,
                self.rng == old(self).rng,
                self.incoming_damage == old(self).incoming_damage,
                self.messages == old(self).messages,
            decreases amount - i,
        {
            let pushed_out = self.cell_holder.push_garbage(column);
            overflow = overflow || pushed_out;
            i += 1;
        }
        if overflow {
            self.piece_mgr.kill();
        } else {
            self.piece_mgr.lift(&self.cell_holder, amount);
            if !self.piece_mgr.is_dead() && !self.piece_mgr.test_movement(&self.cell_holder, 0, 0) {
                self.piece_mgr.kill();
            }
        }
        assert(self@.pieces.piece.shift(0, 0) == self@.pieces.piece);
        if amount > 0 {
            self.incoming_damage.push(amount);
        }
        if self.piece_mgr.is_dead() {
            Err(UpdateErrorReason::BoardDead)
        } else {
            Ok(())
        }
    }

    /// Takes in `amount` rows of garbage from an opponent. Their holes are
    /// in the column of the garbage that came in before; where there is
    /// none a column is drawn, evenly among the columns of the grid, from
    /// the board's own seeded randomness. The messiness plays no part.
    pub fn send_garbage(&mut self, amount: u32, _messiness: u32) -> (res: Result<
        (),
        UpdateErrorReason,
    >)
        requires
            old(self).wf(),
        ensures
            final(self).wf(),
            final(self)@ == old(self)@.after_garbage(amount),
            res == if final(self)@.pieces.dead {
                Err::<(), UpdateErrorReason>(UpdateErrorReason::BoardDead)
            } else {
                Ok::<(), UpdateErrorReason>(())
            },
    {
        let width = self.game_settings.get_board().width as u32;
        let garbage_hole_x: u32 = if self.last_garbage_x == -1 {
            self.rng.gen_below(width)
        } else {
            self.last_garbage_x as u32
        };
        self.last_garbage_x = garbage_hole_x as i32;
        self.apply_garbage(amount, garbage_hole_x)
    }

    /// Starts a new game under a new seed: an empty grid, the pieces and the
    /// garbage columns of the new seed, no time played. The notices that
    /// were not taken stay, and the board stays switched as it is.
    pub fn reset_with_seed(&mut self, seed: u64)
        requires
            old(self).wf(),
        ensures
            final(self).wf(),
            final(self)@ == (BoardState {
                enabled: old(self)@.enabled,
                messages: old(self)@.messages,
                ..BoardState::new_game(old(self)@.settings, seed)
            }),
    {
        self.cell_holder.reset();
        self.piece_mgr = PieceMgr::new(&self.game_settings, seed, &self.cell_holder);
        self.gravity_mgr.reset();
        self.rng = RngManager::new(seed);
        self.seed = seed;
        self.last_garbage_x = -1;
        self.incoming_damage = Vec::new();
    }

    /// Forgets the column of the last garbage: the next garbage draws a
    /// column of its own.
    pub fn reroll_garbage_column(&mut self)
        requires
            old(self).wf(),
        ensures
            final(self).wf(),
            final(self)@ == (BoardState { last_garbage_x: -1, ..old(self)@ }),
    {
        self.last_garbage_x = -1;
    }

    pub fn get_cell_holder(&self) -> (holder: &CellHolder)
        requires
            self.wf(),
        ensures
            holder.wf(),
            holder@ == self@.grid,
    {
        &self.cell_holder
    }

    pub fn get_piece_mgr(&self) -> (mgr: &PieceMgr)
        requires
            self.wf(),
        ensures
            mgr.wf(),
            mgr@ == self@.pieces,
    {
        &self.piece_mgr
    }

    pub fn get_gravity_mgr(&self) -> (mgr: &GravityMgr)
        requires
            self.wf(),
        ensures
            mgr.wf(),
            mgr@ == self@.gravity,
    {
        &self.gravity_mgr
    }

    pub fn get_seed(&self) -> (seed: u64)
        ensures
            seed == self@.seed,
    {
        self.seed
    }

    /// The column of the hole of the garbage that came in last, -1 where
    /// the next garbage draws its own.
    pub fn get_last_garbage_x(&self) -> (x: i32)
        ensures
            x == self@.last_garbage_x,
    {
        self.last_garbage_x
    }

    /// The row the active piece would come to rest in.
    pub fn find_nearest_y(&self) -> (y: u32)
        requires
            self.wf(),
        ensures
            y == self@.pieces.piece.y + crate::piece_mgr::drop_distance(
                self@.grid,
                self@.pieces.piece,
            ),
    {
        self.get_piece_mgr().find_nearest_y(&self.cell_holder)
    }

    /// Where the board stands in the life of its pieces.
    pub fn game_state(&self) -> (state: GameState)
        ensures
            state == self@.game_state(),
    {
        if self.piece_mgr.is_dead() {
            GameState::NoPiece
        } else if self.gravity_mgr.get_state().locking {
            GameState::Locking
        } else {
            GameState::Falling
        }
    }

    /// Carries out a command and files its notices.
    ///
    /// Each command does what the method of its name does. The result is
    /// the report of the lock where the command locked a piece, nothing
    /// where it did something else, and the error where it failed. No
    /// command fails to place a piece: the active piece never collides.
    pub fn exec_cmd(&mut self, cmd: &BoardCommand) -> (res: Result<
        Option<MoveResult>,
        UpdateErrorReason,
    >)
        requires
            old(self).wf(),
        ensures
            final(self).wf(),
            final(self)@ == old(self)@.after_cmd(*cmd),
            old(self)@.is_cmd_result(*cmd, res),
            res matches Err(e) ==> e != UpdateErrorReason::OutOfBounds && e
                != UpdateErrorReason::CellOccupied,
    {
        let before = self.snapshot();
        let (res, took) = self.dispatch(cmd);
        self.file_notices(cmd, took, &before, Ghost(old(self)@));
        res
    }

    /// What the notices of a command compare the board with afterwards.
    fn snapshot(&self) -> (shot: Snapshot)
        requires
            self.wf(),
        ensures
            shot.matches_board(self@),
    {
        Snapshot {
            piece_type: self.piece_mgr.get_piece().get_type(),
            rotation: self.piece_mgr.get_piece().get_rotation(),
            x: self.piece_mgr.get_piece().get_x(),
            y: self.piece_mgr.get_piece().get_y(),
            state: self.game_state(),
        }
    }

    /// Carries out a command, and says whether a piece was taken from the
    /// queue.
    fn dispatch(&mut self, cmd: &BoardCommand) -> (out: (
        Result<Option<MoveResult>, UpdateErrorReason>,
        bool,
    ))
        requires
            old(self).wf(),
        ensures
            final(self).wf(),
            final(self)@ == old(self)@.executed(*cmd),
            old(self)@.is_cmd_result(*cmd, out.0),
            out.1 == old(self)@.took(final(self)@),
            out.0 matches Err(e) ==> e != UpdateErrorReason::OutOfBounds && e
                != UpdateErrorReason::CellOccupied,
    {
        match cmd {
            BoardCommand::Move(dir, delta) => {
                match dir {
                    BoardMoveDir::Left => self.move_left(*delta),
                    BoardMoveDir::Right => self.move_right(*delta),
                }
                (Ok(None), false)
            },
            BoardCommand::Rotate(dir) => {
                match self.rotate_own(dir) {
                    Ok(()) => (Ok(None), false),
                    Err(e) => (Err(e), false),
                }
            },
            BoardCommand::HardDrop => self.dispatch_hard_drop(),
            BoardCommand::SoftDrop(delta) => {
                self.soft_drop(*delta);
                (Ok(None), false)
            },
            BoardCommand::SendGarbage(amount, messiness) => {
                match self.send_garbage(*amount, *messiness) {
                    Ok(()) => (Ok(None), false),
                    Err(e) => (Err(e), false),
                }
            },
            BoardCommand::Update(dt) => self.dispatch_update(*dt),
            BoardCommand::HoldPiece => self.dispatch_hold(),
            BoardCommand::RequestBoardLayout => (Ok(None), false),
        }
    }

    fn dispatch_hard_drop(&mut self) -> (out: (
        Result<Option<MoveResult>, UpdateErrorReason>,
        bool,
    ))
        requires
            old(self).wf(),
        ensures
            final(self).wf(),
            final(self)@ == old(self)@.executed(BoardCommand::HardDrop),
            old(self)@.is_cmd_result(BoardCommand::HardDrop, out.0),
            out.1 == old(self)@.took(final(self)@),
            out.0 matches Err(e) ==> e == UpdateErrorReason::BoardDead,
    {
        let was_dead = self.piece_mgr.is_dead();
        match self.hard_drop() {
            Ok(r) => (Ok(Some(r)), true),
            Err(e) => (Err(e), !was_dead && e == UpdateErrorReason::BoardDead),
        }
    }

    fn dispatch_update(&mut self, dt: u32) -> (out: (
        Result<Option<MoveResult>, UpdateErrorReason>,
        bool,
    ))
        requires
            old(self).wf(),
        ensures
            final(self).wf(),
            final(self)@ == old(self)@.executed(BoardCommand::Update(dt)),
            old(self)@.is_cmd_result(BoardCommand::Update(dt), out.0),
            out.1 == old(self)@.took(final(self)@),
            out.0 matches Err(e) ==> e == UpdateErrorReason::BoardDead,
    {
        match self.update(dt) {
            None => (Ok(None), false),
            Some(Ok(r)) => (Ok(Some(r)), true),
            Some(Err(e)) => (Err(e), e == UpdateErrorReason::BoardDead),
        }
    }

    fn dispatch_hold(&mut self) -> (out: (Result<Option<MoveResult>, UpdateErrorReason>, bool))
        requires
            old(self).wf(),
        ensures
            final(self).wf(),
            final(self)@ == old(self)@.executed(BoardCommand::HoldPiece),
            old(self)@.is_cmd_result(BoardCommand::HoldPiece, out.0),
            out.1 == old(self)@.took(final(self)@),
    {
        let was_dead = self.piece_mgr.is_dead();
        let had_hold = self.piece_mgr.get_hold_piece().is_some();
        match self.hold_piece() {
            Ok(()) => (Ok(None), !had_hold),
            Err(e) => (Err(e), !had_hold && !was_dead && e == UpdateErrorReason::BoardDead),
        }
    }

    /// Files the notices of a command that led from the board `b`, of
    /// which `before` was taken, to this one.
    fn file_notices(
        &mut self,
        cmd: &BoardCommand,
        took: bool,
        before: &Snapshot,
        Ghost(b): Ghost<BoardState>,
    )
        requires
            old(self).wf(),
            before.matches_board(b),
            took == b.took(old(self)@),
            *cmd is SendGarbage ==> old(self)@.last_garbage_x >= 0,
        ensures
            final(self).wf(),
            final(self)@ == (BoardState {
                messages: old(self)@.messages + b.notices(*cmd, old(self)@),
                ..old(self)@
            }),
    {
        let mut first = self.grid_notices(cmd, took, Ghost(b));
        let mut second = self.queue_notices(took, Ghost(b));
        let mut third = self.change_notices(before, Ghost(b));
        let ghost filed = first@ + second@ + third@;
        assert(filed =~= b.notices(*cmd, self@));
        self.messages.append(&mut first);
        self.messages.append(&mut second);
        self.messages.append(&mut third);
        assert(self.messages@ =~= old(self).messages@ + filed);
    }

    /// The notices of garbage and of the grid.
    fn grid_notices(&self, cmd: &BoardCommand, took: bool, Ghost(b): Ghost<BoardState>) -> (out:
        Vec<BoardMessage>)
        requires
            took == b.took(self@),
            *cmd is SendGarbage ==> 0 <= self@.last_garbage_x,
        ensures
            out@ == b.garbage_notice(*cmd, self@) + b.grid_notice(*cmd, self@),
    {
        let mut out: Vec<BoardMessage> = Vec::new();
        let mut written = match cmd {
            BoardCommand::HoldPiece => false,
            BoardCommand::RequestBoardLayout => true,
            _ => took,
        };
        match cmd {
            BoardCommand::SendGarbage(amount, _) => {
                if *amount > 0 {
                    out.push(BoardMessage::GarbageReceived(*amount, self.last_garbage_x as u32));
                    written = true;
                }
            },
            _ => {},
        }
        if written {
            out.push(BoardMessage::BoardUpdated);
        }
        assert(out@ =~= b.garbage_notice(*cmd, self@) + b.grid_notice(*cmd, self@));
        out
    }

    /// The notice of the piece that entered the queue.
    fn queue_notices(&self, took: bool, Ghost(b): Ghost<BoardState>) -> (out: Vec<BoardMessage>)
        requires
            self.piece_mgr.wf(),
            took == b.took(self@),
        ensures
            out@ == b.queue_notice(self@),
    {
        let mut out: Vec<BoardMessage> = Vec::new();
        if took {
            proof {
                self.piece_mgr.lemma_queue_contents();
            }
            let queue = self.piece_mgr.get_queue();
            if queue.len() > 0 {
                out.push(BoardMessage::NewPieceInQueue(queue[queue.len() - 1]));
            }
        }
        assert(out@ =~= b.queue_notice(self@));
        out
    }

    /// The notices of what has changed since `before` was taken.
    fn change_notices(&self, before: &Snapshot, Ghost(b): Ghost<BoardState>) -> (out: Vec<
        BoardMessage,
    >)
        requires
            self.piece_mgr.wf(),
            before.matches_board(b),
        ensures
            out@ == b.piece_notice(self@) + b.state_notice(self@),
    {
        let mut out: Vec<BoardMessage> = Vec::new();
        let piece = self.piece_mgr.get_piece();
        if piece.get_type() != before.piece_type || piece.get_rotation() != before.rotation
            || piece.get_x() != before.x || piece.get_y() != before.y {
            out.push(BoardMessage::PieceUpdated);
        }
        let state_after = self.game_state();
        if state_after != before.state {
            out.push(BoardMessage::GameStateChanged(state_after));
        }
        assert(out@ =~= b.piece_notice(self@) + b.state_notice(self@));
        out
    }

    /// Turns the active piece with the board's own kick tables.
    fn rotate_own(&mut self, direction: &RotationDirection) -> (res: Result<(), UpdateErrorReason>)
        requires
            old(self).wf(),
        ensures
            final(self).wf(),
            final(self)@ == old(self)@.rotated(old(self)@.settings.wall_kick_data_mode, *direction),
            res == old(self)@.rotate_result(
                old(self)@.settings.wall_kick_data_mode,
                *direction,
            ),
    {
        proof {
            lemma_rotated_keeps_wf(self@, self.wkd.spec_mode(), *direction);
        }
        match self.piece_mgr.rotate(&self.cell_holder, &self.wkd, *direction) {
            Ok(()) => {
                self.gravity_mgr.prolong_lock();
                Ok(())
            },
            Err(e) => Err(e),
        }
    }

    /// Hands out the notices gathered so far, oldest first, and keeps
    /// none.
    pub fn drain_messages(&mut self) -> (messages: Vec<BoardMessage>)
        requires
            old(self).wf(),
        ensures
            final(self).wf(),
            messages@ == old(self)@.messages,
            final(self)@ == (BoardState { messages: Seq::empty(), ..old(self)@ }),
    {
        let mut messages: Vec<BoardMessage> = Vec::new();
        std::mem::swap(&mut messages, &mut self.messages);
        messages
    }
}

impl BoardStateful for Board {
    open spec fn stateful_wf(&self) -> bool {
        self.wf()
    }

    open spec fn enabled(&self) -> bool {
        self@.enabled
    }

    /// Starts the game over under the same seed: an empty grid, the pieces
    /// and the garbage columns from the start of their sequences, no time
    /// played. The notices that were not taken stay.
    fn reset(&mut self)
        ensures
            final(self)@ == (BoardState {
                enabled: old(self)@.enabled,
                messages: old(self)@.messages,
                ..BoardState::new_game(old(self)@.settings, old(self)@.seed)
            }),
    {
        self.cell_holder.reset();
        self.piece_mgr.reset(&self.cell_holder);
        self.gravity_mgr.reset();
        self.rng.reset();
        self.last_garbage_x = -1;
        self.incoming_damage = Vec::new();
    }

    fn enable(&mut self)
        ensures
            final(self)@ == (BoardState { enabled: true, ..old(self)@ }),
    {
        if self.is_enabled {
            return ;
        }
        self.is_enabled = true;
    }

    fn disable(&mut self)
        ensures
            final(self)@ == (BoardState { enabled: false, ..old(self)@ }),
    {
        if !self.is_enabled {
            return ;
        }
        self.is_enabled = false;
    }

    fn is_enabled(&self) -> (b: bool) {
        self.is_enabled
    }
}

} // verus!
