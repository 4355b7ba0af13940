//! Gravity and lock delay: how the active piece falls as time passes, and
//! how long it may rest before it locks.
//!
//! Time is counted in milliseconds. Descent is counted in millionths of a
//! cell, so that every rate and every fraction of a cell is a whole number.

use vstd::prelude::*;
use crate::cell_holder::{CellHolder, Grid};
use crate::game_settings::GravitySettings;
use crate::piece_mgr::{piece_colliding, slide, PieceMgr, PieceMgrState};
use crate::replays::capped;

verus! {

/// One cell of descent, in the unit that progress is counted in.
pub const CELL: u64 = 1_000_000;

/// The state of gravity and of the lock delay.
#[derive(Clone, Copy, Debug, PartialEq, Eq, Structural)]
pub struct GravityState {
    pub settings: GravitySettings,
    /// The descent gathered towards the next cell; less than `CELL`.
    pub progress: u64,
    /// The time played, which the rate grows with.
    pub elapsed: u64,
    /// Whether the active piece rests and the lock delay runs.
    pub locking: bool,
    /// The time left before the resting piece locks.
    pub lock_timer: u32,
    /// How often the lock delay of the active piece was started anew.
    pub lock_resets: u32,
}

/// The smaller of `n` and the largest `u64`.
pub open spec fn capped_u64(n: int) -> u64 {
    if n > u64::MAX {
        u64::MAX
    } else {
        n as u64
    }
}

/// The rate after `elapsed` milliseconds of play: the base rate and the
/// increase for every full second.
pub open spec fn rate_at(settings: GravitySettings, elapsed: u64) -> u32 {
    capped(settings.base_rate + settings.rate_increase * (elapsed / 1000))
}

/// The descent that is due after `dt` more milliseconds, what was gathered
/// before included.
pub open spec fn due(s: GravityState, dt: u32) -> int {
    s.progress + dt * rate_at(s.settings, s.elapsed)
}

/// How many whole cells of descent are due after `dt` more milliseconds, as
/// far as a `u32` counts.
pub open spec fn due_steps(s: GravityState, dt: u32) -> u32 {
    capped(due(s, dt) / (CELL as int))
}

/// Gravity at the start of a piece's life.
pub open spec fn restarted(s: GravityState) -> GravityState {
    GravityState {
        progress: 0,
        locking: false,
        lock_timer: s.settings.lock_delay,
        lock_resets: 0,
        ..s
    }
}

/// Gravity at the start of a game.
pub open spec fn initial_gravity(settings: GravitySettings) -> GravityState {
    GravityState {
        settings,
        progress: 0,
        elapsed: 0,
        locking: false,
        lock_timer: settings.lock_delay,
        lock_resets: 0,
    }
}

/// The time a resting piece has left after `dt` more milliseconds. The
/// delay starts to run when the piece is first found resting.
pub open spec fn timer_after(s: GravityState, dt: u32) -> int {
    let before = if s.locking {
        s.lock_timer
    } else {
        s.settings.lock_delay
    };
    if before > dt {
        before - dt
    } else {
        0
    }
}

/// Gravity after `dt` milliseconds in which the piece rested: no descent is
/// gathered, and the lock delay has run down by `dt`. Where it ran out, the
/// piece is due to lock and gravity starts over.
pub open spec fn rested(s: GravityState, dt: u32) -> GravityState {
    let elapsed = capped_u64(s.elapsed + dt);
    if timer_after(s, dt) == 0 {
        GravityState { elapsed, ..restarted(s) }
    } else {
        GravityState {
            progress: 0,
            elapsed,
            locking: true,
            lock_timer: timer_after(s, dt) as u32,
            ..s
        }
    }
}

/// Gravity after `dt` milliseconds in which the piece fell `moved` cells
/// and came to rest or not: what the whole cells left over is kept unless
/// the piece was blocked before it had fallen all that was due, and the
/// lock delay starts, in full, where the piece came to rest.
pub open spec fn fallen(s: GravityState, dt: u32, moved: int, landed: bool) -> GravityState {
    GravityState {
        progress: if moved < due_steps(s, dt) {
            0
        } else {
            (due(s, dt) % (CELL as int)) as u64
        },
        elapsed: capped_u64(s.elapsed + dt),
        locking: landed,
        lock_timer: if landed {
            s.settings.lock_delay
        } else {
            s.lock_timer
        },
        ..s
    }
}

/// Gravity after the lock delay was asked to start anew: it does, if the
/// piece rests and has starts left.
pub open spec fn prolonged(s: GravityState) -> GravityState {
    if s.locking && s.lock_resets < s.settings.max_lock_resets {
        GravityState {
            lock_timer: s.settings.lock_delay,
            lock_resets: (s.lock_resets + 1) as u32,
            ..s
        }
    } else {
        s
    }
}

/// The lock delay of one piece starts anew at most as often as the settings
/// allow: every start is counted, and no start exceeds the limit.
pub proof fn lemma_prolong_bounded(s: GravityState)
    requires
        s.lock_resets <= s.settings.max_lock_resets,
    ensures
        prolonged(s).lock_resets <= s.settings.max_lock_resets,
        prolonged(s) != s ==> prolonged(s).lock_resets == s.lock_resets + 1,
        s.lock_resets == s.settings.max_lock_resets ==> prolonged(s) == s,
{
}

/// The gravity manager.
#[derive(Debug)]
pub struct GravityMgr {
    state: GravityState,
}

impl View for GravityMgr {
    type V = GravityState;

    closed spec fn view(&self) -> GravityState {
        self.state
    }
}

impl GravityMgr {
    /// The invariant: less than a cell of descent is gathered.
    pub open spec fn wf(&self) -> bool {
        self@.progress < CELL
    }

    /// Gravity at the start of a game.
    pub fn new(settings: &GravitySettings) -> (mgr: GravityMgr)
        ensures
            mgr.wf(),
            mgr@ == initial_gravity(*settings),
    {
        GravityMgr {
            state: GravityState {
                settings: *settings,
                progress: 0,
                elapsed: 0,
                locking: false,
                lock_timer: settings.lock_delay,
                lock_resets: 0,
            },
        }
    }

    /// The state as a plain value.
    pub fn get_state(&self) -> (s: GravityState)
        ensures
            s == self@,
    {
        self.state
    }

    /// Starts the game over: no time was played.
    pub fn reset(&mut self)
        ensures
            final(self).wf(),
            final(self)@ == initial_gravity(old(self)@.settings),
    {
        self.state = GravityState {
            settings: self.state.settings,
            progress: 0,
            elapsed: 0,
            locking: false,
            lock_timer: self.state.settings.lock_delay,
            lock_resets: 0,
        };
    }

    /// Starts over for a piece that has just spawned.
    pub fn restart(&mut self)
        ensures
            final(self).wf(),
            final(self)@ == restarted(old(self)@),
    {
        self.state.progress = 0;
        self.state.locking = false;
        self.state.lock_timer = self.state.settings.lock_delay;
        self.state.lock_resets = 0;
    }

    /// Starts the lock delay of a resting piece anew, unless that was done
    /// as often as the settings allow.
    pub fn prolong_lock(&mut self)
        requires
            old(self).wf(),
        ensures
            final(self).wf(),
            final(self)@ == prolonged(old(self)@),
    {
        if self.state.locking && self.state.lock_resets < self.state.settings.max_lock_resets {
            self.state.lock_timer = self.state.settings.lock_delay;
            self.state.lock_resets += 1;
        }
    }

    /// The rate for the time played.
    fn current_rate(&self) -> (rate: u32)
        ensures
            rate == rate_at(self@.settings, self@.elapsed),
    {
        let seconds: u128 = (self.state.elapsed / 1000) as u128;
        let increase: u128 = self.state.settings.rate_increase as u128;
        assert(increase * seconds <= 0xffff_ffff * 0xffff_ffff_ffff_ffff) by (nonlinear_arith)
            requires
                0 <= increase <= 0xffff_ffff,
                0 <= seconds <= 0xffff_ffff_ffff_ffff,
        ;
        let rate: u128 = self.state.settings.base_rate as u128 + increase * seconds;
        if rate > 0xffff_ffff {
            0xffff_ffff
        } else {
            rate as u32
        }
    }

    /// Lets `dt` milliseconds pass for the active piece.
    ///
    /// On a dead board nothing happens. A piece that rests gathers no
    /// descent; its lock delay runs down, and the piece is asked to lock
    /// when it has run out. A piece that does not rest falls by the whole
    /// cells of descent that are due, as far as it can, and its lock delay
    /// starts where it comes to rest.
    pub fn update(&mut self, dt: u32, piece_mgr: &mut PieceMgr, holder: &CellHolder)
        requires
            old(self).wf(),
            old(piece_mgr).wf(),
            holder.wf(),
        ensures
            final(self).wf(),
            final(piece_mgr).wf(),
            final(self)@ == gravity_after(old(self)@, old(piece_mgr)@, holder@, dt),
            final(piece_mgr)@ == pieces_after_gravity(old(self)@, old(piece_mgr)@, holder@, dt),
    {
        if piece_mgr.is_dead() {
            return ;
        }
        let elapsed = self.state.elapsed.saturating_add(dt as u64);
        if piece_mgr.is_grounded(holder) {
            let before = if self.state.locking {
                self.state.lock_timer
            } else {
                self.state.settings.lock_delay
            };
            let left = if before > dt {
                before - dt
            } else {
                0
            };
            self.state.progress = 0;
            self.state.elapsed = elapsed;
            if left == 0 {
                piece_mgr.request_lock();
                self.state.locking = false;
                self.state.lock_timer = self.state.settings.lock_delay;
                self.state.lock_resets = 0;
            } else {
                self.state.locking = true;
                self.state.lock_timer = left;
            }
        } else {
            let rate = self.current_rate();
            assert(dt * rate <= 0xffff_ffff * 0xffff_ffff) by (nonlinear_arith)
                requires
                    0 <= dt <= 0xffff_ffff,
                    0 <= rate <= 0xffff_ffff,
            ;
            let total: u64 = self.state.progress + dt as u64 * rate as u64;
            let whole: u64 = total / CELL;
            let steps: u32 = if whole > 0xffff_ffff {
                0xffff_ffff
            } else {
                whole as u32
            };
            let moved = piece_mgr.soft_drop(holder, steps);
            let landed = piece_mgr.is_grounded(holder);
            self.state.progress = if moved < steps {
                0
            } else {
                total % CELL
            };
            self.state.elapsed = elapsed;
            self.state.locking = landed;
            if landed {
                self.state.lock_timer = self.state.settings.lock_delay;
            }
        }
    }
}

/// Gravity after `dt` milliseconds with the piece manager `pm` on the grid
/// `g`.
pub open spec fn gravity_after(s: GravityState, pm: PieceMgrState, g: Grid, dt: u32) -> GravityState {
    if pm.dead {
        s
    } else if piece_colliding(g, pm.piece.shift(0, 1)) {
        rested(s, dt)
    } else {
        let moved = slide(g, pm.piece, 0, 1, due_steps(s, dt) as int);
        fallen(s, dt, moved, piece_colliding(g, pm.piece.shift(0, moved + 1)))
    }
}

/// The piece manager `pm` after gravity `s` acted on it for `dt`
/// milliseconds on the grid `g`: a resting piece is due to lock when its
/// delay has run out, another piece has fallen as far as was due and as it
/// could.
pub open spec fn pieces_after_gravity(
    s: GravityState,
    pm: PieceMgrState,
    g: Grid,
    dt: u32,
) -> PieceMgrState {
    if pm.dead {
        pm
    } else if piece_colliding(g, pm.piece.shift(0, 1)) {
        PieceMgrState { lock_pending: pm.lock_pending || timer_after(s, dt) == 0, ..pm }
    } else {
        PieceMgrState {
            piece: pm.piece.shift(0, slide(g, pm.piece, 0, 1, due_steps(s, dt) as int)),
            ..pm
        }
    }
}

} // verus!
