//! A match of two boards: each lock on one board sends its attack to the
//! other as garbage.

use vstd::prelude::*;
use crate::board::{Board, BoardState};
use crate::board_command::BoardCommand;
use crate::game_settings::GameSettings;
use crate::piece_mgr::{
    lock_error, locked, locked_lines, PieceMgrState, UpdateErrorReason,
};
use crate::replays::{attack_of, next_b2b, MoveResult};

verus! {

/// The garbage that the lock of the active piece of `s` on the board `b`
/// sends out: none where the piece does not lock or the lock ends the game.
pub open spec fn lock_attack(b: BoardState, s: PieceMgrState) -> u32 {
    if lock_error(s, b.grid) is None && !locked(s, b.grid).dead {
        let lines = locked_lines(b.grid, s.piece);
        attack_of(s.attack, lines, next_b2b(s.b2b, lines))
    } else {
        0
    }
}

/// The garbage that an update of `dt` milliseconds makes the board send.
pub open spec fn update_attack(b: BoardState, dt: u32) -> u32 {
    if b.update_locks(dt) {
        lock_attack(
            b.after_gravity(dt),
            PieceMgrState { lock_pending: false, ..b.after_gravity(dt).pieces },
        )
    } else {
        0
    }
}

/// The board after an attack of `damage` rows reached it: the command to
/// take in that much garbage was carried out, unless there was no damage.
pub open spec fn attacked(b: BoardState, damage: u32) -> BoardState {
    if damage > 0 {
        b.after_cmd(BoardCommand::SendGarbage(damage, 0))
    } else {
        b
    }
}

/// The garbage that the outcome of a command sends to the opponent.
pub open spec fn out_damage_of(res: Result<Option<MoveResult>, UpdateErrorReason>) -> u32 {
    match res {
        Ok(Some(r)) => r.attack.out_damage,
        _ => 0,
    }
}

/// The command that carries the attack of an outcome to the opponent, if
/// the outcome attacks.
pub fn attack_command(res: &Result<Option<MoveResult>, UpdateErrorReason>) -> (cmd: Option<
    BoardCommand,
>)
    ensures
        cmd == if out_damage_of(*res) > 0 {
            Some(BoardCommand::SendGarbage(out_damage_of(*res), 0))
        } else {
            None
        },
{
    match res {
        Ok(Some(r)) => {
            if r.attack.out_damage > 0 {
                Some(BoardCommand::SendGarbage(r.attack.out_damage, 0))
            } else {
                None
            }
        },
        _ => None,
    }
}

/// The two boards of a match.
pub struct BoardManager {
    pub player_board: Board,
    pub bot_board: Board,
    pub game_settings: GameSettings,
}

impl BoardManager {
    pub open spec fn wf(&self) -> bool {
        self.player_board.wf() && self.bot_board.wf()
    }

    /// Two boards for a new match. Both play the same pieces.
    pub fn new(game_settings: GameSettings, seed: u64) -> (mgr: BoardManager)
        requires
            game_settings.wf(),
        ensures
            mgr.wf(),
            mgr.player_board@ == BoardState::new_game(game_settings, seed),
            mgr.bot_board@ == BoardState::new_game(game_settings, seed),
            mgr.game_settings == game_settings,
    {
        BoardManager {
            player_board: Board::new(game_settings, seed),
            bot_board: Board::new(game_settings, seed),
            game_settings,
        }
    }

    /// Sends the attack of an outcome to a board.
    pub fn relay(target: &mut Board, res: &Result<Option<MoveResult>, UpdateErrorReason>)
        requires
            old(target).wf(),
        ensures
            final(target).wf(),
            final(target)@ == attacked(old(target)@, out_damage_of(*res)),
    {
        match attack_command(res) {
            Some(cmd) => {
                let _ = target.exec_cmd(&cmd);
            },
            None => {},
        }
    }

    /// Lets `dt` milliseconds pass on both boards: the player's board is
    /// updated and its attack reaches the bot's board, then the bot's board
    /// is updated and its attack reaches the player's board. Hands back the
    /// outcome of either update.
    pub fn update(&mut self, dt: u32) -> (res: (
        Result<Option<MoveResult>, UpdateErrorReason>,
        Result<Option<MoveResult>, UpdateErrorReason>,
    ))
        requires
            old(self).wf(),
        ensures
            final(self).wf(),
            final(self).game_settings == old(self).game_settings,
            old(self).player_board@.is_cmd_result(BoardCommand::Update(dt), res.0),
            attacked(old(self).bot_board@, out_damage_of(res.0)).is_cmd_result(
                BoardCommand::Update(dt),
                res.1,
            ),
            final(self).bot_board@ == attacked(
                old(self).bot_board@,
                out_damage_of(res.0),
            ).after_cmd(BoardCommand::Update(dt)),
            final(self).player_board@ == attacked(
                old(self).player_board@.after_cmd(BoardCommand::Update(dt)),
                out_damage_of(res.1),
            ),
    {
        let cmd = BoardCommand::Update(dt);
        let player = self.player_board.exec_cmd(&cmd);
        Self::relay(&mut self.bot_board, &player);
        let bot = self.bot_board.exec_cmd(&cmd);
        Self::relay(&mut self.player_board, &bot);
        (player, bot)
    }
}

/// What the outcome of an update sends out is the attack of the lock that
/// the update made, a function of the board before it.
pub proof fn lemma_update_attack(
    b: BoardState,
    dt: u32,
    res: Result<Option<MoveResult>, UpdateErrorReason>,
)
    requires
        b.is_cmd_result(BoardCommand::Update(dt), res),
    ensures
        out_damage_of(res) == update_attack(b, dt),
{
}

} // verus!
