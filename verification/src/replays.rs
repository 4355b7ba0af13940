//! What a lock reports, and the rules by which it is scored.

use vstd::prelude::*;
use crate::game_settings::AttackSettings;

verus! {

/// The garbage a lock sends out and what came in before it.
#[derive(Debug)]
pub struct AttackInfo {
    /// How many rows of garbage the lock sends to the opponent.
    pub out_damage: u32,
    /// The amounts of garbage that the board received since the lock
    /// before, oldest first.
    pub in_damage_queue: Vec<u32>,
}

/// What a lock did.
#[derive(Debug)]
pub struct MoveResult {
    /// How many rows the lock cleared.
    pub lines_cleared: u32,
    /// The streak of four-row clears with no smaller clear in between,
    /// this lock counted.
    pub b2b: u32,
    /// The streak of locks that cleared a row, this lock counted.
    pub combo: u32,
    pub attack: AttackInfo,
}

/// The smaller of `n` and the largest `u32`.
pub open spec fn capped(n: int) -> u32 {
    if n > u32::MAX {
        u32::MAX
    } else {
        n as u32
    }
}

/// The combo after a lock that cleared `lines` rows: one more where it
/// cleared a row, none where it did not.
pub open spec fn next_combo(combo: u32, lines: int) -> u32 {
    if lines > 0 {
        capped(combo + 1)
    } else {
        0
    }
}

/// The back-to-back streak after a lock that cleared `lines` rows: one more
/// for four rows or more, none for a smaller clear, and as before where
/// nothing was cleared.
pub open spec fn next_b2b(b2b: u32, lines: int) -> u32 {
    if lines >= 4 {
        capped(b2b + 1)
    } else if lines > 0 {
        0
    } else {
        b2b
    }
}

/// The garbage a lock sends that cleared `lines` rows and left the
/// back-to-back streak at `b2b`: the amount for that many rows, and the
/// bonus where the streak has reached two.
pub open spec fn attack_of(attack: AttackSettings, lines: int, b2b: u32) -> u32 {
    let base = if lines <= 0 {
        0
    } else if lines == 1 {
        attack.lines_1
    } else if lines == 2 {
        attack.lines_2
    } else if lines == 3 {
        attack.lines_3
    } else {
        attack.lines_4
    };
    if lines >= 4 && b2b >= 2 {
        capped(base + attack.back_to_back)
    } else {
        base
    }
}

pub fn compute_combo(combo: u32, lines: usize) -> (next: u32)
    ensures
        next == next_combo(combo, lines as int),
{
    if lines > 0 {
        combo.saturating_add(1)
    } else {
        0
    }
}

pub fn compute_b2b(b2b: u32, lines: usize) -> (next: u32)
    ensures
        next == next_b2b(b2b, lines as int),
{
    if lines >= 4 {
        b2b.saturating_add(1)
    } else if lines > 0 {
        0
    } else {
        b2b
    }
}

pub fn compute_attack(attack: &AttackSettings, lines: usize, b2b: u32) -> (out: u32)
    ensures
        out == attack_of(*attack, lines as int, b2b),
{
    let base = if lines == 0 {
        0
    } else if lines == 1 {
        attack.lines_1
    } else if lines == 2 {
        attack.lines_2
    } else if lines == 3 {
        attack.lines_3
    } else {
        attack.lines_4
    };
    if lines >= 4 && b2b >= 2 {
        base.saturating_add(attack.back_to_back)
    } else {
        base
    }
}

} // verus!
