use quader_engine::board::{Board, BoardStateful, GameState};
use quader_engine::board_command::{BoardCommand, BoardMessage, BoardMoveDir};
use quader_engine::board_manager::{attack_command, BoardManager};
use quader_engine::cell_holder::CellType;
use quader_engine::game_settings::GameSettings;
use quader_engine::piece::{PieceType, RotationDirection, RotationState};
use quader_engine::piece_generators::PieceGeneratorBag7;
use quader_engine::piece_mgr::UpdateErrorReason;
use quader_engine::replays::{
    compute_attack, compute_b2b, compute_combo, AttackInfo, MoveResult,
};
use quader_engine::rng_manager::RngManager;
use quader_engine::wall_kick_data::WallKickData;

fn seed_starting_with(t: PieceType) -> u64 {
    (0..100_000u64).find(|seed| PieceGeneratorBag7::new(*seed).next() == t).unwrap()
}

fn sequence(seed: u64, count: usize) -> Vec<PieceType> {
    let mut g = PieceGeneratorBag7::new(seed);
    (0..count).map(|_| g.next()).collect()
}

fn board(seed: u64) -> Board {
    Board::new(GameSettings::default(), seed)
}

fn state(b: &Board) -> (PieceType, RotationState, u32, u32) {
    let p = b.get_piece_mgr().get_piece();
    (p.get_type(), p.get_rotation(), p.get_x(), p.get_y())
}

fn row(b: &Board, y: usize) -> Vec<CellType> {
    (0..10).map(|x| b.get_cell_holder().get_cell_at(x, y).unwrap()).collect()
}

fn garbage_row(hole: usize) -> Vec<CellType> {
    (0..10).map(|x| if x == hole { CellType::Empty } else { CellType::Garbage }).collect()
}

fn taken_cells(b: &Board) -> usize {
    b.get_cell_holder().to_bool_array().iter().map(|r| r.iter().filter(|c| **c).count()).sum()
}

fn report(lines: u32, b2b: u32, combo: u32, out: u32) -> MoveResult {
    MoveResult {
        lines_cleared: lines,
        b2b,
        combo,
        attack: AttackInfo { out_damage: out, in_damage_queue: Vec::new() },
    }
}

#[test]
fn new_board_is_empty_and_enabled() {
    let b = board(9);
    assert!(b.is_enabled());
    assert_eq!(b.get_seed(), 9);
    assert_eq!(b.get_last_garbage_x(), -1);
    assert_eq!(b.game_state(), GameState::Falling);
    assert_eq!(taken_cells(&b), 0);
    assert_eq!(b.get_cell_holder().get_width(), 10);
    assert_eq!(b.get_cell_holder().get_height(), 40);
    assert_eq!(b.get_piece_mgr().get_piece().get_type(), sequence(9, 1)[0]);
    assert_eq!(b.get_gravity_mgr().get_state().elapsed, 0);
}

#[test]
fn send_garbage_twice_keeps_the_hole_column_of_the_first_call() {
    let mut b = board(17);
    assert_eq!(b.send_garbage(4, 0), Ok(()));
    let hole = b.get_last_garbage_x();
    assert!((0..10).contains(&hole));
    for y in 36..40 {
        assert_eq!(row(&b, y), garbage_row(hole as usize));
    }
    assert_eq!(taken_cells(&b), 36);
    assert_eq!(b.send_garbage(4, 0), Ok(()));
    assert_eq!(b.get_last_garbage_x(), hole);
    for y in 32..40 {
        assert_eq!(row(&b, y), garbage_row(hole as usize));
    }
    assert_eq!(taken_cells(&b), 72);
}

#[test]
fn the_hole_column_is_the_first_draw_of_the_seed() {
    for seed in [0u64, 1, 2, 3, 1000] {
        let mut b = board(seed);
        assert_eq!(b.send_garbage(1, 0), Ok(()));
        let mut rng = RngManager::new(seed);
        let first = rng.gen_below(10);
        assert_eq!(b.get_last_garbage_x(), first as i32);
        b.reroll_garbage_column();
        assert_eq!(b.get_last_garbage_x(), -1);
        assert_eq!(b.send_garbage(1, 0), Ok(()));
        assert_eq!(b.get_last_garbage_x(), rng.gen_below(10) as i32);
        assert_eq!(row(&b, 38), garbage_row(first as usize));
    }
}

#[test]
fn hole_columns_vary_with_the_seed() {
    let mut seen = [false; 10];
    for seed in 0..200u64 {
        let mut b = board(seed);
        assert_eq!(b.send_garbage(1, 0), Ok(()));
        seen[b.get_last_garbage_x() as usize] = true;
    }
    assert_eq!(seen, [true; 10]);
}

#[test]
fn boards_with_one_seed_agree() {
    let commands = [
        BoardCommand::Move(BoardMoveDir::Left, 2),
        BoardCommand::Rotate(RotationDirection::Clockwise),
        BoardCommand::Update(700),
        BoardCommand::SendGarbage(3, 1),
        BoardCommand::HardDrop,
        BoardCommand::HoldPiece,
        BoardCommand::SoftDrop(4),
        BoardCommand::Update(16),
        BoardCommand::Move(BoardMoveDir::Right, 7),
        BoardCommand::HardDrop,
        BoardCommand::SendGarbage(2, 0),
        BoardCommand::RequestBoardLayout,
    ];
    let mut a = board(4242);
    let mut b = board(4242);
    for _ in 0..6 {
        for cmd in &commands {
            let ra = a.exec_cmd(cmd);
            let rb = b.exec_cmd(cmd);
            assert_eq!(ra.is_ok(), rb.is_ok());
            assert_eq!(ra.err(), rb.err());
            assert_eq!(state(&a), state(&b));
            assert_eq!(
                a.get_cell_holder().to_bool_array(),
                b.get_cell_holder().to_bool_array()
            );
            assert_eq!(a.get_last_garbage_x(), b.get_last_garbage_x());
        }
    }
    assert_eq!(a.drain_messages(), b.drain_messages());
    assert!(taken_cells(&a) > 0);
}

#[test]
fn garbage_that_rises_into_the_spawning_piece_kills_the_board() {
    let mut b = board(seed_starting_with(PieceType::T));
    assert_eq!(b.apply_garbage(38, 2), Ok(()));
    assert_eq!(b.game_state(), GameState::Falling);
    assert_eq!(state(&b), (PieceType::T, RotationState::Initial, 4, 1));
    assert_eq!(b.apply_garbage(1, 2), Err(UpdateErrorReason::BoardDead));
    assert_eq!(b.game_state(), GameState::NoPiece);
    assert!(b.get_piece_mgr().is_dead());
    assert_eq!(taken_cells(&b), 39 * 9);
    assert_eq!(b.hard_drop().err(), Some(UpdateErrorReason::BoardDead));
    assert_eq!(b.apply_garbage(0, 2), Err(UpdateErrorReason::BoardDead));
    assert_eq!(taken_cells(&b), 39 * 9);
    b.reset();
    assert_eq!(b.game_state(), GameState::Falling);
    assert_eq!(taken_cells(&b), 0);
    assert_eq!(b.get_last_garbage_x(), -1);
}

#[test]
fn garbage_that_fills_the_grid_kills_the_board() {
    let mut b = board(seed_starting_with(PieceType::I));
    assert_eq!(b.apply_garbage(39, 2), Ok(()));
    assert_eq!(state(&b), (PieceType::I, RotationState::Initial, 5, 1));
    let mut b = board(seed_starting_with(PieceType::I));
    assert_eq!(b.apply_garbage(41, 2), Err(UpdateErrorReason::BoardDead));
    assert_eq!(taken_cells(&b), 40 * 9);
}

#[test]
fn garbage_lifts_the_piece_that_rests_on_the_stack() {
    let mut b = board(seed_starting_with(PieceType::T));
    b.soft_drop(100);
    assert_eq!(state(&b), (PieceType::T, RotationState::Initial, 4, 39));
    b.drain_messages();
    assert!(matches!(b.exec_cmd(&BoardCommand::SendGarbage(2, 0)), Ok(None)));
    assert_eq!(state(&b), (PieceType::T, RotationState::Initial, 4, 37));
    let hole = b.get_last_garbage_x();
    assert_eq!(row(&b, 38), garbage_row(hole as usize));
    assert_eq!(row(&b, 39), garbage_row(hole as usize));
    assert_eq!(
        b.drain_messages(),
        vec![
            BoardMessage::GarbageReceived(2, hole as u32),
            BoardMessage::BoardUpdated,
            BoardMessage::PieceUpdated,
        ]
    );
    assert_eq!(b.find_nearest_y(), 37);
    let result = b.hard_drop().unwrap();
    assert_eq!(result.attack.in_damage_queue, vec![2]);
    assert_eq!(b.get_cell_holder().get_cell_at(4, 36), Some(CellType::T));
    assert_eq!(b.get_cell_holder().get_cell_at(3, 37), Some(CellType::T));
    assert_eq!(b.get_cell_holder().get_cell_at(4, 37), Some(CellType::T));
    assert_eq!(b.get_cell_holder().get_cell_at(5, 37), Some(CellType::T));
}

#[test]
fn garbage_leaves_a_piece_alone_that_it_does_not_reach() {
    let mut b = board(seed_starting_with(PieceType::T));
    b.soft_drop(10);
    assert_eq!(b.apply_garbage(5, 3), Ok(()));
    assert_eq!(state(&b), (PieceType::T, RotationState::Initial, 4, 11));
    assert_eq!(b.find_nearest_y(), 34);
}

#[test]
fn no_command_leaves_the_piece_colliding() {
    let commands = [
        BoardCommand::SoftDrop(100),
        BoardCommand::SendGarbage(3, 0),
        BoardCommand::Move(BoardMoveDir::Left, 20),
        BoardCommand::Rotate(RotationDirection::CounterClockwise),
        BoardCommand::SendGarbage(1, 0),
        BoardCommand::Update(450),
        BoardCommand::Move(BoardMoveDir::Right, 3),
        BoardCommand::HoldPiece,
        BoardCommand::Update(450),
        BoardCommand::Rotate(RotationDirection::Deg180),
        BoardCommand::HardDrop,
    ];
    let mut b = board(31);
    'game: for _ in 0..40 {
        for cmd in &commands {
            let result = b.exec_cmd(cmd);
            assert_ne!(result.as_ref().err(), Some(&UpdateErrorReason::OutOfBounds));
            assert_ne!(result.as_ref().err(), Some(&UpdateErrorReason::CellOccupied));
            if b.get_piece_mgr().is_dead() {
                break 'game;
            }
            let piece = b.get_piece_mgr().get_piece();
            assert!(!b.get_cell_holder().is_colliding(
                piece.get_current_pos(),
                piece.get_x() as i64,
                piece.get_y() as i64
            ));
        }
    }
    assert!(b.get_piece_mgr().is_dead());
}

#[test]
fn the_report_of_a_lock_lists_the_garbage_that_came_in() {
    let mut b = board(6);
    assert!(b.hard_drop().unwrap().attack.in_damage_queue.is_empty());
    assert_eq!(b.send_garbage(2, 0), Ok(()));
    assert_eq!(b.send_garbage(0, 0), Ok(()));
    assert_eq!(b.send_garbage(3, 0), Ok(()));
    let result = b.hard_drop().unwrap();
    assert_eq!(result.attack.in_damage_queue, vec![2, 3]);
    assert!(b.hard_drop().unwrap().attack.in_damage_queue.is_empty());
}

#[test]
fn a_four_row_clear_attacks_and_the_next_one_adds_the_bonus() {
    let mut b = board(seed_starting_with(PieceType::I));
    let wkd = WallKickData::default();
    assert_eq!(b.apply_garbage(8, 9), Ok(()));
    let mut streak = 0;
    let mut attacks = Vec::new();
    while streak < 2 {
        if b.get_piece_mgr().get_piece().get_type() == PieceType::I {
            b.soft_drop(5);
            assert_eq!(b.rotate(&wkd, &RotationDirection::Clockwise), Ok(()));
            b.move_right(20);
            let result = b.hard_drop().unwrap();
            assert_eq!(result.lines_cleared, 4);
            streak += 1;
            assert_eq!(result.b2b, streak);
            attacks.push(result.attack.out_damage);
        } else {
            b.move_left(20);
            let result = b.hard_drop().unwrap();
            assert_eq!(result.lines_cleared, 0);
            assert_eq!(result.attack.out_damage, 0);
            assert_eq!(result.combo, 0);
        }
    }
    assert_eq!(attacks, vec![4, 5]);
}

#[test]
fn scoring_rules() {
    let attack = *GameSettings::default().get_attack();
    assert_eq!(compute_combo(0, 0), 0);
    assert_eq!(compute_combo(3, 0), 0);
    assert_eq!(compute_combo(3, 1), 4);
    assert_eq!(compute_combo(u32::MAX, 2), u32::MAX);
    assert_eq!(compute_b2b(2, 0), 2);
    assert_eq!(compute_b2b(2, 1), 0);
    assert_eq!(compute_b2b(2, 3), 0);
    assert_eq!(compute_b2b(2, 4), 3);
    assert_eq!(compute_b2b(u32::MAX, 5), u32::MAX);
    assert_eq!(compute_attack(&attack, 0, 5), 0);
    assert_eq!(compute_attack(&attack, 1, 5), 0);
    assert_eq!(compute_attack(&attack, 2, 5), 1);
    assert_eq!(compute_attack(&attack, 3, 5), 2);
    assert_eq!(compute_attack(&attack, 4, 0), 4);
    assert_eq!(compute_attack(&attack, 4, 1), 4);
    assert_eq!(compute_attack(&attack, 4, 2), 5);
    assert_eq!(compute_attack(&attack, 9, 7), 5);
    let mut greedy = attack;
    greedy.lines_4 = u32::MAX;
    assert_eq!(compute_attack(&greedy, 4, 2), u32::MAX);
}

#[test]
fn commands_do_what_the_methods_do() {
    let seed = seed_starting_with(PieceType::T);
    let mut b = board(seed);
    assert!(matches!(b.exec_cmd(&BoardCommand::Move(BoardMoveDir::Left, 2)), Ok(None)));
    assert_eq!(state(&b), (PieceType::T, RotationState::Initial, 2, 1));
    assert!(matches!(b.exec_cmd(&BoardCommand::Move(BoardMoveDir::Right, 20)), Ok(None)));
    assert_eq!(state(&b), (PieceType::T, RotationState::Initial, 8, 1));
    assert!(matches!(b.exec_cmd(&BoardCommand::SoftDrop(3)), Ok(None)));
    assert_eq!(state(&b), (PieceType::T, RotationState::Initial, 8, 4));
    assert!(matches!(b.exec_cmd(&BoardCommand::Rotate(RotationDirection::Clockwise)), Ok(None)));
    assert_eq!(state(&b), (PieceType::T, RotationState::Clockwise, 8, 4));
    assert!(matches!(b.exec_cmd(&BoardCommand::Update(1000)), Ok(None)));
    assert_eq!(state(&b), (PieceType::T, RotationState::Clockwise, 8, 5));
    assert!(matches!(b.exec_cmd(&BoardCommand::RequestBoardLayout), Ok(None)));
    assert_eq!(b.find_nearest_y(), 38);
    match b.exec_cmd(&BoardCommand::HardDrop) {
        Ok(Some(r)) => {
            assert_eq!(r.lines_cleared, 0);
            assert_eq!(r.attack.out_damage, 0);
        },
        _ => panic!("the piece was to lock"),
    }
    assert_eq!(b.get_cell_holder().get_cell_at(8, 37), Some(CellType::T));
    assert_eq!(b.get_cell_holder().get_cell_at(8, 38), Some(CellType::T));
    assert_eq!(b.get_cell_holder().get_cell_at(8, 39), Some(CellType::T));
    assert_eq!(b.get_cell_holder().get_cell_at(9, 38), Some(CellType::T));
    assert_eq!(taken_cells(&b), 4);
    assert!(matches!(b.exec_cmd(&BoardCommand::HoldPiece), Ok(None)));
    assert_eq!(b.get_piece_mgr().get_hold_piece(), Some(sequence(seed, 2)[1]));
    assert_eq!(
        b.exec_cmd(&BoardCommand::HoldPiece).err(),
        Some(UpdateErrorReason::HoldUnavailable)
    );
    assert!(matches!(b.exec_cmd(&BoardCommand::SendGarbage(2, 0)), Ok(None)));
    assert_eq!(taken_cells(&b), 22);
}

#[test]
fn commands_file_their_notices() {
    let seed = seed_starting_with(PieceType::T);
    let pieces = sequence(seed, 8);
    let mut b = board(seed);
    assert!(b.drain_messages().is_empty());
    let _ = b.exec_cmd(&BoardCommand::Move(BoardMoveDir::Left, 1));
    assert_eq!(b.drain_messages(), vec![BoardMessage::PieceUpdated]);
    let _ = b.exec_cmd(&BoardCommand::Move(BoardMoveDir::Left, 0));
    assert!(b.drain_messages().is_empty());
    let _ = b.exec_cmd(&BoardCommand::RequestBoardLayout);
    assert_eq!(b.drain_messages(), vec![BoardMessage::BoardUpdated]);
    let _ = b.exec_cmd(&BoardCommand::SendGarbage(2, 0));
    let hole = b.get_last_garbage_x() as u32;
    assert_eq!(
        b.drain_messages(),
        vec![BoardMessage::GarbageReceived(2, hole), BoardMessage::BoardUpdated]
    );
    let _ = b.exec_cmd(&BoardCommand::SendGarbage(0, 0));
    assert!(b.drain_messages().is_empty());
    let _ = b.exec_cmd(&BoardCommand::HardDrop);
    assert_eq!(
        b.drain_messages(),
        vec![
            BoardMessage::BoardUpdated,
            BoardMessage::NewPieceInQueue(pieces[6]),
            BoardMessage::PieceUpdated,
        ]
    );
    let _ = b.exec_cmd(&BoardCommand::HoldPiece);
    assert_eq!(
        b.drain_messages(),
        vec![BoardMessage::NewPieceInQueue(pieces[7]), BoardMessage::PieceUpdated]
    );
    let _ = b.exec_cmd(&BoardCommand::SoftDrop(100));
    let _ = b.exec_cmd(&BoardCommand::Update(100));
    assert_eq!(
        b.drain_messages(),
        vec![BoardMessage::PieceUpdated, BoardMessage::GameStateChanged(GameState::Locking)]
    );
    let _ = b.exec_cmd(&BoardCommand::Update(100));
    assert!(b.drain_messages().is_empty());
    let _ = b.exec_cmd(&BoardCommand::Update(300));
    let notices = b.drain_messages();
    assert_eq!(notices[0], BoardMessage::BoardUpdated);
    assert_eq!(notices[1], BoardMessage::NewPieceInQueue(sequence(seed, 9)[8]));
    assert_eq!(notices[2], BoardMessage::PieceUpdated);
    assert_eq!(notices[3], BoardMessage::GameStateChanged(GameState::Falling));
    assert_eq!(notices.len(), 4);
}

#[test]
fn a_failed_rotation_changes_nothing_and_files_nothing() {
    let mut b = board(seed_starting_with(PieceType::I));
    b.soft_drop(3);
    let wkd = WallKickData::default();
    assert_eq!(b.rotate(&wkd, &RotationDirection::Clockwise), Ok(()));
    assert_eq!(b.apply_garbage(6, 5), Ok(()));
    b.soft_drop(100);
    assert_eq!(state(&b), (PieceType::I, RotationState::Clockwise, 5, 38));
    let _ = b.exec_cmd(&BoardCommand::Update(100));
    let gravity = b.get_gravity_mgr().get_state();
    assert!(gravity.locking);
    let grid = b.get_cell_holder().to_bool_array();
    b.drain_messages();
    assert_eq!(
        b.exec_cmd(&BoardCommand::Rotate(RotationDirection::Clockwise)).err(),
        Some(UpdateErrorReason::RotationFailed)
    );
    assert_eq!(
        b.rotate(&wkd, &RotationDirection::CounterClockwise),
        Err(UpdateErrorReason::RotationFailed)
    );
    assert_eq!(state(&b), (PieceType::I, RotationState::Clockwise, 5, 38));
    assert_eq!(b.get_gravity_mgr().get_state(), gravity);
    assert_eq!(b.get_cell_holder().to_bool_array(), grid);
    assert!(b.drain_messages().is_empty());
}

#[test]
fn a_rotation_that_fits_starts_the_lock_delay_anew() {
    let mut b = board(seed_starting_with(PieceType::T));
    b.soft_drop(100);
    assert_eq!(b.update(200).map(|r| r.is_ok()), None);
    assert_eq!(b.get_gravity_mgr().get_state().lock_timer, 300);
    let wkd = WallKickData::default();
    assert_eq!(b.rotate(&wkd, &RotationDirection::Deg180), Err(UpdateErrorReason::RotationFailed));
    assert_eq!(b.get_gravity_mgr().get_state().lock_timer, 300);
    assert_eq!(b.rotate(&wkd, &RotationDirection::Clockwise), Ok(()));
    assert_eq!(state(&b), (PieceType::T, RotationState::Clockwise, 3, 38));
    let gravity = b.get_gravity_mgr().get_state();
    assert_eq!(gravity.lock_timer, 500);
    assert_eq!(gravity.lock_resets, 1);
    assert_eq!(b.game_state(), GameState::Locking);
}

#[test]
fn a_move_sideways_starts_the_lock_delay_anew() {
    let mut b = board(seed_starting_with(PieceType::T));
    b.soft_drop(100);
    assert!(b.update(200).is_none());
    assert_eq!(b.get_gravity_mgr().get_state().lock_timer, 300);
    b.move_left(0);
    b.soft_drop(3);
    assert_eq!(b.get_gravity_mgr().get_state().lock_timer, 300);
    assert_eq!(b.get_gravity_mgr().get_state().lock_resets, 0);
    b.move_left(1);
    assert_eq!(state(&b), (PieceType::T, RotationState::Initial, 3, 39));
    assert_eq!(b.get_gravity_mgr().get_state().lock_timer, 500);
    assert_eq!(b.get_gravity_mgr().get_state().lock_resets, 1);
    assert!(b.update(100).is_none());
    b.move_right(20);
    assert_eq!(b.get_gravity_mgr().get_state().lock_timer, 500);
    assert_eq!(b.get_gravity_mgr().get_state().lock_resets, 2);
    b.move_right(20);
    assert_eq!(b.get_gravity_mgr().get_state().lock_resets, 2);
}

#[test]
fn a_falling_piece_has_no_lock_delay_to_start_anew() {
    let mut b = board(seed_starting_with(PieceType::T));
    b.move_left(2);
    let wkd = WallKickData::default();
    assert_eq!(b.rotate(&wkd, &RotationDirection::Clockwise), Ok(()));
    let gravity = b.get_gravity_mgr().get_state();
    assert!(!gravity.locking);
    assert_eq!(gravity.lock_resets, 0);
    assert_eq!(gravity.lock_timer, 500);
}

#[test]
fn update_locks_the_piece_after_the_lock_delay() {
    let seed = seed_starting_with(PieceType::O);
    let mut b = board(seed);
    b.soft_drop(100);
    assert!(b.update(499).is_none());
    assert_eq!(b.game_state(), GameState::Locking);
    assert_eq!(taken_cells(&b), 0);
    let result = b.update(1).unwrap().unwrap();
    assert_eq!(result.lines_cleared, 0);
    assert_eq!(taken_cells(&b), 4);
    assert_eq!(b.game_state(), GameState::Falling);
    assert_eq!(b.get_piece_mgr().get_piece().get_type(), sequence(seed, 2)[1]);
    assert_eq!(b.get_gravity_mgr().get_state().elapsed, 500);
}

#[test]
fn reset_starts_the_same_game_over() {
    let mut b = board(77);
    let first = state(&b);
    for _ in 0..5 {
        let _ = b.exec_cmd(&BoardCommand::HardDrop);
    }
    let _ = b.exec_cmd(&BoardCommand::SendGarbage(3, 0));
    let hole = b.get_last_garbage_x();
    let _ = b.exec_cmd(&BoardCommand::Update(1234));
    b.disable();
    b.reset();
    assert!(!b.is_enabled());
    assert_eq!(state(&b), first);
    assert_eq!(taken_cells(&b), 0);
    assert_eq!(b.get_last_garbage_x(), -1);
    assert_eq!(b.get_gravity_mgr().get_state().elapsed, 0);
    assert_eq!(b.get_piece_mgr().get_hold_piece(), None);
    assert_eq!(b.send_garbage(1, 0), Ok(()));
    assert_eq!(b.get_last_garbage_x(), hole);
    assert!(b.hard_drop().unwrap().attack.in_damage_queue == vec![1]);
}

#[test]
fn enabling_and_disabling() {
    let mut b = board(1);
    assert!(b.is_enabled());
    b.enable();
    assert!(b.is_enabled());
    b.disable();
    assert!(!b.is_enabled());
    b.disable();
    assert!(!b.is_enabled());
    b.enable();
    assert!(b.is_enabled());
}

#[test]
fn attacks_become_garbage_commands() {
    assert_eq!(attack_command(&Ok(None)), None);
    assert_eq!(attack_command(&Err(UpdateErrorReason::BoardDead)), None);
    assert_eq!(attack_command(&Ok(Some(report(1, 0, 1, 0)))), None);
    assert_eq!(
        attack_command(&Ok(Some(report(4, 1, 1, 4)))),
        Some(BoardCommand::SendGarbage(4, 0))
    );
}

#[test]
fn relay_sends_the_attack_to_the_other_board() {
    let mut target = board(3);
    BoardManager::relay(&mut target, &Ok(Some(report(2, 0, 1, 1))));
    assert_eq!(taken_cells(&target), 9);
    let hole = target.get_last_garbage_x() as u32;
    assert_eq!(
        target.drain_messages(),
        vec![BoardMessage::GarbageReceived(1, hole), BoardMessage::BoardUpdated]
    );
    BoardManager::relay(&mut target, &Ok(Some(report(1, 0, 1, 0))));
    BoardManager::relay(&mut target, &Ok(None));
    BoardManager::relay(&mut target, &Err(UpdateErrorReason::RotationFailed));
    assert_eq!(taken_cells(&target), 9);
    assert!(target.drain_messages().is_empty());
}

#[test]
fn a_match_updates_both_boards() {
    let seed = seed_starting_with(PieceType::O);
    let mut m = BoardManager::new(GameSettings::default(), seed);
    assert_eq!(m.game_settings, GameSettings::default());
    assert_eq!(state(&m.player_board), state(&m.bot_board));
    let (player, bot) = m.update(2000);
    assert!(matches!(player, Ok(None)));
    assert!(matches!(bot, Ok(None)));
    assert_eq!(state(&m.player_board), (PieceType::O, RotationState::Initial, 5, 3));
    assert_eq!(state(&m.bot_board), (PieceType::O, RotationState::Initial, 5, 3));
    m.player_board.soft_drop(100);
    let (player, bot) = m.update(500);
    assert!(matches!(player, Ok(Some(_))));
    assert!(matches!(bot, Ok(None)));
    assert_eq!(taken_cells(&m.player_board), 4);
    assert_eq!(taken_cells(&m.bot_board), 0);
}

#[test]
fn reset_with_a_seed_starts_the_game_of_that_seed() {
    let mut b = board(77);
    for _ in 0..3 {
        let _ = b.exec_cmd(&BoardCommand::HardDrop);
    }
    let _ = b.exec_cmd(&BoardCommand::SendGarbage(2, 0));
    b.drain_messages();
    b.reset_with_seed(78);
    let mut fresh = board(78);
    assert_eq!(b.get_seed(), 78);
    assert_eq!(state(&b), state(&fresh));
    assert_eq!(b.get_piece_mgr().get_queue(), fresh.get_piece_mgr().get_queue());
    assert_eq!(taken_cells(&b), 0);
    assert_eq!(b.get_last_garbage_x(), -1);
    assert_eq!(b.send_garbage(1, 0), Ok(()));
    assert_eq!(fresh.send_garbage(1, 0), Ok(()));
    assert_eq!(b.get_last_garbage_x(), fresh.get_last_garbage_x());
    assert!(b.drain_messages().is_empty());
}
