use quader_engine::cell_holder::{CellHolder, CellType};
use quader_engine::game_settings::GameSettings;
use quader_engine::piece::{
    Piece, PieceType, RotationDirection, RotationMove, RotationState, WallKickCheckParams,
};
use quader_engine::piece_generators::PieceGeneratorBag7;
use quader_engine::piece_mgr::{PieceMgr, UpdateErrorReason};
use quader_engine::primitives::{Point, Rect};
use quader_engine::wall_kick_data::{WallKickData, WallKickType};

fn seed_starting_with(t: PieceType) -> u64 {
    (0..100_000u64).find(|seed| PieceGeneratorBag7::new(*seed).next() == t).unwrap()
}

fn sequence(seed: u64, count: usize) -> Vec<PieceType> {
    let mut g = PieceGeneratorBag7::new(seed);
    (0..count).map(|_| g.next()).collect()
}

fn setup(seed: u64) -> (GameSettings, CellHolder, PieceMgr) {
    let settings = GameSettings::default();
    let holder = CellHolder::new(settings.get_board());
    let mgr = PieceMgr::new(&settings, seed, &holder);
    (settings, holder, mgr)
}

fn state(mgr: &PieceMgr) -> (PieceType, RotationState, u32, u32) {
    let p = mgr.get_piece();
    (p.get_type(), p.get_rotation(), p.get_x(), p.get_y())
}

fn absolute_cells(p: &Piece) -> Vec<(i64, i64)> {
    p.get_current_pos()
        .iter()
        .map(|c| (p.get_x() as i64 + c.x as i64, p.get_y() as i64 + c.y as i64))
        .collect()
}

fn taken_cells(holder: &CellHolder) -> usize {
    holder.to_bool_array().iter().map(|row| row.iter().filter(|b| **b).count()).sum()
}

#[test]
fn first_piece_spawns_at_the_top_in_the_middle() {
    for t in [PieceType::I, PieceType::O] {
        let (_, _, mgr) = setup(seed_starting_with(t));
        assert_eq!(state(&mgr), (t, RotationState::Initial, 5, 1));
    }
    for t in [PieceType::T, PieceType::L, PieceType::J, PieceType::S, PieceType::Z] {
        let (_, _, mgr) = setup(seed_starting_with(t));
        assert_eq!(state(&mgr), (t, RotationState::Initial, 4, 1));
    }
    let (_, _, mgr) = setup(seed_starting_with(PieceType::I));
    assert_eq!(mgr.get_piece().get_bounds(), Rect { x: 3, y: 0, width: 4, height: 1 });
    assert!(!mgr.is_dead());
    assert_eq!(mgr.get_hold_piece(), None);
}

#[test]
fn queue_shows_the_pieces_after_the_first() {
    let (_, _, mgr) = setup(11);
    let pieces = sequence(11, 6);
    assert_eq!(mgr.get_piece().get_type(), pieces[0]);
    assert_eq!(mgr.get_queue().as_slice(), &pieces[1..6]);
}

#[test]
fn move_left_by_twenty_stops_at_the_wall() {
    let (_, holder, mut mgr) = setup(seed_starting_with(PieceType::I));
    let moved = mgr.move_left(&holder, 20);
    assert_eq!(moved, 3);
    let piece = mgr.get_piece();
    assert_eq!(piece.get_bounds().x, 0);
    assert_eq!(piece.get_bounds(), Rect { x: 0, y: 0, width: 4, height: 1 });
    assert_eq!(absolute_cells(piece), vec![(0, 0), (1, 0), (2, 0), (3, 0)]);
    assert_eq!(piece.get_x(), 2);
    assert_eq!(piece.get_y(), 1);
    assert_eq!(mgr.move_left(&holder, 20), 0);
    assert_eq!(mgr.get_piece().get_bounds().x, 0);
}

#[test]
fn move_right_by_twenty_stops_at_the_wall() {
    let (_, holder, mut mgr) = setup(seed_starting_with(PieceType::T));
    assert_eq!(mgr.move_right(&holder, 20), 4);
    assert_eq!(mgr.get_piece().get_bounds(), Rect { x: 7, y: 0, width: 3, height: 2 });
    assert_eq!(mgr.get_piece().get_x(), 8);
}

#[test]
fn moves_by_nothing_or_less_do_nothing() {
    let (_, holder, mut mgr) = setup(3);
    let before = state(&mgr);
    assert_eq!(mgr.move_left(&holder, 0), 0);
    assert_eq!(mgr.move_left(&holder, -5), 0);
    assert_eq!(mgr.move_right(&holder, 0), 0);
    assert_eq!(mgr.move_right(&holder, i32::MIN), 0);
    assert_eq!(mgr.soft_drop(&holder, 0), 0);
    assert_eq!(state(&mgr), before);
}

#[test]
fn moves_go_as_far_as_asked_where_nothing_blocks() {
    let (_, holder, mut mgr) = setup(seed_starting_with(PieceType::T));
    assert_eq!(mgr.move_left(&holder, 2), 2);
    assert_eq!(mgr.get_piece().get_x(), 2);
    assert_eq!(mgr.move_right(&holder, 3), 3);
    assert_eq!(mgr.get_piece().get_x(), 5);
    assert_eq!(mgr.soft_drop(&holder, 10), 10);
    assert_eq!(mgr.get_piece().get_y(), 11);
}

#[test]
fn moves_stop_at_taken_cells() {
    let (_, mut holder, mut mgr) = setup(seed_starting_with(PieceType::T));
    let mut block = Piece::new(PieceType::Pixel);
    block.set_x(1);
    block.set_y(1);
    assert_eq!(holder.place(&block), Ok(()));
    block.set_x(4);
    block.set_y(20);
    assert_eq!(holder.place(&block), Ok(()));
    assert_eq!(mgr.move_left(&holder, 5), 1);
    assert_eq!(mgr.get_piece().get_x(), 3);
    assert_eq!(mgr.soft_drop(&holder, 100), 18);
    assert_eq!(mgr.get_piece().get_y(), 19);
    assert!(mgr.is_grounded(&holder));
    assert!(!mgr.test_movement(&holder, 0, 1));
    assert!(mgr.test_movement(&holder, -1, 0));
}

#[test]
fn soft_drop_stops_on_the_floor() {
    let (_, holder, mut mgr) = setup(seed_starting_with(PieceType::O));
    assert!(!mgr.is_grounded(&holder));
    assert_eq!(mgr.soft_drop(&holder, u32::MAX), 38);
    assert_eq!(mgr.get_piece().get_y(), 39);
    assert!(mgr.is_grounded(&holder));
    assert_eq!(mgr.soft_drop(&holder, 1), 0);
}

#[test]
fn find_nearest_y_is_where_the_piece_comes_to_rest() {
    let (_, mut holder, mgr) = setup(seed_starting_with(PieceType::I));
    assert_eq!(mgr.find_nearest_y(&holder), 40);
    assert_eq!(state(&mgr).3, 1);
    holder.push_garbage(0);
    holder.push_garbage(0);
    assert_eq!(mgr.find_nearest_y(&holder), 38);
    let (_, holder, mgr) = setup(seed_starting_with(PieceType::T));
    assert_eq!(mgr.find_nearest_y(&holder), 39);
}

#[test]
fn hard_drop_places_the_piece_in_the_row_found() {
    for t in [
        PieceType::I,
        PieceType::O,
        PieceType::T,
        PieceType::L,
        PieceType::J,
        PieceType::S,
        PieceType::Z,
    ] {
        let (_, mut holder, mut mgr) = setup(seed_starting_with(t));
        holder.push_garbage(9);
        holder.push_garbage(9);
        holder.push_garbage(9);
        mgr.move_left(&holder, 1);
        let found = mgr.find_nearest_y(&holder);
        let mut landed = Piece::new(t);
        landed.set_x(mgr.get_piece().get_x());
        landed.set_y(found);
        let cells = absolute_cells(&landed);
        assert!(!holder.is_colliding(landed.get_current_pos(), landed.get_x() as i64, found as i64));
        assert!(holder.is_colliding(
            landed.get_current_pos(),
            landed.get_x() as i64,
            found as i64 + 1
        ));
        let before = taken_cells(&holder);
        let result = mgr.hard_drop(&mut holder).unwrap();
        assert_eq!(result.lines_cleared, 0);
        assert_eq!(taken_cells(&holder), before + 4);
        for (x, y) in cells {
            assert_eq!(
                holder.get_cell_at(x as usize, y as usize),
                Some(landed.get_cell_type())
            );
        }
    }
}

#[test]
fn hard_drop_spawns_the_next_piece_of_the_queue() {
    let seed = 21;
    let pieces = sequence(seed, 12);
    let (_, mut holder, mut mgr) = setup(seed);
    for k in 0..5 {
        assert_eq!(mgr.get_piece().get_type(), pieces[k]);
        assert_eq!(mgr.get_queue().as_slice(), &pieces[k + 1..k + 6]);
        let result = mgr.hard_drop(&mut holder).unwrap();
        assert_eq!(result.lines_cleared, 0);
        assert_eq!(result.combo, 0);
        assert_eq!(result.b2b, 0);
        assert_eq!(result.attack.out_damage, 0);
        assert!(result.attack.in_damage_queue.is_empty());
        let expected_x = match pieces[k + 1] {
            PieceType::I | PieceType::O => 5,
            _ => 4,
        };
        assert_eq!(state(&mgr), (pieces[k + 1], RotationState::Initial, expected_x, 1));
    }
}

#[test]
fn clearing_rows_is_scored() {
    let (_, mut holder, mut mgr) = setup(seed_starting_with(PieceType::I));
    for _ in 0..4 {
        holder.push_garbage(9);
    }
    assert_eq!(mgr.soft_drop(&holder, 5), 5);
    assert!(mgr.rotate(&holder, &WallKickData::default(), RotationDirection::Clockwise).is_ok());
    assert_eq!(state(&mgr), (PieceType::I, RotationState::Clockwise, 5, 6));
    assert_eq!(mgr.move_right(&holder, 20), 4);
    let result = mgr.hard_drop(&mut holder).unwrap();
    assert_eq!(result.lines_cleared, 4);
    assert_eq!(result.combo, 1);
    assert_eq!(result.b2b, 1);
    assert_eq!(result.attack.out_damage, 4);
    assert_eq!(taken_cells(&holder), 0);
}

#[test]
fn rotation_in_the_open_takes_the_first_test() {
    let (_, holder, mut mgr) = setup(seed_starting_with(PieceType::T));
    mgr.soft_drop(&holder, 10);
    let wkd = WallKickData::default();
    assert_eq!(mgr.rotate(&holder, &wkd, RotationDirection::Clockwise), Ok(()));
    assert_eq!(state(&mgr), (PieceType::T, RotationState::Clockwise, 4, 11));
    assert_eq!(mgr.rotate(&holder, &wkd, RotationDirection::Deg180), Ok(()));
    assert_eq!(state(&mgr), (PieceType::T, RotationState::CounterClockwise, 4, 11));
    assert_eq!(mgr.rotate(&holder, &wkd, RotationDirection::CounterClockwise), Ok(()));
    assert_eq!(state(&mgr), (PieceType::T, RotationState::Deg180, 4, 11));
}

#[test]
fn rotation_against_the_wall_kicks_the_piece_off_it() {
    let (_, holder, mut mgr) = setup(seed_starting_with(PieceType::T));
    let wkd = WallKickData::default();
    mgr.soft_drop(&holder, 10);
    assert_eq!(mgr.rotate(&holder, &wkd, RotationDirection::Clockwise), Ok(()));
    assert_eq!(mgr.move_left(&holder, 20), 4);
    assert_eq!(state(&mgr), (PieceType::T, RotationState::Clockwise, 0, 11));
    assert_eq!(mgr.rotate(&holder, &wkd, RotationDirection::CounterClockwise), Ok(()));
    assert_eq!(state(&mgr), (PieceType::T, RotationState::Initial, 1, 11));
}

#[test]
fn rotation_under_the_ceiling_kicks_the_piece_down() {
    let (_, holder, mut mgr) = setup(seed_starting_with(PieceType::I));
    let wkd = WallKickData::default();
    assert_eq!(mgr.rotate(&holder, &wkd, RotationDirection::Clockwise), Ok(()));
    assert_eq!(state(&mgr), (PieceType::I, RotationState::Clockwise, 3, 2));
}

#[test]
fn rotation_on_the_floor_kicks_the_piece_up() {
    let (_, holder, mut mgr) = setup(seed_starting_with(PieceType::I));
    let wkd = WallKickData::default();
    assert_eq!(mgr.soft_drop(&holder, 100), 39);
    assert_eq!(state(&mgr), (PieceType::I, RotationState::Initial, 5, 40));
    assert_eq!(mgr.rotate(&holder, &wkd, RotationDirection::Clockwise), Ok(()));
    assert_eq!(state(&mgr), (PieceType::I, RotationState::Clockwise, 6, 38));
}

#[test]
fn rotation_without_a_fitting_kick_fails_and_changes_nothing() {
    let (_, mut holder, mut mgr) = setup(seed_starting_with(PieceType::I));
    let wkd = WallKickData::default();
    assert_eq!(mgr.soft_drop(&holder, 3), 3);
    assert_eq!(mgr.rotate(&holder, &wkd, RotationDirection::Clockwise), Ok(()));
    assert_eq!(state(&mgr), (PieceType::I, RotationState::Clockwise, 5, 4));
    for _ in 0..6 {
        holder.push_garbage(5);
    }
    assert_eq!(mgr.soft_drop(&holder, 100), 34);
    assert_eq!(state(&mgr), (PieceType::I, RotationState::Clockwise, 5, 38));
    let cells_before = absolute_cells(mgr.get_piece());
    let bounds_before = mgr.get_piece().get_bounds();
    let grid_before = holder.to_bool_array();
    for direction in [
        RotationDirection::Clockwise,
        RotationDirection::CounterClockwise,
        RotationDirection::Deg180,
    ] {
        assert_eq!(
            mgr.rotate(&holder, &wkd, direction),
            Err(UpdateErrorReason::RotationFailed)
        );
        assert_eq!(state(&mgr), (PieceType::I, RotationState::Clockwise, 5, 38));
        assert_eq!(absolute_cells(mgr.get_piece()), cells_before);
        assert_eq!(mgr.get_piece().get_bounds(), bounds_before);
    }
    assert_eq!(holder.to_bool_array(), grid_before);
    assert_eq!(mgr.get_hold_piece(), None);
    assert!(!mgr.is_dead());
}

#[test]
fn wall_kick_check_reports_the_first_fit() {
    let (_, holder, mgr) = setup(seed_starting_with(PieceType::T));
    let wkd = WallKickData::default();
    let (mv, expected_pos) = mgr.get_piece().get_rotation_type(RotationDirection::Clockwise);
    assert_eq!(mv, RotationMove::InitToRight);
    let tests = wkd.get(WallKickType::Default, mv);
    let check = mgr.test_rotation(&holder, &WallKickCheckParams { tests, expected_pos });
    assert!(check.is_success);
    assert_eq!(check.wall_kick_pos, Some(Point::new(0, 0)));
    let far = [Point::new(-9, 0), Point::new(9, 0), Point::new(0, 2), Point::new(1, 1)];
    let check = mgr.test_rotation(&holder, &WallKickCheckParams { tests: &far, expected_pos });
    assert!(check.is_success);
    assert_eq!(check.wall_kick_pos, Some(Point::new(0, 2)));
    let none = [Point::new(-9, 0), Point::new(0, -2)];
    let check = mgr.test_rotation(&holder, &WallKickCheckParams { tests: &none, expected_pos });
    assert!(!check.is_success);
    assert_eq!(check.wall_kick_pos, None);
    let check = mgr.test_rotation(&holder, &WallKickCheckParams { tests: &[], expected_pos });
    assert!(!check.is_success);
    assert_eq!(check.wall_kick_pos, None);
}

#[test]
fn hold_swaps_once_per_spawn() {
    let seed = 33;
    let pieces = sequence(seed, 10);
    let (_, mut holder, mut mgr) = setup(seed);
    mgr.soft_drop(&holder, 5);
    assert_eq!(mgr.hold_piece(&holder), Ok(()));
    assert_eq!(mgr.get_hold_piece(), Some(pieces[0]));
    assert_eq!(mgr.get_piece().get_type(), pieces[1]);
    assert_eq!(mgr.get_piece().get_y(), 1);
    assert_eq!(mgr.get_queue().as_slice(), &pieces[2..7]);
    let before = state(&mgr);
    assert_eq!(mgr.hold_piece(&holder), Err(UpdateErrorReason::HoldUnavailable));
    assert_eq!(state(&mgr), before);
    assert_eq!(mgr.get_hold_piece(), Some(pieces[0]));
    assert!(mgr.hard_drop(&mut holder).is_ok());
    assert_eq!(mgr.get_piece().get_type(), pieces[2]);
    assert_eq!(mgr.hold_piece(&holder), Ok(()));
    assert_eq!(mgr.get_hold_piece(), Some(pieces[2]));
    assert_eq!(mgr.get_piece().get_type(), pieces[0]);
    assert_eq!(mgr.get_piece().get_rotation(), RotationState::Initial);
    assert_eq!(mgr.get_queue().as_slice(), &pieces[3..8]);
}

#[test]
fn the_board_dies_when_the_spawn_collides() {
    let (_, mut holder, mut mgr) = setup(5);
    let mut drops = 0;
    let error = loop {
        match mgr.hard_drop(&mut holder) {
            Ok(_) => drops += 1,
            Err(e) => break e,
        }
        assert!(drops < 200);
    };
    assert_eq!(error, UpdateErrorReason::BoardDead);
    assert!(mgr.is_dead());
    assert!(drops >= 10);
    let piece_before = state(&mgr);
    let grid_before = holder.to_bool_array();
    let wkd = WallKickData::default();
    assert_eq!(mgr.hard_drop(&mut holder).err(), Some(UpdateErrorReason::BoardDead));
    assert_eq!(mgr.lock_piece(&mut holder).err(), Some(UpdateErrorReason::BoardDead));
    assert_eq!(
        mgr.rotate(&holder, &wkd, RotationDirection::Clockwise),
        Err(UpdateErrorReason::BoardDead)
    );
    assert_eq!(mgr.hold_piece(&holder), Err(UpdateErrorReason::BoardDead));
    assert_eq!(mgr.move_left(&holder, 3), 0);
    assert_eq!(mgr.move_right(&holder, 3), 0);
    assert_eq!(mgr.soft_drop(&holder, 3), 0);
    assert!(mgr.update(&mut holder, 16).is_none());
    assert_eq!(state(&mgr), piece_before);
    assert_eq!(holder.to_bool_array(), grid_before);
    holder.reset();
    mgr.reset(&holder);
    assert!(!mgr.is_dead());
    assert_eq!(mgr.get_piece().get_type(), sequence(5, 1)[0]);
    assert_eq!(mgr.get_hold_piece(), None);
}

#[test]
fn a_piece_that_collides_cannot_lock() {
    let (_, mut holder, mut mgr) = setup(seed_starting_with(PieceType::T));
    mgr.soft_drop(&holder, 100);
    assert_eq!(state(&mgr), (PieceType::T, RotationState::Initial, 4, 39));
    holder.push_garbage(0);
    let grid_before = holder.to_bool_array();
    assert_eq!(mgr.lock_piece(&mut holder).err(), Some(UpdateErrorReason::CellOccupied));
    assert_eq!(mgr.hard_drop(&mut holder).err(), Some(UpdateErrorReason::CellOccupied));
    assert_eq!(state(&mgr), (PieceType::T, RotationState::Initial, 4, 39));
    assert_eq!(holder.to_bool_array(), grid_before);
    assert!(!mgr.is_dead());
}

#[test]
fn a_lock_that_was_asked_for_happens_at_the_next_update() {
    let seed = seed_starting_with(PieceType::O);
    let pieces = sequence(seed, 2);
    let (_, mut holder, mut mgr) = setup(seed);
    assert!(mgr.update(&mut holder, 16).is_none());
    mgr.soft_drop(&holder, 3);
    mgr.request_lock();
    let result = mgr.update(&mut holder, 16).unwrap().unwrap();
    assert_eq!(result.lines_cleared, 0);
    assert_eq!(holder.get_cell_at(4, 3), Some(CellType::O));
    assert_eq!(holder.get_cell_at(5, 3), Some(CellType::O));
    assert_eq!(holder.get_cell_at(4, 4), Some(CellType::O));
    assert_eq!(holder.get_cell_at(5, 4), Some(CellType::O));
    assert_eq!(taken_cells(&holder), 4);
    assert_eq!(mgr.get_piece().get_type(), pieces[1]);
    assert!(mgr.update(&mut holder, 16).is_none());
}

#[test]
fn a_piece_outside_the_grid_cannot_lock() {
    let (_, _, mut mgr) = setup(seed_starting_with(PieceType::T));
    let mut narrow = CellHolder::new(&quader_engine::game_settings::BoardSettings {
        width: 3,
        height: 40,
    });
    assert_eq!(mgr.lock_piece(&mut narrow).err(), Some(UpdateErrorReason::OutOfBounds));
    assert_eq!(mgr.hard_drop(&mut narrow).err(), Some(UpdateErrorReason::OutOfBounds));
    assert_eq!(state(&mgr), (PieceType::T, RotationState::Initial, 4, 1));
    assert_eq!(taken_cells(&narrow), 0);
    assert!(!mgr.is_dead());
    assert_eq!(mgr.move_left(&narrow, 5), 0);
}

#[test]
fn lift_raises_a_colliding_piece_until_it_is_free() {
    let (_, mut holder, mut mgr) = setup(seed_starting_with(PieceType::O));
    mgr.soft_drop(&holder, 100);
    assert_eq!(mgr.lift(&holder, 5), 0);
    assert_eq!(mgr.get_piece().get_y(), 39);
    for _ in 0..3 {
        holder.push_garbage(0);
    }
    assert_eq!(mgr.lift(&holder, 1), 1);
    assert_eq!(mgr.get_piece().get_y(), 38);
    assert!(!mgr.test_movement(&holder, 0, 0));
    assert_eq!(mgr.lift(&holder, 10), 2);
    assert_eq!(mgr.get_piece().get_y(), 36);
    assert!(mgr.test_movement(&holder, 0, 0));
    assert!(mgr.is_grounded(&holder));
    assert_eq!(mgr.lift(&holder, 10), 0);
}

#[test]
fn lift_stops_at_the_top_row() {
    let (_, mut holder, mut mgr) = setup(seed_starting_with(PieceType::O));
    mgr.soft_drop(&holder, 2);
    for _ in 0..40 {
        holder.push_garbage(0);
    }
    assert_eq!(mgr.lift(&holder, 100), 3);
    assert_eq!(mgr.get_piece().get_y(), 0);
    assert!(!mgr.test_movement(&holder, 0, 0));
    mgr.kill();
    assert!(mgr.is_dead());
    assert_eq!(mgr.lift(&holder, 100), 0);
}
