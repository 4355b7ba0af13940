use quader_engine::board::BoardComponent;
use quader_engine::cell_holder::{flip_bool_array, CellHolder, CellType, PlaceError};
use quader_engine::game_settings::BoardSettings;
use quader_engine::piece::{Piece, PieceType, RotationDirection};
use quader_engine::primitives::Point;

fn holder(width: usize, height: usize) -> CellHolder {
    CellHolder::new(&BoardSettings { width, height })
}

fn piece_at(t: PieceType, x: u32, y: u32) -> Piece {
    let mut p = Piece::new(t);
    p.set_x(x);
    p.set_y(y);
    p
}

fn fill(h: &mut CellHolder, x: u32, y: u32) {
    assert_eq!(h.place(&piece_at(PieceType::Pixel, x, y)), Ok(()));
}

fn fill_row_except(h: &mut CellHolder, y: u32, hole: Option<u32>) {
    for x in 0..h.get_width() as u32 {
        if Some(x) != hole {
            fill(h, x, y);
        }
    }
}

fn row(h: &CellHolder, y: usize) -> Vec<CellType> {
    (0..h.get_width()).map(|x| h.get_cell_at(x, y).unwrap()).collect()
}

fn grid(h: &CellHolder) -> Vec<Vec<CellType>> {
    (0..h.get_height()).map(|y| row(h, y)).collect()
}

fn garbage_row(width: usize, hole: usize) -> Vec<CellType> {
    (0..width).map(|x| if x == hole { CellType::Empty } else { CellType::Garbage }).collect()
}

#[test]
fn new_grid_is_empty() {
    let h = holder(10, 40);
    assert_eq!(h.get_width(), 10);
    assert_eq!(h.get_height(), 40);
    for y in 0..40 {
        assert_eq!(row(&h, y), vec![CellType::Empty; 10]);
    }
    assert_eq!(h.get_cell_at(10, 0), None);
    assert_eq!(h.get_cell_at(0, 40), None);
    assert_eq!(h.get_cell_at(9, 39), Some(CellType::Empty));
}

#[test]
fn place_writes_the_material_to_the_cells_of_the_piece() {
    let mut h = holder(10, 40);
    assert_eq!(h.place(&piece_at(PieceType::T, 4, 39)), Ok(()));
    for y in 0..40 {
        for x in 0..10 {
            let expected = if (y == 39 && (3..=5).contains(&x)) || (y == 38 && x == 4) {
                CellType::T
            } else {
                CellType::Empty
            };
            assert_eq!(h.get_cell_at(x, y), Some(expected));
        }
    }
}

#[test]
fn place_writes_the_cells_of_the_current_orientation() {
    let mut h = holder(10, 40);
    let mut p = piece_at(PieceType::I, 5, 20);
    p.rotate(RotationDirection::Clockwise, 0, 0);
    assert_eq!(h.place(&p), Ok(()));
    for y in 18..=21 {
        assert_eq!(h.get_cell_at(5, y), Some(CellType::I));
    }
    assert_eq!(h.get_cell_at(5, 17), Some(CellType::Empty));
    assert_eq!(h.get_cell_at(5, 22), Some(CellType::Empty));
    assert_eq!(h.get_cell_at(4, 20), Some(CellType::Empty));
}

#[test]
fn place_outside_the_grid_fails_and_changes_nothing() {
    let mut h = holder(10, 40);
    fill(&mut h, 2, 2);
    let before = grid(&h);
    assert_eq!(h.place(&piece_at(PieceType::T, 0, 5)), Err(PlaceError::OutOfBounds));
    assert_eq!(h.place(&piece_at(PieceType::T, 10, 5)), Err(PlaceError::OutOfBounds));
    assert_eq!(h.place(&piece_at(PieceType::T, 4, 0)), Err(PlaceError::OutOfBounds));
    assert_eq!(h.place(&piece_at(PieceType::T, 4, 40)), Err(PlaceError::OutOfBounds));
    assert_eq!(grid(&h), before);
}

#[test]
fn place_on_a_taken_cell_fails_and_changes_nothing() {
    let mut h = holder(10, 40);
    assert_eq!(h.place(&piece_at(PieceType::T, 4, 39)), Ok(()));
    let before = grid(&h);
    assert_eq!(h.place(&piece_at(PieceType::L, 5, 39)), Err(PlaceError::CellOccupied));
    assert_eq!(h.place(&piece_at(PieceType::Pixel, 4, 38)), Err(PlaceError::CellOccupied));
    assert_eq!(grid(&h), before);
}

#[test]
fn out_of_bounds_comes_before_cell_occupied() {
    let mut h = holder(10, 40);
    fill(&mut h, 0, 5);
    assert_eq!(h.place(&piece_at(PieceType::T, 0, 5)), Err(PlaceError::OutOfBounds));
}

#[test]
fn is_colliding_tests_without_changing() {
    let mut h = holder(10, 40);
    fill(&mut h, 4, 10);
    let before = grid(&h);
    let t = Piece::new(PieceType::T);
    let cells = t.get_current_pos();
    assert!(!h.is_colliding(cells, 4, 1));
    assert!(!h.is_colliding(cells, 1, 39));
    assert!(!h.is_colliding(cells, 8, 39));
    assert!(h.is_colliding(cells, 0, 5));
    assert!(h.is_colliding(cells, 9, 5));
    assert!(h.is_colliding(cells, 4, 0));
    assert!(h.is_colliding(cells, 4, 40));
    assert!(h.is_colliding(cells, -3, 5));
    assert!(h.is_colliding(cells, 4, -7));
    assert!(h.is_colliding(cells, 4, 10));
    assert!(h.is_colliding(cells, 3, 10));
    assert!(h.is_colliding(cells, 4, 11));
    assert!(!h.is_colliding(cells, 4, 9));
    assert!(!h.is_colliding(cells, 4, 12));
    assert!(!h.is_colliding(&[], 100, 100));
    assert!(h.is_colliding(&[Point::new(0, 0)], i64::MAX, i64::MAX));
    assert!(h.is_colliding(&[Point::new(-1, -1)], i64::MIN, i64::MIN));
    assert_eq!(grid(&h), before);
}

#[test]
fn clear_lines_on_a_grid_without_full_rows_does_nothing() {
    let mut h = holder(10, 40);
    fill_row_except(&mut h, 39, Some(3));
    let before = grid(&h);
    let lines = h.clear_lines();
    assert_eq!(lines.count, 0);
    assert_eq!(lines.rows, Vec::<usize>::new());
    assert_eq!(grid(&h), before);
}

#[test]
fn clear_lines_removes_interleaved_full_rows_and_keeps_the_order_of_the_rest() {
    let mut h = holder(10, 6);
    fill_row_except(&mut h, 1, None);
    fill(&mut h, 2, 2);
    fill_row_except(&mut h, 3, None);
    fill(&mut h, 7, 4);
    fill(&mut h, 8, 4);
    fill_row_except(&mut h, 5, None);
    let before = grid(&h);
    let lines = h.clear_lines();
    assert_eq!(lines.count, 3);
    assert_eq!(lines.rows, vec![1, 3, 5]);
    let after = grid(&h);
    assert_eq!(after.len(), 6);
    for y in 0..3 {
        assert_eq!(after[y], vec![CellType::Empty; 10]);
    }
    assert_eq!(after[3], before[0]);
    assert_eq!(after[4], before[2]);
    assert_eq!(after[5], before[4]);
}

#[test]
fn clear_lines_on_a_full_grid_leaves_an_empty_grid() {
    let mut h = holder(4, 3);
    for y in 0..3 {
        fill_row_except(&mut h, y, None);
    }
    let lines = h.clear_lines();
    assert_eq!(lines.count, 3);
    assert_eq!(lines.rows, vec![0, 1, 2]);
    assert_eq!(grid(&h), vec![vec![CellType::Empty; 4]; 3]);
}

#[test]
fn completing_the_bottom_row_clears_it_and_shifts_the_rows_above() {
    let mut h = holder(10, 40);
    fill_row_except(&mut h, 39, Some(3));
    fill(&mut h, 0, 38);
    fill(&mut h, 9, 37);
    assert_eq!(h.clear_lines().count, 0);
    let before = grid(&h);
    assert_eq!(h.place(&piece_at(PieceType::Pixel, 3, 39)), Ok(()));
    let lines = h.clear_lines();
    assert_eq!(lines.count, 1);
    assert_eq!(lines.rows, vec![39]);
    let after = grid(&h);
    assert_eq!(after[0], vec![CellType::Empty; 10]);
    for y in 1..40 {
        assert_eq!(after[y], before[y - 1]);
    }
    assert_eq!(h.get_cell_at(0, 39), Some(CellType::Garbage));
    assert_eq!(h.get_cell_at(9, 38), Some(CellType::Garbage));
    assert_eq!(h.get_cell_at(3, 39), Some(CellType::Empty));
}

#[test]
fn push_garbage_stacks_rows_with_their_holes_in_one_column() {
    let mut h = holder(10, 40);
    fill(&mut h, 0, 39);
    for _ in 0..5 {
        assert!(!h.push_garbage(4));
    }
    for y in 35..40 {
        assert_eq!(row(&h, y), garbage_row(10, 4));
    }
    assert_eq!(h.get_cell_at(0, 34), Some(CellType::Garbage));
    for x in 1..10 {
        assert_eq!(h.get_cell_at(x, 34), Some(CellType::Empty));
    }
    for y in 0..34 {
        assert_eq!(row(&h, y), vec![CellType::Empty; 10]);
    }
}

#[test]
fn push_garbage_reports_a_cell_pushed_out_of_the_top() {
    let mut h = holder(10, 4);
    fill(&mut h, 6, 1);
    assert!(!h.push_garbage(0));
    assert_eq!(h.get_cell_at(6, 0), Some(CellType::Garbage));
    assert!(h.push_garbage(0));
    assert!(!h.push_garbage(0));
    assert!(!h.push_garbage(0));
    for y in 0..4 {
        assert_eq!(row(&h, y), garbage_row(10, 0));
    }
    assert!(h.push_garbage(0));
}

#[test]
fn push_garbage_with_the_hole_outside_the_grid_gives_a_full_row() {
    let mut h = holder(10, 40);
    assert!(!h.push_garbage(10));
    assert_eq!(row(&h, 39), vec![CellType::Garbage; 10]);
    let lines = h.clear_lines();
    assert_eq!(lines.count, 1);
    assert_eq!(lines.rows, vec![39]);
}

#[test]
fn reset_empties_the_grid_and_keeps_its_size() {
    let mut h = holder(7, 9);
    h.push_garbage(1);
    fill(&mut h, 3, 3);
    h.reset();
    assert_eq!(h.get_width(), 7);
    assert_eq!(h.get_height(), 9);
    assert_eq!(grid(&h), vec![vec![CellType::Empty; 7]; 9]);
    h.push_garbage(2);
    BoardComponent::reset(&mut h);
    assert_eq!(grid(&h), vec![vec![CellType::Empty; 7]; 9]);
    assert_eq!(BoardComponent::get_name(&h), "cell_holder");
}

#[test]
fn bool_array_shows_the_taken_cells_from_the_top() {
    let mut h = holder(3, 4);
    fill(&mut h, 1, 0);
    fill(&mut h, 2, 3);
    let rows = h.to_bool_array();
    assert_eq!(
        rows,
        vec![
            vec![false, true, false],
            vec![false, false, false],
            vec![false, false, false],
            vec![false, false, true],
        ]
    );
}

#[test]
fn flipping_turns_top_origin_into_bottom_origin_and_back() {
    let mut h = holder(3, 4);
    fill(&mut h, 1, 0);
    fill(&mut h, 2, 3);
    fill(&mut h, 0, 2);
    let top = h.to_bool_array();
    let bottom = flip_bool_array(&top);
    assert_eq!(
        bottom,
        vec![
            vec![false, false, true],
            vec![true, false, false],
            vec![false, false, false],
            vec![false, true, false],
        ]
    );
    for y in 0..4 {
        assert_eq!(bottom[3 - y], top[y]);
    }
    assert_eq!(flip_bool_array(&bottom), top);
    assert_eq!(flip_bool_array(&Vec::new()), Vec::<Vec<bool>>::new());
}
