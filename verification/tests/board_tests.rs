use tetris::board::Board;
use tetris::board::Cell;
use tetris::geometry::Tetromino;
use tetris::geometry::Vec2;
use tetris::GRID_HEIGHT;
use tetris::GRID_WIDTH;

#[test]
fn fresh_board_is_empty_and_bounds_checked() {
    let b = Board::new();
    for y in 0..GRID_HEIGHT as i32 {
        for x in 0..GRID_WIDTH as i32 {
            assert_eq!(b.get(Vec2 { x, y }), Some(Cell::Empty));
        }
    }
    assert_eq!(b.get(Vec2 { x: -1, y: 0 }), None);
    assert_eq!(b.get(Vec2 { x: 0, y: -1 }), None);
    assert_eq!(b.get(Vec2 { x: GRID_WIDTH as i32, y: 0 }), None);
    assert_eq!(b.get(Vec2 { x: 0, y: GRID_HEIGHT as i32 }), None);
}

#[test]
fn set_writes_one_cell_only() {
    let mut b = Board::new();
    b.set(Vec2 { x: 3, y: 5 }, Cell::Occupied(Tetromino::TBlock));
    assert_eq!(b.get(Vec2 { x: 3, y: 5 }), Some(Cell::Occupied(Tetromino::TBlock)));
    assert_eq!(b.get(Vec2 { x: 4, y: 5 }), Some(Cell::Empty));
    assert_eq!(b.get(Vec2 { x: 3, y: 6 }), Some(Cell::Empty));
}

#[test]
fn row_is_full_detects_one_gap() {
    let mut b = Board::new();
    for x in 0..GRID_WIDTH as i32 {
        b.set(Vec2 { x, y: 9 }, Cell::Occupied(Tetromino::JBlock));
    }
    assert!(b.row_is_full(9));
    b.set(Vec2 { x: 7, y: 9 }, Cell::Empty);
    assert!(!b.row_is_full(9));
    assert!(!b.row_is_full(0));
}

#[test]
fn shift_rows_down_copies_rows_above() {
    let mut b = Board::new();
    b.set(Vec2 { x: 2, y: 4 }, Cell::Occupied(Tetromino::SBlock));
    b.set(Vec2 { x: 9, y: 12 }, Cell::Occupied(Tetromino::ZBlock));
    b.set(Vec2 { x: 1, y: 0 }, Cell::Occupied(Tetromino::LBlock));
    b.shift_rows_down(10);
    // Rows above the cleared row moved down one.
    assert_eq!(b.get(Vec2 { x: 2, y: 5 }), Some(Cell::Occupied(Tetromino::SBlock)));
    assert_eq!(b.get(Vec2 { x: 2, y: 4 }), Some(Cell::Empty));
    assert_eq!(b.get(Vec2 { x: 1, y: 1 }), Some(Cell::Occupied(Tetromino::LBlock)));
    // Row 0 ends up empty.
    for x in 0..GRID_WIDTH as i32 {
        assert_eq!(b.get(Vec2 { x, y: 0 }), Some(Cell::Empty));
    }
    // Rows below the cleared row are untouched.
    assert_eq!(b.get(Vec2 { x: 9, y: 12 }), Some(Cell::Occupied(Tetromino::ZBlock)));
}

#[test]
fn clear_full_rows_removes_the_full_row() {
    let mut b = Board::new();
    for x in 0..GRID_WIDTH as i32 {
        b.set(Vec2 { x, y: 10 }, Cell::Occupied(Tetromino::IBlock));
    }
    b.set(Vec2 { x: 3, y: 9 }, Cell::Occupied(Tetromino::OBlock));
    b.set(Vec2 { x: 5, y: 31 }, Cell::Occupied(Tetromino::TBlock));
    b.clear_full_rows();
    // The marker above the full row moved down into it.
    assert_eq!(b.get(Vec2 { x: 3, y: 10 }), Some(Cell::Occupied(Tetromino::OBlock)));
    assert_eq!(b.get(Vec2 { x: 3, y: 9 }), Some(Cell::Empty));
    assert!(!b.row_is_full(10));
    // Below the cleared row nothing moved.
    assert_eq!(b.get(Vec2 { x: 5, y: 31 }), Some(Cell::Occupied(Tetromino::TBlock)));
}

#[test]
fn clear_full_rows_handles_two_adjacent_full_rows() {
    let mut b = Board::new();
    for x in 0..GRID_WIDTH as i32 {
        b.set(Vec2 { x, y: 30 }, Cell::Occupied(Tetromino::IBlock));
        b.set(Vec2 { x, y: 31 }, Cell::Occupied(Tetromino::IBlock));
    }
    b.set(Vec2 { x: 6, y: 29 }, Cell::Occupied(Tetromino::JBlock));
    b.clear_full_rows();
    assert!(!b.row_is_full(30));
    assert!(!b.row_is_full(31));
    // The marker two rows above the pair lands at the bottom.
    assert_eq!(b.get(Vec2 { x: 6, y: 31 }), Some(Cell::Occupied(Tetromino::JBlock)));
    assert_eq!(b.get(Vec2 { x: 6, y: 29 }), Some(Cell::Empty));
}
