use tetris::board::Board;
use tetris::board::Cell;
use tetris::engine::Command;
use tetris::engine::GameState;
use tetris::geometry::Tetromino;
use tetris::geometry::Vec2;
use tetris::GRID_HEIGHT;
use tetris::GRID_WIDTH;

fn i_piece_on_empty_board() -> GameState {
    GameState::from_parts(Board::new(), Tetromino::IBlock, 0, Vec2 { x: 4, y: 0 }, 0, 0)
}

#[test]
fn random_spawn_is_well_placed() {
    for start in 0u64..20 {
        let s = GameState::new(start);
        assert!(s.facing < 4);
        assert_eq!(s.start_time, start);
        assert_eq!(s.updates_so_far, 0);
        let cells = s.piece_blocks();
        assert_eq!(cells.len(), 4);
        let mut top = i32::MAX;
        for c in cells {
            assert!(0 <= c.x && c.x < GRID_WIDTH as i32);
            assert!(0 <= c.y && c.y < GRID_HEIGHT as i32);
            if c.y < top {
                top = c.y;
            }
        }
        // The topmost cell of a fresh spawn sits exactly at row 0.
        assert_eq!(top, 0);
    }
}

#[test]
fn can_occupy_rejects_out_of_bounds_and_overlap() {
    let mut s = i_piece_on_empty_board();
    // In-bounds, empty: legal.
    assert!(s.can_occupy(Vec2 { x: 4, y: 0 }, 0));
    // Leftmost cell would sit at column -1: out of bounds.
    assert!(!s.can_occupy(Vec2 { x: 0, y: 0 }, 0));
    // Bottom row is fine, one below is out of bounds.
    assert!(s.can_occupy(Vec2 { x: 4, y: 31 }, 0));
    assert!(!s.can_occupy(Vec2 { x: 4, y: 32 }, 0));
    // An occupied square under one cell of the piece: illegal.
    s.board.set(Vec2 { x: 5, y: 7 }, Cell::Occupied(Tetromino::TBlock));
    assert!(!s.can_occupy(Vec2 { x: 4, y: 7 }, 0));
    assert!(s.can_occupy(Vec2 { x: 4, y: 8 }, 0));
}

#[test]
fn try_move_commits_only_legal_moves() {
    let mut s = i_piece_on_empty_board();
    assert!(s.try_move(Vec2 { x: 1, y: 0 }));
    assert_eq!(s.pos, Vec2 { x: 5, y: 0 });
    // Cells reach columns 4..=8; nine more right moves hit the wall.
    for _ in 0..8 {
        assert!(s.try_move(Vec2 { x: 1, y: 0 }));
    }
    assert_eq!(s.pos, Vec2 { x: 13, y: 0 });
    assert!(!s.try_move(Vec2 { x: 1, y: 0 }));
    assert_eq!(s.pos, Vec2 { x: 13, y: 0 });
}

#[test]
fn try_rotate_commits_only_when_room_allows() {
    // At row 0 the I piece cannot rotate: a cell would leave the top.
    let mut s = i_piece_on_empty_board();
    assert!(!s.try_rotate());
    assert_eq!(s.facing, 0);
    // One row lower there is room.
    let mut t = GameState::from_parts(
        Board::new(),
        Tetromino::IBlock,
        0,
        Vec2 { x: 4, y: 1 },
        0,
        0,
    );
    assert!(t.try_rotate());
    assert_eq!(t.facing, 1);
    // Facing wraps around modulo 4.
    let mut u = GameState::from_parts(
        Board::new(),
        Tetromino::OBlock,
        3,
        Vec2 { x: 4, y: 10 },
        0,
        0,
    );
    assert!(u.try_rotate());
    assert_eq!(u.facing, 0);
}

#[test]
fn lock_piece_writes_exactly_four_cells() {
    let mut s = i_piece_on_empty_board();
    s.lock_piece();
    let mut occupied = 0;
    for y in 0..GRID_HEIGHT as i32 {
        for x in 0..GRID_WIDTH as i32 {
            if s.board.get(Vec2 { x, y }) != Some(Cell::Empty) {
                occupied += 1;
                assert_eq!(s.board.get(Vec2 { x, y }), Some(Cell::Occupied(Tetromino::IBlock)));
                assert_eq!(y, 0);
                assert!(3 <= x && x <= 6);
            }
        }
    }
    assert_eq!(occupied, 4);
}

#[test]
fn tick_step_descends_then_locks() {
    let mut s = GameState::from_parts(
        Board::new(),
        Tetromino::OBlock,
        0,
        Vec2 { x: 6, y: 29 },
        0,
        0,
    );
    // The O spans two rows, so from origin row 29 it can descend once.
    assert!(s.tick_step());
    assert_eq!(s.pos, Vec2 { x: 6, y: 30 });
    // It now rests on the floor; the next tick locks it and respawns.
    assert!(s.tick_step());
    assert_eq!(s.board.get(Vec2 { x: 6, y: 29 }), Some(Cell::Empty));
    assert_eq!(s.board.get(Vec2 { x: 6, y: 30 }), Some(Cell::Occupied(Tetromino::OBlock)));
    assert_eq!(s.board.get(Vec2 { x: 7, y: 30 }), Some(Cell::Occupied(Tetromino::OBlock)));
    assert_eq!(s.board.get(Vec2 { x: 6, y: 31 }), Some(Cell::Occupied(Tetromino::OBlock)));
    assert_eq!(s.board.get(Vec2 { x: 7, y: 31 }), Some(Cell::Occupied(Tetromino::OBlock)));
}

#[test]
fn tick_step_reports_a_piece_that_can_neither_descend_nor_lock() {
    // The piece overlaps the stack (as only an unlucky spawn can arrange)
    // and the row below is blocked too: the tick is refused.
    let mut board = Board::new();
    board.set(Vec2 { x: 4, y: 10 }, Cell::Occupied(Tetromino::TBlock));
    board.set(Vec2 { x: 3, y: 11 }, Cell::Occupied(Tetromino::TBlock));
    let mut s = GameState::from_parts(board, Tetromino::IBlock, 0, Vec2 { x: 4, y: 10 }, 0, 0);
    assert!(!s.tick_step());
    assert_eq!(s.pos, Vec2 { x: 4, y: 10 });
    assert_eq!(s.tetromino, Tetromino::IBlock);
    // The board is untouched by the refused tick.
    assert_eq!(s.board.get(Vec2 { x: 4, y: 10 }), Some(Cell::Occupied(Tetromino::TBlock)));
    assert_eq!(s.board.get(Vec2 { x: 5, y: 10 }), Some(Cell::Empty));
}

#[test]
fn advance_runs_every_due_tick() {
    let mut s = i_piece_on_empty_board();
    // With a 500 ms cadence, 1100 ms owes ticks 0, 1 and 2.
    assert!(s.advance(1100));
    assert_eq!(s.updates_so_far, 3);
    assert_eq!(s.pos, Vec2 { x: 4, y: 3 });
}

#[test]
fn advance_twice_with_same_now_is_idempotent() {
    let mut s = i_piece_on_empty_board();
    assert!(s.advance(700));
    let pos = s.pos;
    let facing = s.facing;
    let kind = s.tetromino;
    let updates = s.updates_so_far;
    assert!(s.advance(700));
    assert_eq!(s.pos, pos);
    assert_eq!(s.facing, facing);
    assert_eq!(s.tetromino, kind);
    assert_eq!(s.updates_so_far, updates);
}

#[test]
fn commands_map_to_their_engine_operations() {
    let mut s = i_piece_on_empty_board();
    s.apply_command(Command::MoveRight);
    assert_eq!(s.pos, Vec2 { x: 5, y: 0 });
    s.apply_command(Command::MoveLeft);
    assert_eq!(s.pos, Vec2 { x: 4, y: 0 });
    s.apply_command(Command::SoftDrop);
    assert_eq!(s.pos, Vec2 { x: 4, y: 1 });
    s.apply_command(Command::RotateClockwise);
    assert_eq!(s.facing, 1);
    s.apply_command(Command::HardDrop);
    assert_eq!(s.pos.x, 4);
    // Facing 1 puts the lowest cell two rows under the origin.
    assert_eq!(s.pos.y, 29);
}
