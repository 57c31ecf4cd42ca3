use vstd::prelude::*;
use crate::board::Board;
use crate::board::Cell;
use crate::board::clear_from_spec;
use crate::board::in_bounds;
use crate::geometry::Tetromino;
use crate::geometry::Vec2;
use crate::geometry::block_spec;
use crate::geometry::lemma_extent;
use crate::geometry::lemma_rot_bounded;
use crate::geometry::min_x_spec;
use crate::geometry::max_x_spec;
use crate::geometry::min_y_spec;
use crate::geometry::pos_in_range;
use crate::geometry::tetromino_from_index;
use crate::rng::rand_range_i32;
use crate::GRID_WIDTH;
use crate::GRID_HEIGHT;

verus! {

/// A discrete player intent, applied synchronously against current state.
#[derive(Clone, Copy, PartialEq, Eq, Structural, Debug)]
pub enum Command {
    MoveLeft,
    MoveRight,
    RotateClockwise,
    SoftDrop,
    HardDrop,
}

/// The game engine: the falling piece, the persistent board, and the
/// fixed-cadence clock that drives automatic descent.
pub struct GameState {
    /// Kind of the currently falling piece.
    pub tetromino: Tetromino,
    /// Rotation state of the falling piece, always below 4.
    pub facing: u8,
    /// Grid origin of the falling piece.
    pub pos: Vec2,
    /// The locked cells.
    pub board: Board,
    /// The instant, in milliseconds, the cadence counts from.
    pub start_time: u64,
    /// How many descent ticks have been performed since `start_time`.
    pub updates_so_far: u64,
}

/// `pos` translated by `(dx, dy)`; meaningful while the sum fits in `i32`.
pub open spec fn shifted(pos: Vec2, dx: int, dy: int) -> Vec2 {
    Vec2 { x: (pos.x + dx) as i32, y: (pos.y + dy) as i32 }
}

/// The `i`-th cell of the pose lies on the board.
pub open spec fn block_in_bounds(k: Tetromino, pos: Vec2, facing: int, i: int) -> bool {
    in_bounds(block_spec(k, pos, facing, i).0, block_spec(k, pos, facing, i).1)
}

/// All four cells of the pose lie on the board.
pub open spec fn piece_in_bounds(k: Tetromino, pos: Vec2, facing: int) -> bool {
    forall|i: int| 0 <= i < 4 ==> #[trigger] block_in_bounds(k, pos, facing, i)
}

/// The `i`-th cell of the pose lies on the board and is empty there.
pub open spec fn block_free(b: Board, k: Tetromino, pos: Vec2, facing: int, i: int) -> bool {
    block_in_bounds(k, pos, facing, i) && b.cell(
        block_spec(k, pos, facing, i).0,
        block_spec(k, pos, facing, i).1,
    ) === Cell::Empty
}

/// The `i`-th cell of the pose lands on an occupied board square.
pub open spec fn block_occupied(b: Board, k: Tetromino, pos: Vec2, facing: int, i: int) -> bool {
    b.cell(block_spec(k, pos, facing, i).0, block_spec(k, pos, facing, i).1) !== Cell::Empty
}

/// The single legality predicate: a pose may be occupied iff each of its four
/// cells is both on the board and empty.
pub open spec fn can_occupy_spec(b: Board, k: Tetromino, pos: Vec2, facing: int) -> bool {
    forall|i: int| 0 <= i < 4 ==> #[trigger] block_free(b, k, pos, facing, i)
}

/// One of the first `n` cells of the pose is the coordinate `(x, y)`.
pub open spec fn covers_upto(k: Tetromino, pos: Vec2, facing: int, n: int, x: int, y: int) -> bool {
    exists|i: int| 0 <= i < n && #[trigger] block_spec(k, pos, facing, i) == (x, y)
}

/// The pose covers the coordinate `(x, y)`.
pub open spec fn covers(k: Tetromino, pos: Vec2, facing: int, x: int, y: int) -> bool {
    covers_upto(k, pos, facing, 4, x, y)
}

/// The grid after the pose's four cells are written as occupied by `k`.
pub open spec fn locked_rows(rows: Seq<Seq<Cell>>, k: Tetromino, pos: Vec2, facing: int) -> Seq<
    Seq<Cell>,
> {
    Seq::new(
        rows.len(),
        |y: int|
            Seq::new(
                rows[y].len(),
                |x: int|
                    if covers(k, pos, facing, x, y) {
                        Cell::Occupied(k)
                    } else {
                        rows[y][x]
                    },
            ),
    )
}

/// The piece sits where a fresh spawn leaves it: its bounding box fits the
/// board horizontally and its topmost cell sits exactly at row 0.
pub open spec fn spawned_ok(s: GameState) -> bool {
    let f = s.facing as int;
    s.facing < 4 && -min_x_spec(s.tetromino, f) <= (s.pos.x as int) && (s.pos.x as int)
        < GRID_WIDTH - max_x_spec(s.tetromino, f) && (s.pos.y as int) == -min_y_spec(s.tetromino, f)
}

/// A descent tick is due at `now`: the schedule owes tick `updates_so_far`
/// at `start_time + updates_so_far * MILLIS_PER_UPDATE`.
pub open spec fn tick_due(s: GameState, now: u64) -> bool {
    now >= s.start_time && now - s.start_time >= s.updates_so_far * (
    crate::MILLIS_PER_UPDATE as u64)
}

impl GameState {
    /// The engine's invariant: the board keeps its dimensions, the facing is
    /// reduced modulo 4, and the falling piece never leaves the board.
    pub open spec fn wf(self) -> bool {
        self.board.wf() && self.facing < 4 && piece_in_bounds(
            self.tetromino,
            self.pos,
            self.facing as int,
        )
    }

    /// An in-bounds piece origin is far from the `i32` limits.
    proof fn lemma_pos_in_range(self)
        requires
            self.wf(),
        ensures
            pos_in_range(self.pos),
            -2 <= self.pos.x as int <= GRID_WIDTH + 1,
            -2 <= self.pos.y as int <= GRID_HEIGHT + 1,
    {
        lemma_rot_bounded(self.tetromino, self.facing as int);
        assert(block_in_bounds(self.tetromino, self.pos, self.facing as int, 0));
    }

    /// Whether the piece's kind may occupy the candidate pose: every cell of
    /// it is on the board and empty. False as soon as any cell leaves the
    /// board or lands on an occupied square.
    pub fn can_occupy(&self, pos: Vec2, facing: u8) -> (r: bool)
        requires
            self.board.wf(),
            pos_in_range(pos),
        ensures
            r == can_occupy_spec(self.board, self.tetromino, pos, facing as int),
    {
        let blocks = self.tetromino.blocks(pos, facing);
        let mut i: usize = 0;
        while i < 4
            invariant
                self.board.wf(),
                blocks@.len() == 4,
                forall|j: int|
                    0 <= j < 4 ==> ((#[trigger] blocks@[j]).x as int, blocks@[j].y as int)
                        == block_spec(self.tetromino, pos, facing as int, j),
                i <= 4,
                forall|j: int|
                    0 <= j < i as int ==> #[trigger] block_free(
                        self.board,
                        self.tetromino,
                        pos,
                        facing as int,
                        j,
                    ),
            decreases 4 - i as int,
        {
            match self.board.get(blocks[i]) {
                Some(Cell::Empty) => {},
                _ => {
                    assert(!block_free(self.board, self.tetromino, pos, facing as int, i as int));
                    return false;
                },
            }
            i = i + 1;
        }
        true
    }

    /// Attempt to translate the piece by `delta`: commits the new origin iff
    /// the candidate pose is legal, and reports whether it did.
    pub fn try_move(&mut self, delta: Vec2) -> (r: bool)
        requires
            old(self).wf(),
            i32::MIN + 2 <= old(self).pos.x as int + delta.x as int <= i32::MAX - 2,
            i32::MIN + 2 <= old(self).pos.y as int + delta.y as int <= i32::MAX - 2,
        ensures
            final(self).wf(),
            r == can_occupy_spec(
                old(self).board,
                old(self).tetromino,
                shifted(old(self).pos, delta.x as int, delta.y as int),
                old(self).facing as int,
            ),
            r ==> final(self).pos === shifted(old(self).pos, delta.x as int, delta.y as int),
            !r ==> final(self).pos === old(self).pos,
            final(self).tetromino === old(self).tetromino,
            final(self).facing == old(self).facing,
            final(self).board === old(self).board,
            final(self).start_time == old(self).start_time,
            final(self).updates_so_far == old(self).updates_so_far,
    {
        let candidate = Vec2 { x: self.pos.x + delta.x, y: self.pos.y + delta.y };
        if self.can_occupy(candidate, self.facing) {
            proof {
                assert forall|i: int| 0 <= i < 4 implies #[trigger] block_in_bounds(
                    self.tetromino,
                    candidate,
                    self.facing as int,
                    i,
                ) by {
                    assert(block_free(self.board, self.tetromino, candidate, self.facing as int, i));
                }
            }
            self.pos = candidate;
            true
        } else {
            false
        }
    }

    /// Attempt to rotate the piece one quarter turn clockwise: commits the
    /// new facing iff the rotated pose is legal, with no corrective shift
    /// near walls or the stack.
    pub fn try_rotate(&mut self) -> (r: bool)
        requires
            old(self).wf(),
        ensures
            final(self).wf(),
            r == can_occupy_spec(
                old(self).board,
                old(self).tetromino,
                old(self).pos,
                old(self).facing as int + 1,
            ),
            r ==> final(self).facing == (old(self).facing + 1) % 4,
            !r ==> final(self).facing == old(self).facing,
            final(self).pos === old(self).pos,
            final(self).tetromino === old(self).tetromino,
            final(self).board === old(self).board,
            final(self).start_time == old(self).start_time,
            final(self).updates_so_far == old(self).updates_so_far,
    {
        proof {
            self.lemma_pos_in_range();
        }
        if self.can_occupy(self.pos, self.facing + 1) {
            let next = (self.facing + 1) % 4;
            proof {
                assert forall|i: int| 0 <= i < 4 implies #[trigger] block_in_bounds(
                    self.tetromino,
                    self.pos,
                    next as int,
                    i,
                ) by {
                    assert(block_free(
                        self.board,
                        self.tetromino,
                        self.pos,
                        self.facing as int + 1,
                        i,
                    ));
                    assert(block_spec(self.tetromino, self.pos, next as int, i) == block_spec(
                        self.tetromino,
                        self.pos,
                        self.facing as int + 1,
                        i,
                    ));
                }
            }
            self.facing = next;
            true
        } else {
            false
        }
    }

    /// Drop the piece straight down until the row below is no longer legal:
    /// it comes to rest on the stack or the floor, and every pose it passed
    /// through on the way was legal.
    pub fn hard_drop(&mut self)
        requires
            old(self).wf(),
        ensures
            final(self).wf(),
            final(self).pos.x == old(self).pos.x,
            final(self).pos.y >= old(self).pos.y,
            forall|dy: int|
                0 < dy <= final(self).pos.y - old(self).pos.y ==> can_occupy_spec(
                    old(self).board,
                    old(self).tetromino,
                    #[trigger] shifted(old(self).pos, 0, dy),
                    old(self).facing as int,
                ),
            !can_occupy_spec(
                old(self).board,
                old(self).tetromino,
                shifted(final(self).pos, 0, 1),
                old(self).facing as int,
            ),
            final(self).tetromino === old(self).tetromino,
            final(self).facing == old(self).facing,
            final(self).board === old(self).board,
            final(self).start_time == old(self).start_time,
            final(self).updates_so_far == old(self).updates_so_far,
    {
        loop
            invariant
                self.wf(),
                self.tetromino === old(self).tetromino,
                self.facing == old(self).facing,
                self.board === old(self).board,
                self.start_time == old(self).start_time,
                self.updates_so_far == old(self).updates_so_far,
                self.pos.x == old(self).pos.x,
                self.pos.y >= old(self).pos.y,
                forall|dy: int|
                    0 < dy <= self.pos.y - old(self).pos.y ==> can_occupy_spec(
                        old(self).board,
                        old(self).tetromino,
                        #[trigger] shifted(old(self).pos, 0, dy),
                        old(self).facing as int,
                    ),
            ensures
                self.wf(),
                self.tetromino === old(self).tetromino,
                self.facing == old(self).facing,
                self.board === old(self).board,
                self.start_time == old(self).start_time,
                self.updates_so_far == old(self).updates_so_far,
                self.pos.x == old(self).pos.x,
                self.pos.y >= old(self).pos.y,
                forall|dy: int|
                    0 < dy <= self.pos.y - old(self).pos.y ==> can_occupy_spec(
                        old(self).board,
                        old(self).tetromino,
                        #[trigger] shifted(old(self).pos, 0, dy),
                        old(self).facing as int,
                    ),
                !can_occupy_spec(
                    old(self).board,
                    old(self).tetromino,
                    shifted(self.pos, 0, 1),
                    old(self).facing as int,
                ),
            decreases GRID_HEIGHT + 2 - self.pos.y as int,
        {
            proof {
                self.lemma_pos_in_range();
            }
            if !self.try_move(Vec2 { x: 0, y: 1 }) {
                break;
            }
        }
    }

    /// Write the falling piece's four cells into the board as occupied by its
    /// kind. The pose must be legal, so each target cell is empty before the
    /// write; afterwards exactly those four cells are occupied by the kind and
    /// every other cell is unchanged.
    pub fn lock_piece(&mut self)
        requires
            old(self).wf(),
            can_occupy_spec(
                old(self).board,
                old(self).tetromino,
                old(self).pos,
                old(self).facing as int,
            ),
        ensures
            final(self).wf(),
            forall|x: int, y: int|
                in_bounds(x, y) ==> #[trigger] final(self).board.cell(x, y) === (
                if covers(old(self).tetromino, old(self).pos, old(self).facing as int, x, y) {
                    Cell::Occupied(old(self).tetromino)
                } else {
                    old(self).board.cell(x, y)
                }),
            final(self).board@ === locked_rows(
                old(self).board@,
                old(self).tetromino,
                old(self).pos,
                old(self).facing as int,
            ),
            final(self).tetromino === old(self).tetromino,
            final(self).facing == old(self).facing,
            final(self).pos === old(self).pos,
            final(self).start_time == old(self).start_time,
            final(self).updates_so_far == old(self).updates_so_far,
    {
        proof {
            self.lemma_pos_in_range();
        }
        let ghost k = self.tetromino;
        let ghost p = self.pos;
        let ghost f = self.facing as int;
        let ghost orig = self.board;
        let blocks = self.tetromino.blocks(self.pos, self.facing);
        let mut i: usize = 0;
        while i < 4
            invariant
                self.board.wf(),
                self.tetromino === k,
                self.pos === p,
                self.facing as int == f,
                self.tetromino === old(self).tetromino,
                self.facing == old(self).facing,
                self.pos === old(self).pos,
                self.start_time == old(self).start_time,
                self.updates_so_far == old(self).updates_so_far,
                orig === old(self).board,
                orig.wf(),
                piece_in_bounds(k, p, f),
                blocks@.len() == 4,
                forall|j: int|
                    0 <= j < 4 ==> ((#[trigger] blocks@[j]).x as int, blocks@[j].y as int)
                        == block_spec(k, p, f, j),
                forall|j: int| 0 <= j < 4 ==> #[trigger] block_in_bounds(k, p, f, j),
                i <= 4,
                forall|x: int, y: int|
                    in_bounds(x, y) ==> #[trigger] self.board.cell(x, y) === (
                    if covers_upto(k, p, f, i as int, x, y) {
                        Cell::Occupied(k)
                    } else {
                        orig.cell(x, y)
                    }),
            decreases 4 - i as int,
        {
            let b = blocks[i];
            proof {
                assert(block_in_bounds(k, p, f, i as int));
            }
            self.board.set(b, Cell::Occupied(self.tetromino));
            proof {
                assert forall|x: int, y: int| in_bounds(x, y) implies #[trigger] self.board.cell(
                    x,
                    y,
                ) === (
                if covers_upto(k, p, f, i as int + 1, x, y) {
                    Cell::Occupied(k)
                } else {
                    orig.cell(x, y)
                }) by {
                    if x == b.x as int && y == b.y as int {
                        assert(block_spec(k, p, f, i as int) == (x, y));
                        assert(covers_upto(k, p, f, i as int + 1, x, y));
                    } else {
                        if covers_upto(k, p, f, i as int + 1, x, y) {
                            let w = choose|j: int|
                                0 <= j < i as int + 1 && #[trigger] block_spec(k, p, f, j) == (
                                x,
                                y,
                                );
                            assert(w != i as int);
                            assert(covers_upto(k, p, f, i as int, x, y));
                        }
                    }
                }
            }
            i = i + 1;
        }
        proof {
            lemma_pointwise_locked(self.board, orig, k, p, f);
        }
    }

    /// Lock the falling piece, clear every full row, and spawn a fresh piece:
    /// the atomic end-of-fall transition.
    pub fn lock_and_respawn(&mut self)
        requires
            old(self).wf(),
            can_occupy_spec(
                old(self).board,
                old(self).tetromino,
                old(self).pos,
                old(self).facing as int,
            ),
        ensures
            final(self).wf(),
            final(self).board@ === clear_from_spec(
                locked_rows(
                    old(self).board@,
                    old(self).tetromino,
                    old(self).pos,
                    old(self).facing as int,
                ),
                0,
            ),
            spawned_ok(*final(self)),
            final(self).start_time == old(self).start_time,
            final(self).updates_so_far == old(self).updates_so_far,
    {
        self.lock_piece();
        self.board.clear_full_rows();
        self.spawn();
    }

    /// Place a specific piece in the fresh-spawn position: facing as given,
    /// origin x as given (the bounding box must fit the board), origin y such
    /// that the topmost cell sits exactly at row 0. The board is untouched.
    pub fn spawn_at(&mut self, kind: Tetromino, facing: u8, x: i32)
        requires
            old(self).board.wf(),
            facing < 4,
            -min_x_spec(kind, facing as int) <= x as int,
            (x as int) < GRID_WIDTH - max_x_spec(kind, facing as int),
        ensures
            final(self).wf(),
            spawned_ok(*final(self)),
            final(self).tetromino === kind,
            final(self).facing == facing,
            final(self).pos.x == x,
            final(self).pos.y as int == -min_y_spec(kind, facing as int),
            final(self).board === old(self).board,
            final(self).start_time == old(self).start_time,
            final(self).updates_so_far == old(self).updates_so_far,
    {
        proof {
            lemma_extent(kind, facing as int);
        }
        let min_y = kind.min_y(facing);
        self.tetromino = kind;
        self.facing = facing;
        self.pos = Vec2 { x, y: -min_y };
        proof {
            assert forall|i: int| 0 <= i < 4 implies #[trigger] block_in_bounds(
                kind,
                self.pos,
                facing as int,
                i,
            ) by {
                lemma_extent(kind, facing as int);
                assert(min_x_spec(kind, facing as int) <= crate::geometry::rot_x(
                    kind,
                    facing as int,
                    i,
                ) <= max_x_spec(kind, facing as int));
                assert(min_y_spec(kind, facing as int) <= crate::geometry::rot_y(
                    kind,
                    facing as int,
                    i,
                ) <= crate::geometry::max_y_spec(kind, facing as int));
            }
        }
    }

    /// Spawn a fresh falling piece: a uniformly random kind, a uniformly
    /// random facing, and a uniformly random origin x among those whose
    /// bounding box fits the board; whatever was drawn, the result is a
    /// legal fresh-spawn position on an unchanged board.
    pub fn spawn(&mut self)
        requires
            old(self).board.wf(),
        ensures
            final(self).wf(),
            spawned_ok(*final(self)),
            final(self).board === old(self).board,
            final(self).start_time == old(self).start_time,
            final(self).updates_so_far == old(self).updates_so_far,
    {
        let idx = rand_range_i32(0, 7);
        let kind = tetromino_from_index(idx);
        let facing = rand_range_i32(0, 4) as u8;
        proof {
            lemma_extent(kind, facing as int);
        }
        let min_x = kind.min_x(facing);
        let max_x = kind.max_x(facing);
        let x = rand_range_i32(-min_x, (GRID_WIDTH as i32) - max_x);
        self.spawn_at(kind, facing, x);
    }

    /// A fresh game: an empty board, tick 0 at `start_time`, and a randomly
    /// spawned first piece.
    pub fn new(start_time: u64) -> (s: GameState)
        ensures
            s.wf(),
            spawned_ok(s),
            s.start_time == start_time,
            s.updates_so_far == 0,
            forall|x: int, y: int| in_bounds(x, y) ==> #[trigger] s.board.cell(x, y) === Cell::Empty,
    {
        let board = Board::new();
        let mut s = GameState {
            tetromino: Tetromino::IBlock,
            facing: 0,
            pos: Vec2 { x: 0, y: 0 },
            board,
            start_time,
            updates_so_far: 0,
        };
        s.spawn();
        s
    }

    /// Assemble a game from explicit parts, for a caller that wants a
    /// deterministic position rather than a random spawn.
    pub fn from_parts(
        board: Board,
        kind: Tetromino,
        facing: u8,
        pos: Vec2,
        start_time: u64,
        updates_so_far: u64,
    ) -> (s: GameState)
        requires
            board.wf(),
            facing < 4,
            piece_in_bounds(kind, pos, facing as int),
        ensures
            s.wf(),
            s.board === board,
            s.tetromino === kind,
            s.facing == facing,
            s.pos === pos,
            s.start_time == start_time,
            s.updates_so_far == updates_so_far,
    {
        GameState { tetromino: kind, facing, pos, board, start_time, updates_so_far }
    }

    /// The falling piece's current four cells, for a rendering layer.
    pub fn piece_blocks(&self) -> (r: Vec<Vec2>)
        requires
            self.wf(),
        ensures
            r@.len() == 4,
            forall|i: int|
                0 <= i < 4 ==> ((#[trigger] r@[i]).x as int, r@[i].y as int) == block_spec(
                    self.tetromino,
                    self.pos,
                    self.facing as int,
                    i,
                ),
    {
        proof {
            self.lemma_pos_in_range();
        }
        self.tetromino.blocks(self.pos, self.facing)
    }
}

/// How a translation command leaves the engine: the candidate origin is
/// committed iff its pose is legal, and the facing never changes.
pub open spec fn moved_to(pre: GameState, post: GameState, dx: int, dy: int) -> bool {
    let cand = shifted(pre.pos, dx, dy);
    post.facing == pre.facing && (if can_occupy_spec(pre.board, pre.tetromino, cand, pre.facing as int) {
        post.pos === cand
    } else {
        post.pos === pre.pos
    })
}

/// How the rotation command leaves the engine: the next facing is committed
/// iff the rotated pose is legal, and the origin never changes.
pub open spec fn rotated_from(pre: GameState, post: GameState) -> bool {
    post.pos === pre.pos && (if can_occupy_spec(
        pre.board,
        pre.tetromino,
        pre.pos,
        pre.facing as int + 1,
    ) {
        post.facing as int == (pre.facing as int + 1) % 4
    } else {
        post.facing == pre.facing
    })
}

/// How the instant-drop command leaves the engine: the piece descended
/// through legal poses only and now rests where one more row down is illegal.
pub open spec fn dropped_from(pre: GameState, post: GameState) -> bool {
    post.facing == pre.facing && post.pos.x == pre.pos.x && post.pos.y >= pre.pos.y && (forall|
        dy: int,
    |
        0 < dy <= post.pos.y - pre.pos.y ==> can_occupy_spec(
            pre.board,
            pre.tetromino,
            #[trigger] shifted(pre.pos, 0, dy),
            pre.facing as int,
        )) && !can_occupy_spec(
        pre.board,
        pre.tetromino,
        shifted(post.pos, 0, 1),
        pre.facing as int,
    )
}

/// Occupancy law: a pose is refused whenever any of its cells lies off the
/// board, refused whenever any of its cells lands on an occupied square, and
/// accepted otherwise.
pub proof fn lemma_can_occupy_iff(b: Board, k: Tetromino, pos: Vec2, facing: int)
    ensures
        (exists|i: int| 0 <= i < 4 && !(#[trigger] block_in_bounds(k, pos, facing, i)))
            ==> !can_occupy_spec(b, k, pos, facing),
        (exists|i: int| 0 <= i < 4 && #[trigger] block_occupied(b, k, pos, facing, i))
            ==> !can_occupy_spec(b, k, pos, facing),
        (forall|i: int|
            0 <= i < 4 ==> #[trigger] block_in_bounds(k, pos, facing, i) && !block_occupied(
                b,
                k,
                pos,
                facing,
                i,
            )) ==> can_occupy_spec(b, k, pos, facing),
{
    if exists|i: int| 0 <= i < 4 && !(#[trigger] block_in_bounds(k, pos, facing, i)) {
        let i = choose|i: int| 0 <= i < 4 && !(#[trigger] block_in_bounds(k, pos, facing, i));
        assert(!block_free(b, k, pos, facing, i));
    }
    if exists|i: int| 0 <= i < 4 && #[trigger] block_occupied(b, k, pos, facing, i) {
        let i = choose|i: int| 0 <= i < 4 && #[trigger] block_occupied(b, k, pos, facing, i);
        assert(!block_free(b, k, pos, facing, i));
    }
    if !can_occupy_spec(b, k, pos, facing) {
        let i = choose|i: int| 0 <= i < 4 && !(#[trigger] block_free(b, k, pos, facing, i));
        assert(!(block_in_bounds(k, pos, facing, i) && !block_occupied(b, k, pos, facing, i)));
    }
}

/// How one gravity step leaves the engine when the piece descends: the
/// origin one row lower, everything else untouched.
pub open spec fn descended(pre: GameState, post: GameState) -> bool {
    post.pos === shifted(pre.pos, 0, 1) && post.tetromino === pre.tetromino && post.facing
        == pre.facing && post.board === pre.board
}

/// One gravity tick as a relation on piece and board: the piece descends
/// when it can; otherwise its pose must be legal, it locks, full rows clear
/// and a fresh piece spawns. No tick is possible from an overlapping pose.
pub open spec fn tick_rel(pre: GameState, post: GameState) -> bool {
    if can_occupy_spec(pre.board, pre.tetromino, shifted(pre.pos, 0, 1), pre.facing as int) {
        descended(pre, post)
    } else if can_occupy_spec(pre.board, pre.tetromino, pre.pos, pre.facing as int) {
        post.board@ === clear_from_spec(
            locked_rows(pre.board@, pre.tetromino, pre.pos, pre.facing as int),
            0,
        ) && spawned_ok(post)
    } else {
        false
    }
}

/// One counted gravity tick: a game tick that also consumes one slot of the
/// schedule, so the tick counter grows by one and the start time stays put.
pub open spec fn tick_counted(mid: GameState, post: GameState) -> bool {
    tick_rel(mid, post) && post.start_time == mid.start_time && post.updates_so_far
        == mid.updates_so_far + 1
}

/// `n` counted gravity ticks in sequence.
pub open spec fn ticks_rel(pre: GameState, post: GameState, n: nat) -> bool
    decreases n,
{
    if n == 0 {
        post === pre
    } else {
        exists|mid: GameState| #[trigger] tick_counted(mid, post) && ticks_rel(pre, mid, (n - 1) as nat)
    }
}

impl GameState {
    /// One descent tick, without touching the tick counter. If the piece can
    /// descend it does; otherwise, if its own pose is legal, it locks, full
    /// rows clear, and a fresh piece spawns. A piece that can neither descend
    /// nor lock (its own pose overlaps the stack, which only an unlucky spawn
    /// can produce) reports `false` with the state unchanged; the driver
    /// should treat that as fatal, since no legal play can repair it.
    pub fn tick_step(&mut self) -> (alive: bool)
        requires
            old(self).wf(),
        ensures
            final(self).wf(),
            final(self).start_time == old(self).start_time,
            final(self).updates_so_far == old(self).updates_so_far,
            can_occupy_spec(
                old(self).board,
                old(self).tetromino,
                shifted(old(self).pos, 0, 1),
                old(self).facing as int,
            ) ==> alive && descended(*old(self), *final(self)),
            !can_occupy_spec(
                old(self).board,
                old(self).tetromino,
                shifted(old(self).pos, 0, 1),
                old(self).facing as int,
            ) && can_occupy_spec(
                old(self).board,
                old(self).tetromino,
                old(self).pos,
                old(self).facing as int,
            ) ==> alive && final(self).board@ === clear_from_spec(
                locked_rows(
                    old(self).board@,
                    old(self).tetromino,
                    old(self).pos,
                    old(self).facing as int,
                ),
                0,
            ) && spawned_ok(*final(self)),
            !can_occupy_spec(
                old(self).board,
                old(self).tetromino,
                shifted(old(self).pos, 0, 1),
                old(self).facing as int,
            ) && !can_occupy_spec(
                old(self).board,
                old(self).tetromino,
                old(self).pos,
                old(self).facing as int,
            ) ==> !alive && *final(self) === *old(self),
    {
        proof {
            self.lemma_pos_in_range();
        }
        if self.try_move(Vec2 { x: 0, y: 1 }) {
            true
        } else if self.can_occupy(self.pos, self.facing) {
            self.lock_and_respawn();
            true
        } else {
            false
        }
    }

    /// The per-poll driver: perform every descent tick due by `now` under the
    /// fixed cadence. Calling it again with an unchanged `now` performs zero
    /// ticks and leaves the state exactly as it was. Returns `false`, leaving
    /// the last due tick unconsumed, only when the piece can neither descend
    /// nor lock.
    pub fn advance(&mut self, now: u64) -> (alive: bool)
        requires
            old(self).wf(),
            now >= old(self).start_time,
        ensures
            final(self).wf(),
            final(self).start_time == old(self).start_time,
            final(self).updates_so_far >= old(self).updates_so_far,
            ticks_rel(
                *old(self),
                *final(self),
                (final(self).updates_so_far - old(self).updates_so_far) as nat,
            ),
            !tick_due(*old(self), now) ==> alive && *final(self) === *old(self),
            alive ==> !tick_due(*final(self), now),
            !alive ==> tick_due(*final(self), now) && !can_occupy_spec(
                final(self).board,
                final(self).tetromino,
                shifted(final(self).pos, 0, 1),
                final(self).facing as int,
            ) && !can_occupy_spec(
                final(self).board,
                final(self).tetromino,
                final(self).pos,
                final(self).facing as int,
            ),
    {
        loop
            invariant
                self.wf(),
                self.start_time == old(self).start_time,
                now >= self.start_time,
                self.updates_so_far >= old(self).updates_so_far,
                ticks_rel(
                    *old(self),
                    *self,
                    (self.updates_so_far - old(self).updates_so_far) as nat,
                ),
                !tick_due(*old(self), now) ==> *self === *old(self),
            ensures
                self.wf(),
                self.start_time == old(self).start_time,
                self.updates_so_far >= old(self).updates_so_far,
                ticks_rel(
                    *old(self),
                    *self,
                    (self.updates_so_far - old(self).updates_so_far) as nat,
                ),
                !tick_due(*old(self), now) ==> *self === *old(self),
                !tick_due(*self, now),
            decreases
                    now as int - self.start_time as int + (crate::MILLIS_PER_UPDATE as int)
                        - self.updates_so_far as int * (crate::MILLIS_PER_UPDATE as int),
        {
            let due = if let Some(deadline) = self.updates_so_far.checked_mul(
                crate::MILLIS_PER_UPDATE,
            ) {
                now - self.start_time >= deadline
            } else {
                false
            };
            if !due {
                break;
            }
            let ghost mid = *self;
            let ghost n_mid = (self.updates_so_far - old(self).updates_so_far) as nat;
            if !self.tick_step() {
                return false;
            }
            self.updates_so_far = self.updates_so_far + 1;
            proof {
                let n_new = (self.updates_so_far - old(self).updates_so_far) as nat;
                assert(n_new == n_mid + 1);
                assert(tick_counted(mid, *self));
                assert(ticks_rel(*old(self), mid, n_mid));
                assert(ticks_rel(*old(self), *self, n_new));
            }
        }
        true
    }

    /// Apply one discrete player intent, validated against the board: an
    /// illegal movement or rotation is silently ignored, which is normal
    /// gameplay rather than an error.
    pub fn apply_command(&mut self, cmd: Command)
        requires
            old(self).wf(),
        ensures
            final(self).wf(),
            final(self).board === old(self).board,
            final(self).tetromino === old(self).tetromino,
            final(self).start_time == old(self).start_time,
            final(self).updates_so_far == old(self).updates_so_far,
            cmd === Command::MoveLeft ==> moved_to(*old(self), *final(self), -1, 0),
            cmd === Command::MoveRight ==> moved_to(*old(self), *final(self), 1, 0),
            cmd === Command::SoftDrop ==> moved_to(*old(self), *final(self), 0, 1),
            cmd === Command::RotateClockwise ==> rotated_from(*old(self), *final(self)),
            cmd === Command::HardDrop ==> dropped_from(*old(self), *final(self)),
    {
        proof {
            self.lemma_pos_in_range();
        }
        match cmd {
            Command::MoveLeft => {
                let _ = self.try_move(Vec2 { x: -1, y: 0 });
            },
            Command::MoveRight => {
                let _ = self.try_move(Vec2 { x: 1, y: 0 });
            },
            Command::SoftDrop => {
                let _ = self.try_move(Vec2 { x: 0, y: 1 });
            },
            Command::RotateClockwise => {
                let _ = self.try_rotate();
            },
            Command::HardDrop => {
                self.hard_drop();
            },
        }
    }
}

/// Pointwise agreement with the locked pattern is exactly the `locked_rows`
/// grid, by extensionality over rows and cells.
proof fn lemma_pointwise_locked(b: Board, orig: Board, k: Tetromino, pos: Vec2, facing: int)
    requires
        b.wf(),
        orig.wf(),
        forall|x: int, y: int|
            in_bounds(x, y) ==> #[trigger] b.cell(x, y) === (
            if covers(k, pos, facing, x, y) {
                Cell::Occupied(k)
            } else {
                orig.cell(x, y)
            }),
    ensures
        b@ === locked_rows(orig@, k, pos, facing),
{
    let lr = locked_rows(orig@, k, pos, facing);
    assert forall|y: int| 0 <= y < GRID_HEIGHT implies b@[y] === lr[y] by {
        assert forall|x: int| 0 <= x < GRID_WIDTH implies b@[y][x] === lr[y][x] by {
            assert(b.cell(x, y) === b@[y][x]);
        }
        assert(b@[y] =~= lr[y]);
    }
    assert(b@ =~= lr);
}

} // verus!
