use vstd::prelude::*;
use crate::geometry::Vec2;
use crate::geometry::Tetromino;
use crate::GRID_WIDTH;
use crate::GRID_HEIGHT;

verus! {

/// One board square: empty, or permanently occupied by a locked piece of the
/// given kind (the kind only determines the colour a renderer paints).
#[derive(Clone, Copy, PartialEq, Eq, Structural, Debug)]
pub enum Cell {
    Empty,
    Occupied(Tetromino),
}

/// The persistent grid of locked cells, row-major, row 0 at the top.
/// Dimensions are fixed at `GRID_WIDTH` columns by `GRID_HEIGHT` rows.
pub struct Board {
    rows: Vec<Vec<Cell>>,
}

/// Whether `(x, y)` lies on the board.
pub open spec fn in_bounds(x: int, y: int) -> bool {
    0 <= x < GRID_WIDTH && 0 <= y < GRID_HEIGHT
}

/// A row holds no empty square.
pub open spec fn row_full(row: Seq<Cell>) -> bool {
    forall|x: int| 0 <= x < row.len() ==> #[trigger] row[x] !== Cell::Empty
}

/// A row holds only empty squares.
pub open spec fn row_empty(row: Seq<Cell>) -> bool {
    forall|x: int| 0 <= x < row.len() ==> #[trigger] row[x] === Cell::Empty
}

/// A fully empty row of board width.
pub open spec fn empty_row() -> Seq<Cell> {
    Seq::new(GRID_WIDTH as nat, |x: int| Cell::Empty)
}

/// The grid as it stands after the compaction step for a full row at `y`:
/// every row above `y` moves down one, and row 0 becomes empty.
pub open spec fn shift_down_spec(rows: Seq<Seq<Cell>>, y: int) -> Seq<Seq<Cell>> {
    Seq::new(
        rows.len(),
        |i: int|
            if i == 0 {
                empty_row()
            } else if i <= y {
                rows[i - 1]
            } else {
                rows[i]
            },
    )
}

/// The grid after the line-clear scan has run from row `y` to the bottom:
/// rows are visited top to bottom, and each row found full triggers one
/// compaction step before the scan moves on.
pub open spec fn clear_from_spec(rows: Seq<Seq<Cell>>, y: int) -> Seq<Seq<Cell>>
    decreases GRID_HEIGHT - y,
{
    if y < 0 || y >= GRID_HEIGHT {
        rows
    } else if row_full(rows[y]) {
        clear_from_spec(shift_down_spec(rows, y), y + 1)
    } else {
        clear_from_spec(rows, y + 1)
    }
}

/// A non-empty row of empty cells is not full.
pub proof fn lemma_empty_row_not_full(row: Seq<Cell>)
    requires
        row.len() > 0,
        row_empty(row),
    ensures
        !row_full(row),
{
    assert(row[0] === Cell::Empty);
}

/// A scan that starts below every full row changes nothing.
proof fn lemma_clear_skips(rows: Seq<Seq<Cell>>, y: int)
    requires
        rows.len() == GRID_HEIGHT,
        forall|j: int| y <= j < GRID_HEIGHT ==> !row_full(#[trigger] rows[j]),
    ensures
        clear_from_spec(rows, y) === rows,
    decreases GRID_HEIGHT - y,
{
    if 0 <= y < GRID_HEIGHT {
        lemma_clear_skips(rows, y + 1);
    }
}

/// Line-clear law: on a board whose only full row is `r`, with every row
/// above `r` empty, the scan performs exactly one compaction, so each row
/// down to `r` becomes a copy of the row that was above it, row 0 ends up
/// empty, and the rows below `r` are untouched.
pub proof fn lemma_clear_one_full_row(rows: Seq<Seq<Cell>>, r: int)
    requires
        rows.len() == GRID_HEIGHT,
        forall|y: int| 0 <= y < GRID_HEIGHT ==> (#[trigger] rows[y]).len() == GRID_WIDTH,
        0 <= r < GRID_HEIGHT,
        row_full(rows[r]),
        forall|y: int| 0 <= y < r ==> row_empty(#[trigger] rows[y]),
        forall|y: int| r < y < GRID_HEIGHT ==> !row_full(#[trigger] rows[y]),
    ensures
        clear_from_spec(rows, 0) === shift_down_spec(rows, r),
        forall|y: int| 0 <= y <= r ==> row_empty(#[trigger] clear_from_spec(rows, 0)[y]),
        forall|y: int|
            r < y < GRID_HEIGHT ==> #[trigger] clear_from_spec(rows, 0)[y] === rows[y],
{
    lemma_clear_one_full_row_from(rows, 0, r);
    let shifted = shift_down_spec(rows, r);
    assert forall|y: int| 0 <= y <= r implies row_empty(#[trigger] shifted[y]) by {
        if y == 0 {
            assert(shifted[y] === empty_row());
        } else {
            assert(shifted[y] === rows[y - 1]);
        }
    }
}

/// The scan from `y0`, with only empty rows between `y0` and the single full
/// row `r`, compacts once at `r` and then changes nothing further.
proof fn lemma_clear_one_full_row_from(rows: Seq<Seq<Cell>>, y0: int, r: int)
    requires
        rows.len() == GRID_HEIGHT,
        forall|y: int| 0 <= y < GRID_HEIGHT ==> (#[trigger] rows[y]).len() == GRID_WIDTH,
        0 <= y0 <= r < GRID_HEIGHT,
        row_full(rows[r]),
        forall|y: int| y0 <= y < r ==> row_empty(#[trigger] rows[y]),
        forall|y: int| r < y < GRID_HEIGHT ==> !row_full(#[trigger] rows[y]),
    ensures
        clear_from_spec(rows, y0) === shift_down_spec(rows, r),
    decreases r - y0,
{
    if y0 == r {
        let shifted = shift_down_spec(rows, r);
        assert forall|j: int| r + 1 <= j < GRID_HEIGHT implies !row_full(#[trigger] shifted[j]) by {
            assert(shifted[j] === rows[j]);
        }
        lemma_clear_skips(shifted, r + 1);
    } else {
        lemma_empty_row_not_full(rows[y0]);
        lemma_clear_one_full_row_from(rows, y0 + 1, r);
    }
}

impl View for Board {
    type V = Seq<Seq<Cell>>;

    closed spec fn view(&self) -> Seq<Seq<Cell>> {
        self.rows@.map_values(|r: Vec<Cell>| r@)
    }
}

impl Board {
    /// The fixed dimensions hold: `GRID_HEIGHT` rows of `GRID_WIDTH` cells.
    pub open spec fn wf(self) -> bool {
        self@.len() == GRID_HEIGHT && forall|y: int|
            0 <= y < GRID_HEIGHT ==> (#[trigger] self@[y]).len() == GRID_WIDTH
    }

    /// The cell at `(x, y)`; meaningful only in bounds.
    pub open spec fn cell(self, x: int, y: int) -> Cell {
        self@[y][x]
    }

    /// A fresh board with every cell empty.
    pub fn new() -> (r: Board)
        ensures
            r.wf(),
            forall|x: int, y: int| in_bounds(x, y) ==> #[trigger] r.cell(x, y) === Cell::Empty,
    {
        let mut rows: Vec<Vec<Cell>> = Vec::new();
        let mut y: usize = 0;
        while y < GRID_HEIGHT
            invariant
                y <= GRID_HEIGHT,
                rows@.len() == y as int,
                forall|j: int| 0 <= j < y as int ==> (#[trigger] rows@[j])@.len() == GRID_WIDTH,
                forall|j: int, x: int|
                    0 <= j < y as int && 0 <= x < GRID_WIDTH ==> #[trigger] rows@[j]@[x]
                        === Cell::Empty,
            decreases GRID_HEIGHT - y,
        {
            let mut row: Vec<Cell> = Vec::new();
            let mut x: usize = 0;
            while x < GRID_WIDTH
                invariant
                    x <= GRID_WIDTH,
                    row@.len() == x as int,
                    forall|i: int| 0 <= i < x as int ==> #[trigger] row@[i] === Cell::Empty,
                decreases GRID_WIDTH - x,
            {
                row.push(Cell::Empty);
                x = x + 1;
            }
            rows.push(row);
            y = y + 1;
        }
        Board { rows }
    }

    /// Read one in-bounds cell.
    fn at(&self, x: usize, y: usize) -> (c: Cell)
        requires
            self.wf(),
            x < GRID_WIDTH,
            y < GRID_HEIGHT,
        ensures
            c === self.cell(x as int, y as int),
    {
        proof {
            assert(self@[y as int] === self.rows@[y as int]@);
        }
        self.rows[y][x]
    }

    /// Bounds-checked read: `None` off the board, otherwise the cell, so a
    /// collision check can treat "off the board" and "occupied" alike.
    pub fn get(&self, block: Vec2) -> (r: Option<Cell>)
        requires
            self.wf(),
        ensures
            in_bounds(block.x as int, block.y as int) ==> r === Some(
                self.cell(block.x as int, block.y as int),
            ),
            !in_bounds(block.x as int, block.y as int) ==> r === None::<Cell>,
    {
        if block.x >= 0 && block.x < GRID_WIDTH as i32 && block.y >= 0 && block.y
            < GRID_HEIGHT as i32 {
            Some(self.at(block.x as usize, block.y as usize))
        } else {
            None
        }
    }

    /// Write one in-bounds cell; every other cell is untouched.
    pub fn set(&mut self, block: Vec2, c: Cell)
        requires
            old(self).wf(),
            in_bounds(block.x as int, block.y as int),
        ensures
            final(self).wf(),
            final(self).cell(block.x as int, block.y as int) === c,
            forall|x: int, y: int|
                in_bounds(x, y) && !(x == block.x as int && y == block.y as int)
                    ==> #[trigger] final(self).cell(x, y) === old(self).cell(x, y),
            final(self)@ === old(self)@.update(
                block.y as int,
                old(self)@[block.y as int].update(block.x as int, c),
            ),
    {
        let x = block.x as usize;
        let y = block.y as usize;
        proof {
            assert(self@[y as int] === self.rows@[y as int]@);
        }
        let row: &mut Vec<Cell> = &mut self.rows[y];
        row.set(x, c);
        proof {
            assert(self@ =~= old(self)@.update(
                block.y as int,
                old(self)@[block.y as int].update(block.x as int, c),
            ));
        }
    }

    /// Whether every cell of row `y` is occupied.
    pub fn row_is_full(&self, y: usize) -> (r: bool)
        requires
            self.wf(),
            y < GRID_HEIGHT,
        ensures
            r == row_full(self@[y as int]),
    {
        let mut x: usize = 0;
        while x < GRID_WIDTH
            invariant
                self.wf(),
                y < GRID_HEIGHT,
                x <= GRID_WIDTH,
                forall|i: int| 0 <= i < x as int ==> #[trigger] self@[y as int][i] !== Cell::Empty,
            decreases GRID_WIDTH - x,
        {
            if matches!(self.at(x, y), Cell::Empty) {
                return false;
            }
            x = x + 1;
        }
        true
    }

    /// Compaction for a cleared row at `from_row`: copy every row above it
    /// down one place (bottom-up), then empty row 0.
    pub fn shift_rows_down(&mut self, from_row: usize)
        requires
            old(self).wf(),
            from_row < GRID_HEIGHT,
        ensures
            final(self).wf(),
            final(self)@ === shift_down_spec(old(self)@, from_row as int),
    {
        let ghost orig = self@;
        let mut higher: usize = from_row;
        while higher > 0
            invariant
                self.wf(),
                orig.len() == GRID_HEIGHT,
                forall|j: int| 0 <= j < GRID_HEIGHT ==> (#[trigger] orig[j]).len() == GRID_WIDTH,
                from_row < GRID_HEIGHT,
                higher <= from_row,
                forall|j: int| 0 <= j <= higher ==> #[trigger] self@[j] === orig[j],
                forall|j: int|
                    (higher as int) < j <= from_row ==> #[trigger] self@[j] === orig[j - 1],
                forall|j: int|
                    (from_row as int) < j < GRID_HEIGHT ==> #[trigger] self@[j] === orig[j],
            decreases higher,
        {
            higher = higher - 1;
            let lower = higher + 1;
            let mut x: usize = 0;
            while x < GRID_WIDTH
                invariant
                    self.wf(),
                    orig.len() == GRID_HEIGHT,
                    forall|j: int| 0 <= j < GRID_HEIGHT ==> (#[trigger] orig[j]).len() == GRID_WIDTH,
                    from_row < GRID_HEIGHT,
                    higher < from_row,
                    lower == higher + 1,
                    x <= GRID_WIDTH,
                    forall|j: int| 0 <= j <= higher ==> #[trigger] self@[j] === orig[j],
                    forall|i: int|
                        0 <= i < x as int ==> #[trigger] self@[lower as int][i] === orig[higher as int][i],
                    forall|i: int|
                        x as int <= i < GRID_WIDTH ==> #[trigger] self@[lower as int][i]
                            === orig[lower as int][i],
                    forall|j: int|
                        (lower as int) < j <= from_row ==> #[trigger] self@[j] === orig[j - 1],
                    forall|j: int|
                        (from_row as int) < j < GRID_HEIGHT ==> #[trigger] self@[j] === orig[j],
            decreases GRID_WIDTH - x,
            {
                let c = self.at(x, higher);
                self.set(Vec2 { x: x as i32, y: lower as i32 }, c);
                x = x + 1;
            }
            proof {
                assert(self@[lower as int] =~= orig[higher as int]);
            }
        }
        let mut x: usize = 0;
        while x < GRID_WIDTH
            invariant
                self.wf(),
                orig.len() == GRID_HEIGHT,
                forall|j: int| 0 <= j < GRID_HEIGHT ==> (#[trigger] orig[j]).len() == GRID_WIDTH,
                from_row < GRID_HEIGHT,
                x <= GRID_WIDTH,
                forall|i: int| 0 <= i < x as int ==> #[trigger] self@[0][i] === Cell::Empty,
                forall|i: int| x as int <= i < GRID_WIDTH ==> #[trigger] self@[0][i] === orig[0][i],
                forall|j: int| 0 < j <= from_row ==> #[trigger] self@[j] === orig[j - 1],
                forall|j: int|
                    (from_row as int) < j < GRID_HEIGHT ==> #[trigger] self@[j] === orig[j],
            decreases GRID_WIDTH - x,
        {
            self.set(Vec2 { x: x as i32, y: 0 }, Cell::Empty);
            x = x + 1;
        }
        proof {
            assert(self@[0] =~= empty_row());
            assert(self@ =~= shift_down_spec(orig, from_row as int));
        }
    }

    /// The full line-clear scan: visit rows top to bottom and compact at each
    /// full one, exactly as `clear_from_spec` describes.
    pub fn clear_full_rows(&mut self)
        requires
            old(self).wf(),
        ensures
            final(self).wf(),
            final(self)@ === clear_from_spec(old(self)@, 0),
    {
        let ghost orig = self@;
        let mut y: usize = 0;
        while y < GRID_HEIGHT
            invariant
                self.wf(),
                y <= GRID_HEIGHT,
                clear_from_spec(orig, 0) === clear_from_spec(self@, y as int),
            decreases GRID_HEIGHT - y,
        {
            if self.row_is_full(y) {
                self.shift_rows_down(y);
            }
            y = y + 1;
        }
    }
}

} // verus!
