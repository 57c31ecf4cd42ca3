use vstd::prelude::*;

verus! {

/// A grid coordinate or offset: `x` grows rightward, `y` grows downward
/// (row 0 is the top of the board).
#[derive(Clone, Copy, PartialEq, Eq, Structural, Debug)]
pub struct Vec2 {
    pub x: i32,
    pub y: i32,
}

/// The seven tetromino kinds.
#[derive(Clone, Copy, PartialEq, Eq, Structural, Debug)]
pub enum Tetromino {
    IBlock,
    OBlock,
    TBlock,
    SBlock,
    ZBlock,
    JBlock,
    LBlock,
}

/// The `i`-th canonical cell offset of a piece kind, relative to its logical
/// origin, in the facing-0 orientation. Meaningful for `0 <= i < 4`.
pub open spec fn offset_spec(k: Tetromino, i: int) -> (int, int) {
    match k {
        Tetromino::IBlock => if i == 0 { (0, 0) } else if i == 1 { (1, 0) } else if i == 2 { (2, 0) } else { (-1, 0) },
        Tetromino::OBlock => if i == 0 { (0, 0) } else if i == 1 { (1, 0) } else if i == 2 { (0, 1) } else { (1, 1) },
        Tetromino::TBlock => if i == 0 { (0, 0) } else if i == 1 { (0, 1) } else if i == 2 { (-1, 0) } else { (1, 0) },
        Tetromino::SBlock => if i == 0 { (0, 0) } else if i == 1 { (0, 1) } else if i == 2 { (1, 0) } else { (-1, 1) },
        Tetromino::ZBlock => if i == 0 { (0, 0) } else if i == 1 { (0, 1) } else if i == 2 { (-1, 0) } else { (1, 1) },
        Tetromino::LBlock => if i == 0 { (0, 0) } else if i == 1 { (0, 1) } else if i == 2 { (0, -1) } else { (-1, -1) },
        Tetromino::JBlock => if i == 0 { (0, 0) } else if i == 1 { (0, 1) } else if i == 2 { (0, -1) } else { (1, -1) },
    }
}

/// Rotation of a vector by `facing` quarter turns about the origin:
/// facing 0 is the identity, each further step maps (x, y) to (-y, x).
pub open spec fn rotate_spec(x: int, y: int, facing: int) -> (int, int) {
    if facing % 4 == 0 {
        (x, y)
    } else if facing % 4 == 1 {
        (-y, x)
    } else if facing % 4 == 2 {
        (-x, -y)
    } else {
        (y, -x)
    }
}

/// Rotation by quarter turns, for grid vectors.
pub trait Rotate90: Sized {
    /// Whether the value may be rotated without leaving its representation.
    spec fn can_rotate(self) -> bool;

    /// The mathematical result of rotating by `facing` quarter turns.
    spec fn spec_rotate_90(self, facing: u8) -> Self;

    /// Rotate by `facing` quarter turns (facing is taken modulo 4).
    fn rotate_90(self, facing: u8) -> (r: Self)
        requires
            self.can_rotate(),
        ensures
            r == self.spec_rotate_90(facing),
    ;
}

impl Rotate90 for Vec2 {
    /// Negation must stay inside `i32`.
    open spec fn can_rotate(self) -> bool {
        self.x > i32::MIN && self.y > i32::MIN
    }

    open spec fn spec_rotate_90(self, facing: u8) -> Vec2 {
        let (rx, ry) = rotate_spec(self.x as int, self.y as int, facing as int);
        Vec2 { x: rx as i32, y: ry as i32 }
    }

    fn rotate_90(self, facing: u8) -> (r: Vec2) {
        match facing % 4 {
            0 => self,
            1 => Vec2 { x: -self.y, y: self.x },
            2 => Vec2 { x: -self.x, y: -self.y },
            _ => Vec2 { x: self.y, y: -self.x },
        }
    }
}

/// Rotating four times by any single facing step count returns to the start:
/// the quarter-turn rotations form a group of order dividing 4.
pub proof fn lemma_rotate_four(x: int, y: int, facing: int)
    ensures
        ({
            let r1 = rotate_spec(x, y, facing);
            let r2 = rotate_spec(r1.0, r1.1, facing);
            let r3 = rotate_spec(r2.0, r2.1, facing);
            rotate_spec(r3.0, r3.1, facing) == (x, y)
        }),
{
}

/// Rotation is injective: distinct vectors stay distinct under the same facing.
pub proof fn lemma_rotate_injective(x1: int, y1: int, x2: int, y2: int, facing: int)
    requires
        rotate_spec(x1, y1, facing) == rotate_spec(x2, y2, facing),
    ensures
        x1 == x2 && y1 == y2,
{
}

/// The x coordinate of the `i`-th offset of `k`, rotated by `facing`.
pub open spec fn rot_x(k: Tetromino, facing: int, i: int) -> int {
    rotate_spec(offset_spec(k, i).0, offset_spec(k, i).1, facing).0
}

/// The y coordinate of the `i`-th offset of `k`, rotated by `facing`.
pub open spec fn rot_y(k: Tetromino, facing: int, i: int) -> int {
    rotate_spec(offset_spec(k, i).0, offset_spec(k, i).1, facing).1
}

/// The `i`-th cell of a piece of kind `k` with origin `pos` and the given
/// facing: origin plus rotated offset.
pub open spec fn block_spec(k: Tetromino, pos: Vec2, facing: int, i: int) -> (int, int) {
    (pos.x + rot_x(k, facing, i), pos.y + rot_y(k, facing, i))
}

/// Every canonical offset lies in a 4x3 box around the origin.
pub proof fn lemma_offsets_bounded(k: Tetromino)
    ensures
        forall|i: int| 0 <= i < 4 ==> -1 <= #[trigger] offset_spec(k, i).0 <= 2,
        forall|i: int| 0 <= i < 4 ==> -1 <= #[trigger] offset_spec(k, i).1 <= 1,
{
}

/// Every rotated offset stays within distance 2 of the origin on each axis.
pub proof fn lemma_rot_bounded(k: Tetromino, facing: int)
    ensures
        forall|i: int| 0 <= i < 4 ==> -2 <= #[trigger] rot_x(k, facing, i) <= 2,
        forall|i: int| 0 <= i < 4 ==> -2 <= #[trigger] rot_y(k, facing, i) <= 2,
{
    lemma_offsets_bounded(k);
}

/// The four offsets of any kind are pairwise distinct, and so are the four
/// cells of any pose: a piece always covers exactly 4 distinct coordinates.
pub proof fn lemma_blocks_distinct(k: Tetromino, pos: Vec2, facing: int)
    ensures
        forall|i: int, j: int|
            0 <= i < 4 && 0 <= j < 4 && i != j ==> #[trigger] block_spec(k, pos, facing, i)
                != #[trigger] block_spec(k, pos, facing, j),
{
    assert forall|i: int, j: int|
        0 <= i < 4 && 0 <= j < 4 && i != j implies #[trigger] block_spec(k, pos, facing, i)
        != #[trigger] block_spec(k, pos, facing, j) by {
        if block_spec(k, pos, facing, i) == block_spec(k, pos, facing, j) {
            lemma_rotate_injective(
                offset_spec(k, i).0,
                offset_spec(k, i).1,
                offset_spec(k, j).0,
                offset_spec(k, j).1,
                facing,
            );
        }
    }
}

/// The smaller of two integers.
pub open spec fn min2(a: int, b: int) -> int {
    if a <= b {
        a
    } else {
        b
    }
}

/// The larger of two integers.
pub open spec fn max2(a: int, b: int) -> int {
    if a >= b {
        a
    } else {
        b
    }
}

/// Smallest x coordinate of the four rotated offsets of `k` under `facing`.
pub open spec fn min_x_spec(k: Tetromino, facing: int) -> int {
    min2(min2(rot_x(k, facing, 0), rot_x(k, facing, 1)), min2(rot_x(k, facing, 2), rot_x(k, facing, 3)))
}

/// Largest x coordinate of the four rotated offsets of `k` under `facing`.
pub open spec fn max_x_spec(k: Tetromino, facing: int) -> int {
    max2(max2(rot_x(k, facing, 0), rot_x(k, facing, 1)), max2(rot_x(k, facing, 2), rot_x(k, facing, 3)))
}

/// Smallest y coordinate of the four rotated offsets of `k` under `facing`.
pub open spec fn min_y_spec(k: Tetromino, facing: int) -> int {
    min2(min2(rot_y(k, facing, 0), rot_y(k, facing, 1)), min2(rot_y(k, facing, 2), rot_y(k, facing, 3)))
}

/// Largest y coordinate of the four rotated offsets of `k` under `facing`.
pub open spec fn max_y_spec(k: Tetromino, facing: int) -> int {
    max2(max2(rot_y(k, facing, 0), rot_y(k, facing, 1)), max2(rot_y(k, facing, 2), rot_y(k, facing, 3)))
}

/// The extents bound every rotated offset, are attained, and lie within
/// distance 2 of the origin.
pub proof fn lemma_extent(k: Tetromino, facing: int)
    ensures
        forall|i: int|
            0 <= i < 4 ==> min_x_spec(k, facing) <= #[trigger] rot_x(k, facing, i) <= max_x_spec(
                k,
                facing,
            ),
        forall|i: int|
            0 <= i < 4 ==> min_y_spec(k, facing) <= #[trigger] rot_y(k, facing, i) <= max_y_spec(
                k,
                facing,
            ),
        -2 <= min_x_spec(k, facing) <= max_x_spec(k, facing) <= 2,
        -2 <= min_y_spec(k, facing) <= max_y_spec(k, facing) <= 2,
{
    lemma_rot_bounded(k, facing);
}

/// The piece kind that each index of a uniform draw from 0 to 6 stands for.
pub open spec fn kind_of_index(i: int) -> Tetromino {
    if i == 0 {
        Tetromino::IBlock
    } else if i == 1 {
        Tetromino::OBlock
    } else if i == 2 {
        Tetromino::TBlock
    } else if i == 3 {
        Tetromino::SBlock
    } else if i == 4 {
        Tetromino::ZBlock
    } else if i == 5 {
        Tetromino::JBlock
    } else {
        Tetromino::LBlock
    }
}

/// The uniform-draw index mapped to its piece kind.
pub fn tetromino_from_index(i: i32) -> (k: Tetromino)
    requires
        0 <= i < 7,
    ensures
        k === kind_of_index(i as int),
{
    match i {
        0 => Tetromino::IBlock,
        1 => Tetromino::OBlock,
        2 => Tetromino::TBlock,
        3 => Tetromino::SBlock,
        4 => Tetromino::ZBlock,
        5 => Tetromino::JBlock,
        _ => Tetromino::LBlock,
    }
}

/// A position from which adding any rotated offset cannot overflow `i32`.
pub open spec fn pos_in_range(pos: Vec2) -> bool {
    i32::MIN + 2 <= pos.x as int <= i32::MAX - 2 && i32::MIN + 2 <= pos.y as int <= i32::MAX - 2
}

impl Tetromino {
    /// The four canonical cell offsets of this kind, facing 0.
    pub fn block_offsets(self) -> (r: Vec<Vec2>)
        ensures
            r@.len() == 4,
            forall|i: int|
                0 <= i < 4 ==> ((#[trigger] r@[i]).x as int, r@[i].y as int) == offset_spec(
                    self,
                    i,
                ),
    {
        let mut r: Vec<Vec2> = Vec::new();
        match self {
            Tetromino::IBlock => {
                r.push(Vec2 { x: 0, y: 0 });
                r.push(Vec2 { x: 1, y: 0 });
                r.push(Vec2 { x: 2, y: 0 });
                r.push(Vec2 { x: -1, y: 0 });
            },
            Tetromino::OBlock => {
                r.push(Vec2 { x: 0, y: 0 });
                r.push(Vec2 { x: 1, y: 0 });
                r.push(Vec2 { x: 0, y: 1 });
                r.push(Vec2 { x: 1, y: 1 });
            },
            Tetromino::TBlock => {
                r.push(Vec2 { x: 0, y: 0 });
                r.push(Vec2 { x: 0, y: 1 });
                r.push(Vec2 { x: -1, y: 0 });
                r.push(Vec2 { x: 1, y: 0 });
            },
            Tetromino::SBlock => {
                r.push(Vec2 { x: 0, y: 0 });
                r.push(Vec2 { x: 0, y: 1 });
                r.push(Vec2 { x: 1, y: 0 });
                r.push(Vec2 { x: -1, y: 1 });
            },
            Tetromino::ZBlock => {
                r.push(Vec2 { x: 0, y: 0 });
                r.push(Vec2 { x: 0, y: 1 });
                r.push(Vec2 { x: -1, y: 0 });
                r.push(Vec2 { x: 1, y: 1 });
            },
            Tetromino::LBlock => {
                r.push(Vec2 { x: 0, y: 0 });
                r.push(Vec2 { x: 0, y: 1 });
                r.push(Vec2 { x: 0, y: -1 });
                r.push(Vec2 { x: -1, y: -1 });
            },
            Tetromino::JBlock => {
                r.push(Vec2 { x: 0, y: 0 });
                r.push(Vec2 { x: 0, y: 1 });
                r.push(Vec2 { x: 0, y: -1 });
                r.push(Vec2 { x: 1, y: -1 });
            },
        }
        r
    }

    /// The four cells occupied by this kind at origin `pos` with the given
    /// facing: each is `pos + rotate(offset, facing)`.
    pub fn blocks(self, pos: Vec2, facing: u8) -> (r: Vec<Vec2>)
        requires
            pos_in_range(pos),
        ensures
            r@.len() == 4,
            forall|i: int|
                0 <= i < 4 ==> ((#[trigger] r@[i]).x as int, r@[i].y as int) == block_spec(
                    self,
                    pos,
                    facing as int,
                    i,
                ),
    {
        proof {
            lemma_rot_bounded(self, facing as int);
        }
        let offsets = self.block_offsets();
        let mut r: Vec<Vec2> = Vec::new();
        let mut i: usize = 0;
        while i < 4
            invariant
                pos_in_range(pos),
                offsets@.len() == 4,
                forall|j: int|
                    0 <= j < 4 ==> ((#[trigger] offsets@[j]).x as int, offsets@[j].y as int)
                        == offset_spec(self, j),
                forall|j: int| 0 <= j < 4 ==> -2 <= #[trigger] rot_x(self, facing as int, j) <= 2,
                forall|j: int| 0 <= j < 4 ==> -2 <= #[trigger] rot_y(self, facing as int, j) <= 2,
                i <= 4,
                r@.len() == i as int,
                forall|j: int|
                    0 <= j < i as int ==> ((#[trigger] r@[j]).x as int, r@[j].y as int)
                        == block_spec(self, pos, facing as int, j),
            decreases 4 - i as int,
        {
            let o = offsets[i];
            let rotated = o.rotate_90(facing);
            r.push(Vec2 { x: pos.x + rotated.x, y: pos.y + rotated.y });
            i = i + 1;
        }
        r
    }

    /// Smallest x over the cells of this kind at the origin, under `facing`.
    pub fn min_x(self, facing: u8) -> (r: i32)
        ensures
            r as int == min_x_spec(self, facing as int),
    {
        let b = self.blocks(Vec2 { x: 0, y: 0 }, facing);
        let mut m = b[0].x;
        if b[1].x < m {
            m = b[1].x;
        }
        if b[2].x < m {
            m = b[2].x;
        }
        if b[3].x < m {
            m = b[3].x;
        }
        m
    }

    /// Largest x over the cells of this kind at the origin, under `facing`.
    pub fn max_x(self, facing: u8) -> (r: i32)
        ensures
            r as int == max_x_spec(self, facing as int),
    {
        let b = self.blocks(Vec2 { x: 0, y: 0 }, facing);
        let mut m = b[0].x;
        if b[1].x > m {
            m = b[1].x;
        }
        if b[2].x > m {
            m = b[2].x;
        }
        if b[3].x > m {
            m = b[3].x;
        }
        m
    }

    /// Smallest y over the cells of this kind at the origin, under `facing`.
    pub fn min_y(self, facing: u8) -> (r: i32)
        ensures
            r as int == min_y_spec(self, facing as int),
    {
        let b = self.blocks(Vec2 { x: 0, y: 0 }, facing);
        let mut m = b[0].y;
        if b[1].y < m {
            m = b[1].y;
        }
        if b[2].y < m {
            m = b[2].y;
        }
        if b[3].y < m {
            m = b[3].y;
        }
        m
    }

    /// Largest y over the cells of this kind at the origin, under `facing`.
    pub fn max_y(self, facing: u8) -> (r: i32)
        ensures
            r as int == max_y_spec(self, facing as int),
    {
        let b = self.blocks(Vec2 { x: 0, y: 0 }, facing);
        let mut m = b[0].y;
        if b[1].y > m {
            m = b[1].y;
        }
        if b[2].y > m {
            m = b[2].y;
        }
        if b[3].y > m {
            m = b[3].y;
        }
        m
    }

    /// The red, green and blue components of this kind's fixed colour.
    pub fn color(self) -> (r: (u8, u8, u8))
        ensures
            r === color_spec(self),
    {
        match self {
            Tetromino::IBlock => (66, 241, 244),
            Tetromino::OBlock => (233, 237, 42),
            Tetromino::TBlock => (182, 42, 237),
            Tetromino::SBlock => (88, 237, 42),
            Tetromino::ZBlock => (226, 50, 27),
            Tetromino::JBlock => (22, 75, 221),
            Tetromino::LBlock => (219, 108, 17),
        }
    }
}

/// The screen rectangle of an on-board cell, as x, y, width and height in
/// pixels: each cell is a fixed-size square on a grid anchored at the origin.
pub fn block_rect(block: Vec2) -> (r: (i32, i32, i32, i32))
    requires
        0 <= (block.x as int) && (block.x as int) < crate::GRID_WIDTH,
        0 <= (block.y as int) && (block.y as int) < crate::GRID_HEIGHT,
    ensures
        r.0 == block.x * (crate::CELL_PIXEL_SIZE as i32),
        r.1 == block.y * (crate::CELL_PIXEL_SIZE as i32),
        r.2 == crate::CELL_PIXEL_SIZE as i32,
        r.3 == crate::CELL_PIXEL_SIZE as i32,
{
    let side = crate::CELL_PIXEL_SIZE as i32;
    (block.x * side, block.y * side, side, side)
}

/// The fixed RGB colour of each piece kind, for a rendering layer.
pub open spec fn color_spec(k: Tetromino) -> (u8, u8, u8) {
    match k {
        Tetromino::IBlock => (66u8, 241u8, 244u8),
        Tetromino::OBlock => (233u8, 237u8, 42u8),
        Tetromino::TBlock => (182u8, 42u8, 237u8),
        Tetromino::SBlock => (88u8, 237u8, 42u8),
        Tetromino::ZBlock => (226u8, 50u8, 27u8),
        Tetromino::JBlock => (22u8, 75u8, 221u8),
        Tetromino::LBlock => (219u8, 108u8, 17u8),
    }
}

} // verus!
