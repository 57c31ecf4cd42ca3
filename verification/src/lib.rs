use vstd::prelude::*;

pub mod board;
pub mod engine;
pub mod geometry;
mod rng;

verus! {

/// Number of columns on the board.
pub const GRID_WIDTH: usize = 16;

/// Number of rows on the board; row 0 is the top.
pub const GRID_HEIGHT: usize = 32;

/// Milliseconds between two automatic descent ticks
/// (two updates per second).
pub const MILLIS_PER_UPDATE: u64 = 500;

/// Pixel width and height of one cell, for a rendering layer.
pub const CELL_PIXEL_SIZE: u32 = 32;

} // verus!
