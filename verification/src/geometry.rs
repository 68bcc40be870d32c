//! Arena geometry: the fixed playing field, the square cells that move on
//! it, the cardinal directions, and the overlap and bounds tests that the
//! game rules are built from.

use vstd::prelude::*;

verus! {

/// Arena width in pixel units.
pub const ARENA_W: i32 = 600;

/// Arena height in pixel units.
pub const ARENA_H: i32 = 400;

/// Side length of one square cell.
pub const CELL_SIZE: i32 = 20;

/// Distance the head travels in one movement tick: the cell size plus a
/// one-unit visual gap.
pub const STEP: i32 = 21;

/// Exclusive upper bound on the x coordinate handed out for a freshly
/// placed head or berry, chosen so a whole cell fits inside the arena.
pub const SPAWN_MAX_X: i32 = 500;

/// Exclusive upper bound on the y coordinate handed out for a freshly
/// placed head or berry.
pub const SPAWN_MAX_Y: i32 = 300;

/// An axis-aligned `CELL_SIZE` x `CELL_SIZE` square whose top-left corner
/// sits at `(x, y)`, in pixel coordinates.
#[derive(Clone, Copy, PartialEq, Eq, Structural, Debug)]
pub struct Cell {
    pub x: i32,
    pub y: i32,
}

/// A cardinal movement direction.
#[derive(Clone, Copy, PartialEq, Eq, Structural, Debug)]
pub enum Direction {
    Up,
    Down,
    Left,
    Right,
}

/// Horizontal displacement of one movement step in direction `d`.
pub open spec fn dx(d: Direction) -> int {
    match d {
        Direction::Left => -(STEP as int),
        Direction::Right => STEP as int,
        Direction::Up => 0,
        Direction::Down => 0,
    }
}

/// Vertical displacement of one movement step in direction `d`.
pub open spec fn dy(d: Direction) -> int {
    match d {
        Direction::Up => -(STEP as int),
        Direction::Down => STEP as int,
        Direction::Left => 0,
        Direction::Right => 0,
    }
}

/// The direction exactly opposite to `d`.
pub open spec fn opposite(d: Direction) -> Direction {
    match d {
        Direction::Up => Direction::Down,
        Direction::Down => Direction::Up,
        Direction::Left => Direction::Right,
        Direction::Right => Direction::Left,
    }
}

/// The cell one movement step away from `c` in direction `d`.
pub open spec fn moved_cell(c: Cell, d: Direction) -> Cell {
    Cell { x: (c.x + dx(d)) as i32, y: (c.y + dy(d)) as i32 }
}

/// Two cells overlap when their open squares intersect: each corner lies
/// strictly less than one cell size away from the other in both axes.
pub open spec fn cells_overlap(a: Cell, b: Cell) -> bool {
    &&& a.x < b.x + CELL_SIZE
    &&& b.x < a.x + CELL_SIZE
    &&& a.y < b.y + CELL_SIZE
    &&& b.y < a.y + CELL_SIZE
}

/// A head position is in bounds while it lies inside the arena rectangle,
/// borders included: a head exactly on the border is still in bounds.
pub open spec fn in_bounds(c: Cell) -> bool {
    0 <= c.x <= ARENA_W && 0 <= c.y <= ARENA_H
}

/// The range in which fresh head and berry positions are handed out.
pub open spec fn in_spawn_range(c: Cell) -> bool {
    0 <= c.x < SPAWN_MAX_X && 0 <= c.y < SPAWN_MAX_Y
}

/// Overlap test on two cells, computed in 64-bit arithmetic so that it is
/// total over all 32-bit coordinates.
pub fn overlaps(a: &Cell, b: &Cell) -> (r: bool)
    ensures
        r == cells_overlap(*a, *b),
{
    let ax = a.x as i64;
    let ay = a.y as i64;
    let bx = b.x as i64;
    let by = b.y as i64;
    let size = CELL_SIZE as i64;
    ax < bx + size && bx < ax + size && ay < by + size && by < ay + size
}

/// Bounds test for a head position, per the arena rectangle.
pub fn cell_in_bounds(c: &Cell) -> (r: bool)
    ensures
        r == in_bounds(*c),
{
    0 <= c.x && c.x <= ARENA_W && 0 <= c.y && c.y <= ARENA_H
}

} // verus!
