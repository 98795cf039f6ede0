//! The atomic positioned entity of the grid, and the four grid directions.
use vstd::prelude::*;

verus! {

/// What a block reports when something strikes it.
#[derive(Debug, Clone, Copy, PartialEq, Eq, Structural)]
pub enum Collited {
    WithFruit,
    WithSnake,
    WithWall,
    NoCollision,
}

/// How a block is drawn. The simulation carries it along without reading it.
#[derive(Debug, Clone, Copy, PartialEq, Eq, Structural)]
pub enum Color {
    White,
    Red,
    Green,
    LightBlue,
}

/// One grid cell's worth of entity: a position, the kind it reports when
/// struck, and its colour.
#[derive(Debug, Clone, Copy)]
pub struct Block {
    pub pos_x: i32,
    pub pos_y: i32,
    pub collited: Collited,
    pub color: Color,
}

/// Two blocks occupy the same cell.
pub open spec fn same_cell(a: Block, b: Block) -> bool {
    a.pos_x == b.pos_x && a.pos_y == b.pos_y
}

impl Block {
    pub fn new(pos_x: i32, pos_y: i32, collited: Collited, color: Color) -> (b: Block)
        ensures
            b == (Block { pos_x, pos_y, collited, color }),
    {
        Block { pos_x, pos_y, collited, color }
    }
}

/// Blocks are equal when they stand on the same cell.
impl PartialEq for Block {
    fn eq(&self, other: &Block) -> (r: bool) {
        self.pos_x == other.pos_x && self.pos_y == other.pos_y
    }
}

impl vstd::std_specs::cmp::PartialEqSpecImpl for Block {
    open spec fn obeys_eq_spec() -> bool {
        true
    }

    open spec fn eq_spec(&self, other: &Block) -> bool {
        same_cell(*self, *other)
    }
}

/// A direction of travel on the grid; `y` grows downwards.
#[derive(Debug, Clone, Copy, PartialEq, Eq, Structural)]
pub enum Direction {
    Up,
    Down,
    Left,
    Right,
}

/// Horizontal component of the unit step in direction `d`.
pub open spec fn dx(d: Direction) -> int {
    match d {
        Direction::Left => -1,
        Direction::Right => 1,
        _ => 0,
    }
}

/// Vertical component of the unit step in direction `d`.
pub open spec fn dy(d: Direction) -> int {
    match d {
        Direction::Up => -1,
        Direction::Down => 1,
        _ => 0,
    }
}

/// The direction pointing the exact other way.
pub open spec fn opposite(d: Direction) -> Direction {
    match d {
        Direction::Up => Direction::Down,
        Direction::Down => Direction::Up,
        Direction::Left => Direction::Right,
        Direction::Right => Direction::Left,
    }
}

/// The unit step of a direction, as `(dx, dy)`.
pub fn unit(d: Direction) -> (r: (i32, i32))
    ensures
        r.0 == dx(d),
        r.1 == dy(d),
{
    match d {
        Direction::Up => (0, -1),
        Direction::Down => (0, 1),
        Direction::Left => (-1, 0),
        Direction::Right => (1, 0),
    }
}

} // verus!
