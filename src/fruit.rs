//! The single consumable block.
use vstd::prelude::*;
use crate::block::{Block, Collited, Color};
use crate::random::random_in;

verus! {

/// A block of food; it is replaced, never moved, once eaten.
#[derive(Debug, Clone, Copy)]
pub struct Fruit {
    pub block: Block,
}

/// `b` stands strictly inside the border of a `w` by `h` play area, on a cell
/// that random placement can draw.
pub open spec fn interior(b: Block, w: int, h: int) -> bool {
    1 <= b.pos_x < w - 1 && 1 <= b.pos_y < h - 1
}

impl Fruit {
    /// The fruit block reports a fruit collision.
    pub open spec fn wf(&self) -> bool {
        self.block.collited == Collited::WithFruit
    }

    /// A fruit on the cell `(pos_x, pos_y)`.
    pub fn new(pos_x: i32, pos_y: i32) -> (f: Fruit)
        ensures
            f.block == (Block { pos_x, pos_y, collited: Collited::WithFruit, color: Color::Green }),
            f.wf(),
    {
        Fruit { block: Block::new(pos_x, pos_y, Collited::WithFruit, Color::Green) }
    }

    /// A fruit on a cell drawn uniformly from the interior of the play area.
    pub fn randnew(horizontal_block_num: u32, vertical_block_num: u32) -> (f: Fruit)
        requires
            3 <= horizontal_block_num,
            3 <= vertical_block_num,
            horizontal_block_num - 1 <= i32::MAX,
            vertical_block_num - 1 <= i32::MAX,
        ensures
            f.wf(),
            f.block.color == Color::Green,
            interior(f.block, horizontal_block_num as int, vertical_block_num as int),
    {
        let x = random_in(1, horizontal_block_num - 1);
        let y = random_in(1, vertical_block_num - 1);
        Fruit::new(x as i32, y as i32)
    }
}

} // verus!
