//! Collision classification between entities made of blocks.
use vstd::prelude::*;
use crate::block::{Block, Collited, same_cell};
use crate::fruit::Fruit;
use crate::snake::Snake;
use crate::wall::Wall;

verus! {

/// An entity made of blocks that can be struck by a block.
pub trait Collision: Sized {
    /// The blocks that make up the entity, in the order they are examined.
    spec fn cells(&self) -> Seq<Block>;

    /// The kind the entity reports when one of its blocks is struck.
    spec fn kind(&self) -> Collited;

    /// The number of blocks of the entity.
    fn cell_count(&self) -> (n: usize)
        requires
            self.cells().len() <= usize::MAX,
        ensures
            n == self.cells().len(),
    ;

    /// The block at position `i` of the entity.
    fn cell_at(&self, i: usize) -> (b: Block)
        requires
            i < self.cells().len(),
        ensures
            b == self.cells()[i as int],
    ;

    /// What `self` reports when `block` strikes it.
    fn is_collited_by_block(&self, block: &Block) -> (r: Collited)
        ensures
            r == strike(self.cells(), self.kind(), *block),
    ;
}

/// Some block of `cells` stands on the cell of `b`.
pub open spec fn hits(cells: Seq<Block>, b: Block) -> bool {
    exists|i: int| 0 <= i < cells.len() && same_cell(#[trigger] cells[i], b)
}

/// What an entity of blocks `cells` and kind `kind` reports when struck by
/// `b`: its kind if `b` lands on one of its blocks, else no collision.
pub open spec fn strike(cells: Seq<Block>, kind: Collited, b: Block) -> Collited {
    if hits(cells, b) {
        kind
    } else {
        Collited::NoCollision
    }
}

/// The result of striking an entity of blocks `target` and kind `kind` with
/// each block of `strikers` in order, keeping the first hit. Every hit
/// reports the same kind, so the result is that kind when any block of
/// `strikers` shares a cell with a block of `target`.
pub open spec fn meet(strikers: Seq<Block>, target: Seq<Block>, kind: Collited) -> Collited {
    if kind != Collited::NoCollision && exists|i: int|
        0 <= i < strikers.len() && hits(target, #[trigger] strikers[i]) {
        kind
    } else {
        Collited::NoCollision
    }
}

/// Strikes `b` with each block of `a` in order; the first block that hits
/// decides the result.
pub fn classify<A: Collision, B: Collision>(a: &A, b: &B) -> (r: Collited)
    requires
        a.cells().len() <= usize::MAX,
    ensures
        r == meet(a.cells(), b.cells(), b.kind()),
{
    let n = a.cell_count();
    let mut i: usize = 0;
    while i < n
        invariant
            n == a.cells().len(),
            i <= n,
            forall|k: int| 0 <= k < i ==> strike(b.cells(), b.kind(), #[trigger] a.cells()[k])
                == Collited::NoCollision,
        decreases n - i,
    {
        let r = b.is_collited_by_block(&a.cell_at(i));
        if r != Collited::NoCollision {
            assert(hits(b.cells(), a.cells()[i as int]));
            return r;
        }
        i = i + 1;
    }
    assert forall|k: int| 0 <= k < a.cells().len() && b.kind() != Collited::NoCollision implies
        !hits(b.cells(), #[trigger] a.cells()[k]) by {
        assert(strike(b.cells(), b.kind(), a.cells()[k]) == Collited::NoCollision);
    }
    Collited::NoCollision
}

impl Collision for Block {
    open spec fn cells(&self) -> Seq<Block> {
        seq![*self]
    }

    open spec fn kind(&self) -> Collited {
        self.collited
    }

    fn cell_count(&self) -> (n: usize) {
        1
    }

    fn cell_at(&self, i: usize) -> (b: Block) {
        *self
    }

    fn is_collited_by_block(&self, block: &Block) -> (r: Collited) {
        if self.pos_x == block.pos_x && self.pos_y == block.pos_y {
            assert(same_cell(self.cells()[0], *block));
            self.collited
        } else {
            Collited::NoCollision
        }
    }
}

/// What a sequence of blocks reports when struck by `block`, if every block
/// of it reports `kind`.
fn strike_blocks(blocks: &Vec<Block>, kind: Collited, block: &Block) -> (r: Collited)
    ensures
        r == strike(blocks@, kind, *block),
{
    let mut i: usize = 0;
    while i < blocks.len()
        invariant
            i <= blocks@.len(),
            forall|k: int| 0 <= k < i ==> !same_cell(#[trigger] blocks@[k], *block),
        decreases blocks@.len() - i,
    {
        if blocks[i].pos_x == block.pos_x && blocks[i].pos_y == block.pos_y {
            assert(same_cell(blocks@[i as int], *block));
            return kind;
        }
        i = i + 1;
    }
    Collited::NoCollision
}

impl Collision for Wall {
    open spec fn cells(&self) -> Seq<Block> {
        self.bricks@
    }

    open spec fn kind(&self) -> Collited {
        Collited::WithWall
    }

    fn cell_count(&self) -> (n: usize) {
        self.bricks.len()
    }

    fn cell_at(&self, i: usize) -> (b: Block) {
        self.bricks[i]
    }

    fn is_collited_by_block(&self, block: &Block) -> (r: Collited) {
        strike_blocks(&self.bricks, Collited::WithWall, block)
    }
}

impl Collision for Fruit {
    open spec fn cells(&self) -> Seq<Block> {
        seq![self.block]
    }

    open spec fn kind(&self) -> Collited {
        self.block.collited
    }

    fn cell_count(&self) -> (n: usize) {
        1
    }

    fn cell_at(&self, i: usize) -> (b: Block) {
        self.block
    }

    fn is_collited_by_block(&self, block: &Block) -> (r: Collited) {
        let r = self.block.is_collited_by_block(block);
        assert(self.cells() =~= self.block.cells());
        r
    }
}

impl Collision for Snake {
    open spec fn cells(&self) -> Seq<Block> {
        seq![self.head] + self.body@
    }

    open spec fn kind(&self) -> Collited {
        Collited::WithSnake
    }

    fn cell_count(&self) -> (n: usize) {
        self.body.len() + 1
    }

    fn cell_at(&self, i: usize) -> (b: Block) {
        if i == 0 {
            self.head
        } else {
            self.body[i - 1]
        }
    }

    fn is_collited_by_block(&self, block: &Block) -> (r: Collited) {
        if self.head.pos_x == block.pos_x && self.head.pos_y == block.pos_y {
            assert(same_cell(self.cells()[0], *block));
            return Collited::WithSnake;
        }
        let r = strike_blocks(&self.body, Collited::WithSnake, block);
        assert forall|i: int| 0 <= i < self.cells().len() && same_cell(self.cells()[i], *block)
            implies hits(self.body@, *block) by {
            assert(self.cells()[i] == self.body@[i - 1]);
        }
        assert forall|i: int| 0 <= i < self.body@.len() && same_cell(self.body@[i], *block)
            implies hits(self.cells(), *block) by {
            assert(self.cells()[i + 1] == self.body@[i]);
        }
        r
    }
}

/// A block striking a block reports the struck block's kind exactly when the
/// two share a cell, and no collision otherwise.
pub proof fn lemma_block_classify(a: Block, b: Block)
    ensures
        meet(a.cells(), b.cells(), b.kind()) == if same_cell(a, b) {
            b.collited
        } else {
            Collited::NoCollision
        },
{
    assert(a.cells()[0] == a);
    if same_cell(a, b) {
        assert(same_cell(b.cells()[0], a));
        assert(hits(b.cells(), a.cells()[0]));
    }
}

} // verus!
