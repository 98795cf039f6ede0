//! The snake: a head, an ordered body, and its movement and growth.
use vstd::prelude::*;
use crate::block::{Block, Collited, Color, Direction, dx, dy, opposite, unit};
use crate::collision::{Collision, hits};

verus! {

/// The speed of a new snake, in hundredths of a step per second.
pub const INITIAL_VELOCITY: u64 = 600;

/// The speed gained with each fruit, in hundredths of a step per second.
pub const VELOCITY_STEP: u64 = 1;

/// The snake: a head block, the body blocks from the one nearest the head to
/// the tail, and its motion state.
#[derive(Debug, Clone)]
pub struct Snake {
    pub head: Block,
    pub body: Vec<Block>,
    /// Hundredths of a simulation step per second.
    pub velocity: u64,
    pub direction: Direction,
    /// Set by an accepted turn, cleared at each simulation step.
    pub direction_lock: bool,
    /// Set by eating; the next move keeps the tail.
    pub growth_flag: bool,
}

/// A block moved one unit step in direction `d`.
pub open spec fn stepped(b: Block, d: Direction) -> Block {
    Block { pos_x: (b.pos_x + dx(d)) as i32, pos_y: (b.pos_y + dy(d)) as i32, ..b }
}

/// The body segment that the head leaves behind when it moves.
pub open spec fn segment(head: Block) -> Block {
    Block { color: Color::White, ..head }
}

/// The body after one move: the old head's cell in front, then the old body
/// without its last block, which is kept only when growing.
pub open spec fn moved_body(head: Block, body: Seq<Block>, grow: bool) -> Seq<Block> {
    (seq![segment(head)] + body).take(
        body.len() + if grow {
            1int
        } else {
            0
        },
    )
}

/// The snake after a turn request towards `d`: turned and locked when no turn
/// was taken since the last step and `d` is not the exact reverse of its
/// direction, unchanged otherwise.
pub open spec fn turned(s: Snake, d: Direction) -> Snake {
    if !s.direction_lock && d != opposite(s.direction) {
        Snake { direction: d, direction_lock: true, ..s }
    } else {
        s
    }
}

/// `post` is `pre` after one move, with `grow` deciding whether the tail is
/// kept; the direction is untouched.
pub open spec fn moved(pre: Snake, post: Snake, grow: bool) -> bool {
    &&& post.head == stepped(pre.head, pre.direction)
    &&& post.body@ == moved_body(pre.head, pre.body@, grow)
    &&& !post.growth_flag
    &&& post.direction == pre.direction
}

/// The four body blocks of a new snake whose head stands at `(cx, cy)`.
pub open spec fn initial_body(cx: int, cy: int) -> Seq<Block> {
    Seq::new(
        4,
        |i: int|
            Block {
                pos_x: (cx + 1 + i) as i32,
                pos_y: cy as i32,
                collited: Collited::WithSnake,
                color: Color::White,
            },
    )
}

impl Snake {
    /// Every block of the snake reports a snake collision, and it is at least
    /// as fast as a new snake.
    pub open spec fn wf(&self) -> bool {
        &&& self.head.collited == Collited::WithSnake
        &&& forall|i: int| 0 <= i < self.body@.len() ==> (#[trigger] self.body@[i]).collited
            == Collited::WithSnake
        &&& INITIAL_VELOCITY <= self.velocity
    }

    /// The snake is the one a new session starts with in a `w` by `h` area:
    /// head in the centre, four body blocks trailing to its right, heading left.
    pub open spec fn is_initial(&self, w: int, h: int) -> bool {
        &&& self.head == (Block {
            pos_x: (w / 2) as i32,
            pos_y: (h / 2) as i32,
            collited: Collited::WithSnake,
            color: Color::Red,
        })
        &&& self.body@ == initial_body(w / 2, h / 2)
        &&& self.velocity == INITIAL_VELOCITY
        &&& self.direction == Direction::Left
        &&& !self.direction_lock
        &&& !self.growth_flag
    }

    /// The head lands on a block of the body.
    pub open spec fn hits_itself(&self) -> bool {
        self.head.collited != Collited::NoCollision && hits(self.body@, self.head)
    }

    /// The snake a session starts with, in the centre of the play area.
    pub fn new(horizontal_block_num: u32, vertical_block_num: u32) -> (snake: Snake)
        requires
            horizontal_block_num / 2 + 4 <= i32::MAX,
        ensures
            snake.is_initial(horizontal_block_num as int, vertical_block_num as int),
            snake.wf(),
    {
        let center_x = (horizontal_block_num / 2) as i32;
        let center_y = (vertical_block_num / 2) as i32;
        let mut body: Vec<Block> = Vec::new();
        let mut k: i32 = 1;
        while k <= 4
            invariant
                1 <= k <= 5,
                center_x == horizontal_block_num / 2,
                center_x + 4 <= i32::MAX,
                body@ == initial_body(center_x as int, center_y as int).take(k - 1),
            decreases 5 - k,
        {
            body.push(Block::new(center_x + k, center_y, Collited::WithSnake, Color::White));
            assert(body@ =~= initial_body(center_x as int, center_y as int).take(k as int));
            k = k + 1;
        }
        assert(body@ =~= initial_body(center_x as int, center_y as int));
        Snake {
            head: Block::new(center_x, center_y, Collited::WithSnake, Color::Red),
            body,
            velocity: INITIAL_VELOCITY,
            direction: Direction::Left,
            direction_lock: false,
            growth_flag: false,
        }
    }

    /// Whether the head stands on a block of the body.
    pub fn is_colliting_with_self(&self) -> (r: bool)
        ensures
            r == self.hits_itself(),
    {
        let mut i: usize = 0;
        while i < self.body.len()
            invariant
                i <= self.body@.len(),
                forall|k: int|
                    0 <= k < i ==> !crate::block::same_cell(#[trigger] self.body@[k], self.head)
                        || self.head.collited == Collited::NoCollision,
            decreases self.body@.len() - i,
        {
            let hit = self.head.is_collited_by_block(&self.body[i]);
            if hit != Collited::NoCollision {
                assert(crate::block::same_cell(self.body@[i as int], self.head));
                return true;
            }
            assert(self.head.cells()[0] == self.head);
            i = i + 1;
        }
        false
    }

    /// Eating: the next move keeps the tail, and the snake speeds up.
    pub fn growth_action(&mut self)
        requires
            old(self).velocity <= u64::MAX - VELOCITY_STEP,
        ensures
            *final(self) == (Snake {
                growth_flag: true,
                velocity: (old(self).velocity + VELOCITY_STEP) as u64,
                ..*old(self)
            }),
    {
        self.growth_flag = true;
        self.velocity = self.velocity + VELOCITY_STEP;
    }

    /// One step: the head moves a unit in its direction and each body block
    /// takes the place of the one before it; a pending growth keeps the tail
    /// and is then cleared.
    pub fn moving(&mut self)
        requires
            i32::MIN <= old(self).head.pos_x + dx(old(self).direction) <= i32::MAX,
            i32::MIN <= old(self).head.pos_y + dy(old(self).direction) <= i32::MAX,
        ensures
            moved(*old(self), *final(self), old(self).growth_flag),
            final(self).velocity == old(self).velocity,
            final(self).direction_lock == old(self).direction_lock,
            old(self).wf() ==> final(self).wf(),
    {
        let (x, y) = unit(self.direction);
        let mut pre_block = self.head;
        pre_block.color = Color::White;

        self.head.pos_x = self.head.pos_x + x;
        self.head.pos_y = self.head.pos_y + y;

        let ghost front = seq![segment(old(self).head)] + old(self).body@;
        let mut blocks: Vec<Block> = Vec::new();
        let mut i: usize = 0;
        while i < self.body.len()
            invariant
                i <= self.body@.len(),
                self.body@ == old(self).body@,
                front == seq![segment(old(self).head)] + old(self).body@,
                blocks@ == front.take(i as int),
                pre_block == front[i as int],
            decreases self.body@.len() - i,
        {
            blocks.push(pre_block);
            pre_block = self.body[i];
            assert(blocks@ =~= front.take(i + 1));
            i = i + 1;
        }

        if self.growth_flag {
            blocks.push(pre_block);
            self.growth_flag = false;
        }
        assert(blocks@ =~= moved_body(old(self).head, old(self).body@, old(self).growth_flag));
        self.body = blocks;
        proof {
            if old(self).wf() {
                assert forall|k: int| 0 <= k < self.body@.len() implies (
                #[trigger] self.body@[k]).collited == Collited::WithSnake by {
                    if k > 0 {
                        assert(self.body@[k] == old(self).body@[k - 1]);
                    }
                }
            }
        }
    }

    /// Turns towards `new_direction` unless a turn was already taken since
    /// the last step or `new_direction` is the exact reverse of the current
    /// one. An accepted turn locks further turns until the next step.
    pub fn try_turn(&mut self, new_direction: Direction) -> (accepted: bool)
        ensures
            accepted == (!old(self).direction_lock && new_direction != opposite(
                old(self).direction,
            )),
            *final(self) == turned(*old(self), new_direction),
    {
        let reverse = match self.direction {
            Direction::Up => Direction::Down,
            Direction::Down => Direction::Up,
            Direction::Left => Direction::Right,
            Direction::Right => Direction::Left,
        };
        if self.direction_lock || new_direction == reverse {
            false
        } else {
            self.direction = new_direction;
            self.direction_lock = true;
            true
        }
    }
}

} // verus!
