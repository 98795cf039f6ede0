//! Walls: the fixed border of the play area, and random obstacle chains.
use vstd::prelude::*;
use crate::block::{Block, Collited, Color, Direction, dx, dy};
use crate::fruit::interior;
use crate::random::{coin, random_in};

verus! {

/// An ordered collection of wall bricks.
#[derive(Debug, Clone)]
pub struct Wall {
    pub bricks: Vec<Block>,
}

/// A wall brick at `(x, y)`.
pub open spec fn brick(x: int, y: int) -> Block {
    Block { pos_x: x as i32, pos_y: y as i32, collited: Collited::WithWall, color: Color::LightBlue }
}

/// The cell `(x, y)` lies on the border of the rectangle `[0, w] x [0, h]`.
pub open spec fn on_perimeter(x: int, y: int, w: int, h: int) -> bool {
    &&& 0 <= x <= w
    &&& 0 <= y <= h
    &&& (x == 0 || x == w || y == 0 || y == h)
}

/// Block `b` is one unit step in direction `d` away from block `a`.
pub open spec fn steps_to(a: Block, b: Block, d: Direction) -> bool {
    b.pos_x == a.pos_x + dx(d) && b.pos_y == a.pos_y + dy(d)
}

/// Blocks `a` and `b` are side by side on the grid.
pub open spec fn adjacent(a: Block, b: Block) -> bool {
    ||| b.pos_x == a.pos_x && (b.pos_y == a.pos_y + 1 || b.pos_y == a.pos_y - 1)
    ||| b.pos_y == a.pos_y && (b.pos_x == a.pos_x + 1 || b.pos_x == a.pos_x - 1)
}

/// The coordinates of a walk of `steps` unit steps from a cell of the
/// `w` by `h` area stay within the range of `i32`.
pub open spec fn walk_fits(w: int, h: int, steps: int) -> bool {
    w + steps <= i32::MAX && h + steps <= i32::MAX
}

/// The shorter side of a `w` by `h` play area.
pub open spec fn shorter_side(w: int, h: int) -> int {
    if w < h {
        w
    } else {
        h
    }
}

impl Wall {
    /// Every brick reports a wall collision.
    pub open spec fn wf(&self) -> bool {
        forall|i: int| 0 <= i < self.bricks@.len() ==> (#[trigger] self.bricks@[i]).collited
            == Collited::WithWall
    }

    /// The wall is exactly the border of the rectangle `[0, w] x [0, h]`:
    /// every brick is a light blue wall brick on the border, and every border
    /// cell holds a brick.
    pub open spec fn is_board(&self, w: int, h: int) -> bool {
        &&& self.wf()
        &&& forall|i: int| #![trigger self.bricks@[i]]
            0 <= i < self.bricks@.len() ==> on_perimeter(
                self.bricks@[i].pos_x as int,
                self.bricks@[i].pos_y as int,
                w,
                h,
            ) && self.bricks@[i].color == Color::LightBlue
        &&& forall|x: int, y: int| #[trigger]
            on_perimeter(x, y, w, h) ==> exists|i: int|
                0 <= i < self.bricks@.len() && (#[trigger] self.bricks@[i]).pos_x == x
                    && self.bricks@[i].pos_y == y
    }

    /// The wall is a chain of light blue wall bricks, each one unit step from
    /// the one before it.
    pub open spec fn is_chain(&self) -> bool {
        &&& forall|i: int| #![trigger self.bricks@[i]]
            0 <= i < self.bricks@.len() ==> self.bricks@[i] == brick(
                self.bricks@[i].pos_x as int,
                self.bricks@[i].pos_y as int,
            )
        &&& forall|i: int|
            0 < i < self.bricks@.len() ==> adjacent(
                self.bricks@[i - 1],
                #[trigger] self.bricks@[i],
            )
    }

    /// The border of the play area `circus = [width, height]`: two rows at
    /// `y = 0` and `y = height` spanning `x` in `[0, width]`, and two columns at
    /// `x = 0` and `x = width` between them.
    pub fn board_wall(circus: &[u32; 2]) -> (wall: Wall)
        requires
            circus[0] <= i32::MAX,
            circus[1] <= i32::MAX,
        ensures
            wall.is_board(circus[0] as int, circus[1] as int),
    {
        let width = circus[0] as i32;
        let height = circus[1] as i32;
        let mut bricks: Vec<Block> = Vec::new();

        let mut i: i64 = 0;
        while i <= width as i64
            invariant
                0 <= i <= width as i64 + 1,
                bricks@.len() == 2 * i,
                forall|x: int|
                    0 <= x < i ==> bricks@[2 * x] == brick(x, height as int) && bricks@[2 * x + 1]
                        == brick(x, 0),
            decreases width as i64 + 1 - i,
        {
            bricks.push(Block::new(i as i32, height, Collited::WithWall, Color::LightBlue));
            bricks.push(Block::new(i as i32, 0, Collited::WithWall, Color::LightBlue));
            i = i + 1;
        }

        let top = bricks.len();
        let mut j: i64 = 1;
        while j < height as i64
            invariant
                top == 2 * (width as int + 1),
                1 <= j <= height as i64 || (j == 1 && height == 0),
                bricks@.len() == top + 2 * (j - 1),
                forall|x: int|
                    0 <= x <= width ==> bricks@[2 * x] == brick(x, height as int) && bricks@[2 * x + 1]
                        == brick(x, 0),
                forall|y: int|
                    1 <= y < j ==> bricks@[top + 2 * (y - 1)] == brick(0, y) && bricks@[top + 2 * (y
                        - 1) + 1] == brick(width as int, y),
            decreases height as i64 - j,
        {
            bricks.push(Block::new(0, j as i32, Collited::WithWall, Color::LightBlue));
            bricks.push(Block::new(width, j as i32, Collited::WithWall, Color::LightBlue));
            j = j + 1;
        }

        let wall = Wall { bricks };
        let ghost w = width as int;
        let ghost h = height as int;
        assert forall|k: int| 0 <= k < wall.bricks@.len() implies on_perimeter(
            wall.bricks@[k].pos_x as int,
            wall.bricks@[k].pos_y as int,
            w,
            h,
        ) && wall.bricks@[k].color == Color::LightBlue && wall.bricks@[k].collited
            == Collited::WithWall by {
            if k < top {
                let x = k / 2;
                assert(wall.bricks@[2 * x] == brick(x, h));
                assert(wall.bricks@[2 * x + 1] == brick(x, 0));
                assert(k == 2 * x || k == 2 * x + 1);
            } else {
                let y = (k - top) / 2 + 1;
                assert(wall.bricks@[top + 2 * (y - 1)] == brick(0, y));
                assert(wall.bricks@[top + 2 * (y - 1) + 1] == brick(w, y));
                assert(k == top + 2 * (y - 1) || k == top + 2 * (y - 1) + 1);
            }
        }
        assert forall|x: int, y: int| #[trigger] on_perimeter(x, y, w, h) implies exists|k: int|
            0 <= k < wall.bricks@.len() && (#[trigger] wall.bricks@[k]).pos_x == x
                && wall.bricks@[k].pos_y == y by {
            if y == h {
                assert(wall.bricks@[2 * x] == brick(x, h));
            } else if y == 0 {
                assert(wall.bricks@[2 * x + 1] == brick(x, 0));
            } else if x == 0 {
                assert(wall.bricks@[top + 2 * (y - 1)] == brick(0, y));
            } else {
                assert(wall.bricks@[top + 2 * (y - 1) + 1] == brick(w, y));
            }
        }
        wall
    }

    /// The chain that starts at `(anchor_x, anchor_y)` and takes one unit
    /// step along each of `moves` in turn: one brick more than there are moves.
    pub fn walk(anchor_x: i32, anchor_y: i32, moves: &Vec<Direction>) -> (wall: Wall)
        requires
            anchor_x - moves@.len() >= i32::MIN,
            anchor_x + moves@.len() <= i32::MAX,
            anchor_y - moves@.len() >= i32::MIN,
            anchor_y + moves@.len() <= i32::MAX,
        ensures
            wall.bricks@.len() == moves@.len() + 1,
            wall.bricks@[0] == brick(anchor_x as int, anchor_y as int),
            forall|i: int| #![trigger wall.bricks@[i]]
                0 <= i < wall.bricks@.len() ==> wall.bricks@[i] == brick(
                    wall.bricks@[i].pos_x as int,
                    wall.bricks@[i].pos_y as int,
                ),
            forall|i: int|
                0 <= i < moves@.len() ==> steps_to(
                    wall.bricks@[i],
                    wall.bricks@[i + 1],
                    #[trigger] moves@[i],
                ),
    {
        let mut bricks: Vec<Block> = Vec::new();
        bricks.push(Block::new(anchor_x, anchor_y, Collited::WithWall, Color::LightBlue));
        let mut x = anchor_x;
        let mut y = anchor_y;
        let mut i: usize = 0;
        while i < moves.len()
            invariant
                i <= moves@.len(),
                bricks@.len() == i + 1,
                bricks@[0] == brick(anchor_x as int, anchor_y as int),
                bricks@[i as int] == brick(x as int, y as int),
                anchor_x - i <= x <= anchor_x + i,
                anchor_y - i <= y <= anchor_y + i,
                anchor_x - moves@.len() >= i32::MIN,
                anchor_x + moves@.len() <= i32::MAX,
                anchor_y - moves@.len() >= i32::MIN,
                anchor_y + moves@.len() <= i32::MAX,
                forall|k: int| #![trigger bricks@[k]]
                    0 <= k < bricks@.len() ==> bricks@[k] == brick(
                        bricks@[k].pos_x as int,
                        bricks@[k].pos_y as int,
                    ),
                forall|k: int|
                    0 <= k < i ==> steps_to(bricks@[k], bricks@[k + 1], #[trigger] moves@[k]),
            decreases moves@.len() - i,
        {
            let step = crate::block::unit(moves[i]);
            x = x + step.0;
            y = y + step.1;
            bricks.push(Block::new(x, y, Collited::WithWall, Color::LightBlue));
            i = i + 1;
        }
        Wall { bricks }
    }

    /// An obstacle: a random walk of `brick_num` bricks (a number drawn from
    /// `[1, min(width, height) / 2)` when none is given) from an anchor drawn
    /// uniformly from the interior of the play area `circus = [width, height]`.
    /// Each step picks an axis and a sign with even odds.
    pub fn randnew(brick_num: Option<u32>, circus: &[u32; 2]) -> (wall: Wall)
        requires
            3 <= circus[0],
            3 <= circus[1],
            match brick_num {
                Some(n) => walk_fits(circus[0] as int, circus[1] as int, n as int),
                None => 4 <= circus[0] && 4 <= circus[1] && walk_fits(
                    circus[0] as int,
                    circus[1] as int,
                    shorter_side(circus[0] as int, circus[1] as int) / 2,
                ),
            },
        ensures
            wall.is_chain(),
            wall.wf(),
            match brick_num {
                Some(n) => wall.bricks@.len() == n,
                None => 1 <= wall.bricks@.len() < shorter_side(
                    circus[0] as int,
                    circus[1] as int,
                ) / 2,
            },
            wall.bricks@.len() > 0 ==> interior(
                wall.bricks@[0],
                circus[0] as int,
                circus[1] as int,
            ),
    {
        let n: u32 = match brick_num {
            Some(num) => num,
            None => {
                let side = if circus[0] < circus[1] {
                    circus[0]
                } else {
                    circus[1]
                };
                random_in(1, side / 2)
            },
        };
        if n == 0 {
            return Wall { bricks: Vec::new() };
        }
        let x = random_in(1, circus[0] - 1) as i32;
        let y = random_in(1, circus[1] - 1) as i32;

        let mut moves: Vec<Direction> = Vec::new();
        let mut k: u32 = 1;
        while k < n
            invariant
                1 <= k <= n,
                moves@.len() == k - 1,
            decreases n - k,
        {
            let horizontal = coin();
            let forward = coin();
            moves.push(direction_of(horizontal, forward));
            k = k + 1;
        }
        let wall = Wall::walk(x, y, &moves);
        assert forall|i: int| 0 < i < wall.bricks@.len() implies adjacent(
            wall.bricks@[i - 1],
            #[trigger] wall.bricks@[i],
        ) by {
            assert(steps_to(wall.bricks@[i - 1], wall.bricks@[i], moves@[i - 1]));
        }
        wall
    }
}

/// The unit step along the horizontal or the vertical axis, towards growing
/// or shrinking coordinates.
fn direction_of(horizontal: bool, forward: bool) -> (d: Direction)
    ensures
        horizontal ==> dy(d) == 0 && dx(d) == if forward {
            1int
        } else {
            -1
        },
        !horizontal ==> dx(d) == 0 && dy(d) == if forward {
            1int
        } else {
            -1
        },
{
    match (horizontal, forward) {
        (true, true) => Direction::Right,
        (true, false) => Direction::Left,
        (false, true) => Direction::Down,
        (false, false) => Direction::Up,
    }
}

} // verus!
