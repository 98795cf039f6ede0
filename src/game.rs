//! The game session: bounds, walls, fruit, snake and score, the state machine
//! that answers input, and the tick driver that steps the simulation.
use vstd::prelude::*;
use crate::block::{Collited, Direction, dx, dy, same_cell};
use crate::collision::{Collision, hits};
use crate::fruit::{Fruit, interior};
use crate::random::random_in;
use crate::snake::{INITIAL_VELOCITY, Snake, VELOCITY_STEP, moved, segment, turned};
use crate::wall::{Wall, on_perimeter};

verus! {

/// The largest width or height of a play area: room for the coordinates of
/// the border and of obstacle walks in `i32`.
pub const MAX_SIDE: u32 = 2_147_483_638;

/// A step is due once the elapsed microseconds times the velocity (in
/// hundredths of a step per second) reach this value.
pub const STEP_THRESHOLD: u128 = 100_000_000;

/// The state of the game.
#[derive(Debug, Clone, Copy, PartialEq, Eq, Structural)]
pub enum GameStatus {
    /// Paused.
    TIMEOUT,
    /// Running.
    GAMMING,
    /// Ended by a collision with a wall or the snake itself.
    GAMEOVER,
    /// About to start over with a fresh session.
    RESTART,
}

/// The keys the game answers to.
#[derive(Debug, Clone, Copy, PartialEq, Eq, Structural)]
pub enum Key {
    Up,
    Down,
    Left,
    Right,
    Space,
    Return,
    Other,
}

/// An input event of the game.
#[derive(Debug, Clone, Copy, PartialEq, Eq, Structural)]
pub enum Command {
    Turn(Direction),
    Pause,
    Resume,
    Restart,
}

/// The state after `command` in state `status`: pausing stops a running
/// game, resuming continues a paused one, restarting works from any state,
/// and turns leave the state as it is.
pub open spec fn next_status(status: GameStatus, command: Command) -> GameStatus {
    match command {
        Command::Pause => if status == GameStatus::GAMMING {
            GameStatus::TIMEOUT
        } else {
            status
        },
        Command::Resume => if status == GameStatus::TIMEOUT {
            GameStatus::GAMMING
        } else {
            status
        },
        Command::Restart => GameStatus::RESTART,
        Command::Turn(_) => status,
    }
}

/// The command a key gives in state `status`: arrows turn, space pauses a
/// running game and restarts otherwise, return resumes.
pub open spec fn command_of(key: Key, status: GameStatus) -> Option<Command> {
    match key {
        Key::Up => Some(Command::Turn(Direction::Up)),
        Key::Down => Some(Command::Turn(Direction::Down)),
        Key::Left => Some(Command::Turn(Direction::Left)),
        Key::Right => Some(Command::Turn(Direction::Right)),
        Key::Space => if status == GameStatus::GAMMING {
            Some(Command::Pause)
        } else {
            Some(Command::Restart)
        },
        Key::Return => Some(Command::Resume),
        Key::Other => None,
    }
}

/// A play area of `w` by `h` cells holds the new snake inside its border and
/// leaves room for random placement, and its coordinates fit in `i32`.
pub open spec fn valid_bounds(w: int, h: int) -> bool {
    9 <= w <= MAX_SIDE && 3 <= h <= MAX_SIDE
}

/// A step is due after `elapsed` microseconds at `velocity` hundredths of a
/// step per second, that is once `elapsed` reaches `1 / velocity` seconds.
pub open spec fn step_due(elapsed: int, velocity: int) -> bool {
    elapsed * velocity >= STEP_THRESHOLD
}

/// The game session.
#[derive(Debug)]
pub struct App {
    pub game_status: GameStatus,
    /// The play area, `[width, height]`.
    pub circus: [u32; 2],
    /// Microseconds accumulated since the last step.
    pub update_time: u64,
    pub score: u32,
    pub board_wall: Wall,
    pub walls: Vec<Wall>,
    pub fruit: Fruit,
    pub snake: Snake,
}

/// `post` is `pre` after `command`.
pub open spec fn commanded(pre: App, post: App, command: Command) -> bool {
    match command {
        Command::Turn(d) => post == App { snake: turned(pre.snake, d), ..pre },
        _ => post == App { game_status: next_status(pre.game_status, command), ..pre },
    }
}

/// `post` is `pre` after one simulation step, with `respawn` as the fruit that
/// replaces an eaten one. The lock on turning is cleared and the head is
/// classified: on a fruit the snake grows and speeds up, the fruit is
/// replaced, the score goes up by one and the snake moves; on a wall or its
/// own body the game is over and nothing moves; otherwise the snake moves.
pub open spec fn ticked(pre: App, post: App, respawn: Fruit) -> bool {
    let c = pre.collision();
    &&& post.update_time == 0
    &&& post.circus == pre.circus
    &&& post.board_wall == pre.board_wall
    &&& post.walls == pre.walls
    &&& post.snake.direction == pre.snake.direction
    &&& !post.snake.direction_lock
    &&& c == Collited::WithFruit ==> {
        &&& post.game_status == pre.game_status
        &&& post.score == pre.score + 1
        &&& post.fruit == respawn
        &&& post.snake.velocity == pre.snake.velocity + VELOCITY_STEP
        &&& moved(pre.snake, post.snake, true)
    }
    &&& c == Collited::NoCollision ==> {
        &&& post.game_status == pre.game_status
        &&& post.score == pre.score
        &&& post.fruit == pre.fruit
        &&& post.snake.velocity == pre.snake.velocity
        &&& moved(pre.snake, post.snake, pre.snake.growth_flag)
    }
    &&& (c == Collited::WithWall || c == Collited::WithSnake) ==> {
        &&& post.game_status == GameStatus::GAMEOVER
        &&& post.score == pre.score
        &&& post.fruit == pre.fruit
        &&& post.snake.head == pre.snake.head
        &&& post.snake.body == pre.snake.body
        &&& post.snake.velocity == pre.snake.velocity
        &&& post.snake.growth_flag == pre.snake.growth_flag
    }
}

/// `post` is `pre` after `dt` microseconds of real time. A running game
/// accumulates the time and takes one step when a step is due, with a fruit
/// from the interior replacing an eaten one; a restart gives a fresh session;
/// a paused or ended game stays as it is.
pub open spec fn updated(pre: App, post: App, dt: int) -> bool {
    match pre.game_status {
        GameStatus::GAMMING => if step_due(pre.update_time + dt, pre.snake.velocity as int) {
            &&& ticked(pre, post, post.fruit)
            &&& pre.collision() == Collited::WithFruit ==> interior(
                post.fruit.block,
                pre.circus[0] as int,
                pre.circus[1] as int,
            )
        } else {
            post == App { update_time: (pre.update_time + dt) as u64, ..pre }
        },
        GameStatus::RESTART => post.is_fresh(pre.circus[0] as int, pre.circus[1] as int),
        _ => post == pre,
    }
}

impl App {
    /// The session's invariant: valid bounds, the border around them, blocks
    /// tagged with their kinds, a snake as fast as its score makes it with no
    /// growth pending between steps, and the head within the border.
    pub open spec fn wf(&self) -> bool {
        let w = self.circus[0] as int;
        let h = self.circus[1] as int;
        &&& valid_bounds(w, h)
        &&& self.board_wall.is_board(w, h)
        &&& self.fruit.wf()
        &&& self.snake.wf()
        &&& self.snake.velocity == INITIAL_VELOCITY + VELOCITY_STEP * self.score
        &&& !self.snake.growth_flag
        &&& 0 <= self.snake.head.pos_x <= w
        &&& 0 <= self.snake.head.pos_y <= h
    }

    /// The session is as one starts in a `w` by `h` area: running, score and
    /// clock at zero, the border, one to nine obstacle chains of five to nine
    /// bricks anchored in the interior, a fruit in the interior, and the
    /// initial snake.
    pub open spec fn is_fresh(&self, w: int, h: int) -> bool {
        &&& self.game_status == GameStatus::GAMMING
        &&& self.circus[0] == w
        &&& self.circus[1] == h
        &&& self.update_time == 0
        &&& self.score == 0
        &&& self.board_wall.is_board(w, h)
        &&& 1 <= self.walls@.len() < 10
        &&& forall|i: int| #![trigger self.walls@[i]]
            0 <= i < self.walls@.len() ==> {
                &&& self.walls@[i].is_chain()
                &&& 5 <= self.walls@[i].bricks@.len() < 10
                &&& interior(self.walls@[i].bricks@[0], w, h)
            }
        &&& self.fruit.wf()
        &&& interior(self.fruit.block, w, h)
        &&& self.snake.is_initial(w, h)
    }

    /// What the head strikes, in order of precedence: the snake's own body,
    /// the border, an obstacle, the fruit.
    pub open spec fn collision(&self) -> Collited {
        let head = self.snake.head;
        if self.snake.hits_itself() {
            Collited::WithSnake
        } else if hits(self.board_wall.bricks@, head) {
            Collited::WithWall
        } else if exists|i: int|
            0 <= i < self.walls@.len() && hits((#[trigger] self.walls@[i]).bricks@, head) {
            Collited::WithWall
        } else if self.fruit.block.collited == Collited::WithFruit && same_cell(
            self.fruit.block,
            head,
        ) {
            Collited::WithFruit
        } else {
            Collited::NoCollision
        }
    }

    /// Whether a play area of `horizontal_block_num` by `vertical_block_num`
    /// cells can hold a session.
    pub fn valid_bounds(horizontal_block_num: u32, vertical_block_num: u32) -> (r: bool)
        ensures
            r == valid_bounds(horizontal_block_num as int, vertical_block_num as int),
    {
        9 <= horizontal_block_num && horizontal_block_num <= MAX_SIDE && 3 <= vertical_block_num
            && vertical_block_num <= MAX_SIDE
    }

    /// A session in a `horizontal_block_num` by `vertical_block_num` area with
    /// the given obstacles and fruit: running, score and clock at zero, the
    /// border, and the initial snake.
    pub fn with_parts(
        horizontal_block_num: u32,
        vertical_block_num: u32,
        walls: Vec<Wall>,
        fruit: Fruit,
    ) -> (app: App)
        requires
            valid_bounds(horizontal_block_num as int, vertical_block_num as int),
            fruit.wf(),
        ensures
            app.game_status == GameStatus::GAMMING,
            app.circus[0] == horizontal_block_num,
            app.circus[1] == vertical_block_num,
            app.update_time == 0,
            app.score == 0,
            app.board_wall.is_board(horizontal_block_num as int, vertical_block_num as int),
            app.walls == walls,
            app.fruit == fruit,
            app.snake.is_initial(horizontal_block_num as int, vertical_block_num as int),
            app.wf(),
    {
        let circus = [horizontal_block_num, vertical_block_num];
        App {
            game_status: GameStatus::GAMMING,
            circus,
            update_time: 0,
            score: 0,
            board_wall: Wall::board_wall(&circus),
            walls,
            fruit,
            snake: Snake::new(horizontal_block_num, vertical_block_num),
        }
    }

    /// A fresh session: one to nine random obstacle chains of five to nine
    /// bricks each, a random fruit, the border, and the initial snake.
    pub fn new(horizontal_block_num: u32, vertical_block_num: u32) -> (app: App)
        requires
            valid_bounds(horizontal_block_num as int, vertical_block_num as int),
        ensures
            app.is_fresh(horizontal_block_num as int, vertical_block_num as int),
            app.wf(),
    {
        let circus = [horizontal_block_num, vertical_block_num];
        let mut walls: Vec<Wall> = Vec::new();
        let walls_num = random_in(1, 10);
        let mut k: u32 = 0;
        while k < walls_num
            invariant
                k <= walls_num < 10,
                walls@.len() == k,
                circus[0] == horizontal_block_num,
                circus[1] == vertical_block_num,
                valid_bounds(horizontal_block_num as int, vertical_block_num as int),
                forall|i: int| #![trigger walls@[i]]
                    0 <= i < walls@.len() ==> {
                        &&& walls@[i].is_chain()
                        &&& 5 <= walls@[i].bricks@.len() < 10
                        &&& interior(
                            walls@[i].bricks@[0],
                            horizontal_block_num as int,
                            vertical_block_num as int,
                        )
                    },
            decreases walls_num - k,
        {
            let brick_num = random_in(5, 10);
            walls.push(Wall::randnew(Some(brick_num), &circus));
            k = k + 1;
        }
        let fruit = Fruit::randnew(horizontal_block_num, vertical_block_num);
        App::with_parts(horizontal_block_num, vertical_block_num, walls, fruit)
    }

    /// A fresh session, or `None` when the bounds cannot hold one.
    pub fn try_new(horizontal_block_num: u32, vertical_block_num: u32) -> (r: Option<App>)
        ensures
            r is None <==> !valid_bounds(horizontal_block_num as int, vertical_block_num as int),
            r matches Some(app) ==> app.is_fresh(
                horizontal_block_num as int,
                vertical_block_num as int,
            ) && app.wf(),
    {
        if App::valid_bounds(horizontal_block_num, vertical_block_num) {
            Some(App::new(horizontal_block_num, vertical_block_num))
        } else {
            None
        }
    }

    /// Classifies the head against the snake's body, the border, the
    /// obstacles and the fruit, in that order of precedence.
    pub fn is_collision(&self) -> (r: Collited)
        ensures
            r == self.collision(),
    {
        if self.snake.is_colliting_with_self() {
            return Collited::WithSnake;
        }
        let head = self.snake.head;
        if self.board_wall.is_collited_by_block(&head) == Collited::WithWall {
            return Collited::WithWall;
        }
        let mut i: usize = 0;
        while i < self.walls.len()
            invariant
                i <= self.walls@.len(),
                head == self.snake.head,
                !self.snake.hits_itself(),
                !hits(self.board_wall.bricks@, head),
                forall|k: int| 0 <= k < i ==> !hits((#[trigger] self.walls@[k]).bricks@, head),
            decreases self.walls@.len() - i,
        {
            if self.walls[i].is_collited_by_block(&head) == Collited::WithWall {
                assert(hits(self.walls@[i as int].bricks@, head));
                return Collited::WithWall;
            }
            i = i + 1;
        }
        if self.fruit.is_collited_by_block(&head) == Collited::WithFruit {
            assert(same_cell(self.fruit.cells()[0], head));
            return Collited::WithFruit;
        }
        assert(self.fruit.cells()[0] == self.fruit.block);
        Collited::NoCollision
    }

    /// Eating: the snake grows and speeds up, `respawn` replaces the fruit,
    /// and the score goes up by one.
    fn growth_action(&mut self, respawn: Fruit)
        requires
            old(self).score < u32::MAX,
            old(self).snake.velocity == INITIAL_VELOCITY + VELOCITY_STEP * old(self).score,
        ensures
            *final(self) == (App {
                snake: Snake {
                    growth_flag: true,
                    velocity: (old(self).snake.velocity + VELOCITY_STEP) as u64,
                    ..old(self).snake
                },
                fruit: respawn,
                score: (old(self).score + 1) as u32,
                ..*old(self)
            }),
    {
        self.snake.growth_action();
        self.fruit = respawn;
        self.score = self.score + 1;
    }

    /// One simulation step, with `respawn` as the fruit that replaces an
    /// eaten one.
    pub fn tick(&mut self, respawn: Fruit)
        requires
            old(self).wf(),
            old(self).score < u32::MAX,
            respawn.wf(),
        ensures
            ticked(*old(self), *final(self), respawn),
            final(self).wf(),
    {
        self.snake.direction_lock = false;
        let c = self.is_collision();
        if c == Collited::WithFruit || c == Collited::NoCollision {
            proof {
                self.lemma_head_inside();
            }
            if c == Collited::WithFruit {
                self.growth_action(respawn);
            }
            self.snake.moving();
        } else {
            self.game_status = GameStatus::GAMEOVER;
        }
        self.update_time = 0;
    }

    /// A head that strikes no border brick stands strictly inside the border.
    proof fn lemma_head_inside(&self)
        requires
            self.wf(),
            !hits(self.board_wall.bricks@, self.snake.head),
        ensures
            0 < self.snake.head.pos_x < self.circus[0],
            0 < self.snake.head.pos_y < self.circus[1],
    {
        let x = self.snake.head.pos_x as int;
        let y = self.snake.head.pos_y as int;
        let w = self.circus[0] as int;
        let h = self.circus[1] as int;
        if on_perimeter(x, y, w, h) {
            let i = choose|i: int|
                0 <= i < self.board_wall.bricks@.len() && (#[trigger] self.board_wall.bricks@[i]).pos_x
                    == x && self.board_wall.bricks@[i].pos_y == y;
            assert(same_cell(self.board_wall.bricks@[i], self.snake.head));
        }
    }

    /// Advances the clock by `dt_us` microseconds. A running game takes one
    /// step once a step is due, then restarts its clock; a restarting game
    /// becomes a fresh session; a paused or ended game does nothing.
    pub fn update(&mut self, dt_us: u64)
        requires
            old(self).wf(),
            old(self).score < u32::MAX,
        ensures
            updated(*old(self), *final(self), dt_us as int),
            final(self).wf(),
    {
        match self.game_status {
            GameStatus::GAMMING => {
                let ghost total: int = self.update_time + dt_us;
                self.update_time = self.update_time.saturating_add(dt_us);
                let elapsed = self.update_time as u128;
                let velocity = self.snake.velocity as u128;
                proof {
                    assert(elapsed * velocity <= u64::MAX as u128 * u64::MAX as u128)
                        by (nonlinear_arith)
                        requires
                            elapsed <= u64::MAX,
                            velocity <= u64::MAX,
                    ;
                    if total > u64::MAX {
                        assert(step_due(elapsed as int, velocity as int)) by (nonlinear_arith)
                            requires
                                elapsed == u64::MAX,
                                velocity >= 1,
                        ;
                        assert(step_due(total, velocity as int)) by (nonlinear_arith)
                            requires
                                total > u64::MAX,
                                velocity >= 1,
                        ;
                    }
                }
                if elapsed * velocity >= STEP_THRESHOLD {
                    let respawn = if self.is_collision() == Collited::WithFruit {
                        Fruit::randnew(self.circus[0], self.circus[1])
                    } else {
                        self.fruit
                    };
                    self.tick(respawn);
                }
            },
            GameStatus::RESTART => {
                *self = App::new(self.circus[0], self.circus[1]);
            },
            _ => {},
        }
    }

    /// Answers an input event: a turn goes to the snake, the rest to the
    /// state machine.
    pub fn apply_command(&mut self, command: Command)
        requires
            old(self).wf(),
        ensures
            commanded(*old(self), *final(self), command),
            final(self).wf(),
    {
        match command {
            Command::Turn(d) => {
                self.snake.try_turn(d);
            },
            Command::Pause => {
                if self.game_status == GameStatus::GAMMING {
                    self.game_status = GameStatus::TIMEOUT;
                }
            },
            Command::Resume => {
                if self.game_status == GameStatus::TIMEOUT {
                    self.game_status = GameStatus::GAMMING;
                }
            },
            Command::Restart => {
                self.game_status = GameStatus::RESTART;
            },
        }
    }

    /// The command that `key` gives in the current state.
    pub fn command_for(&self, key: Key) -> (r: Option<Command>)
        ensures
            r == command_of(key, self.game_status),
    {
        match key {
            Key::Up => Some(Command::Turn(Direction::Up)),
            Key::Down => Some(Command::Turn(Direction::Down)),
            Key::Left => Some(Command::Turn(Direction::Left)),
            Key::Right => Some(Command::Turn(Direction::Right)),
            Key::Space => if self.game_status == GameStatus::GAMMING {
                Some(Command::Pause)
            } else {
                Some(Command::Restart)
            },
            Key::Return => Some(Command::Resume),
            Key::Other => None,
        }
    }

    /// Answers a key press with the command it gives, if any.
    pub fn key_press(&mut self, key: Key)
        requires
            old(self).wf(),
        ensures
            match command_of(key, old(self).game_status) {
                Some(c) => commanded(*old(self), *final(self), c),
                None => *final(self) == *old(self),
            },
            final(self).wf(),
    {
        if let Some(c) = self.command_for(key) {
            self.apply_command(c);
        }
    }
}

/// A step on which the head strikes nothing moves the head one unit in the
/// snake's direction, and the body becomes the cell the head left followed by
/// the old body without its last block; score and state stay as they were.
pub proof fn lemma_plain_step(pre: App, post: App, respawn: Fruit)
    requires
        pre.wf(),
        pre.collision() == Collited::NoCollision,
        ticked(pre, post, respawn),
    ensures
        post.snake.head.pos_x == pre.snake.head.pos_x + dx(pre.snake.direction),
        post.snake.head.pos_y == pre.snake.head.pos_y + dy(pre.snake.direction),
        post.snake.body@ == (seq![segment(pre.snake.head)] + pre.snake.body@).drop_last(),
        post.score == pre.score,
        post.game_status == pre.game_status,
{
    pre.lemma_head_inside();
    assert(post.snake.body@ =~= (seq![segment(pre.snake.head)] + pre.snake.body@).drop_last());
}

/// A due update whose head stands on the fruit scores exactly one, grows the
/// body by exactly one block, speeds the snake up by one increment, and puts
/// a new fruit in the interior. The head reached the fruit's cell on the
/// step before, which left the body's length as it was.
pub proof fn lemma_fruit_step(pre: App, post: App, dt: int)
    requires
        pre.wf(),
        pre.game_status == GameStatus::GAMMING,
        step_due(pre.update_time + dt, pre.snake.velocity as int),
        pre.collision() == Collited::WithFruit,
        updated(pre, post, dt),
    ensures
        post.score == pre.score + 1,
        post.snake.body@.len() == pre.snake.body@.len() + 1,
        post.snake.velocity == pre.snake.velocity + VELOCITY_STEP,
        interior(post.fruit.block, pre.circus[0] as int, pre.circus[1] as int),
        post.game_status == GameStatus::GAMMING,
{
}

/// Pausing a running game pauses it, and resuming a paused game runs it again.
pub proof fn lemma_pause_resume()
    ensures
        next_status(GameStatus::GAMMING, Command::Pause) == GameStatus::TIMEOUT,
        next_status(GameStatus::TIMEOUT, Command::Resume) == GameStatus::GAMMING,
{
}

/// A restart from any state, followed by the next update, gives a running
/// session in the same play area with score zero, the initial snake, and
/// newly drawn obstacles and fruit.
pub proof fn lemma_restart(pre: App, mid: App, post: App, dt: int)
    requires
        commanded(pre, mid, Command::Restart),
        updated(mid, post, dt),
    ensures
        mid.game_status == GameStatus::RESTART,
        post.is_fresh(pre.circus[0] as int, pre.circus[1] as int),
        post.game_status == GameStatus::GAMMING,
        post.score == 0,
        post.snake.is_initial(pre.circus[0] as int, pre.circus[1] as int),
{
}

/// A step on which the head strikes the snake's body or a wall ends the game
/// without moving anything, and no later update changes the session.
pub proof fn lemma_game_over(pre: App, mid: App, post: App, respawn: Fruit, dt: int)
    requires
        pre.collision() == Collited::WithSnake || pre.collision() == Collited::WithWall,
        ticked(pre, mid, respawn),
        updated(mid, post, dt),
    ensures
        mid.game_status == GameStatus::GAMEOVER,
        mid.snake.head == pre.snake.head,
        mid.snake.body == pre.snake.body,
        mid.score == pre.score,
        post == mid,
{
}

} // verus!
