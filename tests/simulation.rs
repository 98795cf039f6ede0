use snake::block::{unit, Block, Collited, Color, Direction};
use snake::collision::{classify, Collision};
use snake::fruit::Fruit;
use snake::game::{App, Command, GameStatus, Key};
use snake::snake::{Snake, INITIAL_VELOCITY, VELOCITY_STEP};
use snake::wall::Wall;

fn cells(blocks: &[Block]) -> Vec<(i32, i32)> {
    blocks.iter().map(|b| (b.pos_x, b.pos_y)).collect()
}

fn session_10x10() -> App {
    App::with_parts(10, 10, Vec::new(), Fruit::new(1, 1))
}

/// Microseconds after which a step is due at the initial velocity of six
/// steps per second.
const FIRST_STEP_US: u64 = 166_667;

#[test]
fn block_equality_is_by_cell() {
    let a = Block::new(3, 4, Collited::WithSnake, Color::Red);
    let b = Block::new(3, 4, Collited::WithWall, Color::LightBlue);
    let c = Block::new(4, 3, Collited::WithSnake, Color::Red);
    assert!(a == b);
    assert!(a != c);
}

#[test]
fn head_against_body_block() {
    let head = Block::new(5, 5, Collited::WithSnake, Color::Red);
    let same = Block::new(5, 5, Collited::WithSnake, Color::White);
    let other = Block::new(6, 5, Collited::WithSnake, Color::White);
    assert_eq!(classify(&head, &same), Collited::WithSnake);
    assert_eq!(classify(&head, &other), Collited::NoCollision);
    assert_eq!(same.is_collited_by_block(&head), Collited::WithSnake);
    assert_eq!(other.is_collited_by_block(&head), Collited::NoCollision);
}

#[test]
fn composite_classification() {
    let snake = Snake::new(10, 10);
    let wall = Wall::walk(7, 5, &vec![Direction::Down]);
    assert_eq!(classify(&snake, &wall), Collited::WithWall);
    assert_eq!(classify(&wall, &snake), Collited::WithSnake);
    let far = Wall::walk(2, 2, &vec![Direction::Up]);
    assert_eq!(classify(&snake, &far), Collited::NoCollision);
    let fruit = Fruit::new(9, 5);
    assert_eq!(classify(&snake, &fruit), Collited::WithFruit);
    assert_eq!(fruit.is_collited_by_block(&snake.head), Collited::NoCollision);
    assert_eq!(snake.cell_count(), 5);
    assert_eq!(snake.cell_at(0).pos_x, 5);
    assert_eq!(snake.cell_at(4).pos_x, 9);
}

#[test]
fn snake_struck_by_a_body_block() {
    let snake = Snake::new(10, 10);
    let on_tail = Block::new(9, 5, Collited::WithFruit, Color::Green);
    let beside = Block::new(9, 6, Collited::WithFruit, Color::Green);
    assert_eq!(snake.is_collited_by_block(&on_tail), Collited::WithSnake);
    assert_eq!(snake.is_collited_by_block(&beside), Collited::NoCollision);
}

#[test]
fn unit_steps() {
    assert_eq!(unit(Direction::Up), (0, -1));
    assert_eq!(unit(Direction::Down), (0, 1));
    assert_eq!(unit(Direction::Left), (-1, 0));
    assert_eq!(unit(Direction::Right), (1, 0));
}

#[test]
fn board_wall_is_exactly_the_perimeter() {
    let (w, h) = (10i32, 8i32);
    let wall = Wall::board_wall(&[10, 8]);
    let got = cells(&wall.bricks);
    for b in wall.bricks.iter() {
        assert_eq!(b.collited, Collited::WithWall);
        assert_eq!(b.color, Color::LightBlue);
    }
    for x in -1..=w + 1 {
        for y in -1..=h + 1 {
            let inside = 0 <= x && x <= w && 0 <= y && y <= h;
            let border = inside && (x == 0 || x == w || y == 0 || y == h);
            assert_eq!(got.contains(&(x, y)), border, "cell ({}, {})", x, y);
        }
    }
    assert_eq!(got.len(), 36);
}

#[test]
fn walk_follows_its_moves() {
    let wall = Wall::walk(3, 3, &vec![Direction::Right, Direction::Down, Direction::Left]);
    assert_eq!(cells(&wall.bricks), vec![(3, 3), (4, 3), (4, 4), (3, 4)]);
    assert!(wall.bricks.iter().all(|b| b.collited == Collited::WithWall));
    let single = Wall::walk(1, 2, &Vec::new());
    assert_eq!(cells(&single.bricks), vec![(1, 2)]);
}

fn assert_chain(wall: &Wall, w: i32, h: i32) {
    let first = wall.bricks[0];
    assert!(1 <= first.pos_x && first.pos_x < w - 1);
    assert!(1 <= first.pos_y && first.pos_y < h - 1);
    for pair in wall.bricks.windows(2) {
        let d = (pair[1].pos_x - pair[0].pos_x).abs() + (pair[1].pos_y - pair[0].pos_y).abs();
        assert_eq!(d, 1);
    }
    assert!(wall.bricks.iter().all(|b| b.collited == Collited::WithWall));
}

#[test]
fn random_wall_is_an_anchored_chain() {
    for _ in 0..50 {
        let wall = Wall::randnew(Some(7), &[20, 15]);
        assert_eq!(wall.bricks.len(), 7);
        assert_chain(&wall, 20, 15);
    }
    for _ in 0..50 {
        let wall = Wall::randnew(None, &[20, 12]);
        assert!(1 <= wall.bricks.len() && wall.bricks.len() < 6);
        assert_chain(&wall, 20, 12);
    }
    assert!(Wall::randnew(Some(0), &[20, 15]).bricks.is_empty());
}

#[test]
fn random_fruit_is_interior() {
    for _ in 0..100 {
        let f = Fruit::randnew(6, 4);
        assert!(1 <= f.block.pos_x && f.block.pos_x < 5);
        assert!(1 <= f.block.pos_y && f.block.pos_y < 3);
        assert_eq!(f.block.collited, Collited::WithFruit);
    }
    let f = Fruit::new(2, 3);
    assert_eq!((f.block.pos_x, f.block.pos_y), (2, 3));
    assert_eq!(f.block.color, Color::Green);
}

#[test]
fn new_snake_layout() {
    let s = Snake::new(10, 10);
    assert_eq!((s.head.pos_x, s.head.pos_y), (5, 5));
    assert_eq!(cells(&s.body), vec![(6, 5), (7, 5), (8, 5), (9, 5)]);
    assert_eq!(s.velocity, INITIAL_VELOCITY);
    assert_eq!(s.direction, Direction::Left);
    assert!(!s.direction_lock && !s.growth_flag);
    let odd = Snake::new(81, 61);
    assert_eq!((odd.head.pos_x, odd.head.pos_y), (40, 30));
}

#[test]
fn moving_shifts_the_body() {
    let mut s = Snake::new(10, 10);
    s.moving();
    assert_eq!((s.head.pos_x, s.head.pos_y), (4, 5));
    assert_eq!(cells(&s.body), vec![(5, 5), (6, 5), (7, 5), (8, 5)]);
    assert_eq!(s.body[0].color, Color::White);
    assert_eq!(s.head.color, Color::Red);
}

#[test]
fn growth_keeps_the_tail_on_the_next_move() {
    let mut s = Snake::new(10, 10);
    s.growth_action();
    assert!(s.growth_flag);
    assert_eq!(s.velocity, INITIAL_VELOCITY + VELOCITY_STEP);
    assert_eq!(s.body.len(), 4);
    s.moving();
    assert!(!s.growth_flag);
    assert_eq!(cells(&s.body), vec![(5, 5), (6, 5), (7, 5), (8, 5), (9, 5)]);
    s.moving();
    assert_eq!(s.body.len(), 5);
}

#[test]
fn turning_rules() {
    let mut s = Snake::new(10, 10);
    assert!(!s.try_turn(Direction::Right));
    assert_eq!(s.direction, Direction::Left);
    assert!(!s.direction_lock);
    assert!(s.try_turn(Direction::Up));
    assert_eq!(s.direction, Direction::Up);
    assert!(s.direction_lock);
    assert!(!s.try_turn(Direction::Left));
    assert_eq!(s.direction, Direction::Up);
    s.direction_lock = false;
    assert!(!s.try_turn(Direction::Down));
    assert!(s.try_turn(Direction::Up));
}

#[test]
fn self_collision() {
    let mut s = Snake::new(10, 10);
    assert!(!s.is_colliting_with_self());
    s.body.push(Block::new(5, 5, Collited::WithSnake, Color::White));
    assert!(s.is_colliting_with_self());
}

#[test]
fn bounds_validation() {
    assert!(App::try_new(8, 10).is_none());
    assert!(App::try_new(10, 2).is_none());
    assert!(App::try_new(9, 3).is_some());
    assert!(App::valid_bounds(80, 60));
    assert!(!App::valid_bounds(0, 60));
    assert!(!App::valid_bounds(2_147_483_639, 60));
}

fn assert_fresh(app: &App, w: u32, h: u32) {
    assert_eq!(app.game_status, GameStatus::GAMMING);
    assert_eq!(app.circus, [w, h]);
    assert_eq!(app.score, 0);
    assert_eq!(app.update_time, 0);
    assert!(1 <= app.walls.len() && app.walls.len() < 10);
    for wall in app.walls.iter() {
        assert!(5 <= wall.bricks.len() && wall.bricks.len() < 10);
        assert_chain(wall, w as i32, h as i32);
    }
    let f = app.fruit.block;
    assert!(1 <= f.pos_x && f.pos_x < w as i32 - 1 && 1 <= f.pos_y && f.pos_y < h as i32 - 1);
    assert_eq!((app.snake.head.pos_x, app.snake.head.pos_y), (w as i32 / 2, h as i32 / 2));
    assert_eq!(app.snake.body.len(), 4);
    assert_eq!(app.snake.velocity, INITIAL_VELOCITY);
}

#[test]
fn new_session_is_fresh() {
    for _ in 0..20 {
        let app = App::new(80, 60);
        assert_fresh(&app, 80, 60);
    }
}

#[test]
fn one_step_without_collision() {
    let mut app = session_10x10();
    app.update(FIRST_STEP_US);
    assert_eq!((app.snake.head.pos_x, app.snake.head.pos_y), (4, 5));
    assert_eq!(app.score, 0);
    assert_eq!(app.game_status, GameStatus::GAMMING);
    assert_eq!(app.update_time, 0);
}

#[test]
fn time_accumulates_until_a_step_is_due() {
    let mut app = session_10x10();
    for k in 1..10u64 {
        app.update(16_667);
        assert_eq!(app.update_time, 16_667 * k);
        assert_eq!(app.snake.head.pos_x, 5);
    }
    app.update(16_667);
    assert_eq!(app.snake.head.pos_x, 4);
    assert_eq!(app.update_time, 0);
    app.update(166_666);
    assert_eq!(app.snake.head.pos_x, 4);
    app.update(1);
    assert_eq!(app.snake.head.pos_x, 3);
    app.update(u64::MAX);
    assert_eq!(app.snake.head.pos_x, 2);
}

#[test]
fn eating_scores_then_grows() {
    let mut app = App::with_parts(10, 10, Vec::new(), Fruit::new(4, 5));
    app.tick(Fruit::new(2, 2));
    assert_eq!((app.snake.head.pos_x, app.snake.head.pos_y), (4, 5));
    assert_eq!(app.score, 0);
    assert_eq!(app.snake.body.len(), 4);
    assert_eq!(app.is_collision(), Collited::WithFruit);
    app.tick(Fruit::new(2, 2));
    assert_eq!(app.score, 1);
    assert_eq!((app.fruit.block.pos_x, app.fruit.block.pos_y), (2, 2));
    assert_eq!(app.snake.body.len(), 5);
    assert_eq!(app.snake.velocity, INITIAL_VELOCITY + VELOCITY_STEP);
    assert_eq!((app.snake.head.pos_x, app.snake.head.pos_y), (3, 5));
    app.tick(Fruit::new(7, 7));
    assert_eq!(app.snake.body.len(), 5);
    assert_eq!(app.score, 1);
    assert_eq!((app.fruit.block.pos_x, app.fruit.block.pos_y), (2, 2));
}

#[test]
fn eating_through_update_respawns_inside() {
    let mut app = App::with_parts(10, 10, Vec::new(), Fruit::new(5, 5));
    app.update(FIRST_STEP_US);
    assert_eq!(app.score, 1);
    assert_eq!(app.snake.body.len(), 5);
    let f = app.fruit.block;
    assert!(1 <= f.pos_x && f.pos_x < 9 && 1 <= f.pos_y && f.pos_y < 9);
    assert_eq!(f.collited, Collited::WithFruit);
}

#[test]
fn body_collision_ends_the_game() {
    let mut app = session_10x10();
    app.snake.body.push(Block::new(5, 5, Collited::WithSnake, Color::White));
    assert_eq!(app.is_collision(), Collited::WithSnake);
    app.tick(Fruit::new(2, 2));
    assert_eq!(app.game_status, GameStatus::GAMEOVER);
    assert_eq!((app.snake.head.pos_x, app.snake.head.pos_y), (5, 5));
    assert_eq!(app.snake.body.len(), 5);
    app.update(10 * FIRST_STEP_US);
    app.update(10 * FIRST_STEP_US);
    assert_eq!((app.snake.head.pos_x, app.snake.head.pos_y), (5, 5));
    assert_eq!(app.game_status, GameStatus::GAMEOVER);
}

#[test]
fn wall_collision_ends_the_game() {
    let obstacle = Wall::walk(4, 5, &vec![Direction::Up]);
    let mut app = App::with_parts(10, 10, vec![obstacle], Fruit::new(4, 5));
    app.update(FIRST_STEP_US);
    assert_eq!(app.snake.head.pos_x, 4);
    assert_eq!(app.is_collision(), Collited::WithWall);
    app.update(FIRST_STEP_US);
    assert_eq!(app.game_status, GameStatus::GAMEOVER);
    assert_eq!(app.score, 0);
    assert_eq!(app.snake.head.pos_x, 4);
}

#[test]
fn border_collision_ends_the_game() {
    let mut app = session_10x10();
    for _ in 0..5 {
        app.update(FIRST_STEP_US);
    }
    assert_eq!(app.snake.head.pos_x, 0);
    assert_eq!(app.game_status, GameStatus::GAMMING);
    app.update(FIRST_STEP_US);
    assert_eq!(app.game_status, GameStatus::GAMEOVER);
    assert_eq!(app.snake.head.pos_x, 0);
}

#[test]
fn pause_and_resume() {
    let mut app = session_10x10();
    app.key_press(Key::Space);
    assert_eq!(app.game_status, GameStatus::TIMEOUT);
    app.update(10 * FIRST_STEP_US);
    assert_eq!(app.snake.head.pos_x, 5);
    assert_eq!(app.update_time, 0);
    app.key_press(Key::Return);
    assert_eq!(app.game_status, GameStatus::GAMMING);
    app.key_press(Key::Return);
    assert_eq!(app.game_status, GameStatus::GAMMING);
    app.apply_command(Command::Resume);
    assert_eq!(app.game_status, GameStatus::GAMMING);
}

#[test]
fn restart_from_every_state() {
    let states = [GameStatus::GAMMING, GameStatus::TIMEOUT, GameStatus::GAMEOVER, GameStatus::RESTART];
    for status in states.iter() {
        let mut app = session_10x10();
        app.update(FIRST_STEP_US);
        app.tick(Fruit::new(2, 2));
        app.game_status = *status;
        app.apply_command(Command::Restart);
        assert_eq!(app.game_status, GameStatus::RESTART);
        app.update(0);
        assert_fresh(&app, 10, 10);
    }
}

#[test]
fn space_restarts_a_paused_or_ended_game() {
    let mut app = session_10x10();
    app.key_press(Key::Space);
    app.key_press(Key::Space);
    assert_eq!(app.game_status, GameStatus::RESTART);
    app.game_status = GameStatus::GAMEOVER;
    app.key_press(Key::Space);
    assert_eq!(app.game_status, GameStatus::RESTART);
}

#[test]
fn keys_turn_the_snake_once_per_step() {
    let mut app = session_10x10();
    assert_eq!(app.command_for(Key::Up), Some(Command::Turn(Direction::Up)));
    assert_eq!(app.command_for(Key::Other), None);
    app.key_press(Key::Right);
    assert_eq!(app.snake.direction, Direction::Left);
    app.key_press(Key::Up);
    app.key_press(Key::Down);
    app.key_press(Key::Left);
    assert_eq!(app.snake.direction, Direction::Up);
    app.key_press(Key::Other);
    app.update(FIRST_STEP_US);
    assert_eq!((app.snake.head.pos_x, app.snake.head.pos_y), (5, 4));
    assert!(!app.snake.direction_lock);
    app.key_press(Key::Right);
    assert_eq!(app.snake.direction, Direction::Right);
}
