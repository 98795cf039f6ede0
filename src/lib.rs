//! A grid-based snake simulation: blocks, walls, fruit, the snake, collision
//! classification, and the game session with its state machine and tick driver.

pub mod block;
pub mod collision;
pub mod fruit;
mod random;
pub mod wall;
pub mod snake;
pub mod game;
