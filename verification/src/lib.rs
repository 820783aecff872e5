//! Core of a grid-based snake game: a collision engine over "bordered"
//! shapes (points and polylines given as coordinate sequences) and the
//! path model that grows and shrinks the snake's corner list as it moves.
//!
//! All coordinates are integer grid units; the game advances one unit step
//! per logic tick, so every position a shape can reach lies on the grid.

pub mod collision;
pub mod coord;
pub mod game;
pub mod point;
pub mod snake;
pub mod walls;

pub use collision::check_collisions;
pub use collision::Collidable;
