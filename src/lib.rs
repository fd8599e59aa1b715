//! Ball-and-paddle game logic on fixed-point positions.

pub mod ball;
pub mod fixed;
pub mod game;
pub mod geometry;
pub mod paddle;
pub mod sprite;
