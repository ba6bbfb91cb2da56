//! A terminal breakout game: ball physics, paddle control, the brick grid and
//! the screen state machine, with their behaviour stated and proved.

pub mod ball;
pub mod geometry;
pub mod game;
pub mod grid;
pub mod paddle;
