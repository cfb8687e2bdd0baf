//! Core state machine of a grid snake game: a snake of ordered segments
//! moves on a fixed 10x10 arena, eats food to grow, and the round resets
//! on collision with a wall or with its own body.

pub mod food;
pub mod game;
pub mod snake;
pub mod space;
