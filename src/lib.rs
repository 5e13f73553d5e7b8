//! A terminal snake game engine: board geometry, the snake's movement and
//! collision rules, food placement, scoring, per-tick state transitions and
//! the construction of each frame's cell grid.
pub mod geometry;
pub mod snake;
pub mod food;
pub mod frame;
pub mod controls;
pub mod game;
