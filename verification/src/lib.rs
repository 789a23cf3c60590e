//! A fixed-point arena survival simulation.
//!
//! A player is confined to a rectangular arena. Balls spawn on the arena's
//! walls, fly towards the player and are removed once they leave the arena;
//! the round stops when a ball touches the player. Every quantity is an
//! integer: lengths are counted in steps, time in nanoseconds, speeds in
//! steps per second, and a random fraction is a 24-bit numerator.

pub mod ball;
pub mod game;
pub mod motion;
pub mod player;
pub mod random;
pub mod spark;
pub mod state;
pub mod timer;
pub mod ui;
pub mod wall;
