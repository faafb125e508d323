//! The simulation core of a side-scrolling runner: a player who charges and
//! releases jumps, obstacles that spawn ahead of a moving camera and are
//! recycled behind it, and a parallax backdrop.
//!
//! Everything is computed on integers. Lengths are in world units, a thousand
//! to the pixel; times are in microseconds; speeds are in units per second.
//! Drawing produces a list of commands for a renderer to carry out.

pub mod units;
pub mod geometry;
pub mod color;
pub mod canvas;
pub mod drawable;
pub mod random;
pub mod figure;
pub mod player;
pub mod obstacle;
pub mod scenery;
pub mod utils;
pub mod game;
