//! A real-time "hot/cold" search game on a rectangular grid: one hidden
//! cell holds the solution, every other cell shows a hint toward it, a
//! blank, or a trap. This crate holds the game's rules; drawing, input
//! polling and the clock are left to the host.

pub mod rect;
pub mod timer;
pub mod difficulty;
pub mod xform;
pub mod grid;
pub mod round;
