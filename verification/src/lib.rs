//! A potted plant that lives by the clock: it counts the days it has lived
//! and the days it has gone without water, dies when it has been left dry
//! for too long, sleeps on request, and remembers its best run.
//!
//! The library holds the plant's counters and the rules that move them, the
//! choices the screens make from the plant's state, and the keyboard
//! commands of the game. Reading the clock, drawing and storage live with
//! the program that uses it.

pub mod display;
pub mod game;
pub mod plant;
