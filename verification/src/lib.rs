//! Double-tap detection on a Linux input device: picking the keyboard among
//! the input-event nodes, recognising two quick presses of the left Super
//! key, and winding the watch loop down once a stop has been seen.
//!
//! Everything here works on plain values, so that the rules can be stated
//! and proved; opening devices, reading the clock, catching signals and
//! starting the launcher are left to the program built on top.

pub mod error;
pub mod input;
pub mod coordinator;
pub mod detector;
pub mod resolver;
pub mod text;
