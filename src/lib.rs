//! A terminal time utility: clock readings, a countdown timer and an alarm.
//!
//! The interactive parts are written as state machines: each function takes
//! the current state and one event (a tick, a key, a clock reading) and
//! returns the next state together with the terminal output to emit.
pub mod alarm;
pub mod clock;
pub mod format;
pub mod opts;
pub mod parse;
pub mod printer;
pub mod stopwatch;
pub mod timer;
