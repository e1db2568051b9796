//! Tick clock and countdown timers that gate all periodic behavior.
pub mod countdown;
pub mod ticker;
pub mod time;
