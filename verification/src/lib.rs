//! Screen-text layout and input handling for a terminal system monitor.
//!
//! The library computes every string, width and state change that the
//! monitor's screen shows; drawing on the terminal is left to the caller.
pub mod text;
pub mod bytes;
pub mod titles;
pub mod table;
pub mod cpu_bars;
pub mod timebar;
pub mod detail;
pub mod renderer;
