//! Clocks, timers, and the task that keeps two clocks together.

pub mod system;
pub mod task;
pub mod timer;
