//! The decisions of a Precision Time Protocol node, as verified state machines.
//!
//! Nothing in this crate performs input or output. Each machine takes an event,
//! moves to its next state and names the action to perform; whoever drives it
//! performs the action and hands the outcome back as the next event.

pub mod args;
pub mod clock;
pub mod messages;
pub mod observer;
pub mod port;
pub mod time;
