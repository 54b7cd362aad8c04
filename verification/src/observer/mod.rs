//! Showing the state of a node to observers.

pub mod json;
pub mod socket;
