//! The state machines of a port.

pub mod actions;
pub mod message_laws;
pub mod sequence_id;
pub mod slave;
pub mod slave_laws;
pub mod task;
