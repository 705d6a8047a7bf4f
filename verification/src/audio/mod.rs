//! Audio sample buffering.

pub mod devices;
pub mod ringbuffer;
