//! Storage of the device: the event memory.

pub mod event_memory;
