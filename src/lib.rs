//! The portable core of a Grand Central Dispatch binding: quality-of-service
//! classes with their raw encodings and their mapping from abstract task
//! priorities, and the memory-provider trait used to bridge owned buffers
//! into dispatch data.
//!
//! The foreign calls into libdispatch itself, and the C-layout value types
//! they take, live in the thin layer that sits around this crate.

pub mod external_data;
pub mod qos;

pub use qos::QoS;
