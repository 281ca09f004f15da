//! Hardware abstraction: error types, meter error classification, pattern
//! generator interface, shared data types and the device drivers.

pub mod devices;
pub mod error;
pub mod meter;
pub mod pattern_gen;
pub mod types;
