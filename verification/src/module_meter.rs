//! The meter module: measurement history, export fields and the command
//! protocol of connected meters.

pub mod export;
pub mod meter_module;
