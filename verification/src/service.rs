//! The calibration service: devices, sessions and the run protocol.

pub mod error;
pub mod models;
pub mod state;
