//! Verified core of a display-calibration toolkit: device protocol
//! decisions, meter response decoding, text rendering helpers, measurement
//! history and the calibration service state machine.

pub mod text;
pub mod hal;
pub mod hal_meters;
pub mod service;
pub mod ids;
pub mod clock;
pub mod calibration;
pub mod reporting;
pub mod module_meter;
