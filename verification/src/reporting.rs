//! Calibration report rendering.

pub mod engine;
pub mod pages;
pub mod template;
