//! X-Rite instrument support: command codes, reply decoding, USB reports,
//! the i1 Display Pro settings and colorimeter profiling checks.

pub mod commands;
pub mod hid_util;
pub mod i1_display_pro;
pub mod i1_pro_2;
pub mod profiling;
pub mod usb_util;
