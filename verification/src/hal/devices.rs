//! Drivers for displays, projectors, pattern generators and the colorimeter
//! reached through a device path.

pub mod lg_internal;
pub mod lg_oled;
pub mod link;
pub mod pgenerator;
pub mod sony_projector;
pub mod util;
pub mod xrite_i1_display_pro;
