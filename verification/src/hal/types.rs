//! Plain data exchanged with displays and pattern generators.

use vstd::prelude::*;

verus! {

/// A test patch: RGB code values at a stated bit depth.
#[derive(Debug, Clone, Copy, PartialEq, Eq, Structural)]
pub struct Patch {
    pub r: u16,
    pub g: u16,
    pub b: u16,
    pub bit_depth: u8,
}

impl Patch {
    /// An 8-bit RGB patch.
    pub fn rgb8(r: u8, g: u8, b: u8) -> (p: Patch)
        ensures
            p.r == r,
            p.g == g,
            p.b == b,
            p.bit_depth == 8,
    {
        Patch { r: r as u16, g: g as u16, b: b as u16, bit_depth: 8 }
    }
}

/// Picture presets of a display, or a named custom preset.
#[derive(Debug, Clone)]
pub enum PictureMode {
    Cinema,
    Custom(String),
}

} // verus!
