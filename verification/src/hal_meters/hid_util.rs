//! USB identities of the supported X-Rite HID instruments.

use vstd::prelude::*;

verus! {

/// Vendor and product identifiers and the model name of an instrument.
#[derive(Debug, Clone, Copy, PartialEq, Eq)]
pub struct XriteDevice {
    pub vid: u16,
    pub pid: u16,
    pub name: &'static str,
}

/// X-Rite's USB vendor identifier.
pub const XRITE_VID: u16 = 0x0765;

/// The i1 Display Pro Rev.B colorimeter.
pub fn i1_display_pro() -> (d: XriteDevice)
    ensures
        d.vid == XRITE_VID,
        d.pid == 0x5020,
        d.name@ == "i1 Display Pro Rev.B"@,
{
    XriteDevice { vid: XRITE_VID, pid: 0x5020, name: "i1 Display Pro Rev.B" }
}

/// The i1 Pro 2 spectrophotometer.
pub fn i1_pro_2() -> (d: XriteDevice)
    ensures
        d.vid == XRITE_VID,
        d.pid == 0x5034,
        d.name@ == "i1 Pro 2"@,
{
    XriteDevice { vid: XRITE_VID, pid: 0x5034, name: "i1 Pro 2" }
}

} // verus!
