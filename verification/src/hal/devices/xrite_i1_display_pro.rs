//! i1 Display Pro colorimeter reached through a device path.

use vstd::prelude::*;
use crate::hal::error::MeterError;

verus! {

/// Colorimeter driver bound to a device path.
pub struct I1DisplayPro {
    device_path: String,
    connected: bool,
}

impl I1DisplayPro {
    /// The device path the driver was made with.
    pub closed spec fn path(&self) -> Seq<char> {
        self.device_path@
    }

    /// Whether a session with the meter is open.
    pub closed spec fn is_connected(&self) -> bool {
        self.connected
    }

    /// A disconnected driver for the meter at `device_path`.
    pub fn new(device_path: &str) -> (r: Self)
        ensures
            r.path() == device_path@,
            !r.is_connected(),
    {
        I1DisplayPro { device_path: String::from_str(device_path), connected: false }
    }

    /// Opens the session; the device path is not checked.
    pub fn connect(&mut self) -> (r: Result<(), MeterError>)
        ensures
            r is Ok,
            final(self).path() == old(self).path(),
            final(self).is_connected(),
    {
        self.connected = true;
        Ok(())
    }

    /// Ends the session.
    pub fn disconnect(&mut self)
        ensures
            final(self).path() == old(self).path(),
            !final(self).is_connected(),
    {
        self.connected = false;
    }

    /// The instrument model name.
    pub fn model(&self) -> (r: &'static str)
        ensures
            r@ == "i1 Display Pro Rev.B"@,
    {
        "i1 Display Pro Rev.B"
    }
}

} // verus!
