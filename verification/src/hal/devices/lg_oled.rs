//! LG OLED television controller reached over the network.

use vstd::prelude::*;
use crate::hal::devices::link::NetworkLink;
use crate::hal::devices::util::valid_ip_text;
use crate::hal::error::DisplayError;

verus! {

/// Whether `r` is the "not connected" refusal of a display command.
pub open spec fn refused_not_connected(r: Result<(), DisplayError>) -> bool {
    r matches Err(DisplayError::ConnectionFailed(m)) && m@ == "Not connected"@
}

/// The result of a display command: `Ok` exactly when connected.
pub open spec fn display_command_result(connected: bool, r: Result<(), DisplayError>) -> bool {
    &&& r is Ok <==> connected
    &&& r is Err ==> refused_not_connected(r)
}

pub(crate) fn not_connected() -> (r: Result<(), DisplayError>)
    ensures
        refused_not_connected(r),
{
    Err(DisplayError::ConnectionFailed(String::from_str("Not connected")))
}

/// Controller for an LG OLED display.
pub struct LgOledController {
    link: NetworkLink,
}

impl LgOledController {
    /// The address the controller was made with.
    pub closed spec fn address(&self) -> Seq<char> {
        self.link.address()
    }

    /// Whether a session with the display is open.
    pub closed spec fn is_connected(&self) -> bool {
        self.link.is_open()
    }

    /// A disconnected controller for the display at `ip`.
    pub fn new(ip: &str) -> (r: Self)
        ensures
            r.address() == ip@,
            !r.is_connected(),
    {
        LgOledController { link: NetworkLink::new(ip) }
    }

    /// Connects when the address is a valid IPv4 address.
    pub fn connect(&mut self) -> (r: Result<(), DisplayError>)
        ensures
            final(self).address() == old(self).address(),
            r is Ok <==> valid_ip_text(old(self).address()),
            r is Ok ==> final(self).is_connected(),
            r matches Err(DisplayError::ConnectionFailed(m)) ==> m@ == "Invalid IP address: "@
                + old(self).address(),
            r is Err ==> r matches Err(DisplayError::ConnectionFailed(_)),
            r is Err ==> final(self).is_connected() == old(self).is_connected(),
    {
        match self.link.open() {
            Ok(()) => Ok(()),
            Err(m) => Err(DisplayError::ConnectionFailed(m)),
        }
    }

    /// Ends the session.
    pub fn disconnect(&mut self)
        ensures
            final(self).address() == old(self).address(),
            !final(self).is_connected(),
    {
        self.link.close();
    }

    /// Selects a picture mode; refused unless connected.
    pub fn set_picture_mode(&mut self, _mode: &str) -> (r: Result<(), DisplayError>)
        ensures
            *final(self) == *old(self),
            display_command_result(old(self).is_connected(), r),
    {
        if !self.link.connected() {
            return not_connected();
        }
        Ok(())
    }

    /// Uploads a per-channel 1D LUT; refused unless connected.
    pub fn upload_1d_lut<L>(&mut self, _lut: &L) -> (r: Result<(), DisplayError>)
        ensures
            *final(self) == *old(self),
            display_command_result(old(self).is_connected(), r),
    {
        if !self.link.connected() {
            return not_connected();
        }
        Ok(())
    }

    /// Uploads a 3D LUT; refused unless connected.
    pub fn upload_3d_lut<L>(&mut self, _lut: &L) -> (r: Result<(), DisplayError>)
        ensures
            *final(self) == *old(self),
            display_command_result(old(self).is_connected(), r),
    {
        if !self.link.connected() {
            return not_connected();
        }
        Ok(())
    }

    /// Sets the white balance gains; refused unless connected.
    pub fn set_white_balance<G>(&mut self, _gains: G) -> (r: Result<(), DisplayError>)
        ensures
            *final(self) == *old(self),
            display_command_result(old(self).is_connected(), r),
    {
        if !self.link.connected() {
            return not_connected();
        }
        Ok(())
    }
}

} // verus!
