//! Sony projector controller reached over the network.

use vstd::prelude::*;
use crate::hal::devices::link::NetworkLink;
use crate::hal::devices::util::valid_ip_text;
use crate::hal::error::DisplayError;

verus! {

/// Controller for a Sony projector.
pub struct SonyProjectorController {
    link: NetworkLink,
}

impl SonyProjectorController {
    /// The address the controller was made with.
    pub closed spec fn address(&self) -> Seq<char> {
        self.link.address()
    }

    /// Whether a session with the projector is open.
    pub closed spec fn is_connected(&self) -> bool {
        self.link.is_open()
    }

    /// A disconnected controller for the projector at `ip`.
    pub fn new(ip: &str) -> (r: Self)
        ensures
            r.address() == ip@,
            !r.is_connected(),
    {
        SonyProjectorController { link: NetworkLink::new(ip) }
    }

    /// Connects when the address is a valid IPv4 address.
    pub fn connect(&mut self) -> (r: Result<(), DisplayError>)
        ensures
            final(self).address() == old(self).address(),
            r is Ok <==> valid_ip_text(old(self).address()),
            r is Ok ==> final(self).is_connected(),
            r matches Err(DisplayError::ConnectionFailed(m)) ==> m@ == "Invalid IP address: "@
                + old(self).address(),
            r is Err ==> r matches Err(DisplayError::ConnectionFailed(_)),
            r is Err ==> final(self).is_connected() == old(self).is_connected(),
    {
        match self.link.open() {
            Ok(()) => Ok(()),
            Err(m) => Err(DisplayError::ConnectionFailed(m)),
        }
    }

    /// Ends the session.
    pub fn disconnect(&mut self)
        ensures
            final(self).address() == old(self).address(),
            !final(self).is_connected(),
    {
        self.link.close();
    }
}

} // verus!
