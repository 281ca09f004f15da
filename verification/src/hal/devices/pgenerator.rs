//! PGenerator network pattern generator.

use vstd::prelude::*;
use crate::hal::devices::link::NetworkLink;
use crate::hal::devices::util::valid_ip_text;
use crate::hal::error::PatternGenError;
use crate::hal::types::Patch;

verus! {

/// Driver for a PGenerator device.
pub struct PGenerator {
    link: NetworkLink,
}

impl PGenerator {
    /// The address the driver was made with.
    pub closed spec fn address(&self) -> Seq<char> {
        self.link.address()
    }

    /// Whether a session with the generator is open.
    pub closed spec fn is_connected(&self) -> bool {
        self.link.is_open()
    }

    /// A disconnected driver for the generator at `ip`.
    pub fn new(ip: &str) -> (r: Self)
        ensures
            r.address() == ip@,
            !r.is_connected(),
    {
        PGenerator { link: NetworkLink::new(ip) }
    }

    /// Connects when the address is a valid IPv4 address.
    pub fn connect(&mut self) -> (r: Result<(), PatternGenError>)
        ensures
            final(self).address() == old(self).address(),
            r is Ok <==> valid_ip_text(old(self).address()),
            r is Ok ==> final(self).is_connected(),
            r matches Err(PatternGenError::ConnectionFailed(m)) ==> m@ == "Invalid IP address: "@
                + old(self).address(),
            r is Err ==> r matches Err(PatternGenError::ConnectionFailed(_)),
            r is Err ==> final(self).is_connected() == old(self).is_connected(),
    {
        match self.link.open() {
            Ok(()) => Ok(()),
            Err(m) => Err(PatternGenError::ConnectionFailed(m)),
        }
    }

    /// Ends the session.
    pub fn disconnect(&mut self)
        ensures
            final(self).address() == old(self).address(),
            !final(self).is_connected(),
    {
        self.link.close();
    }

    /// Shows a patch; refused with "Not connected" unless connected.
    pub fn display_patch(&mut self, _patch: &Patch) -> (r: Result<(), PatternGenError>)
        ensures
            *final(self) == *old(self),
            r is Ok <==> old(self).is_connected(),
            r is Err ==> (r matches Err(PatternGenError::ConnectionFailed(m)) && m@ == "Not connected"@),
    {
        if !self.link.connected() {
            return Err(PatternGenError::ConnectionFailed(String::from_str("Not connected")));
        }
        Ok(())
    }
}

} // verus!
