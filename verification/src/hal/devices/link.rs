//! The connection state shared by drivers reached at an IPv4 address.

use vstd::prelude::*;
use crate::hal::devices::util::{is_valid_ip, valid_ip_text};
use crate::hal::error::prefixed;

verus! {

/// An IPv4 address and whether a session with the device is open.
pub struct NetworkLink {
    ip: String,
    connected: bool,
}

impl NetworkLink {
    /// The address the link was made with.
    pub closed spec fn address(&self) -> Seq<char> {
        self.ip@
    }

    /// Whether the link is open.
    pub closed spec fn is_open(&self) -> bool {
        self.connected
    }

    /// A closed link to `ip`.
    pub fn new(ip: &str) -> (r: Self)
        ensures
            r.address() == ip@,
            !r.is_open(),
    {
        NetworkLink { ip: String::from_str(ip), connected: false }
    }

    /// Opens the link when the address is a valid IPv4 address; otherwise
    /// returns the reason and leaves the link as it was.
    pub fn open(&mut self) -> (r: Result<(), String>)
        ensures
            final(self).address() == old(self).address(),
            r is Ok <==> valid_ip_text(old(self).address()),
            r is Ok ==> final(self).is_open(),
            r matches Err(m) ==> m@ == "Invalid IP address: "@ + old(self).address(),
            r is Err ==> final(self).is_open() == old(self).is_open(),
    {
        if !is_valid_ip(self.ip.as_str()) {
            return Err(prefixed("Invalid IP address: ", self.ip.as_str()));
        }
        self.connected = true;
        Ok(())
    }

    /// Closes the link.
    pub fn close(&mut self)
        ensures
            final(self).address() == old(self).address(),
            !final(self).is_open(),
    {
        self.connected = false;
    }

    /// Whether the link is open.
    pub fn connected(&self) -> (r: bool)
        ensures
            r == self.is_open(),
    {
        self.connected
    }
}

} // verus!
