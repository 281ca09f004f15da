//! Settings and session state of the i1 Display Pro colorimeter driver.
//!
//! The HID transport stays with the caller; this type holds what the driver
//! decides on: the integration time, the serial number and whether a session
//! is open.

use vstd::prelude::*;
use crate::hal::error::MeterError;

verus! {

/// Shortest integration time the meter accepts, in milliseconds.
pub const MIN_INTEGRATION_TIME_MS: u32 = 80;

/// Longest integration time the meter accepts, in milliseconds.
pub const MAX_INTEGRATION_TIME_MS: u32 = 5000;

/// Integration time of a fresh driver, in milliseconds.
pub const DEFAULT_INTEGRATION_TIME_MS: u32 = 200;

/// `ms` limited to the range the meter accepts.
pub open spec fn clamped_integration_time(ms: u32) -> u32 {
    if ms < 80 {
        80
    } else if ms > 5000 {
        5000
    } else {
        ms
    }
}

/// State of the i1 Display Pro driver.
pub struct I1DisplayPro {
    serial: Option<String>,
    integration_time_ms: u32,
    connected: bool,
}

impl I1DisplayPro {
    /// Integration time used for the next measurement, in milliseconds.
    pub closed spec fn integration_time(&self) -> u32 {
        self.integration_time_ms
    }

    /// Serial number reported by the meter, if known.
    pub closed spec fn serial_text(&self) -> Option<Seq<char>> {
        match self.serial {
            Some(s) => Some(s@),
            None => None,
        }
    }

    /// Whether a session with the meter is open.
    pub closed spec fn is_connected(&self) -> bool {
        self.connected
    }

    /// A disconnected driver with the default integration time.
    pub fn new() -> (r: Self)
        ensures
            r.integration_time() == DEFAULT_INTEGRATION_TIME_MS,
            r.serial_text() is None,
            !r.is_connected(),
    {
        I1DisplayPro { serial: None, integration_time_ms: DEFAULT_INTEGRATION_TIME_MS, connected: false }
    }

    /// The integration time, in milliseconds.
    pub fn integration_time_ms(&self) -> (r: u32)
        ensures
            r == self.integration_time(),
    {
        self.integration_time_ms
    }

    /// Sets the integration time, limited to 80..=5000 ms.
    pub fn set_integration_time(&mut self, ms: u32)
        ensures
            final(self).integration_time() == clamped_integration_time(ms),
            final(self).serial_text() == old(self).serial_text(),
            final(self).is_connected() == old(self).is_connected(),
    {
        self.integration_time_ms = if ms < MIN_INTEGRATION_TIME_MS {
            MIN_INTEGRATION_TIME_MS
        } else if ms > MAX_INTEGRATION_TIME_MS {
            MAX_INTEGRATION_TIME_MS
        } else {
            ms
        };
    }

    /// The serial number, if known.
    pub fn serial(&self) -> (r: Option<&str>)
        ensures
            r is Some <==> self.serial_text() is Some,
            r matches Some(s) ==> self.serial_text() == Some(s@),
    {
        match &self.serial {
            Some(s) => Some(s.as_str()),
            None => None,
        }
    }

    /// The instrument model name.
    pub fn model(&self) -> (r: &'static str)
        ensures
            r@ == "i1 Display Pro Rev.B"@,
    {
        "i1 Display Pro Rev.B"
    }

    /// Records that the meter accepted the session set-up.
    pub fn mark_connected(&mut self)
        ensures
            final(self).is_connected(),
            final(self).integration_time() == old(self).integration_time(),
            final(self).serial_text() == old(self).serial_text(),
    {
        self.connected = true;
    }

    /// Records that the session ended.
    pub fn mark_disconnected(&mut self)
        ensures
            !final(self).is_connected(),
            final(self).integration_time() == old(self).integration_time(),
            final(self).serial_text() == old(self).serial_text(),
    {
        self.connected = false;
    }

    /// Decides what a measurement at `ms` needs first: refused unless
    /// connected; otherwise the little-endian payload of the
    /// set-integration-time command when `ms` differs from the current
    /// integration time, or nothing.
    pub fn plan_measurement(&self, ms: u32) -> (r: Result<Option<Vec<u8>>, MeterError>)
        ensures
            !self.is_connected() ==> (r matches Err(MeterError::ConnectionFailed(m)) && m@
                == "Not connected"@),
            self.is_connected() && ms == self.integration_time() ==> r matches Ok(None),
            self.is_connected() && ms != self.integration_time() ==> (r matches Ok(Some(p))
                && p@ == le_bytes_u32(ms)),
    {
        if !self.connected {
            return Err(MeterError::ConnectionFailed(String::from_str("Not connected")));
        }
        if ms != self.integration_time_ms {
            Ok(Some(u32_le_bytes(ms)))
        } else {
            Ok(None)
        }
    }

    /// Records the integration time the meter accepted for a measurement.
    pub fn record_integration_time(&mut self, ms: u32)
        ensures
            final(self).integration_time() == ms,
            final(self).serial_text() == old(self).serial_text(),
            final(self).is_connected() == old(self).is_connected(),
    {
        self.integration_time_ms = ms;
    }
}

/// The four bytes of `v`, least significant first.
pub open spec fn le_bytes_u32(v: u32) -> Seq<u8> {
    seq![
        (v % 0x100) as u8,
        ((v / 0x100) % 0x100) as u8,
        ((v / 0x10000) % 0x100) as u8,
        (v / 0x1000000) as u8,
    ]
}

/// The little-endian bytes of `v`.
pub fn u32_le_bytes(v: u32) -> (r: Vec<u8>)
    ensures
        r@ == le_bytes_u32(v),
{
    let mut r: Vec<u8> = Vec::new();
    r.push((v % 0x100) as u8);
    r.push(((v / 0x100) % 0x100) as u8);
    r.push(((v / 0x10000) % 0x100) as u8);
    r.push((v / 0x1000000) as u8);
    assert(r@ =~= le_bytes_u32(v));
    r
}

} // verus!
