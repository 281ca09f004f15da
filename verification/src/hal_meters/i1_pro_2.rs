//! Session state and command decisions of the i1 Pro 2 spectrophotometer
//! driver.
//!
//! The USB transport stays with the caller, which holds the open device
//! exactly while this state says connected; this type decides which
//! command goes out, with which read timeout, and what a reply means.

use vstd::prelude::*;
use crate::hal::error::MeterError;
use crate::hal_meters::commands::{check_setting_reply, reply_rejects, CMD_INITIALIZE, CMD_TRIGGER_MEASURE};

verus! {

/// Time allowed for the replies of the connection commands, in milliseconds.
pub const CONNECT_REPLY_TIMEOUT_MS: i32 = 2000;

/// Time allowed for the reply to the initialization command, in milliseconds.
pub const INITIALIZE_REPLY_TIMEOUT_MS: i32 = 10000;

/// Time allowed for the reply to a spectrum measurement, in milliseconds.
pub const SPECTRUM_REPLY_TIMEOUT_MS: i32 = 8000;

/// The read timeout of a tristimulus measurement: the integration time,
/// taken as a signed 32-bit value, plus two seconds.
pub open spec fn xyz_read_timeout(integration_time_ms: u32) -> int {
    if integration_time_ms <= i32::MAX {
        integration_time_ms + 2000
    } else {
        integration_time_ms - 0x1_0000_0000 + 2000
    }
}

/// State of the i1 Pro 2 driver.
pub struct I1Pro2 {
    serial: Option<String>,
    connected: bool,
}

impl I1Pro2 {
    /// Serial number reported by the instrument, if known.
    pub closed spec fn serial_text(&self) -> Option<Seq<char>> {
        match self.serial {
            Some(s) => Some(s@),
            None => None,
        }
    }

    /// Whether the device is open and in emissive mode.
    pub closed spec fn is_connected(&self) -> bool {
        self.connected
    }

    /// A driver with no open device.
    pub fn new() -> (r: Self)
        ensures
            !r.is_connected(),
            r.serial_text() is None,
    {
        I1Pro2 { serial: None, connected: false }
    }

    /// The serial number, if known.
    pub fn serial(&self) -> (r: Option<&str>)
        ensures
            r is Some <==> self.serial_text() is Some,
            r matches Some(s) ==> self.serial_text() == Some(s@),
    {
        match &self.serial {
            Some(s) => Some(s.as_str()),
            None => None,
        }
    }

    /// The instrument model name.
    pub fn model(&self) -> (r: &'static str)
        ensures
            r@ == "i1 Pro 2"@,
    {
        "i1 Pro 2"
    }

    /// Finishes a connection from the reply to the emissive-mode command:
    /// an empty or ok reply connects the driver; a failed status leaves it
    /// as it was and fails with "Failed to set emissive mode".
    pub fn complete_connect(&mut self, emissive_reply: &[u8]) -> (r: Result<(), MeterError>)
        ensures
            r is Ok <==> !reply_rejects(emissive_reply@),
            r is Ok ==> final(self).is_connected(),
            r is Err ==> final(self).is_connected() == old(self).is_connected(),
            r matches Err(e) ==> (e matches MeterError::ConnectionFailed(m) && m@
                == "Failed to set emissive mode"@),
            final(self).serial_text() == old(self).serial_text(),
    {
        match check_setting_reply(emissive_reply, "Failed to set emissive mode") {
            Ok(()) => {
                self.connected = true;
                Ok(())
            },
            Err(e) => Err(e),
        }
    }

    /// Closes the session.
    pub fn disconnect(&mut self)
        ensures
            !final(self).is_connected(),
            final(self).serial_text() == old(self).serial_text(),
    {
        self.connected = false;
    }

    /// The command that starts an initialization, or "Device not open".
    pub fn plan_initialize(&self) -> (r: Result<u8, MeterError>)
        ensures
            self.is_connected() ==> r == Ok::<u8, MeterError>(CMD_INITIALIZE),
            !self.is_connected() ==> (r matches Err(MeterError::ConnectionFailed(m)) && m@
                == "Device not open"@),
    {
        if self.connected {
            Ok(CMD_INITIALIZE)
        } else {
            Err(MeterError::ConnectionFailed(String::from_str("Device not open")))
        }
    }

    /// The command that starts a spectrum measurement, or "Device not open".
    pub fn plan_read_spectrum(&self) -> (r: Result<u8, MeterError>)
        ensures
            self.is_connected() ==> r == Ok::<u8, MeterError>(CMD_TRIGGER_MEASURE),
            !self.is_connected() ==> (r matches Err(MeterError::ConnectionFailed(m)) && m@
                == "Device not open"@),
    {
        if self.connected {
            Ok(CMD_TRIGGER_MEASURE)
        } else {
            Err(MeterError::ConnectionFailed(String::from_str("Device not open")))
        }
    }

    /// The read timeout of a tristimulus measurement with the given
    /// integration time, or "Not connected".
    pub fn plan_read_xyz(&self, integration_time_ms: u32) -> (r: Result<i32, MeterError>)
        requires
            self.is_connected() ==> xyz_read_timeout(integration_time_ms) <= i32::MAX,
        ensures
            self.is_connected() ==> (r matches Ok(t) && t == xyz_read_timeout(integration_time_ms)),
            !self.is_connected() ==> (r matches Err(MeterError::ConnectionFailed(m)) && m@
                == "Not connected"@),
    {
        if !self.connected {
            return Err(MeterError::ConnectionFailed(String::from_str("Not connected")));
        }
        if integration_time_ms <= 0x7fff_ffff {
            Ok((integration_time_ms as i32) + 2000)
        } else {
            let high: u32 = integration_time_ms - 0x8000_0000;
            Ok((high as i32) + (i32::MIN + 2000))
        }
    }
}

} // verus!
