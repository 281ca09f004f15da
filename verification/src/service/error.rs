//! Errors of the calibration service.

use vstd::prelude::*;
use crate::hal::error::prefixed;

verus! {

/// Errors of the calibration service.
#[derive(Debug, Clone)]
pub enum CalibrationError {
    MeterNotFound(String),
    DisplayNotFound(String),
    MeterInUse(String),
    Internal(String),
    SessionInProgress,
    SessionNotFound(String),
    NoHardwareConnected { device: String },
}

/// `prefix`, the subject and `suffix`.
fn surround(prefix: &str, subject: &str, suffix: &str) -> (r: String)
    ensures
        r@ == prefix@ + subject@ + suffix@,
{
    let mut s = prefixed(prefix, subject);
    s.append(suffix);
    s
}

impl CalibrationError {
    /// The human-readable message of this error.
    pub open spec fn message(&self) -> Seq<char> {
        match self {
            CalibrationError::MeterNotFound(id) => "Meter "@ + id@ + " not found. Is it plugged in?"@,
            CalibrationError::DisplayNotFound(id) => "Display "@ + id@
                + " not found. Check network connection."@,
            CalibrationError::MeterInUse(id) => "Meter "@ + id@
                + " is already in use by another process."@,
            CalibrationError::Internal(m) => "Operation failed: "@ + m@,
            CalibrationError::SessionInProgress => "A calibration session is already in progress"@,
            CalibrationError::SessionNotFound(id) => "Session "@ + id@ + " not found"@,
            CalibrationError::NoHardwareConnected { device } => "No "@ + device@ + " connected"@,
        }
    }

    /// Renders the error message.
    pub fn to_string(&self) -> (r: String)
        ensures
            r@ == self.message(),
    {
        match self {
            CalibrationError::MeterNotFound(id) => surround(
                "Meter ",
                id.as_str(),
                " not found. Is it plugged in?",
            ),
            CalibrationError::DisplayNotFound(id) => surround(
                "Display ",
                id.as_str(),
                " not found. Check network connection.",
            ),
            CalibrationError::MeterInUse(id) => surround(
                "Meter ",
                id.as_str(),
                " is already in use by another process.",
            ),
            CalibrationError::Internal(m) => prefixed("Operation failed: ", m.as_str()),
            CalibrationError::SessionInProgress => String::from_str(
                "A calibration session is already in progress",
            ),
            CalibrationError::SessionNotFound(id) => surround("Session ", id.as_str(), " not found"),
            CalibrationError::NoHardwareConnected { device } => surround(
                "No ",
                device.as_str(),
                " connected",
            ),
        }
    }
}

} // verus!
