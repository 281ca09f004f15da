//! Meter error classification and measurement modes.

use vstd::prelude::*;
use crate::hal::error::prefixed;

verus! {

/// Errors of a colorimeter or spectrophotometer.
#[derive(Debug, Clone)]
pub enum MeterError {
    Disconnected,
    Timeout,
    Saturated,
    UnlockFailed,
    NotInstalled,
    NoOutput,
    JoinError(String),
    CalibrationRequired,
    InvalidMode,
    SequenceExhausted,
    Other(String),
}

impl MeterError {
    /// Whether a retry may succeed: lost connection, timeout, saturation,
    /// missing output, a failed background task and unclassified errors.
    /// A finished measurement sequence is a clean end, not a transient error.
    pub open spec fn transient(&self) -> bool {
        match self {
            MeterError::Disconnected => true,
            MeterError::Timeout => true,
            MeterError::Saturated => true,
            MeterError::NoOutput => true,
            MeterError::JoinError(_) => true,
            MeterError::Other(_) => true,
            MeterError::SequenceExhausted => false,
            MeterError::UnlockFailed => false,
            MeterError::NotInstalled => false,
            MeterError::CalibrationRequired => false,
            MeterError::InvalidMode => false,
        }
    }

    /// Returns true if this error is transient and may resolve on retry.
    pub fn is_transient(&self) -> (r: bool)
        ensures
            r == self.transient(),
    {
        match self {
            MeterError::Disconnected => true,
            MeterError::Timeout => true,
            MeterError::Saturated => true,
            MeterError::NoOutput => true,
            MeterError::JoinError(_) => true,
            MeterError::Other(_) => true,
            MeterError::SequenceExhausted => false,
            MeterError::UnlockFailed => false,
            MeterError::NotInstalled => false,
            MeterError::CalibrationRequired => false,
            MeterError::InvalidMode => false,
        }
    }

    /// The human-readable message of this error.
    pub open spec fn message(&self) -> Seq<char> {
        match self {
            MeterError::Disconnected => "Meter disconnected"@,
            MeterError::Timeout => "Measurement timed out"@,
            MeterError::Saturated => "Signal saturated"@,
            MeterError::UnlockFailed => "Failed to unlock meter"@,
            MeterError::NotInstalled => "Driver not installed"@,
            MeterError::NoOutput => "No output from meter"@,
            MeterError::JoinError(m) => "Task join error: "@ + m@,
            MeterError::CalibrationRequired => "Meter requires calibration"@,
            MeterError::InvalidMode => "Invalid measurement mode"@,
            MeterError::SequenceExhausted => "Measurement sequence exhausted"@,
            MeterError::Other(m) => m@,
        }
    }

    /// Renders the error message.
    pub fn to_string(&self) -> (r: String)
        ensures
            r@ == self.message(),
    {
        match self {
            MeterError::Disconnected => String::from_str("Meter disconnected"),
            MeterError::Timeout => String::from_str("Measurement timed out"),
            MeterError::Saturated => String::from_str("Signal saturated"),
            MeterError::UnlockFailed => String::from_str("Failed to unlock meter"),
            MeterError::NotInstalled => String::from_str("Driver not installed"),
            MeterError::NoOutput => String::from_str("No output from meter"),
            MeterError::JoinError(m) => prefixed("Task join error: ", m.as_str()),
            MeterError::CalibrationRequired => String::from_str("Meter requires calibration"),
            MeterError::InvalidMode => String::from_str("Invalid measurement mode"),
            MeterError::SequenceExhausted => String::from_str("Measurement sequence exhausted"),
            MeterError::Other(m) => String::from_str(m.as_str()),
        }
    }
}

/// Measurement mode of a meter.
#[derive(Debug, Clone, Copy, PartialEq, Eq, Hash, Structural)]
pub enum MeasurementMode {
    Emissive,
    Ambient,
    Flash,
    Telephoto,
    Reflective,
    Transmissive,
}

} // verus!
