//! Error types of the display, meter and pattern generator drivers.

use vstd::prelude::*;

verus! {

/// Joins a fixed prefix and a detail text.
pub fn prefixed(prefix: &str, detail: &str) -> (r: String)
    ensures
        r@ == prefix@ + detail@,
{
    let mut s = String::from_str(prefix);
    s.append(detail);
    s
}

/// Errors reported by display controllers.
#[derive(Debug, Clone)]
pub enum DisplayError {
    ConnectionFailed(String),
    ProtocolError(String),
}

impl DisplayError {
    /// The human-readable message of this error.
    pub open spec fn message(&self) -> Seq<char> {
        match self {
            DisplayError::ConnectionFailed(m) => "Connection failed: "@ + m@,
            DisplayError::ProtocolError(m) => "Protocol error: "@ + m@,
        }
    }

    /// Renders the error message.
    pub fn to_string(&self) -> (r: String)
        ensures
            r@ == self.message(),
    {
        match self {
            DisplayError::ConnectionFailed(m) => prefixed("Connection failed: ", m.as_str()),
            DisplayError::ProtocolError(m) => prefixed("Protocol error: ", m.as_str()),
        }
    }
}

/// Errors reported by meter drivers.
#[derive(Debug, Clone)]
pub enum MeterError {
    ConnectionFailed(String),
    ReadTimeout,
    InvalidResponse(String),
}

impl MeterError {
    /// The human-readable message of this error.
    pub open spec fn message(&self) -> Seq<char> {
        match self {
            MeterError::ConnectionFailed(m) => "Connection failed: "@ + m@,
            MeterError::ReadTimeout => "Read timeout"@,
            MeterError::InvalidResponse(m) => "Invalid response: "@ + m@,
        }
    }

    /// Renders the error message.
    pub fn to_string(&self) -> (r: String)
        ensures
            r@ == self.message(),
    {
        match self {
            MeterError::ConnectionFailed(m) => prefixed("Connection failed: ", m.as_str()),
            MeterError::ReadTimeout => String::from_str("Read timeout"),
            MeterError::InvalidResponse(m) => prefixed("Invalid response: ", m.as_str()),
        }
    }
}

/// Errors reported by pattern generator drivers.
#[derive(Debug, Clone)]
pub enum PatternGenError {
    DisplayError(String),
    ConnectionFailed(String),
}

impl PatternGenError {
    /// The human-readable message of this error.
    pub open spec fn message(&self) -> Seq<char> {
        match self {
            PatternGenError::DisplayError(m) => "Display error: "@ + m@,
            PatternGenError::ConnectionFailed(m) => "Connection failed: "@ + m@,
        }
    }

    /// Renders the error message.
    pub fn to_string(&self) -> (r: String)
        ensures
            r@ == self.message(),
    {
        match self {
            PatternGenError::DisplayError(m) => prefixed("Display error: ", m.as_str()),
            PatternGenError::ConnectionFailed(m) => prefixed("Connection failed: ", m.as_str()),
        }
    }
}

} // verus!
