//! USB framing for the i1 Pro 2: error texts, command reports and the reply
//! polling decision.

use vstd::prelude::*;
use crate::hal::error::prefixed;
use crate::text::{hex_fixed, push_hex_fixed};

verus! {

pub const GRETAGMACBETH_VID: u16 = 0x0971;
pub const I1_PRO_2_PID: u16 = 0x2000;

/// Length of a command report.
pub const REPORT_LEN: usize = 64;

/// Errors of the USB transport.
#[derive(Debug, Clone)]
pub enum UsbUtilError {
    ContextInit(String),
    DeviceNotFound { vid: u16, pid: u16 },
    OpenFailed(String),
    ClaimFailed(String),
    WriteFailed(String),
    ReadFailed(String),
}

impl UsbUtilError {
    /// The human-readable message of this error.
    pub open spec fn message(&self) -> Seq<char> {
        match self {
            UsbUtilError::ContextInit(m) => "USB context init failed: "@ + m@,
            UsbUtilError::DeviceNotFound { vid, pid } => "Device not found: VID "@ + hex_fixed(
                *vid as nat,
                4,
            ) + ", PID "@ + hex_fixed(*pid as nat, 4),
            UsbUtilError::OpenFailed(m) => "USB open failed: "@ + m@,
            UsbUtilError::ClaimFailed(m) => "Claim interface failed: "@ + m@,
            UsbUtilError::WriteFailed(m) => "Write failed: "@ + m@,
            UsbUtilError::ReadFailed(m) => "Read failed: "@ + m@,
        }
    }

    /// Renders the error message.
    pub fn to_string(&self) -> (r: String)
        ensures
            r@ == self.message(),
    {
        match self {
            UsbUtilError::ContextInit(m) => prefixed("USB context init failed: ", m.as_str()),
            UsbUtilError::DeviceNotFound { vid, pid } => {
                let mut s = String::from_str("Device not found: VID ");
                push_hex_fixed(&mut s, *vid as u64, 4);
                s.append(", PID ");
                push_hex_fixed(&mut s, *pid as u64, 4);
                s
            },
            UsbUtilError::OpenFailed(m) => prefixed("USB open failed: ", m.as_str()),
            UsbUtilError::ClaimFailed(m) => prefixed("Claim interface failed: ", m.as_str()),
            UsbUtilError::WriteFailed(m) => prefixed("Write failed: ", m.as_str()),
            UsbUtilError::ReadFailed(m) => prefixed("Read failed: ", m.as_str()),
        }
    }
}

/// The 64-byte command report: the command code, then at most 63 payload
/// bytes, then zeros.
pub open spec fn command_report_bytes(cmd: u8, payload: Seq<u8>) -> Seq<u8> {
    Seq::new(
        64,
        |i: int|
            if i == 0 {
                cmd
            } else if i - 1 < payload.len() {
                payload[i - 1]
            } else {
                0u8
            },
    )
}

/// Builds the report that carries command `cmd` with `payload`; payload
/// bytes beyond the 63th are dropped.
pub fn command_report(cmd: u8, payload: &[u8]) -> (r: Vec<u8>)
    ensures
        r@ == command_report_bytes(cmd, payload@),
{
    let mut report: Vec<u8> = Vec::new();
    report.push(cmd);
    let n = payload.len();
    let mut i: usize = 1;
    while i < REPORT_LEN
        invariant
            1 <= i <= 64,
            n == payload@.len(),
            report@.len() == i,
            forall|k: int| 0 <= k < i ==> #[trigger] report@[k] == command_report_bytes(cmd, payload@)[k],
        decreases 64 - i,
    {
        if i - 1 < n {
            report.push(payload[i - 1]);
        } else {
            report.push(0u8);
        }
        i = i + 1;
    }
    assert(report@ =~= command_report_bytes(cmd, payload@));
    report
}

/// What to do after one read attempt while waiting for a reply.
#[derive(Debug, Clone, Copy, PartialEq, Eq, Structural)]
pub enum ReadStep {
    /// A reply of this many bytes arrived; it is the answer.
    Received(usize),
    /// No reply and the waiting time is over.
    TimedOut,
    /// No reply yet; wait and read again.
    Wait,
}

/// Decides the next step of reply polling from the bytes just read, the
/// milliseconds elapsed since the first attempt and the timeout. The
/// timeout is compared as `timeout_ms as u128`, so a negative timeout
/// stands for a bound near `u128::MAX`.
pub fn read_step(n: usize, elapsed_ms: u128, timeout_ms: i32) -> (r: ReadStep)
    ensures
        n > 0 ==> r == ReadStep::Received(n),
        n == 0 && elapsed_ms > timeout_ms as u128 ==> r == ReadStep::TimedOut,
        n == 0 && elapsed_ms <= timeout_ms as u128 ==> r == ReadStep::Wait,
{
    if n > 0 {
        ReadStep::Received(n)
    } else if elapsed_ms > timeout_ms as u128 {
        ReadStep::TimedOut
    } else {
        ReadStep::Wait
    }
}

} // verus!
