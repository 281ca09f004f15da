//! X-Rite instrument command codes, status bytes and the decoding of
//! instrument replies.

use vstd::prelude::*;
use crate::hal::error::MeterError;
use crate::text::{hex_fixed, push_hex_fixed};

verus! {

pub const CMD_GET_FIRMWARE: u8 = 0x01;
pub const CMD_SET_EMISSIVE: u8 = 0x02;
pub const CMD_TRIGGER_MEASURE: u8 = 0x03;
pub const CMD_READ_XYZ: u8 = 0x04;
pub const CMD_READ_SPECTRUM: u8 = 0x05;
pub const CMD_INITIALIZE: u8 = 0x06;
pub const CMD_SET_INTEGRATION_TIME: u8 = 0x07;

/// Status byte at the head of an instrument reply.
#[derive(Debug, Clone, Copy, PartialEq, Eq, Structural)]
pub enum XriteStatus {
    Success,
    Busy,
    Error,
    InitializationRequired,
}

/// The status a reply byte stands for: 0x00 ok, 0x01 busy, 0xFE
/// initialization required, anything else an error.
pub open spec fn status_of(b: u8) -> XriteStatus {
    if b == 0x00 {
        XriteStatus::Success
    } else if b == 0x01 {
        XriteStatus::Busy
    } else if b == 0xFE {
        XriteStatus::InitializationRequired
    } else {
        XriteStatus::Error
    }
}

impl XriteStatus {
    /// Classifies a status byte.
    pub fn from_byte(b: u8) -> (r: Self)
        ensures
            r == status_of(b),
    {
        match b {
            0x00 => XriteStatus::Success,
            0x01 => XriteStatus::Busy,
            0xFE => XriteStatus::InitializationRequired,
            _ => XriteStatus::Error,
        }
    }

    /// Whether the status reports success.
    pub fn is_ok(self) -> (r: bool)
        ensures
            r == (self == XriteStatus::Success),
    {
        match self {
            XriteStatus::Success => true,
            _ => false,
        }
    }

    /// The byte that stands for this status on the wire.
    pub fn to_byte(self) -> (b: u8)
        ensures
            status_of(b) == self,
            self == XriteStatus::Success ==> b == 0x00,
            self == XriteStatus::Busy ==> b == 0x01,
            self == XriteStatus::Error ==> b == 0xFF,
            self == XriteStatus::InitializationRequired ==> b == 0xFE,
    {
        match self {
            XriteStatus::Success => 0x00,
            XriteStatus::Busy => 0x01,
            XriteStatus::Error => 0xFF,
            XriteStatus::InitializationRequired => 0xFE,
        }
    }
}

/// Whether a reply reports a failure: it is non-empty and its status byte
/// is not the ok status.
pub open spec fn reply_rejects(resp: Seq<u8>) -> bool {
    resp.len() > 0 && resp[0] != 0x00
}

/// Checks the reply to a mode or setting command; an empty reply counts as
/// accepted, a reply whose status is not ok fails with `what`.
pub fn check_setting_reply(resp: &[u8], what: &str) -> (r: Result<(), MeterError>)
    ensures
        r is Ok <==> !reply_rejects(resp@),
        r matches Err(e) ==> e matches MeterError::ConnectionFailed(m) && m@ == what@,
{
    if resp.len() > 0 && !XriteStatus::from_byte(resp[0]).is_ok() {
        return Err(MeterError::ConnectionFailed(String::from_str(what)));
    }
    Ok(())
}

/// Checks the reply to the initialization command: it must be non-empty
/// with an ok status, otherwise "Initialization failed".
pub fn check_initialize_reply(resp: &[u8]) -> (r: Result<(), MeterError>)
    ensures
        r is Ok <==> (resp@.len() > 0 && resp@[0] == 0x00),
        r matches Err(e) ==> e matches MeterError::ConnectionFailed(m) && m@
            == "Initialization failed"@,
{
    if resp.len() == 0 || !XriteStatus::from_byte(resp[0]).is_ok() {
        return Err(MeterError::ConnectionFailed(String::from_str("Initialization failed")));
    }
    Ok(())
}

/// The little-endian 32-bit word at `off` of `s`.
pub open spec fn le_word(s: Seq<u8>, off: int) -> u32 {
    (s[off] as int + s[off + 1] as int * 0x100 + s[off + 2] as int * 0x10000 + s[off + 3] as int
        * 0x1000000) as u32
}

fn read_le_word(s: &[u8], off: usize) -> (w: u32)
    requires
        off + 4 <= s@.len(),
    ensures
        w == le_word(s@, off as int),
{
    let b0 = s[off] as u32;
    let b1 = s[off + 1] as u32;
    let b2 = s[off + 2] as u32;
    let b3 = s[off + 3] as u32;
    b0 + b1 * 0x100 + b2 * 0x10000 + b3 * 0x1000000
}

/// The raw 32-bit patterns of the three tristimulus values of a reply, in
/// the order X, Y, Z; each is an IEEE-754 single-precision float.
#[derive(Debug, Clone, Copy, PartialEq, Eq, Structural)]
pub struct XyzWords {
    pub x: u32,
    pub y: u32,
    pub z: u32,
}

/// The text of a failed-status error: `prefix` and the status byte as two
/// upper-case hex digits.
pub open spec fn status_failure_text(prefix: Seq<char>, status: u8) -> Seq<char> {
    prefix + hex_fixed(status as nat, 2)
}

fn status_failure(prefix: &str, status: u8) -> (r: MeterError)
    ensures
        r matches MeterError::InvalidResponse(m) && m@ == status_failure_text(prefix@, status),
{
    let mut m = String::from_str(prefix);
    push_hex_fixed(&mut m, status as u64, 2);
    MeterError::InvalidResponse(m)
}

/// Decodes a measurement reply: at least 14 bytes, status ok, then the
/// X, Y and Z words little-endian at offsets 2, 6 and 10.
pub fn decode_xyz_reply(resp: &[u8]) -> (r: Result<XyzWords, MeterError>)
    ensures
        resp@.len() < 14 ==> (r matches Err(MeterError::InvalidResponse(m)) && m@
            == "Response too short"@),
        resp@.len() >= 14 && resp@[0] != 0x00 ==> (r matches Err(MeterError::InvalidResponse(m))
            && m@ == status_failure_text("Measurement failed: status "@, resp@[0])),
        resp@.len() >= 14 && resp@[0] == 0x00 ==> r == Ok::<XyzWords, MeterError>(
            XyzWords {
                x: le_word(resp@, 2),
                y: le_word(resp@, 6),
                z: le_word(resp@, 10),
            },
        ),
{
    if resp.len() < 14 {
        return Err(MeterError::InvalidResponse(String::from_str("Response too short")));
    }
    if !XriteStatus::from_byte(resp[0]).is_ok() {
        return Err(status_failure("Measurement failed: status ", resp[0]));
    }
    Ok(XyzWords { x: read_le_word(resp, 2), y: read_le_word(resp, 6), z: read_le_word(resp, 10) })
}

/// Number of spectral bands in a spectrum reply.
pub const SPECTRUM_BANDS: usize = 36;

/// Decodes a spectrum reply: at least 14 + 36 * 4 bytes, status ok, then
/// 36 little-endian words from offset 14; each is an IEEE-754
/// single-precision float.
pub fn decode_spectrum_reply(resp: &[u8]) -> (r: Result<Vec<u32>, MeterError>)
    ensures
        resp@.len() < 158 ==> (r matches Err(MeterError::InvalidResponse(m)) && m@
            == "Spectrum response too short"@),
        resp@.len() >= 158 && resp@[0] != 0x00 ==> (r matches Err(MeterError::InvalidResponse(m))
            && m@ == status_failure_text("Spectrum read failed: status "@, resp@[0])),
        resp@.len() >= 158 && resp@[0] == 0x00 ==> (r matches Ok(words) && words@.len() == 36
            && forall|i: int| 0 <= i < 36 ==> #[trigger] words@[i] == le_word(resp@, 14 + 4 * i)),
{
    if resp.len() < 14 + SPECTRUM_BANDS * 4 {
        return Err(MeterError::InvalidResponse(String::from_str("Spectrum response too short")));
    }
    if !XriteStatus::from_byte(resp[0]).is_ok() {
        return Err(status_failure("Spectrum read failed: status ", resp[0]));
    }
    let mut words: Vec<u32> = Vec::new();
    let mut i: usize = 0;
    while i < SPECTRUM_BANDS
        invariant
            i <= 36,
            resp@.len() >= 158,
            words@.len() == i,
            forall|k: int| 0 <= k < i ==> #[trigger] words@[k] == le_word(resp@, 14 + 4 * k),
        decreases 36 - i,
    {
        words.push(read_le_word(resp, 14 + i * 4));
        i = i + 1;
    }
    Ok(words)
}

} // verus!
