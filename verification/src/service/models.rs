//! Data exchanged between the calibration service and its front end.

use vstd::prelude::*;
use crate::text::texts;

verus! {

/// A connected or known meter.
#[derive(Debug, Clone)]
pub struct MeterInfo {
    pub id: String,
    pub name: String,
    pub serial: Option<String>,
    pub connected: bool,
    pub capabilities: Vec<String>,
}

/// The content of a `MeterInfo`.
pub struct MeterInfoView {
    pub id: Seq<char>,
    pub name: Seq<char>,
    pub serial: Option<Seq<char>>,
    pub connected: bool,
    pub capabilities: Seq<Seq<char>>,
}

/// The text of an optional text.
pub open spec fn opt_text(s: Option<String>) -> Option<Seq<char>> {
    match s {
        Some(t) => Some(t@),
        None => None,
    }
}

impl View for MeterInfo {
    type V = MeterInfoView;

    open spec fn view(&self) -> MeterInfoView {
        MeterInfoView {
            id: self.id@,
            name: self.name@,
            serial: opt_text(self.serial),
            connected: self.connected,
            capabilities: texts(self.capabilities@),
        }
    }
}

impl MeterInfo {
    /// A field-by-field copy.
    pub fn copy(&self) -> (r: Self)
        ensures
            r@ == self@,
    {
        MeterInfo {
            id: self.id.clone(),
            name: self.name.clone(),
            serial: copy_opt_string(&self.serial),
            connected: self.connected,
            capabilities: copy_strings(&self.capabilities),
        }
    }
}

/// A copy of an optional text.
pub fn copy_opt_string(s: &Option<String>) -> (r: Option<String>)
    ensures
        opt_text(r) == opt_text(*s),
{
    match s {
        Some(t) => Some(t.clone()),
        None => None,
    }
}

/// A copy of a list of texts.
pub fn copy_strings(v: &Vec<String>) -> (r: Vec<String>)
    ensures
        texts(r@) == texts(v@),
{
    let mut out: Vec<String> = Vec::new();
    let mut i: usize = 0;
    while i < v.len()
        invariant
            i <= v.len(),
            texts(out@) == texts(v@.take(i as int)),
        decreases v.len() - i,
    {
        let ghost prev = out@;
        let c = v[i].clone();
        out.push(c);
        proof {
            assert(v@.take(i + 1) =~= v@.take(i as int).push(v@[i as int]));
            assert(out@ == prev.push(c));
            assert(texts(out@) =~= texts(prev).push(c@));
            assert(texts(v@.take(i + 1)) =~= texts(v@.take(i as int)).push(v@[i as int]@));
        }
        i = i + 1;
    }
    assert(v@.take(v.len() as int) =~= v@);
    out
}

/// A connected or known display.
#[derive(Debug, Clone)]
pub struct DisplayInfo {
    pub id: String,
    pub name: String,
    pub model: String,
    pub connected: bool,
    pub picture_mode: Option<String>,
}

/// The content of a `DisplayInfo`.
pub struct DisplayInfoView {
    pub id: Seq<char>,
    pub name: Seq<char>,
    pub model: Seq<char>,
    pub connected: bool,
    pub picture_mode: Option<Seq<char>>,
}

impl View for DisplayInfo {
    type V = DisplayInfoView;

    open spec fn view(&self) -> DisplayInfoView {
        DisplayInfoView {
            id: self.id@,
            name: self.name@,
            model: self.model@,
            connected: self.connected,
            picture_mode: opt_text(self.picture_mode),
        }
    }
}

impl DisplayInfo {
    /// A field-by-field copy.
    pub fn copy(&self) -> (r: Self)
        ensures
            r@ == self@,
    {
        DisplayInfo {
            id: self.id.clone(),
            name: self.name.clone(),
            model: self.model.clone(),
            connected: self.connected,
            picture_mode: copy_opt_string(&self.picture_mode),
        }
    }
}

/// Phase of the calibration service.
#[derive(Debug, Clone, Copy, PartialEq, Eq, Structural)]
pub enum CalibrationState {
    Idle,
    Connecting,
    Measuring,
    GeneratingLut,
    Uploading,
    Verifying,
    Error,
}

impl Default for CalibrationState {
    fn default() -> (r: Self)
        ensures
            r == CalibrationState::Idle,
    {
        CalibrationState::Idle
    }
}

/// Snapshot of the connected devices and the service phase.
#[derive(Debug, Clone)]
pub struct AppState {
    pub meters: Vec<MeterInfo>,
    pub displays: Vec<DisplayInfo>,
    pub calibration_state: CalibrationState,
    pub last_error: Option<String>,
}

/// A device the service can connect to.
#[derive(Debug, Clone)]
pub struct DeviceInfo {
    pub id: String,
    pub name: String,
    pub device_type: String,
    pub available: bool,
}

/// A device was connected or disconnected.
#[derive(Debug, Clone)]
pub struct DeviceStatusEvent {
    pub device_id: String,
    pub device_type: String,
    pub connected: bool,
    pub info: String,
}

/// The service moved from one phase to another.
#[derive(Debug, Clone)]
pub struct CalibrationStateEvent {
    pub old_state: CalibrationState,
    pub new_state: CalibrationState,
    pub message: String,
}

/// Something went wrong; `severity` is "error" or "warning".
#[derive(Debug, Clone)]
pub struct ErrorEvent {
    pub severity: String,
    pub message: String,
    pub source: String,
}

/// Patch set and scale of a profiling run.
#[derive(Debug, Clone)]
pub struct ProfilingConfig {
    pub patch_set: String,
    pub patch_scale: String,
}

} // verus!
