//! The calibration service state machine.
//!
//! The service tracks which meter and display are connected, whether a
//! pattern generator is ready, the service phase, the active calibration
//! session and the abort request. Driver I/O and the measurement thread stay
//! with the caller; every decision about devices, sessions and runs is made
//! here. `C` is the session configuration, carried through unread.

use vstd::prelude::*;
use crate::text::texts;
use crate::ids::{new_prefixed_id, uuid_v4_text};
use crate::service::error::CalibrationError;
use crate::service::models::{
    AppState, CalibrationState, DeviceInfo, DisplayInfo, DisplayInfoView, ErrorEvent, MeterInfo,
    MeterInfoView,
};
use crate::text::same_text;

verus! {

/// The content of an active session.
pub struct SessionView<C> {
    pub id: Seq<char>,
    pub config: C,
}

/// The content of the service.
pub struct ServiceView<C> {
    pub meter: Option<MeterInfoView>,
    pub display: Option<DisplayInfoView>,
    pub pattern_gen_ready: bool,
    pub state: CalibrationState,
    pub use_mocks: bool,
    pub session: Option<SessionView<C>>,
    pub abort_requested: bool,
}

/// The meters the service knows, by identifier.
pub open spec fn known_meter(id: Seq<char>) -> Option<MeterInfoView> {
    if id == "i1-display-pro"@ {
        Some(
            MeterInfoView {
                id: "i1-display-pro"@,
                name: "i1 Display Pro Rev.B"@,
                serial: None,
                connected: true,
                capabilities: seq!["emissive"@, "xyz"@],
            },
        )
    } else if id == "i1-pro-2"@ {
        Some(
            MeterInfoView {
                id: "i1-pro-2"@,
                name: "i1 Pro 2"@,
                serial: None,
                connected: true,
                capabilities: seq!["emissive"@, "xyz"@, "spectrum"@],
            },
        )
    } else {
        None
    }
}

/// The displays the service knows, by identifier.
pub open spec fn known_display(id: Seq<char>) -> Option<DisplayInfoView> {
    if id == "lg-oled"@ {
        Some(
            DisplayInfoView {
                id: "lg-oled"@,
                name: "LG OLED"@,
                model: "LG OLED C1/C2/C3"@,
                connected: true,
                picture_mode: None,
            },
        )
    } else if id == "sony-projector"@ {
        Some(
            DisplayInfoView {
                id: "sony-projector"@,
                name: "Sony Projector"@,
                model: "Sony VPL-VW385ES"@,
                connected: true,
                picture_mode: None,
            },
        )
    } else {
        None
    }
}

/// Whether a display can be driven: every known display with mock
/// drivers, only the LG OLED with real ones.
pub open spec fn display_drivable(id: Seq<char>, use_mocks: bool) -> bool {
    known_display(id) is Some && (use_mocks || id == "lg-oled"@)
}

/// The service after connecting the meter `id`.
pub open spec fn after_connect_meter<C>(v: ServiceView<C>, id: Seq<char>) -> ServiceView<C> {
    match known_meter(id) {
        Some(info) => ServiceView { meter: Some(info), ..v },
        None => v,
    }
}

/// Whether the connected meter is `id`.
pub open spec fn meter_is<C>(v: ServiceView<C>, id: Seq<char>) -> bool {
    v.meter matches Some(m) && m.id == id
}

/// The service after disconnecting the meter `id`.
pub open spec fn after_disconnect_meter<C>(v: ServiceView<C>, id: Seq<char>) -> ServiceView<C> {
    if meter_is(v, id) {
        ServiceView { meter: None, ..v }
    } else {
        v
    }
}

/// The service after connecting the display `id`.
pub open spec fn after_connect_display<C>(v: ServiceView<C>, id: Seq<char>) -> ServiceView<C> {
    if display_drivable(id, v.use_mocks) {
        ServiceView { display: known_display(id), ..v }
    } else {
        v
    }
}

/// Whether the connected display is `id`.
pub open spec fn display_is<C>(v: ServiceView<C>, id: Seq<char>) -> bool {
    v.display matches Some(d) && d.id == id
}

/// The service after disconnecting the display `id`.
pub open spec fn after_disconnect_display<C>(v: ServiceView<C>, id: Seq<char>) -> ServiceView<C> {
    if display_is(v, id) {
        ServiceView { display: None, ..v }
    } else {
        v
    }
}

/// What keeps a run from starting.
pub enum RunBlocker {
    NoSession,
    NoMeter,
    NoDisplay,
}

/// What stops a run from starting, if anything: no session, then no meter,
/// then no display.
pub open spec fn run_blocker<C>(v: ServiceView<C>) -> Option<RunBlocker> {
    if v.session is None {
        Some(RunBlocker::NoSession)
    } else if v.meter is None {
        Some(RunBlocker::NoMeter)
    } else if v.display is None {
        Some(RunBlocker::NoDisplay)
    } else {
        None
    }
}

/// The service after a run start was attempted: a pattern generator is
/// made ready whenever a session exists; when nothing blocks the run the
/// abort request is cleared and the phase becomes `Connecting`.
pub open spec fn after_begin_run<C>(v: ServiceView<C>) -> ServiceView<C> {
    if v.session is None {
        v
    } else if run_blocker(v) is Some {
        ServiceView { pattern_gen_ready: true, ..v }
    } else {
        ServiceView {
            pattern_gen_ready: true,
            abort_requested: false,
            state: CalibrationState::Connecting,
            ..v
        }
    }
}

/// The service after a run ended, successfully or not.
pub open spec fn after_finish_run<C>(v: ServiceView<C>) -> ServiceView<C> {
    ServiceView { session: None, state: CalibrationState::Idle, ..v }
}

/// Connecting a known meter makes it the connected meter, whatever meter
/// was connected before; the last of two connects wins. The same holds of
/// displays the service can drive.
pub proof fn lemma_connect_replaces_device<C>(v: ServiceView<C>, first: Seq<char>, id: Seq<char>)
    ensures
        known_meter(id) matches Some(info) ==> after_connect_meter(v, id).meter == Some(info)
            && meter_is(after_connect_meter(v, id), id),
        known_meter(id) is Some ==> after_connect_meter(after_connect_meter(v, first), id)
            == after_connect_meter(v, id),
        known_meter(id) is Some ==> after_disconnect_meter(after_connect_meter(v, id), id).meter
            is None,
        known_meter(id) is None ==> after_connect_meter(v, id) == v,
        display_drivable(id, v.use_mocks) ==> after_connect_display(v, id).display == known_display(
            id,
        ) && display_is(after_connect_display(v, id), id),
        display_drivable(id, v.use_mocks) ==> after_connect_display(
            after_connect_display(v, first),
            id,
        ) == after_connect_display(v, id),
{
    if known_meter(id) is Some {
        assert(known_meter(id).unwrap().id == id);
    }
    if display_drivable(id, v.use_mocks) {
        assert(known_display(id).unwrap().id == id);
        assert(after_connect_display(v, first).use_mocks == v.use_mocks);
    }
}

/// Disconnecting the meter that was just connected restores the service.
pub proof fn lemma_disconnect_meter_undoes_connect<C>(v: ServiceView<C>, id: Seq<char>)
    requires
        known_meter(id) is Some,
        v.meter is None,
    ensures
        meter_is(after_connect_meter(v, id), id),
        after_disconnect_meter(after_connect_meter(v, id), id) == v,
{
}

/// Disconnecting the display that was just connected restores the service.
pub proof fn lemma_disconnect_display_undoes_connect<C>(v: ServiceView<C>, id: Seq<char>)
    requires
        display_drivable(id, v.use_mocks),
        v.display is None,
    ensures
        display_is(after_connect_display(v, id), id),
        after_disconnect_display(after_connect_display(v, id), id) == v,
{
}

/// A disconnect request naming another device changes nothing.
pub proof fn lemma_disconnect_other_changes_nothing<C>(v: ServiceView<C>, id: Seq<char>)
    ensures
        !meter_is(v, id) ==> after_disconnect_meter(v, id) == v,
        !display_is(v, id) ==> after_disconnect_display(v, id) == v,
{
}

/// Connecting or disconnecting one kind of device leaves the other kind,
/// the session, the phase and the abort request alone.
pub proof fn lemma_device_changes_are_independent<C>(v: ServiceView<C>, id: Seq<char>)
    ensures
        after_connect_meter(v, id).display == v.display,
        after_connect_meter(v, id).session == v.session,
        after_connect_meter(v, id).state == v.state,
        after_connect_meter(v, id).abort_requested == v.abort_requested,
        after_disconnect_meter(v, id).display == v.display,
        after_disconnect_meter(v, id).session == v.session,
        after_connect_display(v, id).meter == v.meter,
        after_connect_display(v, id).session == v.session,
        after_connect_display(v, id).state == v.state,
        after_disconnect_display(v, id).meter == v.meter,
        after_disconnect_display(v, id).session == v.session,
{
}

/// A run that starts and finishes leaves the service idle, without a
/// session or abort request, with its devices still connected.
pub proof fn lemma_run_lifecycle<C>(v: ServiceView<C>)
    requires
        run_blocker(v) is None,
    ensures
        after_begin_run(v).state == CalibrationState::Connecting,
        !after_begin_run(v).abort_requested,
        after_begin_run(v).session == v.session,
        after_finish_run(after_begin_run(v)).state == CalibrationState::Idle,
        after_finish_run(after_begin_run(v)).session is None,
        !after_finish_run(after_begin_run(v)).abort_requested,
        after_finish_run(after_begin_run(v)).meter == v.meter,
        after_finish_run(after_begin_run(v)).display == v.display,
        after_finish_run(after_begin_run(v)).pattern_gen_ready,
{
}

/// A blocked run start changes nothing but the pattern generator.
pub proof fn lemma_blocked_run_keeps_state<C>(v: ServiceView<C>)
    requires
        run_blocker(v) is Some,
    ensures
        after_begin_run(v) == (ServiceView { pattern_gen_ready: v.pattern_gen_ready || v.session is Some, ..v }),
{
}

/// An active calibration session.
struct CalibrationSession<C> {
    session_id: String,
    config: C,
}

/// The calibration service.
pub struct CalibrationService<C> {
    meter_info: Option<MeterInfo>,
    display_info: Option<DisplayInfo>,
    pattern_gen_ready: bool,
    state: CalibrationState,
    use_mocks: bool,
    active_session: Option<CalibrationSession<C>>,
    abort_requested: bool,
}

impl<C> View for CalibrationService<C> {
    type V = ServiceView<C>;

    closed spec fn view(&self) -> ServiceView<C> {
        ServiceView {
            meter: match self.meter_info {
                Some(m) => Some(m@),
                None => None,
            },
            display: match self.display_info {
                Some(d) => Some(d@),
                None => None,
            },
            pattern_gen_ready: self.pattern_gen_ready,
            state: self.state,
            use_mocks: self.use_mocks,
            session: match self.active_session {
                Some(s) => Some(SessionView { id: s.session_id@, config: s.config }),
                None => None,
            },
            abort_requested: self.abort_requested,
        }
    }
}

fn text_list2(a: &str, b: &str) -> (r: Vec<String>)
    ensures
        texts(r@) == seq![a@, b@],
{
    let mut v: Vec<String> = Vec::new();
    v.push(String::from_str(a));
    v.push(String::from_str(b));
    assert(texts(v@) =~= seq![a@, b@]);
    v
}

fn text_list3(a: &str, b: &str, c: &str) -> (r: Vec<String>)
    ensures
        texts(r@) == seq![a@, b@, c@],
{
    let mut v: Vec<String> = Vec::new();
    v.push(String::from_str(a));
    v.push(String::from_str(b));
    v.push(String::from_str(c));
    assert(texts(v@) =~= seq![a@, b@, c@]);
    v
}

fn meter_info(id: &str, name: &str, capabilities: Vec<String>) -> (r: MeterInfo)
    ensures
        r@ == (MeterInfoView {
            id: id@,
            name: name@,
            serial: None,
            connected: true,
            capabilities: texts(capabilities@),
        }),
{
    MeterInfo {
        id: String::from_str(id),
        name: String::from_str(name),
        serial: None,
        connected: true,
        capabilities,
    }
}

fn display_info(id: &str, name: &str, model: &str) -> (r: DisplayInfo)
    ensures
        r@ == (DisplayInfoView {
            id: id@,
            name: name@,
            model: model@,
            connected: true,
            picture_mode: None,
        }),
{
    DisplayInfo {
        id: String::from_str(id),
        name: String::from_str(name),
        model: String::from_str(model),
        connected: true,
        picture_mode: None,
    }
}

fn device_info(id: &str, name: &str, device_type: &str) -> (r: DeviceInfo)
    ensures
        r.id@ == id@,
        r.name@ == name@,
        r.device_type@ == device_type@,
        r.available,
{
    DeviceInfo {
        id: String::from_str(id),
        name: String::from_str(name),
        device_type: String::from_str(device_type),
        available: true,
    }
}

/// Looks up a known meter.
pub fn find_known_meter(meter_id: &str) -> (r: Result<MeterInfo, CalibrationError>)
    ensures
        known_meter(meter_id@) matches Some(info) ==> (r matches Ok(m) && m@ == info),
        known_meter(meter_id@) is None ==> (r matches Err(CalibrationError::MeterNotFound(id)) && id@
            == meter_id@),
{
    if same_text(meter_id, "i1-display-pro") {
        Ok(meter_info("i1-display-pro", "i1 Display Pro Rev.B", text_list2("emissive", "xyz")))
    } else if same_text(meter_id, "i1-pro-2") {
        Ok(meter_info("i1-pro-2", "i1 Pro 2", text_list3("emissive", "xyz", "spectrum")))
    } else {
        Err(CalibrationError::MeterNotFound(String::from_str(meter_id)))
    }
}

/// Looks up a known display.
pub fn find_known_display(display_id: &str) -> (r: Result<DisplayInfo, CalibrationError>)
    ensures
        known_display(display_id@) matches Some(info) ==> (r matches Ok(d) && d@ == info),
        known_display(display_id@) is None ==> (r matches Err(CalibrationError::DisplayNotFound(id))
            && id@ == display_id@),
{
    if same_text(display_id, "lg-oled") {
        Ok(display_info("lg-oled", "LG OLED", "LG OLED C1/C2/C3"))
    } else if same_text(display_id, "sony-projector") {
        Ok(display_info("sony-projector", "Sony Projector", "Sony VPL-VW385ES"))
    } else {
        Err(CalibrationError::DisplayNotFound(String::from_str(display_id)))
    }
}

impl<C> CalibrationService<C> {
    /// A service with mock drivers.
    pub fn new() -> (r: Self)
        ensures
            r@.use_mocks,
            r@.meter is None,
            r@.display is None,
            !r@.pattern_gen_ready,
            r@.state == CalibrationState::Idle,
            r@.session is None,
            !r@.abort_requested,
    {
        Self::with_mocks(true)
    }

    /// A service that drives mock devices or real ones.
    pub fn with_mocks(use_mocks: bool) -> (r: Self)
        ensures
            r@.use_mocks == use_mocks,
            r@.meter is None,
            r@.display is None,
            !r@.pattern_gen_ready,
            r@.state == CalibrationState::Idle,
            r@.session is None,
            !r@.abort_requested,
    {
        CalibrationService {
            meter_info: None,
            display_info: None,
            pattern_gen_ready: false,
            state: CalibrationState::Idle,
            use_mocks,
            active_session: None,
            abort_requested: false,
        }
    }

    /// Whether the service drives mock devices.
    pub fn uses_mocks(&self) -> (r: bool)
        ensures
            r == self@.use_mocks,
    {
        self.use_mocks
    }

    /// The service phase.
    pub fn get_state(&self) -> (r: CalibrationState)
        ensures
            r == self@.state,
    {
        self.state
    }

    /// Sets the service phase.
    pub fn set_state(&mut self, state: CalibrationState)
        ensures
            final(self)@ == (ServiceView { state, ..old(self)@ }),
    {
        self.state = state;
    }

    /// Opens a calibration session with a fresh `cal-` identifier; refused
    /// while another session is active.
    pub fn start_calibration_session(&mut self, config: C) -> (r: Result<String, CalibrationError>)
        ensures
            old(self)@.session is Some ==> (r matches Err(CalibrationError::SessionInProgress)
                && final(self)@ == old(self)@),
            old(self)@.session is None ==> (r matches Ok(id) && final(self)@ == (ServiceView {
                session: Some(SessionView { id: id@, config }),
                ..old(self)@
            }) && id@.len() == 40 && id@.subrange(0, 4) == "cal-"@ && uuid_v4_text(
                id@.subrange(4, 40),
            )),
    {
        if self.active_session.is_some() {
            return Err(CalibrationError::SessionInProgress);
        }
        let session_id = new_prefixed_id("cal-");
        proof {
            reveal_strlit("cal-");
        }
        let result = session_id.clone();
        self.active_session = Some(CalibrationSession { session_id, config });
        Ok(result)
    }

    /// The identifier of the active session, if any.
    pub fn get_active_session_id(&self) -> (r: Option<String>)
        ensures
            r is Some <==> self@.session is Some,
            r matches Some(id) ==> self@.session matches Some(s) && id@ == s.id,
    {
        match &self.active_session {
            Some(s) => Some(s.session_id.clone()),
            None => None,
        }
    }

    /// The configuration of the active session, if any.
    pub fn session_config(&self) -> (r: Option<&C>)
        ensures
            r is Some <==> self@.session is Some,
            r matches Some(c) ==> self@.session matches Some(s) && *c == s.config,
    {
        match &self.active_session {
            Some(s) => Some(&s.config),
            None => None,
        }
    }

    /// Closes the active session, if any.
    pub fn end_session(&mut self)
        ensures
            final(self)@ == (ServiceView { session: None, ..old(self)@ }),
    {
        self.active_session = None;
    }

    /// Connects a known meter and records it as the connected meter.
    pub fn connect_meter(&mut self, meter_id: &str) -> (r: Result<MeterInfo, CalibrationError>)
        ensures
            final(self)@ == after_connect_meter(old(self)@, meter_id@),
            known_meter(meter_id@) matches Some(info) ==> (r matches Ok(m) && m@ == info),
            known_meter(meter_id@) is None ==> (r matches Err(CalibrationError::MeterNotFound(id))
                && id@ == meter_id@),
    {
        let info = find_known_meter(meter_id)?;
        let result = info.copy();
        self.meter_info = Some(info);
        Ok(result)
    }

    /// Disconnects the meter `meter_id`; refused unless it is the connected
    /// meter.
    pub fn disconnect_meter(&mut self, meter_id: &str) -> (r: Result<(), CalibrationError>)
        ensures
            final(self)@ == after_disconnect_meter(old(self)@, meter_id@),
            r is Ok <==> meter_is(old(self)@, meter_id@),
            r is Err ==> (r matches Err(CalibrationError::MeterNotFound(id)) && id@ == meter_id@),
    {
        let matches = match &self.meter_info {
            Some(info) => same_text(info.id.as_str(), meter_id),
            None => false,
        };
        if !matches {
            return Err(CalibrationError::MeterNotFound(String::from_str(meter_id)));
        }
        self.meter_info = None;
        Ok(())
    }

    /// The connected meters: none or one.
    pub fn get_meter_info(&self) -> (r: Vec<MeterInfo>)
        ensures
            self@.meter is None ==> r@.len() == 0,
            self@.meter matches Some(m) ==> r@.len() == 1 && r@[0]@ == m,
    {
        let mut v: Vec<MeterInfo> = Vec::new();
        match &self.meter_info {
            Some(info) => v.push(info.copy()),
            None => {},
        }
        v
    }

    /// Connects a known display and records it as the connected display.
    /// With real drivers only the LG OLED can be driven.
    pub fn connect_display(&mut self, display_id: &str) -> (r: Result<DisplayInfo, CalibrationError>)
        ensures
            final(self)@ == after_connect_display(old(self)@, display_id@),
            display_drivable(display_id@, old(self)@.use_mocks) ==> (r matches Ok(d) && Some(d@)
                == known_display(display_id@)),
            !display_drivable(display_id@, old(self)@.use_mocks) ==> (r matches Err(
                CalibrationError::DisplayNotFound(id),
            ) && id@ == display_id@),
    {
        let info = find_known_display(display_id)?;
        if !self.use_mocks && !same_text(display_id, "lg-oled") {
            return Err(CalibrationError::DisplayNotFound(String::from_str(display_id)));
        }
        let result = info.copy();
        self.display_info = Some(info);
        Ok(result)
    }

    /// Makes a pattern generator ready.
    pub fn connect_pattern_generator(&mut self) -> (r: Result<(), CalibrationError>)
        ensures
            r is Ok,
            final(self)@ == (ServiceView { pattern_gen_ready: true, ..old(self)@ }),
    {
        self.pattern_gen_ready = true;
        Ok(())
    }

    /// Disconnects the display `display_id`; refused unless it is the
    /// connected display.
    pub fn disconnect_display(&mut self, display_id: &str) -> (r: Result<(), CalibrationError>)
        ensures
            final(self)@ == after_disconnect_display(old(self)@, display_id@),
            r is Ok <==> display_is(old(self)@, display_id@),
            r is Err ==> (r matches Err(CalibrationError::DisplayNotFound(id)) && id@ == display_id@),
    {
        let matches = match &self.display_info {
            Some(info) => same_text(info.id.as_str(), display_id),
            None => false,
        };
        if !matches {
            return Err(CalibrationError::DisplayNotFound(String::from_str(display_id)));
        }
        self.display_info = None;
        Ok(())
    }

    /// The connected displays: none or one.
    pub fn get_display_info(&self) -> (r: Vec<DisplayInfo>)
        ensures
            self@.display is None ==> r@.len() == 0,
            self@.display matches Some(d) ==> r@.len() == 1 && r@[0]@ == d,
    {
        let mut v: Vec<DisplayInfo> = Vec::new();
        match &self.display_info {
            Some(info) => v.push(info.copy()),
            None => {},
        }
        v
    }

    /// Every device the service can connect to: two meters, then two
    /// displays, all available.
    pub fn get_device_inventory(&self) -> (r: Vec<DeviceInfo>)
        ensures
            r@.len() == 4,
            r@[0].id@ == "i1-display-pro"@ && r@[0].name@ == "i1 Display Pro Rev.B"@
                && r@[0].device_type@ == "meter"@,
            r@[1].id@ == "i1-pro-2"@ && r@[1].name@ == "i1 Pro 2"@ && r@[1].device_type@
                == "meter"@,
            r@[2].id@ == "lg-oled"@ && r@[2].name@ == "LG OLED"@ && r@[2].device_type@
                == "display"@,
            r@[3].id@ == "sony-projector"@ && r@[3].name@ == "Sony Projector"@
                && r@[3].device_type@ == "display"@,
            forall|i: int| 0 <= i < 4 ==> (#[trigger] r@[i]).available,
    {
        let mut v: Vec<DeviceInfo> = Vec::new();
        v.push(device_info("i1-display-pro", "i1 Display Pro Rev.B", "meter"));
        v.push(device_info("i1-pro-2", "i1 Pro 2", "meter"));
        v.push(device_info("lg-oled", "LG OLED", "display"));
        v.push(device_info("sony-projector", "Sony Projector", "display"));
        v
    }

    /// Asks the running calibration to stop.
    pub fn request_abort(&mut self)
        ensures
            final(self)@ == (ServiceView { abort_requested: true, ..old(self)@ }),
    {
        self.abort_requested = true;
    }

    /// Withdraws an abort request.
    pub fn clear_abort(&mut self)
        ensures
            final(self)@ == (ServiceView { abort_requested: false, ..old(self)@ }),
    {
        self.abort_requested = false;
    }

    /// Whether an abort was requested.
    pub fn is_aborted(&self) -> (r: bool)
        ensures
            r == self@.abort_requested,
    {
        self.abort_requested
    }

    /// Asks the run of session `session_id` to stop; refused unless it is
    /// the active session.
    pub fn abort_calibration(&mut self, session_id: &str) -> (r: Result<(), CalibrationError>)
        ensures
            (old(self)@.session matches Some(s) && s.id == session_id@) ==> (r is Ok
                && final(self)@ == (ServiceView { abort_requested: true, ..old(self)@ })),
            !(old(self)@.session matches Some(s) && s.id == session_id@) ==> (r matches Err(
                CalibrationError::SessionNotFound(id),
            ) && id@ == session_id@ && final(self)@ == old(self)@),
    {
        let active = match &self.active_session {
            Some(s) => same_text(s.session_id.as_str(), session_id),
            None => false,
        };
        if !active {
            return Err(CalibrationError::SessionNotFound(String::from_str(session_id)));
        }
        self.request_abort();
        Ok(())
    }

    /// Prepares the run of the active session: makes a pattern generator
    /// ready, requires a connected meter and display, clears any abort
    /// request and enters `Connecting`.
    pub fn begin_run(&mut self, session_id: &str) -> (r: Result<(), CalibrationError>)
        ensures
            final(self)@ == after_begin_run(old(self)@),
            r is Ok <==> run_blocker(old(self)@) is None,
            run_blocker(old(self)@) == Some(RunBlocker::NoSession) ==> (r matches Err(
                CalibrationError::SessionNotFound(id),
            ) && id@ == session_id@),
            run_blocker(old(self)@) == Some(RunBlocker::NoMeter) ==> (r matches Err(
                CalibrationError::NoHardwareConnected { device },
            ) && device@ == "meter"@),
            run_blocker(old(self)@) == Some(RunBlocker::NoDisplay) ==> (r matches Err(
                CalibrationError::NoHardwareConnected { device },
            ) && device@ == "display"@),
    {
        if self.active_session.is_none() {
            return Err(CalibrationError::SessionNotFound(String::from_str(session_id)));
        }
        if !self.pattern_gen_ready {
            let _ = self.connect_pattern_generator();
        }
        if self.meter_info.is_none() {
            return Err(CalibrationError::NoHardwareConnected { device: String::from_str("meter") });
        }
        if self.display_info.is_none() {
            return Err(CalibrationError::NoHardwareConnected { device: String::from_str("display") });
        }
        self.clear_abort();
        self.set_state(CalibrationState::Connecting);
        Ok(())
    }

    /// Records the end of a run: the session is closed and the service is
    /// idle again.
    pub fn finish_run(&mut self)
        ensures
            final(self)@ == after_finish_run(old(self)@),
    {
        self.active_session = None;
        self.state = CalibrationState::Idle;
    }

    /// The event that reports a failed run: a warning that the calibration
    /// was aborted when an abort was requested, otherwise an error carrying
    /// `message`.
    pub fn run_failure_event(&self, message: &str) -> (r: ErrorEvent)
        ensures
            self@.abort_requested ==> r.severity@ == "warning"@ && r.message@
                == "Calibration aborted"@,
            !self@.abort_requested ==> r.severity@ == "error"@ && r.message@ == message@,
            r.source@ == "run_calibration"@,
    {
        if self.abort_requested {
            ErrorEvent {
                severity: String::from_str("warning"),
                message: String::from_str("Calibration aborted"),
                source: String::from_str("run_calibration"),
            }
        } else {
            ErrorEvent {
                severity: String::from_str("error"),
                message: String::from_str(message),
                source: String::from_str("run_calibration"),
            }
        }
    }

    /// A snapshot of the connected devices and the phase, without an error.
    pub fn app_state(&self) -> (r: AppState)
        ensures
            self@.meter is None ==> r.meters@.len() == 0,
            self@.meter matches Some(m) ==> r.meters@.len() == 1 && r.meters@[0]@ == m,
            self@.display is None ==> r.displays@.len() == 0,
            self@.display matches Some(d) ==> r.displays@.len() == 1 && r.displays@[0]@ == d,
            r.calibration_state == self@.state,
            r.last_error is None,
    {
        AppState {
            meters: self.get_meter_info(),
            displays: self.get_display_info(),
            calibration_state: self.get_state(),
            last_error: None,
        }
    }
}

} // verus!
