//! The meter module's command protocol and its table of connected meters.
//!
//! JSON payload decoding and the meter drivers stay with the caller; this
//! module decides which command runs, which instrument may be connected and
//! which connected meter a request addresses, and it keeps the history of
//! measurements with its CSV export. `D` is the driver of a connected
//! meter.

use vstd::prelude::*;
use crate::hal::error::prefixed;
use crate::ids::{new_prefixed_id, uuid_v4_text};
use crate::module_meter::export::{
    csv_document, csv_header, csv_record_for, csv_row, history_after_push, push_history,
    ExportRow,
};
use crate::text::same_text;
use std::collections::VecDeque;

verus! {

/// Errors of module commands.
#[derive(Debug, Clone)]
pub enum CommandError {
    InvalidPayload(String),
    ExecutionFailed(String),
    UnknownCommand(String),
}

/// What a module can do.
#[derive(Debug, Clone, Copy, PartialEq, Eq, Structural)]
pub enum ModuleCapability {
    Measurement,
    Standalone,
    HardwareProbe,
}

/// The commands of the meter module.
#[derive(Debug, Clone, Copy, PartialEq, Eq, Structural)]
pub enum MeterCommand {
    Detect,
    Connect,
    Disconnect,
    Read,
    ExportJson,
    ExportCsv,
    ClearHistory,
}

/// The command a name selects.
pub open spec fn command_named(name: Seq<char>) -> Option<MeterCommand> {
    if name == "detect"@ {
        Some(MeterCommand::Detect)
    } else if name == "connect"@ {
        Some(MeterCommand::Connect)
    } else if name == "disconnect"@ {
        Some(MeterCommand::Disconnect)
    } else if name == "read"@ {
        Some(MeterCommand::Read)
    } else if name == "export_json"@ {
        Some(MeterCommand::ExportJson)
    } else if name == "export_csv"@ {
        Some(MeterCommand::ExportCsv)
    } else if name == "clear_history"@ {
        Some(MeterCommand::ClearHistory)
    } else {
        None
    }
}

/// Selects the command named `cmd`; other names are refused as unknown.
pub fn parse_command(cmd: &str) -> (r: Result<MeterCommand, CommandError>)
    ensures
        command_named(cmd@) matches Some(c) ==> r == Ok::<MeterCommand, CommandError>(c),
        command_named(cmd@) is None ==> (r matches Err(CommandError::UnknownCommand(m)) && m@
            == cmd@),
{
    if same_text(cmd, "detect") {
        Ok(MeterCommand::Detect)
    } else if same_text(cmd, "connect") {
        Ok(MeterCommand::Connect)
    } else if same_text(cmd, "disconnect") {
        Ok(MeterCommand::Disconnect)
    } else if same_text(cmd, "read") {
        Ok(MeterCommand::Read)
    } else if same_text(cmd, "export_json") {
        Ok(MeterCommand::ExportJson)
    } else if same_text(cmd, "export_csv") {
        Ok(MeterCommand::ExportCsv)
    } else if same_text(cmd, "clear_history") {
        Ok(MeterCommand::ClearHistory)
    } else {
        Err(CommandError::UnknownCommand(String::from_str(cmd)))
    }
}

/// Identifier of the only instrument the module can detect: the mock meter.
pub const FAKE_INSTRUMENT_ID: &'static str = "fake-meter-1";

/// Checks that `instrument_id` names a detectable instrument; otherwise
/// "instrument <id> not found".
pub fn check_instrument(instrument_id: &str) -> (r: Result<(), CommandError>)
    ensures
        r is Ok <==> instrument_id@ == FAKE_INSTRUMENT_ID@,
        r is Err ==> (r matches Err(CommandError::ExecutionFailed(m)) && m@ == "instrument "@
            + instrument_id@ + " not found"@),
{
    if same_text(instrument_id, FAKE_INSTRUMENT_ID) {
        return Ok(());
    }
    let mut m = prefixed("instrument ", instrument_id);
    m.append(" not found");
    Err(CommandError::ExecutionFailed(m))
}


/// A command the module offers, with its description.
#[derive(Debug, Clone, Copy, PartialEq, Eq)]
pub struct ModuleCommandDef {
    pub name: &'static str,
    pub description: &'static str,
}

/// The commands of the module, as (name, description), in the order listed.
pub open spec fn command_table() -> Seq<(Seq<char>, Seq<char>)> {
    seq![
        ("detect"@, "Enumerate connected instruments"@),
        ("connect"@, "Connect to an instrument by ID"@),
        ("disconnect"@, "Disconnect an instrument"@),
        ("read"@, "Take a single measurement"@),
    ]
}

/// An instrument the module can connect to.
#[derive(Debug, Clone)]
pub struct DetectedInstrument {
    pub id: String,
    pub model: String,
    pub manufacturer: String,
    pub instrument_type: String,
    pub connection_method: String,
    pub native_driver_available: bool,
}

/// A connected meter.
pub struct ActiveMeter<D> {
    pub meter_id: String,
    pub instrument_id: String,
    pub instrument_model: String,
    pub driver: D,
}

/// Position of the last entry whose meter identifier is `id`.
pub open spec fn lookup<D>(s: Seq<ActiveMeter<D>>, id: Seq<char>) -> Option<int>
    decreases s.len(),
{
    if s.len() == 0 {
        None
    } else if s.last().meter_id@ == id {
        Some(s.len() - 1)
    } else {
        lookup(s.drop_last(), id)
    }
}

/// Whether meter identifiers are all distinct.
pub open spec fn distinct_ids<D>(s: Seq<ActiveMeter<D>>) -> bool {
    forall|i: int, j: int|
        0 <= i < s.len() && 0 <= j < s.len() && i != j ==> #[trigger] s[i].meter_id@
            != #[trigger] s[j].meter_id@
}

proof fn lemma_lookup_found<D>(s: Seq<ActiveMeter<D>>, id: Seq<char>)
    ensures
        lookup(s, id) matches Some(i) ==> 0 <= i < s.len() && s[i].meter_id@ == id,
        lookup(s, id) is None ==> forall|k: int| 0 <= k < s.len() ==> s[k].meter_id@ != id,
    decreases s.len(),
{
    if s.len() > 0 {
        lemma_lookup_found(s.drop_last(), id);
        if s.last().meter_id@ != id {
            assert forall|k: int| 0 <= k < s.len() - 1 implies s[k] == s.drop_last()[k] by {}
        }
    }
}

proof fn lemma_lookup_distinct<D>(s: Seq<ActiveMeter<D>>, i: int)
    requires
        distinct_ids(s),
        0 <= i < s.len(),
    ensures
        lookup(s, s[i].meter_id@) == Some(i),
    decreases s.len(),
{
    if i != s.len() - 1 {
        assert(s.last().meter_id@ != s[i].meter_id@);
        assert(s.drop_last()[i] == s[i]);
        lemma_lookup_distinct(s.drop_last(), i);
    }
}

/// The meters connected through the module.
pub struct MeterModule<D> {
    active_meters: Vec<ActiveMeter<D>>,
    history: VecDeque<ExportRow>,
}

impl<D> MeterModule<D> {
    /// The connected meters, in connection order.
    pub closed spec fn meters(&self) -> Seq<ActiveMeter<D>> {
        self.active_meters@
    }

    /// The measurement history, oldest first.
    pub closed spec fn history(&self) -> Seq<ExportRow> {
        self.history@
    }

    /// Module identifier.
    pub fn module_id(&self) -> (r: &'static str)
        ensures
            r@ == "meter"@,
    {
        "meter"
    }

    /// Name shown to users.
    pub fn display_name(&self) -> (r: &'static str)
        ensures
            r@ == "Colorimeter / Spectrophotometer"@,
    {
        "Colorimeter / Spectrophotometer"
    }

    /// What the module can do: measure, run on its own and probe hardware.
    pub fn capabilities(&self) -> (r: Vec<ModuleCapability>)
        ensures
            r@ == seq![
                ModuleCapability::Measurement,
                ModuleCapability::Standalone,
                ModuleCapability::HardwareProbe,
            ],
    {
        let mut v: Vec<ModuleCapability> = Vec::new();
        v.push(ModuleCapability::Measurement);
        v.push(ModuleCapability::Standalone);
        v.push(ModuleCapability::HardwareProbe);
        assert(v@ =~= seq![
            ModuleCapability::Measurement,
            ModuleCapability::Standalone,
            ModuleCapability::HardwareProbe,
        ]);
        v
    }

    /// The commands of the module with their descriptions.
    pub fn commands(&self) -> (r: Vec<ModuleCommandDef>)
        ensures
            r@.len() == command_table().len(),
            forall|i: int|
                0 <= i < r@.len() ==> (#[trigger] r@[i]).name@ == command_table()[i].0
                    && r@[i].description@ == command_table()[i].1,
    {
        let mut v: Vec<ModuleCommandDef> = Vec::new();
        v.push(ModuleCommandDef { name: "detect", description: "Enumerate connected instruments" });
        v.push(ModuleCommandDef { name: "connect", description: "Connect to an instrument by ID" });
        v.push(ModuleCommandDef { name: "disconnect", description: "Disconnect an instrument" });
        v.push(ModuleCommandDef { name: "read", description: "Take a single measurement" });
        v
    }

    /// The instruments that can be connected: the mock meter alone.
    pub fn detect(&self) -> (r: Vec<DetectedInstrument>)
        ensures
            r@.len() == 1,
            r@[0].id@ == FAKE_INSTRUMENT_ID@,
            r@[0].model@ == "FakeMeter"@,
            r@[0].manufacturer@ == "ArtifexProCal"@,
            r@[0].instrument_type@ == "Colorimeter"@,
            r@[0].connection_method@ == "Mock"@,
            r@[0].native_driver_available,
    {
        let mut v: Vec<DetectedInstrument> = Vec::new();
        v.push(
            DetectedInstrument {
                id: String::from_str(FAKE_INSTRUMENT_ID),
                model: String::from_str("FakeMeter"),
                manufacturer: String::from_str("ArtifexProCal"),
                instrument_type: String::from_str("Colorimeter"),
                connection_method: String::from_str("Mock"),
                native_driver_available: true,
            },
        );
        v
    }

    /// A module without connected meters.
    pub fn new() -> (r: Self)
        ensures
            r.meters().len() == 0,
            r.history().len() == 0,
    {
        MeterModule { active_meters: Vec::new(), history: VecDeque::new() }
    }

    /// Number of connected meters.
    pub fn active_count(&self) -> (r: usize)
        ensures
            r == self.meters().len(),
    {
        self.active_meters.len()
    }

    /// Position of the connected meter `meter_id`.
    pub fn position(&self, meter_id: &str) -> (r: Option<usize>)
        ensures
            r matches Some(i) ==> lookup(self.meters(), meter_id@) == Some(i as int),
            r is None ==> lookup(self.meters(), meter_id@) is None,
    {
        let mut i = self.active_meters.len();
        assert(self.active_meters@.take(i as int) =~= self.active_meters@);
        while i > 0
            invariant
                i <= self.active_meters@.len(),
                lookup(self.active_meters@, meter_id@) == lookup(
                    self.active_meters@.take(i as int),
                    meter_id@,
                ),
            decreases i,
        {
            let ghost t = self.active_meters@.take(i as int);
            assert(t.drop_last() =~= self.active_meters@.take(i - 1));
            assert(t.last() == self.active_meters@[i - 1]);
            if same_text(self.active_meters[i - 1].meter_id.as_str(), meter_id) {
                return Some(i - 1);
            }
            i = i - 1;
        }
        None
    }

    /// Adds a meter under a fresh random identifier and returns that
    /// identifier; an entry that happens to hold the same identifier is
    /// replaced.
    pub fn register(&mut self, instrument_id: String, instrument_model: String, driver: D) -> (r:
        String)
        ensures
            uuid_v4_text(r@),
            ({
                let entry = ActiveMeter { meter_id: r, instrument_id, instrument_model, driver };
                match lookup(old(self).meters(), r@) {
                    Some(i) => final(self).meters() == old(self).meters().update(i, entry),
                    None => final(self).meters() == old(self).meters().push(entry),
                }
            }),
            final(self).history() == old(self).history(),
    {
        let meter_id = new_prefixed_id("");
        proof {
            reveal_strlit("");
            assert(meter_id@.subrange(0, meter_id@.len() as int) =~= meter_id@);
        }
        let result = meter_id.clone();
        let entry = ActiveMeter { meter_id, instrument_id, instrument_model, driver };
        match self.position(result.as_str()) {
            Some(i) => {
                proof {
                    lemma_lookup_found(self.active_meters@, result@);
                }
                self.active_meters.set(i, entry);
            },
            None => {
                self.active_meters.push(entry);
            },
        }
        result
    }

    /// Removes the meter `meter_id` and hands it back; refused with
    /// "meter not found" when no connected meter has that identifier.
    pub fn unregister(&mut self, meter_id: &str) -> (r: Result<ActiveMeter<D>, CommandError>)
        ensures
            lookup(old(self).meters(), meter_id@) matches Some(i) ==> (r matches Ok(m) && m
                == old(self).meters()[i] && final(self).meters() == old(self).meters().remove(i)),
            lookup(old(self).meters(), meter_id@) is None ==> (r matches Err(
                CommandError::ExecutionFailed(m),
            ) && m@ == "meter not found"@ && final(self).meters() == old(self).meters()),
            final(self).history() == old(self).history(),
    {
        match self.position(meter_id) {
            Some(i) => {
                proof {
                    lemma_lookup_found(self.active_meters@, meter_id@);
                }
                Ok(self.active_meters.remove(i))
            },
            None => Err(CommandError::ExecutionFailed(String::from_str("meter not found"))),
        }
    }

    /// The connected meter `meter_id`; refused with "meter not found".
    pub fn get(&self, meter_id: &str) -> (r: Result<&ActiveMeter<D>, CommandError>)
        ensures
            lookup(self.meters(), meter_id@) matches Some(i) ==> (r matches Ok(m) && *m
                == self.meters()[i]),
            lookup(self.meters(), meter_id@) is None ==> (r matches Err(
                CommandError::ExecutionFailed(m),
            ) && m@ == "meter not found"@),
    {
        match self.position(meter_id) {
            Some(i) => {
                proof {
                    lemma_lookup_found(self.active_meters@, meter_id@);
                }
                Ok(&self.active_meters[i])
            },
            None => Err(CommandError::ExecutionFailed(String::from_str("meter not found"))),
        }
    }

    /// Records a measurement taken by a connected meter; the oldest entry
    /// is evicted once the history holds its capacity.
    pub fn record_measurement(&mut self, m: ExportRow)
        ensures
            final(self).history() == history_after_push(old(self).history(), m),
            final(self).meters() == old(self).meters(),
    {
        push_history(&mut self.history, m);
    }

    /// Empties the measurement history.
    pub fn clear_history(&mut self)
        ensures
            final(self).history().len() == 0,
            final(self).meters() == old(self).meters(),
    {
        self.history.clear();
    }

    /// The measurement history, oldest first.
    pub fn history_entries(&self) -> (r: &VecDeque<ExportRow>)
        ensures
            r@ == self.history(),
    {
        &self.history
    }

    /// Number of measurements in the history.
    pub fn history_len(&self) -> (r: usize)
        ensures
            r == self.history().len(),
    {
        self.history.len()
    }

    /// The CSV export of the history: the header, then one row per
    /// measurement, oldest first.
    pub fn export_history_csv(&self) -> (r: String)
        ensures
            r@ == csv_document(self.history()),
    {
        let header = csv_header();
        let mut out = csv_record_for(&header);
        let mut i: usize = 0;
        while i < self.history.len()
            invariant
                i <= self.history@.len(),
                out@ == csv_document(self.history@.take(i as int)),
            decreases self.history@.len() - i,
        {
            let fields = csv_row(&self.history[i]);
            let line = csv_record_for(&fields);
            proof {
                let next = self.history@.take(i + 1);
                assert(next.drop_last() =~= self.history@.take(i as int));
                assert(next.last() == self.history@[i as int]);
            }
            out.append(line.as_str());
            i = i + 1;
        }
        assert(self.history@.take(self.history@.len() as int) =~= self.history@);
        out
    }
}

/// Connecting a meter and then disconnecting the identifier it was given
/// restores the module, when meter identifiers were distinct.
pub proof fn lemma_register_then_unregister<D>(
    before: Seq<ActiveMeter<D>>,
    entry: ActiveMeter<D>,
)
    requires
        distinct_ids(before),
        lookup(before, entry.meter_id@) is None,
    ensures
        lookup(before.push(entry), entry.meter_id@) == Some(before.len() as int),
        before.push(entry).remove(before.len() as int) == before,
        distinct_ids(before.push(entry)),
{
    lemma_lookup_found(before, entry.meter_id@);
    assert(before.push(entry).remove(before.len() as int) =~= before);
    assert forall|i: int, j: int|
        0 <= i < before.len() + 1 && 0 <= j < before.len() + 1 && i != j implies #[trigger] before.push(
            entry,
        )[i].meter_id@ != #[trigger] before.push(entry)[j].meter_id@ by {
        if i < before.len() && j < before.len() {
            assert(before.push(entry)[i] == before[i]);
            assert(before.push(entry)[j] == before[j]);
        }
    }
}

/// Every connected meter can be found under its own identifier, when meter
/// identifiers are distinct.
pub proof fn lemma_each_meter_found<D>(s: Seq<ActiveMeter<D>>, i: int)
    requires
        distinct_ids(s),
        0 <= i < s.len(),
    ensures
        lookup(s, s[i].meter_id@) == Some(i),
{
    lemma_lookup_distinct(s, i);
}

} // verus!
