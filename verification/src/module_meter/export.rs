//! Measurement history and the text fields of exported measurements.

use vstd::prelude::*;
use std::collections::VecDeque;
use crate::service::models::opt_text;
use crate::text::{decimal_text, push_decimal, texts};

verus! {

/// Capacity of the in-memory measurement history.
pub const HISTORY_CAPACITY: usize = 1000;

/// The history after recording `m`: the oldest entry is evicted first when
/// the history is at or over capacity.
pub open spec fn history_after_push<T>(h: Seq<T>, m: T) -> Seq<T> {
    if h.len() >= HISTORY_CAPACITY {
        h.drop_first().push(m)
    } else {
        h.push(m)
    }
}

/// Records a measurement in a first-in first-out history capped at
/// `HISTORY_CAPACITY` entries.
pub fn push_history<T>(history: &mut VecDeque<T>, m: T)
    ensures
        final(history)@ == history_after_push(old(history)@, m),
{
    if history.len() >= HISTORY_CAPACITY {
        let _ = history.pop_front();
    }
    history.push_back(m);
}

/// A history never grows past its capacity.
pub proof fn lemma_history_stays_bounded<T>(h: Seq<T>, m: T)
    requires
        h.len() <= HISTORY_CAPACITY,
    ensures
        history_after_push(h, m).len() <= HISTORY_CAPACITY,
        history_after_push(h, m).len() == if h.len() == HISTORY_CAPACITY {
            h.len()
        } else {
            h.len() + 1
        },
{
}

/// Recording keeps the newest entries in arrival order: the new entry is
/// last and, before it, the previous entries without at most the oldest.
pub proof fn lemma_history_fifo<T>(h: Seq<T>, m: T)
    ensures
        history_after_push(h, m).last() == m,
        h.len() < HISTORY_CAPACITY ==> history_after_push(h, m).drop_last() == h,
        h.len() >= HISTORY_CAPACITY ==> history_after_push(h, m).drop_last() == h.drop_first(),
{
    if h.len() >= HISTORY_CAPACITY {
        assert(history_after_push(h, m).drop_last() =~= h.drop_first());
    } else {
        assert(history_after_push(h, m).drop_last() =~= h);
    }
}

/// RGB color spaces a measured patch can be given in.
#[derive(Debug, Clone, Copy, PartialEq, Eq, Structural)]
pub enum RgbSpace {
    Rec709,
    Rec2020,
    DciP3,
    DisplayP3,
    Srgb,
    AdobeRgb,
    ProPhoto,
}

/// The export name of a patch color space; empty when there is none.
pub open spec fn rgb_space_name(space: Option<RgbSpace>) -> Seq<char> {
    match space {
        Some(RgbSpace::Rec709) => "BT.709"@,
        Some(RgbSpace::Rec2020) => "BT.2020"@,
        Some(RgbSpace::DciP3) => "DCI-P3"@,
        Some(RgbSpace::DisplayP3) => "Display-P3"@,
        Some(RgbSpace::Srgb) => "sRGB"@,
        Some(RgbSpace::AdobeRgb) => "AdobeRGB"@,
        Some(RgbSpace::ProPhoto) => "ProPhoto"@,
        None => Seq::empty(),
    }
}

/// Names a patch color space for export.
pub fn rgb_space_to_string(space: Option<RgbSpace>) -> (r: String)
    ensures
        r@ == rgb_space_name(space),
{
    match space {
        Some(RgbSpace::Rec709) => String::from_str("BT.709"),
        Some(RgbSpace::Rec2020) => String::from_str("BT.2020"),
        Some(RgbSpace::DciP3) => String::from_str("DCI-P3"),
        Some(RgbSpace::DisplayP3) => String::from_str("Display-P3"),
        Some(RgbSpace::Srgb) => String::from_str("sRGB"),
        Some(RgbSpace::AdobeRgb) => String::from_str("AdobeRGB"),
        Some(RgbSpace::ProPhoto) => String::from_str("ProPhoto"),
        None => String::new(),
    }
}

/// A measurement as it is exported: its text fields, and its numbers
/// already rendered as decimal text (six decimals with trailing zeros and a
/// trailing point trimmed).
pub struct ExportRow {
    pub measurement_uuid: String,
    pub schema_version: String,
    pub software_version: String,
    pub timestamp: String,
    pub instrument_model: String,
    pub instrument_id: String,
    /// X, Y, Z.
    pub xyz: (String, String, String),
    /// Chromaticity x, y.
    pub xy: (String, String),
    /// L*, a*, b*.
    pub lab: (String, String, String),
    /// L, C, h.
    pub lch: (String, String, String),
    /// u', v'.
    pub uv_prime: (String, String),
    pub cct: Option<String>,
    pub duv: Option<String>,
    pub delta_e_2000: Option<String>,
    pub target_xy: Option<(String, String)>,
    pub patch_rgb: (u16, u16, u16),
    pub patch_bit_depth: u8,
    pub patch_colorspace: Option<RgbSpace>,
    pub reference_white: String,
    pub session_id: Option<String>,
    pub sequence_index: Option<usize>,
    pub label: Option<String>,
}

/// Number of columns of the CSV export.
pub const CSV_COLUMNS: usize = 34;

/// The CSV header, in column order.
pub open spec fn csv_header_names() -> Seq<Seq<char>> {
    seq![
        "measurement_uuid"@, "schema_version"@, "software_version"@, "timestamp"@, "mode"@,
        "instrument_model"@, "instrument_id"@, "x"@, "y"@, "z"@, "xy_x"@, "xy_y"@, "lab_l"@,
        "lab_a"@, "lab_b"@, "lch_l"@, "lch_c"@, "lch_h"@, "uvp_u"@, "uvp_v"@, "cct"@, "duv"@,
        "delta_e_2000"@, "target_x"@, "target_y"@, "patch_r"@, "patch_g"@, "patch_b"@,
        "patch_bit_depth"@, "patch_colorspace"@, "reference_white"@, "session_id"@,
        "sequence_index"@, "label"@,
    ]
}

/// The text of an optional text; empty when absent.
pub open spec fn or_empty(t: Option<Seq<char>>) -> Seq<char> {
    match t {
        Some(s) => s,
        None => Seq::empty(),
    }
}

/// A patch value column: the decimal value when the patch has a color
/// space, else empty.
pub open spec fn patch_column(space: Option<RgbSpace>, v: nat) -> Seq<char> {
    if space is Some {
        decimal_text(v)
    } else {
        Seq::empty()
    }
}

/// The CSV columns of a measurement, in header order.
pub open spec fn csv_row_fields(m: ExportRow) -> Seq<Seq<char>> {
    seq![
        m.measurement_uuid@, m.schema_version@, m.software_version@, m.timestamp@, "Emissive"@,
        m.instrument_model@, m.instrument_id@, m.xyz.0@, m.xyz.1@, m.xyz.2@, m.xy.0@, m.xy.1@,
        m.lab.0@, m.lab.1@, m.lab.2@, m.lch.0@, m.lch.1@, m.lch.2@, m.uv_prime.0@,
        m.uv_prime.1@, or_empty(opt_text(m.cct)), or_empty(opt_text(m.duv)), or_empty(
            opt_text(m.delta_e_2000),
        ), match m.target_xy {
            Some(t) => t.0@,
            None => Seq::empty(),
        }, match m.target_xy {
            Some(t) => t.1@,
            None => Seq::empty(),
        }, patch_column(m.patch_colorspace, m.patch_rgb.0 as nat), patch_column(
            m.patch_colorspace,
            m.patch_rgb.1 as nat,
        ), patch_column(m.patch_colorspace, m.patch_rgb.2 as nat), patch_column(
            m.patch_colorspace,
            m.patch_bit_depth as nat,
        ), rgb_space_name(m.patch_colorspace), m.reference_white@, or_empty(
            opt_text(m.session_id),
        ), match m.sequence_index {
            Some(n) => decimal_text(n as nat),
            None => Seq::empty(),
        }, or_empty(opt_text(m.label)),
    ]
}

/// Every exported row has one column per header name, so the CSV writer
/// never meets records of unequal length.
pub proof fn lemma_csv_row_matches_header(m: ExportRow)
    ensures
        csv_row_fields(m).len() == csv_header_names().len(),
        csv_header_names().len() == CSV_COLUMNS,
        csv_row_fields(m)[4] == "Emissive"@,
{
}

fn text_or_empty(t: &Option<String>) -> (r: String)
    ensures
        r@ == or_empty(opt_text(*t)),
{
    match t {
        Some(s) => s.clone(),
        None => String::new(),
    }
}

fn decimal_string(n: u64) -> (r: String)
    ensures
        r@ == decimal_text(n as nat),
{
    let mut s = String::new();
    push_decimal(&mut s, n);
    assert(s@ =~= decimal_text(n as nat));
    s
}

fn patch_string(space: Option<RgbSpace>, v: u64) -> (r: String)
    ensures
        r@ == patch_column(space, v as nat),
{
    if space.is_some() {
        decimal_string(v)
    } else {
        String::new()
    }
}

/// The CSV header row.
pub fn csv_header() -> (r: Vec<String>)
    ensures
        texts(r@) == csv_header_names(),
{
    let names: [&str; 34] = [
        "measurement_uuid", "schema_version", "software_version", "timestamp", "mode",
        "instrument_model", "instrument_id", "x", "y", "z", "xy_x", "xy_y", "lab_l", "lab_a",
        "lab_b", "lch_l", "lch_c", "lch_h", "uvp_u", "uvp_v", "cct", "duv", "delta_e_2000",
        "target_x", "target_y", "patch_r", "patch_g", "patch_b", "patch_bit_depth",
        "patch_colorspace", "reference_white", "session_id", "sequence_index", "label",
    ];
    let mut r: Vec<String> = Vec::new();
    let mut i: usize = 0;
    while i < 34
        invariant
            i <= 34,
            r@.len() == i,
            forall|k: int| 0 <= k < i ==> #[trigger] r@[k]@ == names@[k]@,
        decreases 34 - i,
    {
        r.push(String::from_str(names[i]));
        i = i + 1;
    }
    assert(texts(r@) =~= csv_header_names());
    r
}

/// The CSV columns of a measurement: its fields in header order, the mode
/// "Emissive", absent values as empty columns, and the patch values only
/// when the patch has a color space.
pub fn csv_row(m: &ExportRow) -> (r: Vec<String>)
    ensures
        texts(r@) == csv_row_fields(*m),
{
    let mut r: Vec<String> = Vec::new();
    r.push(m.measurement_uuid.clone());
    r.push(m.schema_version.clone());
    r.push(m.software_version.clone());
    r.push(m.timestamp.clone());
    r.push(String::from_str("Emissive"));
    r.push(m.instrument_model.clone());
    r.push(m.instrument_id.clone());
    r.push(m.xyz.0.clone());
    r.push(m.xyz.1.clone());
    r.push(m.xyz.2.clone());
    r.push(m.xy.0.clone());
    r.push(m.xy.1.clone());
    r.push(m.lab.0.clone());
    r.push(m.lab.1.clone());
    r.push(m.lab.2.clone());
    r.push(m.lch.0.clone());
    r.push(m.lch.1.clone());
    r.push(m.lch.2.clone());
    r.push(m.uv_prime.0.clone());
    r.push(m.uv_prime.1.clone());
    r.push(text_or_empty(&m.cct));
    r.push(text_or_empty(&m.duv));
    r.push(text_or_empty(&m.delta_e_2000));
    match &m.target_xy {
        Some(t) => {
            r.push(t.0.clone());
            r.push(t.1.clone());
        },
        None => {
            r.push(String::new());
            r.push(String::new());
        },
    }
    r.push(patch_string(m.patch_colorspace, m.patch_rgb.0 as u64));
    r.push(patch_string(m.patch_colorspace, m.patch_rgb.1 as u64));
    r.push(patch_string(m.patch_colorspace, m.patch_rgb.2 as u64));
    r.push(patch_string(m.patch_colorspace, m.patch_bit_depth as u64));
    r.push(rgb_space_to_string(m.patch_colorspace));
    r.push(m.reference_white.clone());
    r.push(text_or_empty(&m.session_id));
    match m.sequence_index {
        Some(n) => r.push(decimal_string(n as u64)),
        None => r.push(String::new()),
    }
    r.push(text_or_empty(&m.label));
    assert(texts(r@) =~= csv_row_fields(*m));
    r
}

/// The text the `csv` crate writes for one record under its default
/// settings: the fields joined by commas, quoted where needed, ended by a
/// line feed.
pub uninterp spec fn csv_record_text(fields: Seq<Seq<char>>) -> Seq<char>;

/// One CSV record through the `csv` crate: `WriterBuilder::new().from_writer`
/// on an empty byte vector, `write_record` of `fields`, `into_inner`, and
/// the bytes taken as UTF-8 text.
///
/// The contract names the text and ties it to the fields, and promises it
/// comes back: a fresh writer meets no earlier record whose length could
/// differ, writing to and flushing into a byte vector cannot fail, and the
/// writer only adds ASCII commas, quotes and a line feed to the UTF-8
/// fields. The `None` branches of the body are never taken.
#[verifier::external_body]
fn csv_record(fields: &Vec<String>) -> (r: Option<String>)
    ensures
        r is Some,
        r matches Some(t) ==> t@ == csv_record_text(texts(fields@)),
{
    let mut w = csv::WriterBuilder::new().from_writer(Vec::new());
    if let Err(_) = w.write_record(fields) {
        return None;
    }
    match w.into_inner() {
        Ok(bytes) => String::from_utf8(bytes).ok(),
        Err(_) => None,
    }
}

/// The CSV text of one record.
pub(crate) fn csv_record_for(fields: &Vec<String>) -> (r: String)
    ensures
        r@ == csv_record_text(texts(fields@)),
{
    match csv_record(fields) {
        Some(t) => t,
        None => String::new(),
    }
}

/// Errors of the measurement export; the CSV export into memory never
/// reports one.
#[derive(Debug, Clone, Copy, PartialEq, Eq, Structural)]
pub enum ExportError {
    /// The CSV writer failed.
    Csv,
}

/// The CSV document of a list of measurements: the header record, then one
/// record per measurement in order.
pub open spec fn csv_document(rows: Seq<ExportRow>) -> Seq<char>
    decreases rows.len(),
{
    if rows.len() == 0 {
        csv_record_text(csv_header_names())
    } else {
        csv_document(rows.drop_last()) + csv_record_text(csv_row_fields(rows.last()))
    }
}

/// The CSV export of an empty history is the header record alone, and
/// recording a measurement below capacity appends its record to the export.
pub proof fn lemma_history_export(h: Seq<ExportRow>, m: ExportRow)
    ensures
        csv_document(Seq::<ExportRow>::empty()) == csv_record_text(csv_header_names()),
        h.len() < HISTORY_CAPACITY ==> csv_document(history_after_push(h, m)) == csv_document(h)
            + csv_record_text(csv_row_fields(m)),
{
    assert(h.push(m).drop_last() =~= h);
}

/// Serializes measurements as CSV: the header, then one row each. The
/// export always succeeds.
pub fn export_csv(rows: &[ExportRow]) -> (r: Result<String, ExportError>)
    ensures
        r is Ok,
        r matches Ok(s) ==> s@ == csv_document(rows@),
{
    let header = csv_header();
    let mut out = csv_record_for(&header);
    let mut i: usize = 0;
    while i < rows.len()
        invariant
            i <= rows@.len(),
            out@ == csv_document(rows@.take(i as int)),
        decreases rows@.len() - i,
    {
        let fields = csv_row(&rows[i]);
        let line = csv_record_for(&fields);
        proof {
            let next = rows@.take(i + 1);
            assert(next.drop_last() =~= rows@.take(i as int));
            assert(next.last() == rows@[i as int]);
        }
        out.append(line.as_str());
        i = i + 1;
    }
    assert(rows@.take(rows@.len() as int) =~= rows@);
    Ok(out)
}

} // verus!
