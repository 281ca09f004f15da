//! Colorimeter profiling against a reference spectrophotometer: input
//! checks, error texts and the `.ccmx` document layout.

use vstd::prelude::*;
use crate::clock::{utc_now_text, utc_text, SECOND_LAYOUT};
use crate::text::{decimal_text, escape_markup, markup_escaped, push_decimal, texts};

verus! {

/// Least number of paired readings that determines a correction matrix.
pub const MIN_PROFILING_PATCHES: usize = 3;

/// Errors that can occur during profiling.
#[derive(Debug, Clone, PartialEq, Eq, Structural)]
pub enum ProfilingError {
    MismatchedLengths,
    InsufficientData { got: usize, need: usize },
    SingularMatrix,
}

impl ProfilingError {
    /// The human-readable message of this error.
    pub open spec fn message(&self) -> Seq<char> {
        match self {
            ProfilingError::MismatchedLengths => "Colorimeter and reference data have different lengths"@,
            ProfilingError::InsufficientData { got, need } => "Insufficient data points: got "@
                + decimal_text(*got as nat) + ", need at least "@ + decimal_text(*need as nat),
            ProfilingError::SingularMatrix => "Could not solve for correction matrix (singular system)"@,
        }
    }

    /// Renders the error message.
    pub fn to_string(&self) -> (r: String)
        ensures
            r@ == self.message(),
    {
        match self {
            ProfilingError::MismatchedLengths => String::from_str(
                "Colorimeter and reference data have different lengths",
            ),
            ProfilingError::InsufficientData { got, need } => {
                let mut s = String::from_str("Insufficient data points: got ");
                push_decimal(&mut s, *got as u64);
                s.append(", need at least ");
                push_decimal(&mut s, *need as u64);
                s
            },
            ProfilingError::SingularMatrix => String::from_str(
                "Could not solve for correction matrix (singular system)",
            ),
        }
    }
}

/// Checks that the colorimeter and reference readings pair up and are
/// enough to fit a matrix: equal counts first, then at least three.
pub fn check_profiling_data(colorimeter_len: usize, reference_len: usize) -> (r: Result<
    (),
    ProfilingError,
>)
    ensures
        colorimeter_len != reference_len ==> r == Err::<(), ProfilingError>(
            ProfilingError::MismatchedLengths,
        ),
        colorimeter_len == reference_len && colorimeter_len < 3 ==> r == Err::<(), ProfilingError>(
            ProfilingError::InsufficientData { got: colorimeter_len, need: 3 },
        ),
        colorimeter_len == reference_len && colorimeter_len >= 3 ==> r is Ok,
{
    if colorimeter_len != reference_len {
        return Err(ProfilingError::MismatchedLengths);
    }
    if colorimeter_len < MIN_PROFILING_PATCHES {
        return Err(ProfilingError::InsufficientData { got: colorimeter_len, need: MIN_PROFILING_PATCHES });
    }
    Ok(())
}

/// XML escaping: markup escaping with `&apos;` for the single quote.
pub open spec fn xml_escaped(s: Seq<char>) -> Seq<char> {
    markup_escaped(s, "&apos;"@)
}

/// Escapes `&`, `<`, `>`, `"` and `'` for XML text.
pub fn escape_xml(s: &str) -> (r: String)
    ensures
        r@ == xml_escaped(s@),
{
    escape_markup(s, "&apos;")
}

/// The lines of a `.ccmx` document before the matrix rows.
pub open spec fn ccmx_head(meter: Seq<char>, reference: Seq<char>, created: Seq<char>) -> Seq<char> {
    "<?xml version=\"1.0\" encoding=\"UTF-8\"?>\n"@ + "<ccmx>\n"@ + "  <instrument_make>"@
        + xml_escaped(meter) + "</instrument_make>\n"@ + "  <instrument_model>"@ + xml_escaped(meter)
        + "</instrument_model>\n"@ + "  <reference_instrument_make>"@ + xml_escaped(reference)
        + "</reference_instrument_make>\n"@ + "  <reference_instrument_model>"@ + xml_escaped(
        reference,
    ) + "</reference_instrument_model>\n"@ + "  <created>"@ + created + "</created>\n"@
        + "  <matrix>\n"@
}

/// The matrix rows of a `.ccmx` document, one `<row>` line each.
pub open spec fn ccmx_rows(rows: Seq<Seq<char>>) -> Seq<char>
    decreases rows.len(),
{
    if rows.len() == 0 {
        Seq::empty()
    } else {
        ccmx_rows(rows.drop_last()) + "    <row>"@ + rows.last() + "</row>\n"@
    }
}

/// The matrix lines keep the order of the rows: appending a row appends
/// its `<row>` line at the end, and a row put in front gives the first
/// line.
pub proof fn lemma_ccmx_rows_in_order(rows: Seq<Seq<char>>, row: Seq<char>)
    ensures
        ccmx_rows(rows.push(row)) == ccmx_rows(rows) + "    <row>"@ + row + "</row>\n"@,
        ccmx_rows(seq![row] + rows) == "    <row>"@ + row + "</row>\n"@ + ccmx_rows(rows),
    decreases rows.len(),
{
    assert(rows.push(row).drop_last() =~= rows);
    if rows.len() == 0 {
        assert(seq![row] + rows =~= seq![row]);
        assert(seq![row].drop_last() =~= Seq::<Seq<char>>::empty());
        assert(ccmx_rows(Seq::<Seq<char>>::empty()) == Seq::<char>::empty());
        assert(seq![row].last() == row);
        assert(ccmx_rows(seq![row]) =~= "    <row>"@ + row + "</row>\n"@);
        assert(ccmx_rows(seq![row] + rows) =~= "    <row>"@ + row + "</row>\n"@ + ccmx_rows(rows));
    } else {
        lemma_ccmx_rows_in_order(rows.drop_last(), row);
        assert((seq![row] + rows).drop_last() =~= seq![row] + rows.drop_last());
        assert((seq![row] + rows).last() == rows.last());
        assert(ccmx_rows(seq![row] + rows) =~= "    <row>"@ + row + "</row>\n"@ + ccmx_rows(
            rows.drop_last(),
        ) + "    <row>"@ + rows.last() + "</row>\n"@);
    }
}

/// A whole `.ccmx` document.
pub open spec fn ccmx_text(
    meter: Seq<char>,
    reference: Seq<char>,
    created: Seq<char>,
    rows: Seq<Seq<char>>,
) -> Seq<char> {
    ccmx_head(meter, reference, created) + ccmx_rows(rows) + "  </matrix>\n"@ + "</ccmx>\n"@
}

/// Lays out a `.ccmx` correction matrix document. `created` is the creation
/// time text and `rows` the formatted matrix rows (space-separated values);
/// instrument names are XML-escaped.
pub fn ccmx_document(meter_name: &str, reference_name: &str, created: &str, rows: &Vec<String>) -> (r:
    String)
    ensures
        r@ == ccmx_text(meter_name@, reference_name@, created@, texts(rows@)),
{
    let meter = escape_xml(meter_name);
    let reference = escape_xml(reference_name);
    let mut out = String::from_str("<?xml version=\"1.0\" encoding=\"UTF-8\"?>\n");
    out.append("<ccmx>\n");
    out.append("  <instrument_make>");
    out.append(meter.as_str());
    out.append("</instrument_make>\n");
    out.append("  <instrument_model>");
    out.append(meter.as_str());
    out.append("</instrument_model>\n");
    out.append("  <reference_instrument_make>");
    out.append(reference.as_str());
    out.append("</reference_instrument_make>\n");
    out.append("  <reference_instrument_model>");
    out.append(reference.as_str());
    out.append("</reference_instrument_model>\n");
    out.append("  <created>");
    out.append(created);
    out.append("</created>\n");
    out.append("  <matrix>\n");
    let ghost head = out@;
    let ghost views = texts(rows@);
    assert(head =~= ccmx_head(meter_name@, reference_name@, created@));
    let mut i: usize = 0;
    while i < rows.len()
        invariant
            i <= rows.len(),
            views == texts(rows@),
            out@ == head + ccmx_rows(views.take(i as int)),
        decreases rows.len() - i,
    {
        assert(views.take(i + 1).drop_last() =~= views.take(i as int));
        out.append("    <row>");
        out.append(rows[i].as_str());
        out.append("</row>\n");
        i = i + 1;
        assert(out@ =~= head + ccmx_rows(views.take(i as int)));
    }
    assert(views.take(rows.len() as int) =~= views);
    out.append("  </matrix>\n");
    out.append("</ccmx>\n");
    assert(out@ =~= ccmx_text(meter_name@, reference_name@, created@, views));
    out
}

/// A `.ccmx` document stamped with the current UTC time
/// (`YYYY-MM-DDTHH:MM:SSZ`).
pub fn ccmx_document_now(meter_name: &str, reference_name: &str, rows: &Vec<String>) -> (r: String)
    ensures
        exists|secs: i64, created: Seq<char>|
            #![trigger utc_text(secs, SECOND_LAYOUT@), ccmx_text(meter_name@, reference_name@, created, texts(rows@))]
            utc_text(secs, SECOND_LAYOUT@) == Some(created) && r@ == ccmx_text(
                meter_name@,
                reference_name@,
                created,
                texts(rows@),
            ),
{
    let created = utc_now_text(SECOND_LAYOUT);
    let r = ccmx_document(meter_name, reference_name, created.as_str(), rows);
    proof {
        let secs = choose|secs: i64| utc_text(secs, SECOND_LAYOUT@) == Some(created@);
        assert(utc_text(secs, SECOND_LAYOUT@) == Some(created@) && r@ == ccmx_text(
            meter_name@,
            reference_name@,
            created@,
            texts(rows@),
        ));
    }
    r
}

} // verus!
