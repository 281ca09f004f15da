//! Layout of the three HTML report pages.
//!
//! Everything computed from measured floating-point values (the number
//! texts of the metric cards, the SVG charts, the readings table and the
//! comparison deltas) is rendered by the caller and handed in as text; the
//! choice of cards and sections, the escaping and the page structure are
//! decided here.

use vstd::prelude::*;
use crate::calibration::{
    format_target_space, format_tier, format_tone_curve, format_white_point, target_space_label,
    tier_label, tone_curve_label, white_point_label, CalibrationTier, TargetSpace, ToneCurve,
    WhitePoint,
};
use crate::reporting::template::{
    escape_html, format_timestamp, html_escaped, html_page, html_page_text, metric_card,
    metric_card_text, utc_minute_text,
};
use crate::clock::{utc_text, MINUTE_LAYOUT};
use crate::service::models::opt_text;
use crate::text::{
    contains_text, decimal_text, lemma_contains_middle, lemma_contains_within, push_decimal, texts,
};

verus! {

/// The texts of the measured metrics of a session, already formatted.
pub struct MetricTexts {
    pub gamma: Option<String>,
    pub max_de: Option<String>,
    pub avg_de: Option<String>,
}

/// All texts joined without separator.
pub open spec fn joined(parts: Seq<Seq<char>>) -> Seq<char>
    decreases parts.len(),
{
    if parts.len() == 0 {
        Seq::empty()
    } else {
        joined(parts.drop_last()) + parts.last()
    }
}

/// A card without unit.
pub open spec fn card(label: Seq<char>, value: Seq<char>) -> Seq<char> {
    metric_card_text(label, value, None)
}

/// A card for a value that may be absent: nothing when it is.
pub open spec fn opt_card(label: Seq<char>, value: Option<Seq<char>>) -> Seq<char> {
    match value {
        Some(v) => card(label, v),
        None => Seq::empty(),
    }
}

/// The measured-metric cards: gamma, maximum and average ΔE, each when
/// present.
pub open spec fn measured_cards(m: MetricTexts) -> Seq<char> {
    opt_card("Gamma"@, opt_text(m.gamma)) + opt_card("Max ΔE"@, opt_text(m.max_de)) + opt_card(
        "Avg ΔE"@,
        opt_text(m.avg_de),
    )
}

/// The summary metric grid: the configuration cards, then the computed
/// results' metrics and white balance when there are results, otherwise
/// the metrics recorded with the session summary.
pub open spec fn summary_metrics_text(
    target_space: TargetSpace,
    tone_curve: ToneCurve,
    white_point: WhitePoint,
    patch_count: usize,
    tier: CalibrationTier,
    results: Option<(MetricTexts, Option<String>)>,
    summary: MetricTexts,
) -> Seq<char> {
    "<div class=\"metric-grid\">"@ + card("Target Space"@, target_space_label(target_space)) + card(
        "Tone Curve"@,
        tone_curve_label(tone_curve),
    ) + card("White Point"@, white_point_label(white_point)) + card(
        "Patch Count"@,
        decimal_text(patch_count as nat),
    ) + card("Tier"@, tier_label(tier)) + match results {
        Some((m, wb)) => measured_cards(m) + opt_card("White Balance"@, opt_text(wb)),
        None => measured_cards(summary),
    } + "</div>"@
}

/// Joining keeps the order of the parts: a part put in front comes first,
/// a part put at the end comes last.
pub proof fn lemma_joined_order(parts: Seq<Seq<char>>, x: Seq<char>)
    ensures
        joined(parts.push(x)) == joined(parts) + x,
        joined(seq![x] + parts) == x + joined(parts),
    decreases parts.len(),
{
    assert(parts.push(x).drop_last() =~= parts);
    if parts.len() == 0 {
        assert(seq![x] + parts =~= seq![x]);
        assert(seq![x].drop_last() =~= Seq::<Seq<char>>::empty());
        assert(joined(Seq::<Seq<char>>::empty()) == Seq::<char>::empty());
        assert(seq![x].last() == x);
        assert(joined(seq![x]) =~= x);
        assert(x + joined(parts) =~= x);
    } else {
        lemma_joined_order(parts.drop_last(), x);
        assert((seq![x] + parts).drop_last() =~= seq![x] + parts.drop_last());
        assert((seq![x] + parts).last() == parts.last());
        assert(joined(seq![x] + parts) =~= x + joined(parts.drop_last()) + parts.last());
    }
}

/// The summary grid shows each measured metric under its own label: with
/// results, the results' gamma, maximum and average ΔE and white balance;
/// without, the session summary's gamma, maximum and average ΔE. With
/// results and no white balance the grid is the one the same metrics give
/// as a session summary.
pub proof fn lemma_summary_metric_cards(
    target_space: TargetSpace,
    tone_curve: ToneCurve,
    white_point: WhitePoint,
    patch_count: usize,
    tier: CalibrationTier,
    results: Option<(MetricTexts, Option<String>)>,
    summary: MetricTexts,
)
    ensures
        ({
            let g = summary_metrics_text(
                target_space,
                tone_curve,
                white_point,
                patch_count,
                tier,
                results,
                summary,
            );
            let m = match results {
                Some((r, _)) => r,
                None => summary,
            };
            &&& (m.gamma matches Some(v) ==> contains_text(g, card("Gamma"@, v@)))
            &&& (m.max_de matches Some(v) ==> contains_text(g, card("Max ΔE"@, v@)))
            &&& (m.avg_de matches Some(v) ==> contains_text(g, card("Avg ΔE"@, v@)))
            &&& (results matches Some((_, Some(w))) ==> contains_text(
                g,
                card("White Balance"@, w@),
            ))
            &&& contains_text(g, card("Patch Count"@, decimal_text(patch_count as nat)))
        }),
        results matches Some((m, None)) ==> summary_metrics_text(
            target_space,
            tone_curve,
            white_point,
            patch_count,
            tier,
            results,
            summary,
        ) == summary_metrics_text(
            target_space,
            tone_curve,
            white_point,
            patch_count,
            tier,
            None,
            m,
        ),
{
    let g = summary_metrics_text(
        target_space,
        tone_curve,
        white_point,
        patch_count,
        tier,
        results,
        summary,
    );
    let m = match results {
        Some((r, _)) => r,
        None => summary,
    };
    let head = "<div class=\"metric-grid\">"@ + card("Target Space"@, target_space_label(target_space))
        + card("Tone Curve"@, tone_curve_label(tone_curve)) + card(
        "White Point"@,
        white_point_label(white_point),
    );
    let pc = card("Patch Count"@, decimal_text(patch_count as nat));
    let tc = card("Tier"@, tier_label(tier));
    let gm = opt_card("Gamma"@, opt_text(m.gamma));
    let mx = opt_card("Max ΔE"@, opt_text(m.max_de));
    let av = opt_card("Avg ΔE"@, opt_text(m.avg_de));
    let wb = match results {
        Some((_, w)) => opt_card("White Balance"@, opt_text(w)),
        None => Seq::empty(),
    };
    let tail = "</div>"@;
    assert(g =~= head + pc + tc + gm + mx + av + wb + tail);
    lemma_parts_contained(head, pc, tc, gm, mx, av, wb, tail);
}

proof fn lemma_parts_contained(
    p0: Seq<char>,
    p1: Seq<char>,
    p2: Seq<char>,
    p3: Seq<char>,
    p4: Seq<char>,
    p5: Seq<char>,
    p6: Seq<char>,
    p7: Seq<char>,
)
    ensures
        contains_text(p0 + p1 + p2 + p3 + p4 + p5 + p6 + p7, p1),
        contains_text(p0 + p1 + p2 + p3 + p4 + p5 + p6 + p7, p3),
        contains_text(p0 + p1 + p2 + p3 + p4 + p5 + p6 + p7, p4),
        contains_text(p0 + p1 + p2 + p3 + p4 + p5 + p6 + p7, p5),
        contains_text(p0 + p1 + p2 + p3 + p4 + p5 + p6 + p7, p6),
{
    let g = p0 + p1 + p2 + p3 + p4 + p5 + p6 + p7;
    lemma_contains_middle(p0, p1, p2 + p3 + p4 + p5 + p6 + p7);
    assert(g =~= p0 + p1 + (p2 + p3 + p4 + p5 + p6 + p7));
    lemma_contains_middle(p0 + p1 + p2, p3, p4 + p5 + p6 + p7);
    assert(g =~= (p0 + p1 + p2) + p3 + (p4 + p5 + p6 + p7));
    lemma_contains_middle(p0 + p1 + p2 + p3, p4, p5 + p6 + p7);
    assert(g =~= (p0 + p1 + p2 + p3) + p4 + (p5 + p6 + p7));
    lemma_contains_middle(p0 + p1 + p2 + p3 + p4, p5, p6 + p7);
    assert(g =~= (p0 + p1 + p2 + p3 + p4) + p5 + (p6 + p7));
    lemma_contains_middle(p0 + p1 + p2 + p3 + p4 + p5, p6, p7);
}

fn push_card(s: &mut String, label: &str, value: &str)
    ensures
        final(s)@ == old(s)@ + card(label@, value@),
{
    let c = metric_card(label, value, None);
    s.append(c.as_str());
}

fn push_opt_card(s: &mut String, label: &str, value: &Option<String>)
    ensures
        final(s)@ == old(s)@ + opt_card(label@, opt_text(*value)),
{
    match value {
        Some(v) => push_card(s, label, v.as_str()),
        None => {
            assert(old(s)@ + Seq::<char>::empty() =~= old(s)@);
        },
    }
}

fn push_measured_cards(s: &mut String, m: &MetricTexts)
    ensures
        final(s)@ == old(s)@ + measured_cards(*m),
{
    let ghost start = s@;
    push_opt_card(s, "Gamma", &m.gamma);
    push_opt_card(s, "Max ΔE", &m.max_de);
    push_opt_card(s, "Avg ΔE", &m.avg_de);
    assert(s@ =~= start + measured_cards(*m));
}

/// Renders the summary metric grid of a report.
pub fn summary_metrics(
    target_space: TargetSpace,
    tone_curve: ToneCurve,
    white_point: WhitePoint,
    patch_count: usize,
    tier: CalibrationTier,
    results: &Option<(MetricTexts, Option<String>)>,
    summary: &MetricTexts,
) -> (r: String)
    ensures
        r@ == summary_metrics_text(
            target_space,
            tone_curve,
            white_point,
            patch_count,
            tier,
            *results,
            *summary,
        ),
{
    let mut s = String::from_str("<div class=\"metric-grid\">");
    let t = format_target_space(&target_space);
    push_card(&mut s, "Target Space", t.as_str());
    let c = format_tone_curve(&tone_curve);
    push_card(&mut s, "Tone Curve", c.as_str());
    let w = format_white_point(&white_point);
    push_card(&mut s, "White Point", w.as_str());
    let mut n = String::new();
    push_decimal(&mut n, patch_count as u64);
    assert(n@ =~= decimal_text(patch_count as nat));
    push_card(&mut s, "Patch Count", n.as_str());
    let k = format_tier(&tier);
    push_card(&mut s, "Tier", k.as_str());
    let ghost before = s@;
    match results {
        Some((m, wb)) => {
            push_measured_cards(&mut s, m);
            push_opt_card(&mut s, "White Balance", wb);
        },
        None => {
            push_measured_cards(&mut s, summary);
        },
    }
    s.append("</div>");
    assert(s@ =~= summary_metrics_text(
        target_space,
        tone_curve,
        white_point,
        patch_count,
        tier,
        *results,
        *summary,
    ));
    s
}

/// Footer of the quick summary.
pub const QUICK_FOOTER: &'static str = "<div class=\"footer\">Generated by ArtifexProCal</div>";

/// Header of the quick summary: the session name, the creation time and
/// the target space.
pub open spec fn quick_header_text(name: Seq<char>, stamp: Seq<char>, target: Seq<char>) -> Seq<
    char,
> {
    "<div class=\"header\">\n<h1>"@ + html_escaped(name) + "</h1>\n<div class=\"subtitle\">"@ + stamp
        + " | "@ + html_escaped(target) + "</div>\n</div>"@
}

/// The chart section of the quick summary, when there are charts: the CIE
/// diagram and the grayscale tracker.
pub open spec fn quick_charts_text(charts: Option<(Seq<char>, Seq<char>)>) -> Seq<char> {
    match charts {
        Some((cie, gray)) => "<div class=\"section\">\n<h2 class=\"section-title\">CIE 1976 u'v' Diagram</h2>\n<div class=\"chart-container\">"@
            + cie + "</div>\n<h2 class=\"section-title\">Grayscale Tracker</h2>\n<div class=\"chart-container\">"@
            + gray + "</div>\n</div>"@,
        None => Seq::empty(),
    }
}

/// The whole quick summary page.
pub open spec fn quick_summary_text(
    name: Seq<char>,
    stamp: Seq<char>,
    target: Seq<char>,
    metrics: Seq<char>,
    charts: Option<(Seq<char>, Seq<char>)>,
) -> Seq<char> {
    html_page_text(
        "Quick Summary — "@ + name,
        quick_header_text(name, stamp, target) + metrics + quick_charts_text(charts) + QUICK_FOOTER@,
    )
}

/// The views of an optional pair of texts.
pub open spec fn pair_view(p: Option<(&str, &str)>) -> Option<(Seq<char>, Seq<char>)> {
    match p {
        Some((a, b)) => Some((a@, b@)),
        None => None,
    }
}

/// Appends the escaped `text`.
fn push_escaped(s: &mut String, text: &str)
    ensures
        final(s)@ == old(s)@ + html_escaped(text@),
{
    let e = escape_html(text);
    s.append(e.as_str());
}

/// Renders the quick summary report of a session: `metrics` is the metric
/// grid and `charts`, when the session has readings, the CIE diagram and
/// the grayscale tracker. The creation time is written as UTC minutes; a
/// time `chrono` cannot represent is replaced by the current time.
pub fn quick_summary_page(
    name: &str,
    created_at: i64,
    target_space: &str,
    metrics: &str,
    charts: Option<(&str, &str)>,
) -> (r: String)
    ensures
        exists|stamp: Seq<char>|
            #![trigger quick_summary_text(name@, stamp, target_space@, metrics@, pair_view(charts))]
            r@ == quick_summary_text(name@, stamp, target_space@, metrics@, pair_view(charts)) && (
            utc_minute_text(created_at) matches Some(t) ==> stamp == t) && (exists|secs: i64|
                #[trigger] utc_text(secs, MINUTE_LAYOUT@) == Some(stamp)),
{
    let stamp = format_timestamp(created_at);
    let mut body = String::from_str("<div class=\"header\">\n<h1>");
    push_escaped(&mut body, name);
    body.append("</h1>\n<div class=\"subtitle\">");
    body.append(stamp.as_str());
    body.append(" | ");
    push_escaped(&mut body, target_space);
    body.append("</div>\n</div>");
    body.append(metrics);
    match charts {
        Some((cie, gray)) => {
            body.append(
                "<div class=\"section\">\n<h2 class=\"section-title\">CIE 1976 u'v' Diagram</h2>\n<div class=\"chart-container\">",
            );
            body.append(cie);
            body.append(
                "</div>\n<h2 class=\"section-title\">Grayscale Tracker</h2>\n<div class=\"chart-container\">",
            );
            body.append(gray);
            body.append("</div>\n</div>");
        },
        None => {},
    }
    body.append(QUICK_FOOTER);
    assert(body@ =~= quick_header_text(name@, stamp@, target_space@) + metrics@ + quick_charts_text(
        pair_view(charts),
    ) + QUICK_FOOTER@);
    let mut title = String::from_str("Quick Summary — ");
    title.append(name);
    let r = html_page(title.as_str(), body.as_str());
    assert(r@ == quick_summary_text(name@, stamp@, target_space@, metrics@, pair_view(charts)));
    r
}

/// The session settings a detailed report lists.
pub struct ReportConfig {
    pub name: String,
    pub target_space: TargetSpace,
    pub tone_curve: ToneCurve,
    pub white_point: WhitePoint,
    pub patch_count: usize,
    pub reads_per_patch: usize,
    pub settle_time_ms: u64,
    pub tier: CalibrationTier,
}

/// Footer of the detailed report.
pub const DETAILED_FOOTER: &'static str =
    "<div class=\"footer\">Generated by ArtifexProCal — Detailed Report</div>";

/// Header of the detailed report.
pub open spec fn detailed_header_text(name: Seq<char>, stamp: Seq<char>, target: Seq<char>) -> Seq<
    char,
> {
    "<div class=\"header\">\n<h1>Detailed Calibration Report</h1>\n<div class=\"subtitle\">"@
        + html_escaped(name) + " | "@ + stamp + " | "@ + html_escaped(target) + "</div>\n</div>"@
}

/// A row of a two-column table: the label, then the value.
pub open spec fn table_row(label: Seq<char>, value: Seq<char>) -> Seq<char> {
    "<tr><td>"@ + label + "</td><td>"@ + value + "</td></tr>"@
}

/// Each text followed by a line feed, in order.
pub open spec fn lines(rows: Seq<Seq<char>>) -> Seq<char>
    decreases rows.len(),
{
    if rows.len() == 0 {
        Seq::empty()
    } else {
        lines(rows.drop_last()) + rows.last() + "\n"@
    }
}

/// Every text of the list is a line of `lines`.
proof fn lemma_lines_contains(rows: Seq<Seq<char>>, k: int)
    requires
        0 <= k < rows.len(),
    ensures
        contains_text(lines(rows), rows[k]),
    decreases rows.len(),
{
    if k == rows.len() - 1 {
        lemma_contains_middle(lines(rows.drop_last()), rows.last(), "\n"@);
    } else {
        lemma_lines_contains(rows.drop_last(), k);
        lemma_contains_within(Seq::empty(), lines(rows.drop_last()), rows.last() + "\n"@, rows[k]);
        assert(Seq::<char>::empty() + lines(rows.drop_last()) + (rows.last() + "\n"@) =~= lines(rows));
    }
}

/// The rows of the configuration table, in order.
pub open spec fn config_rows(c: ReportConfig) -> Seq<Seq<char>> {
    seq![
        table_row("Session Name"@, html_escaped(c.name@)),
        table_row("Target Space"@, target_space_label(c.target_space)),
        table_row("Tone Curve"@, tone_curve_label(c.tone_curve)),
        table_row("White Point"@, white_point_label(c.white_point)),
        table_row("Patch Count"@, decimal_text(c.patch_count as nat)),
        table_row("Reads Per Patch"@, decimal_text(c.reads_per_patch as nat)),
        table_row("Settle Time"@, decimal_text(c.settle_time_ms as nat) + " ms"@),
        table_row("Tier"@, tier_label(c.tier)),
    ]
}

/// Opening of the configuration section, up to its table.
pub open spec fn config_head() -> Seq<char> {
    "<div class=\"section\">\n<h2 class=\"section-title\">Configuration</h2>\n<table>\n"@
}

/// The configuration table of the detailed report: one line per row.
pub open spec fn config_section_text(c: ReportConfig) -> Seq<char> {
    config_head() + lines(config_rows(c)) + "</table>\n</div>"@
}

/// The configuration table of a detailed report holds one row per setting,
/// each with that setting's own value: the escaped session name, the
/// target space, tone curve, white point and tier labels, the patch count,
/// the reads per patch and the settle time in milliseconds.
pub proof fn lemma_config_rows(c: ReportConfig)
    ensures
        contains_text(config_section_text(c), table_row("Session Name"@, html_escaped(c.name@))),
        contains_text(
            config_section_text(c),
            table_row("Target Space"@, target_space_label(c.target_space)),
        ),
        contains_text(config_section_text(c), table_row("Tone Curve"@, tone_curve_label(c.tone_curve))),
        contains_text(
            config_section_text(c),
            table_row("White Point"@, white_point_label(c.white_point)),
        ),
        contains_text(
            config_section_text(c),
            table_row("Patch Count"@, decimal_text(c.patch_count as nat)),
        ),
        contains_text(
            config_section_text(c),
            table_row("Reads Per Patch"@, decimal_text(c.reads_per_patch as nat)),
        ),
        contains_text(
            config_section_text(c),
            table_row("Settle Time"@, decimal_text(c.settle_time_ms as nat) + " ms"@),
        ),
        contains_text(config_section_text(c), table_row("Tier"@, tier_label(c.tier))),
{
    let rows = config_rows(c);
    assert forall|k: int| 0 <= k < rows.len() implies contains_text(config_section_text(c), #[trigger] rows[k]) by {
        lemma_lines_contains(rows, k);
        lemma_contains_within(config_head(), lines(rows), "</table>\n</div>"@, rows[k]);
    }
    assert(rows[0] == table_row("Session Name"@, html_escaped(c.name@)));
    assert(rows[1] == table_row("Target Space"@, target_space_label(c.target_space)));
    assert(rows[2] == table_row("Tone Curve"@, tone_curve_label(c.tone_curve)));
    assert(rows[3] == table_row("White Point"@, white_point_label(c.white_point)));
    assert(rows[4] == table_row("Patch Count"@, decimal_text(c.patch_count as nat)));
    assert(rows[5] == table_row("Reads Per Patch"@, decimal_text(c.reads_per_patch as nat)));
    assert(rows[6] == table_row("Settle Time"@, decimal_text(c.settle_time_ms as nat) + " ms"@));
    assert(rows[7] == table_row("Tier"@, tier_label(c.tier)));
}

/// The chart section of the detailed report, when there are charts: the
/// CIE diagram, the grayscale tracker and the ΔE bar chart.
pub open spec fn detailed_charts_text(charts: Option<(Seq<char>, Seq<char>, Seq<char>)>) -> Seq<
    char,
> {
    match charts {
        Some((cie, gray, bars)) => "<div class=\"section\">\n<h2 class=\"section-title\">CIE 1976 u'v' Diagram</h2>\n<div class=\"chart-container\">"@
            + cie + "</div>\n<h2 class=\"section-title\">Grayscale Tracker</h2>\n<div class=\"chart-container\">"@
            + gray + "</div>\n<h2 class=\"section-title\">dE Bar Chart</h2>\n<div class=\"chart-container\">"@
            + bars + "</div>\n</div>"@,
        None => Seq::empty(),
    }
}

/// The readings section, when there is a readings table.
pub open spec fn readings_section_text(table: Option<Seq<char>>) -> Seq<char> {
    match table {
        Some(t) => "<div class=\"section\">\n<h2 class=\"section-title\">Patch Readings (sorted by ΔE)</h2>\n"@
            + t + "\n</div>"@,
        None => Seq::empty(),
    }
}

/// The LUT rows: the 1D LUT size and the 3D LUT size, each when known.
pub open spec fn lut_rows_text(lut_1d_size: Option<usize>, lut_3d_size: Option<usize>) -> Seq<char> {
    (match lut_1d_size {
        Some(n) => "<tr><td>1D LUT</td><td>"@ + decimal_text(n as nat) + " entries</td></tr>"@,
        None => Seq::empty(),
    }) + (match lut_3d_size {
        Some(n) => "<tr><td>3D LUT</td><td>"@ + decimal_text(n as nat) + " points</td></tr>"@,
        None => Seq::empty(),
    })
}

/// The LUT metadata section: present when at least one LUT size is known.
pub open spec fn lut_section_text(lut_1d_size: Option<usize>, lut_3d_size: Option<usize>) -> Seq<
    char,
> {
    if lut_1d_size is None && lut_3d_size is None {
        Seq::empty()
    } else {
        "<div class=\"section\">\n<h2 class=\"section-title\">LUT Metadata</h2>\n<table>"@
            + lut_rows_text(lut_1d_size, lut_3d_size) + "</table>\n</div>"@
    }
}

/// The views of an optional triple of texts.
pub open spec fn triple_view(p: Option<(&str, &str, &str)>) -> Option<
    (Seq<char>, Seq<char>, Seq<char>),
> {
    match p {
        Some((a, b, c)) => Some((a@, b@, c@)),
        None => None,
    }
}

/// The view of an optional text.
pub open spec fn str_view(p: Option<&str>) -> Option<Seq<char>> {
    match p {
        Some(a) => Some(a@),
        None => None,
    }
}

/// The whole detailed report page.
pub open spec fn detailed_report_text(
    name: Seq<char>,
    stamp: Seq<char>,
    target: Seq<char>,
    metrics: Seq<char>,
    config: ReportConfig,
    charts: Option<(Seq<char>, Seq<char>, Seq<char>)>,
    readings_table: Option<Seq<char>>,
    lut_1d_size: Option<usize>,
    lut_3d_size: Option<usize>,
) -> Seq<char> {
    html_page_text(
        "Detailed Report — "@ + name,
        detailed_header_text(name, stamp, target) + metrics + config_section_text(config)
            + detailed_charts_text(charts) + readings_section_text(readings_table)
            + lut_section_text(lut_1d_size, lut_3d_size) + DETAILED_FOOTER@,
    )
}

fn push_decimal_text(s: &mut String, n: u64)
    ensures
        final(s)@ == old(s)@ + decimal_text(n as nat),
{
    push_decimal(s, n);
}

fn push_table_row(s: &mut String, label: &str, value: &str)
    ensures
        final(s)@ == old(s)@ + table_row(label@, value@),
{
    let ghost start = s@;
    s.append("<tr><td>");
    s.append(label);
    s.append("</td><td>");
    s.append(value);
    s.append("</td></tr>");
    assert(s@ =~= start + table_row(label@, value@));
}

fn table_row_string(label: &str, value: &str) -> (r: String)
    ensures
        r@ == table_row(label@, value@),
{
    let mut s = String::new();
    push_table_row(&mut s, label, value);
    assert(s@ =~= table_row(label@, value@));
    s
}

fn config_row_strings(c: &ReportConfig) -> (r: Vec<String>)
    ensures
        texts(r@) == config_rows(*c),
{
    let mut v: Vec<String> = Vec::new();
    let name = escape_html(c.name.as_str());
    v.push(table_row_string("Session Name", name.as_str()));
    let t = format_target_space(&c.target_space);
    v.push(table_row_string("Target Space", t.as_str()));
    let tc = format_tone_curve(&c.tone_curve);
    v.push(table_row_string("Tone Curve", tc.as_str()));
    let w = format_white_point(&c.white_point);
    v.push(table_row_string("White Point", w.as_str()));
    let mut n = String::new();
    push_decimal_text(&mut n, c.patch_count as u64);
    assert(n@ =~= decimal_text(c.patch_count as nat));
    v.push(table_row_string("Patch Count", n.as_str()));
    let mut reads = String::new();
    push_decimal_text(&mut reads, c.reads_per_patch as u64);
    assert(reads@ =~= decimal_text(c.reads_per_patch as nat));
    v.push(table_row_string("Reads Per Patch", reads.as_str()));
    let mut settle = String::new();
    push_decimal_text(&mut settle, c.settle_time_ms);
    settle.append(" ms");
    v.push(table_row_string("Settle Time", settle.as_str()));
    let k = format_tier(&c.tier);
    v.push(table_row_string("Tier", k.as_str()));
    assert(texts(v@) =~= config_rows(*c));
    v
}

fn push_lines(s: &mut String, rows: &Vec<String>)
    ensures
        final(s)@ == old(s)@ + lines(texts(rows@)),
{
    let ghost start = s@;
    let mut i: usize = 0;
    while i < rows.len()
        invariant
            i <= rows@.len(),
            s@ == start + lines(texts(rows@).take(i as int)),
        decreases rows@.len() - i,
    {
        proof {
            let next = texts(rows@).take(i + 1);
            assert(next.drop_last() =~= texts(rows@).take(i as int));
            assert(next.last() == rows@[i as int]@);
        }
        s.append(rows[i].as_str());
        s.append("\n");
        i = i + 1;
    }
    assert(texts(rows@).take(rows@.len() as int) =~= texts(rows@));
}

fn push_config_section(s: &mut String, c: &ReportConfig)
    ensures
        final(s)@ == old(s)@ + config_section_text(*c),
{
    let ghost start = s@;
    s.append("<div class=\"section\">\n<h2 class=\"section-title\">Configuration</h2>\n<table>\n");
    let rows = config_row_strings(c);
    push_lines(s, &rows);
    s.append("</table>\n</div>");
    assert(s@ =~= start + config_section_text(*c));
}

#[verifier::rlimit(30)]
fn push_lut_section(s: &mut String, lut_1d_size: Option<usize>, lut_3d_size: Option<usize>)
    ensures
        final(s)@ == old(s)@ + lut_section_text(lut_1d_size, lut_3d_size),
{
    let ghost start = s@;
    if lut_1d_size.is_none() && lut_3d_size.is_none() {
        assert(s@ =~= start + lut_section_text(lut_1d_size, lut_3d_size));
        return;
    }
    s.append("<div class=\"section\">\n<h2 class=\"section-title\">LUT Metadata</h2>\n<table>");
    match lut_1d_size {
        Some(n) => {
            s.append("<tr><td>1D LUT</td><td>");
            push_decimal_text(s, n as u64);
            s.append(" entries</td></tr>");
        },
        None => {},
    }
    match lut_3d_size {
        Some(n) => {
            s.append("<tr><td>3D LUT</td><td>");
            push_decimal_text(s, n as u64);
            s.append(" points</td></tr>");
        },
        None => {},
    }
    s.append("</table>\n</div>");
    assert(s@ =~= start + lut_section_text(lut_1d_size, lut_3d_size));
}

/// Renders the detailed report of a session: `metrics` is the metric grid,
/// `charts` the CIE diagram, grayscale tracker and ΔE bar chart and
/// `readings_table` the readings table, each present when the session has
/// readings. The creation time is written as in the quick summary.
pub fn detailed_report_page(
    name: &str,
    created_at: i64,
    target_space: &str,
    metrics: &str,
    config: &ReportConfig,
    charts: Option<(&str, &str, &str)>,
    readings_table: Option<&str>,
    lut_1d_size: Option<usize>,
    lut_3d_size: Option<usize>,
) -> (r: String)
    ensures
        exists|stamp: Seq<char>|
            #![trigger detailed_report_text(name@, stamp, target_space@, metrics@, *config, triple_view(charts), str_view(readings_table), lut_1d_size, lut_3d_size)]
            r@ == detailed_report_text(
                name@,
                stamp,
                target_space@,
                metrics@,
                *config,
                triple_view(charts),
                str_view(readings_table),
                lut_1d_size,
                lut_3d_size,
            ) && (utc_minute_text(created_at) matches Some(t) ==> stamp == t) && (exists|secs: i64|
                #[trigger] utc_text(secs, MINUTE_LAYOUT@) == Some(stamp)),
{
    let stamp = format_timestamp(created_at);
    let mut body = String::from_str(
        "<div class=\"header\">\n<h1>Detailed Calibration Report</h1>\n<div class=\"subtitle\">",
    );
    push_escaped(&mut body, name);
    body.append(" | ");
    body.append(stamp.as_str());
    body.append(" | ");
    push_escaped(&mut body, target_space);
    body.append("</div>\n</div>");
    let ghost head = body@;
    assert(head =~= detailed_header_text(name@, stamp@, target_space@));
    body.append(metrics);
    push_config_section(&mut body, config);
    let ghost upto_config = body@;
    match charts {
        Some((cie, gray, bars)) => {
            body.append(
                "<div class=\"section\">\n<h2 class=\"section-title\">CIE 1976 u'v' Diagram</h2>\n<div class=\"chart-container\">",
            );
            body.append(cie);
            body.append(
                "</div>\n<h2 class=\"section-title\">Grayscale Tracker</h2>\n<div class=\"chart-container\">",
            );
            body.append(gray);
            body.append(
                "</div>\n<h2 class=\"section-title\">dE Bar Chart</h2>\n<div class=\"chart-container\">",
            );
            body.append(bars);
            body.append("</div>\n</div>");
        },
        None => {},
    }
    assert(body@ =~= upto_config + detailed_charts_text(triple_view(charts)));
    let ghost upto_charts = body@;
    match readings_table {
        Some(t) => {
            body.append(
                "<div class=\"section\">\n<h2 class=\"section-title\">Patch Readings (sorted by ΔE)</h2>\n",
            );
            body.append(t);
            body.append("\n</div>");
        },
        None => {},
    }
    assert(body@ =~= upto_charts + readings_section_text(str_view(readings_table)));
    push_lut_section(&mut body, lut_1d_size, lut_3d_size);
    body.append(DETAILED_FOOTER);
    assert(body@ =~= detailed_header_text(name@, stamp@, target_space@) + metrics@
        + config_section_text(*config) + detailed_charts_text(triple_view(charts))
        + readings_section_text(str_view(readings_table)) + lut_section_text(lut_1d_size, lut_3d_size)
        + DETAILED_FOOTER@);
    let mut title = String::from_str("Detailed Report — ");
    title.append(name);
    let r = html_page(title.as_str(), body.as_str());
    assert(r@ == detailed_report_text(
        name@,
        stamp@,
        target_space@,
        metrics@,
        *config,
        triple_view(charts),
        str_view(readings_table),
        lut_1d_size,
        lut_3d_size,
    ));
    r
}

/// Footer of the comparison report.
pub const COMPARISON_FOOTER: &'static str =
    "<div class=\"footer\">Generated by ArtifexProCal — Comparison Report</div>";

/// The comparison grid: the before and after metric cards side by side,
/// then the table of deltas.
pub open spec fn comparison_grid_text(
    before_cards: Seq<Seq<char>>,
    after_cards: Seq<Seq<char>>,
    delta_rows: Seq<Seq<char>>,
) -> Seq<char> {
    "<div class=\"comparison-grid\">\n<div class=\"comparison-card\">\n<h3>Before</h3>\n<div class=\"metric-grid\">"@
        + joined(before_cards) + "</div>\n</div>\n<div class=\"comparison-card\">\n<h3>After</h3>\n<div class=\"metric-grid\">"@
        + joined(after_cards) + "</div>\n</div>\n</div>\n<div class=\"section\">\n<h2 class=\"section-title\">Delta Summary</h2>\n<table>"@
        + joined(delta_rows) + "</table>\n</div>"@
}

fn push_joined(s: &mut String, parts: &Vec<String>)
    ensures
        final(s)@ == old(s)@ + joined(texts(parts@)),
{
    let ghost start = s@;
    let mut i: usize = 0;
    while i < parts.len()
        invariant
            i <= parts@.len(),
            s@ == start + joined(texts(parts@).take(i as int)),
        decreases parts@.len() - i,
    {
        proof {
            let next = texts(parts@).take(i + 1);
            assert(next.drop_last() =~= texts(parts@).take(i as int));
            assert(next.last() == parts@[i as int]@);
        }
        s.append(parts[i].as_str());
        i = i + 1;
    }
    assert(texts(parts@).take(parts@.len() as int) =~= texts(parts@));
}

/// Lays out the comparison grid from the rendered cards and delta rows.
pub fn comparison_grid(before_cards: &Vec<String>, after_cards: &Vec<String>, delta_rows: &Vec<String>) -> (r:
    String)
    ensures
        r@ == comparison_grid_text(texts(before_cards@), texts(after_cards@), texts(delta_rows@)),
{
    let mut s = String::from_str(
        "<div class=\"comparison-grid\">\n<div class=\"comparison-card\">\n<h3>Before</h3>\n<div class=\"metric-grid\">",
    );
    push_joined(&mut s, before_cards);
    s.append(
        "</div>\n</div>\n<div class=\"comparison-card\">\n<h3>After</h3>\n<div class=\"metric-grid\">",
    );
    push_joined(&mut s, after_cards);
    s.append(
        "</div>\n</div>\n</div>\n<div class=\"section\">\n<h2 class=\"section-title\">Delta Summary</h2>\n<table>",
    );
    push_joined(&mut s, delta_rows);
    s.append("</table>\n</div>");
    assert(s@ =~= comparison_grid_text(
        texts(before_cards@),
        texts(after_cards@),
        texts(delta_rows@),
    ));
    s
}

/// In the comparison grid the before session's cards come right after the
/// Before heading, the after session's cards right after the After
/// heading, and the delta rows right after the Delta Summary heading.
pub proof fn lemma_comparison_grid_columns(
    before_cards: Seq<Seq<char>>,
    after_cards: Seq<Seq<char>>,
    delta_rows: Seq<Seq<char>>,
)
    ensures
        ({
            let g = comparison_grid_text(before_cards, after_cards, delta_rows);
            let before_head = "<div class=\"comparison-grid\">\n<div class=\"comparison-card\">\n<h3>Before</h3>\n<div class=\"metric-grid\">"@;
            let after_head = "</div>\n</div>\n<div class=\"comparison-card\">\n<h3>After</h3>\n<div class=\"metric-grid\">"@;
            let delta_head = "</div>\n</div>\n</div>\n<div class=\"section\">\n<h2 class=\"section-title\">Delta Summary</h2>\n<table>"@;
            let b = joined(before_cards);
            let a = joined(after_cards);
            let d = joined(delta_rows);
            let i = before_head.len() as int;
            let j = i + b.len() + after_head.len();
            let k = j + a.len() + delta_head.len();
            &&& g.subrange(0, i) == before_head
            &&& g.subrange(i, i + b.len()) == b
            &&& g.subrange(i + b.len(), j) == after_head
            &&& g.subrange(j, j + a.len()) == a
            &&& g.subrange(j + a.len(), k) == delta_head
            &&& g.subrange(k, k + d.len()) == d
            &&& g.len() == k + d.len() + "</table>\n</div>"@.len()
        }),
{
    let g = comparison_grid_text(before_cards, after_cards, delta_rows);
    let before_head = "<div class=\"comparison-grid\">\n<div class=\"comparison-card\">\n<h3>Before</h3>\n<div class=\"metric-grid\">"@;
    let after_head = "</div>\n</div>\n<div class=\"comparison-card\">\n<h3>After</h3>\n<div class=\"metric-grid\">"@;
    let delta_head = "</div>\n</div>\n</div>\n<div class=\"section\">\n<h2 class=\"section-title\">Delta Summary</h2>\n<table>"@;
    let b = joined(before_cards);
    let a = joined(after_cards);
    let d = joined(delta_rows);
    let i = before_head.len() as int;
    let j = i + b.len() + after_head.len();
    let k = j + a.len() + delta_head.len();
    assert(g.subrange(0, i) =~= before_head);
    assert(g.subrange(i, i + b.len()) =~= b);
    assert(g.subrange(i + b.len(), j) =~= after_head);
    assert(g.subrange(j, j + a.len()) =~= a);
    assert(g.subrange(j + a.len(), k) =~= delta_head);
    assert(g.subrange(k, k + d.len()) =~= d);
}

/// Header of the comparison report.
pub open spec fn comparison_header_text(before: Seq<char>, after: Seq<char>) -> Seq<char> {
    "<div class=\"header\">\n<h1>Pre/Post Calibration Comparison</h1>\n<div class=\"subtitle\">Before: "@
        + html_escaped(before) + " | After: "@ + html_escaped(after) + "</div>\n</div>"@
}

/// One side's CIE diagram in the comparison charts, when it has one.
pub open spec fn side_chart_text(label: Seq<char>, chart: Option<Seq<char>>) -> Seq<char> {
    match chart {
        Some(c) => "<div><h4>"@ + label + "</h4>"@ + c + "</div>"@,
        None => Seq::empty(),
    }
}

/// The chart section of the comparison report: present when either session
/// has a CIE diagram.
pub open spec fn comparison_charts_text(before_cie: Option<Seq<char>>, after_cie: Option<Seq<char>>) -> Seq<
    char,
> {
    if before_cie is None && after_cie is None {
        Seq::empty()
    } else {
        "<div class=\"section\">\n<h2 class=\"section-title\">CIE Diagrams</h2>\n<div class=\"comparison-grid\">\n"@
            + side_chart_text("Before"@, before_cie) + side_chart_text("After"@, after_cie)
            + "\n</div>\n</div>"@
    }
}

/// The whole comparison page.
pub open spec fn comparison_report_text(
    before: Seq<char>,
    after: Seq<char>,
    grid: Seq<char>,
    before_cie: Option<Seq<char>>,
    after_cie: Option<Seq<char>>,
) -> Seq<char> {
    html_page_text(
        "Pre/Post Calibration Comparison"@,
        comparison_header_text(before, after) + grid + comparison_charts_text(before_cie, after_cie)
            + COMPARISON_FOOTER@,
    )
}

fn push_side_chart(s: &mut String, label: &str, chart: Option<&str>)
    ensures
        final(s)@ == old(s)@ + side_chart_text(label@, str_view(chart)),
{
    let ghost start = s@;
    match chart {
        Some(c) => {
            s.append("<div><h4>");
            s.append(label);
            s.append("</h4>");
            s.append(c);
            s.append("</div>");
        },
        None => {},
    }
    assert(s@ =~= start + side_chart_text(label@, str_view(chart)));
}

/// Renders the comparison of a session before and after calibration:
/// `grid` is the comparison grid and `before_cie` / `after_cie` the CIE
/// diagrams of the sessions that have readings.
pub fn comparison_report_page(
    before_name: &str,
    after_name: &str,
    grid: &str,
    before_cie: Option<&str>,
    after_cie: Option<&str>,
) -> (r: String)
    ensures
        r@ == comparison_report_text(
            before_name@,
            after_name@,
            grid@,
            str_view(before_cie),
            str_view(after_cie),
        ),
{
    let mut body = String::from_str(
        "<div class=\"header\">\n<h1>Pre/Post Calibration Comparison</h1>\n<div class=\"subtitle\">Before: ",
    );
    push_escaped(&mut body, before_name);
    body.append(" | After: ");
    push_escaped(&mut body, after_name);
    body.append("</div>\n</div>");
    body.append(grid);
    let ghost upto_grid = body@;
    if before_cie.is_some() || after_cie.is_some() {
        body.append(
            "<div class=\"section\">\n<h2 class=\"section-title\">CIE Diagrams</h2>\n<div class=\"comparison-grid\">\n",
        );
        push_side_chart(&mut body, "Before", before_cie);
        push_side_chart(&mut body, "After", after_cie);
        body.append("\n</div>\n</div>");
    }
    assert(body@ =~= upto_grid + comparison_charts_text(str_view(before_cie), str_view(after_cie)));
    body.append(COMPARISON_FOOTER);
    assert(body@ =~= comparison_header_text(before_name@, after_name@) + grid@
        + comparison_charts_text(str_view(before_cie), str_view(after_cie)) + COMPARISON_FOOTER@);
    html_page("Pre/Post Calibration Comparison", body.as_str())
}

} // verus!
