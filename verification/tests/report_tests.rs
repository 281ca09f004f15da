use artifexprocal::calibration::{CalibrationTier, TargetSpace, ToneCurve, WhitePoint};
use artifexprocal::reporting::pages::{
    comparison_grid, comparison_report_page, detailed_report_page, quick_summary_page,
    summary_metrics, MetricTexts, ReportConfig,
};
use artifexprocal::reporting::engine::{ReportEngine, ReportFormat, ReportRoute, ReportTemplate};
use artifexprocal::reporting::template::metric_card;

const CREATED_AT: i64 = 1714219200;
const SVG: &str = "<svg width=\"400\" height=\"300\"></svg>";

fn metrics_of_results() -> MetricTexts {
    MetricTexts {
        gamma: Some("2.40".to_string()),
        max_de: Some("1.23".to_string()),
        avg_de: Some("0.56".to_string()),
    }
}

fn mock_metrics() -> String {
    summary_metrics(
        TargetSpace::Bt709,
        ToneCurve::Gamma(240),
        WhitePoint::D65,
        10,
        CalibrationTier::GrayscaleOnly,
        &Some((metrics_of_results(), Some("D65".to_string()))),
        &metrics_of_results(),
    )
}

fn mock_config(name: &str) -> ReportConfig {
    ReportConfig {
        name: name.to_string(),
        target_space: TargetSpace::Bt709,
        tone_curve: ToneCurve::Gamma(240),
        white_point: WhitePoint::D65,
        patch_count: 10,
        reads_per_patch: 3,
        settle_time_ms: 5000,
        tier: CalibrationTier::GrayscaleOnly,
    }
}

#[test]
fn test_quick_summary_contains_session_name() {
    let html = quick_summary_page("LG OLED SDR", CREATED_AT, "Rec.709", &mock_metrics(), Some((SVG, SVG)));
    assert!(html.contains("LG OLED SDR"));
    assert!(html.contains("Quick Summary"));
    assert!(html.contains("<svg"));
    assert!(html.contains("</svg>"));
    assert!(html.contains(&format!(
        "<h2 class=\"section-title\">CIE 1976 u'v' Diagram</h2>\n<div class=\"chart-container\">{}</div>\n<h2 class=\"section-title\">Grayscale Tracker</h2>\n<div class=\"chart-container\">{}</div>",
        SVG, SVG
    )));
}

#[test]
fn test_detailed_contains_readings_table() {
    let table = "<table><tr><th>Patch</th><th>Target RGB</th><th>Measured XYZ</th><th>ΔE</th></tr></table>";
    let html = detailed_report_page(
        "Detailed Test",
        CREATED_AT,
        "Rec.709",
        &mock_metrics(),
        &mock_config("Detailed Test"),
        Some((SVG, SVG, SVG)),
        Some(table),
        Some(1024),
        None,
    );
    assert!(html.contains("Detailed Calibration Report"));
    assert!(html.contains("Patch Readings"));
    assert!(html.contains("<table>"));
    assert!(html.contains("<svg"));
    assert!(html.contains(&format!(
        "<h2 class=\"section-title\">Patch Readings (sorted by ΔE)</h2>\n{}\n</div>",
        table
    )));
    assert!(html.contains(&format!("<h2 class=\"section-title\">dE Bar Chart</h2>\n<div class=\"chart-container\">{}</div>", SVG)));
    assert!(html.contains("<tr><td>Session Name</td><td>Detailed Test</td></tr>"));
}

#[test]
fn test_pre_post_comparison_contains_both_sessions() {
    let before = vec![metric_card("Target", "Rec.709", None)];
    let after = vec![metric_card("Target", "Rec.709", None)];
    let deltas = vec!["<tr><td>Target</td><td>—</td></tr>".to_string()];
    let grid = comparison_grid(&before, &after, &deltas);
    let html = comparison_report_page("Before Session", "After Session", &grid, Some(SVG), Some(SVG));
    assert!(html.contains("Before Session"));
    assert!(html.contains("After Session"));
    assert!(html.contains("Pre/Post Calibration Comparison"));
    assert!(html.contains("Delta Summary"));
}

#[test]
fn summary_metrics_prefer_computed_results() {
    let with_results = mock_metrics();
    assert!(with_results.starts_with("<div class=\"metric-grid\"><div class=\"metric-card\">"));
    assert!(with_results.contains("<div class=\"metric-label\">Tone Curve</div>\n<div class=\"metric-value\">Gamma 2.40 </div>"));
    assert!(with_results.contains("<div class=\"metric-label\">Patch Count</div>\n<div class=\"metric-value\">10 </div>"));
    assert!(with_results.contains("White Balance"));
    let from_summary = summary_metrics(
        TargetSpace::DciP3,
        ToneCurve::Pq,
        WhitePoint::Dci,
        0,
        CalibrationTier::Full3D,
        &None,
        &MetricTexts { gamma: None, max_de: Some("3.10".to_string()), avg_de: None },
    );
    assert!(!from_summary.contains("White Balance"));
    assert!(!from_summary.contains("Gamma"));
    assert!(from_summary.contains("<div class=\"metric-label\">Max ΔE</div>\n<div class=\"metric-value\">3.10 </div>"));
    assert!(from_summary.contains("Full 3D LUT"));
    assert!(from_summary.ends_with("</div>\n</div></div>"));
}

#[test]
fn report_header_shows_escaped_name_and_utc_time() {
    let html = quick_summary_page("A & <B>", CREATED_AT, "Rec.709", "", None);
    assert!(html.contains("<title>Quick Summary — A &amp; &lt;B&gt;</title>"));
    assert!(html.contains(
        "<div class=\"header\">\n<h1>A &amp; &lt;B&gt;</h1>\n<div class=\"subtitle\">2024-04-27 12:00 UTC | Rec.709</div>\n</div><div class=\"footer\">Generated by ArtifexProCal</div>"
    ));
    assert!(!html.contains("CIE 1976"));
}

#[test]
fn detailed_sections_appear_only_with_their_data() {
    let bare = detailed_report_page("S", CREATED_AT, "Rec.709", "", &mock_config("S"), None, None, None, None);
    assert!(!bare.contains("LUT Metadata"));
    assert!(!bare.contains("Patch Readings"));
    assert!(bare.contains("<tr><td>Settle Time</td><td>5000 ms</td></tr>"));
    assert!(bare.contains("<tr><td>Tone Curve</td><td>Gamma 2.40</td></tr>"));
    let luts = detailed_report_page("S", CREATED_AT, "Rec.709", "", &mock_config("S"), None, None, Some(1024), Some(33));
    assert!(luts.contains(
        "<h2 class=\"section-title\">LUT Metadata</h2>\n<table><tr><td>1D LUT</td><td>1024 entries</td></tr><tr><td>3D LUT</td><td>33 points</td></tr></table>"
    ));
}

#[test]
fn comparison_charts_need_a_diagram() {
    let none = comparison_report_page("B", "A", "", None, None);
    assert!(!none.contains("CIE Diagrams"));
    let after_only = comparison_report_page("B", "A", "", None, Some(SVG));
    assert!(after_only.contains("<div class=\"comparison-grid\">\n<div><h4>After</h4><svg"));
    assert!(!after_only.contains("<h4>Before</h4>"));
}

#[test]
fn test_pre_post_comparison_requires_compare() {
    let result = ReportEngine::route(ReportTemplate::PrePostComparison, ReportFormat::Html, false);
    assert!(result.is_err());
}

#[test]
fn test_pre_post_comparison_success() {
    let route = ReportEngine::route(ReportTemplate::PrePostComparison, ReportFormat::Html, true).unwrap();
    assert_eq!(route, ReportRoute::Html(ReportTemplate::PrePostComparison));
    let grid = comparison_grid(&vec![], &vec![], &vec![]);
    let html = comparison_report_page("Before", "After", &grid, None, None);
    assert!(html.contains("Before"));
    assert!(html.contains("After"));
}

#[test]
fn test_engine_generate_html() {
    let route = ReportEngine::route(ReportTemplate::QuickSummary, ReportFormat::Html, false).unwrap();
    assert_eq!(route, ReportRoute::Html(ReportTemplate::QuickSummary));
    let html = quick_summary_page("Integration Test", CREATED_AT, "Rec.709", &mock_metrics(), None);
    assert!(html.contains("Integration Test"));
    assert!(html.contains("<!DOCTYPE html>"));
}
