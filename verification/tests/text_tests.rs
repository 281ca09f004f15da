use artifexprocal::reporting::engine::{ReportEngine, ReportError, ReportFormat, ReportRoute, ReportTemplate};
use artifexprocal::module_meter::export::{push_history, rgb_space_to_string, RgbSpace, HISTORY_CAPACITY};
use artifexprocal::reporting::template::{escape_html, format_timestamp, html_page, metric_card, REPORT_CSS};
use artifexprocal::text::{push_decimal, push_hex_fixed, split_on, trim_fixed_decimal};
use std::collections::VecDeque;

#[test]
fn decimal_and_hex_formatting() {
    for n in [0u64, 7, 10, 99, 1000, 123456789, u64::MAX] {
        let mut s = String::from("n=");
        push_decimal(&mut s, n);
        assert_eq!(s, format!("n={}", n));
    }
    for n in [0u64, 0x5, 0xAB, 0x0765, 0xFFFF] {
        let mut s = String::new();
        push_hex_fixed(&mut s, n, 4);
        assert_eq!(s, format!("{:04X}", n));
    }
    let mut s = String::new();
    push_hex_fixed(&mut s, 0x12345, 4);
    assert_eq!(s, "2345");
}

#[test]
fn html_escaping() {
    assert_eq!(escape_html("a<b>&\"c'"), "a&lt;b&gt;&amp;&quot;c&#x27;");
    assert_eq!(escape_html("plain ΔE"), "plain ΔE");
    let s = "x & <y>";
    let twice = format!("{}{}", escape_html(s), escape_html(s));
    assert_eq!(escape_html(&format!("{}{}", s, s)), twice);
}

#[test]
fn pages_and_cards() {
    let page = html_page("A<B", "<p>body</p>");
    assert!(page.starts_with("<!DOCTYPE html>"));
    assert!(page.contains("<title>A&lt;B</title>"));
    assert!(page.contains(REPORT_CSS));
    assert!(page.ends_with("<p>body</p>\n</body>\n</html>"));
    assert_eq!(
        metric_card("Max ΔE", "1.23", None),
        "<div class=\"metric-card\">\n<div class=\"metric-label\">Max ΔE</div>\n<div class=\"metric-value\">1.23 </div>\n</div>"
    );
    assert_eq!(
        metric_card("Settle", "5000", Some("ms")),
        "<div class=\"metric-card\">\n<div class=\"metric-label\">Settle</div>\n<div class=\"metric-value\">5000 <span class=\"metric-unit\">ms</span></div>\n</div>"
    );
}

#[test]
fn splitting() {
    assert_eq!(split_on("a.b..c", '.'), vec!["a", "b", "", "c"]);
    assert_eq!(split_on("", '.'), vec![""]);
    assert_eq!(split_on("x.", '.'), vec!["x", ""]);
}

#[test]
fn fixed_decimal_trimming() {
    for v in [0.0f64, 0.25, 3.0, 100.0, -1.5, 95.047, 1e-7] {
        let formatted = format!("{:.6}", v);
        let expected = formatted.trim_end_matches('0').trim_end_matches('.').to_string();
        assert_eq!(trim_fixed_decimal(&formatted), expected);
    }
    assert_eq!(trim_fixed_decimal("0.250000"), "0.25");
    assert_eq!(trim_fixed_decimal("3.000000"), "3");
}

#[test]
fn history_is_fifo_and_bounded() {
    let mut h: VecDeque<u32> = VecDeque::new();
    for i in 0..1002u32 {
        push_history(&mut h, i);
    }
    assert_eq!(h.len(), HISTORY_CAPACITY);
    assert_eq!(h.front(), Some(&2));
    assert_eq!(h.back(), Some(&1001));
}

#[test]
fn rgb_space_names() {
    assert_eq!(rgb_space_to_string(Some(RgbSpace::Rec709)), "BT.709");
    assert_eq!(rgb_space_to_string(Some(RgbSpace::DisplayP3)), "Display-P3");
    assert_eq!(rgb_space_to_string(None), "");
}

#[test]
fn report_timestamps() {
    assert_eq!(format_timestamp(0), "1970-01-01 00:00 UTC");
    assert_eq!(format_timestamp(1714219200), "2024-04-27 12:00 UTC");
    assert_eq!(format_timestamp(i64::MAX).len(), "1970-01-01 00:00 UTC".len());
}

#[test]
fn report_routes() {
    assert_eq!(
        ReportEngine::route(ReportTemplate::QuickSummary, ReportFormat::Html, false).unwrap(),
        ReportRoute::Html(ReportTemplate::QuickSummary)
    );
    assert_eq!(
        ReportEngine::route(ReportTemplate::QuickSummary, ReportFormat::Pdf, false).unwrap(),
        ReportRoute::Pdf
    );
    assert!(matches!(
        ReportEngine::route(ReportTemplate::PrePostComparison, ReportFormat::Html, false),
        Err(ReportError::MissingComparison)
    ));
    assert_eq!(
        ReportEngine::route(ReportTemplate::PrePostComparison, ReportFormat::Html, true).unwrap(),
        ReportRoute::Html(ReportTemplate::PrePostComparison)
    );
}

#[test]
fn html_escaping_decodes_back() {
    for s in ["a<b>&\"c'", "&amp; already", "plain", "", "<<&&>>"] {
        let e = escape_html(s);
        assert!(!e.contains('<') && !e.contains('>') && !e.contains('"') && !e.contains('\''));
        let back = e
            .replace("&lt;", "<")
            .replace("&gt;", ">")
            .replace("&quot;", "\"")
            .replace("&#x27;", "'")
            .replace("&amp;", "&");
        assert_eq!(back, s);
    }
    assert_eq!(escape_html("plain text"), "plain text");
}

#[test]
fn unrepresentable_times_fall_back_to_a_utc_stamp() {
    assert_eq!(format_timestamp(1714219200), "2024-04-27 12:00 UTC");
    let now = format_timestamp(i64::MAX);
    assert_eq!(now.len(), 20);
    assert!(now.ends_with(" UTC"));
    assert_eq!(&now[4..5], "-");
    assert_eq!(&now[13..14], ":");
}
