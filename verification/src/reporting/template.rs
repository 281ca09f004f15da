//! Building blocks of the HTML calibration reports.

use vstd::prelude::*;
use crate::clock::{known_layout, utc_now_text, utc_stamp, utc_text, MINUTE_LAYOUT};
use crate::text::{
    escape_markup, lemma_markup_escaped_concat, lemma_markup_escaped_no_specials,
    markup_escape_char, markup_escaped,
};

verus! {

/// Style sheet embedded in every report page.
pub const REPORT_CSS: &'static str = "body { font-family: sans-serif; margin: 24px; color: #222; }
.header h1 { margin: 0; }
.subtitle { color: #666; }
.metric-grid { display: flex; flex-wrap: wrap; gap: 12px; }
.metric-card { border: 1px solid #ddd; border-radius: 6px; padding: 8px 12px; }
.metric-label { font-size: 12px; color: #666; }
.metric-value { font-size: 18px; font-weight: bold; }
.metric-unit { font-size: 12px; color: #666; }
.section { margin-top: 24px; }
.section-title { font-size: 16px; }
.chart-container { margin: 8px 0; }
.comparison-grid { display: flex; gap: 24px; }
.delta-positive { color: #16a34a; }
.delta-negative { color: #dc2626; }
table { border-collapse: collapse; }
td, th { border: 1px solid #ddd; padding: 4px 8px; }
.footer { margin-top: 32px; font-size: 12px; color: #999; }";

/// The report text of the UTC time `secs`: `YYYY-MM-DD HH:MM UTC`.
pub open spec fn utc_minute_text(secs: i64) -> Option<Seq<char>> {
    utc_text(secs, MINUTE_LAYOUT@)
}

/// Formats a Unix timestamp for reports as `YYYY-MM-DD HH:MM UTC`; a time
/// `chrono` cannot represent is replaced by the current time, so the
/// result is always the report text of some time.
pub fn format_timestamp(ts: i64) -> (r: String)
    ensures
        utc_minute_text(ts) matches Some(t) ==> r@ == t,
        exists|secs: i64| #[trigger] utc_text(secs, MINUTE_LAYOUT@) == Some(r@),
{
    proof {
        assert(known_layout(MINUTE_LAYOUT@));
    }
    match utc_stamp(ts, MINUTE_LAYOUT) {
        Some(s) => s,
        None => utc_now_text(MINUTE_LAYOUT),
    }
}

/// HTML escaping: markup escaping with `&#x27;` for the single quote.
pub open spec fn html_escaped(s: Seq<char>) -> Seq<char> {
    markup_escaped(s, "&#x27;"@)
}

/// Escapes `&`, `<`, `>`, `"` and `'` for HTML text and attributes.
pub fn escape_html(s: &str) -> (r: String)
    ensures
        r@ == html_escaped(s@),
{
    escape_markup(s, "&#x27;")
}

/// Whether `c` is one of the characters HTML escaping rewrites.
pub open spec fn html_special(c: char) -> bool {
    c == '&' || c == '<' || c == '>' || c == '"' || c == '\''
}

/// Decoding of the five entities HTML escaping writes, read from the front:
/// `&amp;`, `&lt;`, `&gt;`, `&quot;` and `&#x27;` become `&`, `<`, `>`,
/// `"` and `'`; every other character stays.
pub open spec fn html_unescaped(t: Seq<char>) -> Seq<char>
    decreases t.len(),
{
    if t.len() == 0 {
        Seq::empty()
    } else if t.len() >= 5 && t.subrange(0, 5) == "&amp;"@ {
        seq!['&'] + html_unescaped(t.subrange(5, t.len() as int))
    } else if t.len() >= 4 && t.subrange(0, 4) == "&lt;"@ {
        seq!['<'] + html_unescaped(t.subrange(4, t.len() as int))
    } else if t.len() >= 4 && t.subrange(0, 4) == "&gt;"@ {
        seq!['>'] + html_unescaped(t.subrange(4, t.len() as int))
    } else if t.len() >= 6 && t.subrange(0, 6) == "&quot;"@ {
        seq!['"'] + html_unescaped(t.subrange(6, t.len() as int))
    } else if t.len() >= 6 && t.subrange(0, 6) == "&#x27;"@ {
        seq!['\''] + html_unescaped(t.subrange(6, t.len() as int))
    } else {
        seq![t[0]] + html_unescaped(t.subrange(1, t.len() as int))
    }
}

proof fn lemma_unescape_one(c: char, t: Seq<char>)
    ensures
        html_unescaped(markup_escape_char(c, "&#x27;"@) + t) == seq![c] + html_unescaped(t),
{
    reveal_strlit("&amp;");
    reveal_strlit("&lt;");
    reveal_strlit("&gt;");
    reveal_strlit("&quot;");
    reveal_strlit("&#x27;");
    let e = markup_escape_char(c, "&#x27;"@);
    let x = e + t;
    assert(x.len() > 0);
    assert(x.subrange(e.len() as int, x.len() as int) =~= t);
    if c == '&' {
        assert(x.subrange(0, 5) =~= "&amp;"@);
    } else if c == '<' {
        assert(x.len() >= 5 ==> x.subrange(0, 5)[1] == 'l');
        assert(x.subrange(0, 4) =~= "&lt;"@);
    } else if c == '>' {
        assert(x.len() >= 5 ==> x.subrange(0, 5)[1] == 'g');
        assert(x.subrange(0, 4)[1] == 'g');
        assert(x.subrange(0, 4) =~= "&gt;"@);
    } else if c == '"' {
        assert(x.len() >= 5 ==> x.subrange(0, 5)[1] == 'q');
        assert(x.subrange(0, 4)[1] == 'q');
        assert(x.subrange(0, 6) =~= "&quot;"@);
    } else if c == '\'' {
        assert(x.len() >= 5 ==> x.subrange(0, 5)[1] == '#');
        assert(x.subrange(0, 4)[1] == '#');
        assert(x.subrange(0, 6)[1] == '#');
        assert(x.subrange(0, 6) =~= "&#x27;"@);
    } else {
        assert(x[0] == c);
        assert(x.len() >= 5 ==> x.subrange(0, 5)[0] == c);
        assert(x.len() >= 4 ==> x.subrange(0, 4)[0] == c);
        assert(x.len() >= 6 ==> x.subrange(0, 6)[0] == c);
    }
}

proof fn lemma_escaped_front(s: Seq<char>)
    requires
        s.len() > 0,
    ensures
        html_escaped(s) == markup_escape_char(s[0], "&#x27;"@) + html_escaped(s.drop_first()),
{
    let head = seq![s[0]];
    assert(s =~= head + s.drop_first());
    lemma_markup_escaped_concat(head, s.drop_first(), "&#x27;"@);
    assert(head.drop_last() =~= Seq::<char>::empty());
    assert(head.last() == s[0]);
    assert(markup_escaped(head.drop_last(), "&#x27;"@) == Seq::<char>::empty());
    assert(markup_escaped(head, "&#x27;"@) =~= markup_escape_char(s[0], "&#x27;"@));
}

/// HTML escaping leaves no `<`, `>`, `"` or `'` in its output, changes a
/// text without special characters not at all, and decoding the entities
/// gives the input back.
pub proof fn lemma_html_escape_round_trip(s: Seq<char>)
    ensures
        forall|j: int|
            0 <= j < html_escaped(s).len() ==> {
                let c = #[trigger] html_escaped(s)[j];
                c != '<' && c != '>' && c != '"' && c != '\''
            },
        (forall|j: int| 0 <= j < s.len() ==> !html_special(#[trigger] s[j])) ==> html_escaped(s)
            == s,
        html_unescaped(html_escaped(s)) == s,
    decreases s.len(),
{
    reveal_strlit("&#x27;");
    lemma_markup_escaped_no_specials(s, "&#x27;"@);
    if s.len() > 0 {
        lemma_html_escape_round_trip(s.drop_first());
        lemma_escaped_front(s);
        lemma_unescape_one(s[0], html_escaped(s.drop_first()));
        assert(s =~= seq![s[0]] + s.drop_first());
        if forall|j: int| 0 <= j < s.len() ==> !html_special(#[trigger] s[j]) {
            assert(!html_special(s[0]));
            assert forall|j: int| 0 <= j < s.drop_first().len() implies !html_special(
                #[trigger] s.drop_first()[j],
            ) by {
                assert(s.drop_first()[j] == s[j + 1]);
            }
        }
    } else {
        assert(html_escaped(s) =~= s);
    }
}

/// A whole report page: the escaped title, the style sheet and the body.
pub open spec fn html_page_text(title: Seq<char>, body: Seq<char>) -> Seq<char> {
    "<!DOCTYPE html>\n<html lang=\"en\">\n<head>\n<meta charset=\"UTF-8\">\n"@
        + "<meta name=\"viewport\" content=\"width=device-width, initial-scale=1.0\">\n<title>"@
        + html_escaped(title) + "</title>\n<style>\n"@ + REPORT_CSS@ + "\n</style>\n</head>\n<body>\n"@
        + body + "\n</body>\n</html>"@
}

/// Wraps a report body into a page titled `title`.
pub fn html_page(title: &str, body: &str) -> (r: String)
    ensures
        r@ == html_page_text(title@, body@),
{
    let mut s = String::from_str("<!DOCTYPE html>\n<html lang=\"en\">\n<head>\n<meta charset=\"UTF-8\">\n");
    s.append("<meta name=\"viewport\" content=\"width=device-width, initial-scale=1.0\">\n<title>");
    let t = escape_html(title);
    s.append(t.as_str());
    s.append("</title>\n<style>\n");
    s.append(REPORT_CSS);
    s.append("\n</style>\n</head>\n<body>\n");
    s.append(body);
    s.append("\n</body>\n</html>");
    s
}

/// The unit part of a metric card: an escaped unit in a span, or nothing.
pub open spec fn metric_unit_text(unit: Option<Seq<char>>) -> Seq<char> {
    match unit {
        Some(u) => "<span class=\"metric-unit\">"@ + html_escaped(u) + "</span>"@,
        None => Seq::empty(),
    }
}

/// A metric card: escaped label and value, then the unit.
pub open spec fn metric_card_text(label: Seq<char>, value: Seq<char>, unit: Option<Seq<char>>) -> Seq<
    char,
> {
    "<div class=\"metric-card\">\n<div class=\"metric-label\">"@ + html_escaped(label)
        + "</div>\n<div class=\"metric-value\">"@ + html_escaped(value) + " "@ + metric_unit_text(unit)
        + "</div>\n</div>"@
}

/// Renders one metric of a report summary.
pub fn metric_card(label: &str, value: &str, unit: Option<&str>) -> (r: String)
    ensures
        r@ == metric_card_text(
            label@,
            value@,
            match unit {
                Some(u) => Some(u@),
                None => None,
            },
        ),
{
    let mut s = String::from_str("<div class=\"metric-card\">\n<div class=\"metric-label\">");
    let l = escape_html(label);
    s.append(l.as_str());
    s.append("</div>\n<div class=\"metric-value\">");
    let v = escape_html(value);
    s.append(v.as_str());
    s.append(" ");
    match unit {
        Some(u) => {
            s.append("<span class=\"metric-unit\">");
            let e = escape_html(u);
            s.append(e.as_str());
            s.append("</span>");
        },
        None => {},
    }
    s.append("</div>\n</div>");
    proof {
        let us = match unit {
            Some(u) => Some(u@),
            None => None,
        };
        assert(s@ =~= metric_card_text(label@, value@, us));
    }
    s
}

} // verus!
