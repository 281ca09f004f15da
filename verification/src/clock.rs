//! UTC times as text, for a given Unix time or for now.

use vstd::prelude::*;

verus! {

/// Layout of report timestamps: `YYYY-MM-DD HH:MM UTC`.
pub const MINUTE_LAYOUT: &'static str = "%Y-%m-%d %H:%M UTC";

/// Layout of document creation stamps: `YYYY-MM-DDTHH:MM:SSZ`.
pub const SECOND_LAYOUT: &'static str = "%Y-%m-%dT%H:%M:%SZ";

/// One of the two layouts the library writes.
pub open spec fn known_layout(layout: Seq<char>) -> bool {
    layout == MINUTE_LAYOUT@ || layout == SECOND_LAYOUT@
}

/// The text `chrono` gives for the UTC time `secs` seconds after the Unix
/// epoch, formatted with `layout`; `None` where `chrono` cannot represent
/// that time.
pub uninterp spec fn utc_text(secs: i64, layout: Seq<char>) -> Option<Seq<char>>;

/// `chrono::DateTime::from_timestamp(secs, 0)`, rendered with `layout`,
/// one of the two layouts the library writes, both of which `chrono`
/// accepts.
///
/// The contract only names the result: it depends on `secs` and `layout`
/// alone and is absent exactly when `from_timestamp` finds the time out of
/// range. The calendar arithmetic is not restated.
#[verifier::external_body]
pub(crate) fn utc_stamp(secs: i64, layout: &str) -> (r: Option<String>)
    requires
        known_layout(layout@),
    ensures
        match r {
            Some(s) => utc_text(secs, layout@) == Some(s@),
            None => utc_text(secs, layout@) is None,
        },
{
    match chrono::DateTime::from_timestamp(secs, 0) {
        Some(dt) => Some(dt.format(layout).to_string()),
        None => None,
    }
}

/// `chrono::Utc::now().timestamp()`: the current Unix time in whole
/// seconds.
///
/// Which time comes back depends on the clock, so the contract says only
/// that `chrono` can represent it: `Utc::now` builds its value with
/// `from_timestamp`, which gives back any time it produced. `Utc::now`
/// panics when the system clock is before the Unix epoch.
#[verifier::external_body]
fn utc_now_seconds() -> (r: i64)
    ensures
        utc_text(r, MINUTE_LAYOUT@) is Some,
        utc_text(r, SECOND_LAYOUT@) is Some,
{
    chrono::Utc::now().timestamp()
}

/// The current UTC time formatted with `layout`. Neither layout shows
/// fractions of a second, so this is the text of the current time itself.
pub fn utc_now_text(layout: &str) -> (r: String)
    requires
        known_layout(layout@),
    ensures
        exists|secs: i64| #[trigger] utc_text(secs, layout@) == Some(r@),
{
    let secs = utc_now_seconds();
    match utc_stamp(secs, layout) {
        Some(s) => s,
        None => String::new(),
    }
}

} // verus!
