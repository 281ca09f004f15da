//! Random identifiers for sessions and connected meters.

use vstd::prelude::*;
use crate::hal::error::prefixed;

verus! {

/// A lower-case hexadecimal digit.
pub open spec fn is_lower_hex(c: char) -> bool {
    ('0' <= c && c <= '9') || ('a' <= c && c <= 'f')
}

/// The hyphenated text of a random (version 4, RFC 4122 variant) UUID:
/// 36 characters, hyphens at 8, 13, 18 and 23, lower-case hex digits
/// elsewhere, `4` at 14 and one of `8`, `9`, `a`, `b` at 19.
pub open spec fn uuid_v4_text(s: Seq<char>) -> bool {
    &&& s.len() == 36
    &&& forall|i: int|
        0 <= i < 36 ==> if i == 8 || i == 13 || i == 18 || i == 23 {
            s[i] == '-'
        } else {
            is_lower_hex(#[trigger] s[i])
        }
    &&& s[14] == '4'
    &&& (s[19] == '8' || s[19] == '9' || s[19] == 'a' || s[19] == 'b')
}

/// A fresh random UUID in hyphenated lower-case form.
///
/// Calls `uuid::Uuid::new_v4` and renders it with `to_string`. The version
/// 4 generator fixes the version nibble to 4 and the variant bits to 10;
/// its `Display` writes the 8-4-4-4-12 lower-case hex form. Which UUID
/// comes out is random, so nothing else is stated; the crate panics if the
/// system random source fails.
#[verifier::external_body]
fn random_uuid_text() -> (r: String)
    ensures
        uuid_v4_text(r@),
{
    uuid::Uuid::new_v4().to_string()
}

/// A fresh identifier: `prefix` followed by a random UUID.
pub fn new_prefixed_id(prefix: &str) -> (r: String)
    ensures
        r@.len() == prefix@.len() + 36,
        r@.subrange(0, prefix@.len() as int) == prefix@,
        uuid_v4_text(r@.subrange(prefix@.len() as int, r@.len() as int)),
{
    let u = random_uuid_text();
    let r = prefixed(prefix, u.as_str());
    assert(r@.subrange(0, prefix@.len() as int) =~= prefix@);
    assert(r@.subrange(prefix@.len() as int, r@.len() as int) =~= u@);
    r
}

} // verus!
