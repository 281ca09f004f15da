//! Address checks shared by the network-attached devices.

use vstd::prelude::*;
use crate::text::{split_on, split_pieces};

verus! {

/// An ASCII decimal digit.
pub open spec fn is_ascii_digit(c: char) -> bool {
    '0' <= c && c <= '9'
}

/// Every character of `d` is an ASCII decimal digit.
pub open spec fn all_ascii_digits(d: Seq<char>) -> bool {
    forall|i: int| 0 <= i < d.len() ==> is_ascii_digit(#[trigger] d[i])
}

/// The value of a run of decimal digits, most significant first.
pub open spec fn digits_value(d: Seq<char>) -> nat
    decreases d.len(),
{
    if d.len() == 0 {
        0
    } else {
        digits_value(d.drop_last()) * 10 + ((d.last() as nat) - 48) as nat
    }
}

/// The digits of an unsigned integer text: an optional leading `+` removed.
pub open spec fn unsigned_digits(p: Seq<char>) -> Seq<char> {
    if p.len() > 0 && p[0] == '+' {
        p.drop_first()
    } else {
        p
    }
}

/// What `str::parse::<u8>` gives for `p`: an optional `+` followed by at
/// least one decimal digit, with a value of at most 255.
pub open spec fn parsed_u8(p: Seq<char>) -> Option<u8> {
    let d = unsigned_digits(p);
    if d.len() > 0 && all_ascii_digits(d) && digits_value(d) <= 255 {
        Some(digits_value(d) as u8)
    } else {
        None
    }
}

/// A dotted-quad IPv4 address text: exactly four dot-separated pieces, each
/// of which parses as a `u8`.
pub open spec fn valid_ip_text(s: Seq<char>) -> bool {
    let parts = split_pieces(s, '.');
    parts.len() == 4 && forall|i: int| 0 <= i < 4 ==> (#[trigger] parsed_u8(parts[i])) is Some
}

proof fn lemma_digits_value_grows(a: Seq<char>, b: Seq<char>)
    requires
        all_ascii_digits(b),
    ensures
        digits_value(a + b) >= digits_value(a),
    decreases b.len(),
{
    if b.len() == 0 {
        assert(a + b =~= a);
    } else {
        assert((a + b).drop_last() =~= a + b.drop_last());
        assert(all_ascii_digits(b.drop_last()));
        lemma_digits_value_grows(a, b.drop_last());
        assert(is_ascii_digit(b[b.len() - 1]));
    }
}

/// Parses a `u8` from its decimal text, as `str::parse::<u8>` does.
pub fn parse_u8(p: &str) -> (r: Option<u8>)
    ensures
        r == parsed_u8(p@),
{
    let n = p.unicode_len();
    let mut start: usize = 0;
    if n > 0 && p.get_char(0) == '+' {
        start = 1;
    }
    let ghost d = unsigned_digits(p@);
    proof {
        assert(d =~= p@.subrange(start as int, n as int));
    }
    if start == n {
        return None;
    }
    let mut v: u32 = 0;
    let mut i: usize = start;
    while i < n
        invariant
            start <= i <= n,
            n == p@.len(),
            start < n,
            d =~= p@.subrange(start as int, n as int),
            d == unsigned_digits(p@),
            all_ascii_digits(d.take(i - start)),
            v as nat == digits_value(d.take(i - start)),
            v <= 255,
        decreases n - i,
    {
        let c = p.get_char(i);
        proof {
            assert(d.take(i - start + 1).drop_last() =~= d.take(i - start));
            assert(d[i - start] == c);
        }
        if !('0' <= c && c <= '9') {
            assert(!is_ascii_digit(d[i - start]));
            assert(!all_ascii_digits(d));
            return None;
        }
        let nv: u32 = v * 10 + ((c as u32) - 48);
        assert(all_ascii_digits(d.take(i - start + 1)));
        assert(nv as nat == digits_value(d.take(i - start + 1)));
        if nv > 255 {
            proof {
                let pre = d.take(i - start + 1);
                let rest = d.subrange(i - start + 1, d.len() as int);
                assert(pre + rest =~= d);
                if all_ascii_digits(d) {
                    assert(all_ascii_digits(rest));
                    lemma_digits_value_grows(pre, rest);
                    assert(digits_value(d) > 255);
                }
            }
            return None;
        }
        v = nv;
        i = i + 1;
    }
    proof {
        assert(d.take(n - start) =~= d);
    }
    Some(v as u8)
}

/// Whether `ip` is a dotted-quad IPv4 address: four dot-separated pieces
/// that each parse as a `u8`.
pub fn is_valid_ip(ip: &str) -> (r: bool)
    ensures
        r == valid_ip_text(ip@),
{
    let parts = split_on(ip, '.');
    if parts.len() != 4 {
        return false;
    }
    let mut i: usize = 0;
    while i < 4
        invariant
            i <= 4,
            parts.len() == 4,
            parts.len() == split_pieces(ip@, '.').len(),
            forall|k: int| 0 <= k < parts.len() ==> #[trigger] parts[k]@ == split_pieces(ip@, '.')[k],
            forall|k: int| 0 <= k < i ==> (#[trigger] parsed_u8(split_pieces(ip@, '.')[k])) is Some,
        decreases 4 - i,
    {
        if parse_u8(parts[i].as_str()).is_none() {
            return false;
        }
        i = i + 1;
    }
    true
}

} // verus!
