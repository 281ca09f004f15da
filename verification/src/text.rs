//! Character-level text helpers shared by the protocol, report and export
//! code: decimal and hexadecimal formatting, markup escaping, splitting and
//! the trimming of fixed-point decimal text.

use vstd::prelude::*;

verus! {

/// `String::push` appends one character.
pub assume_specification[ String::push ](s: &mut String, ch: char)
    ensures
        final(s)@ == old(s)@.push(ch),
;

/// The texts of a list of strings.
pub open spec fn texts(v: Seq<String>) -> Seq<Seq<char>> {
    v.map_values(|s: String| s@)
}

/// Whether `piece` occurs in `t`.
pub open spec fn contains_text(t: Seq<char>, piece: Seq<char>) -> bool {
    exists|i: int| 0 <= i && i + piece.len() <= t.len() && #[trigger] t.subrange(i, i + piece.len()) == piece
}

/// A text occurs in any text built around it.
pub proof fn lemma_contains_middle(x: Seq<char>, piece: Seq<char>, y: Seq<char>)
    ensures
        contains_text(x + piece + y, piece),
{
    let t = x + piece + y;
    assert(t.subrange(x.len() as int, (x.len() + piece.len()) as int) =~= piece);
}

/// A text that occurs in `m` occurs in any text built around `m`.
pub proof fn lemma_contains_within(x: Seq<char>, m: Seq<char>, y: Seq<char>, piece: Seq<char>)
    requires
        contains_text(m, piece),
    ensures
        contains_text(x + m + y, piece),
{
    let i = choose|i: int| 0 <= i && i + piece.len() <= m.len() && #[trigger] m.subrange(i, i + piece.len()) == piece;
    let t = x + m + y;
    assert(t.subrange(x.len() + i, x.len() + i + piece.len()) =~= m.subrange(i, i + piece.len()));
}

/// Whether two texts are equal.
pub fn same_text(a: &str, b: &str) -> (r: bool)
    ensures
        r == (a@ == b@),
{
    String::from_str(a) == String::from_str(b)
}

// ---------------------------------------------------------------------------
// Decimal formatting
// ---------------------------------------------------------------------------

/// The decimal digit character for `d` (`d < 10`).
pub open spec fn decimal_digit(d: nat) -> char {
    ((48 + d) as u32) as char
}

/// Decimal representation of `n`, without leading zeros.
pub open spec fn decimal_text(n: nat) -> Seq<char>
    decreases n,
{
    if n < 10 {
        seq![decimal_digit(n)]
    } else {
        decimal_text(n / 10).push(decimal_digit(n % 10))
    }
}

fn digit_char(d: u64) -> (c: char)
    requires
        d < 10,
    ensures
        c == decimal_digit(d as nat),
{
    let b: u8 = 48u8 + (d as u8);
    b as char
}

/// Appends the decimal representation of `n` to `s`.
pub fn push_decimal(s: &mut String, n: u64)
    ensures
        final(s)@ == old(s)@ + decimal_text(n as nat),
    decreases n,
{
    let ghost start = s@;
    if n >= 10 {
        push_decimal(s, n / 10);
    }
    s.push(digit_char(n % 10));
    assert(s@ =~= start + decimal_text(n as nat));
}

// ---------------------------------------------------------------------------
// Fixed-width upper-case hexadecimal formatting
// ---------------------------------------------------------------------------

/// The upper-case hexadecimal digit character for `d` (`d < 16`).
pub open spec fn hex_digit(d: nat) -> char {
    if d < 10 {
        ((48 + d) as u32) as char
    } else {
        ((55 + d) as u32) as char
    }
}

/// The last `width` upper-case hexadecimal digits of `n`, most significant
/// first (zero-padded when `n` has fewer digits).
pub open spec fn hex_fixed(n: nat, width: nat) -> Seq<char>
    decreases width,
{
    if width == 0 {
        Seq::empty()
    } else {
        hex_fixed(n / 16, (width - 1) as nat).push(hex_digit(n % 16))
    }
}

fn hex_char(d: u64) -> (c: char)
    requires
        d < 16,
    ensures
        c == hex_digit(d as nat),
{
    if d < 10 {
        let b: u8 = 48u8 + (d as u8);
        b as char
    } else {
        let b: u8 = 55u8 + (d as u8);
        b as char
    }
}

/// Appends the last `width` upper-case hexadecimal digits of `n` to `s`.
pub fn push_hex_fixed(s: &mut String, n: u64, width: u32)
    ensures
        final(s)@ == old(s)@ + hex_fixed(n as nat, width as nat),
    decreases width,
{
    let ghost start = s@;
    if width > 0 {
        push_hex_fixed(s, n / 16, width - 1);
        s.push(hex_char(n % 16));
    }
    assert(s@ =~= start + hex_fixed(n as nat, width as nat));
}

// ---------------------------------------------------------------------------
// Markup escaping
// ---------------------------------------------------------------------------

/// How markup escaping rewrites one character; `apos` is the entity used
/// for the single quote.
pub open spec fn markup_escape_char(c: char, apos: Seq<char>) -> Seq<char> {
    if c == '&' {
        "&amp;"@
    } else if c == '<' {
        "&lt;"@
    } else if c == '>' {
        "&gt;"@
    } else if c == '"' {
        "&quot;"@
    } else if c == '\'' {
        apos
    } else {
        seq![c]
    }
}

/// Markup escaping of a whole text: each character rewritten in order.
pub open spec fn markup_escaped(s: Seq<char>, apos: Seq<char>) -> Seq<char>
    decreases s.len(),
{
    if s.len() == 0 {
        Seq::empty()
    } else {
        markup_escaped(s.drop_last(), apos) + markup_escape_char(s.last(), apos)
    }
}

/// Escapes `&`, `<`, `>`, `"` and `'` (the latter as `apos`).
pub fn escape_markup(s: &str, apos: &str) -> (r: String)
    ensures
        r@ == markup_escaped(s@, apos@),
{
    let mut out = String::new();
    for c in it: s.chars()
        invariant
            it.seq() == s@,
            out@ == markup_escaped(s@.take(it.index()), apos@),
    {
        proof {
            assert(s@.take(it.index() + 1).drop_last() =~= s@.take(it.index()));
        }
        if c == '&' {
            out.append("&amp;");
        } else if c == '<' {
            out.append("&lt;");
        } else if c == '>' {
            out.append("&gt;");
        } else if c == '"' {
            out.append("&quot;");
        } else if c == '\'' {
            out.append(apos);
        } else {
            out.push(c);
        }
    }
    proof {
        assert(s@.take(s@.len() as int) =~= s@);
    }
    out
}

/// Escaping distributes over concatenation.
pub proof fn lemma_markup_escaped_concat(a: Seq<char>, b: Seq<char>, apos: Seq<char>)
    ensures
        markup_escaped(a + b, apos) == markup_escaped(a, apos) + markup_escaped(b, apos),
    decreases b.len(),
{
    if b.len() == 0 {
        assert(a + b =~= a);
        assert(markup_escaped(b, apos) =~= Seq::<char>::empty());
        assert(markup_escaped(a, apos) + markup_escaped(b, apos) =~= markup_escaped(a, apos));
    } else {
        assert((a + b).drop_last() =~= a + b.drop_last());
        assert((a + b).last() == b.last());
        lemma_markup_escaped_concat(a, b.drop_last(), apos);
        assert(markup_escaped(a + b, apos) =~= markup_escaped(a, apos) + markup_escaped(b, apos));
    }
}

/// No character that markup treats specially, other than `&`, survives
/// escaping, provided the quote entity holds none either.
pub proof fn lemma_markup_escaped_no_specials(s: Seq<char>, apos: Seq<char>)
    requires
        forall|j: int| 0 <= j < apos.len() ==> apos[j] != '<' && apos[j] != '>' && apos[j] != '"'
            && apos[j] != '\'',
    ensures
        forall|j: int|
            0 <= j < markup_escaped(s, apos).len() ==> {
                let c = #[trigger] markup_escaped(s, apos)[j];
                c != '<' && c != '>' && c != '"' && c != '\''
            },
    decreases s.len(),
{
    reveal_strlit("&amp;");
    reveal_strlit("&lt;");
    reveal_strlit("&gt;");
    reveal_strlit("&quot;");
    if s.len() > 0 {
        lemma_markup_escaped_no_specials(s.drop_last(), apos);
        let prev = markup_escaped(s.drop_last(), apos);
        let tail = markup_escape_char(s.last(), apos);
        assert forall|j: int| 0 <= j < (prev + tail).len() implies {
            let c = #[trigger] (prev + tail)[j];
            c != '<' && c != '>' && c != '"' && c != '\''
        } by {
            if j >= prev.len() {
                assert((prev + tail)[j] == tail[j - prev.len()]);
            } else {
                assert((prev + tail)[j] == prev[j]);
            }
        }
    }
}

// ---------------------------------------------------------------------------
// Splitting on a separator character
// ---------------------------------------------------------------------------

/// The pieces of `s` between occurrences of `sep`, as `str::split` with a
/// character pattern yields them: one more piece than there are separators.
pub open spec fn split_pieces(s: Seq<char>, sep: char) -> Seq<Seq<char>>
    decreases s.len(),
{
    if s.len() == 0 {
        seq![Seq::empty()]
    } else {
        let p = split_pieces(s.drop_last(), sep);
        if s.last() == sep {
            p.push(Seq::empty())
        } else {
            p.update(p.len() - 1, p.last().push(s.last()))
        }
    }
}

proof fn lemma_split_pieces_nonempty(s: Seq<char>, sep: char)
    ensures
        split_pieces(s, sep).len() >= 1,
    decreases s.len(),
{
    if s.len() > 0 {
        lemma_split_pieces_nonempty(s.drop_last(), sep);
    }
}

/// Splits `s` at every occurrence of `sep`.
pub fn split_on(s: &str, sep: char) -> (r: Vec<String>)
    ensures
        r.len() == split_pieces(s@, sep).len(),
        forall|i: int| 0 <= i < r.len() ==> #[trigger] r[i]@ == split_pieces(s@, sep)[i],
{
    let mut done: Vec<String> = Vec::new();
    let mut cur = String::new();
    for c in it: s.chars()
        invariant
            it.seq() == s@,
            done.len() + 1 == split_pieces(s@.take(it.index()), sep).len(),
            forall|i: int| 0 <= i < done.len() ==> #[trigger] done[i]@ == split_pieces(
                s@.take(it.index()),
                sep,
            )[i],
            cur@ == split_pieces(s@.take(it.index()), sep).last(),
    {
        proof {
            assert(s@.take(it.index() + 1).drop_last() =~= s@.take(it.index()));
            lemma_split_pieces_nonempty(s@.take(it.index()), sep);
        }
        if c == sep {
            let finished = cur;
            done.push(finished);
            cur = String::new();
        } else {
            cur.push(c);
        }
    }
    proof {
        assert(s@.take(s@.len() as int) =~= s@);
        lemma_split_pieces_nonempty(s@, sep);
    }
    done.push(cur);
    done
}

// ---------------------------------------------------------------------------
// Trimming fixed-point decimal text
// ---------------------------------------------------------------------------

/// `s` without its trailing run of `c` characters (as `trim_end_matches`).
pub open spec fn trim_end_char(s: Seq<char>, c: char) -> Seq<char>
    decreases s.len(),
{
    if s.len() > 0 && s.last() == c {
        trim_end_char(s.drop_last(), c)
    } else {
        s
    }
}

fn trimmed_end(s: &str, n: usize, c: char) -> (end: usize)
    requires
        n <= s@.len(),
    ensures
        end <= n,
        trim_end_char(s@.take(n as int), c) == s@.take(end as int),
    decreases n,
{
    if n > 0 && s.get_char(n - 1) == c {
        proof {
            assert(s@.take(n as int).drop_last() =~= s@.take(n - 1));
        }
        trimmed_end(s, n - 1, c)
    } else {
        n
    }
}

/// Removes trailing zeros and then trailing dots from a fixed-point decimal
/// text, so that `"0.250000"` reads `"0.25"` and `"3.000000"` reads `"3"`.
pub fn trim_fixed_decimal(s: &str) -> (r: String)
    ensures
        r@ == trim_end_char(trim_end_char(s@, '0'), '.'),
{
    let n = s.unicode_len();
    proof {
        assert(s@.take(n as int) =~= s@);
    }
    let e1 = trimmed_end(s, n, '0');
    let e2 = trimmed_end(s, e1, '.');
    let r = s.substring_char(0, e2);
    proof {
        assert(s@.take(e1 as int) =~= s@.subrange(0, e1 as int));
    }
    String::from_str(r)
}

} // verus!
