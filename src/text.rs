//! Character-based text accounting and log redaction.

use vstd::prelude::*;
use vstd::string::*;

verus! {

/// Texts longer than this many characters are cut in verbose logs.
pub const PREVIEW_CHARS: usize = 50;

/// The decimal digit for `d` (`d < 10`).
pub open spec fn digit_char(d: nat) -> char {
    if d == 0 { '0' }
    else if d == 1 { '1' }
    else if d == 2 { '2' }
    else if d == 3 { '3' }
    else if d == 4 { '4' }
    else if d == 5 { '5' }
    else if d == 6 { '6' }
    else if d == 7 { '7' }
    else if d == 8 { '8' }
    else { '9' }
}

/// The decimal notation of `n`, without leading zeros.
pub open spec fn decimal(n: nat) -> Seq<char>
    decreases n,
{
    if n < 10 {
        seq![digit_char(n)]
    } else {
        decimal(n / 10) + seq![digit_char(n % 10)]
    }
}

/// What the redaction utility shows of `s`.
pub open spec fn redacted(s: Seq<char>, verbose: bool) -> Seq<char> {
    if verbose {
        if s.len() > PREVIEW_CHARS {
            s.take(PREVIEW_CHARS as int) + "... ("@ + decimal(s.len()) + " chars)"@
        } else {
            s
        }
    } else {
        "<redacted "@ + decimal(s.len()) + " chars>"@
    }
}

/// Number of characters (Unicode scalar values, not bytes) in `s`.
pub fn char_len(s: &str) -> (r: usize)
    ensures
        r as nat == s@.len(),
{
    s.unicode_len()
}

/// The first `max_chars` characters of `s` (all of `s` if it is shorter).
pub fn truncate_chars(s: &str, max_chars: usize) -> (r: String)
    ensures
        max_chars <= s@.len() ==> r@ == s@.take(max_chars as int),
        max_chars > s@.len() ==> r@ == s@,
{
    let n = s.unicode_len();
    let k: usize = if max_chars < n { max_chars } else { n };
    let r = String::from_str(s.substring_char(0, k));
    proof {
        if max_chars > s@.len() {
            assert(s@.subrange(0, k as int) =~= s@);
        }
    }
    r
}

/// The single-character string of digit `d`.
fn digit_str(d: usize) -> (r: &'static str)
    requires
        d < 10,
    ensures
        r@ == seq![digit_char(d as nat)],
{
    let digits = "0123456789";
    proof {
        reveal_strlit("0123456789");
    }
    let r = digits.substring_char(d, d + 1);
    assert(r@ =~= seq![digit_char(d as nat)]);
    r
}

/// The decimal notation of `n`.
pub fn decimal_string(n: usize) -> (r: String)
    ensures
        r@ == decimal(n as nat),
    decreases n,
{
    if n < 10 {
        String::from_str(digit_str(n))
    } else {
        let mut s = decimal_string(n / 10);
        s.append(digit_str(n % 10));
        s
    }
}

/// A loggable rendering of `s`. Unless `verbose` holds, only the character
/// count is shown; in verbose mode a long text is cut to its first
/// `PREVIEW_CHARS` characters and followed by its character count.
pub fn redact_text(s: &str, verbose: bool) -> (r: String)
    ensures
        r@ == redacted(s@, verbose),
{
    let n = char_len(s);
    if verbose {
        if n > PREVIEW_CHARS {
            let mut r = truncate_chars(s, PREVIEW_CHARS);
            r.append("... (");
            r.append(decimal_string(n).as_str());
            r.append(" chars)");
            r
        } else {
            String::from_str(s)
        }
    } else {
        let mut r = String::from_str("<redacted ");
        r.append(decimal_string(n).as_str());
        r.append(" chars>");
        r
    }
}

/// Unicode `White_Space`: the characters that trimming removes.
pub open spec fn is_white_space(c: char) -> bool {
    ('\u{9}' <= c && c <= '\u{d}') || c == ' ' || c == '\u{85}' || c == '\u{a0}'
        || c == '\u{1680}' || ('\u{2000}' <= c && c <= '\u{200a}') || c == '\u{2028}'
        || c == '\u{2029}' || c == '\u{202f}' || c == '\u{205f}' || c == '\u{3000}'
}

/// A text is blank when it holds only white space (the empty text included).
pub open spec fn is_blank(s: Seq<char>) -> bool {
    forall|i: int| 0 <= i < s.len() ==> is_white_space(#[trigger] s[i])
}

/// Whether `c` is white space.
pub fn white_space(c: char) -> (r: bool)
    ensures
        r == is_white_space(c),
{
    ('\u{9}' <= c && c <= '\u{d}') || c == ' ' || c == '\u{85}' || c == '\u{a0}'
        || c == '\u{1680}' || ('\u{2000}' <= c && c <= '\u{200a}') || c == '\u{2028}'
        || c == '\u{2029}' || c == '\u{202f}' || c == '\u{205f}' || c == '\u{3000}'
}

/// Whether `s` holds nothing but white space.
pub fn blank(s: &str) -> (r: bool)
    ensures
        r == is_blank(s@),
{
    let n = s.unicode_len();
    let mut i: usize = 0;
    while i < n
        invariant
            n == s@.len(),
            i <= n,
            forall|j: int| 0 <= j < i ==> is_white_space(#[trigger] s@[j]),
        decreases n - i,
    {
        if !white_space(s.get_char(i)) {
            return false;
        }
        i = i + 1;
    }
    true
}

/// The text captured from the selection, or `None` when nothing but white
/// space was selected.
pub fn selected_text(text: String) -> (r: Option<String>)
    ensures
        is_blank(text@) ==> r is None,
        !is_blank(text@) ==> r == Some(text),
{
    if blank(text.as_str()) {
        None
    } else {
        Some(text)
    }
}

/// `p` occurs in `s` as a run of consecutive characters.
pub open spec fn has_infix(s: Seq<char>, p: Seq<char>) -> bool {
    exists|i: int| 0 <= i && i + p.len() <= s.len() && #[trigger] s.subrange(i, i + p.len()) == p
}

/// Whether `s` holds `p` at position `at`.
fn holds_at(s: &str, p: &str, at: usize) -> (r: bool)
    requires
        at + p@.len() <= s@.len(),
    ensures
        r == (s@.subrange(at as int, at + p@.len()) == p@),
{
    let total = s.unicode_len();
    let n = p.unicode_len();
    let mut j: usize = 0;
    while j < n
        invariant
            total == s@.len(),
            n == p@.len(),
            at + n <= s@.len(),
            j <= n,
            forall|k: int| 0 <= k < j ==> s@[at + k] == p@[k],
        decreases n - j,
    {
        if s.get_char(at + j) != p.get_char(j) {
            assert(s@.subrange(at as int, at + p@.len())[j as int] != p@[j as int]);
            return false;
        }
        j = j + 1;
    }
    assert(s@.subrange(at as int, at + p@.len()) =~= p@);
    true
}

/// Whether `p` occurs in `s`.
pub fn contains(s: &str, p: &str) -> (r: bool)
    ensures
        r == has_infix(s@, p@),
{
    let n = s.unicode_len();
    let m = p.unicode_len();
    if m > n {
        return false;
    }
    if m == 0 {
        assert(s@.subrange(0int, 0int + p@.len()) =~= p@);
        return true;
    }
    let mut i: usize = 0;
    while i <= n - m
        invariant
            n == s@.len(),
            m == p@.len(),
            1 <= m <= n,
            i <= n - m + 1,
            forall|k: int| 0 <= k < i ==> #[trigger] s@.subrange(k, k + m) != p@,
        decreases n - i,
    {
        if holds_at(s, p, i) {
            return true;
        }
        i = i + 1;
    }
    false
}

/// `s` without its leading `p`, or `None` where `s` does not begin with `p`.
pub open spec fn without_prefix(s: Seq<char>, p: Seq<char>) -> Option<Seq<char>> {
    if p.len() <= s.len() && s.take(p.len() as int) == p {
        Some(s.skip(p.len() as int))
    } else {
        None
    }
}

/// `s` without its leading `p`, or `None` where `s` does not begin with `p`.
pub fn strip_prefix(s: &str, p: &str) -> (r: Option<String>)
    ensures
        match without_prefix(s@, p@) {
            Some(t) => r matches Some(x) && x@ == t,
            None => r is None,
        },
{
    let n = s.unicode_len();
    let m = p.unicode_len();
    if m <= n && holds_at(s, p, 0) {
        assert(s@.subrange(0, m as int) =~= s@.take(m as int));
        let rest = String::from_str(s.substring_char(m, n));
        assert(rest@ =~= s@.skip(m as int));
        Some(rest)
    } else {
        proof {
            if m <= n {
                assert(s@.subrange(0, m as int) =~= s@.take(m as int));
            }
        }
        None
    }
}

} // verus!
