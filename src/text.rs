//! Character-level scanning: whitespace, lines split on CRLF, words, and
//! ASCII case-insensitive comparison.
use vstd::prelude::*;

verus! {

/// Unicode White_Space, the set that `char::is_whitespace` recognises.
pub open spec fn is_ws(c: char) -> bool {
    let u = c as u32;
    (0x09 <= u && u <= 0x0d) || u == 0x20 || u == 0x85 || u == 0xa0 || u == 0x1680 || (0x2000 <= u
        && u <= 0x200a) || u == 0x2028 || u == 0x2029 || u == 0x202f || u == 0x205f || u == 0x3000
}

pub fn is_ws_char(c: char) -> (r: bool)
    ensures
        r == is_ws(c),
{
    let u = c as u32;
    (0x09 <= u && u <= 0x0d) || u == 0x20 || u == 0x85 || u == 0xa0 || u == 0x1680 || (0x2000 <= u
        && u <= 0x200a) || u == 0x2028 || u == 0x2029 || u == 0x202f || u == 0x205f || u == 0x3000
}

/// A line break (`\r\n`) starts at `i`.
pub open spec fn crlf_at(t: Seq<char>, i: int) -> bool {
    0 <= i && i + 1 < t.len() && t[i] == '\r' && t[i + 1] == '\n'
}

/// Where the line that starts at `i` ends: the next `\r\n`, or the end of text.
pub open spec fn line_end(t: Seq<char>, i: int) -> int
    decreases t.len() - i,
{
    if i < 0 || i + 1 >= t.len() {
        t.len() as int
    } else if crlf_at(t, i) {
        i
    } else {
        line_end(t, i + 1)
    }
}

/// `p` is where a line starts when the text is split on `\r\n`.
pub open spec fn is_line_start(t: Seq<char>, p: int) -> bool {
    p == 0 || (2 <= p <= t.len() && crlf_at(t, p - 2))
}

/// The line that starts at `p`, without its line break.
pub open spec fn line_at(t: Seq<char>, p: int) -> Seq<char> {
    t.subrange(p, line_end(t, p))
}

/// The first index at or after `i` that holds no whitespace (or the length).
pub open spec fn skip_ws(s: Seq<char>, i: int) -> int
    decreases s.len() - i,
{
    if i < 0 || i >= s.len() {
        s.len() as int
    } else if is_ws(s[i]) {
        skip_ws(s, i + 1)
    } else {
        i
    }
}

/// The first index at or after `i` that holds whitespace (or the length).
pub open spec fn word_end(s: Seq<char>, i: int) -> int
    decreases s.len() - i,
{
    if i < 0 || i >= s.len() {
        s.len() as int
    } else if is_ws(s[i]) {
        i
    } else {
        word_end(s, i + 1)
    }
}

/// The start of the whitespace run that ends at `j`.
pub open spec fn ws_run_start(s: Seq<char>, j: int) -> int
    decreases j,
{
    if j <= 0 || j > s.len() {
        if j <= 0 { 0 } else { s.len() as int }
    } else if is_ws(s[j - 1]) {
        ws_run_start(s, j - 1)
    } else {
        j
    }
}

/// The text with leading and trailing whitespace removed.
pub open spec fn trim(s: Seq<char>) -> Seq<char> {
    let a = skip_ws(s, 0);
    if a == s.len() {
        Seq::empty()
    } else {
        s.subrange(a, ws_run_start(s, s.len() as int))
    }
}

/// `c` equals the lower-case ASCII character `d`, up to ASCII case.
pub open spec fn ascii_ci_eq(c: char, d: char) -> bool {
    c == d || (0x41 <= (c as u32) && (c as u32) <= 0x5a && (c as u32) + 32 == (d as u32))
}

/// `s` begins with the lower-case ASCII text `p`, up to ASCII case.
pub open spec fn has_prefix_ci(s: Seq<char>, p: Seq<char>) -> bool {
    p.len() <= s.len() && forall|k: int| 0 <= k < p.len() ==> ascii_ci_eq(#[trigger] s[k], p[k])
}

/// Relies on `str::chars`: the characters of the text, in order.
#[verifier::external_body]
pub(crate) fn chars_of(s: &str) -> (r: Vec<char>)
    ensures
        r@ == s@,
{
    s.chars().collect()
}

/// Relies on `String: FromIterator<&char>`: the string of these characters.
#[verifier::external_body]
pub(crate) fn string_from_chars(c: &[char]) -> (r: String)
    ensures
        r@ == c@,
{
    c.iter().collect()
}

/// The end of the line that starts at `i`.
pub fn find_line_end(t: &[char], i: usize) -> (r: usize)
    requires
        i <= t@.len(),
    ensures
        r == line_end(t@, i as int),
        i <= r <= t@.len(),
        forall|k: int| i <= k < r ==> !crlf_at(t@, k),
        r < t@.len() ==> crlf_at(t@, r as int),
{
    let mut j: usize = i;
    while t.len() - j >= 2
        invariant
            i <= j <= t@.len(),
            line_end(t@, i as int) == line_end(t@, j as int),
            forall|k: int| i <= k < j ==> !crlf_at(t@, k),
        decreases t.len() - j,
    {
        if t[j] == '\r' && t[j + 1] == '\n' {
            return j;
        }
        j = j + 1;
    }
    t.len()
}

/// The first index at or after `i` with no whitespace.
pub fn find_non_ws(s: &[char], i: usize) -> (r: usize)
    requires
        i <= s@.len(),
    ensures
        r == skip_ws(s@, i as int),
        i <= r <= s@.len(),
        r < s@.len() ==> !is_ws(s@[r as int]),
{
    let mut j: usize = i;
    while j < s.len()
        invariant
            i <= j <= s@.len(),
            skip_ws(s@, i as int) == skip_ws(s@, j as int),
        decreases s.len() - j,
    {
        if !is_ws_char(s[j]) {
            return j;
        }
        j = j + 1;
    }
    j
}

/// The first index at or after `i` with whitespace.
pub fn find_ws(s: &[char], i: usize) -> (r: usize)
    requires
        i <= s@.len(),
    ensures
        r == word_end(s@, i as int),
        i <= r <= s@.len(),
{
    let mut j: usize = i;
    while j < s.len()
        invariant
            i <= j <= s@.len(),
            word_end(s@, i as int) == word_end(s@, j as int),
        decreases s.len() - j,
    {
        if is_ws_char(s[j]) {
            return j;
        }
        j = j + 1;
    }
    j
}

/// The start of the whitespace run that ends at `j`.
pub fn find_ws_run_start(s: &[char], j: usize) -> (r: usize)
    requires
        j <= s@.len(),
    ensures
        r == ws_run_start(s@, j as int),
        r <= j,
        forall|m: int| r <= m < j ==> is_ws(#[trigger] s@[m]),
        0 < r ==> !is_ws(s@[r - 1]),
{
    let mut k: usize = j;
    while k > 0
        invariant
            k <= j <= s@.len(),
            ws_run_start(s@, j as int) == ws_run_start(s@, k as int),
            forall|m: int| k <= m < j ==> is_ws(#[trigger] s@[m]),
        decreases k,
    {
        if !is_ws_char(s[k - 1]) {
            return k;
        }
        k = k - 1;
    }
    0
}

/// The text with surrounding whitespace removed.
pub fn trimmed(s: &[char]) -> (r: String)
    ensures
        r@ == trim(s@),
{
    let a = find_non_ws(s, 0);
    if a == s.len() {
        return String::new();
    }
    assert(!is_ws(s@[a as int]));
    let b = find_ws_run_start(s, s.len());
    assert(a < b) by {
        if b <= a {
            assert(is_ws(s@[a as int]));
        }
    }
    string_from_chars(&s[a..b])
}

/// `s[from..]` begins with the lower-case ASCII text `p`, up to ASCII case.
pub fn starts_with_ci(s: &[char], from: usize, to: usize, p: &[char]) -> (r: bool)
    requires
        from <= to <= s@.len(),
    ensures
        r == has_prefix_ci(s@.subrange(from as int, to as int), p@),
{
    if p.len() > to - from {
        return false;
    }
    let mut k: usize = 0;
    while k < p.len()
        invariant
            from + p@.len() <= to <= s@.len(),
            0 <= k <= p@.len(),
            forall|m: int| 0 <= m < k ==> ascii_ci_eq(#[trigger] s@[from + m], p@[m]),
        decreases p.len() - k,
    {
        let c = s[from + k];
        let d = p[k];
        let cu = c as u32;
        let eq = c == d || (0x41 <= cu && cu <= 0x5a && cu + 32 == d as u32);
        if !eq {
            assert(!ascii_ci_eq(s@.subrange(from as int, to as int)[k as int], p@[k as int]));
            return false;
        }
        k = k + 1;
    }
    assert forall|m: int| 0 <= m < p@.len() implies ascii_ci_eq(
        #[trigger] s@.subrange(from as int, to as int)[m],
        p@[m],
    ) by {
        assert(s@.subrange(from as int, to as int)[m] == s@[from + m]);
    }
    true
}

} // verus!
