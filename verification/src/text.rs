//! Character-level string helpers shared by the command, key and gesture logic.

use vstd::prelude::*;

verus! {

/// What `str::to_lowercase` yields for a string with the given characters.
pub uninterp spec fn lowercase(s: Seq<char>) -> Seq<char>;

/// What `str::to_uppercase` yields for a string with the given characters.
pub uninterp spec fn uppercase(s: Seq<char>) -> Seq<char>;

/// Whether every character of a string is ASCII.
pub open spec fn all_ascii(s: Seq<char>) -> bool {
    forall|i: int| 0 <= i < s.len() ==> s[i] <= '\u{7f}'
}

/// The ASCII lower-case form of a character: `A` to `Z` become `a` to `z`, every other
/// character stays.
pub open spec fn ascii_lower(c: char) -> char {
    if 'A' <= c && c <= 'Z' {
        (c as u32 + 32) as char
    } else {
        c
    }
}

/// The ASCII upper-case form of a character: `a` to `z` become `A` to `Z`, every other
/// character stays.
pub open spec fn ascii_upper(c: char) -> char {
    if 'a' <= c && c <= 'z' {
        (c as u32 - 32) as char
    } else {
        c
    }
}

/// Whether a character has the Unicode `White_Space` property.
pub open spec fn is_white_space(c: char) -> bool {
    ||| '\u{9}' <= c && c <= '\u{d}'
    ||| c == ' ' || c == '\u{85}' || c == '\u{a0}' || c == '\u{1680}'
    ||| '\u{2000}' <= c && c <= '\u{200a}'
    ||| c == '\u{2028}' || c == '\u{2029}' || c == '\u{202f}' || c == '\u{205f}' || c == '\u{3000}'
}

/// The number of white-space characters a string starts with.
pub open spec fn leading_white_space(s: Seq<char>) -> nat
    decreases s.len(),
{
    if s.len() > 0 && is_white_space(s[0]) {
        1 + leading_white_space(s.drop_first())
    } else {
        0
    }
}

/// The number of white-space characters a string ends with.
pub open spec fn trailing_white_space(s: Seq<char>) -> nat
    decreases s.len(),
{
    if s.len() > 0 && is_white_space(s.last()) {
        1 + trailing_white_space(s.drop_last())
    } else {
        0
    }
}

/// A string without its leading and trailing white space, as `str::trim` leaves it.
pub open spec fn trimmed(s: Seq<char>) -> Seq<char> {
    let t = s.skip(leading_white_space(s) as int);
    t.take(t.len() - trailing_white_space(t))
}

/// What `format!("{:?}", s)` renders for a string slice with the given characters.
pub uninterp spec fn debug_quoted(s: Seq<char>) -> Seq<char>;

/// Calls `str::to_lowercase`. Claims that the result depends on the input's characters
/// alone, through the name `lowercase`, and that on ASCII text it is the character-wise
/// ASCII mapping (Unicode's lower-case mapping of those characters); the mapping of other
/// characters is not restated.
#[verifier::external_body]
pub(crate) fn to_lowercase(s: &str) -> (r: String)
    ensures
        r@ == lowercase(s@),
        all_ascii(s@) ==> r@ == s@.map_values(|c: char| ascii_lower(c)),
{
    s.to_lowercase()
}

/// Calls `str::to_uppercase`. Claims that the result depends on the input's characters
/// alone, through the name `uppercase`, and that on ASCII text it is the character-wise
/// ASCII mapping; the mapping of other characters is not restated.
#[verifier::external_body]
pub(crate) fn to_uppercase(s: &str) -> (r: String)
    ensures
        r@ == uppercase(s@),
        all_ascii(s@) ==> r@ == s@.map_values(|c: char| ascii_upper(c)),
{
    s.to_uppercase()
}

/// Calls `str::trim`, which removes leading and trailing characters with the Unicode
/// `White_Space` property, as std documents.
#[verifier::external_body]
pub(crate) fn trim(s: &str) -> (r: &str)
    ensures
        r@ == trimmed(s@),
{
    s.trim()
}

/// Renders a string slice with `format!("{:?}", ..)`, std's `Debug` for `str`.
/// Claims only that the result depends on the input's characters alone, through `debug_quoted`.
#[verifier::external_body]
pub(crate) fn debug_text(s: &str) -> (r: String)
    ensures
        r@ == debug_quoted(s@),
{
    format!("{:?}", s)
}

/// Collects characters into a `String` with `String::from_iter`; the result holds
/// exactly those characters, in order, as std documents.
#[verifier::external_body]
pub(crate) fn string_from_chars(v: Vec<char>) -> (s: String)
    ensures
        s@ == v@,
{
    String::from_iter(v)
}

/// The characters of a string slice, in order.
pub fn chars_of(s: &str) -> (v: Vec<char>)
    ensures
        v@ == s@,
{
    let mut v: Vec<char> = Vec::new();
    for c in it: s.chars()
        invariant
            v@ == it.seq().take(it.index()),
    {
        v.push(c);
    }
    v
}

/// An owned copy of a string slice.
pub fn owned(s: &str) -> (r: String)
    ensures
        r@ == s@,
{
    s.to_owned()
}

/// Equality of two string slices, character by character.
pub fn str_eq(a: &str, b: &str) -> (r: bool)
    ensures
        r == (a@ == b@),
{
    let x = a.to_owned();
    let y = b.to_owned();
    x == y
}

/// Whether `p` is a prefix of `s`.
pub open spec fn has_prefix(s: Seq<char>, p: Seq<char>) -> bool {
    p.len() <= s.len() && s.subrange(0, p.len() as int) == p
}

/// `str::starts_with` for a string pattern: whether `p` is a prefix of `s`.
pub fn starts_with(s: &str, p: &str) -> (r: bool)
    ensures
        r == has_prefix(s@, p@),
{
    let sv = chars_of(s);
    let pv = chars_of(p);
    if pv.len() > sv.len() {
        return false;
    }
    let mut i: usize = 0;
    while i < pv.len()
        invariant
            pv@ == p@,
            sv@ == s@,
            pv.len() <= sv.len(),
            i <= pv.len(),
            forall|j: int| 0 <= j < i ==> sv@[j] == pv@[j],
        decreases pv.len() - i,
    {
        if sv[i] != pv[i] {
            assert(s@.subrange(0, p@.len() as int)[i as int] != p@[i as int]);
            return false;
        }
        i += 1;
    }
    assert(s@.subrange(0, p@.len() as int) =~= p@);
    true
}

/// Whether `needle` occurs as a contiguous run inside `hay`.
pub open spec fn contains_run(hay: Seq<char>, needle: Seq<char>) -> bool {
    exists|k: int| 0 <= k && k + needle.len() <= hay.len() && #[trigger] hay.subrange(k, k + needle.len()) == needle
}

/// Whether `needle` occurs in `h` starting at position `k`.
fn run_at(h: &Vec<char>, n: &Vec<char>, k: usize) -> (r: bool)
    requires
        k + n.len() <= h.len(),
    ensures
        r == (h@.subrange(k as int, k + n@.len()) == n@),
{
    let mut j: usize = 0;
    while j < n.len()
        invariant
            k + n.len() <= h.len(),
            j <= n.len(),
            forall|t: int| 0 <= t < j ==> h@[k + t] == n@[t],
        decreases n.len() - j,
    {
        if h[k + j] != n[j] {
            assert(h@.subrange(k as int, k + n@.len())[j as int] != n@[j as int]);
            return false;
        }
        j += 1;
    }
    assert(h@.subrange(k as int, k + n@.len()) =~= n@);
    true
}

/// `str::contains` for a string pattern: whether `needle` occurs inside `hay`.
pub fn contains_str(hay: &str, needle: &str) -> (r: bool)
    ensures
        r == contains_run(hay@, needle@),
{
    let h = chars_of(hay);
    let n = chars_of(needle);
    if n.len() > h.len() {
        assert forall|k: int| 0 <= k && k + needle@.len() <= hay@.len() implies #[trigger] hay@.subrange(k, k + needle@.len()) != needle@ by {}
        return false;
    }
    let last = h.len() - n.len();
    let mut k: usize = 0;
    while k < last
        invariant
            h@ == hay@,
            n@ == needle@,
            n.len() <= h.len(),
            last == h.len() - n.len(),
            k <= last,
            forall|q: int| 0 <= q < k ==> #[trigger] hay@.subrange(q, q + needle@.len()) != needle@,
        decreases last - k,
    {
        if run_at(&h, &n, k) {
            return true;
        }
        k += 1;
    }
    if run_at(&h, &n, last) {
        return true;
    }
    assert forall|q: int| 0 <= q && q + needle@.len() <= hay@.len() implies #[trigger] hay@.subrange(q, q + needle@.len()) != needle@ by {
        assert(q <= last);
    }
    false
}

} // verus!
