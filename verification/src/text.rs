//! Character-level helpers over `str` views.
use vstd::prelude::*;

verus! {

pub open spec fn has_prefix(text: Seq<char>, prefix: Seq<char>) -> bool {
    prefix.len() <= text.len() && text.subrange(0, prefix.len() as int) == prefix
}

pub open spec fn has_suffix(text: Seq<char>, suffix: Seq<char>) -> bool {
    suffix.len() <= text.len() && text.subrange(text.len() - suffix.len(), text.len() as int)
        == suffix
}

pub open spec fn occurs_at(text: Seq<char>, needle: Seq<char>, at: int) -> bool {
    0 <= at && at + needle.len() <= text.len() && text.subrange(at, at + needle.len()) == needle
}

pub open spec fn has_infix(text: Seq<char>, needle: Seq<char>) -> bool {
    exists|at: int| occurs_at(text, needle, at)
}

pub open spec fn ascii_lower(c: char) -> char {
    if 'A' <= c && c <= 'Z' {
        ((c as u32) + 32) as char
    } else {
        c
    }
}

pub open spec fn ascii_lowercase(text: Seq<char>) -> Seq<char> {
    text.map_values(|c: char| ascii_lower(c))
}

/// The characters of `text`, in order.
pub fn chars_of(text: &str) -> (r: Vec<char>)
    ensures
        r@ == text@,
{
    let n = text.unicode_len();
    let mut out: Vec<char> = Vec::new();
    let mut i: usize = 0;
    while i < n
        invariant
            n == text@.len(),
            i <= n,
            out@ == text@.take(i as int),
        decreases n - i,
    {
        out.push(text.get_char(i));
        i = i + 1;
        assert(out@ =~= text@.take(i as int));
    }
    assert(text@.take(n as int) =~= text@);
    out
}

pub fn chars_equal(a: &Vec<char>, b: &Vec<char>) -> (r: bool)
    ensures
        r == (a@ == b@),
{
    if a.len() != b.len() {
        return false;
    }
    let mut i: usize = 0;
    while i < a.len()
        invariant
            a@.len() == b@.len(),
            i <= a@.len(),
            forall|k: int| 0 <= k < i ==> a@[k] == b@[k],
        decreases a@.len() - i,
    {
        if a[i] != b[i] {
            return false;
        }
        i = i + 1;
    }
    assert(a@ =~= b@);
    true
}

/// Whether two strings hold the same characters.
pub fn str_eq(a: &str, b: &str) -> (r: bool)
    ensures
        r == (a@ == b@),
{
    let x = chars_of(a);
    let y = chars_of(b);
    chars_equal(&x, &y)
}

/// Whether `needle` occurs in `text` starting at `at`.
pub fn matches_at(text: &Vec<char>, needle: &Vec<char>, at: usize) -> (r: bool)
    ensures
        r == occurs_at(text@, needle@, at as int),
{
    if needle.len() > text.len() || at > text.len() - needle.len() {
        return false;
    }
    let mut k: usize = 0;
    while k < needle.len()
        invariant
            at + needle@.len() <= text@.len(),
            text@.len() == text.len(),
            k <= needle@.len(),
            forall|j: int| 0 <= j < k ==> text@[at + j] == needle@[j],
        decreases needle@.len() - k,
    {
        if text[at + k] != needle[k] {
            assert(text@.subrange(at as int, at + needle@.len())[k as int] != needle@[k as int]);
            return false;
        }
        k = k + 1;
    }
    assert(text@.subrange(at as int, at + needle@.len()) =~= needle@);
    true
}

pub fn starts_with(text: &Vec<char>, prefix: &str) -> (r: bool)
    ensures
        r == has_prefix(text@, prefix@),
{
    let p = chars_of(prefix);
    matches_at(text, &p, 0)
}

pub fn ends_with(text: &Vec<char>, suffix: &str) -> (r: bool)
    ensures
        r == has_suffix(text@, suffix@),
{
    let s = chars_of(suffix);
    if s.len() > text.len() {
        return false;
    }
    matches_at(text, &s, text.len() - s.len())
}

pub fn contains(text: &Vec<char>, needle: &str) -> (r: bool)
    ensures
        r == has_infix(text@, needle@),
{
    let n = chars_of(needle);
    if n.len() == 0 {
        assert(text@.subrange(0, 0) =~= needle@);
        assert(occurs_at(text@, needle@, 0));
        return true;
    }
    if n.len() > text.len() {
        assert(!has_infix(text@, needle@));
        return false;
    }
    let count = text.len() - n.len() + 1;
    let mut at: usize = 0;
    while at < count
        invariant
            n@ == needle@,
            count + n@.len() == text@.len() + 1,
            at <= count,
            forall|j: int| 0 <= j < at ==> !occurs_at(text@, n@, j),
        decreases count - at,
    {
        if matches_at(text, &n, at) {
            return true;
        }
        at = at + 1;
    }
    assert forall|j: int| !occurs_at(text@, n@, j) by {
        if 0 <= j && j + n@.len() <= text@.len() {
            assert(j < at);
        }
    }
    false
}

pub fn lower_char(c: char) -> (r: char)
    ensures
        r == ascii_lower(c),
{
    if 'A' <= c && c <= 'Z' {
        ((c as u8) + 32) as char
    } else {
        c
    }
}

pub fn to_ascii_lowercase(text: &Vec<char>) -> (r: Vec<char>)
    ensures
        r@ == ascii_lowercase(text@),
{
    let mut out: Vec<char> = Vec::new();
    let mut i: usize = 0;
    while i < text.len()
        invariant
            i <= text@.len(),
            out@ == ascii_lowercase(text@.take(i as int)),
        decreases text@.len() - i,
    {
        out.push(lower_char(text[i]));
        i = i + 1;
        assert(out@ =~= ascii_lowercase(text@.take(i as int)));
    }
    assert(text@.take(i as int) =~= text@);
    out
}

/// Collects characters into a string with std's `String::from_iter`, which
/// keeps every character in order.
#[verifier::external_body]
pub(crate) fn string_from_chars(chars: Vec<char>) -> (r: String)
    ensures
        r@ == chars@,
{
    String::from_iter(chars)
}

} // verus!
