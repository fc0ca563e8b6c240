//! String building blocks from std that vstd leaves unspecified.

use vstd::prelude::*;

verus! {

/// `String::push`: appends one character.
#[verifier::external_body]
pub(crate) fn push_char(s: &mut String, c: char)
    ensures
        final(s)@ == old(s)@.push(c),
{
    s.push(c);
}

/// The characters of `s`, one by one.
pub(crate) fn chars_of(s: &str) -> (out: Vec<char>)
    ensures
        out@ == s@,
{
    let mut out: Vec<char> = Vec::new();
    for c in it: s.chars()
        invariant
            out@ == it.seq().take(it.index() as int),
            it.seq() == s@,
    {
        out.push(c);
    }
    assert(out@ == s@);
    out
}

/// The string made of the characters `cs`.
pub(crate) fn string_of(cs: &Vec<char>) -> (out: String)
    ensures
        out@ == cs@,
{
    let mut out = String::new();
    let mut i: usize = 0;
    while i < cs.len()
        invariant
            i <= cs.len(),
            out@ == cs@.take(i as int),
        decreases cs.len() - i,
    {
        push_char(&mut out, cs[i]);
        assert(cs@.take(i as int).push(cs@[i as int]) == cs@.take(i + 1));
        i = i + 1;
    }
    assert(cs@.take(cs.len() as int) == cs@);
    out
}

/// Whether two texts hold the same characters.
pub(crate) fn same_text(a: &str, b: &str) -> (r: bool)
    ensures
        r == (a@ == b@),
{
    let x = chars_of(a);
    let y = chars_of(b);
    if x.len() != y.len() {
        return false;
    }
    let mut i: usize = 0;
    while i < x.len()
        invariant
            x@ == a@,
            y@ == b@,
            x.len() == y.len(),
            i <= x.len(),
            forall|j: int| 0 <= j < i ==> x@[j] == y@[j],
        decreases x.len() - i,
    {
        if x[i] != y[i] {
            return false;
        }
        i = i + 1;
    }
    assert(x@ == y@);
    true
}

/// Whether `s` begins with `prefix`.
pub(crate) fn starts_with(s: &str, prefix: &str) -> (r: bool)
    ensures
        r == (prefix@.len() <= s@.len() && s@.take(prefix@.len() as int) == prefix@),
{
    let x = chars_of(s);
    let p = chars_of(prefix);
    if p.len() > x.len() {
        return false;
    }
    let mut i: usize = 0;
    while i < p.len()
        invariant
            x@ == s@,
            p@ == prefix@,
            p.len() <= x.len(),
            i <= p.len(),
            forall|j: int| 0 <= j < i ==> x@[j] == p@[j],
        decreases p.len() - i,
    {
        if x[i] != p[i] {
            assert(s@.take(prefix@.len() as int)[i as int] != prefix@[i as int]);
            return false;
        }
        i = i + 1;
    }
    assert(s@.take(prefix@.len() as int) == prefix@);
    true
}

/// ASCII letters folded to lower case; every other character unchanged.
pub open spec fn ascii_lower(c: char) -> char {
    if 'A' <= c && c <= 'Z' {
        ((c as u32) + 32) as char
    } else {
        c
    }
}

/// Equality up to ASCII case, as `str::eq_ignore_ascii_case` decides it.
pub open spec fn eq_ignore_ascii_case_spec(a: Seq<char>, b: Seq<char>) -> bool {
    a.len() == b.len() && forall|i: int| 0 <= i < a.len() ==> ascii_lower(a[i]) == ascii_lower(b[i])
}

fn lower(c: char) -> (r: char)
    ensures
        r == ascii_lower(c),
{
    if 'A' <= c && c <= 'Z' {
        let v: u32 = (c as u32) + 32;
        let b: u8 = v as u8;
        b as char
    } else {
        c
    }
}

/// Compares two texts, ignoring the case of ASCII letters.
pub(crate) fn eq_ignore_ascii_case(a: &str, b: &str) -> (r: bool)
    ensures
        r == eq_ignore_ascii_case_spec(a@, b@),
{
    let x = chars_of(a);
    let y = chars_of(b);
    if x.len() != y.len() {
        return false;
    }
    let mut i: usize = 0;
    while i < x.len()
        invariant
            x@ == a@,
            y@ == b@,
            x.len() == y.len(),
            i <= x.len(),
            forall|j: int| 0 <= j < i ==> ascii_lower(x@[j]) == ascii_lower(y@[j]),
        decreases x.len() - i,
    {
        if lower(x[i]) != lower(y[i]) {
            return false;
        }
        i = i + 1;
    }
    true
}

/// Characters with the Unicode `White_Space` property, which `str::trim`
/// removes.
pub open spec fn is_white_space(c: char) -> bool {
    ||| '\t' <= c && c <= '\r'
    ||| c == ' '
    ||| c == '\u{85}'
    ||| c == '\u{A0}'
    ||| c == '\u{1680}'
    ||| '\u{2000}' <= c && c <= '\u{200A}'
    ||| c == '\u{2028}'
    ||| c == '\u{2029}'
    ||| c == '\u{202F}'
    ||| c == '\u{205F}'
    ||| c == '\u{3000}'
}

fn white_space(c: char) -> (r: bool)
    ensures
        r == is_white_space(c),
{
    ('\t' <= c && c <= '\r') || c == ' ' || c == '\u{85}' || c == '\u{A0}' || c == '\u{1680}' || (
    '\u{2000}' <= c && c <= '\u{200A}') || c == '\u{2028}' || c == '\u{2029}' || c == '\u{202F}'
        || c == '\u{205F}' || c == '\u{3000}'
}

/// `s` without leading and trailing white space: the part from the first to
/// the last other character (empty when there is none).
#[verifier::opaque]
pub open spec fn trim_spec(s: Seq<char>) -> Seq<char> {
    if exists|i: int| 0 <= i < s.len() && !is_white_space(#[trigger] s[i]) {
        let start = choose|i: int|
            0 <= i < s.len() && !is_white_space(s[i]) && forall|j: int|
                0 <= j < i ==> is_white_space(#[trigger] s[j]);
        let end = choose|i: int|
            0 <= i < s.len() && !is_white_space(s[i]) && forall|j: int|
                i < j < s.len() ==> is_white_space(#[trigger] s[j]);
        s.subrange(start, end + 1)
    } else {
        Seq::empty()
    }
}

/// The characters of `s` without leading and trailing white space.
pub(crate) fn trimmed(s: &str) -> (out: Vec<char>)
    ensures
        out@ == trim_spec(s@),
{
    reveal(trim_spec);
    let x = chars_of(s);
    let mut start: usize = 0;
    while start < x.len() && white_space(x[start])
        invariant
            x@ == s@,
            start <= x.len(),
            forall|j: int| 0 <= j < start ==> is_white_space(#[trigger] x@[j]),
        decreases x.len() - start,
    {
        start = start + 1;
    }
    if start == x.len() {
        return Vec::new();
    }
    let mut end: usize = x.len() - 1;
    while white_space(x[end])
        invariant
            x@ == s@,
            start <= end < x.len(),
            !is_white_space(x@[start as int]),
            forall|j: int| end < j < x.len() ==> is_white_space(#[trigger] x@[j]),
        decreases end,
    {
        end = end - 1;
    }
    let ghost st = choose|i: int|
        0 <= i < s@.len() && !is_white_space(s@[i]) && forall|j: int|
            0 <= j < i ==> is_white_space(#[trigger] s@[j]);
    let ghost en = choose|i: int|
        0 <= i < s@.len() && !is_white_space(s@[i]) && forall|j: int|
            i < j < s@.len() ==> is_white_space(#[trigger] s@[j]);
    assert(0 <= st < s@.len() && !is_white_space(s@[st]) && forall|j: int|
        0 <= j < st ==> is_white_space(#[trigger] s@[j])) by {
        assert(!is_white_space(s@[start as int]));
    }
    assert(0 <= en < s@.len() && !is_white_space(s@[en]) && forall|j: int|
        en < j < s@.len() ==> is_white_space(#[trigger] s@[j])) by {
        assert(!is_white_space(s@[end as int]));
    }
    assert(st == start) by {
        if st < start {
            assert(is_white_space(x@[st]));
        }
        if st > start {
            assert(is_white_space(s@[start as int]));
        }
    }
    assert(en == end) by {
        if en < end {
            assert(is_white_space(s@[end as int]));
        }
        if en > end {
            assert(is_white_space(x@[en]));
        }
    }
    let mut out: Vec<char> = Vec::new();
    let mut i: usize = start;
    while i <= end
        invariant
            x@ == s@,
            start <= i <= end + 1,
            end < x.len(),
            out@ == x@.subrange(start as int, i as int),
        decreases end + 1 - i,
    {
        out.push(x[i]);
        assert(x@.subrange(start as int, i as int).push(x@[i as int]) == x@.subrange(
            start as int,
            i + 1,
        ));
        i = i + 1;
    }
    out
}

/// Whether two texts differ once leading and trailing white space is ignored.
pub(crate) fn differ_trimmed(a: &str, b: &str) -> (r: bool)
    ensures
        r == (trim_spec(a@) != trim_spec(b@)),
{
    let x = trimmed(a);
    let y = trimmed(b);
    if x.len() != y.len() {
        return true;
    }
    let mut i: usize = 0;
    while i < x.len()
        invariant
            x@ == trim_spec(a@),
            y@ == trim_spec(b@),
            x.len() == y.len(),
            i <= x.len(),
            forall|j: int| 0 <= j < i ==> x@[j] == y@[j],
        decreases x.len() - i,
    {
        if x[i] != y[i] {
            return true;
        }
        i = i + 1;
    }
    assert(x@ == y@);
    false
}

/// `n` copies of `c`.
pub(crate) fn repeat_char(c: char, n: usize) -> (out: String)
    ensures
        out@ == Seq::new(n as nat, |_i: int| c),
{
    let mut out = String::new();
    let mut i: usize = 0;
    while i < n
        invariant
            i <= n,
            out@ == Seq::new(i as nat, |_i: int| c),
        decreases n - i,
    {
        push_char(&mut out, c);
        assert(Seq::new(i as nat, |_i: int| c).push(c) == Seq::new((i + 1) as nat, |_i: int| c));
        i = i + 1;
    }
    out
}

} // verus!
