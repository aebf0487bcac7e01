//! Text held as bytes, each byte standing for the character of the same code (U+0000 to
//! U+00FF), as the modem's responses are read: whitespace, prefixes and suffixes, search, and
//! the size of the text once encoded in UTF-8.
use vstd::prelude::*;

verus! {

/// Whether the character of code `b` is whitespace (in U+0000 to U+00FF: tab to carriage
/// return, space, next line U+0085 and no-break space U+00A0).
pub open spec fn is_ws(b: u8) -> bool {
    (0x09 <= b && b <= 0x0D) || b == 0x20 || b == 0x85 || b == 0xA0
}

/// Whether the character of code `b` is whitespace.
pub fn is_whitespace(b: u8) -> (r: bool)
    ensures
        r == is_ws(b),
{
    (0x09 <= b && b <= 0x0D) || b == 0x20 || b == 0x85 || b == 0xA0
}

/// Bytes taken by the character of code `b` in UTF-8.
pub open spec fn char_len(b: u8) -> nat {
    if b < 0x80 {
        1
    } else {
        2
    }
}

/// Bytes taken by the text in UTF-8.
pub open spec fn utf8_len(s: Seq<u8>) -> nat
    decreases s.len(),
{
    if s.len() == 0 {
        0
    } else {
        utf8_len(s.drop_last()) + char_len(s.last())
    }
}

/// A text takes at least one byte per character, and at most two.
pub proof fn lemma_utf8_len_bounds(s: Seq<u8>)
    ensures
        s.len() <= utf8_len(s) <= 2 * s.len(),
    decreases s.len(),
{
    if s.len() > 0 {
        lemma_utf8_len_bounds(s.drop_last());
    }
}

/// Bytes taken by the text `s` in UTF-8.
pub fn utf8_size(s: &[u8]) -> (r: usize)
    requires
        s@.len() <= usize::MAX / 2,
    ensures
        r == utf8_len(s@),
{
    let mut n: usize = 0;
    let mut i: usize = 0;
    while i < s.len()
        invariant
            i <= s@.len() <= usize::MAX / 2,
            n == utf8_len(s@.subrange(0, i as int)),
            n <= 2 * i,
        decreases s@.len() - i,
    {
        proof {
            assert(s@.subrange(0, i + 1).drop_last() =~= s@.subrange(0, i as int));
        }
        n = n + if s[i] < 0x80 {
            1
        } else {
            2
        };
        i = i + 1;
    }
    assert(s@.subrange(0, s@.len() as int) =~= s@);
    n
}

/// Whether `s` ends with `pat`.
pub open spec fn ends_with(s: Seq<u8>, pat: Seq<u8>) -> bool {
    pat.len() <= s.len() && s.subrange(s.len() - pat.len(), s.len() as int) == pat
}

/// Whether `s` starts with `pat`.
pub open spec fn starts_with(s: Seq<u8>, pat: Seq<u8>) -> bool {
    pat.len() <= s.len() && s.subrange(0, pat.len() as int) == pat
}

/// Whether `pat` occurs in `s` at position `i`.
pub open spec fn occurs_at(s: Seq<u8>, pat: Seq<u8>, i: int) -> bool {
    0 <= i && i + pat.len() <= s.len() && s.subrange(i, i + pat.len()) == pat
}

/// Whether `pat` occurs in `s`.
pub open spec fn contains(s: Seq<u8>, pat: Seq<u8>) -> bool {
    exists|i: int| occurs_at(s, pat, i)
}

/// Whether `pat` occurs in `s` at position `i`.
pub fn matches_at(s: &[u8], pat: &[u8], i: usize) -> (r: bool)
    ensures
        r == occurs_at(s@, pat@, i as int),
{
    if i > s.len() || pat.len() > s.len() - i {
        return false;
    }
    let mut k: usize = 0;
    while k < pat.len()
        invariant
            i + pat@.len() <= s@.len(),
            s@.len() == s.len(),
            k <= pat@.len(),
            forall|j: int| 0 <= j < k ==> s@[i + j] == pat@[j],
        decreases pat@.len() - k,
    {
        if s[i + k] != pat[k] {
            assert(s@.subrange(i as int, i + pat@.len())[k as int] != pat@[k as int]);
            return false;
        }
        k = k + 1;
    }
    assert(s@.subrange(i as int, i + pat@.len()) =~= pat@);
    true
}

/// Whether `s` ends with `pat`.
pub fn has_suffix(s: &[u8], pat: &[u8]) -> (r: bool)
    ensures
        r == ends_with(s@, pat@),
{
    if pat.len() > s.len() {
        return false;
    }
    matches_at(s, pat, s.len() - pat.len())
}

/// Whether `s` starts with `pat`.
pub fn has_prefix(s: &[u8], pat: &[u8]) -> (r: bool)
    ensures
        r == starts_with(s@, pat@),
{
    if pat.len() > s.len() {
        return false;
    }
    matches_at(s, pat, 0)
}

/// Whether `pat` occurs in `s`.
pub fn find(s: &[u8], pat: &[u8]) -> (r: bool)
    ensures
        r == contains(s@, pat@),
{
    if pat.len() == 0 {
        assert(s@.subrange(0, 0) =~= pat@);
        assert(occurs_at(s@, pat@, 0));
        return true;
    }
    let mut i: usize = 0;
    while i < s.len()
        invariant
            i <= s@.len(),
            pat@.len() > 0,
            forall|j: int| 0 <= j < i ==> !occurs_at(s@, pat@, j),
        decreases s@.len() - i,
    {
        if matches_at(s, pat, i) {
            return true;
        }
        i = i + 1;
    }
    assert forall|j: int| !occurs_at(s@, pat@, j) by {
        if 0 <= j && j < i {
        }
    }
    false
}

/// The last position of `pat` in `s`, if it occurs.
pub open spec fn last_occurrence(s: Seq<u8>, pat: Seq<u8>) -> Option<int> {
    if contains(s, pat) {
        Some(choose|i: int| occurs_at(s, pat, i) && forall|j: int| occurs_at(s, pat, j) ==> j <= i)
    } else {
        None
    }
}

/// The last position of `pat` in `s`, if it occurs.
pub fn rfind(s: &[u8], pat: &[u8]) -> (r: Option<usize>)
    ensures
        r matches Some(i) ==> occurs_at(s@, pat@, i as int) && forall|j: int| occurs_at(s@, pat@, j) ==> j <= i,
        r is None ==> !contains(s@, pat@),
        r matches Some(i) ==> last_occurrence(s@, pat@) == Some(i as int),
        r is None ==> last_occurrence(s@, pat@) is None,
{
    if pat.len() > s.len() {
        proof {
            assert forall|j: int| !occurs_at(s@, pat@, j) by {}
        }
        return None;
    }
    let mut i: usize = s.len() - pat.len();
    let mut searching = true;
    while searching
        invariant
            i <= s@.len() - pat@.len(),
            pat@.len() <= s@.len(),
            searching ==> forall|j: int| i < j ==> !occurs_at(s@, pat@, j),
            !searching ==> forall|j: int| !occurs_at(s@, pat@, j),
        decreases i + (if searching { 1int } else { 0int }),
    {
        if matches_at(s, pat, i) {
            let r = i;
            proof {
                assert(contains(s@, pat@));
                let c = choose|k: int| occurs_at(s@, pat@, k) && forall|j: int| occurs_at(s@, pat@, j) ==> j <= k;
                assert(occurs_at(s@, pat@, c) && forall|j: int| occurs_at(s@, pat@, j) ==> j <= c);
                assert(c <= r as int);
                assert(r as int <= c);
            }
            return Some(r);
        }
        if i == 0 {
            searching = false;
        } else {
            i = i - 1;
        }
    }
    None
}

/// Leading whitespace characters of `s`.
pub open spec fn leading_ws(s: Seq<u8>) -> nat
    decreases s.len(),
{
    if s.len() > 0 && is_ws(s[0]) {
        1 + leading_ws(s.drop_first())
    } else {
        0
    }
}

/// Trailing whitespace characters of `s`.
pub open spec fn trailing_ws(s: Seq<u8>) -> nat
    decreases s.len(),
{
    if s.len() > 0 && is_ws(s.last()) {
        1 + trailing_ws(s.drop_last())
    } else {
        0
    }
}

/// `s` without its leading and trailing whitespace.
pub open spec fn trim(s: Seq<u8>) -> Seq<u8> {
    if leading_ws(s) >= s.len() {
        Seq::empty()
    } else {
        s.subrange(leading_ws(s) as int, s.len() - trailing_ws(s))
    }
}

proof fn lemma_leading_ws_le(s: Seq<u8>)
    ensures
        leading_ws(s) <= s.len(),
        leading_ws(s) < s.len() ==> !is_ws(s[leading_ws(s) as int]),
        forall|k: int| 0 <= k < leading_ws(s) ==> is_ws(s[k]),
    decreases s.len(),
{
    if s.len() > 0 && is_ws(s[0]) {
        lemma_leading_ws_le(s.drop_first());
        assert forall|k: int| 0 <= k < leading_ws(s) implies is_ws(s[k]) by {
            if k > 0 {
                assert(s[k] == s.drop_first()[k - 1]);
            }
        }
    }
}

proof fn lemma_trailing_ws_le(s: Seq<u8>)
    ensures
        trailing_ws(s) <= s.len(),
        trailing_ws(s) < s.len() ==> !is_ws(s[s.len() - 1 - trailing_ws(s)]),
    decreases s.len(),
{
    if s.len() > 0 && is_ws(s.last()) {
        lemma_trailing_ws_le(s.drop_last());
    }
}

/// The bounds of `s` without its leading and trailing whitespace.
pub fn trim_bounds(s: &[u8]) -> (r: (usize, usize))
    ensures
        r.0 <= r.1 <= s@.len(),
        s@.subrange(r.0 as int, r.1 as int) == trim(s@),
{
    let n = s.len();
    let mut i: usize = 0;
    proof {
        assert(s@.subrange(0, n as int) =~= s@);
    }
    while i < n && is_whitespace(s[i])
        invariant
            i <= n == s@.len(),
            leading_ws(s@) == i + leading_ws(s@.subrange(i as int, n as int)),
        decreases n - i,
    {
        proof {
            assert(s@.subrange(i as int, n as int).drop_first() =~= s@.subrange(i + 1, n as int));
        }
        i = i + 1;
    }
    proof {
        if i < n {
            assert(s@.subrange(i as int, n as int)[0] == s@[i as int]);
        }
        assert(leading_ws(s@) == i);
        lemma_leading_ws_le(s@);
    }
    if i == n {
        assert(s@.subrange(n as int, n as int) =~= trim(s@));
        return (n, n);
    }
    let mut j: usize = n;
    while is_whitespace(s[j - 1])
        invariant
            i < j <= n == s@.len(),
            !is_ws(s@[i as int]),
            trailing_ws(s@) == (n - j) + trailing_ws(s@.subrange(0, j as int)),
        decreases j,
    {
        proof {
            assert(s@.subrange(0, j as int).drop_last() =~= s@.subrange(0, j - 1));
        }
        j = j - 1;
    }
    proof {
        assert(s@.subrange(0, j as int).last() == s@[j - 1]);
        assert(trailing_ws(s@) == n - j);
    }
    (i, j)
}

/// The whitespace characters are exactly tab, line feed, vertical tab, form feed, carriage
/// return, space, next line and no-break space; a character below 0x80 takes one UTF-8 byte,
/// from 0x80 two.
pub proof fn lemma_documented_whitespace(b: u8)
    ensures
        is_ws(b) <==> (b == 9 || b == 10 || b == 11 || b == 12 || b == 13 || b == 32 || b == 0x85
            || b == 0xA0),
        char_len(b) == (if b < 128 { 1nat } else { 2nat }),
{
}

} // verus!
