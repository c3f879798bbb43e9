//! Character-level text handling: the characters of a string, white space, trimming,
//! and comparison that ignores ASCII case.
use vstd::prelude::*;

verus! {

/// The characters of `s`, in order.
pub fn chars_of(s: &str) -> (r: Vec<char>)
    ensures
        r@ == s@,
{
    let mut out: Vec<char> = Vec::new();
    for c in it: s.chars()
        invariant
            out@ == it.seq().take(it.index() as int),
    {
        out.push(c);
    }
    out
}

} // verus!

verus! {

/// The characters with the Unicode `White_Space` property, which `char::is_whitespace`
/// and `str::trim` go by.
pub open spec fn is_white_space(c: char) -> bool {
    ||| '\u{9}' <= c <= '\u{d}'
    ||| c == ' '
    ||| c == '\u{85}'
    ||| c == '\u{a0}'
    ||| c == '\u{1680}'
    ||| '\u{2000}' <= c <= '\u{200a}'
    ||| c == '\u{2028}'
    ||| c == '\u{2029}'
    ||| c == '\u{202f}'
    ||| c == '\u{205f}'
    ||| c == '\u{3000}'
}

/// Whether `c` is white space.
pub fn white_space(c: char) -> (r: bool)
    ensures
        r == is_white_space(c),
{
    ('\u{9}' <= c && c <= '\u{d}') || c == ' ' || c == '\u{85}' || c == '\u{a0}' || c
        == '\u{1680}' || ('\u{2000}' <= c && c <= '\u{200a}') || c == '\u{2028}' || c
        == '\u{2029}' || c == '\u{202f}' || c == '\u{205f}' || c == '\u{3000}'
}

/// `t` is `s` with its leading and trailing white space removed: `t` is the part of
/// `s` from `start` to `end`, everything outside it is white space, and `t` neither
/// starts nor ends with white space.
pub open spec fn trimmed_at(s: Seq<char>, start: int, end: int) -> bool {
    &&& 0 <= start <= end <= s.len()
    &&& forall|i: int| 0 <= i < start ==> is_white_space(#[trigger] s[i])
    &&& forall|i: int| end <= i < s.len() ==> is_white_space(#[trigger] s[i])
    &&& start < end ==> !is_white_space(s[start]) && !is_white_space(s[end - 1])
}

/// `s` with leading and trailing white space removed, as `str::trim` does.
pub open spec fn trim(s: Seq<char>) -> Seq<char> {
    let bounds = choose|b: (int, int)| trimmed_at(s, b.0, b.1);
    s.subrange(bounds.0, bounds.1)
}

/// Only one part of a sequence is its trimmed form.
pub proof fn lemma_trim_unique(s: Seq<char>, a: int, b: int, c: int, d: int)
    requires
        trimmed_at(s, a, b),
        trimmed_at(s, c, d),
    ensures
        s.subrange(a, b) == s.subrange(c, d),
{
    // Each part starts at the first character that is no white space and ends after
    // the last one; a sequence of white space alone has only empty parts.
    if a < c && a < b {
        assert(is_white_space(s[a]));
    }
    if c < a && c < d {
        assert(is_white_space(s[c]));
    }
    if b < d && c < d {
        assert(is_white_space(s[d - 1]));
    }
    if d < b && a < b {
        assert(is_white_space(s[b - 1]));
    }
    assert(s.subrange(a, b) =~= s.subrange(c, d));
}

/// The characters of `s` without leading and trailing white space.
pub fn trim_chars(s: &Vec<char>) -> (r: Vec<char>)
    ensures
        r@ == trim(s@),
{
    let n = s.len();
    let mut start: usize = 0;
    while start < n && white_space(s[start])
        invariant
            n == s@.len(),
            start <= n,
            forall|i: int| 0 <= i < start ==> is_white_space(#[trigger] s@[i]),
        decreases n - start,
    {
        start += 1;
    }
    let mut end: usize = n;
    while end > start && white_space(s[end - 1])
        invariant
            n == s@.len(),
            start <= end <= n,
            forall|i: int| end <= i < n ==> is_white_space(#[trigger] s@[i]),
            start < n ==> !is_white_space(s@[start as int]),
        decreases end - start,
    {
        end -= 1;
    }
    let mut out: Vec<char> = Vec::new();
    let mut i: usize = start;
    while i < end
        invariant
            start <= i <= end <= n,
            n == s@.len(),
            out@ == s@.subrange(start as int, i as int),
        decreases end - i,
    {
        out.push(s[i]);
        i += 1;
    }
    proof {
        let w = (start as int, end as int);
        assert(trimmed_at(s@, w.0, w.1));
        let bounds = choose|b: (int, int)| trimmed_at(s@, b.0, b.1);
        lemma_trim_unique(s@, start as int, end as int, bounds.0, bounds.1);
    }
    out
}

/// `c` with an ASCII capital letter turned into its small letter.
pub open spec fn ascii_lower(c: char) -> char {
    if 'A' <= c <= 'Z' {
        ((c as u32) + 32) as char
    } else {
        c
    }
}

/// The sequences are equal once ASCII letters are compared without regard to case, as
/// `str::eq_ignore_ascii_case` compares.
pub open spec fn eq_ignore_ascii_case(a: Seq<char>, b: Seq<char>) -> bool {
    &&& a.len() == b.len()
    &&& forall|i: int| 0 <= i < a.len() ==> ascii_lower(#[trigger] a[i]) == ascii_lower(b[i])
}

/// Exactly the ASCII capitals `A` to `Z` are lowered, each to the small letter 32 code
/// points above it; every other character is left as it is.
pub proof fn lemma_ascii_lower_maps_capitals(c: char)
    ensures
        'A' <= c <= 'Z' ==> ascii_lower(c) as u32 == c as u32 + 32 && 'a' <= ascii_lower(c) <= 'z',
        !('A' <= c <= 'Z') ==> ascii_lower(c) == c,
{
}

/// Two characters are equal ignoring ASCII case exactly when they are the same
/// character, or the capital and the small form of one ASCII letter.
pub proof fn lemma_equal_ignoring_case(a: char, b: char)
    ensures
        ascii_lower(a) == ascii_lower(b) <==> ({
            ||| a == b
            ||| 'A' <= a <= 'Z' && b as u32 == a as u32 + 32
            ||| 'A' <= b <= 'Z' && a as u32 == b as u32 + 32
        }),
{
    lemma_ascii_lower_maps_capitals(a);
    lemma_ascii_lower_maps_capitals(b);
}

/// `c` with an ASCII capital letter turned into its small letter.
pub fn to_ascii_lower(c: char) -> (r: char)
    ensures
        r == ascii_lower(c),
        'A' <= c <= 'Z' ==> r as u32 == c as u32 + 32,
        !('A' <= c <= 'Z') ==> r == c,
{
    if 'A' <= c && c <= 'Z' {
        let small = (c as u8) + 32;
        small as char
    } else {
        c
    }
}

/// Compares the characters of `a` and `b`, ignoring the case of ASCII letters.
pub fn chars_eq_ignore_ascii_case(a: &Vec<char>, b: &Vec<char>) -> (r: bool)
    ensures
        r == eq_ignore_ascii_case(a@, b@),
{
    if a.len() != b.len() {
        return false;
    }
    let mut i: usize = 0;
    while i < a.len()
        invariant
            a@.len() == b@.len(),
            i <= a@.len(),
            forall|j: int| 0 <= j < i ==> ascii_lower(#[trigger] a@[j]) == ascii_lower(b@[j]),
        decreases a@.len() - i,
    {
        if to_ascii_lower(a[i]) != to_ascii_lower(b[i]) {
            return false;
        }
        i += 1;
    }
    true
}

} // verus!

verus! {

/// Whether `a` and `b` hold the same characters.
pub fn same_text(a: &str, b: &str) -> (r: bool)
    ensures
        r == (a@ == b@),
{
    let x = chars_of(a);
    let y = chars_of(b);
    if x.len() != y.len() {
        return false;
    }
    let mut i: usize = 0;
    while i < x.len()
        invariant
            x@ == a@,
            y@ == b@,
            x@.len() == y@.len(),
            i <= x@.len(),
            forall|j: int| 0 <= j < i ==> #[trigger] x@[j] == y@[j],
        decreases x@.len() - i,
    {
        if x[i] != y[i] {
            assert(x@[i as int] != y@[i as int]);
            return false;
        }
        i += 1;
    }
    assert(x@ =~= y@);
    true
}

} // verus!
