//! Character-level helpers: ASCII case folding and Unicode whitespace.

use vstd::prelude::*;

verus! {

/// ASCII lower-casing of one character; every other character is kept.
pub open spec fn ascii_lower(c: char) -> char {
    if 'A' <= c && c <= 'Z' {
        ((c as u32) + 32) as char
    } else {
        c
    }
}

/// Two character sequences are equal when ASCII letters are compared without case.
pub open spec fn eq_ignore_ascii_case_spec(a: Seq<char>, b: Seq<char>) -> bool {
    &&& a.len() == b.len()
    &&& forall|i: int| 0 <= i < a.len() ==> #[trigger] ascii_lower(a[i]) == ascii_lower(b[i])
}

/// The characters of `s`, in order.
pub fn chars_of(s: &str) -> (res: Vec<char>)
    ensures
        res@ == s@,
{
    let mut out: Vec<char> = Vec::new();
    for c in it: s.chars()
        invariant
            out@ == it.seq().take(it.index() as int),
    {
        out.push(c);
    }
    out
}

/// ASCII lower-casing of every character of `s`.
pub open spec fn ascii_lower_seq(s: Seq<char>) -> Seq<char> {
    s.map_values(|c: char| ascii_lower(c))
}

/// Lower-case one character as `char::to_ascii_lowercase` does.
pub fn lower_ascii_char(c: char) -> (res: char)
    ensures
        res == ascii_lower(c),
{
    if 'A' <= c && c <= 'Z' {
        let code: u8 = ((c as u32) + 32) as u8;
        code as char
    } else {
        c
    }
}

/// The characters of `s`, lower-cased as `str::to_ascii_lowercase` does.
pub fn to_ascii_lowercase(s: &str) -> (res: Vec<char>)
    ensures
        res@ == ascii_lower_seq(s@),
{
    let mut out: Vec<char> = Vec::new();
    for c in it: s.chars()
        invariant
            out@ == ascii_lower_seq(it.seq().take(it.index() as int)),
    {
        proof {
            assert(ascii_lower_seq(it.seq().take(it.index() as int + 1)) =~= ascii_lower_seq(
                it.seq().take(it.index() as int),
            ).push(ascii_lower(it.seq()[it.index() as int])));
        }
        let low = lower_ascii_char(c);
        out.push(low);
    }
    out
}

/// Compare two character sequences as `str::eq_ignore_ascii_case` does.
pub fn eq_ignore_ascii_case(a: &[char], b: &[char]) -> (res: bool)
    ensures
        res == eq_ignore_ascii_case_spec(a@, b@),
{
    if a.len() != b.len() {
        return false;
    }
    let mut i: usize = 0;
    while i < a.len()
        invariant
            a@.len() == b@.len(),
            i <= a@.len(),
            forall|j: int| 0 <= j < i ==> #[trigger] ascii_lower(a@[j]) == ascii_lower(b@[j]),
        decreases a@.len() - i,
    {
        if lower_ascii_char(a[i]) != lower_ascii_char(b[i]) {
            return false;
        }
        i = i + 1;
    }
    true
}

/// Unicode `White_Space`, the property that `char::is_whitespace` and
/// `str::trim` go by.
pub open spec fn is_unicode_whitespace(c: char) -> bool {
    let u = c as u32;
    ||| 0x09 <= u <= 0x0d
    ||| u == 0x20
    ||| u == 0x85
    ||| u == 0xa0
    ||| u == 0x1680
    ||| 0x2000 <= u <= 0x200a
    ||| u == 0x2028
    ||| u == 0x2029
    ||| u == 0x202f
    ||| u == 0x205f
    ||| u == 0x3000
}

/// Whether `s.trim()` is empty: every character is whitespace.
pub open spec fn is_blank_spec(s: Seq<char>) -> bool {
    forall|i: int| 0 <= i < s.len() ==> #[trigger] is_unicode_whitespace(s[i])
}

fn is_whitespace_char(c: char) -> (res: bool)
    ensures
        res == is_unicode_whitespace(c),
{
    let u: u32 = c as u32;
    (0x09 <= u && u <= 0x0d) || u == 0x20 || u == 0x85 || u == 0xa0 || u == 0x1680 || (0x2000
        <= u && u <= 0x200a) || u == 0x2028 || u == 0x2029 || u == 0x202f || u == 0x205f || u
        == 0x3000
}

/// Whether nothing is left of `s` once whitespace is trimmed.
pub fn is_blank(s: &str) -> (res: bool)
    ensures
        res == is_blank_spec(s@),
{
    let cs = chars_of(s);
    let mut i: usize = 0;
    while i < cs.len()
        invariant
            cs@ == s@,
            i <= cs@.len(),
            forall|j: int| 0 <= j < i ==> #[trigger] is_unicode_whitespace(cs@[j]),
        decreases cs@.len() - i,
    {
        if !is_whitespace_char(cs[i]) {
            return false;
        }
        i = i + 1;
    }
    true
}

/// ASCII lower-casing turns every capital `A`..`Z` into the small letter
/// 32 code points above it and leaves every other character alone; so no
/// capital survives it, and a text equals its lower-cased form ignoring case.
pub proof fn law_ascii_lower_is_lower_casing(c: char, s: Seq<char>)
    ensures
        'A' <= c <= 'Z' ==> ascii_lower(c) as u32 == c as u32 + 32 && 'a' <= ascii_lower(c)
            <= 'z',
        !('A' <= c <= 'Z') ==> ascii_lower(c) == c,
        !('A' <= ascii_lower(c) <= 'Z'),
        ascii_lower_seq(s).len() == s.len(),
        forall|i: int| 0 <= i < s.len() ==> !('A' <= #[trigger] ascii_lower_seq(s)[i] <= 'Z'),
        eq_ignore_ascii_case_spec(ascii_lower_seq(s), s),
{
    assert forall|i: int| 0 <= i < s.len() implies !('A' <= #[trigger] ascii_lower_seq(s)[i]
        <= 'Z') by {
        let d = s[i];
        if 'A' <= d && d <= 'Z' {
            assert((((d as u32) + 32) as char) as u32 == (d as u32) + 32);
        }
    }
    assert forall|i: int| 0 <= i < s.len() implies #[trigger] ascii_lower(ascii_lower_seq(s)[i])
        == ascii_lower(s[i]) by {
        let d = s[i];
        if 'A' <= d && d <= 'Z' {
            assert((((d as u32) + 32) as char) as u32 == (d as u32) + 32);
        }
    }
    if 'A' <= c && c <= 'Z' {
        assert((((c as u32) + 32) as char) as u32 == (c as u32) + 32);
    }
}

} // verus!
