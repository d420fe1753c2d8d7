//! The little of URL syntax that is decided before a reference is resolved:
//! whether a text begins with a scheme, and whether a scheme-less reference
//! carries a colon in its first path segment.

use vstd::prelude::*;
use vstd::string::StrSliceExecFns;

verus! {

/// A character that may begin a scheme: an ASCII letter.
pub open spec fn is_scheme_start(c: char) -> bool {
    ('a' <= c && c <= 'z') || ('A' <= c && c <= 'Z')
}

/// A character that may stand in a scheme: an ASCII letter or digit, `+`,
/// `-` or `.`.
pub open spec fn is_scheme_char(c: char) -> bool {
    is_scheme_start(c) || ('0' <= c && c <= '9') || c == '+' || c == '-' || c == '.'
}

/// A character that ends the first segment of a reference.
pub open spec fn is_delimiter(c: char) -> bool {
    c == ':' || c == '/' || c == '?' || c == '#'
}

/// Whether `s` is written as a scheme: a letter, then scheme characters.
pub open spec fn is_scheme(s: Seq<char>) -> bool {
    &&& s.len() > 0
    &&& is_scheme_start(s[0])
    &&& forall|j: int| 0 <= j < s.len() ==> is_scheme_char(#[trigger] s[j])
}

/// The index of the first delimiter of `s` at or after `from`, or the length
/// of `s` where there is none.
pub open spec fn segment_end(s: Seq<char>, from: int) -> int
    decreases s.len() - from,
{
    if from < 0 || from >= s.len() || is_delimiter(s[from]) {
        from
    } else {
        segment_end(s, from + 1)
    }
}

/// A character that is dropped from the front of a reference before it is
/// read: a space or a control character below it.
pub open spec fn is_blank(c: char) -> bool {
    c <= ' '
}

/// The index of the first character of `s` at or after `from` that is not
/// blank, or the length of `s` where there is none.
pub open spec fn blank_end(s: Seq<char>, from: int) -> int
    decreases s.len() - from,
{
    if from < 0 || from >= s.len() || !is_blank(s[from]) {
        from
    } else {
        blank_end(s, from + 1)
    }
}

/// Whether `s` begins with a scheme followed by `://`.
pub open spec fn has_scheme(s: Seq<char>) -> bool {
    let end = segment_end(s, 0);
    &&& end + 3 <= s.len()
    &&& s[end] == ':'
    &&& s[end + 1] == '/'
    &&& s[end + 2] == '/'
    &&& is_scheme(s.subrange(0, end))
}

/// Whether `s`, after its leading blanks, has a colon in its first path
/// segment that no scheme precedes. Such a text is neither an absolute URL
/// nor a relative reference: what stands before the colon would be taken for
/// a scheme, and is none.
pub open spec fn is_colon_led(s: Seq<char>) -> bool {
    let start = blank_end(s, 0);
    let end = segment_end(s, start);
    &&& end < s.len()
    &&& s[end] == ':'
    &&& !is_scheme(s.subrange(start, end))
}

fn scheme_start(c: char) -> (b: bool)
    ensures
        b == is_scheme_start(c),
{
    ('a' <= c && c <= 'z') || ('A' <= c && c <= 'Z')
}

fn scheme_char(c: char) -> (b: bool)
    ensures
        b == is_scheme_char(c),
{
    scheme_start(c) || ('0' <= c && c <= '9') || c == '+' || c == '-' || c == '.'
}

fn delimiter(c: char) -> (b: bool)
    ensures
        b == is_delimiter(c),
{
    c == ':' || c == '/' || c == '?' || c == '#'
}

/// Scans the segment of `s` that begins at `from`: where it ends, and
/// whether it is written as a scheme.
pub fn scan_segment(s: &str, from: usize) -> (found: (usize, bool))
    requires
        from <= s@.len(),
    ensures
        found.0 == segment_end(s@, from as int),
        from <= found.0 <= s@.len(),
        found.1 == is_scheme(s@.subrange(from as int, found.0 as int)),
{
    let len = s.unicode_len();
    let mut i: usize = from;
    let mut scheme = true;
    while i < len && !delimiter(s.get_char(i))
        invariant
            len == s@.len(),
            from <= i <= len,
            segment_end(s@, from as int) == segment_end(s@, i as int),
            scheme == (forall|j: int|
                from <= j < i ==> (is_scheme_char(#[trigger] s@[j]) && (j == from
                    ==> is_scheme_start(s@[j])))),
        decreases len - i,
    {
        let c = s.get_char(i);
        let fits = if i == from {
            scheme_start(c)
        } else {
            scheme_char(c)
        };
        scheme = scheme && fits;
        i += 1;
    }
    let ghost segment = s@.subrange(from as int, i as int);
    proof {
        if scheme && i > from {
            assert(is_scheme_char(s@[from as int]) && is_scheme_start(s@[from as int]));
            assert forall|j: int| 0 <= j < segment.len() implies is_scheme_char(
                #[trigger] segment[j],
            ) by {
                assert(is_scheme_char(s@[from + j]));
            }
        }
        if is_scheme(segment) {
            assert forall|j: int| from <= j < i implies (is_scheme_char(#[trigger] s@[j]) && (j
                == from ==> is_scheme_start(s@[j]))) by {
                assert(is_scheme_char(segment[j - from]));
            }
        }
    }
    (i, scheme && i > from)
}

/// Skips the blanks of `s` from `from` on.
pub fn skip_blanks(s: &str, from: usize) -> (end: usize)
    requires
        from <= s@.len(),
    ensures
        end == blank_end(s@, from as int),
        from <= end <= s@.len(),
{
    let len = s.unicode_len();
    let mut i: usize = from;
    while i < len && s.get_char(i) <= ' '
        invariant
            len == s@.len(),
            from <= i <= len,
            blank_end(s@, from as int) == blank_end(s@, i as int),
        decreases len - i,
    {
        i += 1;
    }
    i
}

/// Whether `domain` names its own scheme, as in `https://example.com`.
pub fn names_scheme(domain: &str) -> (b: bool)
    ensures
        b == has_scheme(domain@),
{
    let (end, scheme) = scan_segment(domain, 0);
    let len = domain.unicode_len();
    scheme && len - end >= 3 && domain.get_char(end) == ':' && domain.get_char(end + 1) == '/'
        && domain.get_char(end + 2) == '/'
}

/// Whether `reference`, after its leading blanks, has a colon in its first
/// segment without a scheme before it.
pub fn colon_led(reference: &str) -> (b: bool)
    ensures
        b == is_colon_led(reference@),
{
    let start = skip_blanks(reference, 0);
    let (end, scheme) = scan_segment(reference, start);
    let len = reference.unicode_len();
    end < len && reference.get_char(end) == ':' && !scheme
}

} // verus!
