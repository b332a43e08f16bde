//! Character-level helpers for the header grammar: whitespace, trimming, lower-casing and the
//! conversions between strings and character vectors.

use vstd::prelude::*;
use vstd::utf8::{decode_utf8, is_ascii_chars, valid_utf8};

verus! {

/// `std::str::Utf8Error`, carried as it comes.
#[verifier::external_type_specification]
#[verifier::external_body]
pub struct ExUtf8Error(std::str::Utf8Error);

/// Whether a character outside ASCII has the Unicode property `White_Space`.
pub uninterp spec fn unicode_white_space(c: char) -> bool;

/// The Unicode lower-casing of a string that holds a character outside ASCII.
pub uninterp spec fn unicode_lowercase(s: Seq<char>) -> Seq<char>;

/// Whitespace: within ASCII the space and the controls from tab to carriage return.
pub open spec fn spec_is_whitespace(c: char) -> bool {
    if c <= '\u{7f}' {
        c == ' ' || ('\u{9}' <= c && c <= '\u{d}')
    } else {
        unicode_white_space(c)
    }
}

/// The lower-case form of an ASCII character; other characters stay.
pub open spec fn spec_ascii_lower(c: char) -> char {
    if 'A' <= c && c <= 'Z' {
        ((c as u8) + 32) as char
    } else {
        c
    }
}

/// An ASCII string with each letter in lower case.
pub open spec fn spec_ascii_lowercase(s: Seq<char>) -> Seq<char> {
    Seq::new(s.len(), |i: int| spec_ascii_lower(s[i]))
}

/// The lower-case form of a string.
pub open spec fn spec_lowercase(s: Seq<char>) -> Seq<char> {
    if is_ascii_chars(s) {
        spec_ascii_lowercase(s)
    } else {
        unicode_lowercase(s)
    }
}

/// Calls `char::is_whitespace`. Claims that within ASCII it holds of the space and of the
/// controls U+0009 to U+000D only; of other characters nothing but that the answer depends on
/// the character alone.
#[verifier::external_body]
pub(crate) fn is_whitespace(c: char) -> (white: bool)
    ensures
        white == (if c <= '\u{7f}' {
            c == ' ' || ('\u{9}' <= c && c <= '\u{d}')
        } else {
            unicode_white_space(c)
        }),
{
    c.is_whitespace()
}

/// Calls `str::to_lowercase`. Claims that a string of ASCII characters comes back with its
/// letters `A` to `Z` replaced by `a` to `z`, one for one; of other strings nothing but that the
/// result depends on the string alone.
#[verifier::external_body]
pub(crate) fn to_lowercase(s: &str) -> (lower: String)
    ensures
        lower@ == (if is_ascii_chars(s@) {
            spec_ascii_lowercase(s@)
        } else {
            unicode_lowercase(s@)
        }),
{
    s.to_lowercase()
}

/// What `std::str::from_utf8` tells about bytes that are not UTF-8.
pub uninterp spec fn utf8_error(bytes: Seq<u8>) -> std::str::Utf8Error;

/// Calls `std::str::from_utf8`. Claims that it succeeds exactly on valid UTF-8 and then returns
/// the characters that the bytes encode; of the error nothing but that it depends on the bytes
/// alone.
#[verifier::external_body]
pub(crate) fn str_from_utf8(bytes: &[u8]) -> (decoded: Result<&str, std::str::Utf8Error>)
    ensures
        decoded is Ok <==> valid_utf8(bytes@),
        decoded matches Ok(text) ==> text@ == decode_utf8(bytes@),
        decoded matches Err(error) ==> error == utf8_error(bytes@),
{
    std::str::from_utf8(bytes)
}

/// `String::push` appends one character.
pub assume_specification[ String::push ](s: &mut String, c: char)
    ensures
        final(s)@ == old(s)@.push(c),
;

/// The characters of a string.
pub fn chars_of(s: &str) -> (chars: Vec<char>)
    ensures
        chars@ == s@,
{
    let mut chars: Vec<char> = Vec::new();
    for c in it: s.chars()
        invariant
            chars@ == it.seq().take(it.index()),
            it.seq() == s@,
    {
        chars.push(c);
    }
    chars
}

/// The string made of the characters `chars[from..to]`.
pub fn string_of(chars: &Vec<char>, from: usize, to: usize) -> (s: String)
    requires
        from <= to <= chars.len(),
    ensures
        s@ == chars@.subrange(from as int, to as int),
{
    let mut s = String::new();
    let mut i: usize = from;
    while i < to
        invariant
            from <= i <= to <= chars.len(),
            s@ == chars@.subrange(from as int, i as int),
        decreases to - i,
    {
        s.push(chars[i]);
        proof {
            assert(chars@.subrange(from as int, i as int).push(chars@[i as int])
                =~= chars@.subrange(from as int, i + 1));
        }
        i += 1;
    }
    s
}

/// A string without its leading whitespace.
pub open spec fn spec_trim_start(s: Seq<char>) -> Seq<char>
    decreases s.len(),
{
    if s.len() > 0 && spec_is_whitespace(s[0]) {
        spec_trim_start(s.drop_first())
    } else {
        s
    }
}

/// A string without its trailing whitespace.
pub open spec fn spec_trim_end(s: Seq<char>) -> Seq<char>
    decreases s.len(),
{
    if s.len() > 0 && spec_is_whitespace(s.last()) {
        spec_trim_end(s.drop_last())
    } else {
        s
    }
}

/// A string without its leading and trailing whitespace.
pub open spec fn spec_trim(s: Seq<char>) -> Seq<char> {
    spec_trim_end(spec_trim_start(s))
}

/// Whether a string holds nothing but whitespace.
pub open spec fn spec_is_blank(s: Seq<char>) -> bool {
    forall|i: int| 0 <= i < s.len() ==> spec_is_whitespace(#[trigger] s[i])
}

/// The bounds of `chars[from..to]` without its leading and trailing whitespace.
pub fn trim_bounds(chars: &Vec<char>, from: usize, to: usize) -> (bounds: (usize, usize))
    requires
        from <= to <= chars.len(),
    ensures
        from <= bounds.0 <= bounds.1 <= to,
        chars@.subrange(bounds.0 as int, bounds.1 as int) == spec_trim(
            chars@.subrange(from as int, to as int),
        ),
{
    let mut start: usize = from;
    while start < to && is_whitespace(chars[start])
        invariant
            from <= start <= to <= chars.len(),
            spec_trim_start(chars@.subrange(from as int, to as int)) == spec_trim_start(
                chars@.subrange(start as int, to as int),
            ),
        decreases to - start,
    {
        proof {
            assert(chars@.subrange(start as int, to as int).drop_first() =~= chars@.subrange(
                start + 1,
                to as int,
            ));
        }
        start += 1;
    }
    let mut end: usize = to;
    while start < end && is_whitespace(chars[end - 1])
        invariant
            start <= end <= to <= chars.len(),
            spec_trim_end(chars@.subrange(start as int, to as int)) == spec_trim_end(
                chars@.subrange(start as int, end as int),
            ),
        decreases end - start,
    {
        proof {
            assert(chars@.subrange(start as int, end as int).drop_last() =~= chars@.subrange(
                start as int,
                end - 1,
            ));
        }
        end -= 1;
    }
    (start, end)
}

/// Whether `chars[from..to]` holds nothing but whitespace.
pub fn is_blank(chars: &Vec<char>, from: usize, to: usize) -> (blank: bool)
    requires
        from <= to <= chars.len(),
    ensures
        blank == spec_is_blank(chars@.subrange(from as int, to as int)),
{
    let mut i: usize = from;
    while i < to
        invariant
            from <= i <= to <= chars.len(),
            forall|k: int| from <= k < i ==> spec_is_whitespace(#[trigger] chars@[k]),
        decreases to - i,
    {
        if !is_whitespace(chars[i]) {
            proof {
                let line = chars@.subrange(from as int, to as int);
                assert(line[i - from] == chars@[i as int]);
            }
            return false;
        }
        i += 1;
    }
    proof {
        let line = chars@.subrange(from as int, to as int);
        assert forall|k: int| 0 <= k < line.len() implies spec_is_whitespace(#[trigger] line[k]) by {
        }
    }
    true
}

} // verus!
