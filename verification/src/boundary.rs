//! Cutting strings at byte positions: the positions are moved to
//! character boundaries of the UTF-8 encoding, so that every cut gives
//! text.

use vstd::prelude::*;
use vstd::string::*;

verus! {

/// The last character boundary of UTF-8 `bytes` at or before `at`.
pub open spec fn floor_boundary(bytes: Seq<u8>, at: int) -> int
    decreases at,
{
    if at <= 0 {
        0
    } else if vstd::utf8::is_char_boundary(bytes, at) {
        at
    } else {
        floor_boundary(bytes, at - 1)
    }
}

/// The first character boundary of UTF-8 `bytes` at or after `at`.
pub open spec fn ceil_boundary(bytes: Seq<u8>, at: int) -> int
    decreases bytes.len() - at,
{
    if at >= bytes.len() {
        bytes.len() as int
    } else if at < 0 || vstd::utf8::is_char_boundary(bytes, at) {
        at
    } else {
        ceil_boundary(bytes, at + 1)
    }
}

/// The longest prefix of `text` that ends on a character and takes at most
/// `limit` bytes in UTF-8.
pub open spec fn prefix_text(text: Seq<char>, limit: int) -> Seq<char> {
    let bytes = vstd::utf8::encode_utf8(text);
    vstd::utf8::decode_utf8(bytes.subrange(0, floor_boundary(bytes, limit)))
}

/// `floor_boundary` gives a character boundary at or before `at`, and the
/// end of the text for an `at` beyond it.
pub proof fn lemma_floor_boundary(bytes: Seq<u8>, at: int)
    requires
        vstd::utf8::valid_utf8(bytes),
        0 <= at,
    ensures
        0 <= floor_boundary(bytes, at) <= at,
        floor_boundary(bytes, at) <= bytes.len(),
        vstd::utf8::is_char_boundary(bytes, floor_boundary(bytes, at)),
        at >= bytes.len() ==> floor_boundary(bytes, at) == bytes.len(),
    decreases at,
{
    vstd::utf8::is_char_boundary_start_end_of_seq(bytes);
    if at > 0 && !vstd::utf8::is_char_boundary(bytes, at) {
        lemma_floor_boundary(bytes, at - 1);
    }
}

/// `ceil_boundary` gives a character boundary at or after `at`, within
/// the text.
pub proof fn lemma_ceil_boundary(bytes: Seq<u8>, at: int)
    requires
        vstd::utf8::valid_utf8(bytes),
        0 <= at,
    ensures
        at <= bytes.len() ==> at <= ceil_boundary(bytes, at),
        ceil_boundary(bytes, at) <= bytes.len(),
        vstd::utf8::is_char_boundary(bytes, ceil_boundary(bytes, at)),
    decreases bytes.len() - at,
{
    vstd::utf8::is_char_boundary_start_end_of_seq(bytes);
    if at < bytes.len() && !vstd::utf8::is_char_boundary(bytes, at) {
        lemma_ceil_boundary(bytes, at + 1);
    }
}

/// The last character boundary of `s` at or before byte `at`.
pub fn floor_index(s: &str, at: usize) -> (r: usize)
    ensures
        r == floor_boundary(s.spec_bytes(), at as int),
        r <= s.spec_bytes().len(),
        r <= at,
        vstd::utf8::is_char_boundary(s.spec_bytes(), r as int),
{
    broadcast use vstd::utf8::encode_utf8_valid_utf8;

    let ghost bytes = s.spec_bytes();
    proof {
        lemma_floor_boundary(bytes, at as int);
    }
    let len = s.as_bytes().len();
    if at >= len {
        return len;
    }
    let mut r = at;
    while r > 0 && !s.is_char_boundary(r)
        invariant
            r <= at,
            bytes == s.spec_bytes(),
            floor_boundary(bytes, r as int) == floor_boundary(bytes, at as int),
        decreases r,
    {
        r -= 1;
    }
    r
}

/// The first character boundary of `s` at or after byte `at`.
pub fn ceil_index(s: &str, at: usize) -> (r: usize)
    ensures
        r == ceil_boundary(s.spec_bytes(), at as int),
        r <= s.spec_bytes().len(),
        at <= s.spec_bytes().len() ==> at <= r,
        vstd::utf8::is_char_boundary(s.spec_bytes(), r as int),
{
    broadcast use vstd::utf8::encode_utf8_valid_utf8;

    let ghost bytes = s.spec_bytes();
    proof {
        lemma_ceil_boundary(bytes, at as int);
    }
    let len = s.as_bytes().len();
    if at >= len {
        return len;
    }
    let mut r = at;
    while r < len && !s.is_char_boundary(r)
        invariant
            at <= r <= len,
            len == bytes.len(),
            bytes == s.spec_bytes(),
            ceil_boundary(bytes, r as int) == ceil_boundary(bytes, at as int),
        decreases len - r,
    {
        r += 1;
    }
    r
}

/// The part of `s` between two character boundaries, given in bytes.
pub fn slice_between(s: &str, start: usize, end: usize) -> (part: &str)
    requires
        start <= end <= s.spec_bytes().len(),
        vstd::utf8::is_char_boundary(s.spec_bytes(), start as int),
        vstd::utf8::is_char_boundary(s.spec_bytes(), end as int),
    ensures
        part@ == vstd::utf8::decode_utf8(s.spec_bytes().subrange(start as int, end as int)),
{
    broadcast use
        vstd::utf8::encode_utf8_valid_utf8,
        vstd::utf8::encode_utf8_decode_utf8,
        vstd::utf8::is_char_boundary_start_end_of_seq,
    ;

    let ghost bytes = s.spec_bytes();
    let (_, rest) = s.split_at(start);
    let ghost tail = rest.spec_bytes();
    proof {
        assert(tail =~= bytes.subrange(start as int, bytes.len() as int));
        assert(vstd::utf8::valid_utf8(tail));
        if end < bytes.len() {
            vstd::utf8::is_char_boundary_iff_not_is_continuation_byte(bytes, end as int);
            vstd::utf8::is_char_boundary_iff_not_is_continuation_byte(tail, end - start);
            assert(tail[end - start] == bytes[end as int]);
        }
    }
    let (part, _) = rest.split_at(end - start);
    proof {
        assert(part.spec_bytes() =~= bytes.subrange(start as int, end as int));
        assert(vstd::utf8::decode_utf8(vstd::utf8::encode_utf8(part@)) == part@);
    }
    part
}

/// The longest prefix of `s` of whole characters within `limit` bytes.
pub fn prefix_within(s: &str, limit: usize) -> (head: &str)
    ensures
        head@ == prefix_text(s@, limit as int),
{
    broadcast use
        vstd::utf8::encode_utf8_valid_utf8,
        vstd::utf8::is_char_boundary_start_end_of_seq,
    ;

    let at = floor_index(s, limit);
    slice_between(s, 0, at)
}

} // verus!
