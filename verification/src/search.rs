//! Text work for full-text search over sessions: making a query safe for
//! the search engine, and cutting a snippet around the first hit.

use vstd::prelude::*;
use vstd::string::*;
use vstd::utf8::{decode_utf8, encode_utf8};
use crate::text::{chars_of, find_bytes, first_from, lowercase, lowercase_of, string_of};
use crate::boundary::{floor_boundary, floor_index};
use crate::words::{char_rows, split_words, words_of};

verus! {

pub const SNIPPET_ELLIPSIS: &'static str = "...";

/// The number of bytes of context that a snippet shows before the hit.
pub const SNIPPET_LEAD: usize = 50;

/// The text without its double quotes.
pub open spec fn without_quotes(s: Seq<char>) -> Seq<char>
    decreases s.len(),
{
    if s.len() == 0 {
        Seq::empty()
    } else if s.last() == '"' {
        without_quotes(s.drop_last())
    } else {
        without_quotes(s.drop_last()).push(s.last())
    }
}

/// A word as the search engine takes it literally: freed of double quotes
/// and put between double quotes.
pub open spec fn quoted(word: Seq<char>) -> Seq<char> {
    seq!['"'] + without_quotes(word) + seq!['"']
}

/// The words, each quoted, with one space between them.
pub open spec fn quoted_words(words: Seq<Seq<char>>) -> Seq<char>
    decreases words.len(),
{
    if words.len() == 0 {
        Seq::empty()
    } else if words.len() == 1 {
        quoted(words[0])
    } else {
        quoted_words(words.drop_last()) + seq![' '] + quoted(words.last())
    }
}

/// Removes the double quotes from a word.
pub fn strip_quotes(word: &Vec<char>) -> (clean: Vec<char>)
    ensures
        clean@ == without_quotes(word@),
{
    let mut clean: Vec<char> = Vec::new();
    let mut i: usize = 0;
    assert(word@.take(0) =~= Seq::empty());
    while i < word.len()
        invariant
            i <= word@.len(),
            clean@ == without_quotes(word@.take(i as int)),
        decreases word@.len() - i,
    {
        proof {
            assert(word@.take(i + 1).drop_last() =~= word@.take(i as int));
            assert(word@.take(i + 1).last() == word@[i as int]);
        }
        if word[i] != '"' {
            clean.push(word[i]);
        }
        i += 1;
    }
    assert(word@.take(word@.len() as int) =~= word@);
    clean
}

/// Makes a query safe for the full-text engine: every word of the query is
/// taken literally, and all words must match. The result is empty exactly
/// for a query without words.
pub fn sanitize_fts_query(query: &str) -> (safe: String)
    ensures
        safe@ == quoted_words(words_of(query@)),
        safe@.len() == 0 <==> words_of(query@).len() == 0,
{
    let chars = chars_of(query);
    let words = split_words(&chars);
    let ghost rows = char_rows(words@);
    let mut safe = String::new();
    let mut i: usize = 0;
    assert(rows.take(0) =~= Seq::empty());
    while i < words.len()
        invariant
            i <= words@.len(),
            rows == char_rows(words@),
            safe@ == quoted_words(rows.take(i as int)),
            safe@.len() == 0 <==> i == 0,
        decreases words@.len() - i,
    {
        proof {
            assert(rows.take(i + 1).drop_last() =~= rows.take(i as int));
            assert(rows.take(i + 1).last() == words@[i as int]@);
            if i == 0 {
                assert(rows.take(1)[0] == words@[0]@);
            }
        }
        let ghost so_far = safe@;
        if i > 0 {
            safe.push(' ');
        }
        safe.push('"');
        let clean = strip_quotes(&words[i]);
        let text = string_of(&clean, 0, clean.len());
        assert(clean@.subrange(0, clean@.len() as int) =~= clean@);
        safe.append(text.as_str());
        safe.push('"');
        proof {
            if i == 0 {
                assert(safe@ =~= quoted(words@[0]@));
            } else {
                assert(safe@ =~= so_far + seq![' '] + quoted(words@[i as int]@));
            }
        }
        i += 1;
    }
    assert(rows.take(words@.len() as int) =~= rows);
    safe
}

/// The byte position in the lower-cased body of the first hit: of the
/// query's words without their quotes, the first that is not empty and
/// occurs in the body decides, by its first occurrence. Zero without a hit.
pub open spec fn hit_position(body_lower: Seq<u8>, words: Seq<Seq<char>>, from: int) -> int
    decreases words.len() - from,
{
    if from < 0 || from >= words.len() {
        0
    } else {
        let clean = without_quotes(words[from]);
        let found = first_from(body_lower, encode_utf8(clean), 0);
        if clean.len() > 0 && found is Some {
            found->0
        } else {
            hit_position(body_lower, words, from + 1)
        }
    }
}

/// The snippet of `body` around byte `position`: it starts up to
/// `SNIPPET_LEAD` bytes before the position and spans up to `max_len`
/// bytes, both ends moved outward to whole characters; it is trimmed of
/// white space and marked with an ellipsis at each end where the body goes
/// on.
pub open spec fn snippet_text(body: Seq<char>, position: int, max_len: int) -> Seq<char> {
    let bytes = encode_utf8(body);
    let lead = if position >= SNIPPET_LEAD {
        position - SNIPPET_LEAD
    } else {
        0
    };
    let reach = if lead + max_len < bytes.len() {
        lead + max_len
    } else {
        bytes.len() as int
    };
    let start = floor_boundary(bytes, lead);
    let end = crate::boundary::ceil_boundary(bytes, reach);
    let before = if start > 0 {
        SNIPPET_ELLIPSIS@
    } else {
        Seq::empty()
    };
    let after = if end < bytes.len() {
        SNIPPET_ELLIPSIS@
    } else {
        Seq::empty()
    };
    before + crate::words::trimmed(decode_utf8(bytes.subrange(start, end))) + after
}

/// The byte position of the first hit of the query's words in the
/// lower-cased body.
pub fn hit_index(body_lower: &str, words: &Vec<Vec<char>>) -> (position: usize)
    ensures
        position == hit_position(body_lower.spec_bytes(), char_rows(words@), 0),
{
    let ghost bytes = body_lower.spec_bytes();
    let ghost rows = char_rows(words@);
    let mut i: usize = 0;
    while i < words.len()
        invariant
            i <= words@.len(),
            bytes == body_lower.spec_bytes(),
            rows == char_rows(words@),
            hit_position(bytes, rows, 0) == hit_position(bytes, rows, i as int),
        decreases words@.len() - i,
    {
        let clean = strip_quotes(&words[i]);
        assert(rows[i as int] == words@[i as int]@);
        if clean.len() > 0 {
            let needle = string_of(&clean, 0, clean.len());
            assert(clean@.subrange(0, clean@.len() as int) =~= clean@);
            match find_bytes(body_lower.as_bytes(), needle.as_str().as_bytes()) {
                Some(at) => {
                    return at;
                },
                None => {},
            }
        }
        i += 1;
    }
    0
}

/// Cuts a snippet of at most about `max_len` bytes out of `body` around
/// the first place where a word of the query occurs, case aside.
pub fn extract_snippet(body: &str, query: &str, max_len: usize) -> (snippet: String)
    ensures
        snippet@ == snippet_text(
            body@,
            hit_position(encode_utf8(lowercase_of(body@)), words_of(lowercase_of(query@)), 0),
            max_len as int,
        ),
{
    broadcast use vstd::utf8::encode_utf8_valid_utf8;

    let query_lower = lowercase(query);
    let body_lower = lowercase(body);
    let words = split_words(&chars_of(query_lower.as_str()));
    let position = hit_index(body_lower.as_str(), &words);
    let ghost bytes = body.spec_bytes();
    let len = body.as_bytes().len();
    let lead = if position >= SNIPPET_LEAD {
        position - SNIPPET_LEAD
    } else {
        0
    };
    let reach = if max_len >= len || lead >= len - max_len {
        len
    } else {
        lead + max_len
    };
    proof {
        crate::boundary::lemma_floor_boundary(bytes, lead as int);
        crate::boundary::lemma_ceil_boundary(bytes, reach as int);
    }
    let start = floor_index(body, lead);
    let end = crate::boundary::ceil_index(body, reach);
    let part = crate::boundary::slice_between(body, start, end);
    let mut snippet = String::new();
    if start > 0 {
        snippet.append(SNIPPET_ELLIPSIS);
    }
    snippet.append(crate::words::trim_text(part).as_str());
    if end < len {
        snippet.append(SNIPPET_ELLIPSIS);
    }
    assert(snippet@ =~= snippet_text(body@, position as int, max_len as int));
    snippet
}

} // verus!
