//! White space: the words of a text, and trimming.

use vstd::prelude::*;
use vstd::string::*;
use crate::text::{chars_of, string_of};

verus! {

/// White space as Unicode defines it (the property `White_Space`).
pub open spec fn is_space(c: char) -> bool {
    let u = c as u32;
    ||| 0x09 <= u <= 0x0d
    ||| u == 0x20
    ||| u == 0x85
    ||| u == 0xa0
    ||| u == 0x1680
    ||| 0x2000 <= u <= 0x200a
    ||| u == 0x2028
    ||| u == 0x2029
    ||| u == 0x202f
    ||| u == 0x205f
    ||| u == 0x3000
}

/// Whether a character is white space.
pub fn is_space_char(c: char) -> (b: bool)
    ensures
        b == is_space(c),
{
    let u = c as u32;
    (0x09 <= u && u <= 0x0d) || u == 0x20 || u == 0x85 || u == 0xa0 || u == 0x1680 || (0x2000 <= u
        && u <= 0x200a) || u == 0x2028 || u == 0x2029 || u == 0x202f || u == 0x205f || u
        == 0x3000
}

/// The state of a scan for words: the words that are complete, and the
/// word that is being read, empty between words.
pub struct WordScan {
    pub done: Seq<Seq<char>>,
    pub current: Seq<char>,
}

/// The scan after reading all of `s`.
pub open spec fn scan_words(s: Seq<char>) -> WordScan
    decreases s.len(),
{
    if s.len() == 0 {
        WordScan { done: Seq::empty(), current: Seq::empty() }
    } else {
        let before = scan_words(s.drop_last());
        if is_space(s.last()) {
            if before.current.len() > 0 {
                WordScan { done: before.done.push(before.current), current: Seq::empty() }
            } else {
                before
            }
        } else {
            WordScan { done: before.done, current: before.current.push(s.last()) }
        }
    }
}

/// The words of a text: its longest runs of characters that are not white
/// space, in order.
pub open spec fn words_of(s: Seq<char>) -> Seq<Seq<char>> {
    let scan = scan_words(s);
    if scan.current.len() > 0 {
        scan.done.push(scan.current)
    } else {
        scan.done
    }
}

/// The views of a list of character vectors.
pub open spec fn char_rows(v: Seq<Vec<char>>) -> Seq<Seq<char>> {
    Seq::new(v.len(), |i: int| v[i]@)
}

/// Splits a text into its words.
pub fn split_words(chars: &Vec<char>) -> (words: Vec<Vec<char>>)
    ensures
        char_rows(words@) == words_of(chars@),
{
    let mut done: Vec<Vec<char>> = Vec::new();
    let mut current: Vec<char> = Vec::new();
    let mut i: usize = 0;
    assert(chars@.take(0) =~= Seq::empty());
    assert(char_rows(done@) =~= Seq::empty());
    while i < chars.len()
        invariant
            i <= chars@.len(),
            char_rows(done@) == scan_words(chars@.take(i as int)).done,
            current@ == scan_words(chars@.take(i as int)).current,
        decreases chars@.len() - i,
    {
        proof {
            assert(chars@.take(i + 1).drop_last() =~= chars@.take(i as int));
            assert(chars@.take(i + 1).last() == chars@[i as int]);
        }
        let c = chars[i];
        if is_space_char(c) {
            if current.len() > 0 {
                let ghost rows = char_rows(done@);
                let ghost word = current@;
                done.push(current);
                current = Vec::new();
                assert(char_rows(done@) =~= rows.push(word));
            }
        } else {
            current.push(c);
        }
        i += 1;
    }
    assert(chars@.take(chars@.len() as int) =~= chars@);
    if current.len() > 0 {
        let ghost rows = char_rows(done@);
        let ghost word = current@;
        done.push(current);
        assert(char_rows(done@) =~= rows.push(word));
    }
    done
}

/// The text without the white space at its start.
pub open spec fn trim_start(s: Seq<char>) -> Seq<char>
    decreases s.len(),
{
    if s.len() > 0 && is_space(s[0]) {
        trim_start(s.drop_first())
    } else {
        s
    }
}

/// The text without the white space at its end.
pub open spec fn trim_end(s: Seq<char>) -> Seq<char>
    decreases s.len(),
{
    if s.len() > 0 && is_space(s.last()) {
        trim_end(s.drop_last())
    } else {
        s
    }
}

/// The text without the white space at its start and at its end.
pub open spec fn trimmed(s: Seq<char>) -> Seq<char> {
    trim_end(trim_start(s))
}

/// The text without the white space at its start and at its end.
pub fn trim_text(s: &str) -> (t: String)
    ensures
        t@ == trimmed(s@),
{
    let chars = chars_of(s);
    let mut from: usize = 0;
    assert(chars@.subrange(0, chars@.len() as int) =~= chars@);
    while from < chars.len() && is_space_char(chars[from])
        invariant
            from <= chars@.len(),
            trim_start(chars@) == trim_start(chars@.subrange(from as int, chars@.len() as int)),
        decreases chars@.len() - from,
    {
        proof {
            let rest = chars@.subrange(from as int, chars@.len() as int);
            assert(rest[0] == chars@[from as int]);
            assert(rest.drop_first() =~= chars@.subrange(from + 1, chars@.len() as int));
        }
        from += 1;
    }
    let ghost started = chars@.subrange(from as int, chars@.len() as int);
    assert(trim_start(chars@) == started) by {
        if from < chars@.len() {
            assert(started[0] == chars@[from as int]);
        }
    }
    let mut to: usize = chars.len();
    while to > from && is_space_char(chars[to - 1])
        invariant
            from <= to <= chars@.len(),
            trim_end(started) == trim_end(chars@.subrange(from as int, to as int)),
        decreases to,
    {
        proof {
            let rest = chars@.subrange(from as int, to as int);
            assert(rest.last() == chars@[to - 1]);
            assert(rest.drop_last() =~= chars@.subrange(from as int, to - 1));
        }
        to -= 1;
    }
    assert(trim_end(started) == chars@.subrange(from as int, to as int)) by {
        let rest = chars@.subrange(from as int, to as int);
        if to > from {
            assert(rest.last() == chars@[to - 1]);
        }
    }
    string_of(&chars, from, to)
}

} // verus!
