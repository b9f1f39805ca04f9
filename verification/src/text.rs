//! Text building blocks: numerals, lists of strings, concatenation, and
//! where one text occurs in another.
//!
//! All text is modelled as `Seq<char>`, the view of `String` and `str`.

use vstd::prelude::*;
use vstd::string::*;

verus! {

/// The character that stands for the decimal digit `d`.
pub open spec fn digit_char(d: nat) -> char {
    if d == 0 {
        '0'
    } else if d == 1 {
        '1'
    } else if d == 2 {
        '2'
    } else if d == 3 {
        '3'
    } else if d == 4 {
        '4'
    } else if d == 5 {
        '5'
    } else if d == 6 {
        '6'
    } else if d == 7 {
        '7'
    } else if d == 8 {
        '8'
    } else {
        '9'
    }
}

/// The decimal numeral of `n`, without sign or leading zeros.
pub open spec fn decimal_text(n: nat) -> Seq<char>
    decreases n,
{
    if n < 10 {
        seq![digit_char(n)]
    } else {
        decimal_text(n / 10).push(digit_char(n % 10))
    }
}

/// The one-character string of a decimal digit.
pub fn digit_str(d: u64) -> (s: &'static str)
    requires
        d < 10,
    ensures
        s@ == seq![digit_char(d as nat)],
{
    proof {
        reveal_strlit("0");
        reveal_strlit("1");
        reveal_strlit("2");
        reveal_strlit("3");
        reveal_strlit("4");
        reveal_strlit("5");
        reveal_strlit("6");
        reveal_strlit("7");
        reveal_strlit("8");
        reveal_strlit("9");
    }
    let s = if d == 0 {
        "0"
    } else if d == 1 {
        "1"
    } else if d == 2 {
        "2"
    } else if d == 3 {
        "3"
    } else if d == 4 {
        "4"
    } else if d == 5 {
        "5"
    } else if d == 6 {
        "6"
    } else if d == 7 {
        "7"
    } else if d == 8 {
        "8"
    } else {
        "9"
    };
    assert(s@ =~= seq![digit_char(d as nat)]);
    s
}

/// Writes `n` in decimal.
pub fn decimal_string(n: u64) -> (s: String)
    ensures
        s@ == decimal_text(n as nat),
    decreases n,
{
    if n < 10 {
        String::from_str(digit_str(n))
    } else {
        let mut s = decimal_string(n / 10);
        s.append(digit_str(n % 10));
        assert(s@ =~= decimal_text(n as nat));
        s
    }
}

/// The character that stands for the hexadecimal digit `d`, in lower case.
pub open spec fn hex_char(d: nat) -> char {
    if d < 10 {
        digit_char(d)
    } else if d == 10 {
        'a'
    } else if d == 11 {
        'b'
    } else if d == 12 {
        'c'
    } else if d == 13 {
        'd'
    } else if d == 14 {
        'e'
    } else {
        'f'
    }
}

/// The last `width` hexadecimal digits of `n`, zeros included.
pub open spec fn hex_text(n: nat, width: nat) -> Seq<char>
    decreases width,
{
    if width == 0 {
        Seq::empty()
    } else {
        hex_text(n / 16, (width - 1) as nat).push(hex_char(n % 16))
    }
}

/// The character of a hexadecimal digit.
fn hex_digit(d: u64) -> (c: char)
    requires
        d < 16,
    ensures
        c == hex_char(d as nat),
{
    if d == 0 {
        '0'
    } else if d == 1 {
        '1'
    } else if d == 2 {
        '2'
    } else if d == 3 {
        '3'
    } else if d == 4 {
        '4'
    } else if d == 5 {
        '5'
    } else if d == 6 {
        '6'
    } else if d == 7 {
        '7'
    } else if d == 8 {
        '8'
    } else if d == 9 {
        '9'
    } else if d == 10 {
        'a'
    } else if d == 11 {
        'b'
    } else if d == 12 {
        'c'
    } else if d == 13 {
        'd'
    } else if d == 14 {
        'e'
    } else {
        'f'
    }
}

/// Writes the last `width` hexadecimal digits of `n`, zeros included.
pub fn hex_string(n: u64, width: usize) -> (s: String)
    ensures
        s@ == hex_text(n as nat, width as nat),
    decreases width,
{
    if width == 0 {
        String::new()
    } else {
        let mut s = hex_string(n / 16, width - 1);
        s.push(hex_digit(n % 16));
        s
    }
}

/// The views of a list of strings, in order.
pub open spec fn texts(v: Seq<String>) -> Seq<Seq<char>> {
    Seq::new(v.len(), |i: int| v[i]@)
}

/// Copies a list of strings.
pub fn clone_strings(v: &Vec<String>) -> (r: Vec<String>)
    ensures
        texts(r@) == texts(v@),
{
    let mut r: Vec<String> = Vec::new();
    let mut i: usize = 0;
    while i < v.len()
        invariant
            i <= v.len(),
            r@.len() == i,
            forall|j: int| 0 <= j < i ==> r@[j]@ == v@[j]@,
        decreases v.len() - i,
    {
        r.push(v[i].clone());
        i += 1;
    }
    assert(texts(r@) =~= texts(v@));
    r
}

/// Whether two strings hold the same text.
pub fn text_is(s: &str, text: &str) -> (b: bool)
    ensures
        b == (s@ == text@),
{
    let left = String::from_str(s);
    let right = String::from_str(text);
    left == right
}

/// Whether a list of strings holds the given text.
pub fn has_text(list: &Vec<String>, s: &str) -> (b: bool)
    ensures
        b == texts(list@).contains(s@),
{
    let mut i: usize = 0;
    while i < list.len()
        invariant
            i <= list@.len(),
            forall|j: int| 0 <= j < i ==> texts(list@)[j] != s@,
        decreases list@.len() - i,
    {
        if text_is(list[i].as_str(), s) {
            assert(texts(list@)[i as int] == s@);
            return true;
        }
        i += 1;
    }
    false
}

/// The texts of `list` that `others` does not hold, in order.
pub open spec fn texts_missing_from(list: Seq<Seq<char>>, others: Seq<Seq<char>>) -> Seq<Seq<char>>
    decreases list.len(),
{
    if list.len() == 0 {
        Seq::empty()
    } else if others.contains(list.last()) {
        texts_missing_from(list.drop_last(), others)
    } else {
        texts_missing_from(list.drop_last(), others).push(list.last())
    }
}

/// `String::push` of std appends one character.
pub assume_specification[ String::push ](s: &mut String, c: char)
    ensures
        final(s)@ == old(s)@.push(c),
;

/// The characters of a string.
pub fn chars_of(s: &str) -> (v: Vec<char>)
    ensures
        v@ == s@,
{
    broadcast use vstd::string::axiom_spec_iter;

    let mut v: Vec<char> = Vec::new();
    for c in it: s.chars()
        invariant
            it.seq() == s@,
            v@ == s@.take(it.index() as int),
    {
        v.push(c);
        assert(v@ =~= s@.take(it.index() + 1));
    }
    assert(v@ =~= s@);
    v
}

/// The string of the characters `v[from..to]`.
pub fn string_of(v: &Vec<char>, from: usize, to: usize) -> (s: String)
    requires
        from <= to <= v@.len(),
    ensures
        s@ == v@.subrange(from as int, to as int),
{
    let mut s = String::new();
    let mut i = from;
    while i < to
        invariant
            from <= i <= to <= v@.len(),
            s@ == v@.subrange(from as int, i as int),
        decreases to - i,
    {
        s.push(v[i]);
        assert(s@ =~= v@.subrange(from as int, i + 1));
        i += 1;
    }
    s
}

/// What `str::to_lowercase` makes of a text.
pub uninterp spec fn lowercase_of(s: Seq<char>) -> Seq<char>;

/// `str::to_lowercase` of std: the lower-case form of `s` by the Unicode
/// rules, a function of the text alone.
#[verifier::external_body]
pub(crate) fn lowercase(s: &str) -> (r: String)
    ensures
        r@ == lowercase_of(s@),
{
    s.to_lowercase()
}

/// All blocks written one after the other.
pub open spec fn concat_all(blocks: Seq<Seq<char>>) -> Seq<char>
    decreases blocks.len(),
{
    if blocks.len() == 0 {
        Seq::empty()
    } else {
        concat_all(blocks.drop_last()) + blocks.last()
    }
}

/// Writing one more block appends it.
pub proof fn lemma_concat_all_step(blocks: Seq<Seq<char>>, n: int)
    requires
        0 <= n < blocks.len(),
    ensures
        concat_all(blocks.take(n + 1)) == concat_all(blocks.take(n)) + blocks[n],
{
    assert(blocks.take(n + 1).drop_last() =~= blocks.take(n));
    assert(blocks.take(n + 1).last() == blocks[n]);
}

/// `needle` occupies the positions `at .. at + needle.len()` of `hay`.
pub open spec fn occurs_at<T>(hay: Seq<T>, needle: Seq<T>, at: int) -> bool {
    &&& 0 <= at
    &&& at + needle.len() <= hay.len()
    &&& hay.subrange(at, at + needle.len()) == needle
}

/// `needle` is a contiguous part of `hay`.
pub open spec fn occurs_in<T>(hay: Seq<T>, needle: Seq<T>) -> bool {
    exists|at: int| occurs_at(hay, needle, at)
}

/// A text occurs in whatever is built around it.
pub proof fn lemma_occurs_in_middle(before: Seq<char>, needle: Seq<char>, after: Seq<char>)
    ensures
        occurs_in(before + needle + after, needle),
{
    let hay = before + needle + after;
    let at = before.len() as int;
    assert(hay.subrange(at, at + needle.len()) =~= needle);
    assert(occurs_at(hay, needle, at));
}

/// Occurrence survives embedding the surrounding text into a larger one.
pub proof fn lemma_occurs_in_wider(
    before: Seq<char>,
    hay: Seq<char>,
    after: Seq<char>,
    needle: Seq<char>,
)
    requires
        occurs_in(hay, needle),
    ensures
        occurs_in(before + hay + after, needle),
{
    let at = choose|at: int| occurs_at(hay, needle, at);
    let wide = before + hay + after;
    let shifted = before.len() + at;
    assert(wide.subrange(shifted, shifted + needle.len()) =~= hay.subrange(
        at,
        at + needle.len(),
    ));
    assert(occurs_at(wide, needle, shifted));
}

/// A part of a part is a part of the whole.
pub proof fn lemma_occurs_in_trans(hay: Seq<char>, mid: Seq<char>, needle: Seq<char>)
    requires
        occurs_in(hay, mid),
        occurs_in(mid, needle),
    ensures
        occurs_in(hay, needle),
{
    let a = choose|a: int| occurs_at(hay, mid, a);
    let b = choose|b: int| occurs_at(mid, needle, b);
    assert(hay.subrange(a + b, a + b + needle.len()) =~= hay.subrange(
        a,
        a + mid.len(),
    ).subrange(b, b + needle.len()));
    assert(occurs_at(hay, needle, a + b));
}

/// Every block occurs in the text that `concat_all` writes.
pub proof fn lemma_block_occurs(blocks: Seq<Seq<char>>, i: int)
    requires
        0 <= i < blocks.len(),
    ensures
        occurs_in(concat_all(blocks), blocks[i]),
    decreases blocks.len(),
{
    let front = blocks.drop_last();
    if i == blocks.len() - 1 {
        lemma_occurs_in_middle(concat_all(front), blocks[i], Seq::empty());
        assert(concat_all(front) + blocks[i] + Seq::<char>::empty() =~= concat_all(blocks));
    } else {
        lemma_block_occurs(front, i);
        assert(front[i] == blocks[i]);
        lemma_occurs_in_wider(Seq::empty(), concat_all(front), blocks.last(), blocks[i]);
        assert(Seq::<char>::empty() + concat_all(front) + blocks.last() =~= concat_all(blocks));
    }
}

/// Where `needle` occurs first in `hay` at or after `from`, if it does.
pub open spec fn first_from<T>(hay: Seq<T>, needle: Seq<T>, from: int) -> Option<int>
    decreases hay.len() - from,
{
    if from < 0 || from + needle.len() > hay.len() {
        None
    } else if occurs_at(hay, needle, from) {
        Some(from)
    } else if from >= hay.len() {
        None
    } else {
        first_from(hay, needle, from + 1)
    }
}

/// `first_from` finds nothing exactly when nothing occurs from `from` on,
/// and else the first occurrence.
pub proof fn lemma_first_from<T>(hay: Seq<T>, needle: Seq<T>, from: int)
    requires
        0 <= from,
    ensures
        match first_from(hay, needle, from) {
            Some(at) => from <= at && occurs_at(hay, needle, at) && forall|j: int|
                from <= j < at ==> !occurs_at(hay, needle, j),
            None => forall|j: int| from <= j ==> !occurs_at(hay, needle, j),
        },
    decreases hay.len() - from,
{
    if from + needle.len() <= hay.len() && !occurs_at(hay, needle, from) && from < hay.len() {
        lemma_first_from(hay, needle, from + 1);
    }
}

/// Where `needle` occurs first in `hay`, if it occurs at all.
pub fn find_chars(hay: &Vec<char>, needle: &Vec<char>) -> (r: Option<usize>)
    ensures
        match r {
            Some(at) => occurs_at(hay@, needle@, at as int) && forall|j: int|
                0 <= j < at ==> !occurs_at(hay@, needle@, j),
            None => !occurs_in(hay@, needle@),
        },
{
    if needle.len() > hay.len() {
        return None;
    }
    if needle.len() == 0 {
        assert(hay@.subrange(0, 0) =~= needle@);
        return Some(0);
    }
    let last = hay.len() - needle.len();
    let mut at: usize = 0;
    while at <= last
        invariant
            last == hay@.len() - needle@.len(),
            last < usize::MAX,
            hay@.len() <= usize::MAX,
            at <= last + 1,
            forall|j: int| 0 <= j < at ==> !occurs_at(hay@, needle@, j),
        decreases last + 1 - at,
    {
        let mut k: usize = 0;
        while k < needle.len() && hay[at + k] == needle[k]
            invariant
                last == hay@.len() - needle@.len(),
                hay@.len() <= usize::MAX,
                at <= last,
                k <= needle@.len(),
                forall|j: int| 0 <= j < k ==> hay@[at + j] == needle@[j],
            decreases needle@.len() - k,
        {
            k += 1;
        }
        if k == needle.len() {
            assert(hay@.subrange(at as int, at + needle@.len()) =~= needle@);
            return Some(at);
        }
        assert(!occurs_at(hay@, needle@, at as int)) by {
            if occurs_at(hay@, needle@, at as int) {
                assert(hay@.subrange(at as int, at + needle@.len())[k as int] == needle@[k as int]);
            }
        }
        at += 1;
    }
    None
}

/// Where `needle` occurs first in `hay`, if it occurs at all.
pub fn find_bytes(hay: &[u8], needle: &[u8]) -> (r: Option<usize>)
    ensures
        match r {
            Some(at) => first_from(hay@, needle@, 0) == Some(at as int),
            None => first_from(hay@, needle@, 0) is None,
        },
{
    proof {
        lemma_first_from(hay@, needle@, 0);
    }
    if needle.len() > hay.len() {
        return None;
    }
    if needle.len() == 0 {
        assert(hay@.subrange(0, 0) =~= needle@);
        return Some(0);
    }
    let last = hay.len() - needle.len();
    let mut at: usize = 0;
    while at <= last
        invariant
            last == hay@.len() - needle@.len(),
            last < usize::MAX,
            hay@.len() <= usize::MAX,
            at <= last + 1,
            forall|j: int| 0 <= j < at ==> !occurs_at(hay@, needle@, j),
            match first_from(hay@, needle@, 0) {
                Some(first) => occurs_at(hay@, needle@, first) && forall|j: int|
                    0 <= j < first ==> !occurs_at(hay@, needle@, j),
                None => forall|j: int| 0 <= j ==> !occurs_at(hay@, needle@, j),
            },
        decreases last + 1 - at,
    {
        let mut k: usize = 0;
        while k < needle.len() && hay[at + k] == needle[k]
            invariant
                last == hay@.len() - needle@.len(),
                hay@.len() <= usize::MAX,
                at <= last,
                k <= needle@.len(),
                forall|j: int| 0 <= j < k ==> hay@[at + j] == needle@[j],
            decreases needle@.len() - k,
        {
            k += 1;
        }
        if k == needle.len() {
            assert(hay@.subrange(at as int, at + needle@.len()) =~= needle@);
            assert(occurs_at(hay@, needle@, at as int));
            return Some(at);
        }
        assert(!occurs_at(hay@, needle@, at as int)) by {
            if occurs_at(hay@, needle@, at as int) {
                assert(hay@.subrange(at as int, at + needle@.len())[k as int] == needle@[k as int]);
            }
        }
        at += 1;
    }
    None
}

/// Whether `needle` is a contiguous part of `hay`.
pub fn contains_text(hay: &str, needle: &str) -> (b: bool)
    ensures
        b == occurs_in(hay@, needle@),
{
    let h = chars_of(hay);
    let n = chars_of(needle);
    find_chars(&h, &n).is_some()
}

} // verus!
