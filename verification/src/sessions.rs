//! Session search without the database: which sessions a filter selects,
//! what is indexed for a session, and how sessions and hits are listed.

use vstd::prelude::*;
use vstd::string::*;
use crate::search::{extract_snippet, hit_position, snippet_text};
use crate::text::{
    chars_of, concat_all, decimal_string, decimal_text, find_chars, lemma_concat_all_step,
    lowercase, lowercase_of, occurs_in, text_is, texts,
};
use crate::boundary::{prefix_text, prefix_within};
use crate::words::words_of;
use crate::types::opt_text;

verus! {

pub const FILTER_ALL: &'static str = "all";

pub const UNTITLED: &'static str = "Untitled";

pub const OPERATION_LIST: &'static str = "list";

pub const OPERATION_SEARCH: &'static str = "search";

pub const QUERY_REQUIRED: &'static str = "'query' is required for search";

pub const UNKNOWN_OPERATION_PREFIX: &'static str = "Unknown operation '";

pub const UNKNOWN_OPERATION_SUFFIX: &'static str = "'. Use 'list' or 'search'.";

pub const NO_SESSIONS: &'static str = "No sessions found.";

pub const NO_MATCHING_SESSIONS: &'static str = "No matching sessions found.";

pub const EMPTY_QUERY: &'static str = "Query cannot be empty.";

pub const NO_HITS_PREFIX: &'static str = "No messages found matching '";

pub const NO_HITS_SUFFIX: &'static str = "' in the selected session(s).";

pub const ROLE_USER: &'static str = "user";

pub const TAG_USER: &'static str = "[user]";

pub const TAG_ASSISTANT: &'static str = "[assistant]";

pub const DOC_TITLE: &'static str = "# ";

pub const DOC_DATE: &'static str = "\nDate: ";

pub const DOC_SESSION: &'static str = "\nSession: ";

pub const DOC_HEAD_END: &'static str = "\n\n";

pub const DOC_SPACE: &'static str = " ";

pub const DOC_ELLIPSIS: &'static str = "...";

pub const LIST_NUMBER_END: &'static str = ". \"";

pub const LIST_TITLE_END: &'static str = "\" \u{2014} ";

pub const LIST_DATE_END: &'static str = ", ";

pub const LIST_LINE_END: &'static str = " messages\n";

pub const HIT_OPEN: &'static str = "**";

pub const HIT_CLOSE: &'static str = "**\n   ";

pub const HIT_END: &'static str = "\n\n";

/// The number of results that a search returns unless told otherwise.
pub const DEFAULT_RESULTS: usize = 10;

/// The number of bytes of a message that are indexed at most.
pub const MESSAGE_BYTES: usize = 2000;

/// The number of bytes that a hit's snippet spans at most.
pub const SNIPPET_BYTES: usize = 250;

/// The value of a decimal digit, if the character is one.
pub open spec fn digit_value(c: char) -> Option<nat> {
    if '0' <= c <= '9' {
        Some((c as u32 - '0' as u32) as nat)
    } else {
        None
    }
}

/// The number that a run of decimal digits stands for, if every character
/// is a digit.
pub open spec fn digits_value(s: Seq<char>) -> Option<nat>
    decreases s.len(),
{
    if s.len() == 0 {
        Some(0)
    } else {
        match (digits_value(s.drop_last()), digit_value(s.last())) {
            (Some(front), Some(d)) => Some(front * 10 + d),
            _ => None,
        }
    }
}

/// The number that a text stands for as `usize`: decimal digits, at least
/// one, after an optional plus sign, of a value that fits.
pub open spec fn index_of_text(s: Seq<char>) -> Option<usize> {
    let digits = if s.len() > 0 && s[0] == '+' {
        s.drop_first()
    } else {
        s
    };
    if digits.len() == 0 {
        None
    } else {
        match digits_value(digits) {
            Some(v) => if v <= usize::MAX {
                Some(v as usize)
            } else {
                None
            },
            None => None,
        }
    }
}

/// A run of digits that goes on stands for at least as much.
proof fn lemma_digits_grow(s: Seq<char>, n: int)
    requires
        0 <= n <= s.len(),
        digits_value(s) is Some,
    ensures
        digits_value(s.take(n)) is Some,
        digits_value(s.take(n))->0 <= digits_value(s)->0,
    decreases s.len() - n,
{
    if n == s.len() {
        assert(s.take(n) =~= s);
    } else {
        lemma_digits_grow(s, n + 1);
        assert(s.take(n + 1).drop_last() =~= s.take(n));
    }
}

/// If a prefix of a text is not a run of digits, the text is not.
proof fn lemma_digits_fail(s: Seq<char>, n: int)
    requires
        0 <= n <= s.len(),
        digits_value(s.take(n)) is None,
    ensures
        digits_value(s) is None,
    decreases s.len() - n,
{
    if n == s.len() {
        assert(s.take(n) =~= s);
    } else {
        assert(s.take(n + 1).drop_last() =~= s.take(n));
        lemma_digits_fail(s, n + 1);
    }
}

/// Reads a text as `usize`.
pub fn parse_index(s: &str) -> (r: Option<usize>)
    ensures
        r == index_of_text(s@),
{
    let chars = chars_of(s);
    let start: usize = if chars.len() > 0 && chars[0] == '+' {
        1
    } else {
        0
    };
    if start == chars.len() {
        return None;
    }
    let ghost digits = chars@.subrange(start as int, chars@.len() as int);
    let ghost stripped = if s@.len() > 0 && s@[0] == '+' {
        s@.drop_first()
    } else {
        s@
    };
    assert(digits =~= stripped);
    let mut value: usize = 0;
    let mut i: usize = start;
    assert(digits.take(0) =~= Seq::empty());
    while i < chars.len()
        invariant
            start <= i <= chars@.len(),
            start < chars@.len(),
            digits == chars@.subrange(start as int, chars@.len() as int),
            digits == stripped,
            stripped == if s@.len() > 0 && s@[0] == '+' {
                s@.drop_first()
            } else {
                s@
            },
            digits_value(digits.take(i - start)) == Some(value as nat),
        decreases chars@.len() - i,
    {
        let c = chars[i];
        proof {
            assert(digits.take(i - start + 1).drop_last() =~= digits.take(i - start));
            assert(digits.take(i - start + 1).last() == c);
        }
        if c < '0' || c > '9' {
            proof {
                assert(digit_value(c) is None);
                assert(digits_value(digits.take(i - start + 1)) is None);
                lemma_digits_fail(digits, i - start + 1);
            }
            return None;
        }
        assert(digit_value(c) == Some((c as u32 - '0' as u32) as nat));
        let d = (c as u32 - '0' as u32) as usize;
        if value > (usize::MAX - d) / 10 {
            proof {
                let next = digits_value(digits.take(i - start + 1));
                assert(next->0 > usize::MAX) by (nonlinear_arith)
                    requires
                        next->0 == value * 10 + d,
                        value > (usize::MAX - d) / 10,
                        0 <= d <= 9,
                ;
                if digits_value(digits) is Some {
                    lemma_digits_grow(digits, i - start + 1);
                }
            }
            return None;
        }
        assert(value * 10 + d <= usize::MAX) by (nonlinear_arith)
            requires
                value <= (usize::MAX - d) / 10,
                0 <= d <= 9,
        ;
        value = value * 10 + d;
        i += 1;
    }
    assert(digits.take(chars@.len() - start) =~= digits);
    Some(value)
}

/// The title under which a session is shown: its own, or `Untitled`.
pub open spec fn shown_title(title: Option<Seq<char>>) -> Seq<char> {
    match title {
        Some(t) => t,
        None => UNTITLED@,
    }
}

/// The title that a title filter is matched against: the session's own,
/// or the empty text.
pub open spec fn searched_title(title: Option<Seq<char>>) -> Seq<char> {
    match title {
        Some(t) => t,
        None => Seq::empty(),
    }
}

/// The views of a list of optional titles.
pub open spec fn title_views(v: Seq<Option<String>>) -> Seq<Option<Seq<char>>> {
    Seq::new(v.len(), |i: int| opt_text(v[i]))
}

/// A title matches a keyword when it contains it, case aside.
pub open spec fn title_matches(title: Option<Seq<char>>, keyword: Seq<char>) -> bool {
    occurs_in(lowercase_of(searched_title(title)), lowercase_of(keyword))
}

/// The indices below `upto` of the titles that match the keyword, in
/// order.
pub open spec fn matching_titles(
    titles: Seq<Option<Seq<char>>>,
    keyword: Seq<char>,
    upto: int,
) -> Seq<usize>
    decreases upto,
{
    if upto <= 0 {
        Seq::empty()
    } else if title_matches(titles[upto - 1], keyword) {
        matching_titles(titles, keyword, upto - 1).push((upto - 1) as usize)
    } else {
        matching_titles(titles, keyword, upto - 1)
    }
}

/// The sessions that a filter selects, as indices into the list of
/// sessions, most recent first: all without a filter or for `all`; for a
/// number the session at that place, counted from one (and the first for
/// zero), if there is one; else those whose title contains the filter,
/// case aside.
pub open spec fn selected_sessions(titles: Seq<Option<Seq<char>>>, filter: Option<Seq<char>>) -> Seq<
    usize,
> {
    match filter {
        None => Seq::new(titles.len(), |i: int| i as usize),
        Some(f) => if f == FILTER_ALL@ {
            Seq::new(titles.len(), |i: int| i as usize)
        } else {
            match index_of_text(f) {
                Some(place) => {
                    let index = if place == 0 {
                        0
                    } else {
                        place - 1
                    };
                    if index < titles.len() {
                        seq![index as usize]
                    } else {
                        Seq::empty()
                    }
                },
                None => matching_titles(titles, f, titles.len() as int),
            }
        },
    }
}

/// Selects the sessions that a filter names.
pub fn select_sessions(titles: &Vec<Option<String>>, filter: Option<&str>) -> (selected: Vec<usize>)
    ensures
        selected@ == selected_sessions(title_views(titles@), match filter {
            Some(f) => Some(f@),
            None => None,
        }),
{
    let ghost views = title_views(titles@);
    let keyword = match filter {
        None => {
            return all_indices(titles.len());
        },
        Some(f) => f,
    };
    if text_is(keyword, FILTER_ALL) {
        return all_indices(titles.len());
    }
    match parse_index(keyword) {
        Some(place) => {
            let index = if place == 0 {
                0
            } else {
                place - 1
            };
            let mut selected: Vec<usize> = Vec::new();
            if index < titles.len() {
                selected.push(index);
                assert(selected@ =~= seq![index]);
            }
            selected
        },
        None => {
            let wanted = chars_of(lowercase(keyword).as_str());
            let mut selected: Vec<usize> = Vec::new();
            let mut i: usize = 0;
            while i < titles.len()
                invariant
                    i <= titles@.len(),
                    views == title_views(titles@),
                    wanted@ == lowercase_of(keyword@),
                    selected@ == matching_titles(views, keyword@, i as int),
                decreases titles@.len() - i,
            {
                let title = match &titles[i] {
                    Some(t) => lowercase(t.as_str()),
                    None => lowercase(""),
                };
                proof {
                    reveal_strlit("");
                    assert(""@ =~= Seq::<char>::empty());
                    assert(title@ == lowercase_of(searched_title(views[i as int])));
                }
                if find_chars(&chars_of(title.as_str()), &wanted).is_some() {
                    selected.push(i);
                }
                i += 1;
            }
            selected
        },
    }
}

/// The indices `0 .. n`.
fn all_indices(n: usize) -> (v: Vec<usize>)
    ensures
        v@ == Seq::new(n as nat, |i: int| i as usize),
{
    let mut v: Vec<usize> = Vec::new();
    let mut i: usize = 0;
    while i < n
        invariant
            i <= n,
            v@.len() == i,
            forall|j: int| 0 <= j < i ==> v@[j] == j,
        decreases n - i,
    {
        v.push(i);
        i += 1;
    }
    assert(v@ =~= Seq::new(n as nat, |i: int| i as usize));
    v
}

/// What the tool is asked to do.
#[derive(Debug, PartialEq)]
pub enum SearchPlan {
    /// List the sessions.
    List,
    /// Search the selected sessions.
    Search { query: String, session: Option<String>, n: usize },
    /// Refuse: the text says why.
    Refuse(String),
}

/// The mathematical model of `SearchPlan`: texts as `Seq<char>`, lists as
/// `Seq`.
pub enum SearchPlanView {
    List,
    Search { query: Seq<char>, session: Option<Seq<char>>, n: usize },
    Refuse(Seq<char>),
}

impl View for SearchPlan {
    type V = SearchPlanView;

    open spec fn view(&self) -> SearchPlanView {
        match self {
            SearchPlan::List => SearchPlanView::List,
            SearchPlan::Search { query, session, n } => SearchPlanView::Search {
                query: query@,
                session: opt_text(*session),
                n: *n,
            },
            SearchPlan::Refuse(text) => SearchPlanView::Refuse(text@),
        }
    }
}

/// The view of an optional string slice.
pub open spec fn opt_str(o: Option<&str>) -> Option<Seq<char>> {
    match o {
        Some(s) => Some(s@),
        None => None,
    }
}

/// What the tool does for its input: it lists without an operation or for
/// `list`; it searches for `search` if there is a query that is not empty,
/// for `n` results or ten; anything else it refuses.
pub open spec fn planned(
    operation: Option<Seq<char>>,
    query: Option<Seq<char>>,
    session: Option<Seq<char>>,
    n: Option<u64>,
) -> SearchPlanView {
    let name = match operation {
        Some(o) => o,
        None => OPERATION_LIST@,
    };
    if name == OPERATION_LIST@ {
        SearchPlanView::List
    } else if name == OPERATION_SEARCH@ {
        match query {
            Some(q) => if q.len() > 0 {
                SearchPlanView::Search {
                    query: q,
                    session: session,
                    n: match n {
                        Some(k) => k as usize,
                        None => DEFAULT_RESULTS,
                    },
                }
            } else {
                SearchPlanView::Refuse(QUERY_REQUIRED@)
            },
            None => SearchPlanView::Refuse(QUERY_REQUIRED@),
        }
    } else {
        SearchPlanView::Refuse(UNKNOWN_OPERATION_PREFIX@ + name + UNKNOWN_OPERATION_SUFFIX@)
    }
}

/// Decides what the tool does for its input.
pub fn plan_operation(
    operation: Option<&str>,
    query: Option<&str>,
    session: Option<&str>,
    n: Option<u64>,
) -> (plan: SearchPlan)
    ensures
        plan@ == planned(opt_str(operation), opt_str(query), opt_str(session), n),
{
    let name = match operation {
        Some(o) => o,
        None => OPERATION_LIST,
    };
    if text_is(name, OPERATION_LIST) {
        SearchPlan::List
    } else if text_is(name, OPERATION_SEARCH) {
        match query {
            Some(q) => {
                if !q.is_empty() {
                    SearchPlan::Search {
                        query: q.to_owned(),
                        session: match session {
                            Some(s) => Some(s.to_owned()),
                            None => None,
                        },
                        n: match n {
                            Some(k) => #[verifier::truncate]
                            (k as usize),
                            None => DEFAULT_RESULTS,
                        },
                    }
                } else {
                    SearchPlan::Refuse(String::from_str(QUERY_REQUIRED))
                }
            },
            None => SearchPlan::Refuse(String::from_str(QUERY_REQUIRED)),
        }
    } else {
        let mut text = String::from_str(UNKNOWN_OPERATION_PREFIX);
        text.append(name);
        text.append(UNKNOWN_OPERATION_SUFFIX);
        SearchPlan::Refuse(text)
    }
}

/// A message of a session as it is indexed.
#[derive(Debug)]
pub struct SessionMessage {
    pub role: String,
    pub content: String,
}

/// The mathematical model of `SessionMessage`: texts as `Seq<char>`, lists as
/// `Seq`.
pub struct SessionMessageView {
    pub role: Seq<char>,
    pub content: Seq<char>,
}

impl View for SessionMessage {
    type V = SessionMessageView;

    open spec fn view(&self) -> SessionMessageView {
        SessionMessageView { role: self.role@, content: self.content@ }
    }
}

/// The views of a list of session messages.
pub open spec fn session_message_views(v: Seq<SessionMessage>) -> Seq<SessionMessageView> {
    Seq::new(v.len(), |i: int| v[i]@)
}

/// A message's content as it is indexed: in full up to `MESSAGE_BYTES`
/// bytes of UTF-8, else the longest prefix of whole characters within that
/// many bytes, followed by an ellipsis.
pub open spec fn capped_content(content: Seq<char>) -> Seq<char> {
    if vstd::utf8::encode_utf8(content).len() > MESSAGE_BYTES {
        prefix_text(content, MESSAGE_BYTES as int) + DOC_ELLIPSIS@
    } else {
        content
    }
}

/// One message of the document: the speaker's tag and the content.
pub open spec fn message_block(m: SessionMessageView) -> Seq<char> {
    (if m.role == ROLE_USER@ {
        TAG_USER@
    } else {
        TAG_ASSISTANT@
    }) + DOC_SPACE@ + capped_content(m.content) + DOC_HEAD_END@
}

/// The messages of the document.
pub open spec fn message_blocks(messages: Seq<SessionMessageView>) -> Seq<Seq<char>> {
    Seq::new(messages.len(), |i: int| message_block(messages[i]))
}

/// The document that is indexed for a session: a head with title, date and
/// identifier, then every message.
pub open spec fn document_text(
    title: Option<Seq<char>>,
    date: Seq<char>,
    id: Seq<char>,
    messages: Seq<SessionMessageView>,
) -> Seq<char> {
    DOC_TITLE@ + shown_title(title) + DOC_DATE@ + date + DOC_SESSION@ + id + DOC_HEAD_END@
        + concat_all(message_blocks(messages))
}

/// Builds the document that is indexed for a session, or nothing for a
/// session without messages.
pub fn session_document(
    title: Option<&str>,
    date: &str,
    id: &str,
    messages: &Vec<SessionMessage>,
) -> (doc: Option<String>)
    ensures
        opt_text(doc) == if messages@.len() == 0 {
            None
        } else {
            Some(document_text(opt_str(title), date@, id@, session_message_views(messages@)))
        },
{
    if messages.len() == 0 {
        return None;
    }
    let ghost blocks = message_blocks(session_message_views(messages@));
    let mut doc = String::from_str(DOC_TITLE);
    match title {
        Some(t) => {
            doc.append(t);
        },
        None => {
            doc.append(UNTITLED);
        },
    }
    doc.append(DOC_DATE);
    doc.append(date);
    doc.append(DOC_SESSION);
    doc.append(id);
    doc.append(DOC_HEAD_END);
    let ghost head = doc@;
    let mut i: usize = 0;
    assert(doc@ =~= head + concat_all(blocks.take(0)));
    while i < messages.len()
        invariant
            i <= messages@.len(),
            blocks == message_blocks(session_message_views(messages@)),
            doc@ == head + concat_all(blocks.take(i as int)),
        decreases messages@.len() - i,
    {
        proof {
            lemma_concat_all_step(blocks, i as int);
        }
        let m = &messages[i];
        let ghost so_far = doc@;
        if text_is(m.role.as_str(), ROLE_USER) {
            doc.append(TAG_USER);
        } else {
            doc.append(TAG_ASSISTANT);
        }
        doc.append(DOC_SPACE);
        if m.content.as_str().as_bytes().len() > MESSAGE_BYTES {
            doc.append(prefix_within(m.content.as_str(), MESSAGE_BYTES));
            doc.append(DOC_ELLIPSIS);
        } else {
            doc.append(m.content.as_str());
        }
        doc.append(DOC_HEAD_END);
        assert(doc@ =~= so_far + blocks[i as int]);
        i += 1;
    }
    assert(blocks.take(messages@.len() as int) =~= blocks);
    assert(doc@ =~= document_text(opt_str(title), date@, id@, session_message_views(messages@)));
    Some(doc)
}

/// A session as the list shows it.
#[derive(Debug)]
pub struct SessionSummary {
    pub title: Option<String>,
    pub date: String,
    pub messages: u64,
}

/// The mathematical model of `SessionSummary`: texts as `Seq<char>`, lists as
/// `Seq`.
pub struct SessionSummaryView {
    pub title: Option<Seq<char>>,
    pub date: Seq<char>,
    pub messages: u64,
}

impl View for SessionSummary {
    type V = SessionSummaryView;

    open spec fn view(&self) -> SessionSummaryView {
        SessionSummaryView { title: opt_text(self.title), date: self.date@, messages: self.messages }
    }
}

/// The views of a list of session summaries.
pub open spec fn summary_views(v: Seq<SessionSummary>) -> Seq<SessionSummaryView> {
    Seq::new(v.len(), |i: int| v[i]@)
}

/// The line of the list for the session at `index`.
pub open spec fn list_line(index: int, s: SessionSummaryView) -> Seq<char> {
    decimal_text((index + 1) as nat) + LIST_NUMBER_END@ + shown_title(s.title) + LIST_TITLE_END@
        + s.date + LIST_DATE_END@ + decimal_text(s.messages as nat) + LIST_LINE_END@
}

/// The lines of the list.
pub open spec fn list_lines(sessions: Seq<SessionSummaryView>) -> Seq<Seq<char>> {
    Seq::new(sessions.len(), |i: int| list_line(i, sessions[i]))
}

/// The list of sessions: one numbered line each, or a note that there are
/// none.
pub open spec fn list_text(sessions: Seq<SessionSummaryView>) -> Seq<char> {
    if sessions.len() == 0 {
        NO_SESSIONS@
    } else {
        concat_all(list_lines(sessions))
    }
}

/// Writes the list of sessions.
pub fn list_sessions(sessions: &Vec<SessionSummary>) -> (text: String)
    ensures
        text@ == list_text(summary_views(sessions@)),
{
    if sessions.len() == 0 {
        return String::from_str(NO_SESSIONS);
    }
    let ghost lines = list_lines(summary_views(sessions@));
    let mut text = String::new();
    let mut i: usize = 0;
    assert(text@ =~= concat_all(lines.take(0)));
    while i < sessions.len()
        invariant
            i <= sessions@.len(),
            lines == list_lines(summary_views(sessions@)),
            text@ == concat_all(lines.take(i as int)),
        decreases sessions@.len() - i,
    {
        proof {
            lemma_concat_all_step(lines, i as int);
        }
        let s = &sessions[i];
        let ghost so_far = text@;
        text.append(decimal_string((i + 1) as u64).as_str());
        text.append(LIST_NUMBER_END);
        match &s.title {
            Some(t) => {
                text.append(t.as_str());
            },
            None => {
                text.append(UNTITLED);
            },
        }
        text.append(LIST_TITLE_END);
        text.append(s.date.as_str());
        text.append(LIST_DATE_END);
        text.append(decimal_string(s.messages).as_str());
        text.append(LIST_LINE_END);
        assert(text@ =~= so_far + lines[i as int]);
        i += 1;
    }
    assert(lines.take(sessions@.len() as int) =~= lines);
    text
}

/// A document that the search ranked, best first.
#[derive(Debug)]
pub struct RankedDoc {
    pub path: String,
    pub body: String,
}

/// The mathematical model of `RankedDoc`: texts as `Seq<char>`, lists as
/// `Seq`.
pub struct RankedDocView {
    pub path: Seq<char>,
    pub body: Seq<char>,
}

impl View for RankedDoc {
    type V = RankedDocView;

    open spec fn view(&self) -> RankedDocView {
        RankedDocView { path: self.path@, body: self.body@ }
    }
}

/// The views of a list of ranked documents.
pub open spec fn ranked_views(v: Seq<RankedDoc>) -> Seq<RankedDocView> {
    Seq::new(v.len(), |i: int| v[i]@)
}

/// A hit: the document's path and a snippet of its body.
#[derive(Debug, PartialEq)]
pub struct Hit {
    pub path: String,
    pub snippet: String,
}

/// The mathematical model of `Hit`: texts as `Seq<char>`, lists as
/// `Seq`.
pub struct HitView {
    pub path: Seq<char>,
    pub snippet: Seq<char>,
}

impl View for Hit {
    type V = HitView;

    open spec fn view(&self) -> HitView {
        HitView { path: self.path@, snippet: self.snippet@ }
    }
}

/// The views of a list of hits.
pub open spec fn hit_views(v: Seq<Hit>) -> Seq<HitView> {
    Seq::new(v.len(), |i: int| v[i]@)
}

/// The hit for a ranked document: its path, and the snippet of its body
/// around the query's first hit.
pub open spec fn hit_of(doc: RankedDocView, query: Seq<char>) -> HitView {
    HitView {
        path: doc.path,
        snippet: snippet_text(
            doc.body,
            hit_position(
                vstd::utf8::encode_utf8(lowercase_of(doc.body)),
                words_of(lowercase_of(query)),
                0,
            ),
            SNIPPET_BYTES as int,
        ),
    }
}

/// Of the first `upto` ranked documents, the hits of those whose path is
/// among the targets, in rank order, `n` at most.
pub open spec fn picked(
    ranked: Seq<RankedDocView>,
    targets: Seq<Seq<char>>,
    n: usize,
    query: Seq<char>,
    upto: int,
) -> Seq<HitView>
    decreases upto,
{
    if upto <= 0 {
        Seq::empty()
    } else {
        let before = picked(ranked, targets, n, query, upto - 1);
        if before.len() < n && targets.contains(ranked[upto - 1].path) {
            before.push(hit_of(ranked[upto - 1], query))
        } else {
            before
        }
    }
}

/// Picks the hits among the ranked documents: those of the target
/// sessions, best first, `n` at most, each with a snippet.
pub fn pick_hits(ranked: &Vec<RankedDoc>, targets: &Vec<String>, n: usize, query: &str) -> (hits:
    Vec<Hit>)
    ensures
        hit_views(hits@) == picked(
            ranked_views(ranked@),
            texts(targets@),
            n,
            query@,
            ranked@.len() as int,
        ),
        hits@.len() <= n,
{
    let ghost views = ranked_views(ranked@);
    let mut hits: Vec<Hit> = Vec::new();
    let mut i: usize = 0;
    assert(hit_views(hits@) =~= picked(views, texts(targets@), n, query@, 0));
    while i < ranked.len()
        invariant
            i <= ranked@.len(),
            views == ranked_views(ranked@),
            hits@.len() <= n,
            hit_views(hits@) == picked(views, texts(targets@), n, query@, i as int),
        decreases ranked@.len() - i,
    {
        let doc = &ranked[i];
        assert(views[i as int] == doc@);
        if hits.len() < n && crate::text::has_text(targets, doc.path.as_str()) {
            let hit = Hit {
                path: doc.path.clone(),
                snippet: extract_snippet(doc.body.as_str(), query, SNIPPET_BYTES),
            };
            let ghost before = hit_views(hits@);
            hits.push(hit);
            assert(hit_views(hits@) =~= before.push(hit_of(doc@, query@)));
        }
        i += 1;
    }
    hits
}

/// A session's document in the index: its path and the session's title.
#[derive(Debug)]
pub struct SessionDoc {
    pub path: String,
    pub title: Option<String>,
}

/// The mathematical model of `SessionDoc`: texts as `Seq<char>`, lists as
/// `Seq`.
pub struct SessionDocView {
    pub path: Seq<char>,
    pub title: Option<Seq<char>>,
}

impl View for SessionDoc {
    type V = SessionDocView;

    open spec fn view(&self) -> SessionDocView {
        SessionDocView { path: self.path@, title: opt_text(self.title) }
    }
}

/// The views of a list of session documents.
pub open spec fn doc_views(v: Seq<SessionDoc>) -> Seq<SessionDocView> {
    Seq::new(v.len(), |i: int| v[i]@)
}

/// The title under which a hit is shown: that of the last of the first
/// `upto` session documents with the hit's path, `Untitled` if it has no
/// title or no document has the path.
pub open spec fn title_for(docs: Seq<SessionDocView>, path: Seq<char>, upto: int) -> Seq<char>
    decreases upto,
{
    if upto <= 0 {
        UNTITLED@
    } else if docs[upto - 1].path == path {
        shown_title(docs[upto - 1].title)
    } else {
        title_for(docs, path, upto - 1)
    }
}

/// A hit as the result shows it.
pub open spec fn hit_block(docs: Seq<SessionDocView>, hit: HitView) -> Seq<char> {
    HIT_OPEN@ + title_for(docs, hit.path, docs.len() as int) + HIT_CLOSE@ + hit.snippet + HIT_END@
}

/// The hits as the result shows them.
pub open spec fn hit_blocks(docs: Seq<SessionDocView>, hits: Seq<HitView>) -> Seq<Seq<char>> {
    Seq::new(hits.len(), |i: int| hit_block(docs, hits[i]))
}

/// The result of a search: every hit under its session's title, or a note
/// that nothing matched the query.
pub open spec fn hits_text(docs: Seq<SessionDocView>, hits: Seq<HitView>, query: Seq<char>) -> Seq<
    char,
> {
    if hits.len() == 0 {
        NO_HITS_PREFIX@ + query + NO_HITS_SUFFIX@
    } else {
        concat_all(hit_blocks(docs, hits))
    }
}

/// Appends the title under which a hit with `path` is shown.
fn append_title(out: &mut String, docs: &Vec<SessionDoc>, path: &str)
    ensures
        final(out)@ == old(out)@ + title_for(doc_views(docs@), path@, docs@.len() as int),
{
    let ghost views = doc_views(docs@);
    let mut upto: usize = docs.len();
    while upto > 0
        invariant
            upto <= docs@.len(),
            views == doc_views(docs@),
            out@ == old(out)@,
            title_for(views, path@, docs@.len() as int) == title_for(views, path@, upto as int),
        decreases upto,
    {
        let doc = &docs[upto - 1];
        assert(views[upto - 1] == doc@);
        if text_is(doc.path.as_str(), path) {
            match &doc.title {
                Some(t) => {
                    out.append(t.as_str());
                },
                None => {
                    out.append(UNTITLED);
                },
            }
            return ;
        }
        upto -= 1;
    }
    out.append(UNTITLED);
}

/// Writes the result of a search.
pub fn format_hits(docs: &Vec<SessionDoc>, hits: &Vec<Hit>, query: &str) -> (text: String)
    ensures
        text@ == hits_text(doc_views(docs@), hit_views(hits@), query@),
{
    if hits.len() == 0 {
        let mut text = String::from_str(NO_HITS_PREFIX);
        text.append(query);
        text.append(NO_HITS_SUFFIX);
        return text;
    }
    let ghost blocks = hit_blocks(doc_views(docs@), hit_views(hits@));
    let mut text = String::new();
    let mut i: usize = 0;
    assert(text@ =~= concat_all(blocks.take(0)));
    while i < hits.len()
        invariant
            i <= hits@.len(),
            blocks == hit_blocks(doc_views(docs@), hit_views(hits@)),
            text@ == concat_all(blocks.take(i as int)),
        decreases hits@.len() - i,
    {
        proof {
            lemma_concat_all_step(blocks, i as int);
        }
        let hit = &hits[i];
        let ghost so_far = text@;
        text.append(HIT_OPEN);
        append_title(&mut text, docs, hit.path.as_str());
        text.append(HIT_CLOSE);
        text.append(hit.snippet.as_str());
        text.append(HIT_END);
        assert(hit_views(hits@)[i as int] == hit@);
        assert(text@ =~= so_far + blocks[i as int]);
        i += 1;
    }
    assert(blocks.take(hits@.len() as int) =~= blocks);
    text
}

} // verus!
