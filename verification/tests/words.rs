use a2a_core::boundary::{ceil_index, floor_index, slice_between};
use a2a_core::confidence::Confidence;
use a2a_core::search::{sanitize_fts_query, strip_quotes};
use a2a_core::text::{chars_of, decimal_string, find_bytes, find_chars, hex_string, string_of, text_is};
use a2a_core::words::{is_space_char, split_words, trim_text};

#[test]
fn white_space_is_what_std_calls_white_space() {
    for code in 0..=0x10ffffu32 {
        if let Some(c) = char::from_u32(code) {
            assert_eq!(is_space_char(c), c.is_whitespace(), "U+{:04X}", code);
        }
    }
}

fn samples() -> Vec<String> {
    let pieces = ["", " ", "a", "\"", "\t", "\u{a0}", "\u{e9}", "\u{1F41D}", "b c", "\n\n", "\"x\""];
    let mut out = Vec::new();
    for a in pieces {
        for b in pieces {
            for c in pieces {
                out.push(format!("{}{}{}", a, b, c));
            }
        }
    }
    out
}

#[test]
fn words_are_those_of_split_whitespace() {
    for text in samples() {
        let words: Vec<String> =
            split_words(&chars_of(&text)).iter().map(|w| w.iter().collect()).collect();
        let expected: Vec<String> = text.split_whitespace().map(|w| w.to_string()).collect();
        assert_eq!(words, expected, "text {:?}", text);
    }
}

#[test]
fn trimming_is_that_of_std() {
    for text in samples() {
        assert_eq!(trim_text(&text), text.trim(), "text {:?}", text);
    }
}

#[test]
fn sanitized_query_is_quoted_words_joined() {
    for text in samples() {
        let expected = text
            .split_whitespace()
            .map(|w| {
                let clean: String = w.chars().filter(|c| *c != '"').collect();
                format!("\"{}\"", clean)
            })
            .collect::<Vec<_>>()
            .join(" ");
        assert_eq!(sanitize_fts_query(&text), expected, "text {:?}", text);
    }
    assert_eq!(strip_quotes(&chars_of("\"a\"\"b")), vec!['a', 'b']);
}

#[test]
fn boundaries_are_those_of_std() {
    for text in samples() {
        for at in 0..text.len() + 3 {
            let mut floor = at.min(text.len());
            while !text.is_char_boundary(floor) {
                floor -= 1;
            }
            let mut ceil = at.min(text.len());
            while !text.is_char_boundary(ceil) {
                ceil += 1;
            }
            assert_eq!(floor_index(&text, at), floor, "text {:?} at {}", text, at);
            assert_eq!(ceil_index(&text, at), ceil, "text {:?} at {}", text, at);
            assert_eq!(slice_between(&text, floor, ceil), &text[floor..ceil]);
        }
    }
}

#[test]
fn searches_find_the_first_occurrence() {
    for hay in samples() {
        for needle in ["", "a", " ", "\u{e9}", "b c", "\"x\"", "zz"] {
            assert_eq!(
                find_bytes(hay.as_bytes(), needle.as_bytes()),
                hay.find(needle),
                "hay {:?} needle {:?}",
                hay,
                needle
            );
            let by_chars = find_chars(&chars_of(&hay), &chars_of(needle));
            let expected = hay.find(needle).map(|at| hay[..at].chars().count());
            assert_eq!(by_chars, expected, "hay {:?} needle {:?}", hay, needle);
        }
    }
}

#[test]
fn numerals_are_those_of_std() {
    for n in [0u64, 1, 9, 10, 11, 99, 100, 101, 12345, u32::MAX as u64, u64::MAX - 1, u64::MAX] {
        assert_eq!(decimal_string(n), n.to_string());
        assert_eq!(hex_string(n, 16), format!("{:016x}", n));
        assert_eq!(hex_string(n, 0), "");
    }
    let chars = chars_of("h\u{e9}llo");
    assert_eq!(chars, vec!['h', '\u{e9}', 'l', 'l', 'o']);
    assert_eq!(string_of(&chars, 1, 3), "\u{e9}l");
    assert_eq!(string_of(&chars, 2, 2), "");
    assert!(text_is("abc", "abc"));
    assert!(!text_is("abc", "abd"));
    assert!(!text_is("abc", "ab"));
}

#[test]
fn levels_that_binary_fractions_hold_exactly_are_written_as_std_writes_them() {
    for sixteenths in 0..=64u32 {
        let millionths = sixteenths * 62_500;
        let level = Confidence::from_millionths(millionths);
        let exact = sixteenths as f64 / 16.0;
        assert_eq!(level.one_decimal(), format!("{:.1}", exact), "{}", exact);
        assert_eq!(level.two_decimals(), format!("{:.2}", exact), "{}", exact);
    }
}
