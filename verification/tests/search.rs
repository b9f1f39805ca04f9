use a2a_core::pricing::matching_entry;
use a2a_core::provider::{PlaceholderProvider, ProviderError};
use a2a_core::search::{extract_snippet, sanitize_fts_query};
use a2a_core::server::GatewayParams;
use a2a_core::boundary::prefix_within;
use a2a_core::text::{contains_text, decimal_string, hex_string};
use a2a_core::words::trim_text;

#[test]
fn query_words_are_quoted_and_joined() {
    assert_eq!(sanitize_fts_query("authentication bug"), "\"authentication\" \"bug\"");
    assert_eq!(sanitize_fts_query("  a\t\nb\u{3000}c  "), "\"a\" \"b\" \"c\"");
    assert_eq!(sanitize_fts_query("say \"hi\" now"), "\"say\" \"hi\" \"now\"");
    assert_eq!(sanitize_fts_query("\"\"\" x"), "\"\" \"x\"");
    assert_eq!(sanitize_fts_query(""), "");
    assert_eq!(sanitize_fts_query(" \u{2003}\n"), "");
    assert_eq!(sanitize_fts_query("caf\u{e9}"), "\"caf\u{e9}\"");
}

fn snippet_by_std(body: &str, query: &str, max_len: usize) -> String {
    let query_lower = query.to_lowercase();
    let body_lower = body.to_lowercase();
    let mut best_pos = 0;
    for word in query_lower.split_whitespace() {
        let clean: String = word.chars().filter(|c| *c != '"').collect();
        if !clean.is_empty() {
            if let Some(pos) = body_lower.find(&clean) {
                best_pos = pos;
                break;
            }
        }
    }
    let start = best_pos.saturating_sub(50);
    let end = (start + max_len).min(body.len());
    let mut start = start.min(body.len());
    while !body.is_char_boundary(start) {
        start -= 1;
    }
    let mut end = end;
    while !body.is_char_boundary(end) {
        end += 1;
    }
    let mut snippet = String::new();
    if start > 0 {
        snippet.push_str("...");
    }
    snippet.push_str(body[start..end].trim());
    if end < body.len() {
        snippet.push_str("...");
    }
    snippet
}

#[test]
fn snippet_is_cut_around_the_first_hit() {
    let body = "# Today\nFixed the authentication bug in login flow, then went for a long walk along the river and wrote the report in the evening.";
    assert_eq!(extract_snippet(body, "\"authentication\" \"bug\"", 250), body);
    assert_eq!(
        extract_snippet(body, "\"river\"", 30),
        "...n login flow, then went for a...",
    );
    assert_eq!(extract_snippet(body, "\"river\"", 30), snippet_by_std(body, "\"river\"", 30));
    assert_eq!(extract_snippet(body, "\"absent\"", 10), "# Today\nFi...");
    assert_eq!(extract_snippet("", "x", 10), "");
    assert_eq!(extract_snippet("short", "SHORT", 0), "...");
}

#[test]
fn snippet_agrees_with_std_on_multi_byte_text() {
    let body = "\u{e4}\u{f6}\u{fc} ".repeat(40) + "NEEDLE \u{1F41D}\u{1F41D}\u{1F41D} tail of the text";
    for max_len in [0usize, 1, 2, 3, 7, 50, 51, 52, 53, 100, 1000] {
        for query in ["needle", "\u{1F41D}", "\"TAIL\"", "nothing \u{c4}\u{d6}", "\"\" text"] {
            assert_eq!(
                extract_snippet(&body, query, max_len),
                snippet_by_std(&body, query, max_len),
                "query {:?}, max_len {}",
                query,
                max_len
            );
        }
    }
}

#[test]
fn text_helpers_agree_with_std() {
    assert!(contains_text("gpt-4o-mini-2024", "gpt-4o-mini"));
    assert!(contains_text("abc", ""));
    assert!(!contains_text("abc", "abcd"));
    assert!(!contains_text("ababab", "abb"));
    assert_eq!(trim_text(" \t x y \u{a0}\n"), "x y");
    assert_eq!(trim_text("   "), "");
    assert_eq!(decimal_string(0), "0");
    assert_eq!(decimal_string(18_446_744_073_709_551_615), "18446744073709551615");
    assert_eq!(hex_string(0xbeef, 16), "000000000000beef");
    assert_eq!(hex_string(0x1234, 2), "34");
    assert_eq!(prefix_within("a\u{1F41D}b", 4), "a");
    assert_eq!(prefix_within("a\u{1F41D}b", 5), "a\u{1F41D}");
    assert_eq!(prefix_within("abc", 0), "");
    assert_eq!(prefix_within("abc", 9), "abc");
}

fn prefixes() -> Vec<String> {
    [
        "gpt-4o-mini", "gpt-4o", "gpt-4-turbo", "gpt-4", "gpt-3.5-turbo", "o3-mini", "o3", "o1-mini",
        "o1", "minimax-m2.5", "minimax-m2.1", "minimax-text-01", "minimax", "deepseek-r1",
        "deepseek",
    ]
    .iter()
    .map(|p| p.to_string())
    .collect()
}

#[test]
fn first_matching_prefix_wins() {
    let prefixes = prefixes();
    let mini = matching_entry(&prefixes, "gpt-4o-mini").expect("mini");
    let full = matching_entry(&prefixes, "gpt-4o").expect("full");
    assert_eq!(prefixes[mini], "gpt-4o-mini");
    assert_eq!(prefixes[full], "gpt-4o");
    assert!(mini < full);
    let minimax = matching_entry(&prefixes, "MiniMax-M2.5").expect("minimax");
    assert_eq!(prefixes[minimax], "minimax-m2.5");
    assert_eq!(matching_entry(&prefixes, "GPT-4"), Some(3));
    assert_eq!(matching_entry(&prefixes, "OpenAI/O1-Preview"), Some(8));
    assert_eq!(matching_entry(&prefixes, "some-unknown-model-xyz"), None);
    assert_eq!(matching_entry(&vec![], "gpt-4o"), None);
}

#[test]
fn placeholder_provider_refuses() {
    let provider = PlaceholderProvider;
    assert_eq!(provider.name(), "none");
    assert_eq!(provider.default_model(), "none");
    assert!(provider.supported_models().is_empty());
    assert_eq!(provider.context_window("gpt-4"), None);
    assert!(!provider.supports_streaming());
    assert!(!provider.supports_tools());
    assert!(!provider.supports_vision());
    assert_eq!(
        provider.complete(),
        Err(ProviderError::Internal(
            "No provider configured. Please complete onboarding to set up a provider."
                .to_string()
        ))
    );
}

#[test]
fn gateway_starts_only_when_enabled() {
    let on = GatewayParams { bind: "127.0.0.1".to_string(), port: 18789, enabled: true };
    assert_eq!(on.address(), "127.0.0.1:18789");
    let state = on.initial_state().expect("enabled");
    assert_eq!(state.host, "127.0.0.1");
    assert_eq!(state.port, 18789);
    assert_eq!(state.task_store.len(), 0);
    assert_eq!(state.agent_card().supported_interfaces[0].url, "http://127.0.0.1:18789/a2a/v1");
    let off = GatewayParams { bind: "127.0.0.1".to_string(), port: 18789, enabled: false };
    assert!(off.initial_state().is_none());
}
