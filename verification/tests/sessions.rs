use a2a_core::memory::{is_memory_log, stale_paths};
use a2a_core::sessions::{
    format_hits, list_sessions, parse_index, pick_hits, plan_operation, select_sessions,
    session_document, Hit, RankedDoc, SearchPlan, SessionDoc, SessionMessage, SessionSummary,
};

fn titles(list: &[Option<&str>]) -> Vec<Option<String>> {
    list.iter().map(|t| t.map(|s| s.to_string())).collect()
}

#[test]
fn numbers_are_read_as_std_reads_them() {
    for text in [
        "0", "1", "007", "+5", "+", "", "-1", "-0", "12a", " 1", "1 ", "18446744073709551615",
        "18446744073709551616", "99999999999999999999999", "++1", "\u{0661}",
    ] {
        assert_eq!(parse_index(text), text.parse::<usize>().ok(), "text {:?}", text);
    }
}

#[test]
fn filter_selects_sessions() {
    let all = titles(&[Some("Fix login"), None, Some("LOGIN again"), Some("Other")]);
    assert_eq!(select_sessions(&all, None), vec![0, 1, 2, 3]);
    assert_eq!(select_sessions(&all, Some("all")), vec![0, 1, 2, 3]);
    assert_eq!(select_sessions(&all, Some("1")), vec![0]);
    assert_eq!(select_sessions(&all, Some("0")), vec![0]);
    assert_eq!(select_sessions(&all, Some("4")), vec![3]);
    assert_eq!(select_sessions(&all, Some("5")), Vec::<usize>::new());
    assert_eq!(select_sessions(&all, Some("login")), vec![0, 2]);
    assert_eq!(select_sessions(&all, Some("Login A")), vec![2]);
    assert_eq!(select_sessions(&all, Some("untitled")), Vec::<usize>::new());
    assert_eq!(select_sessions(&all, Some("All")), Vec::<usize>::new());
    assert_eq!(select_sessions(&vec![], Some("1")), Vec::<usize>::new());
}

#[test]
fn operation_is_planned() {
    assert_eq!(plan_operation(None, None, None, None), SearchPlan::List);
    assert_eq!(plan_operation(Some("list"), Some("q"), None, Some(3)), SearchPlan::List);
    assert_eq!(
        plan_operation(Some("search"), Some("login bug"), Some("2"), None),
        SearchPlan::Search {
            query: "login bug".to_string(),
            session: Some("2".to_string()),
            n: 10
        }
    );
    assert_eq!(
        plan_operation(Some("search"), Some("x"), None, Some(3)),
        SearchPlan::Search { query: "x".to_string(), session: None, n: 3 }
    );
    assert_eq!(
        plan_operation(Some("search"), Some(""), None, None),
        SearchPlan::Refuse("'query' is required for search".to_string())
    );
    assert_eq!(
        plan_operation(Some("search"), None, None, None),
        SearchPlan::Refuse("'query' is required for search".to_string())
    );
    assert_eq!(
        plan_operation(Some("drop"), None, None, None),
        SearchPlan::Refuse("Unknown operation 'drop'. Use 'list' or 'search'.".to_string())
    );
}

fn message(role: &str, content: &str) -> SessionMessage {
    SessionMessage { role: role.to_string(), content: content.to_string() }
}

#[test]
fn document_holds_head_and_messages() {
    assert_eq!(session_document(Some("T"), "2024-01-01", "id-1", &vec![]), None);
    let doc = session_document(
        Some("Fix login"),
        "2024-01-01",
        "id-1",
        &vec![message("user", "hello"), message("assistant", "hi"), message("tool", "x")],
    );
    assert_eq!(
        doc.as_deref(),
        Some("# Fix login\nDate: 2024-01-01\nSession: id-1\n\n[user] hello\n\n[assistant] hi\n\n[assistant] x\n\n")
    );
    let long = "y".repeat(2001);
    let doc = session_document(None, "d", "i", &vec![message("user", &long)]).unwrap();
    assert_eq!(doc, format!("# Untitled\nDate: d\nSession: i\n\n[user] {}...\n\n", "y".repeat(2000)));
    let exact = "y".repeat(2000);
    let doc = session_document(None, "d", "i", &vec![message("user", &exact)]).unwrap();
    assert_eq!(doc, format!("# Untitled\nDate: d\nSession: i\n\n[user] {}\n\n", exact));
    let wide = format!("y{}", "\u{e9}".repeat(1000));
    let doc = session_document(None, "d", "i", &vec![message("user", &wide)]).unwrap();
    assert_eq!(
        doc,
        format!("# Untitled\nDate: d\nSession: i\n\n[user] y{}...\n\n", "\u{e9}".repeat(999))
    );
}

#[test]
fn sessions_are_listed_with_numbers() {
    assert_eq!(list_sessions(&vec![]), "No sessions found.");
    let list = vec![
        SessionSummary { title: Some("Fix login".to_string()), date: "2024-01-02".to_string(), messages: 12 },
        SessionSummary { title: None, date: "2024-01-01".to_string(), messages: 0 },
    ];
    assert_eq!(
        list_sessions(&list),
        "1. \"Fix login\" \u{2014} 2024-01-02, 12 messages\n2. \"Untitled\" \u{2014} 2024-01-01, 0 messages\n"
    );
}

fn ranked(path: &str, body: &str) -> RankedDoc {
    RankedDoc { path: path.to_string(), body: body.to_string() }
}

#[test]
fn hits_are_those_of_target_sessions_best_first() {
    let docs = vec![
        ranked("c.md", "the login bug again"),
        ranked("x.md", "login elsewhere"),
        ranked("a.md", "fixed the Login flow"),
        ranked("b.md", "login login"),
    ];
    let targets = vec!["a.md".to_string(), "b.md".to_string(), "c.md".to_string()];
    let hits = pick_hits(&docs, &targets, 2, "\"login\"");
    assert_eq!(
        hits,
        vec![
            Hit { path: "c.md".to_string(), snippet: "the login bug again".to_string() },
            Hit { path: "a.md".to_string(), snippet: "fixed the Login flow".to_string() },
        ]
    );
    assert!(pick_hits(&docs, &targets, 0, "\"login\"").is_empty());
    assert_eq!(pick_hits(&docs, &targets, 9, "\"login\"").len(), 3);
    assert!(pick_hits(&docs, &vec![], 9, "\"login\"").is_empty());
}

#[test]
fn hits_are_shown_under_their_titles() {
    let docs = vec![
        SessionDoc { path: "a.md".to_string(), title: Some("Fix login".to_string()) },
        SessionDoc { path: "b.md".to_string(), title: None },
        SessionDoc { path: "a.md".to_string(), title: Some("Later".to_string()) },
    ];
    let hits = vec![
        Hit { path: "a.md".to_string(), snippet: "one".to_string() },
        Hit { path: "b.md".to_string(), snippet: "two".to_string() },
        Hit { path: "z.md".to_string(), snippet: "three".to_string() },
    ];
    assert_eq!(
        format_hits(&docs, &hits, "q"),
        "**Later**\n   one\n\n**Untitled**\n   two\n\n**Untitled**\n   three\n\n"
    );
    assert_eq!(
        format_hits(&docs, &vec![], "login bug"),
        "No messages found matching 'login bug' in the selected session(s)."
    );
}

#[test]
fn memory_logs_are_markdown_files() {
    assert!(is_memory_log("/home/crab/.opencrabs/memory/2024-01-01.md"));
    assert!(!is_memory_log("/home/crab/.opencrabs/memory/memory.db"));
    assert!(!is_memory_log("/home/crab/.opencrabs/memory/md"));
    assert!(!is_memory_log("/home/crab/.opencrabs/memory/.md"));
    assert!(!is_memory_log("notes.MD"));
}

#[test]
fn indexed_paths_that_left_the_disk_are_stale() {
    let indexed = vec!["a.md".to_string(), "b.md".to_string(), "c.md".to_string()];
    let on_disk = vec!["c.md".to_string(), "a.md".to_string(), "d.md".to_string()];
    assert_eq!(stale_paths(&indexed, &on_disk), vec!["b.md".to_string()]);
    assert_eq!(stale_paths(&indexed, &vec![]), indexed);
    assert!(stale_paths(&vec![], &on_disk).is_empty());
}
