use a2a_core::memory::{content_hash, is_unchanged, memory_dir};
use std::hash::{Hash, Hasher};

#[test]
fn test_memory_dir() {
    let dir = memory_dir("/home/crab/.opencrabs");
    assert!(dir.contains("memory"));
}

#[test]
fn test_content_hash() {
    let hash = content_hash("hello");
    assert_eq!(hash.len(), 16); // u64 -> 16 hex chars
    // Deterministic
    assert_eq!(hash, content_hash("hello"));
    // Different input -> different hash
    assert_ne!(hash, content_hash("world"));
}

#[test]
fn content_hash_is_lower_case_hex_and_not_the_input() {
    let hash = content_hash("0123456789abcdef");
    assert_ne!(hash, "0123456789abcdef");
    assert!(hash.chars().all(|c| c.is_ascii_digit() || ('a'..='f').contains(&c)));
}

#[test]
fn memory_dir_joins_below_home() {
    assert_eq!(memory_dir("/home/crab/.opencrabs"), "/home/crab/.opencrabs/memory");
    assert_eq!(memory_dir("/home/crab/.opencrabs/"), "/home/crab/.opencrabs/memory");
}

#[test]
fn unchanged_file_is_recognised_by_hash() {
    let stored = content_hash("# Today\nFixed the bug");
    assert!(is_unchanged(Some(stored.as_str()), "# Today\nFixed the bug"));
    assert!(!is_unchanged(Some(stored.as_str()), "# Today\nRefactored"));
    assert!(!is_unchanged(None, "# Today\nFixed the bug"));
}

#[test]
fn content_hash_is_the_default_hash_in_hex() {
    for text in ["", "hello", "# Today\nFixed the bug", "\u{1F41D}"] {
        let mut hasher = std::collections::hash_map::DefaultHasher::new();
        text.hash(&mut hasher);
        assert_eq!(content_hash(text), format!("{:016x}", hasher.finish()));
    }
}
