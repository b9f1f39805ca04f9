//! What the memory index computes without touching the disk: where it
//! lives and how it recognises a file that has not changed.

use vstd::prelude::*;
use vstd::string::*;
use crate::text::{hex_string, hex_text};

verus! {

pub const MEMORY_DIR_NAME: &'static str = "memory";

pub const MARKDOWN: &'static str = "md";

/// What std's `DefaultHasher`, as `DefaultHasher::new` makes it, gives for
/// a string.
pub uninterp spec fn default_hash_of(s: Seq<char>) -> u64;

/// What `Path::join` makes of a base path and a path to add to it.
pub uninterp spec fn joined_path(base: Seq<char>, child: Seq<char>) -> Seq<char>;

/// Hashes a string with std's `DefaultHasher::new()`, which has fixed keys:
/// the result depends on the string alone.
#[verifier::external_body]
pub(crate) fn default_hash(s: &str) -> (h: u64)
    ensures
        h == default_hash_of(s@),
{
    let mut hasher = std::collections::hash_map::DefaultHasher::new();
    std::hash::Hash::hash(s, &mut hasher);
    std::hash::Hasher::finish(&hasher)
}

/// `Path::join` of std, on paths given and returned as strings.
#[verifier::external_body]
pub(crate) fn join_path(base: &str, child: &str) -> (r: String)
    ensures
        r@ == joined_path(base@, child@),
{
    std::path::Path::new(base).join(child).to_string_lossy().into_owned()
}

/// A fast hash of a file's content for change detection, not a
/// cryptographic one: sixteen hexadecimal digits.
pub fn content_hash(s: &str) -> (hash: String)
    ensures
        hash@ == hex_text(default_hash_of(s@) as nat, 16),
        hash@.len() == 16,
{
    proof {
        lemma_hex_text_len(default_hash_of(s@) as nat, 16);
    }
    hex_string(default_hash(s), 16)
}

/// Whether a file with this content is already indexed under `stored`, the
/// hash on record for its path.
pub fn is_unchanged(stored: Option<&str>, content: &str) -> (b: bool)
    ensures
        b == match stored {
            Some(h) => h@ == hex_text(default_hash_of(content@) as nat, 16),
            None => false,
        },
{
    match stored {
        Some(h) => crate::text::text_is(h, content_hash(content).as_str()),
        None => false,
    }
}

/// The memory directory below the application's home directory.
pub fn memory_dir(home: &str) -> (dir: String)
    ensures
        dir@ == joined_path(home@, MEMORY_DIR_NAME@),
{
    join_path(home, MEMORY_DIR_NAME)
}

/// `hex_text` writes exactly `width` digits.
pub proof fn lemma_hex_text_len(n: nat, width: nat)
    ensures
        hex_text(n, width).len() == width,
    decreases width,
{
    if width > 0 {
        lemma_hex_text_len(n / 16, (width - 1) as nat);
    }
}

/// What `Path::extension` gives for a path, where it is valid Unicode.
pub uninterp spec fn extension_of(path: Seq<char>) -> Option<Seq<char>>;

/// `Path::extension` of std, followed by `OsStr::to_str`: the extension
/// of the path's file name, on a path given as a string.
#[verifier::external_body]
pub(crate) fn extension(path: &str) -> (r: Option<String>)
    ensures
        crate::types::opt_text(r) == extension_of(path@),
{
    match std::path::Path::new(path).extension() {
        Some(e) => match e.to_str() {
            Some(s) => Some(s.to_owned()),
            None => None,
        },
        None => None,
    }
}

/// Whether the path names a memory log, a file with the extension `md`.
pub fn is_memory_log(path: &str) -> (b: bool)
    ensures
        b == (extension_of(path@) == Some(MARKDOWN@)),
{
    match extension(path) {
        Some(e) => crate::text::text_is(e.as_str(), MARKDOWN),
        None => false,
    }
}

/// The indexed paths to prune: those that are no longer on disk, in the
/// order of the index.
pub fn stale_paths(indexed: &Vec<String>, on_disk: &Vec<String>) -> (stale: Vec<String>)
    ensures
        crate::text::texts(stale@) == crate::text::texts_missing_from(
            crate::text::texts(indexed@),
            crate::text::texts(on_disk@),
        ),
{
    let ghost all = crate::text::texts(indexed@);
    let ghost kept = crate::text::texts(on_disk@);
    let mut stale: Vec<String> = Vec::new();
    let mut i: usize = 0;
    assert(all.take(0) =~= Seq::empty());
    assert(crate::text::texts(stale@) =~= Seq::empty());
    while i < indexed.len()
        invariant
            i <= indexed@.len(),
            all == crate::text::texts(indexed@),
            kept == crate::text::texts(on_disk@),
            crate::text::texts(stale@) == crate::text::texts_missing_from(all.take(i as int), kept),
        decreases indexed@.len() - i,
    {
        proof {
            assert(all.take(i + 1).drop_last() =~= all.take(i as int));
            assert(all.take(i + 1).last() == indexed@[i as int]@);
        }
        if !crate::text::has_text(on_disk, indexed[i].as_str()) {
            let ghost before = crate::text::texts(stale@);
            stale.push(indexed[i].clone());
            assert(crate::text::texts(stale@) =~= before.push(indexed@[i as int]@));
        }
        i += 1;
    }
    assert(all.take(indexed@.len() as int) =~= all);
    stale
}

} // verus!
