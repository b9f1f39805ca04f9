//! Agent-to-agent protocol engine: a JSON-RPC task registry and a
//! multi-round, consensus-driven debate orchestrator.

pub mod agent_card;
pub mod ambient;
pub mod boundary;
pub mod confidence;
pub mod consensus;
pub mod debate;
pub mod error_codes;
pub mod handler;
pub mod memory;
pub mod pricing;
pub mod provider;
pub mod report;
pub mod search;
pub mod server;
pub mod sessions;
pub mod text;
pub mod types;
pub mod words;

use vstd::prelude::*;

verus! {

/// The version of this library.
pub const VERSION: &'static str = "0.1.0";

} // verus!
