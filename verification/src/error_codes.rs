//! JSON-RPC error codes: the protocol's reserved range, and below it the
//! codes of this domain.

use vstd::prelude::*;

verus! {

/// The request is not a valid JSON-RPC 2.0 request.
pub const INVALID_REQUEST: i32 = -32600;

/// The method is not known.
pub const METHOD_NOT_FOUND: i32 = -32601;

/// The parameters do not fit the method.
pub const INVALID_PARAMS: i32 = -32602;

/// No task has the given identifier.
pub const TASK_NOT_FOUND: i32 = -32001;

/// The operation cannot be applied in the task's state.
pub const UNSUPPORTED_OPERATION: i32 = -32004;

} // verus!
