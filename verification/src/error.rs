//! Errors raised while constructing a request.

use vstd::prelude::*;

verus! {

/// Why a builder operation failed.
///
/// Construction is all-or-nothing: a builder either returns a finished
/// request or one of these errors, never a partial result.
#[derive(Debug, Clone, PartialEq, Eq)]
pub enum ServerFnError {
    /// URL parsing or request assembly failed; carries the underlying
    /// textual cause.
    Request(String),
    /// Streaming request bodies are not implemented; no request with a
    /// streamed body can be built.
    StreamingUnimplemented,
}

} // verus!
