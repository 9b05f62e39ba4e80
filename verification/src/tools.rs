//! MCP tool implementations for the Synapse server: what each tool is called,
//! which storage keys it touches, how it shapes its results and how its
//! failures are reported.
//!
//! The tools are registered with an MCP router and dispatched by the runtime
//! around this library, which performs the Redis and NATS I/O.

pub mod context;
pub mod tasks;

use vstd::prelude::*;

verus! {

/// How a tool failure is reported to the MCP client.
#[derive(Debug, Clone, Copy, PartialEq, Eq, Structural)]
pub enum ToolErrorKind {
    /// The request itself was wrong (`invalid_params`).
    InvalidParams,
    /// The server could not carry out a valid request (`internal_error`).
    Internal,
}

/// A tool failure: its kind and the message handed to the MCP client.
#[derive(Debug, Clone)]
pub struct ToolFailure {
    /// How the failure is reported.
    pub kind: ToolErrorKind,
    /// The human-readable message.
    pub message: String,
}

impl ToolFailure {
    /// A failure of the given kind whose message is `prefix` followed by `detail`.
    pub fn with_detail(kind: ToolErrorKind, prefix: &str, detail: &str) -> (failure: ToolFailure)
        ensures
            failure.kind == kind,
            failure.message@ == prefix@ + detail@,
    {
        let mut message = String::from_str(prefix);
        message.append(detail);
        ToolFailure { kind, message }
    }
}

} // verus!
