//! The error type of the library and the JSON-RPC codes its variants map to.

use crate::json::serde_error_text;
use std::fmt::Write;
use vstd::prelude::*;
use vstd::std_specs::convert::FromSpecImpl;
use vstd::string::*;

verus! {

#[verifier::external_type_specification]
#[verifier::external_body]
pub struct ExIoError(std::io::Error);

#[verifier::external_type_specification]
#[verifier::external_body]
pub struct ExJoinError(tokio::task::JoinError);

/// An error of the protocol layer. Each variant carries a detail and maps to a
/// JSON-RPC error code.
#[derive(Debug)]
pub enum McpError {
    Parse(serde_json::Error),
    MethodNotFound(String),
    InvalidParams(String),
    Internal(String),
    ToolNotFound(String),
    ResourceNotFound(String),
    PromptNotFound(String),
    Transport(String),
}

pub type McpResult<T> = Result<T, McpError>;

impl McpError {
    /// The JSON-RPC error code of the variant.
    pub open spec fn code_spec(&self) -> int {
        match self {
            McpError::Parse(_) => -32700,
            McpError::MethodNotFound(_) => -32601,
            McpError::InvalidParams(_) => -32602,
            McpError::Internal(_) => -32603,
            McpError::ToolNotFound(_) => -32601,
            McpError::ResourceNotFound(_) => -32002,
            McpError::PromptNotFound(_) => -32002,
            McpError::Transport(_) => -32000,
        }
    }

    /// The text that opens the message of the variant.
    pub open spec fn message_prefix(&self) -> Seq<char> {
        match self {
            McpError::Parse(_) => "JSON-RPC parse error: "@,
            McpError::MethodNotFound(_) => "Method not found: "@,
            McpError::InvalidParams(_) => "Invalid params: "@,
            McpError::Internal(_) => "Internal error: "@,
            McpError::ToolNotFound(_) => "Tool not found: "@,
            McpError::ResourceNotFound(_) => "Resource not found: "@,
            McpError::PromptNotFound(_) => "Prompt not found: "@,
            McpError::Transport(_) => "Transport error: "@,
        }
    }

    /// The text that a variant carries; a parse error carries a `serde_json` error
    /// instead, whose message is not modelled.
    pub open spec fn detail(&self) -> Option<Seq<char>> {
        match self {
            McpError::Parse(_) => None,
            McpError::MethodNotFound(s) => Some(s@),
            McpError::InvalidParams(s) => Some(s@),
            McpError::Internal(s) => Some(s@),
            McpError::ToolNotFound(s) => Some(s@),
            McpError::ResourceNotFound(s) => Some(s@),
            McpError::PromptNotFound(s) => Some(s@),
            McpError::Transport(s) => Some(s@),
        }
    }

    /// The JSON-RPC error code that answers this error.
    pub fn code(&self) -> (c: i32)
        ensures
            c == self.code_spec(),
    {
        match self {
            McpError::Parse(_) => -32700,
            McpError::MethodNotFound(_) => -32601,
            McpError::InvalidParams(_) => -32602,
            McpError::Internal(_) => -32603,
            McpError::ToolNotFound(_) => -32601,
            McpError::ResourceNotFound(_) => -32002,
            McpError::PromptNotFound(_) => -32002,
            McpError::Transport(_) => -32000,
        }
    }

    /// The human-readable message of the error: the variant's prefix followed by its
    /// detail (for a parse error, by the `serde_json` error's own message).
    pub fn to_string(&self) -> (s: String)
        ensures
            self.message_prefix().is_prefix_of(s@),
            self.detail() matches Some(d) ==> s@ == self.message_prefix() + d,
    {
        let (prefix, detail): (&str, String) = match self {
            McpError::Parse(e) => ("JSON-RPC parse error: ", serde_error_text(e)),
            McpError::MethodNotFound(d) => ("Method not found: ", d.clone()),
            McpError::InvalidParams(d) => ("Invalid params: ", d.clone()),
            McpError::Internal(d) => ("Internal error: ", d.clone()),
            McpError::ToolNotFound(d) => ("Tool not found: ", d.clone()),
            McpError::ResourceNotFound(d) => ("Resource not found: ", d.clone()),
            McpError::PromptNotFound(d) => ("Prompt not found: ", d.clone()),
            McpError::Transport(d) => ("Transport error: ", d.clone()),
        };
        let s = String::from_str(prefix).concat(detail.as_str());
        assert(s@.subrange(0, self.message_prefix().len() as int) =~= self.message_prefix());
        s
    }
}

impl From<serde_json::Error> for McpError {
    fn from(e: serde_json::Error) -> (r: Self)
        ensures
            r == McpError::Parse(e),
    {
        McpError::Parse(e)
    }
}

impl FromSpecImpl<serde_json::Error> for McpError {
    open spec fn obeys_from_spec() -> bool {
        true
    }

    open spec fn from_spec(v: serde_json::Error) -> Self {
        McpError::Parse(v)
    }
}

/// The message of an I/O error.
///
/// Writes `std::io::Error`'s `Display` into a string, keeping what was written should
/// the formatting fail; nothing about the text is stated (for an operating-system
/// error it comes from the system).
#[verifier::external_body]
fn io_error_text(e: &std::io::Error) -> (r: String) {
    let mut s = String::new();
    let _ = write!(s, "{}", e);
    s
}

/// The message that `tokio::task::JoinError`'s `Display` writes for the error.
pub uninterp spec fn join_error_message(e: tokio::task::JoinError) -> Seq<char>;

/// The message of a failed task.
///
/// Calls `tokio::task::JoinError`'s `Display` (which writes the task's identifier and
/// whether it was cancelled or panicked, with the panic's message); the contract names
/// the text as a function of the error.
#[verifier::external_body]
pub(crate) fn join_error_text(e: &tokio::task::JoinError) -> (r: String)
    ensures
        r@ == join_error_message(*e),
{
    e.to_string()
}

impl From<std::io::Error> for McpError {
    fn from(e: std::io::Error) -> (r: Self)
        ensures
            r is Transport,
    {
        McpError::Transport(io_error_text(&e))
    }
}

impl FromSpecImpl<std::io::Error> for McpError {
    open spec fn obeys_from_spec() -> bool {
        false
    }

    open spec fn from_spec(v: std::io::Error) -> Self {
        vstd::pervasive::arbitrary()
    }
}

impl From<tokio::task::JoinError> for McpError {
    fn from(e: tokio::task::JoinError) -> (r: Self)
        ensures
            r matches McpError::Internal(m) && m@ == join_error_message(e),
    {
        McpError::Internal(join_error_text(&e))
    }
}

impl FromSpecImpl<tokio::task::JoinError> for McpError {
    open spec fn obeys_from_spec() -> bool {
        false
    }

    open spec fn from_spec(v: tokio::task::JoinError) -> Self {
        vstd::pervasive::arbitrary()
    }
}

} // verus!
