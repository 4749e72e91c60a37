//! The control API: authentication, messages, routing and framing.

pub mod auth;
pub mod handler;
pub mod protocol;
pub mod server;
pub mod transport;

use crate::text::{concat2, dec, u64_to_string};
use vstd::prelude::*;

verus! {

/// Maximum requests to process per frame (bounded loop).
pub const MAX_REQUESTS_PER_FRAME: usize = 10;

/// API error types.
#[derive(Debug)]
pub enum ApiError {
    /// Transport/IO error (the I/O error's text).
    Transport(String),
    /// Protocol/parsing error.
    Protocol(String),
    /// JSON serialization error (the JSON error's text).
    Json(String),
    /// Method not found.
    MethodNotFound(String),
    /// Invalid parameters.
    InvalidParams(String),
    /// Internal error.
    Internal(String),
    /// No active terminal.
    NoActiveTerminal,
    /// No active editor.
    NoActiveEditor,
    /// Tab not found.
    TabNotFound(usize),
    /// File not found.
    FileNotFound(String),
    /// Channel send error.
    ChannelSend,
    /// Channel receive error.
    ChannelRecv,
}

/// The text each error displays.
pub open spec fn api_error_text(e: ApiError) -> Seq<char> {
    match e {
        ApiError::Transport(m) => "Transport error: "@ + m@,
        ApiError::Protocol(m) => "Protocol error: "@ + m@,
        ApiError::Json(m) => "JSON error: "@ + m@,
        ApiError::MethodNotFound(m) => "Method not found: "@ + m@,
        ApiError::InvalidParams(m) => "Invalid params: "@ + m@,
        ApiError::Internal(m) => "Internal error: "@ + m@,
        ApiError::NoActiveTerminal => "No active terminal"@,
        ApiError::NoActiveEditor => "No active editor"@,
        ApiError::TabNotFound(i) => "Tab not found: "@ + dec(i as nat),
        ApiError::FileNotFound(m) => "File not found: "@ + m@,
        ApiError::ChannelSend => "Channel send error"@,
        ApiError::ChannelRecv => "Channel receive error"@,
    }
}

impl ApiError {
    /// The message this error displays.
    pub fn message(&self) -> (r: String)
        ensures
            r@ == api_error_text(*self),
    {
        match self {
            ApiError::Transport(m) => concat2("Transport error: ", m.as_str()),
            ApiError::Protocol(m) => concat2("Protocol error: ", m.as_str()),
            ApiError::Json(m) => concat2("JSON error: ", m.as_str()),
            ApiError::MethodNotFound(m) => concat2("Method not found: ", m.as_str()),
            ApiError::InvalidParams(m) => concat2("Invalid params: ", m.as_str()),
            ApiError::Internal(m) => concat2("Internal error: ", m.as_str()),
            ApiError::NoActiveTerminal => "No active terminal".to_owned(),
            ApiError::NoActiveEditor => "No active editor".to_owned(),
            ApiError::TabNotFound(i) => {
                let n = u64_to_string(*i as u64);
                concat2("Tab not found: ", n.as_str())
            },
            ApiError::FileNotFound(m) => concat2("File not found: ", m.as_str()),
            ApiError::ChannelSend => "Channel send error".to_owned(),
            ApiError::ChannelRecv => "Channel receive error".to_owned(),
        }
    }

    /// Converts error to JSON-RPC error code: parse errors -32700, unknown
    /// method -32601, bad parameters -32602, internal -32603, and -32000 for
    /// everything else.
    pub fn to_error_code(&self) -> (r: i32)
        ensures
            r == (match *self {
                ApiError::Protocol(_) | ApiError::Json(_) => -32700i32,
                ApiError::MethodNotFound(_) => -32601i32,
                ApiError::InvalidParams(_) => -32602i32,
                ApiError::Internal(_) => -32603i32,
                _ => -32000i32,
            }),
    {
        match self {
            ApiError::Protocol(_) | ApiError::Json(_) => -32700,
            ApiError::MethodNotFound(_) => -32601,
            ApiError::InvalidParams(_) => -32602,
            ApiError::Internal(_) => -32603,
            _ => -32000,
        }
    }
}

} // verus!
