use vstd::prelude::*;
use crate::text::join;

verus! {

/// Failures surfaced to the request layer.
#[derive(Debug)]
pub enum ServerError {
    KasmError(String),
    AgentError(String),
    WebSocketError(String),
    TaskNotFound(String),
    InvalidRequest(String),
    Internal(String),
}

/// The HTTP status code that reports an error.
pub open spec fn error_status(e: ServerError) -> u16 {
    match e {
        ServerError::KasmError(_) => 502,
        ServerError::TaskNotFound(_) => 404,
        ServerError::InvalidRequest(_) => 400,
        _ => 500,
    }
}

/// The text an error carries.
pub open spec fn error_detail(e: ServerError) -> Seq<char> {
    match e {
        ServerError::KasmError(m) => m@,
        ServerError::AgentError(m) => m@,
        ServerError::WebSocketError(m) => m@,
        ServerError::TaskNotFound(m) => m@,
        ServerError::InvalidRequest(m) => m@,
        ServerError::Internal(m) => m@,
    }
}

/// The one-line description of an error: its kind, then its text.
pub open spec fn error_description(e: ServerError) -> Seq<char> {
    match e {
        ServerError::KasmError(m) => "Kasm API error: "@ + m@,
        ServerError::AgentError(m) => "Agent execution error: "@ + m@,
        ServerError::WebSocketError(m) => "WebSocket error: "@ + m@,
        ServerError::TaskNotFound(m) => "Task not found: "@ + m@,
        ServerError::InvalidRequest(m) => "Invalid request: "@ + m@,
        ServerError::Internal(m) => "Internal server error: "@ + m@,
    }
}

impl ServerError {
    pub fn status_code(&self) -> (r: u16)
        ensures
            r == error_status(*self),
    {
        match self {
            ServerError::KasmError(_) => 502,
            ServerError::TaskNotFound(_) => 404,
            ServerError::InvalidRequest(_) => 400,
            _ => 500,
        }
    }

    pub fn detail(&self) -> (r: String)
        ensures
            r@ == error_detail(*self),
    {
        match self {
            ServerError::KasmError(m) => m.clone(),
            ServerError::AgentError(m) => m.clone(),
            ServerError::WebSocketError(m) => m.clone(),
            ServerError::TaskNotFound(m) => m.clone(),
            ServerError::InvalidRequest(m) => m.clone(),
            ServerError::Internal(m) => m.clone(),
        }
    }

    pub fn describe(&self) -> (r: String)
        ensures
            r@ == error_description(*self),
    {
        match self {
            ServerError::KasmError(m) => join("Kasm API error: ", m.as_str()),
            ServerError::AgentError(m) => join("Agent execution error: ", m.as_str()),
            ServerError::WebSocketError(m) => join("WebSocket error: ", m.as_str()),
            ServerError::TaskNotFound(m) => join("Task not found: ", m.as_str()),
            ServerError::InvalidRequest(m) => join("Invalid request: ", m.as_str()),
            ServerError::Internal(m) => join("Internal server error: ", m.as_str()),
        }
    }
}

} // verus!
