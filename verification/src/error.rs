//! The error taxonomy of the client. Only the configuration error is fatal,
//! and only at startup; every other kind is reported for one call and the
//! console loop goes on.

use vstd::prelude::*;

verus! {

/// Why a call (or startup) failed.
#[derive(Debug, Clone, PartialEq, Eq)]
pub enum RequestError {
    /// The required credential is absent from the environment, or empty.
    /// Fatal, and raised only at startup.
    Configuration,
    /// The request never completed: connection refused, TLS failure,
    /// timeout. The detail text comes from the transport.
    Transport { detail: String },
    /// The remote API answered with a non-success HTTP status.
    Protocol { status: u16 },
    /// The response body is not canonical JSON of the expected shape, or
    /// its token accounting does not add up.
    Decoding,
}

impl RequestError {
    /// Whether the console loop goes on after this error. Every per-call
    /// failure is recoverable: it is reported and the loop re-prompts. Only
    /// the startup configuration error is fatal.
    pub fn is_recoverable(&self) -> (r: bool)
        ensures
            r == !(self is Configuration),
    {
        match self {
            RequestError::Configuration => false,
            RequestError::Transport { .. } => true,
            RequestError::Protocol { .. } => true,
            RequestError::Decoding => true,
        }
    }
}

} // verus!
