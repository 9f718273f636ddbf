//! A small client library for a chat-completion HTTP API.
//!
//! The library holds everything about the exchange that can be stated and
//! proved: the data model of requests and responses, the serialization of a
//! request body to JSON text, the parsing and validation of a response body,
//! and the classification of per-call failures. The surrounding program is
//! expected to do the actual I/O (reading lines, sending the HTTP request)
//! and hand the library plain strings and status codes.

use vstd::prelude::*;

pub mod error;
pub mod exchange;
pub mod json;
pub mod model;
pub mod request;
pub mod response;
pub mod text;

use crate::error::RequestError;

verus! {

/// An opaque bearer token authenticating calls to the remote API.
pub struct Credential {
    token: String,
}

impl Credential {
    /// The token text.
    pub closed spec fn view(&self) -> Seq<char> {
        self.token@
    }

    /// A credential is usable only if its token is non-empty.
    pub open spec fn wf(&self) -> bool {
        self@.len() > 0
    }

    /// Builds the process-wide credential from the value of the environment
    /// variable, read once at startup. Absence of the variable, or an empty
    /// token, is a fatal configuration error: no credential is produced and
    /// nothing is ever sent.
    pub fn from_env_value(value: Option<String>) -> (r: Result<Credential, RequestError>)
        ensures
            match value {
                Some(s) => if s@.len() > 0 {
                    r matches Ok(c) && c@ == s@ && c.wf()
                } else {
                    r matches Err(RequestError::Configuration)
                },
                None => r matches Err(RequestError::Configuration),
            },
    {
        match value {
            Some(s) => {
                if s.as_str().unicode_len() > 0 {
                    Ok(Credential { token: s })
                } else {
                    Err(RequestError::Configuration)
                }
            },
            None => Err(RequestError::Configuration),
        }
    }

    /// The token itself, for building the authorization header.
    pub fn token(&self) -> (r: &String)
        ensures
            r@ == self@,
    {
        &self.token
    }
}

} // verus!
