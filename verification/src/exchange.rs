//! One request/response exchange, seen from the library's side: what to
//! send, and what to make of what came back. The caller performs the actual
//! transport between the two halves and reports its outcome as a
//! [`TransportEvent`].

use vstd::prelude::*;
use crate::error::RequestError;
use crate::model::{ApiResponse, ChatMessageV, RequestBodyV};
use crate::request::{body_json, build_request_body, render_request_body, spec_default_model};
use crate::response::{decode_response, parse_response};
use crate::text::spec_trim_line;
use crate::text::trim_line;
use crate::Credential;

verus! {

/// The fixed endpoint every request is sent to.
pub open spec fn spec_endpoint_url() -> Seq<char> {
    "https://api.openai.com/v1/chat/completions"@
}

/// The fixed endpoint every request is sent to.
pub fn endpoint_url() -> (r: String)
    ensures
        r@ == spec_endpoint_url(),
{
    String::from_str("https://api.openai.com/v1/chat/completions")
}

/// The value of the `Authorization` header for a given token.
pub open spec fn spec_auth_header(token: Seq<char>) -> Seq<char> {
    "Bearer "@ + token
}

/// The value of the `Authorization` header carrying the credential.
pub fn auth_header_value(cred: &Credential) -> (r: String)
    ensures
        r@ == spec_auth_header(cred@),
{
    let mut s = String::from_str("Bearer ");
    s.append(cred.token().as_str());
    s
}

/// The request body sent for one question: the fixed model identifier and
/// a single user message holding the question.
pub open spec fn question_body(q: Seq<char>) -> RequestBodyV {
    RequestBodyV {
        model: spec_default_model(),
        messages: seq![ChatMessageV { role: "user"@, content: q }],
    }
}

/// Everything the transport needs to issue one HTTPS POST: the endpoint,
/// the authorization header value, and the JSON payload.
pub struct PreparedRequest {
    pub url: String,
    pub auth_header: String,
    pub body_text: String,
}

impl PreparedRequest {
    /// What a correctly prepared request for one trimmed question looks
    /// like.
    pub open spec fn is_for(&self, question: Seq<char>, cred: Seq<char>) -> bool {
        &&& self.url@ == spec_endpoint_url()
        &&& self.auth_header@ == spec_auth_header(cred)
        &&& self.body_text@ == body_json(question_body(question))
    }
}

/// Builds the one HTTPS POST for a question string, which may be empty.
pub fn prepare_request(question: String, cred: &Credential) -> (p: PreparedRequest)
    ensures
        p.is_for(question@, cred@),
{
    let body = build_request_body(question);
    proof {
        assert(body@.messages =~= question_body(body@.messages[0].content).messages);
    }
    let body_text = render_request_body(&body);
    PreparedRequest { url: endpoint_url(), auth_header: auth_header_value(cred), body_text }
}

/// Builds the one HTTPS POST for a raw line of input, trimming its line
/// terminator first: the payload carries exactly one message, whose content
/// is the trimmed line.
pub fn prepare_from_line(line: &str, cred: &Credential) -> (p: PreparedRequest)
    ensures
        p.is_for(spec_trim_line(line@), cred@),
{
    prepare_request(trim_line(line), cred)
}

/// How the transport reported one issued request.
#[derive(Debug)]
pub enum TransportEvent {
    /// The request never completed; the detail text describes why.
    Failed { detail: String },
    /// The server answered with this status and body.
    Responded { status: u16, body: String },
}

/// An HTTP status that counts as success.
pub open spec fn is_success_status(status: u16) -> bool {
    200 <= status < 300
}

/// Turns the transport's outcome into the result of the call: a transport
/// failure becomes [`RequestError::Transport`], a non-success status
/// [`RequestError::Protocol`], an unparseable or inconsistent body
/// [`RequestError::Decoding`], and a well-formed body the parsed response.
pub fn evaluate_outcome(ev: TransportEvent) -> (r: Result<ApiResponse, RequestError>)
    ensures
        match ev {
            TransportEvent::Failed { detail } => (r matches Err(RequestError::Transport {
                detail: d,
            }) && d@ == detail@),
            TransportEvent::Responded { status, body } => {
                if !is_success_status(status) {
                    r matches Err(RequestError::Protocol { status: st }) && st == status
                } else {
                    match parse_response(body@) {
                        Some(a) => r matches Ok(resp) && resp@ == a && resp@.wf(),
                        None => r matches Err(RequestError::Decoding),
                    }
                }
            },
        },
{
    match ev {
        TransportEvent::Failed { detail } => Err(RequestError::Transport { detail }),
        TransportEvent::Responded { status, body } => {
            if status < 200 || status >= 300 {
                Err(RequestError::Protocol { status })
            } else {
                match decode_response(body.as_str()) {
                    Some(resp) => Ok(resp),
                    None => Err(RequestError::Decoding),
                }
            }
        },
    }
}

} // verus!
