use vstd::prelude::*;
use vstd::string::*;
use crate::response::{BodyView, ProxyResponse, ResponseBody, ResponseView, error_response};
use crate::target::{target_chars, target_from_header, usable_target};

verus! {

/// The status of the response to a request without a usable target.
pub const BAD_REQUEST: u16 = 400;

/// The status of the response to a request that could not be forwarded.
pub const INTERNAL_SERVER_ERROR: u16 = 500;

/// The message of the envelope sent when no target was given.
pub open spec fn missing_target_text() -> Seq<char> {
    "Missing X-Target-URL header"@
}

/// What stands before the diagnostic in the envelope of a failed forward.
pub open spec fn forward_failure_prefix() -> Seq<char> {
    "Failed to forward request: "@
}

/// The diagnostic of a status code that is not one.
pub open spec fn invalid_status_text() -> Seq<char> {
    "invalid status code"@
}

/// The diagnostic of a body that is not JSON.
pub open spec fn decode_failure_text() -> Seq<char> {
    "error decoding response body"@
}

/// A status code that the HTTP layer can carry: three decimal digits.
pub open spec fn valid_status(status: u16) -> bool {
    100 <= status <= 999
}

/// A status code of the success class.
pub open spec fn is_success(status: u16) -> bool {
    200 <= status <= 299
}

/// Whether `serde_json` reads the bytes as one JSON value.
pub uninterp spec fn is_json_text(bytes: Seq<u8>) -> bool;

/// Relies on `serde_json::from_slice`: whether it reads the bytes as a JSON
/// value, which depends on the bytes alone.
#[verifier::external_body]
fn parses_as_json(bytes: &[u8]) -> (r: bool)
    ensures
        r == is_json_text(bytes@),
{
    serde_json::from_slice::<serde_json::Value>(bytes).is_ok()
}

/// Why a request got no relayed response.
pub enum ForwardError {
    /// The request named no usable target.
    MissingTarget,
    /// The outbound call could not be completed; the transport's diagnostic.
    DispatchFailed(String),
    /// The target's body is not JSON.
    DecodeFailed,
}

/// A response of the target, as relayed: its status and its JSON body.
pub struct Upstream {
    pub status: u16,
    pub body: Vec<u8>,
}

/// What the transport brought back from the target.
pub enum Fetched {
    /// No response came; the transport's diagnostic.
    Unreachable(String),
    /// A response came, with this status and body.
    Received { status: u16, body: Vec<u8> },
}

/// The model of what the transport brought back.
pub enum FetchedView {
    Unreachable(Seq<char>),
    Received { status: u16, body: Seq<u8> },
}

impl View for Fetched {
    type V = FetchedView;

    open spec fn view(&self) -> FetchedView {
        match self {
            Fetched::Unreachable(message) => FetchedView::Unreachable(message@),
            Fetched::Received { status, body } => FetchedView::Received {
                status: *status,
                body: body@,
            },
        }
    }
}

/// The text that a failure reports.
pub open spec fn diagnostic_of(e: ForwardError) -> Seq<char> {
    match e {
        ForwardError::MissingTarget => missing_target_text(),
        ForwardError::DispatchFailed(message) => message@,
        ForwardError::DecodeFailed => decode_failure_text(),
    }
}

impl ForwardError {
    /// The text that this failure reports.
    pub fn diagnostic(&self) -> (r: String)
        ensures
            r@ == diagnostic_of(*self),
    {
        match self {
            ForwardError::MissingTarget => String::from_str("Missing X-Target-URL header"),
            ForwardError::DispatchFailed(message) => message.clone(),
            ForwardError::DecodeFailed => String::from_str("error decoding response body"),
        }
    }
}

/// The response sent for a request that named no usable target.
pub open spec fn missing_target_response() -> ResponseView {
    error_response(BAD_REQUEST, missing_target_text())
}

/// The response sent when forwarding failed with this diagnostic.
pub open spec fn forward_failure_response(diagnostic: Seq<char>) -> ResponseView {
    error_response(INTERNAL_SERVER_ERROR, forward_failure_prefix() + diagnostic)
}

/// The response that a forwarding outcome turns into.
pub open spec fn outcome_response(outcome: Result<Upstream, ForwardError>) -> ResponseView {
    match outcome {
        Ok(upstream) => ResponseView { status: upstream.status, body: BodyView::Json(upstream.body@) },
        Err(ForwardError::MissingTarget) => missing_target_response(),
        Err(e) => forward_failure_response(diagnostic_of(e)),
    }
}

/// The response to a target's answer, given whether its body is JSON.
pub open spec fn upstream_response(status: u16, body: Seq<u8>, body_is_json: bool) -> ResponseView {
    if !valid_status(status) {
        forward_failure_response(invalid_status_text())
    } else if !body_is_json {
        forward_failure_response(decode_failure_text())
    } else {
        ResponseView { status, body: BodyView::Json(body) }
    }
}

/// The response to what the transport brought back.
pub open spec fn fetched_response(fetched: FetchedView) -> ResponseView {
    match fetched {
        FetchedView::Unreachable(message) => forward_failure_response(message),
        FetchedView::Received { status, body } => upstream_response(status, body, is_json_text(body)),
    }
}

/// Judges a target's answer, given whether its body is JSON: the status must
/// be a valid status code, then the body must be JSON.
pub fn settle_upstream(status: u16, body: Vec<u8>, body_is_json: bool) -> (r: Result<Upstream, ForwardError>)
    ensures
        !valid_status(status) ==> (r matches Err(ForwardError::DispatchFailed(m))
            && m@ == invalid_status_text()),
        valid_status(status) && !body_is_json ==> r matches Err(ForwardError::DecodeFailed),
        r is Ok <==> valid_status(status) && body_is_json,
        r is Ok ==> r->Ok_0.status == status && r->Ok_0.body@ == body@,
        outcome_response(r) == upstream_response(status, body@, body_is_json),
{
    if status < 100 || status > 999 {
        Err(ForwardError::DispatchFailed(String::from_str("invalid status code")))
    } else if !body_is_json {
        Err(ForwardError::DecodeFailed)
    } else {
        Ok(Upstream { status, body })
    }
}

/// Judges a target's answer: the status must be a valid status code, then
/// the body must be JSON.
pub fn forward_outcome(status: u16, body: Vec<u8>) -> (r: Result<Upstream, ForwardError>)
    ensures
        !valid_status(status) ==> (r matches Err(ForwardError::DispatchFailed(m))
            && m@ == invalid_status_text()),
        valid_status(status) && !is_json_text(body@) ==> r matches Err(ForwardError::DecodeFailed),
        r is Ok <==> valid_status(status) && is_json_text(body@),
        r is Ok ==> r->Ok_0.status == status && r->Ok_0.body@ == body@,
        outcome_response(r) == upstream_response(status, body@, is_json_text(body@)),
{
    let body_is_json = parses_as_json(body.as_slice());
    settle_upstream(status, body, body_is_json)
}

/// Turns a forwarding outcome into the response for the caller: the target's
/// status and body, or an error envelope.
pub fn respond(outcome: Result<Upstream, ForwardError>) -> (r: ProxyResponse)
    ensures
        r@ == outcome_response(outcome),
{
    match outcome {
        Ok(upstream) => ProxyResponse { status: upstream.status, body: ResponseBody::Json(upstream.body) },
        Err(ForwardError::MissingTarget) => ProxyResponse {
            status: BAD_REQUEST,
            body: ResponseBody::Error(String::from_str("Missing X-Target-URL header")),
        },
        Err(e) => {
            let diagnostic = e.diagnostic();
            let message = String::from_str("Failed to forward request: ").concat(diagnostic.as_str());
            ProxyResponse { status: INTERNAL_SERVER_ERROR, body: ResponseBody::Error(message) }
        },
    }
}

/// What to do with an incoming request: answer at once, or fetch the target.
pub enum Step {
    Reply(ProxyResponse),
    Fetch(String),
}

/// Reads the target from the value of the `X-Target-URL` header. Without a
/// usable one the request is answered with `400` at once; else the target is
/// to be fetched.
pub fn begin_request(header: Option<&[u8]>) -> (r: Step)
    ensures
        r is Fetch <==> (header is Some && usable_target(header->Some_0@)),
        r is Fetch ==> r->Fetch_0@ == target_chars(header->Some_0@),
        r is Reply ==> r->Reply_0@ == missing_target_response(),
{
    match target_from_header(header) {
        Some(url) => Step::Fetch(url),
        None => Step::Reply(respond(Err(ForwardError::MissingTarget))),
    }
}

/// The response to what the transport brought back from the target.
pub fn finish_request(fetched: Fetched) -> (r: ProxyResponse)
    ensures
        r@ == fetched_response(fetched@),
{
    match fetched {
        Fetched::Unreachable(message) => respond(Err(ForwardError::DispatchFailed(message))),
        Fetched::Received { status, body } => respond(forward_outcome(status, body)),
    }
}

} // verus!
