use vstd::prelude::*;
use crate::forward::{
    BAD_REQUEST, FetchedView, INTERNAL_SERVER_ERROR, decode_failure_text, fetched_response,
    forward_failure_prefix, is_json_text, is_success, missing_target_response, missing_target_text,
    valid_status,
};
use crate::response::{BodyView, ResponseView};
use crate::target::usable_target;

verus! {

/// A request whose header is absent, empty or unreadable is answered with
/// `400` and the envelope `{"error": "Missing X-Target-URL header"}`, and
/// nothing is fetched.
pub proof fn header_required(header: Option<Seq<u8>>)
    requires
        header is None || header->Some_0.len() == 0,
    ensures
        !(header is Some && usable_target(header->Some_0)),
        missing_target_response() == (ResponseView {
            status: BAD_REQUEST,
            body: BodyView::Error(missing_target_text()),
        }),
        BAD_REQUEST == 400,
{
}

/// A target that answers with a success status and a JSON body has that
/// status and that body relayed unchanged.
pub proof fn success_passes_through(status: u16, body: Seq<u8>)
    requires
        is_success(status),
        is_json_text(body),
    ensures
        fetched_response(FetchedView::Received { status, body }) == (ResponseView {
            status,
            body: BodyView::Json(body),
        }),
{
}

/// A target that answers with any other status and a JSON body has that
/// status and body relayed too; with a body that is not JSON, the answer is
/// `500` with the decode failure, whatever the target's status.
pub proof fn status_mirrored(status: u16, body: Seq<u8>)
    requires
        valid_status(status),
    ensures
        is_json_text(body) ==> fetched_response(FetchedView::Received { status, body }) == (ResponseView {
            status,
            body: BodyView::Json(body),
        }),
        !is_json_text(body) ==> fetched_response(FetchedView::Received { status, body }) == (ResponseView {
            status: INTERNAL_SERVER_ERROR,
            body: BodyView::Error(forward_failure_prefix() + decode_failure_text()),
        }),
{
}

/// A target that cannot be reached is answered with `500` and an envelope
/// that carries the transport's diagnostic after the fixed prefix.
pub proof fn unreachable_target(diagnostic: Seq<char>)
    ensures
        fetched_response(FetchedView::Unreachable(diagnostic)) == (ResponseView {
            status: INTERNAL_SERVER_ERROR,
            body: BodyView::Error(forward_failure_prefix() + diagnostic),
        }),
        INTERNAL_SERVER_ERROR == 500,
{
}

/// A `200` answer whose body is not JSON is answered with `500` and the
/// decode failure.
pub proof fn non_json_body_fails(body: Seq<u8>)
    requires
        !is_json_text(body),
    ensures
        fetched_response(FetchedView::Received { status: 200, body }) == (ResponseView {
            status: INTERNAL_SERVER_ERROR,
            body: BodyView::Error(forward_failure_prefix() + decode_failure_text()),
        }),
{
}

} // verus!
