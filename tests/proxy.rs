use header_proxy::forward::{
    begin_request, finish_request, forward_outcome, respond, settle_upstream, Fetched, ForwardError,
    Step, Upstream, BAD_REQUEST, INTERNAL_SERVER_ERROR,
};
use header_proxy::response::{ProxyResponse, ResponseBody};
use header_proxy::target::target_from_header;

const MISSING_ENVELOPE: &str = r#"{"error":"Missing X-Target-URL header"}"#;

fn reply_of(step: Step) -> ProxyResponse {
    match step {
        Step::Reply(r) => r,
        Step::Fetch(url) => panic!("expected a reply, got a fetch of {}", url),
    }
}

fn fetch_of(step: Step) -> String {
    match step {
        Step::Fetch(url) => url,
        Step::Reply(r) => panic!("expected a fetch, got a reply with status {}", r.status),
    }
}

fn received(status: u16, body: &str) -> Fetched {
    Fetched::Received { status, body: body.as_bytes().to_vec() }
}

fn error_message(r: &ProxyResponse) -> String {
    match &r.body {
        ResponseBody::Error(m) => m.clone(),
        ResponseBody::Json(_) => panic!("expected an error envelope"),
    }
}

#[test]
fn test_proxy_forwarding() {
    let test_url = "https://gist.githubusercontent.com/mattes/23e64faadb5fd4b5112f379903d2572e/raw/ddbf0a56001367467f71bda64347aa881d83533c/example.json";
    let url = fetch_of(begin_request(Some(test_url.as_bytes())));
    assert_eq!(url, test_url);

    let response = finish_request(received(200, "{\n  \"hello\": \"world\"\n}\n"));
    assert!((200..300).contains(&response.status));

    let body: serde_json::Value = serde_json::from_slice(&response.body.to_bytes()).unwrap();
    assert_eq!(body["hello"], "world");
}

#[test]
fn hello_world_is_relayed() {
    let response = finish_request(received(200, r#"{"hello":"world"}"#));
    assert_eq!(response.status, 200);
    assert_eq!(response.body.to_bytes(), br#"{"hello":"world"}"#.to_vec());
}

#[test]
fn missing_header_is_bad_request() {
    let response = reply_of(begin_request(None));
    assert_eq!(response.status, 400);
    assert_eq!(response.status, BAD_REQUEST);
    assert_eq!(error_message(&response), "Missing X-Target-URL header");
    assert_eq!(response.body.to_bytes(), MISSING_ENVELOPE.as_bytes().to_vec());
}

#[test]
fn empty_header_is_bad_request() {
    let response = reply_of(begin_request(Some(b"")));
    assert_eq!(response.status, 400);
    assert_eq!(response.body.to_bytes(), MISSING_ENVELOPE.as_bytes().to_vec());
}

#[test]
fn unreadable_header_is_bad_request() {
    let bad: Vec<&[u8]> = vec![b"http://a/\xff", b"http://a/\x7f", b"\x00", "http://caf\u{e9}/".as_bytes()];
    for value in bad {
        let response = reply_of(begin_request(Some(value)));
        assert_eq!(response.status, 400);
        assert_eq!(response.body.to_bytes(), MISSING_ENVELOPE.as_bytes().to_vec());
    }
}

#[test]
fn header_text_is_kept_as_given() {
    assert_eq!(target_from_header(Some(b"http://example.com/a?b=c")), Some("http://example.com/a?b=c".to_string()));
    assert_eq!(target_from_header(Some(b"\tnot a url ")), Some("\tnot a url ".to_string()));
    assert_eq!(target_from_header(Some(b"")), None);
    assert_eq!(target_from_header(None), None);
}

#[test]
fn error_status_with_json_is_mirrored() {
    let response = finish_request(received(404, r#"{"detail": "not here"}"#));
    assert_eq!(response.status, 404);
    assert_eq!(response.body.to_bytes(), br#"{"detail": "not here"}"#.to_vec());

    let response = finish_request(received(503, "[1, 2, 3]"));
    assert_eq!(response.status, 503);
    assert_eq!(response.body.to_bytes(), b"[1, 2, 3]".to_vec());
}

#[test]
fn any_json_value_is_relayed() {
    for body in ["42", "\"text\"", "null", "true", "[]"] {
        let response = finish_request(received(201, body));
        assert_eq!(response.status, 201);
        assert_eq!(response.body.to_bytes(), body.as_bytes().to_vec());
    }
}

#[test]
fn unreachable_target_is_server_error() {
    let response = finish_request(Fetched::Unreachable("error sending request".to_string()));
    assert_eq!(response.status, 500);
    assert_eq!(response.status, INTERNAL_SERVER_ERROR);
    assert_eq!(error_message(&response), "Failed to forward request: error sending request");
    assert_eq!(
        response.body.to_bytes(),
        br#"{"error":"Failed to forward request: error sending request"}"#.to_vec()
    );
}

#[test]
fn diagnostic_is_escaped_in_envelope() {
    let response = finish_request(Fetched::Unreachable("bad \"host\"\n\\".to_string()));
    assert_eq!(response.status, 500);
    assert_eq!(
        response.body.to_bytes(),
        br#"{"error":"Failed to forward request: bad \"host\"\n\\"}"#.to_vec()
    );
    let parsed: serde_json::Value = serde_json::from_slice(&response.body.to_bytes()).unwrap();
    assert_eq!(parsed["error"], "Failed to forward request: bad \"host\"\n\\");
}

#[test]
fn non_json_success_is_server_error() {
    let response = finish_request(received(200, "hello, plain text"));
    assert_eq!(response.status, 500);
    assert_eq!(
        response.body.to_bytes(),
        br#"{"error":"Failed to forward request: error decoding response body"}"#.to_vec()
    );
}

#[test]
fn non_json_error_status_is_server_error() {
    let response = finish_request(received(404, "<html>Not Found</html>"));
    assert_eq!(response.status, 500);
    assert_eq!(error_message(&response), "Failed to forward request: error decoding response body");
}

#[test]
fn empty_body_is_not_json() {
    let response = finish_request(received(204, ""));
    assert_eq!(response.status, 500);
    assert_eq!(error_message(&response), "Failed to forward request: error decoding response body");
}

#[test]
fn invalid_status_is_dispatch_failure() {
    for status in [0u16, 99, 1000, 65535] {
        let response = finish_request(received(status, "{}"));
        assert_eq!(response.status, 500);
        assert_eq!(error_message(&response), "Failed to forward request: invalid status code");
    }
    let response = finish_request(received(100, "{}"));
    assert_eq!(response.status, 100);
    let response = finish_request(received(999, "{}"));
    assert_eq!(response.status, 999);
}

#[test]
fn settle_upstream_follows_the_json_verdict() {
    match settle_upstream(418, b"not json".to_vec(), true) {
        Ok(Upstream { status, body }) => {
            assert_eq!(status, 418);
            assert_eq!(body, b"not json".to_vec());
        },
        Err(_) => panic!("expected the answer to be relayed"),
    }
    assert!(matches!(settle_upstream(200, b"{}".to_vec(), false), Err(ForwardError::DecodeFailed)));
    match settle_upstream(5, b"{}".to_vec(), true) {
        Err(ForwardError::DispatchFailed(m)) => assert_eq!(m, "invalid status code"),
        _ => panic!("expected a dispatch failure"),
    }
}

#[test]
fn forward_outcome_checks_json() {
    assert!(forward_outcome(200, br#"{"a": [1, {"b": null}]}"#.to_vec()).is_ok());
    assert!(matches!(forward_outcome(200, br#"{"a": "#.to_vec()), Err(ForwardError::DecodeFailed)));
    assert!(matches!(forward_outcome(200, b"{} {}".to_vec()), Err(ForwardError::DecodeFailed)));
}

#[test]
fn diagnostics_of_each_failure() {
    assert_eq!(ForwardError::MissingTarget.diagnostic(), "Missing X-Target-URL header");
    assert_eq!(ForwardError::DispatchFailed("timed out".to_string()).diagnostic(), "timed out");
    assert_eq!(ForwardError::DecodeFailed.diagnostic(), "error decoding response body");
}

#[test]
fn respond_maps_each_outcome() {
    let r = respond(Err(ForwardError::MissingTarget));
    assert_eq!(r.status, 400);
    assert_eq!(r.body.to_bytes(), MISSING_ENVELOPE.as_bytes().to_vec());

    let r = respond(Err(ForwardError::DecodeFailed));
    assert_eq!(r.status, 500);
    assert_eq!(error_message(&r), "Failed to forward request: error decoding response body");

    let r = respond(Err(ForwardError::DispatchFailed("dns error".to_string())));
    assert_eq!(r.status, 500);
    assert_eq!(error_message(&r), "Failed to forward request: dns error");

    let r = respond(Ok(Upstream { status: 302, body: b"{}".to_vec() }));
    assert_eq!(r.status, 302);
    assert_eq!(r.body.to_bytes(), b"{}".to_vec());
}
