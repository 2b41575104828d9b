use page_client::classify::{classify_outcome, RawOutcome};
use page_client::errors::ApiError;
use page_client::normalize::normalize_body;
use page_client::request::{
    auth_header_name, build_request, method_name, plan_request, version_header_name,
};

fn delivered(status: u16, body: &str) -> RawOutcome {
    RawOutcome::Delivered { status, body: Some(body.to_string()) }
}

#[test]
fn status_401_is_unauthorized() {
    let r = classify_outcome(delivered(401, "irrelevant"));
    assert_eq!(r.unwrap_err(), ApiError::Unauthorized);
}

#[test]
fn status_403_is_unauthorized() {
    let r = classify_outcome(delivered(403, "{\"msg\":\"forbidden\"}"));
    assert_eq!(r.unwrap_err(), ApiError::Unauthorized);
}

#[test]
fn status_404_is_not_found() {
    let r = classify_outcome(delivered(404, "gone"));
    assert_eq!(r.unwrap_err(), ApiError::NotFound);
}

#[test]
fn status_500_is_server_error() {
    let r = classify_outcome(delivered(500, ""));
    assert_eq!(r.unwrap_err(), ApiError::ServerError);
}

#[test]
fn status_503_is_server_error() {
    let r = classify_outcome(delivered(503, "try later"));
    assert_eq!(r.unwrap_err(), ApiError::ServerError);
}

#[test]
fn status_599_is_server_error() {
    let r = classify_outcome(delivered(599, "x"));
    assert_eq!(r.unwrap_err(), ApiError::ServerError);
}

#[test]
fn status_418_is_invalid_response() {
    let r = classify_outcome(delivered(418, "teapot"));
    assert_eq!(r.unwrap_err(), ApiError::InvalidResponse);
}

#[test]
fn success_statuses_with_readable_body_never_err() {
    for status in [200u16, 201, 204, 299] {
        let r = classify_outcome(delivered(status, "payload"));
        assert!(r.is_ok());
    }
}

#[test]
fn unreadable_body_on_success_status_is_invalid_response() {
    let r = classify_outcome(RawOutcome::Delivered { status: 200, body: None });
    assert_eq!(r.unwrap_err(), ApiError::InvalidResponse);
}

#[test]
fn transport_failure_is_connection_failed() {
    let r = classify_outcome(RawOutcome::TransportFailed);
    assert_eq!(r.unwrap_err(), ApiError::ConnectionFailed);
}

#[test]
fn missing_credential_short_circuits_before_any_send() {
    let mut transport_calls: usize = 0;
    let outcome = match plan_request(None, "page-1") {
        Ok(_descriptor) => {
            // A real caller would hand the descriptor to the transport here.
            transport_calls += 1;
            classify_outcome(RawOutcome::TransportFailed)
        }
        Err(e) => Err(e),
    };
    assert_eq!(transport_calls, 0);
    assert_eq!(outcome.unwrap_err(), ApiError::MissingCredential);
}

#[test]
fn present_credential_yields_descriptor() {
    let d = plan_request(Some("tok-123"), "page-9").unwrap();
    assert_eq!(d.url, "https://api.notion.com/v1/pages/page-9");
    assert_eq!(d.auth_value, "Bearer tok-123");
    assert_eq!(d.version_value, "2025-09-03");
}

#[test]
fn descriptor_fields_follow_inputs() {
    let d = build_request("275a1865-b187-807a-adea-ebaf36fb49b0", "secret");
    assert_eq!(d.url, "https://api.notion.com/v1/pages/275a1865-b187-807a-adea-ebaf36fb49b0");
    assert_eq!(d.auth_value, "Bearer secret");
    assert_eq!(d.version_value, "2025-09-03");
}

#[test]
fn fixed_protocol_names() {
    assert_eq!(method_name(), "GET");
    assert_eq!(auth_header_name(), "Authorization");
    assert_eq!(version_header_name(), "Notion-Version");
}

#[test]
fn json_body_is_pretty_printed() {
    let r = classify_outcome(delivered(200, "{\"a\":1,\"b\":[2,3]}")).unwrap();
    assert_eq!(r.data, "{\n  \"a\": 1,\n  \"b\": [\n    2,\n    3\n  ]\n}");
}

#[test]
fn pretty_printing_preserves_structure() {
    let original = "{\"a\":1,\"b\":[2,3],\"c\":{\"d\":null,\"e\":true}}";
    let r = classify_outcome(delivered(200, original)).unwrap();
    let before: serde_json::Value = serde_json::from_str(original).unwrap();
    let after: serde_json::Value = serde_json::from_str(&r.data).unwrap();
    assert_eq!(before, after);
    assert_ne!(r.data, original);
}

#[test]
fn non_json_body_passes_through_unchanged() {
    let r = classify_outcome(delivered(200, "hello world")).unwrap();
    assert_eq!(r.data, "hello world");
}

#[test]
fn truncated_json_falls_back_to_raw_text() {
    let n = normalize_body("{\"a\":1".to_string());
    assert_eq!(n.data, "{\"a\":1");
}

#[test]
fn empty_body_passes_through_unchanged() {
    let n = normalize_body(String::new());
    assert_eq!(n.data, "");
}

#[test]
fn normalize_reindents_compact_json() {
    let n = normalize_body("[1,2]".to_string());
    assert_eq!(n.data, "[\n  1,\n  2\n]");
}

#[test]
fn error_messages_name_each_variant() {
    assert_eq!(ApiError::MissingCredential.message(), "credential is not set");
    assert_eq!(ApiError::ConnectionFailed.message(), "failed to send HTTP request");
    assert_eq!(ApiError::Unauthorized.message(), "unauthorized");
    assert_eq!(ApiError::NotFound.message(), "not found");
    assert_eq!(ApiError::ServerError.message(), "server error");
    assert_eq!(ApiError::InvalidResponse.message(), "request failed");
}
