//! Tests of the response accessors, the job-id extraction and the response
//! verification that the decorating factory applies.

use retdec::connection::decimal_string;
use retdec::connection::verify_response;
use retdec::error::ApiError;
use retdec::response::job_id_from_response;
use retdec::response::ApiResponse;

#[test]
fn json_value_as_string_returns_the_field_only_when_present_and_string_typed() {
    let response = ApiResponse::new(200, br#"{"id": "ID", "count": 3}"#.to_vec());
    assert_eq!(response.json_value_as_string("id"), Some("ID".to_string()));
    assert_eq!(response.json_value_as_string("count"), None);
    assert_eq!(response.json_value_as_string("missing"), None);

    let malformed = ApiResponse::new(200, b"{not json".to_vec());
    assert_eq!(malformed.json_value_as_string("id"), None);
}

#[test]
fn json_value_as_bool_returns_the_field_only_when_present_and_boolean_typed() {
    let response = ApiResponse::new(200, br#"{"finished": true, "failed": "no"}"#.to_vec());
    assert_eq!(response.json_value_as_bool("finished"), Some(true));
    assert_eq!(response.json_value_as_bool("failed"), None);
    assert_eq!(response.json_value_as_bool("missing"), None);
}

#[test]
fn body_as_string_decodes_the_body_as_text() {
    let response = ApiResponse::new(200, b"int main() {}".to_vec());
    assert_eq!(response.body_as_string(), "int main() {}");
}

#[test]
fn succeeded_holds_exactly_for_the_two_hundreds() {
    assert!(!ApiResponse::new(199, Vec::new()).succeeded());
    assert!(ApiResponse::new(200, Vec::new()).succeeded());
    assert!(ApiResponse::new(299, Vec::new()).succeeded());
    assert!(!ApiResponse::new(300, Vec::new()).succeeded());
    assert!(!ApiResponse::new(404, Vec::new()).succeeded());
}

#[test]
fn job_id_from_response_extracts_the_id() {
    let response = ApiResponse::new(200, br#"{"id": "D42"}"#.to_vec());
    let id = job_id_from_response(&response, "https://x/api/decompiler/decompilations")
        .expect("the id should have been extracted");
    assert_eq!(id, "D42");
}

#[test]
fn job_id_from_response_names_the_url_when_the_id_is_missing() {
    let response = ApiResponse::new(200, b"{}".to_vec());
    let err = job_id_from_response(&response, "https://x/api/decompiler/decompilations")
        .err()
        .expect("expected the extraction to fail");
    assert!(matches!(err, ApiError::Protocol(_)));
    assert_eq!(
        err.message(),
        "https://x/api/decompiler/decompilations returned invalid JSON response"
    );
}

#[test]
fn verify_response_passes_a_success_response_through_unchanged() {
    let response = ApiResponse::new(200, b"body".to_vec());
    let verified = verify_response(response.clone(), "https://x/api")
        .expect("a success status should pass");
    assert_eq!(verified, response);
}

#[test]
fn verify_response_turns_a_failure_status_into_a_protocol_error() {
    let response = ApiResponse::new(404, b"".to_vec());
    let err = verify_response(response, "https://x/api")
        .err()
        .expect("a failure status should be refused");
    assert!(matches!(err, ApiError::Protocol(_)));
    assert_eq!(err.message(), "https://x/api returned HTTP status 404");
}

#[test]
fn verify_response_carries_the_remote_description_when_one_was_sent() {
    let response = ApiResponse::new(
        422,
        br#"{"description": "missing parameter"}"#.to_vec(),
    );
    let err = verify_response(response, "https://x/api")
        .err()
        .expect("a failure status should be refused");
    assert_eq!(
        err.message(),
        "https://x/api returned HTTP status 422: missing parameter"
    );
}

#[test]
fn decimal_string_formats_numbers_exactly() {
    assert_eq!(decimal_string(0), "0");
    assert_eq!(decimal_string(7), "7");
    assert_eq!(decimal_string(404), "404");
    assert_eq!(decimal_string(65535), "65535");
}
