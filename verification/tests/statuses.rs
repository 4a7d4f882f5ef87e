//! Tests of status parsing and of the polling decision.

use retdec::error::ApiError;
use retdec::response::ApiResponse;
use retdec::status::parse_job_status;
use retdec::status::status_outcome;
use retdec::status::JobStatus;

#[test]
fn parse_job_status_reads_both_booleans_and_the_optional_reason() {
    let response = ApiResponse::new(
        200,
        br#"{"finished": true, "failed": true, "error": "bad input"}"#.to_vec(),
    );
    let status = parse_job_status(&response, "https://x/status")
        .expect("the status should have parsed");
    assert_eq!(
        status,
        JobStatus { finished: true, failed: true, error: Some("bad input".to_string()) }
    );
}

#[test]
fn parse_job_status_accepts_a_body_without_a_reason() {
    let response = ApiResponse::new(200, br#"{"finished": false, "failed": false}"#.to_vec());
    let status = parse_job_status(&response, "https://x/status")
        .expect("the status should have parsed");
    assert_eq!(status, JobStatus { finished: false, failed: false, error: None });
}

#[test]
fn parse_job_status_rejects_a_body_missing_a_boolean_field() {
    let response = ApiResponse::new(200, br#"{"finished": true}"#.to_vec());
    let err = parse_job_status(&response, "https://x/status")
        .err()
        .expect("expected the parse to fail");
    assert!(matches!(err, ApiError::Protocol(_)));
    assert_eq!(err.message(), "https://x/status returned invalid JSON response");
}

#[test]
fn status_outcome_keeps_waiting_while_the_job_runs() {
    let status = JobStatus { finished: false, failed: false, error: None };
    assert!(status_outcome(status).is_none());
}

#[test]
fn status_outcome_succeeds_on_a_successful_terminal_state() {
    let status = JobStatus { finished: true, failed: false, error: None };
    let outcome = status_outcome(status).expect("a terminal state decides");
    assert!(outcome.is_ok());
}

#[test]
fn status_outcome_reports_the_remote_reason_on_failure() {
    let status = JobStatus {
        finished: true,
        failed: true,
        error: Some("archive is encrypted".to_string()),
    };
    let outcome = status_outcome(status).expect("a terminal state decides");
    let err = outcome.err().expect("a failed job is an error");
    assert!(matches!(err, ApiError::Service(_)));
    assert_eq!(err.message(), "the remote job failed: archive is encrypted");
}

#[test]
fn status_outcome_says_when_no_reason_was_sent() {
    let status = JobStatus { finished: true, failed: true, error: None };
    let outcome = status_outcome(status).expect("a terminal state decides");
    let err = outcome.err().expect("a failed job is an error");
    assert_eq!(err.message(), "the remote job failed: no reason given");
}
