//! The state of a remote job, as reported by its status endpoint.
//!
//! The remote job moves through `Submitted -> Running -> {Succeeded, Failed}`;
//! the two last states are terminal. The client never infers a state locally:
//! every transition it sees comes from one poll of the status endpoint, whose
//! JSON body reports whether the job has finished and whether it failed, and
//! on failure carries a human-readable reason under "error".

use vstd::prelude::*;
use vstd::string::StringExecFns;

use crate::error::ApiError;
use crate::response::ApiResponse;
use crate::response::invalid_json_message;
use crate::response::json_bool_field_of;
use crate::response::json_string_field_of;

verus! {

/// A remote job's state, mirrored locally only as the result of the most
/// recent poll.
#[derive(Clone, Copy, Debug, PartialEq, Eq, Structural)]
pub enum JobState {
    /// The job was submitted; no poll has been answered yet.
    Submitted,
    /// The last poll reported the job as not yet finished.
    Running,
    /// Terminal: the job finished and did not fail.
    Succeeded,
    /// Terminal: the job finished and failed.
    Failed,
}

impl JobState {
    /// Holds of the two states no further polling can change.
    pub open spec fn is_terminal(&self) -> bool {
        *self is Succeeded || *self is Failed
    }
}

/// One answer of the status endpoint: whether the job has finished, whether
/// it failed, and the remote-supplied failure reason when one was sent.
#[derive(Clone, Debug, PartialEq, Eq)]
pub struct JobStatus {
    pub finished: bool,
    pub failed: bool,
    pub error: Option<String>,
}

impl JobStatus {
    /// The job state this status reports.
    pub open spec fn state(&self) -> JobState {
        if !self.finished {
            JobState::Running
        } else if self.failed {
            JobState::Failed
        } else {
            JobState::Succeeded
        }
    }
}

/// What a status body reports: both boolean fields when the body carries
/// them, together with the optional failure reason; nothing when either
/// boolean is missing or of the wrong type.
pub open spec fn status_of_body(body: Seq<u8>) -> Option<(bool, bool, Option<Seq<char>>)> {
    match (json_bool_field_of(body, "finished"@), json_bool_field_of(body, "failed"@)) {
        (Some(finished), Some(failed)) => Some(
            (finished, failed, json_string_field_of(body, "error"@)),
        ),
        _ => None,
    }
}

/// Reads a job status out of a poll response; a body that does not report
/// both boolean fields is a protocol error naming the polled URL.
pub fn parse_job_status(response: &ApiResponse, url: &str) -> (r: Result<JobStatus, ApiError>)
    ensures
        status_of_body(response.body@) matches Some(t) ==> (r matches Ok(st)
            && st.finished == t.0 && st.failed == t.1 && st.error.deep_view() == t.2),
        status_of_body(response.body@) is None ==> (r matches Err(e)
            && e matches ApiError::Protocol(m) && m@ == invalid_json_message(url@)),
{
    let finished = response.json_value_as_bool("finished");
    let failed = response.json_value_as_bool("failed");
    match (finished, failed) {
        (Some(finished), Some(failed)) => Ok(
            JobStatus { finished, failed, error: response.json_value_as_string("error") },
        ),
        _ => Err(ApiError::Protocol(url.to_string().concat(" returned invalid JSON response"))),
    }
}

/// The message of the service error reported when the remote says a job
/// failed: it carries the remote-reported reason, or says that none was sent.
pub open spec fn job_failure_message(reason: Option<Seq<char>>) -> Seq<char> {
    match reason {
        Some(r) => "the remote job failed: "@ + r,
        None => "the remote job failed: "@ + "no reason given"@,
    }
}

/// Decides what one polled status means for a caller waiting for the job:
/// nothing yet while the job runs, success on a successful terminal state,
/// and a service error carrying the remote-reported reason on a failed one.
pub fn status_outcome(status: JobStatus) -> (r: Option<Result<(), ApiError>>)
    ensures
        (r is Some) == status.state().is_terminal(),
        !status.finished ==> r is None,
        status.finished && !status.failed ==> r == Some(Result::<(), ApiError>::Ok(())),
        status.finished && status.failed ==> (r matches Some(out) && out matches Err(e)
            && e matches ApiError::Service(m)
            && m@ == job_failure_message(status.error.deep_view())),
{
    if !status.finished {
        None
    } else if !status.failed {
        Some(Ok(()))
    } else {
        let mut msg = "the remote job failed: ".to_string();
        match status.error {
            Some(reason) => {
                msg.append(reason.as_str());
            },
            None => {
                msg.append("no reason given");
            },
        }
        Some(Err(ApiError::Service(msg)))
    }
}

} // verus!
