//! A running analysis: the handle for one submitted file-analysis job.
//!
//! Mirrors the decompilation handle: it owns the remote-assigned id and the
//! connection the submission went over, polls the job's status endpoint until
//! a terminal state, and fetches the analysis report once the job succeeded.

use vstd::prelude::*;
use vstd::string::StringExecFns;

use crate::connection::ApiConnection;
use crate::error::ApiError;
use crate::file::File;
use crate::status::JobState;
use crate::status::JobStatus;
use crate::status::parse_job_status;
use crate::status::status_outcome;

verus! {

/// The arguments of one analysis: the file to analyze, and two optional
/// arguments the remote distinguishes from their absence, so both are kept as
/// true options rather than sentinel values.
#[derive(Debug, PartialEq, Eq)]
pub struct AnalysisArguments {
    pub output_format: Option<String>,
    pub verbose: Option<bool>,
    pub input_file: Option<File>,
}

impl AnalysisArguments {
    /// Creates arguments with nothing set.
    pub fn new() -> (r: Self)
        ensures
            r.output_format is None,
            r.verbose is None,
            r.input_file is None,
    {
        AnalysisArguments { output_format: None, verbose: None, input_file: None }
    }

    /// Returns the arguments with the output format set.
    pub fn with_output_format(self, output_format: &str) -> (r: Self)
        ensures
            r.output_format matches Some(f) && f@ == output_format@,
            r.verbose == self.verbose,
            r.input_file == self.input_file,
    {
        AnalysisArguments {
            output_format: Some(output_format.to_string()),
            verbose: self.verbose,
            input_file: self.input_file,
        }
    }

    /// Returns the arguments with the verbosity set.
    pub fn with_verbose(self, verbose: bool) -> (r: Self)
        ensures
            r.verbose == Some(verbose),
            r.output_format == self.output_format,
            r.input_file == self.input_file,
    {
        AnalysisArguments {
            output_format: self.output_format,
            verbose: Some(verbose),
            input_file: self.input_file,
        }
    }

    /// Returns the arguments with the input file set.
    pub fn with_input_file(self, input_file: File) -> (r: Self)
        ensures
            r.input_file == Some(input_file),
            r.output_format == self.output_format,
            r.verbose == self.verbose,
    {
        AnalysisArguments {
            output_format: self.output_format,
            verbose: self.verbose,
            input_file: Some(input_file),
        }
    }
}

/// A handle for one remote analysis job.
pub struct Analysis<C: ApiConnection> {
    pub id: String,
    pub conn: C,
    pub state: JobState,
}

impl<C: ApiConnection> Analysis<C> {
    /// Creates a handle from the id the remote assigned and the connection
    /// the job was submitted over.
    pub fn new(id: String, conn: C) -> (r: Self)
        ensures
            r.id@ == id@,
            r.state == JobState::Submitted,
    {
        Analysis { id, conn, state: JobState::Submitted }
    }

    /// The id under which the remote registered this analysis.
    pub fn id(&self) -> (r: &str)
        ensures
            r@ == self.id@,
    {
        self.id.as_str()
    }

    /// The URL of this job's status endpoint.
    pub fn status_url(&self) -> (r: String)
        ensures
            r@ == self.conn.api_url_view() + "/fileinfo/analyses/"@ + self.id@ + "/status"@,
    {
        let mut url = self.conn.api_url();
        url.append("/fileinfo/analyses/");
        url.append(self.id.as_str());
        url.append("/status");
        url
    }

    /// The URL of this job's report output endpoint.
    pub fn output_url(&self) -> (r: String)
        ensures
            r@ == self.conn.api_url_view() + "/fileinfo/analyses/"@ + self.id@
                + "/outputs/report"@,
    {
        let mut url = self.conn.api_url();
        url.append("/fileinfo/analyses/");
        url.append(self.id.as_str());
        url.append("/outputs/report");
        url
    }

    /// Issues one GET against the status endpoint and reports the state the
    /// remote answered with. A transport or protocol failure is surfaced
    /// immediately and does not advance the locally mirrored state.
    pub fn poll_status(&mut self) -> (r: Result<JobStatus, ApiError>)
        ensures
            final(self).id@ == old(self).id@,
            r matches Ok(st) ==> final(self).state == st.state(),
            r matches Err(e) ==> (final(self).state == old(self).state && e.is_lower_layer()),
    {
        let url = self.status_url();
        let response = match self.conn.send_get_request(url.as_str()) {
            Ok(response) => response,
            Err(e) => {
                return Err(e);
            },
        };
        match parse_job_status(&response, url.as_str()) {
            Ok(status) => {
                self.state = if !status.finished {
                    JobState::Running
                } else if status.failed {
                    JobState::Failed
                } else {
                    JobState::Succeeded
                };
                Ok(status)
            },
            Err(e) => Err(e),
        }
    }

    /// Polls the status endpoint, pausing between polls, until the remote
    /// reports a terminal state: success when the job succeeded, and a
    /// service error carrying the remote-reported reason when it failed. A
    /// job already terminal on the first poll returns at once.
    pub fn wait_until_finished(&mut self) -> (r: Result<(), ApiError>)
        ensures
            final(self).id@ == old(self).id@,
            r is Ok ==> final(self).state == JobState::Succeeded,
            r matches Err(e) ==> !(e is Configuration),
            r matches Err(e) && e is Service ==> final(self).state == JobState::Failed,
    {
        self.wait_until_finished_with_max_polls(u64::MAX)
    }

    /// As [`Self::wait_until_finished`], but gives up with a transport error
    /// after the given number of polls has been answered with a non-terminal
    /// state. The poll count is an explicit option so that a caller can bound
    /// how long it is willing to block.
    #[verifier::loop_isolation(false)]
    pub fn wait_until_finished_with_max_polls(&mut self, max_polls: u64) -> (r: Result<
        (),
        ApiError,
    >)
        ensures
            final(self).id@ == old(self).id@,
            r is Ok ==> final(self).state == JobState::Succeeded,
            r matches Err(e) ==> !(e is Configuration),
            r matches Err(e) && e is Service ==> final(self).state == JobState::Failed,
    {
        let ghost original_id = self.id@;
        let mut polls_left = max_polls;
        while polls_left > 0
            invariant
                self.id@ == original_id,
            decreases polls_left,
        {
            let status = match self.poll_status() {
                Ok(status) => status,
                Err(e) => {
                    return Err(e);
                },
            };
            match status_outcome(status) {
                Some(outcome) => {
                    return outcome;
                },
                None => {
                    self.conn.wait_before_next_poll();
                    polls_left = polls_left - 1;
                },
            }
        }
        Err(ApiError::Transport("gave up waiting for the remote job to finish".to_string()))
    }

    /// Fetches the report of a successfully finished analysis. Valid only
    /// after a poll has observed terminal success: called earlier, it fails
    /// fast with a configuration error instead of blocking.
    pub fn get_output(&mut self) -> (r: Result<String, ApiError>)
        ensures
            final(self).id@ == old(self).id@,
            final(self).state == old(self).state,
            !(old(self).state is Succeeded) ==> (r matches Err(e)
                && e matches ApiError::Configuration(m)
                && m@ == "the analysis has not finished successfully"@),
            old(self).state is Succeeded ==> (r matches Err(e) ==> e.is_lower_layer()),
    {
        if !(self.state == JobState::Succeeded) {
            return Err(
                ApiError::Configuration("the analysis has not finished successfully".to_string()),
            );
        }
        let url = self.output_url();
        match self.conn.send_get_request(url.as_str()) {
            Ok(response) => Ok(response.body_as_string()),
            Err(e) => Err(e),
        }
    }
}

} // verus!
