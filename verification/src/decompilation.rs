//! A running decompilation: the handle for one submitted decompiler job.
//!
//! The handle owns the id the remote assigned at submission and the very
//! connection the submission went over; every later poll and output fetch
//! reuses that connection.

use vstd::prelude::*;
use vstd::string::StringExecFns;

use crate::connection::ApiConnection;
use crate::error::ApiError;
use crate::file::File;
use crate::status::JobState;
use crate::status::JobStatus;
use crate::status::parse_job_status;
use crate::status::status_outcome;

verus! {

/// The arguments of one decompilation: the file to decompile.
#[derive(Debug, PartialEq, Eq)]
pub struct DecompilationArguments {
    pub input_file: Option<File>,
}

impl DecompilationArguments {
    /// Creates arguments with no input file.
    pub fn new() -> (r: Self)
        ensures
            r.input_file is None,
    {
        DecompilationArguments { input_file: None }
    }

    /// Returns the arguments with the input file set.
    pub fn with_input_file(self, input_file: File) -> (r: Self)
        ensures
            r.input_file == Some(input_file),
    {
        DecompilationArguments { input_file: Some(input_file) }
    }

    /// Takes the input file out of the arguments, if one was set.
    pub fn take_input_file(&mut self) -> (r: Option<File>)
        ensures
            r == old(self).input_file,
            final(self).input_file is None,
    {
        self.input_file.take()
    }
}

/// A handle for one remote decompilation job.
pub struct Decompilation<C: ApiConnection> {
    pub id: String,
    pub conn: C,
    pub state: JobState,
}

impl<C: ApiConnection> Decompilation<C> {
    /// Creates a handle from the id the remote assigned and the connection
    /// the job was submitted over.
    pub fn new(id: String, conn: C) -> (r: Self)
        ensures
            r.id@ == id@,
            r.state == JobState::Submitted,
    {
        Decompilation { id, conn, state: JobState::Submitted }
    }

    /// The id under which the remote registered this decompilation.
    pub fn id(&self) -> (r: &str)
        ensures
            r@ == self.id@,
    {
        self.id.as_str()
    }

    /// The URL of this job's status endpoint.
    pub fn status_url(&self) -> (r: String)
        ensures
            r@ == self.conn.api_url_view() + "/decompiler/decompilations/"@ + self.id@
                + "/status"@,
    {
        let mut url = self.conn.api_url();
        url.append("/decompiler/decompilations/");
        url.append(self.id.as_str());
        url.append("/status");
        url
    }

    /// The URL of this job's high-level-code output endpoint.
    pub fn output_url(&self) -> (r: String)
        ensures
            r@ == self.conn.api_url_view() + "/decompiler/decompilations/"@ + self.id@
                + "/outputs/hll"@,
    {
        let mut url = self.conn.api_url();
        url.append("/decompiler/decompilations/");
        url.append(self.id.as_str());
        url.append("/outputs/hll");
        url
    }

    /// Issues one GET against the status endpoint and reports the state the
    /// remote answered with. A transport or protocol failure is surfaced
    /// immediately and does not advance the locally mirrored state.
    pub fn poll_status(&mut self) -> (r: Result<JobStatus, ApiError>)
        ensures
            final(self).id@ == old(self).id@,
            r matches Ok(st) ==> final(self).state == st.state(),
            r matches Err(e) ==> (final(self).state == old(self).state && e.is_lower_layer()),
    {
        let url = self.status_url();
        let response = match self.conn.send_get_request(url.as_str()) {
            Ok(response) => response,
            Err(e) => {
                return Err(e);
            },
        };
        match parse_job_status(&response, url.as_str()) {
            Ok(status) => {
                self.state = if !status.finished {
                    JobState::Running
                } else if status.failed {
                    JobState::Failed
                } else {
                    JobState::Succeeded
                };
                Ok(status)
            },
            Err(e) => Err(e),
        }
    }

    /// Polls the status endpoint, pausing between polls, until the remote
    /// reports a terminal state: success when the job succeeded, and a
    /// service error carrying the remote-reported reason when it failed. A
    /// job already terminal on the first poll returns at once.
    pub fn wait_until_finished(&mut self) -> (r: Result<(), ApiError>)
        ensures
            final(self).id@ == old(self).id@,
            r is Ok ==> final(self).state == JobState::Succeeded,
            r matches Err(e) ==> !(e is Configuration),
            r matches Err(e) && e is Service ==> final(self).state == JobState::Failed,
    {
        self.wait_until_finished_with_max_polls(u64::MAX)
    }

    /// As [`Self::wait_until_finished`], but gives up with a transport error
    /// after the given number of polls has been answered with a non-terminal
    /// state. The poll count is an explicit option so that a caller can bound
    /// how long it is willing to block.
    #[verifier::loop_isolation(false)]
    pub fn wait_until_finished_with_max_polls(&mut self, max_polls: u64) -> (r: Result<
        (),
        ApiError,
    >)
        ensures
            final(self).id@ == old(self).id@,
            r is Ok ==> final(self).state == JobState::Succeeded,
            r matches Err(e) ==> !(e is Configuration),
            r matches Err(e) && e is Service ==> final(self).state == JobState::Failed,
    {
        let ghost original_id = self.id@;
        let mut polls_left = max_polls;
        while polls_left > 0
            invariant
                self.id@ == original_id,
            decreases polls_left,
        {
            let status = match self.poll_status() {
                Ok(status) => status,
                Err(e) => {
                    return Err(e);
                },
            };
            match status_outcome(status) {
                Some(outcome) => {
                    return outcome;
                },
                None => {
                    self.conn.wait_before_next_poll();
                    polls_left = polls_left - 1;
                },
            }
        }
        Err(ApiError::Transport("gave up waiting for the remote job to finish".to_string()))
    }

    /// Fetches the decompiled high-level code of a successfully finished job.
    /// Valid only after a poll has observed terminal success: called earlier,
    /// it fails fast with a configuration error instead of blocking.
    pub fn get_output_hll_code(&mut self) -> (r: Result<String, ApiError>)
        ensures
            final(self).id@ == old(self).id@,
            final(self).state == old(self).state,
            !(old(self).state is Succeeded) ==> (r matches Err(e)
                && e matches ApiError::Configuration(m)
                && m@ == "the decompilation has not finished successfully"@),
            old(self).state is Succeeded ==> (r matches Err(e) ==> e.is_lower_layer()),
    {
        if !(self.state == JobState::Succeeded) {
            return Err(
                ApiError::Configuration(
                    "the decompilation has not finished successfully".to_string(),
                ),
            );
        }
        let url = self.output_url();
        match self.conn.send_get_request(url.as_str()) {
            Ok(response) => Ok(response.body_as_string()),
            Err(e) => Err(e),
        }
    }
}

} // verus!
