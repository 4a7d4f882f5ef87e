//! Access to the file-decompiling service: validates the caller's input,
//! builds the submission arguments, POSTs them, and wraps the returned job id
//! into a decompilation handle.

use vstd::prelude::*;
use vstd::string::StringExecFns;

use crate::args::ApiArguments;
use crate::args::ArgValueView;
use crate::connection::ApiConnection;
use crate::connection::ApiConnectionFactory;
use crate::decompilation::Decompilation;
use crate::decompilation::DecompilationArguments;
use crate::error::ApiError;
use crate::error::message_starts_with;
use crate::response::job_id_from_response;
use crate::status::JobState;

verus! {

/// The decompiler's submission endpoint under the connection's API URL.
pub fn decompilation_submission_url<C: ApiConnection>(conn: &C) -> (r: String)
    ensures
        r@ == conn.api_url_view() + "/decompiler/decompilations"@,
{
    conn.api_url().concat("/decompiler/decompilations")
}

/// The file-decompiling service.
pub struct Decompiler<F: ApiConnectionFactory> {
    pub conn_factory: F,
}

impl<F: ApiConnectionFactory> Decompiler<F> {
    /// Creates the service around the factory whose connections it will use.
    pub fn with_conn_factory(conn_factory: F) -> (r: Self)
        ensures
            r.conn_factory == conn_factory,
    {
        Decompiler { conn_factory }
    }

    /// Starts a new decompilation with the given arguments: submits the input
    /// file to the decompiler's submission endpoint and returns a handle for
    /// the job the remote registered. Without an input file it fails with a
    /// configuration error before any request is sent.
    pub fn start_decompilation(&self, args: DecompilationArguments) -> (r: Result<
        Decompilation<F::Conn>,
        ApiError,
    >)
        ensures
            args.input_file is None ==> (r matches Err(e)
                && e matches ApiError::Configuration(m) && m@ == "no input file given"@),
            r matches Err(e) ==> !(e is Service),
            r matches Err(e) && e is Configuration ==> args.input_file is None,
            r matches Err(e) ==> (e matches ApiError::Transport(m)
                ==> message_starts_with(m@, "failed to start a decompilation: "@)),
            r matches Ok(d) ==> (d.state == JobState::Submitted && args.input_file is Some),
    {
        let mut conn = self.conn_factory.new_connection();
        let url = decompilation_submission_url(&conn);
        let api_args = match self.create_api_args(args) {
            Ok(api_args) => api_args,
            Err(e) => {
                return Err(e);
            },
        };
        let response = match conn.send_post_request(url.as_str(), &api_args) {
            Ok(response) => response,
            Err(e) => {
                return Err(e.with_transport_context("failed to start a decompilation: "));
            },
        };
        let id = match job_id_from_response(&response, url.as_str()) {
            Ok(id) => id,
            Err(e) => {
                return Err(e);
            },
        };
        Ok(Decompilation::new(id, conn))
    }

    /// Builds the submission arguments for one decompilation: the service
    /// mode scalar `mode=bin`, and the input file attached under the field
    /// `input`. Arguments without an input file are rejected with a
    /// configuration error.
    pub fn create_api_args(&self, args: DecompilationArguments) -> (r: Result<
        ApiArguments,
        ApiError,
    >)
        ensures
            args.input_file matches Some(f) ==> (r matches Ok(a)
                && a@.args == seq![("mode"@, ArgValueView::Str("bin"@))]
                && a@.files == seq![("input"@, f@)]),
            args.input_file is None ==> (r matches Err(e)
                && e matches ApiError::Configuration(m) && m@ == "no input file given"@),
    {
        let mut api_args = ApiArguments::new();
        api_args.add_string_arg("mode", "bin");
        match args.input_file {
            Some(input_file) => {
                let ghost file_view = input_file@;
                api_args.add_file("input", input_file);
                proof {
                    assert(api_args@.args =~= seq![("mode"@, ArgValueView::Str("bin"@))]);
                    assert(api_args@.files =~= seq![("input"@, file_view)]);
                }
                Ok(api_args)
            },
            None => Err(ApiError::Configuration("no input file given".to_string())),
        }
    }
}

} // verus!
