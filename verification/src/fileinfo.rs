//! Access to the file-analyzing service: validates the caller's input, builds
//! the submission arguments — including the optional arguments the caller may
//! omit — POSTs them, and wraps the returned job id into an analysis handle.

use vstd::prelude::*;
use vstd::string::StringExecFns;

use crate::analysis::Analysis;
use crate::analysis::AnalysisArguments;
use crate::args::ApiArguments;
use crate::args::ArgValueView;
use crate::connection::ApiConnection;
use crate::connection::ApiConnectionFactory;
use crate::error::ApiError;
use crate::error::message_starts_with;
use crate::response::job_id_from_response;
use crate::status::JobState;

verus! {

/// The analyzer's submission endpoint under the connection's API URL.
pub fn analysis_submission_url<C: ApiConnection>(conn: &C) -> (r: String)
    ensures
        r@ == conn.api_url_view() + "/fileinfo/analyses"@,
{
    conn.api_url().concat("/fileinfo/analyses")
}

/// The scalar arguments one analysis submission carries: the output format
/// when the caller supplied one, then the verbosity when the caller supplied
/// one, each under its own name and with the caller's exact value; an omitted
/// optional argument contributes nothing.
pub open spec fn analysis_scalar_args(args: AnalysisArguments) -> Seq<(Seq<char>, ArgValueView)> {
    let with_format = match args.output_format {
        Some(f) => Seq::empty().push(("output_format"@, ArgValueView::Str(f@))),
        None => Seq::empty(),
    };
    match args.verbose {
        Some(v) => with_format.push(("verbose"@, ArgValueView::Flag(v))),
        None => with_format,
    }
}

/// The file-analyzing service.
pub struct Fileinfo<F: ApiConnectionFactory> {
    pub conn_factory: F,
}

impl<F: ApiConnectionFactory> Fileinfo<F> {
    /// Creates the service around the factory whose connections it will use.
    pub fn with_conn_factory(conn_factory: F) -> (r: Self)
        ensures
            r.conn_factory == conn_factory,
    {
        Fileinfo { conn_factory }
    }

    /// Starts a new file analysis with the given arguments: submits the input
    /// file and the supplied optional arguments to the analyzer's submission
    /// endpoint and returns a handle for the job the remote registered.
    /// Without an input file it fails with a configuration error before any
    /// request is sent.
    pub fn start_analysis(&self, args: AnalysisArguments) -> (r: Result<
        Analysis<F::Conn>,
        ApiError,
    >)
        ensures
            args.input_file is None ==> (r matches Err(e)
                && e matches ApiError::Configuration(m) && m@ == "no input file given"@),
            r matches Err(e) ==> !(e is Service),
            r matches Err(e) && e is Configuration ==> args.input_file is None,
            r matches Err(e) ==> (e matches ApiError::Transport(m)
                ==> message_starts_with(m@, "failed to start an analysis: "@)),
            r matches Ok(a) ==> (a.state == JobState::Submitted && args.input_file is Some),
    {
        let mut conn = self.conn_factory.new_connection();
        let url = analysis_submission_url(&conn);
        let api_args = match self.create_api_args(args) {
            Ok(api_args) => api_args,
            Err(e) => {
                return Err(e);
            },
        };
        let response = match conn.send_post_request(url.as_str(), &api_args) {
            Ok(response) => response,
            Err(e) => {
                return Err(e.with_transport_context("failed to start an analysis: "));
            },
        };
        let id = match job_id_from_response(&response, url.as_str()) {
            Ok(id) => id,
            Err(e) => {
                return Err(e);
            },
        };
        Ok(Analysis::new(id, conn))
    }

    /// Builds the submission arguments for one analysis: the supplied
    /// optional scalars exactly as the caller gave them — an omitted one is
    /// left out of the request altogether — and the input file attached under
    /// the field `input`. Arguments without an input file are rejected with a
    /// configuration error.
    pub fn create_api_args(&self, args: AnalysisArguments) -> (r: Result<ApiArguments, ApiError>)
        ensures
            args.input_file matches Some(f) ==> (r matches Ok(a)
                && a@.args == analysis_scalar_args(args) && a@.files == seq![("input"@, f@)]),
            args.input_file is None ==> (r matches Err(e)
                && e matches ApiError::Configuration(m) && m@ == "no input file given"@),
    {
        let ghost args_view = args;
        let AnalysisArguments { output_format, verbose, input_file } = args;
        let mut api_args = ApiArguments::new();
        api_args.add_opt_string_arg("output_format", output_format);
        api_args.add_opt_bool_arg("verbose", verbose);
        match input_file {
            Some(input_file) => {
                let ghost file_view = input_file@;
                api_args.add_file("input", input_file);
                proof {
                    assert(api_args@.args =~= analysis_scalar_args(args_view));
                    assert(api_args@.files =~= seq![("input"@, file_view)]);
                }
                Ok(api_args)
            },
            None => Err(ApiError::Configuration("no input file given".to_string())),
        }
    }
}

} // verus!
