//! Tests of the service façades and job handles, against a mock connection
//! that records every request and answers from a queue of canned responses.

use std::cell::RefCell;
use std::rc::Rc;

use retdec::args::ApiArguments;
use retdec::connection::ApiConnection;
use retdec::connection::ApiConnectionFactory;
use retdec::decompilation::Decompilation;
use retdec::decompilation::DecompilationArguments;
use retdec::analysis::AnalysisArguments;
use retdec::decompiler::Decompiler;
use retdec::error::ApiError;
use retdec::file::File;
use retdec::fileinfo::Fileinfo;
use retdec::response::ApiResponse;
use retdec::settings::Settings;

struct MockState {
    responses: Vec<(String, String, Result<ApiResponse, ApiError>)>,
    requests: Vec<(String, String, Option<ApiArguments>)>,
    sleeps: usize,
}

impl MockState {
    fn new() -> Self {
        MockState { responses: Vec::new(), requests: Vec::new(), sleeps: 0 }
    }

    fn pop_response(&mut self, method: &str, url: &str) -> Result<ApiResponse, ApiError> {
        let pos = self
            .responses
            .iter()
            .position(|(m, u, _)| m == method && u == url)
            .unwrap_or_else(|| panic!("no response registered for {} {}", method, url));
        self.responses.remove(pos).2
    }
}

fn add_response(
    state: &Rc<RefCell<MockState>>,
    method: &str,
    url: &str,
    response: Result<ApiResponse, ApiError>,
) {
    state
        .borrow_mut()
        .responses
        .push((method.to_string(), url.to_string(), response));
}

fn request_sent(
    state: &Rc<RefCell<MockState>>,
    method: &str,
    url: &str,
    args: ApiArguments,
) -> bool {
    state
        .borrow()
        .requests
        .iter()
        .any(|(m, u, a)| m == method && u == url && a.as_ref() == Some(&args))
}

struct ApiConnectionMock {
    state: Rc<RefCell<MockState>>,
    api_url: String,
}

impl ApiConnection for ApiConnectionMock {
    fn api_url(&self) -> String {
        self.api_url.clone()
    }

    fn send_post_request(
        &mut self,
        url: &str,
        args: &ApiArguments,
    ) -> Result<ApiResponse, ApiError> {
        let mut state = self.state.borrow_mut();
        state
            .requests
            .push(("POST".to_string(), url.to_string(), Some(args.clone())));
        state.pop_response("POST", url)
    }

    fn send_get_request(&mut self, url: &str) -> Result<ApiResponse, ApiError> {
        let mut state = self.state.borrow_mut();
        state
            .requests
            .push(("GET".to_string(), url.to_string(), None));
        state.pop_response("GET", url)
    }

    fn wait_before_next_poll(&self) {
        self.state.borrow_mut().sleeps += 1;
    }
}

struct ApiConnectionFactoryMock {
    state: Rc<RefCell<MockState>>,
    api_url: String,
}

impl ApiConnectionFactory for ApiConnectionFactoryMock {
    type Conn = ApiConnectionMock;

    fn new_connection(&self) -> ApiConnectionMock {
        ApiConnectionMock { state: self.state.clone(), api_url: self.api_url.clone() }
    }
}

fn create_decompiler() -> (Rc<RefCell<MockState>>, Decompiler<ApiConnectionFactoryMock>) {
    // An explicit API URL, so that nothing in the environment decides what
    // the tests talk to.
    let settings = Settings::new()
        .with_api_key("test")
        .with_api_url("https://retdec.com/service/api");
    let state = Rc::new(RefCell::new(MockState::new()));
    let factory = ApiConnectionFactoryMock { state: state.clone(), api_url: settings.api_url() };
    (state, Decompiler::with_conn_factory(factory))
}

fn create_fileinfo() -> (Rc<RefCell<MockState>>, Fileinfo<ApiConnectionFactoryMock>) {
    let settings = Settings::new()
        .with_api_key("test")
        .with_api_url("https://retdec.com/service/api");
    let state = Rc::new(RefCell::new(MockState::new()));
    let factory = ApiConnectionFactoryMock { state: state.clone(), api_url: settings.api_url() };
    (state, Fileinfo::with_conn_factory(factory))
}

#[test]
fn decompiler_start_decompilation_starts_decompilation_with_correct_arguments() {
    let (conn, decompiler) = create_decompiler();
    let input_file = File::from_content_with_name(b"content", "file.exe");
    let args = DecompilationArguments::new().with_input_file(input_file.clone());
    add_response(
        &conn,
        "POST",
        "https://retdec.com/service/api/decompiler/decompilations",
        Ok(ApiResponse::new(
            200,
            br#"{
                        "id": "ID"
                    }"#
            .to_vec(),
        )),
    );

    let decompilation = decompiler
        .start_decompilation(args)
        .expect("decompilation should have succeeded");

    assert_eq!(decompilation.id(), "ID");
    let mut expected_args = ApiArguments::new();
    expected_args.add_string_arg("mode", "bin");
    expected_args.add_file("input", input_file);
    assert!(request_sent(
        &conn,
        "POST",
        "https://retdec.com/service/api/decompiler/decompilations",
        expected_args,
    ));
}

#[test]
fn decompiler_start_decompilation_returns_error_when_input_file_is_not_given() {
    let (conn, decompiler) = create_decompiler();
    let args = DecompilationArguments::new();
    add_response(
        &conn,
        "POST",
        "https://retdec.com/service/api/decompiler/decompilations",
        Ok(ApiResponse::new(
            200,
            br#"{
                        "id": "ID"
                    }"#
            .to_vec(),
        )),
    );

    let result = decompiler.start_decompilation(args);

    let err = result.err().expect("expected start_decompilation() to fail");
    assert_eq!(err.message(), "no input file given");
}

#[test]
fn decompiler_start_decompilation_returns_error_when_returned_json_does_not_contain_id() {
    let (conn, decompiler) = create_decompiler();
    let input_file = File::from_content_with_name(b"content", "file.exe");
    let args = DecompilationArguments::new().with_input_file(input_file);
    add_response(
        &conn,
        "POST",
        "https://retdec.com/service/api/decompiler/decompilations",
        Ok(ApiResponse::new(200, b"{}".to_vec())),
    );

    let result = decompiler.start_decompilation(args);

    let err = result.err().expect("expected start_decompilation() to fail");
    assert_eq!(
        err.message(),
        "https://retdec.com/service/api/decompiler/decompilations returned invalid JSON response"
    );
}

#[test]
fn decompiler_start_decompilation_without_input_file_sends_no_request() {
    let (conn, decompiler) = create_decompiler();
    let args = DecompilationArguments::new();

    let result = decompiler.start_decompilation(args);

    let err = result.err().expect("expected start_decompilation() to fail");
    assert!(matches!(err, ApiError::Configuration(_)));
    assert_eq!(conn.borrow().requests.len(), 0);
}

#[test]
fn fileinfo_start_analysis_without_input_file_fails_and_sends_no_request() {
    let (conn, fileinfo) = create_fileinfo();
    let args = AnalysisArguments::new()
        .with_output_format("json")
        .with_verbose(true);

    let result = fileinfo.start_analysis(args);

    let err = result.err().expect("expected start_analysis() to fail");
    assert!(matches!(err, ApiError::Configuration(_)));
    assert_eq!(err.message(), "no input file given");
    assert_eq!(conn.borrow().requests.len(), 0);
}

#[test]
fn fileinfo_start_analysis_returns_handle_with_remote_assigned_id() {
    let (conn, fileinfo) = create_fileinfo();
    let input_file = File::from_content_with_name(b"content", "file.exe");
    let args = AnalysisArguments::new().with_input_file(input_file);
    add_response(
        &conn,
        "POST",
        "https://retdec.com/service/api/fileinfo/analyses",
        Ok(ApiResponse::new(200, br#"{"id": "A77"}"#.to_vec())),
    );

    let analysis = fileinfo
        .start_analysis(args)
        .expect("analysis should have succeeded");

    assert_eq!(analysis.id(), "A77");
}

#[test]
fn fileinfo_start_analysis_returns_error_when_returned_json_does_not_contain_id() {
    let (conn, fileinfo) = create_fileinfo();
    let input_file = File::from_content_with_name(b"content", "file.exe");
    let args = AnalysisArguments::new().with_input_file(input_file);
    add_response(
        &conn,
        "POST",
        "https://retdec.com/service/api/fileinfo/analyses",
        Ok(ApiResponse::new(200, br#"{"count": 3}"#.to_vec())),
    );

    let result = fileinfo.start_analysis(args);

    let err = result.err().expect("expected start_analysis() to fail");
    assert!(matches!(err, ApiError::Protocol(_)));
    assert_eq!(
        err.message(),
        "https://retdec.com/service/api/fileinfo/analyses returned invalid JSON response"
    );
}

fn start_analysis_and_expect_args(args: AnalysisArguments, expected_args: ApiArguments) {
    let (conn, fileinfo) = create_fileinfo();
    add_response(
        &conn,
        "POST",
        "https://retdec.com/service/api/fileinfo/analyses",
        Ok(ApiResponse::new(200, br#"{"id": "ID"}"#.to_vec())),
    );

    fileinfo
        .start_analysis(args)
        .expect("analysis should have succeeded");

    assert!(request_sent(
        &conn,
        "POST",
        "https://retdec.com/service/api/fileinfo/analyses",
        expected_args,
    ));
}

#[test]
fn fileinfo_start_analysis_omits_optional_arguments_that_were_not_supplied() {
    let input_file = File::from_content_with_name(b"content", "file.exe");
    let mut expected_args = ApiArguments::new();
    expected_args.add_file("input", input_file.clone());
    start_analysis_and_expect_args(
        AnalysisArguments::new().with_input_file(input_file),
        expected_args,
    );
}

#[test]
fn fileinfo_start_analysis_sends_supplied_output_format_exactly() {
    let input_file = File::from_content_with_name(b"content", "file.exe");
    let mut expected_args = ApiArguments::new();
    expected_args.add_opt_string_arg("output_format", Some("json".to_string()));
    expected_args.add_file("input", input_file.clone());
    start_analysis_and_expect_args(
        AnalysisArguments::new()
            .with_output_format("json")
            .with_input_file(input_file),
        expected_args,
    );
}

#[test]
fn fileinfo_start_analysis_sends_supplied_verbose_flag_exactly() {
    let input_file = File::from_content_with_name(b"content", "file.exe");
    let mut expected_args = ApiArguments::new();
    expected_args.add_opt_bool_arg("verbose", Some(false));
    expected_args.add_file("input", input_file.clone());
    start_analysis_and_expect_args(
        AnalysisArguments::new()
            .with_verbose(false)
            .with_input_file(input_file),
        expected_args,
    );
}

#[test]
fn fileinfo_start_analysis_sends_both_optional_arguments_when_supplied() {
    let input_file = File::from_content_with_name(b"content", "file.exe");
    let mut expected_args = ApiArguments::new();
    expected_args.add_opt_string_arg("output_format", Some("plain".to_string()));
    expected_args.add_opt_bool_arg("verbose", Some(true));
    expected_args.add_file("input", input_file.clone());
    start_analysis_and_expect_args(
        AnalysisArguments::new()
            .with_output_format("plain")
            .with_verbose(true)
            .with_input_file(input_file),
        expected_args,
    );
}

fn mock_connection(state: &Rc<RefCell<MockState>>) -> ApiConnectionMock {
    ApiConnectionMock {
        state: state.clone(),
        api_url: "https://retdec.com/service/api".to_string(),
    }
}

#[test]
fn decompilation_wait_until_finished_returns_at_once_when_first_poll_is_terminal_success() {
    let state = Rc::new(RefCell::new(MockState::new()));
    add_response(
        &state,
        "GET",
        "https://retdec.com/service/api/decompiler/decompilations/ID/status",
        Ok(ApiResponse::new(
            200,
            br#"{"finished": true, "failed": false}"#.to_vec(),
        )),
    );
    let mut decompilation = Decompilation::new("ID".to_string(), mock_connection(&state));

    decompilation
        .wait_until_finished()
        .expect("waiting should have succeeded");

    assert_eq!(state.borrow().requests.len(), 1);
    assert_eq!(state.borrow().sleeps, 0);
}

#[test]
fn decompilation_wait_until_finished_reports_service_error_with_remote_reason() {
    let state = Rc::new(RefCell::new(MockState::new()));
    add_response(
        &state,
        "GET",
        "https://retdec.com/service/api/decompiler/decompilations/ID/status",
        Ok(ApiResponse::new(
            200,
            br#"{"finished": false, "failed": false}"#.to_vec(),
        )),
    );
    add_response(
        &state,
        "GET",
        "https://retdec.com/service/api/decompiler/decompilations/ID/status",
        Ok(ApiResponse::new(
            200,
            br#"{"finished": true, "failed": true, "error": "out of memory"}"#.to_vec(),
        )),
    );
    let mut decompilation = Decompilation::new("ID".to_string(), mock_connection(&state));

    let err = decompilation
        .wait_until_finished()
        .err()
        .expect("expected wait_until_finished() to fail");

    assert!(matches!(err, ApiError::Service(_)));
    assert_eq!(err.message(), "the remote job failed: out of memory");
    assert_eq!(state.borrow().requests.len(), 2);
    assert_eq!(state.borrow().sleeps, 1);
}

#[test]
fn decompilation_wait_until_finished_surfaces_protocol_error_from_malformed_status() {
    let state = Rc::new(RefCell::new(MockState::new()));
    add_response(
        &state,
        "GET",
        "https://retdec.com/service/api/decompiler/decompilations/ID/status",
        Ok(ApiResponse::new(200, b"not json at all".to_vec())),
    );
    let mut decompilation = Decompilation::new("ID".to_string(), mock_connection(&state));

    let err = decompilation
        .wait_until_finished()
        .err()
        .expect("expected wait_until_finished() to fail");

    assert!(matches!(err, ApiError::Protocol(_)));
    assert_eq!(
        err.message(),
        "https://retdec.com/service/api/decompiler/decompilations/ID/status \
         returned invalid JSON response"
    );
}

#[test]
fn decompilation_get_output_hll_code_fails_fast_before_terminal_success() {
    let state = Rc::new(RefCell::new(MockState::new()));
    let mut decompilation = Decompilation::new("ID".to_string(), mock_connection(&state));

    let err = decompilation
        .get_output_hll_code()
        .err()
        .expect("expected get_output_hll_code() to fail");

    assert!(matches!(err, ApiError::Configuration(_)));
    assert_eq!(err.message(), "the decompilation has not finished successfully");
    assert_eq!(state.borrow().requests.len(), 0);
}

#[test]
fn decompilation_get_output_hll_code_returns_body_after_terminal_success() {
    let state = Rc::new(RefCell::new(MockState::new()));
    add_response(
        &state,
        "GET",
        "https://retdec.com/service/api/decompiler/decompilations/ID/status",
        Ok(ApiResponse::new(
            200,
            br#"{"finished": true, "failed": false}"#.to_vec(),
        )),
    );
    add_response(
        &state,
        "GET",
        "https://retdec.com/service/api/decompiler/decompilations/ID/outputs/hll",
        Ok(ApiResponse::new(200, b"int main() { return 0; }".to_vec())),
    );
    let mut decompilation = Decompilation::new("ID".to_string(), mock_connection(&state));

    decompilation
        .wait_until_finished()
        .expect("waiting should have succeeded");
    let code = decompilation
        .get_output_hll_code()
        .expect("fetching the output should have succeeded");

    assert_eq!(code, "int main() { return 0; }");
}

#[test]
fn analysis_wait_until_finished_and_get_output_follow_the_analysis_endpoints() {
    let state = Rc::new(RefCell::new(MockState::new()));
    add_response(
        &state,
        "GET",
        "https://retdec.com/service/api/fileinfo/analyses/A1/status",
        Ok(ApiResponse::new(
            200,
            br#"{"finished": true, "failed": false}"#.to_vec(),
        )),
    );
    add_response(
        &state,
        "GET",
        "https://retdec.com/service/api/fileinfo/analyses/A1/outputs/report",
        Ok(ApiResponse::new(200, br#"{"file_format": "ELF"}"#.to_vec())),
    );
    let mut analysis =
        retdec::analysis::Analysis::new("A1".to_string(), mock_connection(&state));

    analysis
        .wait_until_finished()
        .expect("waiting should have succeeded");
    let output = analysis
        .get_output()
        .expect("fetching the output should have succeeded");

    assert_eq!(output, r#"{"file_format": "ELF"}"#);
}

#[test]
fn job_urls_follow_the_documented_endpoints() {
    let state = Rc::new(RefCell::new(MockState::new()));
    let decompilation = Decompilation::new("D1".to_string(), mock_connection(&state));
    assert_eq!(
        decompilation.status_url(),
        "https://retdec.com/service/api/decompiler/decompilations/D1/status"
    );
    assert_eq!(
        decompilation.output_url(),
        "https://retdec.com/service/api/decompiler/decompilations/D1/outputs/hll"
    );
    let analysis = retdec::analysis::Analysis::new("A1".to_string(), mock_connection(&state));
    assert_eq!(
        analysis.status_url(),
        "https://retdec.com/service/api/fileinfo/analyses/A1/status"
    );
    assert_eq!(
        analysis.output_url(),
        "https://retdec.com/service/api/fileinfo/analyses/A1/outputs/report"
    );
    assert_eq!(
        retdec::decompiler::decompilation_submission_url(&mock_connection(&state)),
        "https://retdec.com/service/api/decompiler/decompilations"
    );
    assert_eq!(
        retdec::fileinfo::analysis_submission_url(&mock_connection(&state)),
        "https://retdec.com/service/api/fileinfo/analyses"
    );
}

#[test]
fn decompiler_start_decompilation_names_the_operation_on_a_transport_failure() {
    let (conn, decompiler) = create_decompiler();
    let input_file = File::from_content_with_name(b"content", "file.exe");
    let args = DecompilationArguments::new().with_input_file(input_file);
    add_response(
        &conn,
        "POST",
        "https://retdec.com/service/api/decompiler/decompilations",
        Err(ApiError::Transport("connection refused".to_string())),
    );

    let err = decompiler
        .start_decompilation(args)
        .err()
        .expect("expected start_decompilation() to fail");

    assert!(matches!(err, ApiError::Transport(_)));
    assert_eq!(
        err.message(),
        "failed to start a decompilation: connection refused"
    );
}

#[test]
fn fileinfo_start_analysis_names_the_operation_on_a_transport_failure() {
    let (conn, fileinfo) = create_fileinfo();
    let input_file = File::from_content_with_name(b"content", "file.exe");
    let args = AnalysisArguments::new().with_input_file(input_file);
    add_response(
        &conn,
        "POST",
        "https://retdec.com/service/api/fileinfo/analyses",
        Err(ApiError::Transport("name resolution failed".to_string())),
    );

    let err = fileinfo
        .start_analysis(args)
        .err()
        .expect("expected start_analysis() to fail");

    assert!(matches!(err, ApiError::Transport(_)));
    assert_eq!(
        err.message(),
        "failed to start an analysis: name resolution failed"
    );
}

#[test]
fn wait_until_finished_with_max_polls_gives_up_after_the_given_number_of_polls() {
    let state = Rc::new(RefCell::new(MockState::new()));
    for _ in 0..2 {
        add_response(
            &state,
            "GET",
            "https://retdec.com/service/api/decompiler/decompilations/ID/status",
            Ok(ApiResponse::new(
                200,
                br#"{"finished": false, "failed": false}"#.to_vec(),
            )),
        );
    }
    let mut decompilation = Decompilation::new("ID".to_string(), mock_connection(&state));

    let err = decompilation
        .wait_until_finished_with_max_polls(2)
        .err()
        .expect("expected the bounded wait to give up");

    assert!(matches!(err, ApiError::Transport(_)));
    assert_eq!(state.borrow().requests.len(), 2);
}
