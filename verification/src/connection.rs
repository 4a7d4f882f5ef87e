//! The connection abstraction: one HTTP exchange against the remote API, a
//! polymorphic factory of connections, and a decorating factory that layers
//! response verification over every connection an inner factory creates.
//!
//! The transport itself (sockets, TLS, multipart encoding) lives outside this
//! library; implementations of [`ApiConnection`] supply it. The library's own
//! submission and polling logic is verified against the contracts below.

use vstd::prelude::*;
use vstd::string::StringExecFns;

use crate::args::ApiArguments;
use crate::error::ApiError;
use crate::response::ApiResponse;
use crate::response::json_string_field_of;

verus! {

/// One HTTP exchange at a time against the remote API, under a fixed base
/// URL. Implementations perform the transport; whatever they do, they report
/// failures only as transport or protocol errors — configuration and service
/// errors belong to the layers above.
pub trait ApiConnection: Sized {
    /// The base API URL this connection talks to, as the specifications see
    /// it; every endpoint the library contacts is pinned relative to it.
    /// Implementations outside the library leave the default, of which
    /// nothing is known.
    open spec fn api_url_view(&self) -> Seq<char> {
        Seq::empty()
    }

    /// The base API URL this connection talks to.
    fn api_url(&self) -> (r: String)
        ensures
            r@ == self.api_url_view(),
    ;

    /// Sends the given arguments to the URL as a POST with a multipart body.
    fn send_post_request(&mut self, url: &str, args: &ApiArguments) -> (r: Result<
        ApiResponse,
        ApiError,
    >)
        ensures
            r matches Err(e) ==> e.is_lower_layer(),
    ;

    /// Sends a GET request to the URL.
    fn send_get_request(&mut self, url: &str) -> (r: Result<ApiResponse, ApiError>)
        ensures
            r matches Err(e) ==> e.is_lower_layer(),
    ;

    /// Pauses between two status polls of the same job, so that a waiting
    /// client does not hammer the remote service.
    fn wait_before_next_poll(&self);
}

/// Creates connections. A façade holds one factory for its lifetime and asks
/// it for a connection per started job; decorating variants wrap an inner
/// factory to post-process every connection they hand out.
pub trait ApiConnectionFactory: Sized {
    type Conn: ApiConnection;

    /// Creates a new connection to the remote API.
    fn new_connection(&self) -> Self::Conn;
}

/// The decimal digit for one value below ten.
pub open spec fn decimal_digit(d: nat) -> char {
    if d == 0 {
        '0'
    } else if d == 1 {
        '1'
    } else if d == 2 {
        '2'
    } else if d == 3 {
        '3'
    } else if d == 4 {
        '4'
    } else if d == 5 {
        '5'
    } else if d == 6 {
        '6'
    } else if d == 7 {
        '7'
    } else if d == 8 {
        '8'
    } else {
        '9'
    }
}

/// The decimal digits of a number, most significant first, with no leading
/// zero except for the number zero itself.
pub open spec fn decimal_view(n: nat) -> Seq<char>
    decreases n,
{
    if n < 10 {
        seq![decimal_digit(n)]
    } else {
        decimal_view(n / 10).push(decimal_digit(n % 10))
    }
}

/// The decimal digit of one value below ten, as a string slice.
fn decimal_digit_str(d: u16) -> (r: &'static str)
    requires
        d < 10,
    ensures
        r@ == seq![decimal_digit(d as nat)],
{
    if d == 0 {
        proof {
            reveal_strlit("0");
            assert("0"@ =~= seq![decimal_digit(0)]);
        }
        "0"
    } else if d == 1 {
        proof {
            reveal_strlit("1");
            assert("1"@ =~= seq![decimal_digit(1)]);
        }
        "1"
    } else if d == 2 {
        proof {
            reveal_strlit("2");
            assert("2"@ =~= seq![decimal_digit(2)]);
        }
        "2"
    } else if d == 3 {
        proof {
            reveal_strlit("3");
            assert("3"@ =~= seq![decimal_digit(3)]);
        }
        "3"
    } else if d == 4 {
        proof {
            reveal_strlit("4");
            assert("4"@ =~= seq![decimal_digit(4)]);
        }
        "4"
    } else if d == 5 {
        proof {
            reveal_strlit("5");
            assert("5"@ =~= seq![decimal_digit(5)]);
        }
        "5"
    } else if d == 6 {
        proof {
            reveal_strlit("6");
            assert("6"@ =~= seq![decimal_digit(6)]);
        }
        "6"
    } else if d == 7 {
        proof {
            reveal_strlit("7");
            assert("7"@ =~= seq![decimal_digit(7)]);
        }
        "7"
    } else if d == 8 {
        proof {
            reveal_strlit("8");
            assert("8"@ =~= seq![decimal_digit(8)]);
        }
        "8"
    } else {
        proof {
            reveal_strlit("9");
            assert("9"@ =~= seq![decimal_digit(9)]);
        }
        "9"
    }
}

/// Formats a number in decimal.
pub fn decimal_string(n: u16) -> (r: String)
    ensures
        r@ == decimal_view(n as nat),
    decreases n,
{
    if n < 10 {
        decimal_digit_str(n).to_string()
    } else {
        proof {
            assert(n / 10 < n) by (nonlinear_arith)
                requires
                    n >= 10,
            ;
        }
        let mut s = decimal_string(n / 10);
        s.append(decimal_digit_str(n % 10));
        proof {
            assert(decimal_view((n / 10) as nat) + seq![decimal_digit((n % 10) as nat)]
                =~= decimal_view(n as nat));
        }
        s
    }
}

/// The message of the protocol error a verified response turns into when its
/// HTTP status reports failure: it names the URL, the status, and the
/// remote-supplied description when the error body carries one under
/// "description".
pub open spec fn failed_status_message(url: Seq<char>, status_code: u16, body: Seq<u8>) -> Seq<
    char,
> {
    let base = url + " returned HTTP status "@ + decimal_view(status_code as nat);
    match json_string_field_of(body, "description"@) {
        Some(d) => base + ": "@ + d,
        None => base,
    }
}

/// Checks the HTTP status of a response: a success status passes the response
/// through unchanged; any other status becomes a protocol error describing the
/// failed exchange, so that callers never have to special-case status codes.
pub fn verify_response(response: ApiResponse, url: &str) -> (r: Result<ApiResponse, ApiError>)
    ensures
        response.spec_succeeded() ==> (r matches Ok(resp) && resp == response),
        !response.spec_succeeded() ==> (r matches Err(e) && e matches ApiError::Protocol(m)
            && m@ == failed_status_message(url@, response.status_code, response.body@)),
{
    if response.succeeded() {
        Ok(response)
    } else {
        let mut msg = url.to_string();
        msg.append(" returned HTTP status ");
        let code = decimal_string(response.status_code);
        msg.append(code.as_str());
        match response.json_value_as_string("description") {
            Some(d) => {
                msg.append(": ");
                msg.append(d.as_str());
                Err(ApiError::Protocol(msg))
            },
            None => Err(ApiError::Protocol(msg)),
        }
    }
}

/// A connection that verifies the HTTP status of every response the inner
/// connection produces, turning non-success statuses into protocol errors.
pub struct ResponseVerifyingApiConnection<C: ApiConnection> {
    pub inner: C,
}

impl<C: ApiConnection> ApiConnection for ResponseVerifyingApiConnection<C> {
    open spec fn api_url_view(&self) -> Seq<char> {
        self.inner.api_url_view()
    }

    fn api_url(&self) -> (r: String) {
        self.inner.api_url()
    }

    fn send_post_request(&mut self, url: &str, args: &ApiArguments) -> (r: Result<
        ApiResponse,
        ApiError,
    >) {
        match self.inner.send_post_request(url, args) {
            Ok(response) => verify_response(response, url),
            Err(e) => Err(e),
        }
    }

    fn send_get_request(&mut self, url: &str) -> (r: Result<ApiResponse, ApiError>) {
        match self.inner.send_get_request(url) {
            Ok(response) => verify_response(response, url),
            Err(e) => Err(e),
        }
    }

    fn wait_before_next_poll(&self) {
        self.inner.wait_before_next_poll()
    }
}

/// A factory that wraps an inner factory and decorates every connection it
/// creates with response verification.
pub struct ResponseVerifyingApiConnectionFactory<F: ApiConnectionFactory> {
    pub inner: F,
}

impl<F: ApiConnectionFactory> ResponseVerifyingApiConnectionFactory<F> {
    /// Wraps the given factory.
    pub fn new(inner: F) -> (r: Self)
        ensures
            r.inner == inner,
    {
        ResponseVerifyingApiConnectionFactory { inner }
    }
}

impl<F: ApiConnectionFactory> ApiConnectionFactory for ResponseVerifyingApiConnectionFactory<F> {
    type Conn = ResponseVerifyingApiConnection<F::Conn>;

    fn new_connection(&self) -> (r: Self::Conn) {
        ResponseVerifyingApiConnection { inner: self.inner.new_connection() }
    }
}

} // verus!
