//! Errors reported by the library.
//!
//! The lower layers (connections, responses) only ever report transport or
//! protocol failures; service façades add configuration errors from local
//! validation before any request is made, and job handles add service errors
//! when the remote job itself reports failure.

use vstd::prelude::*;
use vstd::string::StringExecFns;

verus! {

/// Holds when the message begins with the given prefix.
pub open spec fn message_starts_with(message: Seq<char>, prefix: Seq<char>) -> bool {
    prefix.len() <= message.len() && message.subrange(0, prefix.len() as int) == prefix
}

/// An error produced while talking to the remote analysis services.
#[derive(Debug)]
pub enum ApiError {
    /// A required input was missing; detected locally, before any request.
    Configuration(String),
    /// The HTTP exchange itself failed (connection refused, timeout, ...).
    Transport(String),
    /// The remote answered, but with a malformed or incomplete response.
    /// The message names the URL whose response was at fault.
    Protocol(String),
    /// The remote job finished and reported failure; the message carries the
    /// remote-reported reason.
    Service(String),
}

impl ApiError {
    /// The description carried by the error, whatever its kind.
    pub open spec fn message_view(&self) -> Seq<char> {
        match self {
            ApiError::Configuration(m) => m@,
            ApiError::Transport(m) => m@,
            ApiError::Protocol(m) => m@,
            ApiError::Service(m) => m@,
        }
    }

    /// Holds of the error kinds that connections and responses may produce.
    pub open spec fn is_lower_layer(&self) -> bool {
        self is Transport || self is Protocol
    }

    /// Prefixes the message of a transport error with the operation that
    /// failed, so the description names the request it came from; errors of
    /// every other kind already name their request and pass unchanged.
    pub fn with_transport_context(self, context: &str) -> (r: Self)
        ensures
            self matches ApiError::Transport(m) ==> (r matches ApiError::Transport(m2)
                && m2@ == context@ + m@ && message_starts_with(m2@, context@)),
            !(self is Transport) ==> r == self,
    {
        match self {
            ApiError::Transport(m) => {
                let mut msg = context.to_string();
                msg.append(m.as_str());
                proof {
                    assert(msg@.subrange(0, context@.len() as int) =~= context@);
                }
                ApiError::Transport(msg)
            },
            other => other,
        }
    }

    /// The description carried by the error.
    pub fn message(&self) -> (r: &str)
        ensures
            r@ == self.message_view(),
    {
        match self {
            ApiError::Configuration(m) => m.as_str(),
            ApiError::Transport(m) => m.as_str(),
            ApiError::Protocol(m) => m.as_str(),
            ApiError::Service(m) => m.as_str(),
        }
    }
}

} // verus!
