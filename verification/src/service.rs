//! The ways a call to a remote service fails.

use vstd::prelude::*;
use vstd::string::StringExecFns;

verus! {

/// Why a call to a remote service failed.
#[derive(Debug)]
pub enum ServiceCallError {
    /// The service answered, and refused the request.
    ServiceError(),
    /// The service was not reached: a timeout, a token or a gateway error.
    ConnectionError,
    /// A fault on the caller's side, with its cause.
    ApplicationError(String),
}

impl ServiceCallError {
    /// The error in words.
    pub open spec fn message_text(&self) -> Seq<char> {
        match self {
            ServiceCallError::ServiceError() =>
            "Remote service call returned with error (rejected the request)"@,
            ServiceCallError::ConnectionError =>
            "There was a connection error, e.g. timeout, token error, gateway error, etc."@,
            ServiceCallError::ApplicationError(cause) =>
            "There was an error (bug) in our application. Cause: `"@ + cause@ + "`"@,
        }
    }

    /// The error in words; an application error gives its cause between
    /// backticks.
    pub fn message(&self) -> (text: String)
        ensures
            text@ == self.message_text(),
    {
        match self {
            ServiceCallError::ServiceError() => String::from_str(
                "Remote service call returned with error (rejected the request)",
            ),
            ServiceCallError::ConnectionError => String::from_str(
                "There was a connection error, e.g. timeout, token error, gateway error, etc.",
            ),
            ServiceCallError::ApplicationError(cause) => {
                let mut text = String::from_str(
                    "There was an error (bug) in our application. Cause: `",
                );
                text.append(cause.as_str());
                text.append("`");
                text
            },
        }
    }
}

} // verus!
