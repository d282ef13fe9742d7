//! What can fail before any service is touched, and what the sender is told
//! of it.

use crate::response::{bare, Response, ResponseView, BAD_REQUEST, INTERNAL_SERVER_ERROR};
use vstd::prelude::*;
use vstd::string::StringExecFns;

verus! {

/// Why an event could not be decoded. Every one of these is the sender's
/// fault: sending the same event again cannot succeed.
#[derive(Clone, Copy, Debug, PartialEq, Eq, Structural)]
pub enum DecodeError {
    /// What was sent was not an event.
    UnreadableEnvelope,
    /// The event carries no data.
    MissingData,
    /// The data is not a JSON document.
    MalformedJson,
    /// `protoPayload.authenticationInfo.principalEmail` is absent or no string.
    MissingPrincipalEmail,
    /// `protoPayload.resourceName` is absent or no string.
    MissingResourceName,
    /// The resource name has fewer than four segments.
    InvalidResourceName,
}

impl DecodeError {
    /// What the sender is told of an event that could not be decoded.
    pub fn into_response(self) -> (response: Response)
        ensures
            response@ == bare(BAD_REQUEST),
    {
        Response::empty(BAD_REQUEST)
    }
}

/// What stands before the cause in the body of a failure's response.
pub const FAILURE_PREFIX: &'static str = "something went wrong: ";

/// A failure of the server's own: the services could not be listed. The
/// sender may send the event again.
#[derive(Clone, Debug, PartialEq, Eq)]
pub struct Error {
    message: String,
}

impl View for Error {
    type V = Seq<char>;

    closed spec fn view(&self) -> Seq<char> {
        self.message@
    }
}

/// What the sender is told of a failure with the given cause.
pub open spec fn failure_response(message: Seq<char>) -> ResponseView {
    ResponseView { status: INTERNAL_SERVER_ERROR, body: FAILURE_PREFIX@ + message }
}

impl Error {
    /// A failure with the given cause.
    pub fn new(message: String) -> (error: Error)
        ensures
            error@ == message@,
    {
        Error { message }
    }

    /// The cause of the failure.
    pub fn message(&self) -> (message: &str)
        ensures
            message@ == self@,
    {
        self.message.as_str()
    }

    /// What the sender is told of the failure.
    pub fn into_response(self) -> (response: Response)
        ensures
            response@ == failure_response(self@),
    {
        Response {
            status: INTERNAL_SERVER_ERROR,
            body: FAILURE_PREFIX.to_owned().concat(self.message.as_str()),
        }
    }
}

} // verus!
