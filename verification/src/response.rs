//! What the sender of an event is told.

use vstd::prelude::*;

verus! {

/// The status of a request that was handled.
pub const OK: u16 = 200;

/// The status of a request whose event could not be decoded.
pub const BAD_REQUEST: u16 = 400;

/// The status of a request whose services could not be listed.
pub const INTERNAL_SERVER_ERROR: u16 = 500;

/// What the sender of an event is told.
#[derive(Clone, Debug, PartialEq, Eq)]
pub struct Response {
    pub status: u16,
    pub body: String,
}

/// What a [`Response`] holds.
pub struct ResponseView {
    pub status: u16,
    pub body: Seq<char>,
}

impl View for Response {
    type V = ResponseView;

    open spec fn view(&self) -> ResponseView {
        ResponseView { status: self.status, body: self.body@ }
    }
}

/// The response with a status and nothing else.
pub open spec fn bare(status: u16) -> ResponseView {
    ResponseView { status, body: Seq::<char>::empty() }
}

impl Response {
    /// Makes a response with a status and an empty body.
    pub fn empty(status: u16) -> (response: Response)
        ensures
            response@ == bare(status),
    {
        Response { status, body: String::new() }
    }
}

} // verus!
