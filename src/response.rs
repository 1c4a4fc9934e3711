//! Responses: a status and a body, written as the status line followed at
//! once by the body text.

use vstd::prelude::*;

verus! {

/// Status lines with their headers. Only the success line ends the header
/// block with a blank line.
pub const OK_RESPONSE: &'static str = "HTTP/1.1 200 OK\r\nContent-Type: application/json\r\n\r\n";

pub const NOT_FOUND: &'static str = "HTTP/1.1 404 NOT FOUND\r\nContent-Type: application/json\r\n";

pub const INTERNAL_SERVER_ERROR: &'static str =
    "HTTP/1.1 500 INTERNAL SERVER ERROR\r\nContent-Type: application/json\r\n";

/// The three outcomes a handler can give.
#[derive(Clone, Copy, Debug, PartialEq, Eq)]
pub enum Status {
    Success,
    NotFound,
    ServerError,
}

/// The status line, with its headers, of each status.
pub open spec fn status_line_of(s: Status) -> Seq<char> {
    match s {
        Status::Success => OK_RESPONSE@,
        Status::NotFound => NOT_FOUND@,
        Status::ServerError => INTERNAL_SERVER_ERROR@,
    }
}

/// A status and its body text.
pub struct Response {
    pub status: Status,
    pub body: String,
}

/// The response has the given status and body text.
pub open spec fn responds(r: Response, s: Status, body: Seq<char>) -> bool {
    r.status == s && r.body@ == body
}

impl Response {
    /// A response with the given status and a copy of the body text.
    pub fn new(status: Status, body: &str) -> (r: Response)
        ensures
            responds(r, status, body@),
    {
        Response { status, body: String::from_str(body) }
    }

    /// The status line, headers included, that opens the response text.
    pub fn status_line(&self) -> (r: &'static str)
        ensures
            r@ == status_line_of(self.status),
    {
        match self.status {
            Status::Success => OK_RESPONSE,
            Status::NotFound => NOT_FOUND,
            Status::ServerError => INTERNAL_SERVER_ERROR,
        }
    }

    /// The whole response text: the status line, then the body.
    pub fn to_text(&self) -> (r: String)
        ensures
            r@ == status_line_of(self.status) + self.body@,
    {
        let mut r = String::from_str(self.status_line());
        r.append(self.body.as_str());
        r
    }
}

} // verus!
