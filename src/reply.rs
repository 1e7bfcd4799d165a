//! What a request handler answers: a status, whether the body is HTML, and
//! the body text.
use vstd::prelude::*;

verus! {

/// The classes of answer the handlers give.
#[derive(Clone, Copy, Debug, PartialEq, Eq, Structural)]
pub enum Status {
    Success,
    BadRequest,
    ServerError,
    NotFound,
}

impl Status {
    pub open spec fn spec_code(self) -> u16 {
        match self {
            Status::Success => 200,
            Status::BadRequest => 400,
            Status::ServerError => 500,
            Status::NotFound => 404,
        }
    }

    /// The HTTP status code of this class.
    pub fn code(&self) -> (r: u16)
        ensures
            r == self.spec_code(),
    {
        match self {
            Status::Success => 200,
            Status::BadRequest => 400,
            Status::ServerError => 500,
            Status::NotFound => 404,
        }
    }
}

/// An answer to a request.
#[derive(Debug)]
pub struct Reply {
    pub status: Status,
    /// The body is an HTML document.
    pub html: bool,
    pub body: String,
}

impl Reply {
    /// A plain-text answer.
    pub fn text(status: Status, body: String) -> (r: Reply)
        ensures
            r.status == status,
            !r.html,
            r.body@ == body@,
    {
        Reply { status, html: false, body }
    }

    /// A plain-text failure of the service itself, with its diagnostic.
    pub fn server_error(body: String) -> (r: Reply)
        ensures
            r.status == Status::ServerError,
            !r.html,
            r.body@ == body@,
    {
        Reply::text(Status::ServerError, body)
    }

    /// A plain-text refusal of the request.
    pub fn bad_request(body: &str) -> (r: Reply)
        ensures
            r.status == Status::BadRequest,
            !r.html,
            r.body@ == body@,
    {
        Reply::text(Status::BadRequest, String::from_str(body))
    }

    /// The answer to a route that nothing handles: `404: ` and the path.
    pub fn not_found(path: &str) -> (r: Reply)
        ensures
            r.status == Status::NotFound,
            !r.html,
            r.body@ == "404: "@ + path@,
    {
        let mut body = String::from_str("404: ");
        body.append(path);
        Reply::text(Status::NotFound, body)
    }
}

/// The refusal of a path that leaves the source tree.
pub open spec fn forbidden_text() -> Seq<char> {
    "cheating bastard"@
}

pub fn forbidden() -> (r: Reply)
    ensures
        r.status == Status::BadRequest,
        !r.html,
        r.body@ == forbidden_text(),
{
    Reply::bad_request("cheating bastard")
}

} // verus!
