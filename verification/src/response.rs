//! Responses: a status and a body, written out as one text.

use vstd::prelude::*;
use vstd::string::StringExecFns;

verus! {

/// The three statuses that a response can have.
#[derive(Clone, Copy, Debug, PartialEq, Eq, Structural)]
pub enum Status {
    Success,
    NotFound,
    InternalServerError,
}

/// The head of a response with the status `status`: the status line, the
/// content type where there is one, and the blank line.
pub open spec fn status_line(status: Status) -> Seq<char> {
    match status {
        Status::Success => "HTTP/1.1 200 OK\r\nContent-Type: application/json\r\n\r\n"@,
        Status::NotFound => "HTTP/1.1 404 NOT FOUND\r\n\r\n"@,
        Status::InternalServerError => "HTTP/1.1 500 INTERNAL SERVER ERROR\r\n\r\n"@,
    }
}

/// The number of the status `status`.
pub open spec fn status_code(status: Status) -> u16 {
    match status {
        Status::Success => 200,
        Status::NotFound => 404,
        Status::InternalServerError => 500,
    }
}

impl Status {
    /// The head of a response with this status.
    pub fn line(self) -> (line: &'static str)
        ensures
            line@ == status_line(self),
    {
        match self {
            Status::Success => "HTTP/1.1 200 OK\r\nContent-Type: application/json\r\n\r\n",
            Status::NotFound => "HTTP/1.1 404 NOT FOUND\r\n\r\n",
            Status::InternalServerError => "HTTP/1.1 500 INTERNAL SERVER ERROR\r\n\r\n",
        }
    }

    /// The number of this status.
    pub fn code(self) -> (code: u16)
        ensures
            code == status_code(self),
    {
        match self {
            Status::Success => 200,
            Status::NotFound => 404,
            Status::InternalServerError => 500,
        }
    }
}

/// A response: its status and its body.
#[derive(Debug, PartialEq, Eq)]
pub struct Response {
    pub status: Status,
    pub body: String,
}

/// A response as a mathematical value.
pub struct ResponseView {
    pub status: Status,
    pub body: Seq<char>,
}

impl View for Response {
    type V = ResponseView;

    open spec fn view(&self) -> ResponseView {
        ResponseView { status: self.status, body: self.body@ }
    }
}

/// The text that goes out for the response `r`: its head, then its body.
pub open spec fn rendered(r: ResponseView) -> Seq<char> {
    status_line(r.status) + r.body
}

impl Response {
    /// The response with the status `status` and the body `body`.
    pub fn new(status: Status, body: &str) -> (r: Response)
        ensures
            r@ == (ResponseView { status, body: body@ }),
    {
        Response { status, body: body.to_owned() }
    }

    /// The text that goes out for this response.
    pub fn render(&self) -> (text: String)
        ensures
            text@ == rendered(self@),
    {
        let mut text = String::from_str(self.status.line());
        text.append(self.body.as_str());
        text
    }
}

} // verus!
