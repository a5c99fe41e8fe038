//! Requests and responses as plain values.
//!
//! A request keeps what a responder may look at, a response what is sent
//! back. Sockets, framing and headers stay with whoever runs the server.

use vstd::prelude::*;

verus! {

/// Status of a response that carries a payload.
pub const STATUS_OK: u16 = 200;

/// Status of a response to a path that no route covers.
pub const STATUS_NOT_FOUND: u16 = 404;

/// An inbound request: its method and the path of its URI.
#[derive(Debug)]
pub struct Request {
    pub method: String,
    pub path: String,
}

/// The mathematical content of a [`Request`].
pub struct RequestView {
    pub method: Seq<char>,
    pub path: Seq<char>,
}

impl View for Request {
    type V = RequestView;

    open spec fn view(&self) -> RequestView {
        RequestView { method: self.method@, path: self.path@ }
    }
}

impl Request {
    /// A request with the given method and path.
    pub fn new(method: &str, path: &str) -> (request: Request)
        ensures
            request@ == (RequestView { method: method@, path: path@ }),
    {
        Request { method: String::from_str(method), path: String::from_str(path) }
    }
}

/// An outbound response: a status code and a body, possibly empty.
#[derive(Debug)]
pub struct Response {
    pub status: u16,
    pub body: String,
}

/// The mathematical content of a [`Response`].
pub struct ResponseView {
    pub status: u16,
    pub body: Seq<char>,
}

impl View for Response {
    type V = ResponseView;

    open spec fn view(&self) -> ResponseView {
        ResponseView { status: self.status, body: self.body@ }
    }
}

/// What a `200 OK` response with the given body looks like.
pub open spec fn ok_view(body: Seq<char>) -> ResponseView {
    ResponseView { status: STATUS_OK, body }
}

/// What the `404 Not Found` response looks like: no body at all.
pub open spec fn not_found_view() -> ResponseView {
    ResponseView { status: STATUS_NOT_FOUND, body: Seq::empty() }
}

impl Response {
    /// `200 OK` with `body` as its payload.
    pub fn ok(body: String) -> (response: Response)
        ensures
            response == (Response { status: STATUS_OK, body }),
            response@ == ok_view(body@),
    {
        Response { status: STATUS_OK, body }
    }

    /// `404 Not Found` with an empty body.
    pub fn not_found() -> (response: Response)
        ensures
            response@ == not_found_view(),
    {
        Response { status: STATUS_NOT_FOUND, body: String::new() }
    }
}

} // verus!
