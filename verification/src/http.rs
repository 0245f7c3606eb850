//! Requests and responses as plain values.

use vstd::prelude::*;
use vstd::string::*;
use crate::text::text_eq;

verus! {

/// The status of a response that carries what was asked for.
pub const STATUS_OK: u16 = 200;

/// The status of a response to a request for something that is not there.
pub const STATUS_NOT_FOUND: u16 = 404;

/// The status of a response to a request whose method the path does not
/// take.
pub const STATUS_METHOD_NOT_ALLOWED: u16 = 405;

/// The method of a request.
#[derive(Clone, Copy, Debug, PartialEq, Eq, Structural)]
pub enum Method {
    /// `GET`
    Get,
    /// `HEAD`
    Head,
    /// `OPTIONS`
    Options,
    /// Any other method.
    Other,
}

impl Method {
    /// The method that `name` names. Names are matched whole and in upper
    /// case, as HTTP writes them.
    pub open spec fn of_name(name: Seq<char>) -> Method {
        if name == "GET"@ {
            Method::Get
        } else if name == "HEAD"@ {
            Method::Head
        } else if name == "OPTIONS"@ {
            Method::Options
        } else {
            Method::Other
        }
    }

    /// Reads the method of a request from its name.
    pub fn from_name(name: &str) -> (method: Method)
        ensures
            method == Method::of_name(name@),
    {
        if text_eq(name, "GET") {
            Method::Get
        } else if text_eq(name, "HEAD") {
            Method::Head
        } else if text_eq(name, "OPTIONS") {
            Method::Options
        } else {
            Method::Other
        }
    }
}

/// One header line of a response. Names are written in lower case.
#[derive(Clone, Copy, Debug)]
pub struct Header {
    /// The header's name.
    pub name: &'static str,
    /// The header's value.
    pub value: &'static str,
}

impl View for Header {
    type V = (Seq<char>, Seq<char>);

    open spec fn view(&self) -> (Seq<char>, Seq<char>) {
        (self.name@, self.value@)
    }
}

/// What a `Response` stands for.
pub struct ResponseView {
    /// The status code.
    pub status: u16,
    /// The header lines, in order, each a name and a value.
    pub headers: Seq<(Seq<char>, Seq<char>)>,
    /// The body.
    pub body: Seq<char>,
}

impl ResponseView {
    /// A response with the given status, no header and an empty body.
    pub open spec fn empty(status: u16) -> ResponseView {
        ResponseView { status, headers: Seq::empty(), body: Seq::empty() }
    }

    /// Whether a header line with this name and value is present.
    pub open spec fn has_header(self, name: Seq<char>, value: Seq<char>) -> bool {
        exists|i: int| 0 <= i < self.headers.len() && self.headers[i] == (name, value)
    }

    /// This response with one more header line at the end.
    pub open spec fn with_header(self, name: Seq<char>, value: Seq<char>) -> ResponseView {
        ResponseView { headers: self.headers.push((name, value)), ..self }
    }

    /// This response with another body.
    pub open spec fn with_body(self, body: Seq<char>) -> ResponseView {
        ResponseView { body, ..self }
    }

    /// This response with an empty body.
    pub open spec fn without_body(self) -> ResponseView {
        ResponseView { body: Seq::empty(), ..self }
    }
}

/// The header lines as names and values.
pub open spec fn header_views(headers: Seq<Header>) -> Seq<(Seq<char>, Seq<char>)> {
    headers.map_values(|h: Header| h@)
}

/// A response: a status code, header lines and a body.
#[derive(Debug)]
pub struct Response {
    /// The status code.
    pub status: u16,
    /// The header lines, in order.
    pub headers: Vec<Header>,
    /// The body.
    pub body: String,
}

impl View for Response {
    type V = ResponseView;

    open spec fn view(&self) -> ResponseView {
        ResponseView {
            status: self.status,
            headers: header_views(self.headers@),
            body: self.body@,
        }
    }
}

impl Response {
    /// A response with the given status, no header and an empty body.
    pub fn new(status: u16) -> (response: Response)
        ensures
            response@ == ResponseView::empty(status),
    {
        let response = Response { status, headers: Vec::new(), body: String::new() };
        assert(response@.headers =~= Seq::empty());
        response
    }

    /// Adds a header line at the end.
    pub fn with_header(self, name: &'static str, value: &'static str) -> (response: Response)
        ensures
            response@ == self@.with_header(name@, value@),
    {
        let mut headers = self.headers;
        headers.push(Header { name, value });
        let response = Response { status: self.status, headers, body: self.body };
        assert(response@.headers =~= self@.headers.push((name@, value@)));
        response
    }

    /// Replaces the body.
    pub fn with_body(self, body: String) -> (response: Response)
        ensures
            response@ == self@.with_body(body@),
    {
        Response { status: self.status, headers: self.headers, body }
    }

    /// Drops the body and keeps the status and the header lines.
    pub fn without_body(self) -> (response: Response)
        ensures
            response@ == self@.without_body(),
    {
        Response { status: self.status, headers: self.headers, body: String::new() }
    }

    /// Whether a header line with this name and value is present.
    pub fn has_header(&self, name: &str, value: &str) -> (present: bool)
        ensures
            present == self@.has_header(name@, value@),
    {
        let mut i: usize = 0;
        while i < self.headers.len()
            invariant
                i <= self.headers@.len(),
                forall|k: int| 0 <= k < i ==> (#[trigger] self@.headers[k]) != (name@, value@),
            decreases self.headers@.len() - i,
        {
            let header = &self.headers[i];
            assert(self@.headers[i as int] == header@);
            if text_eq(header.name, name) && text_eq(header.value, value) {
                return true;
            }
            i += 1;
        }
        false
    }
}

} // verus!
