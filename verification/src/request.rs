//! The request that a transport is asked to send.

use vstd::prelude::*;

verus! {

/// The HTTP method of a request.
#[derive(Debug, Copy, Clone, PartialEq, Eq, Structural)]
pub enum Method {
    Get,
    Put,
}

/// The method's name as it is sent and signed.
pub open spec fn verb(method: Method) -> Seq<char> {
    match method {
        Method::Get => "GET"@,
        Method::Put => "PUT"@,
    }
}

impl Method {
    /// The method's name as it is sent and signed.
    pub fn as_str(&self) -> (name: &'static str)
        ensures
            name@ == verb(*self),
    {
        match self {
            Method::Get => "GET",
            Method::Put => "PUT",
        }
    }
}

/// One header line: a name and its value.
#[derive(Debug, Clone)]
pub struct Header {
    pub name: String,
    pub value: String,
}

impl View for Header {
    type V = (Seq<char>, Seq<char>);

    open spec fn view(&self) -> (Seq<char>, Seq<char>) {
        (self.name@, self.value@)
    }
}

/// The header lines as plain text, in their order.
pub open spec fn header_lines(headers: Seq<Header>) -> Seq<(Seq<char>, Seq<char>)> {
    Seq::new(headers.len(), |i: int| headers[i]@)
}

/// What a request holds, as plain text and bytes.
pub struct RequestView {
    pub method: Method,
    pub url: Seq<char>,
    pub headers: Seq<(Seq<char>, Seq<char>)>,
    pub body: Option<Seq<u8>>,
}

/// A request for one object: it lives for one call and is handed to the
/// transport as it is.
#[derive(Debug, Clone)]
pub struct Request {
    pub method: Method,
    pub url: String,
    pub headers: Vec<Header>,
    pub body: Option<Vec<u8>>,
}

impl View for Request {
    type V = RequestView;

    open spec fn view(&self) -> RequestView {
        RequestView {
            method: self.method,
            url: self.url@,
            headers: header_lines(self.headers@),
            body: match self.body {
                Some(b) => Some(b@),
                None => None,
            },
        }
    }
}

} // verus!
