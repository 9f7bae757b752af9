//! HTTP responses as plain values.

use vstd::prelude::*;

verus! {

/// Status of a temporary redirect, which keeps the request's method.
pub const TEMPORARY_REDIRECT: u16 = 307;

/// Status of a response that carries part of a resource.
pub const PARTIAL_CONTENT: u16 = 206;

/// Status of a response to a request that cannot be understood.
pub const BAD_REQUEST: u16 = 400;

/// Status of a response that refuses the request's method.
pub const METHOD_NOT_ALLOWED: u16 = 405;

/// One header line of a response.
#[derive(Debug, PartialEq, Eq)]
pub struct Header {
    pub name: String,
    pub value: String,
}

/// What a [`Header`] stands for: its name and its value, as text.
pub struct HeaderView {
    pub name: Seq<char>,
    pub value: Seq<char>,
}

impl View for Header {
    type V = HeaderView;

    open spec fn view(&self) -> HeaderView {
        HeaderView { name: self.name@, value: self.value@ }
    }
}

impl Header {
    /// The header line `name: value`.
    pub fn new(name: &str, value: String) -> (header: Header)
        ensures
            header@ == (HeaderView { name: name@, value: value@ }),
    {
        Header { name: name.to_owned(), value }
    }
}

/// A response: status code, header lines in the order in which they are written, and body.
#[derive(Debug, PartialEq, Eq)]
pub struct Response {
    pub status: u16,
    pub headers: Vec<Header>,
    pub body: Vec<u8>,
}

/// What a [`Response`] stands for.
pub struct ResponseView {
    pub status: u16,
    pub headers: Seq<HeaderView>,
    pub body: Seq<u8>,
}

/// The header lines that `headers` stand for, in the same order.
pub open spec fn header_views(headers: Seq<Header>) -> Seq<HeaderView> {
    headers.map_values(|header: Header| header@)
}

impl View for Response {
    type V = ResponseView;

    open spec fn view(&self) -> ResponseView {
        ResponseView {
            status: self.status,
            headers: header_views(self.headers@),
            body: self.body@,
        }
    }
}

} // verus!
