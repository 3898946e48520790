//! The parts of an HTTP exchange that error catching reads and writes.

use crate::text::{eq_ignoring_case, same_ignoring_case};
use crate::uri::Origin;
use vstd::prelude::*;
use vstd::utf8::encode_utf8;

verus! {

/// The status of a response.
#[derive(Clone, Copy, Debug, PartialEq, Eq, Structural)]
pub struct Status {
    pub code: u16,
}

impl Status {
    /// The status with this code.
    pub fn new(code: u16) -> (status: Status)
        ensures
            status.code == code,
    {
        Status { code }
    }
}

/// The media types in which an error can be described.
#[derive(Clone, Copy, Debug, PartialEq, Eq, Structural)]
pub enum ContentType {
    /// `text/html; charset=utf-8`
    HTML,
    /// `application/json`
    JSON,
}

/// A media type, `top/sub`.
#[derive(Debug)]
pub struct MediaType {
    pub top: String,
    pub sub: String,
}

impl MediaType {
    /// The media type is `application/json`, in whatever letter case.
    pub open spec fn json(self) -> bool {
        same_ignoring_case(self.top@, "application"@) && same_ignoring_case(self.sub@, "json"@)
    }

    /// The media type with these names.
    pub fn new(top: &str, sub: &str) -> (media: MediaType)
        ensures
            media.top@ == top@,
            media.sub@ == sub@,
    {
        MediaType { top: top.to_owned(), sub: sub.to_owned() }
    }

    /// Tells `application/json` from the other media types.
    pub fn is_json(&self) -> (b: bool)
        ensures
            b == self.json(),
    {
        eq_ignoring_case(self.top.as_str(), "application") && eq_ignoring_case(
            self.sub.as_str(),
            "json",
        )
    }
}

/// What the `Accept` header of a request asks for.
#[derive(Debug)]
pub struct Accept {
    /// The media type that the client prefers to the others it named.
    pub preferred: MediaType,
}

impl Accept {
    /// The media type that the client prefers.
    pub fn preferred(&self) -> (media: &MediaType)
        ensures
            *media == self.preferred,
    {
        &self.preferred
    }
}

/// A request that ended in an error.
#[derive(Debug)]
pub struct Request {
    /// What was requested.
    pub uri: Origin,
    /// The `Accept` header, if the request has one.
    pub accept: Option<Accept>,
}

impl Request {
    /// The client asked for JSON before anything else.
    pub open spec fn prefers_json(self) -> bool {
        self.accept matches Some(a) && a.preferred.json()
    }

    /// What was requested.
    pub fn uri(&self) -> (uri: &Origin)
        ensures
            *uri == self.uri,
    {
        &self.uri
    }

    /// The `Accept` header.
    pub fn accept(&self) -> (accept: Option<&Accept>)
        ensures
            match accept {
                None => self.accept is None,
                Some(a) => self.accept == Some(*a),
            },
    {
        self.accept.as_ref()
    }
}

/// A body whose length is announced.
#[derive(Debug)]
pub struct SizedBody {
    /// The length in bytes.
    pub size: usize,
    pub data: String,
}

impl SizedBody {
    /// The announced length is that of the data.
    pub open spec fn wf(self) -> bool {
        self.size == encode_utf8(self.data@).len()
    }
}

/// A response.
#[derive(Debug)]
pub struct Response {
    pub status: Status,
    pub content_type: Option<ContentType>,
    pub body: Option<SizedBody>,
}

impl Response {
    /// An empty response with status 200.
    pub fn new() -> (r: Response)
        ensures
            r.status.code == 200,
            r.content_type is None,
            r.body is None,
    {
        Response { status: Status { code: 200 }, content_type: None, body: None }
    }

    /// Sets the body and the length to announce for it.
    pub fn set_sized_body(&mut self, size: usize, data: String)
        ensures
            *final(self) == (Response { body: Some(SizedBody { size, data }), ..*old(self) }),
    {
        self.body = Some(SizedBody { size, data });
    }
}

} // verus!
