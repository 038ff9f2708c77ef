//! Requests and responses as the router sees them.

use vstd::prelude::*;

verus! {

/// The method of a request. Every method but the four that can be routed is
/// `Other`.
#[derive(Clone, Copy, Debug, PartialEq, Eq, Structural)]
pub enum Method {
    Get,
    Post,
    Put,
    Delete,
    Other,
}

/// The status of a response.
#[derive(Clone, Copy, Debug, PartialEq, Eq, Structural)]
pub enum Status {
    Success,
    NotFound,
}

impl Status {
    /// The number of the status.
    pub open spec fn number(self) -> u16 {
        match self {
            Status::Success => 200,
            Status::NotFound => 404,
        }
    }

    /// The number of the status.
    pub fn code(&self) -> (code: u16)
        ensures
            code == self.number(),
    {
        match self {
            Status::Success => 200,
            Status::NotFound => 404,
        }
    }
}

/// How a served file is tagged. The router hands the setting on to each file
/// response and does nothing else with it.
#[derive(Clone, Copy, Debug, PartialEq, Eq, Structural)]
pub enum ETag {
    Off,
    Weak,
    Strong,
}

impl Default for ETag {
    fn default() -> (etag: Self)
        ensures
            etag == ETag::Off,
    {
        ETag::Off
    }
}

/// A response: its status, the headers that the router sets, and its body.
#[derive(Debug)]
pub struct Response {
    pub status: Status,
    /// The value of the Content-Length header, if it is set.
    pub content_length: Option<u64>,
    /// Whether the Content-Type header is set, to `application/wasm`.
    pub wasm: bool,
    /// Whether the Content-Encoding header is set, to `gzip`.
    pub gzip: bool,
    pub etag: ETag,
    pub body: Vec<u8>,
}

/// What a `Response` holds.
pub struct ResponseView {
    pub status: Status,
    pub content_length: Option<u64>,
    pub wasm: bool,
    pub gzip: bool,
    pub etag: ETag,
    pub body: Seq<u8>,
}

impl View for Response {
    type V = ResponseView;

    open spec fn view(&self) -> ResponseView {
        ResponseView {
            status: self.status,
            content_length: self.content_length,
            wasm: self.wasm,
            gzip: self.gzip,
            etag: self.etag,
            body: self.body@,
        }
    }
}

/// The response that carries what a handler wrote: success, no header set.
pub open spec fn plain_response(body: Seq<u8>) -> ResponseView {
    ResponseView {
        status: Status::Success,
        content_length: None,
        wasm: false,
        gzip: false,
        etag: ETag::Off,
        body,
    }
}

/// The response that serves a file: success, the length of the contents, and
/// the headers that say how they are encoded and what they are.
pub open spec fn file_response(contents: Seq<u8>, gzip: bool, wasm: bool, etag: ETag) -> ResponseView {
    ResponseView {
        status: Status::Success,
        content_length: Some(contents.len() as u64),
        wasm,
        gzip,
        etag,
        body: contents,
    }
}

/// The response that shows the not-found page: success, so that the page is
/// rendered, and the length of the page.
pub open spec fn page_response(contents: Seq<u8>) -> ResponseView {
    file_response(contents, false, false, ETag::Off)
}

/// The response for what was not found: the status says so, the body is empty.
pub open spec fn empty_not_found() -> ResponseView {
    ResponseView {
        status: Status::NotFound,
        content_length: None,
        wasm: false,
        gzip: false,
        etag: ETag::Off,
        body: Seq::empty(),
    }
}

impl Response {
    /// The response that carries what a handler wrote.
    pub fn plain(body: Vec<u8>) -> (response: Response)
        ensures
            response@ == plain_response(body@),
    {
        Response {
            status: Status::Success,
            content_length: None,
            wasm: false,
            gzip: false,
            etag: ETag::Off,
            body,
        }
    }

    /// The response that serves a file.
    pub fn file(contents: Vec<u8>, gzip: bool, wasm: bool, etag: ETag) -> (response: Response)
        ensures
            response@ == file_response(contents@, gzip, wasm, etag),
    {
        let length: u64 = contents.len() as u64;
        Response { status: Status::Success, content_length: Some(length), wasm, gzip, etag, body: contents }
    }

    /// The response that shows the not-found page.
    pub fn page(contents: Vec<u8>) -> (response: Response)
        ensures
            response@ == page_response(contents@),
    {
        Response::file(contents, false, false, ETag::Off)
    }

    /// The response for what was not found.
    pub fn not_found() -> (response: Response)
        ensures
            response@ == empty_not_found(),
    {
        Response {
            status: Status::NotFound,
            content_length: None,
            wasm: false,
            gzip: false,
            etag: ETag::Off,
            body: Vec::new(),
        }
    }
}

} // verus!
