//! Responses: a status code, header fields and a body description.
use vstd::prelude::*;
use crate::header_map::HeaderMap;

verus! {

/// How a response body is encoded on its way out.
#[derive(Clone, Copy, Debug, PartialEq, Eq, Structural)]
pub enum Encoding {
    Gzip,
    Deflate,
    Brotli,
}

/// What a response body holds. A `FileRange` body streams bytes
/// `start..end` of the response's file in reads of `buf_size` bytes;
/// `Encoded` and `Decoded` stream another body through a (de)compressor.
pub enum Body {
    Empty,
    Full(Vec<u8>),
    FileRange { start: u64, end: u64, buf_size: usize },
    Encoded(Encoding, Box<Body>),
    Decoded(Encoding, Box<Body>),
}

/// A response.
pub struct Response {
    pub status: u16,
    pub headers: HeaderMap,
    pub body: Body,
}

impl Response {
    /// An empty `200 OK` response.
    pub fn new_empty() -> (r: Response)
        ensures
            r.status == 200,
            r.headers.view() == Seq::<(Seq<char>, Seq<u8>)>::empty(),
            r.body is Empty,
    {
        Response { status: 200, headers: HeaderMap::new(), body: Body::Empty }
    }

    /// A `200 OK` response with the given body.
    pub fn with_body(body: Body) -> (r: Response)
        ensures
            r.status == 200,
            r.headers.view() == Seq::<(Seq<char>, Seq<u8>)>::empty(),
            r.body == body,
    {
        Response { status: 200, headers: HeaderMap::new(), body }
    }
}

/// Values that can answer a request.
pub trait Reply: Sized {
    /// The status code of the response this value turns into.
    spec fn reply_status(&self) -> u16;

    /// The header fields of that response.
    spec fn reply_headers(&self) -> Seq<(Seq<char>, Seq<u8>)>;

    /// The body of that response.
    spec fn reply_body(&self) -> Body;

    fn into_response(self) -> (r: Response)
        ensures
            r.status == self.reply_status(),
            r.headers.view() == self.reply_headers(),
            r.body == self.reply_body(),
    ;
}

impl Reply for Response {
    open spec fn reply_status(&self) -> u16 {
        self.status
    }

    open spec fn reply_headers(&self) -> Seq<(Seq<char>, Seq<u8>)> {
        self.headers.view()
    }

    open spec fn reply_body(&self) -> Body {
        self.body
    }

    fn into_response(self) -> (r: Response) {
        self
    }
}

} // verus!
