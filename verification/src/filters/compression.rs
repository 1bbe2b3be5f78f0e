//! Compression Filters
//!
//! Filters that compress the body of a response: the response says so in
//! its `content-encoding` field, and its body is streamed through the
//! encoder.
use vstd::prelude::*;
use crate::filter::Polled;
use crate::reject::Rejection;
use crate::reply::{Body, Encoding, Reply, Response};
use crate::text::lower_chars;

verus! {

/// The `content-encoding` token of an encoding.
pub open spec fn encoding_token(e: Encoding) -> Seq<u8> {
    match e {
        Encoding::Gzip => seq![103u8, 122, 105, 112],
        Encoding::Deflate => seq![100u8, 101, 102, 108, 97, 116, 101],
        Encoding::Brotli => seq![98u8, 114],
    }
}

/// The `content-encoding` token of an encoding.
pub fn encoding_token_exec(e: Encoding) -> (t: &'static [u8])
    ensures
        t@ == encoding_token(e),
{
    match e {
        Encoding::Gzip => {
            let t: &'static [u8] = &[103u8, 122, 105, 112];
            assert(t@ =~= encoding_token(e));
            t
        },
        Encoding::Deflate => {
            let t: &'static [u8] = &[100u8, 101, 102, 108, 97, 116, 101];
            assert(t@ =~= encoding_token(e));
            t
        },
        Encoding::Brotli => {
            let t: &'static [u8] = &[98u8, 114];
            assert(t@ =~= encoding_token(e));
            t
        },
    }
}

/// A filter that compresses replies with one encoding.
#[derive(Clone, Copy, Debug)]
pub struct Compression {
    encoding: Encoding,
}

/// Compresses replies with gzip.
pub fn gzip() -> (c: Compression)
    ensures
        c.spec_encoding() == Encoding::Gzip,
{
    Compression { encoding: Encoding::Gzip }
}

/// Compresses replies with deflate.
pub fn deflate() -> (c: Compression)
    ensures
        c.spec_encoding() == Encoding::Deflate,
{
    Compression { encoding: Encoding::Deflate }
}

/// Compresses replies with brotli.
pub fn brotli() -> (c: Compression)
    ensures
        c.spec_encoding() == Encoding::Brotli,
{
    Compression { encoding: Encoding::Brotli }
}

impl Compression {
    pub closed spec fn spec_encoding(&self) -> Encoding {
        self.encoding
    }

    /// The encoding.
    pub fn encoding(&self) -> (e: Encoding)
        ensures
            e == self.spec_encoding(),
    {
        self.encoding
    }

    /// The response `resp` compressed: a `content-encoding` field naming
    /// the encoding is appended, and the body is encoded.
    pub fn compress(&self, resp: Response) -> (r: Response)
        ensures
            r.status == resp.status,
            r.headers.view() == resp.headers.view().push(
                (lower_chars("content-encoding"@), encoding_token(self.spec_encoding())),
            ),
            r.body == Body::Encoded(self.spec_encoding(), Box::new(resp.body)),
    {
        let Response { status, mut headers, body } = resp;
        headers.append("content-encoding", encoding_token_exec(self.encoding));
        Response { status, headers, body: Body::Encoded(self.encoding, Box::new(body)) }
    }

    /// Wraps the filter `filter`.
    pub fn wrap<F>(&self, filter: F) -> (w: WithCompression<F>)
        ensures
            w.spec_encoding() == self.spec_encoding(),
            w.spec_filter() == filter,
    {
        WithCompression { compress: *self, filter }
    }
}

/// A compressed reply.
pub struct Compressed(pub Response);

impl Reply for Compressed {
    open spec fn reply_status(&self) -> u16 {
        self.0.status
    }

    open spec fn reply_headers(&self) -> Seq<(Seq<char>, Seq<u8>)> {
        self.0.headers.view()
    }

    open spec fn reply_body(&self) -> Body {
        self.0.body
    }

    fn into_response(self) -> (r: Response) {
        self.0
    }
}

/// A filter whose replies are compressed.
pub struct WithCompression<F> {
    compress: Compression,
    filter: F,
}

impl<F> WithCompression<F> {
    pub closed spec fn spec_encoding(&self) -> Encoding {
        self.compress.spec_encoding()
    }

    pub closed spec fn spec_filter(&self) -> F {
        self.filter
    }

    /// The wrapped filter.
    pub fn inner(&self) -> (r: &F)
        ensures
            *r == self.spec_filter(),
    {
        &self.filter
    }

    /// Starts filtering a request with the wrapped filter.
    pub fn filter(&self) -> (f: WithCompressionFuture)
        ensures
            f.spec_encoding() == self.spec_encoding(),
    {
        WithCompressionFuture { compress: self.compress }
    }
}

/// The future of a `WithCompression` filter.
pub struct WithCompressionFuture {
    compress: Compression,
}

impl WithCompressionFuture {
    pub closed spec fn spec_encoding(&self) -> Encoding {
        self.compress.spec_encoding()
    }

    /// What the filter gives once the wrapped filter's future gave
    /// `polled`: its reply, compressed.
    pub fn poll<R: Reply>(&self, polled: Polled<Result<R, Rejection>>) -> (r: Polled<Result<(Compressed,), Rejection>>)
        ensures
            match polled {
                Polled::Pending => r is Pending,
                Polled::Ready(Ok(reply)) => r matches Polled::Ready(Ok(c)) && {
                    &&& c.0.0.status == reply.reply_status()
                    &&& c.0.0.headers.view() == reply.reply_headers().push(
                        (lower_chars("content-encoding"@), encoding_token(self.spec_encoding())),
                    )
                    &&& c.0.0.body == Body::Encoded(self.spec_encoding(), Box::new(reply.reply_body()))
                },
                Polled::Ready(Err(e)) => r == Polled::<Result<(Compressed,), Rejection>>::Ready(Err(e)),
            },
    {
        match polled {
            Polled::Pending => Polled::Pending,
            Polled::Ready(Ok(reply)) => {
                let resp = self.compress.compress(reply.into_response());
                Polled::Ready(Ok((Compressed(resp),)))
            },
            Polled::Ready(Err(e)) => Polled::Ready(Err(e)),
        }
    }
}

impl<F> crate::filter::wrap::Wrap<F> for Compression {
    type Wrapped = WithCompression<F>;

    open spec fn wraps(&self, filter: F, w: WithCompression<F>) -> bool {
        w.spec_filter() == filter && w.spec_encoding() == self.spec_encoding()
    }

    fn wrap(&self, filter: F) -> (w: WithCompression<F>) {
        Compression::wrap(self, filter)
    }
}

} // verus!
