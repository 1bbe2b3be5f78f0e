//! Decompression Filters
//!
//! Filters that decompress the body of a response: the body is streamed
//! through the decoder, and the `content-encoding` field naming the
//! algorithm and the former `content-length` are dropped.
use vstd::prelude::*;
use crate::filter::Polled;
use crate::reject::Rejection;
use crate::reply::{Body, Encoding, Reply, Response};
use crate::filters::compression::{encoding_token, encoding_token_exec};
use crate::header_map::{without_entry, without_name};
use crate::text::lower_chars;

verus! {

/// The fields of a response once its body is decoded with `e`: the
/// `content-encoding` fields naming `e` and the `content-length` fields
/// are gone, the others kept in order.
pub open spec fn decompressed_fields(h: Seq<(Seq<char>, Seq<u8>)>, e: Encoding) -> Seq<(Seq<char>, Seq<u8>)> {
    without_name(
        without_entry(h, lower_chars("content-encoding"@), encoding_token(e)),
        lower_chars("content-length"@),
    )
}

/// Once the body is decoded, no field says it is still encoded with that
/// algorithm, and no field gives the former length.
pub proof fn lemma_decompressed_drops_encoding(h: Seq<(Seq<char>, Seq<u8>)>, e: Encoding)
    ensures
        forall|i: int| 0 <= i < decompressed_fields(h, e).len() ==> !(#[trigger] decompressed_fields(h, e)[i]
            == (lower_chars("content-encoding"@), encoding_token(e))),
        forall|i: int| 0 <= i < decompressed_fields(h, e).len() ==> (#[trigger] decompressed_fields(h, e)[i]).0
            != lower_chars("content-length"@),
{
    let w = without_entry(h, lower_chars("content-encoding"@), encoding_token(e));
    let d = decompressed_fields(h, e);
    assert forall|i: int| 0 <= i < d.len() implies !(#[trigger] d[i] == (lower_chars("content-encoding"@), encoding_token(e)))
        && d[i].0 != lower_chars("content-length"@) by {
        w.lemma_filter_pred(crate::header_map::name_differs(lower_chars("content-length"@)), i);
        assert(d.contains(d[i]));
        w.lemma_filter_contains_rev(crate::header_map::name_differs(lower_chars("content-length"@)), d[i]);
        let j = choose|j: int| 0 <= j < w.len() && w[j] == d[i];
        h.lemma_filter_pred(crate::header_map::entry_differs(lower_chars("content-encoding"@), encoding_token(e)), j);
    }
}

/// A filter that decompresses replies with one algorithm.
#[derive(Clone, Copy, Debug)]
pub struct Decompression {
    encoding: Encoding,
}

/// Decompresses replies with gzip.
pub fn gzip() -> (c: Decompression)
    ensures
        c.spec_encoding() == Encoding::Gzip,
{
    Decompression { encoding: Encoding::Gzip }
}

/// Decompresses replies with deflate.
pub fn deflate() -> (c: Decompression)
    ensures
        c.spec_encoding() == Encoding::Deflate,
{
    Decompression { encoding: Encoding::Deflate }
}

/// Decompresses replies with brotli.
pub fn brotli() -> (c: Decompression)
    ensures
        c.spec_encoding() == Encoding::Brotli,
{
    Decompression { encoding: Encoding::Brotli }
}

impl Decompression {
    pub closed spec fn spec_encoding(&self) -> Encoding {
        self.encoding
    }

    /// The encoding.
    pub fn encoding(&self) -> (e: Encoding)
        ensures
            e == self.spec_encoding(),
    {
        self.encoding
    }

    /// The response `resp` decompressed: the `content-encoding` fields
    /// naming the algorithm and the `content-length` fields are removed,
    /// the other fields kept in order, and the body is decoded.
    pub fn decompress(&self, resp: Response) -> (r: Response)
        ensures
            r.status == resp.status,
            r.headers.view() == decompressed_fields(resp.headers.view(), self.spec_encoding()),
            r.body == Body::Decoded(self.spec_encoding(), Box::new(resp.body)),
    {
        let Response { status, mut headers, body } = resp;
        headers.remove_value("content-encoding", encoding_token_exec(self.encoding));
        headers.remove("content-length");
        Response { status, headers, body: Body::Decoded(self.encoding, Box::new(body)) }
    }

    /// Wraps the filter `filter`.
    pub fn wrap<F>(&self, filter: F) -> (w: WithDecompression<F>)
        ensures
            w.spec_encoding() == self.spec_encoding(),
            w.spec_filter() == filter,
    {
        WithDecompression { decompress: *self, filter }
    }
}

/// A decompressed reply.
pub struct Decompressed(pub Response);

impl Reply for Decompressed {
    open spec fn reply_status(&self) -> u16 {
        self.0.status
    }

    open spec fn reply_headers(&self) -> Seq<(Seq<char>, Seq<u8>)> {
        self.0.headers.view()
    }

    open spec fn reply_body(&self) -> Body {
        self.0.body
    }

    fn into_response(self) -> (r: Response) {
        self.0
    }
}

/// A filter whose replies are decompressed.
pub struct WithDecompression<F> {
    decompress: Decompression,
    filter: F,
}

impl<F> WithDecompression<F> {
    pub closed spec fn spec_encoding(&self) -> Encoding {
        self.decompress.spec_encoding()
    }

    pub closed spec fn spec_filter(&self) -> F {
        self.filter
    }

    /// The wrapped filter.
    pub fn inner(&self) -> (r: &F)
        ensures
            *r == self.spec_filter(),
    {
        &self.filter
    }

    /// Starts filtering a request with the wrapped filter.
    pub fn filter(&self) -> (f: WithDecompressionFuture)
        ensures
            f.spec_encoding() == self.spec_encoding(),
    {
        WithDecompressionFuture { decompress: self.decompress }
    }
}

/// The future of a `WithDecompression` filter.
pub struct WithDecompressionFuture {
    decompress: Decompression,
}

impl WithDecompressionFuture {
    pub closed spec fn spec_encoding(&self) -> Encoding {
        self.decompress.spec_encoding()
    }

    /// What the filter gives once the wrapped filter's future gave
    /// `polled`: its reply, decompressed.
    pub fn poll<R: Reply>(&self, polled: Polled<Result<R, Rejection>>) -> (r: Polled<Result<(Decompressed,), Rejection>>)
        ensures
            match polled {
                Polled::Pending => r is Pending,
                Polled::Ready(Ok(reply)) => r matches Polled::Ready(Ok(c)) && {
                    &&& c.0.0.status == reply.reply_status()
                    &&& c.0.0.headers.view() == decompressed_fields(reply.reply_headers(), self.spec_encoding())
                    &&& c.0.0.body == Body::Decoded(self.spec_encoding(), Box::new(reply.reply_body()))
                },
                Polled::Ready(Err(e)) => r == Polled::<Result<(Decompressed,), Rejection>>::Ready(Err(e)),
            },
    {
        match polled {
            Polled::Pending => Polled::Pending,
            Polled::Ready(Ok(reply)) => {
                let resp = self.decompress.decompress(reply.into_response());
                Polled::Ready(Ok((Decompressed(resp),)))
            },
            Polled::Ready(Err(e)) => Polled::Ready(Err(e)),
        }
    }
}

impl<F> crate::filter::wrap::Wrap<F> for Decompression {
    type Wrapped = WithDecompression<F>;

    open spec fn wraps(&self, filter: F, w: WithDecompression<F>) -> bool {
        w.spec_filter() == filter && w.spec_encoding() == self.spec_encoding()
    }

    fn wrap(&self, filter: F) -> (w: WithDecompression<F>) {
        Decompression::wrap(self, filter)
    }
}

} // verus!
