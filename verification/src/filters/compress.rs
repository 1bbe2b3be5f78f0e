//! A wrapping filter that gzips whole replies.
use vstd::prelude::*;
use crate::header_map::{apply_inserts, lemma_apply_inserts_push};
use crate::reply::{Body, Response};
use crate::text::{decimal, lower_chars, u64_to_decimal};
use std::io::Read;

verus! {

/// The gzip stream that `flate2::read::GzEncoder` with
/// `Compression::fast()` makes of `data`.
pub uninterp spec fn gzip_fast(data: Seq<u8>) -> Seq<u8>;

/// Gzips `data` with `flate2`; the result is named `gzip_fast`.
#[verifier::external_body]
fn gzip_encode(data: &[u8]) -> (r: Vec<u8>)
    ensures
        r@ == gzip_fast(data@),
{
    let mut encoder = flate2::read::GzEncoder::new(data, flate2::Compression::fast());
    let mut out = Vec::new();
    let _ = encoder.read_to_end(&mut out);
    out
}

/// Creates a wrapping filter that gzips the replies of the filter it wraps.
pub fn gzip() -> (w: WithGzip) {
    WithGzip
}

/// A wrapping filter that gzips replies.
#[derive(Clone, Copy, Debug)]
pub struct WithGzip;

/// The function that `WithGzip` maps replies through.
#[derive(Clone, Copy, Debug)]
pub struct WithGzip_ {
    pub with: WithGzip,
}

impl WithGzip {
    /// The function that replies are mapped through.
    pub fn wrap(&self) -> (f: WithGzip_)
        ensures
            f.with == *self,
    {
        WithGzip_ { with: *self }
    }
}

impl WithGzip_ {
    /// The response `head` with the whole body `body` gzipped: its
    /// `content-length` set to the length of the gzipped body, and a
    /// `content-encoding: gzip` field appended.
    pub fn call(&self, head: Response, body: Vec<u8>) -> (r: Response)
        ensures
            r.status == head.status,
            r.headers.view() == apply_inserts(
                head.headers.view(),
                seq![("content-length"@, decimal(gzip_fast(body@).len()))],
            ).push((lower_chars("content-encoding"@), seq![103u8, 122, 105, 112])),
            r.body matches Body::Full(v) && v@ == gzip_fast(body@),
    {
        let gz = gzip_encode(body.as_slice());
        let len = gz.len() as u64;
        let text = u64_to_decimal(len);
        let Response { status, mut headers, body: _ } = head;
        let ghost h0 = headers.view();
        headers.insert("content-length", text.as_slice());
        proof {
            lemma_apply_inserts_push(h0, Seq::empty(), ("content-length"@, decimal(len as nat)));
            assert(Seq::<(Seq<char>, Seq<u8>)>::empty().push(("content-length"@, decimal(len as nat))) =~= seq![("content-length"@, decimal(len as nat))]);
        }
        let token: &[u8] = &[103u8, 122, 105, 112];
        assert(token@ =~= seq![103u8, 122, 105, 112]);
        headers.append("content-encoding", token);
        Response { status, headers, body: Body::Full(gz) }
    }
}

} // verus!
