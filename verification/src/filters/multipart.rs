//! Multipart body filters
//!
//! Filters that extract a multipart form body: the checks that come before
//! the body is read as a stream of parts.
use vstd::prelude::*;
use crate::filters::body::{body, content_length, content_length_limit};
use crate::header_map::values_named;
use crate::reject::{Known, Rejection};
use crate::route::Route;
use crate::text::lower_chars;
use headers::Header;

verus! {

/// Unless configured otherwise, forms may be at most 2 MiB long.
pub const DEFAULT_FORM_DATA_MAX_LENGTH: u64 = 2097152;

/// A filter that extracts a multipart form, with its options.
#[derive(Clone, Debug)]
pub struct FormOptions {
    max_length: u64,
}

/// Creates a filter that extracts a multipart form of at most 2 MiB.
pub fn form() -> (f: FormOptions)
    ensures
        f.spec_max_length() == DEFAULT_FORM_DATA_MAX_LENGTH,
{
    FormOptions { max_length: DEFAULT_FORM_DATA_MAX_LENGTH }
}

/// The `boundary` parameter of the media type that the `content-type`
/// fields `vals` give (`headers::ContentType`, then `Mime::get_param`):
/// `None` when they give no media type, `Some(None)` when it has no
/// boundary.
pub uninterp spec fn content_type_boundary(vals: Seq<Seq<u8>>) -> Option<Option<Seq<char>>>;

/// Reads the `boundary` of a `content-type` with `headers` and `mime`; the
/// result is named `content_type_boundary`.
#[verifier::external_body]
fn read_boundary(vals: &Vec<Vec<u8>>) -> (r: Option<Option<String>>)
    ensures
        r matches Some(b) ==> content_type_boundary(
            vals@.map_values(|v: Vec<u8>| v@),
        ) == Some(match b {
            Some(s) => Some(s@),
            None => None,
        }),
        r is None ==> content_type_boundary(vals@.map_values(|v: Vec<u8>| v@)) is None,
{
    let values: Vec<http::HeaderValue> =
        vals.iter().map(|v| http::HeaderValue::from_bytes(v)).collect::<Result<_, _>>().ok()?;
    let ct = headers::ContentType::decode(&mut values.iter()).ok()?;
    let mime = mime::Mime::from(ct);
    Some(mime.get_param("boundary").map(|v| v.to_string()))
}

impl FormOptions {
    pub closed spec fn spec_max_length(&self) -> u64 {
        self.max_length
    }

    /// Set the maximum byte length allowed for this body.
    pub fn max_length(self, max: u64) -> (f: Self)
        ensures
            f.spec_max_length() == max,
    {
        FormOptions { max_length: max }
    }

    /// What the form filter makes of the request of `route`: the boundary
    /// and the body to split into parts. In turn: the length must be
    /// within the limit (as `content_length_limit`); the `content-type`
    /// must be a media type (else `400`) with a `boundary` (else
    /// `InvalidHeader("content-type")`); the body must be there.
    pub fn filter(&self, route: &mut Route) -> (r: Result<(String, Vec<u8>), Rejection>)
        ensures
            ({
                let lens = values_named(old(route).spec_headers().view(), lower_chars("content-length"@));
                let cts = values_named(old(route).spec_headers().view(), lower_chars("content-type"@));
                match content_length(lens) {
                    None => r == Err::<(String, Vec<u8>), Rejection>(Rejection::LengthRequired),
                    Some(n) => if n > self.spec_max_length() {
                        r == Err::<(String, Vec<u8>), Rejection>(Rejection::PayloadTooLarge)
                    } else {
                        match content_type_boundary(cts) {
                            None => r == Err::<(String, Vec<u8>), Rejection>(Rejection::BadRequest),
                            Some(None) => r matches Err(Rejection::InvalidHeader(h)) && h@ == "content-type"@,
                            Some(Some(b)) => match old(route).spec_body() {
                                Some(body) => r matches Ok(p) && p.0@ == b && p.1@ == body,
                                None => r == Err::<(String, Vec<u8>), Rejection>(
                                    Rejection::Known(Known::BodyConsumedMultipleTimes),
                                ),
                            },
                        }
                    },
                }
            }),
    {
        match content_length_limit(route, self.max_length) {
            Ok(()) => {},
            Err(e) => {
                return Err(e);
            },
        }
        let cts = route.headers().get_all("content-type");
        proof {
            let spec = values_named(route.spec_headers().view(), lower_chars("content-type"@));
            assert(cts@.map_values(|v: Vec<u8>| v@) =~= spec);
        }
        let boundary = match read_boundary(&cts) {
            None => {
                return Err(Rejection::BadRequest);
            },
            Some(None) => {
                return Err(Rejection::InvalidHeader("content-type".to_owned()));
            },
            Some(Some(b)) => b,
        };
        match body(route) {
            Ok(b) => Ok((boundary, b)),
            Err(e) => Err(e),
        }
    }
}

/// A single "part" of a multipart form body, as its headers name it; its
/// data is streamed by whoever reads the body.
#[derive(Clone, Debug)]
pub struct Part {
    name: String,
    filename: Option<String>,
    content_type: Option<String>,
}

impl Part {
    /// A part with the name, file name and content type that its headers
    /// give.
    pub fn new(name: String, filename: Option<String>, content_type: Option<String>) -> (p: Part)
        ensures
            p.spec_name() == name@,
            p.spec_filename() == (match filename { Some(f) => Some(f@), None => None }),
            p.spec_content_type() == (match content_type { Some(c) => Some(c@), None => None }),
    {
        Part { name, filename, content_type }
    }

    pub closed spec fn spec_name(&self) -> Seq<char> {
        self.name@
    }

    pub closed spec fn spec_filename(&self) -> Option<Seq<char>> {
        match self.filename {
            Some(f) => Some(f@),
            None => None,
        }
    }

    pub closed spec fn spec_content_type(&self) -> Option<Seq<char>> {
        match self.content_type {
            Some(c) => Some(c@),
            None => None,
        }
    }

    /// Get the name of this part.
    pub fn name(&self) -> (n: &str)
        ensures
            n@ == self.spec_name(),
    {
        self.name.as_str()
    }

    /// Get the filename of this part, if present.
    pub fn filename(&self) -> (f: Option<&str>)
        ensures
            match self.spec_filename() {
                Some(x) => f matches Some(s) && s@ == x,
                None => f is None,
            },
    {
        match &self.filename {
            Some(f) => Some(f.as_str()),
            None => None,
        }
    }

    /// Get the content-type of this part, if present.
    pub fn content_type(&self) -> (c: Option<&str>)
        ensures
            match self.spec_content_type() {
                Some(x) => c matches Some(s) && s@ == x,
                None => c is None,
            },
    {
        match &self.content_type {
            Some(c) => Some(c.as_str()),
            None => None,
        }
    }
}

} // verus!
