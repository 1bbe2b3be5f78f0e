//! Rejections: why a filter did not match a request, and which status the
//! response to an unmatched request carries.
use vstd::prelude::*;
use crate::filters::cors::CorsForbidden;

verus! {

/// Rejections that carry a reason of their own.
#[derive(Debug)]
pub enum Known {
    /// A `cors` filter refused the request.
    CorsForbidden(CorsForbidden),
    /// The `connection` header did not include `upgrade`.
    MissingConnectionUpgrade,
    /// A file could not be opened.
    FileOpenError,
    /// A file could not be opened for want of permission.
    FilePermissionError,
    /// The body was taken by an earlier filter.
    BodyConsumedMultipleTimes,
    /// The body could not be read.
    BodyReadError(String),
    /// The body could not be deserialized.
    BodyDeserializeError(String),
    /// The body could not be passed on after inspection.
    BodyReplaceError,
    /// A request extension was missing.
    MissingExtension,
}

/// Why a request was not matched.
#[derive(Debug)]
pub enum Rejection {
    NotFound,
    MethodNotAllowed,
    BadRequest,
    Unauthorized,
    LengthRequired,
    PayloadTooLarge,
    UnsupportedMediaType,
    /// The named header was malformed.
    InvalidHeader(String),
    InvalidQuery,
    /// The named cookie was missing.
    MissingCookie(String),
    Known(Known),
}

/// The status code that answers a request rejected for `r`.
pub open spec fn spec_status(r: &Rejection) -> u16 {
    match r {
        Rejection::NotFound => 404,
        Rejection::MethodNotAllowed => 405,
        Rejection::BadRequest => 400,
        Rejection::Unauthorized => 401,
        Rejection::LengthRequired => 411,
        Rejection::PayloadTooLarge => 413,
        Rejection::UnsupportedMediaType => 415,
        Rejection::InvalidHeader(_) => 400,
        Rejection::InvalidQuery => 400,
        Rejection::MissingCookie(_) => 400,
        Rejection::Known(k) => match k {
            Known::CorsForbidden(_) => 403,
            Known::MissingConnectionUpgrade => 400,
            Known::FileOpenError => 500,
            Known::FilePermissionError => 403,
            Known::BodyConsumedMultipleTimes => 500,
            Known::BodyReadError(_) => 400,
            Known::BodyDeserializeError(_) => 400,
            Known::BodyReplaceError => 500,
            Known::MissingExtension => 500,
        },
    }
}

/// Of two rejections, the one whose status better explains the failure:
/// `404` gives way to anything, then `405`, then the higher status wins;
/// on a tie the first is kept.
pub open spec fn prefers_first(a: u16, b: u16) -> bool {
    if b == 404 {
        true
    } else if a == 404 {
        false
    } else if b == 405 {
        true
    } else if a == 405 {
        false
    } else {
        a >= b
    }
}

/// A request was not found.
pub fn not_found() -> (r: Rejection)
    ensures
        r is NotFound,
{
    Rejection::NotFound
}

/// The method was not allowed.
pub fn method_not_allowed() -> (r: Rejection)
    ensures
        r is MethodNotAllowed,
{
    Rejection::MethodNotAllowed
}

/// The request was malformed.
pub fn bad_request() -> (r: Rejection)
    ensures
        r is BadRequest,
{
    Rejection::BadRequest
}

/// The request lacked valid credentials.
pub fn unauthorized() -> (r: Rejection)
    ensures
        r is Unauthorized,
{
    Rejection::Unauthorized
}

/// The request lacked a `content-length`.
pub fn length_required() -> (r: Rejection)
    ensures
        r is LengthRequired,
{
    Rejection::LengthRequired
}

/// The request's body was too large.
pub fn payload_too_large() -> (r: Rejection)
    ensures
        r is PayloadTooLarge,
{
    Rejection::PayloadTooLarge
}

/// The request's content type was not the expected one.
pub fn unsupported_media_type() -> (r: Rejection)
    ensures
        r is UnsupportedMediaType,
{
    Rejection::UnsupportedMediaType
}

/// The query string could not be decoded.
pub fn invalid_query() -> (r: Rejection)
    ensures
        r is InvalidQuery,
{
    Rejection::InvalidQuery
}

/// The header `name` was malformed.
pub fn invalid_header(name: &str) -> (r: Rejection)
    ensures
        r matches Rejection::InvalidHeader(n) && n@ == name@,
{
    Rejection::InvalidHeader(name.to_owned())
}

/// The cookie `name` was missing.
pub fn missing_cookie(name: &str) -> (r: Rejection)
    ensures
        r matches Rejection::MissingCookie(n) && n@ == name@,
{
    Rejection::MissingCookie(name.to_owned())
}

/// A rejection with a reason of its own.
pub fn known(k: Known) -> (r: Rejection)
    ensures
        r == Rejection::Known(k),
{
    Rejection::Known(k)
}

/// The rejection that `a.combine(b)` keeps.
pub open spec fn spec_combine(a: Rejection, b: Rejection) -> Rejection {
    if prefers_first(spec_status(&a), spec_status(&b)) {
        a
    } else {
        b
    }
}

impl Rejection {
    /// The status code that answers a request rejected for this reason.
    pub fn status(&self) -> (s: u16)
        ensures
            s == spec_status(self),
    {
        match self {
            Rejection::NotFound => 404,
            Rejection::MethodNotAllowed => 405,
            Rejection::BadRequest => 400,
            Rejection::Unauthorized => 401,
            Rejection::LengthRequired => 411,
            Rejection::PayloadTooLarge => 413,
            Rejection::UnsupportedMediaType => 415,
            Rejection::InvalidHeader(_) => 400,
            Rejection::InvalidQuery => 400,
            Rejection::MissingCookie(_) => 400,
            Rejection::Known(k) => match k {
                Known::CorsForbidden(_) => 403,
                Known::MissingConnectionUpgrade => 400,
                Known::FileOpenError => 500,
                Known::FilePermissionError => 403,
                Known::BodyConsumedMultipleTimes => 500,
                Known::BodyReadError(_) => 400,
                Known::BodyDeserializeError(_) => 400,
                Known::BodyReplaceError => 500,
                Known::MissingExtension => 500,
            },
        }
    }

    /// Combines the rejections of two alternatives into the one that
    /// explains the failure best (see `prefers_first`).
    pub fn combine(self, other: Rejection) -> (r: Rejection)
        ensures
            r == spec_combine(self, other),
    {
        let a = self.status();
        let b = other.status();
        let first = if b == 404 {
            true
        } else if a == 404 {
            false
        } else if b == 405 {
            true
        } else if a == 405 {
            false
        } else {
            a >= b
        };
        if first {
            self
        } else {
            other
        }
    }
}

/// Combining is commutative in the status it yields, and a `404` never hides
/// another rejection.
pub proof fn lemma_combine_status(a: u16, b: u16)
    ensures
        (if prefers_first(a, b) { a } else { b }) == (if prefers_first(b, a) { b } else { a }),
        a == 404 ==> (if prefers_first(a, b) { a } else { b }) == b,
        b == 404 ==> (if prefers_first(a, b) { a } else { b }) == a,
{
}

impl crate::reply::Reply for Rejection {
    /// The status code of the rejection.
    open spec fn reply_status(&self) -> u16 {
        spec_status(self)
    }

    /// No header fields.
    open spec fn reply_headers(&self) -> Seq<(Seq<char>, Seq<u8>)> {
        Seq::empty()
    }

    /// No body.
    open spec fn reply_body(&self) -> crate::reply::Body {
        crate::reply::Body::Empty
    }

    fn into_response(self) -> (r: crate::reply::Response) {
        let mut res = crate::reply::Response::new_empty();
        res.status = self.status();
        res
    }
}

} // verus!
