//! Body filters
//!
//! Filters that read the body of a request, and check what it claims to be
//! before it is read: its length and its content type.
use vstd::prelude::*;
use crate::csv::{all_visible_ascii, is_visible_ascii_bytes};
use crate::reject::{Known, Rejection};
use crate::route::Route;
use crate::text::{ascii_string, ascii_text, parse_u64, parsed_u64};

verus! {

/// Takes the request body out of the route; rejects with
/// `BodyConsumedMultipleTimes` when an earlier filter took it.
pub fn body(route: &mut Route) -> (r: Result<Vec<u8>, Rejection>)
    ensures
        match old(route).spec_body() {
            Some(b) => r matches Ok(v) && v@ == b,
            None => r == Err::<Vec<u8>, Rejection>(Rejection::Known(Known::BodyConsumedMultipleTimes)),
        },
        final(route).spec_body() is None,
        final(route).spec_index() == old(route).spec_index(),
        final(route).spec_full_path() == old(route).spec_full_path(),
{
    match route.take_body() {
        Some(b) => Ok(b),
        None => Err(Rejection::Known(Known::BodyConsumedMultipleTimes)),
    }
}

/// Returns the whole request body.
pub fn bytes(route: &mut Route) -> (r: Result<Vec<u8>, Rejection>)
    ensures
        match old(route).spec_body() {
            Some(b) => r matches Ok(v) && v@ == b,
            None => r == Err::<Vec<u8>, Rejection>(Rejection::Known(Known::BodyConsumedMultipleTimes)),
        },
        final(route).spec_body() is None,
{
    body(route)
}

/// Returns the whole request body, as one buffer.
pub fn aggregate(route: &mut Route) -> (r: Result<Vec<u8>, Rejection>)
    ensures
        match old(route).spec_body() {
            Some(b) => r matches Ok(v) && v@ == b,
            None => r == Err::<Vec<u8>, Rejection>(Rejection::Known(Known::BodyConsumedMultipleTimes)),
        },
        final(route).spec_body() is None,
{
    body(route)
}

/// The length that the `content-length` fields `vals` give: every one
/// parses as a `u64` and they agree; `None` if there is none or they do
/// not.
pub open spec fn content_length(vals: Seq<Seq<u8>>) -> Option<u64> {
    if vals.len() > 0 && (forall|i: int| 0 <= i < vals.len() ==> #[trigger] parsed_u64(vals[i]) is Some
        && parsed_u64(vals[i]) == parsed_u64(vals[0])) {
        parsed_u64(vals[0])
    } else {
        None
    }
}

/// Requires a `content-length` header of at most `limit` bytes: rejects
/// with `411 Length Required` when there is no valid length, and with
/// `413 Payload Too Large` when it is over the limit.
pub fn content_length_limit(route: &Route, limit: u64) -> (r: Result<(), Rejection>)
    ensures
        match content_length(
            crate::header_map::values_named(
                route.spec_headers().view(),
                crate::text::lower_chars("content-length"@),
            ),
        ) {
            None => r == Err::<(), Rejection>(Rejection::LengthRequired),
            Some(n) => if n <= limit {
                r is Ok
            } else {
                r == Err::<(), Rejection>(Rejection::PayloadTooLarge)
            },
        },
{
    let vals = route.headers().get_all("content-length");
    let ghost spec_vals = crate::header_map::values_named(
        route.spec_headers().view(),
        crate::text::lower_chars("content-length"@),
    );
    if vals.len() == 0 {
        return Err(Rejection::LengthRequired);
    }
    let first = match parse_u64(vals[0].as_slice()) {
        Some(n) => n,
        None => {
            assert(spec_vals[0] == vals@[0]@);
            return Err(Rejection::LengthRequired);
        },
    };
    let mut i: usize = 1;
    while i < vals.len()
        invariant
            1 <= i <= vals@.len(),
            vals@.len() == spec_vals.len(),
            forall|k: int| 0 <= k < vals@.len() ==> #[trigger] vals@[k]@ == spec_vals[k],
            parsed_u64(spec_vals[0]) == Some(first),
            forall|k: int| 0 <= k < i ==> #[trigger] parsed_u64(spec_vals[k]) == Some(first),
            spec_vals == crate::header_map::values_named(
                route.spec_headers().view(),
                crate::text::lower_chars("content-length"@),
            ),
        decreases vals@.len() - i,
    {
        let n = parse_u64(vals[i].as_slice());
        assert(vals@[i as int]@ == spec_vals[i as int]);
        match n {
            Some(n) => {
                if n != first {
                    assert(parsed_u64(spec_vals[i as int]) != parsed_u64(spec_vals[0]));
                    return Err(Rejection::LengthRequired);
                }
            },
            None => {
                assert(parsed_u64(spec_vals[i as int]) is None);
                return Err(Rejection::LengthRequired);
            },
        }
        i = i + 1;
    }
    assert(content_length(spec_vals) == Some(first));
    if first <= limit {
        Ok(())
    } else {
        Err(Rejection::PayloadTooLarge)
    }
}

/// The type and subtype of the media type `s` names, as
/// `mime::Mime::from_str` parses them (lower-cased); `None` when `s` is no
/// media type.
pub uninterp spec fn media_type(s: Seq<char>) -> Option<(Seq<char>, Seq<char>)>;

/// `s.parse::<mime::Mime>()`, and its type and subtype; the result is
/// named `media_type`.
#[verifier::external_body]
fn parse_media_type(s: &str) -> (r: Option<(String, String)>)
    ensures
        r matches Some(p) ==> media_type(s@) == Some((p.0@, p.1@)),
        r is None ==> media_type(s@) is None,
{
    match s.parse::<mime::Mime>() {
        Ok(m) => Some((m.type_().as_str().to_owned(), m.subtype().as_str().to_owned())),
        Err(_) => None,
    }
}

/// Requires the `content-type` header to name the media type
/// `type_/subtype`, or to be absent (which is optimistically taken as that
/// type); rejects with `415 Unsupported Media Type` otherwise, also when
/// the field is not visible ASCII or names no media type.
pub fn is_content_type(route: &Route, type_: &str, subtype: &str) -> (r: Result<(), Rejection>)
    ensures
        match route.spec_headers().spec_get("content-type"@) {
            None => r is Ok,
            Some(v) => if all_visible_ascii(v) && media_type(ascii_text(v)) == Some((type_@, subtype@)) {
                r is Ok
            } else {
                r == Err::<(), Rejection>(Rejection::UnsupportedMediaType)
            },
        },
{
    match route.headers().get("content-type") {
        None => Ok(()),
        Some(v) => {
            if !is_visible_ascii_bytes(v.as_slice()) {
                return Err(Rejection::UnsupportedMediaType);
            }
            let text = ascii_string(v.as_slice());
            match parse_media_type(text.as_str()) {
                Some((t, s)) => {
                    if crate::text::str_eq(t.as_str(), type_) && crate::text::str_eq(s.as_str(), subtype) {
                        Ok(())
                    } else {
                        Err(Rejection::UnsupportedMediaType)
                    }
                },
                None => Err(Rejection::UnsupportedMediaType),
            }
        },
    }
}

/// The body of a request that claims to be JSON (or claims no type), for
/// deserializing: rejects with `415` for another content type, and like
/// `body` when the body was taken.
pub fn json(route: &mut Route) -> (r: Result<Vec<u8>, Rejection>)
    ensures
        match old(route).spec_headers().spec_get("content-type"@) {
            Some(v) if !(all_visible_ascii(v) && media_type(ascii_text(v)) == Some(
                ("application"@, "json"@),
            )) => r == Err::<Vec<u8>, Rejection>(Rejection::UnsupportedMediaType),
            _ => match old(route).spec_body() {
                Some(b) => r matches Ok(v) && v@ == b,
                None => r == Err::<Vec<u8>, Rejection>(
                    Rejection::Known(Known::BodyConsumedMultipleTimes),
                ),
            },
        },
{
    match is_content_type(route, "application", "json") {
        Ok(()) => body(route),
        Err(e) => Err(e),
    }
}

/// The body of a request that claims to be a URL-encoded form (or claims
/// no type), for deserializing: rejects with `415` for another content
/// type, and like `body` when the body was taken.
pub fn form(route: &mut Route) -> (r: Result<Vec<u8>, Rejection>)
    ensures
        match old(route).spec_headers().spec_get("content-type"@) {
            Some(v) if !(all_visible_ascii(v) && media_type(ascii_text(v)) == Some(
                ("application"@, "x-www-form-urlencoded"@),
            )) => r == Err::<Vec<u8>, Rejection>(Rejection::UnsupportedMediaType),
            _ => match old(route).spec_body() {
                Some(b) => r matches Ok(v) && v@ == b,
                None => r == Err::<Vec<u8>, Rejection>(
                    Rejection::Known(Known::BodyConsumedMultipleTimes),
                ),
            },
        },
{
    match is_content_type(route, "application", "x-www-form-urlencoded") {
        Ok(()) => body(route),
        Err(e) => Err(e),
    }
}

/// A request body could not be deserialized.
#[derive(Debug)]
pub struct BodyDeserializeError {
    cause: String,
}

impl BodyDeserializeError {
    /// The error for the deserializer's message `cause`.
    pub fn new(cause: String) -> (e: Self)
        ensures
            e.spec_cause() == cause@,
    {
        BodyDeserializeError { cause }
    }

    pub closed spec fn spec_cause(&self) -> Seq<char> {
        self.cause@
    }

    /// The text of the error: `Request body deserialize error: ` and the cause.
    pub fn message(&self) -> (s: String)
        ensures
            s@ == "Request body deserialize error: "@ + self.spec_cause(),
    {
        let mut s = "Request body deserialize error: ".to_owned();
        s.append(self.cause.as_str());
        s
    }
}

} // verus!
