//! HTTP Authentication Filters
use vstd::prelude::*;
use crate::reject::Rejection;
use crate::route::Route;
use headers::Header;

pub mod basic;

verus! {

/// The user name and password of `Basic` credentials.
#[derive(Debug)]
pub struct Credentials {
    pub username: String,
    pub password: String,
}

/// The user name and password that the `authorization` value `v` carries
/// (`headers::Authorization::<Basic>::decode`): `Basic `, in any case,
/// then base64 of `user:password`; `None` when `v` is no such value.
pub uninterp spec fn basic_credentials(v: Seq<u8>) -> Option<(Seq<char>, Seq<char>)>;

/// Decodes `Basic` credentials with the `headers` crate; the result is
/// named `basic_credentials`.
#[verifier::external_body]
fn decode_basic(v: &[u8]) -> (r: Option<Credentials>)
    ensures
        r matches Some(c) ==> basic_credentials(v@) == Some((c.username@, c.password@)),
        r is None ==> basic_credentials(v@) is None,
{
    let value = http::HeaderValue::from_bytes(v).ok()?;
    let auth = headers::Authorization::<headers::authorization::Basic>::decode(
        &mut std::iter::once(&value),
    ).ok()?;
    Some(Credentials { username: auth.username().to_owned(), password: auth.password().to_owned() })
}

/// Extracts the HTTP Basic credentials of the request's `authorization`
/// field; rejects with `401 Unauthorized` when there are none (or they do
/// not decode). The realm is not used.
pub fn basic(route: &Route, _realm: &str) -> (r: Result<Credentials, Rejection>)
    ensures
        match route.spec_headers().spec_get("authorization"@) {
            Some(v) => match basic_credentials(v) {
                Some(c) => r matches Ok(k) && k.username@ == c.0 && k.password@ == c.1,
                None => r == Err::<Credentials, Rejection>(Rejection::Unauthorized),
            },
            None => r == Err::<Credentials, Rejection>(Rejection::Unauthorized),
        },
{
    match route.headers().get("authorization") {
        Some(v) => match decode_basic(v.as_slice()) {
            Some(c) => Ok(c),
            None => Err(Rejection::Unauthorized),
        },
        None => Err(Rejection::Unauthorized),
    }
}

} // verus!
