//! The parts of an HTTP request that the filters read: method, path, query,
//! authority, version, header fields and body, as plain values.
use vstd::prelude::*;
use crate::header_map::HeaderMap;

verus! {

/// Whether `b` may stand in a method token (RFC 9110 `tchar`).
pub open spec fn is_tchar(b: u8) -> bool {
    ||| b == 33 || b == 35 || b == 36 || b == 37 || b == 38 || b == 39 || b == 42 || b == 43
    ||| b == 45 || b == 46 || b == 94 || b == 95 || b == 96 || b == 124 || b == 126
    ||| (48 <= b && b <= 57) || (65 <= b && b <= 90) || (97 <= b && b <= 122)
}

/// Whether `b` is a token character.
pub fn byte_is_tchar(b: u8) -> (r: bool)
    ensures
        r == is_tchar(b),
{
    b == 33 || b == 35 || b == 36 || b == 37 || b == 38 || b == 39 || b == 42 || b == 43
        || b == 45 || b == 46 || b == 94 || b == 95 || b == 96 || b == 124 || b == 126 || (48
        <= b && b <= 57) || (65 <= b && b <= 90) || (97 <= b && b <= 122)
}

/// The byte strings that `http::Method::from_bytes` accepts.
pub open spec fn is_method_token(s: Seq<u8>) -> bool {
    s.len() > 0 && forall|i: int| 0 <= i < s.len() ==> is_tchar(s[i])
}

/// An HTTP method, held as its (case-sensitive) token.
#[derive(Debug)]
pub struct Method {
    token: Vec<u8>,
}

impl Method {
    /// The method's token.
    pub closed spec fn view(&self) -> Seq<u8> {
        self.token@
    }

    /// Parses a method token, as `http::Method::from_bytes`: any non-empty
    /// string of token characters is a method, and it is kept as given.
    pub fn from_bytes(src: &[u8]) -> (r: Option<Method>)
        ensures
            r is Some <==> is_method_token(src@),
            r matches Some(m) ==> m.view() == src@,
    {
        if src.len() == 0 {
            return None;
        }
        let mut i: usize = 0;
        while i < src.len()
            invariant
                i <= src@.len(),
                forall|j: int| 0 <= j < i ==> is_tchar(src@[j]),
            decreases src@.len() - i,
        {
            if !byte_is_tchar(src[i]) {
                return None;
            }
            i = i + 1;
        }
        Some(Method { token: vstd::slice::slice_to_vec(src) })
    }

    fn from_static(token: &[u8]) -> (m: Method)
        ensures
            m.view() == token@,
    {
        Method { token: vstd::slice::slice_to_vec(token) }
    }

    /// `GET`
    pub fn get() -> (m: Method)
        ensures
            m.view() == seq![71u8, 69, 84],
    {
        let m = Method::from_static(&[71u8, 69, 84]);
        assert(m.view() =~= seq![71u8, 69, 84]);
        m
    }

    /// `POST`
    pub fn post() -> (m: Method)
        ensures
            m.view() == seq![80u8, 79, 83, 84],
    {
        let m = Method::from_static(&[80u8, 79, 83, 84]);
        assert(m.view() =~= seq![80u8, 79, 83, 84]);
        m
    }

    /// `PUT`
    pub fn put() -> (m: Method)
        ensures
            m.view() == seq![80u8, 85, 84],
    {
        let m = Method::from_static(&[80u8, 85, 84]);
        assert(m.view() =~= seq![80u8, 85, 84]);
        m
    }

    /// `DELETE`
    pub fn delete() -> (m: Method)
        ensures
            m.view() == seq![68u8, 69, 76, 69, 84, 69],
    {
        let m = Method::from_static(&[68u8, 69, 76, 69, 84, 69]);
        assert(m.view() =~= seq![68u8, 69, 76, 69, 84, 69]);
        m
    }

    /// `HEAD`
    pub fn head() -> (m: Method)
        ensures
            m.view() == seq![72u8, 69, 65, 68],
    {
        let m = Method::from_static(&[72u8, 69, 65, 68]);
        assert(m.view() =~= seq![72u8, 69, 65, 68]);
        m
    }

    /// `OPTIONS`
    pub fn options() -> (m: Method)
        ensures
            m.view() == seq![79u8, 80, 84, 73, 79, 78, 83],
    {
        let m = Method::from_static(&[79u8, 80, 84, 73, 79, 78, 83]);
        assert(m.view() =~= seq![79u8, 80, 84, 73, 79, 78, 83]);
        m
    }

    /// `PATCH`
    pub fn patch() -> (m: Method)
        ensures
            m.view() == seq![80u8, 65, 84, 67, 72],
    {
        let m = Method::from_static(&[80u8, 65, 84, 67, 72]);
        assert(m.view() =~= seq![80u8, 65, 84, 67, 72]);
        m
    }

    /// The method's token.
    pub fn as_bytes(&self) -> (r: &[u8])
        ensures
            r@ == self.view(),
    {
        self.token.as_slice()
    }

    /// Whether two methods are the same.
    pub fn same(&self, other: &Method) -> (r: bool)
        ensures
            r == (self.view() == other.view()),
    {
        crate::text::bytes_eq(self.token.as_slice(), other.token.as_slice())
    }
}

impl Clone for Method {
    fn clone(&self) -> (r: Self)
        ensures
            r.view() == self.view(),
    {
        Method { token: self.token.clone() }
    }
}

/// The HTTP version of a request.
#[derive(Clone, Copy, Debug, PartialEq, Eq, Structural)]
pub enum Version {
    Http09,
    Http10,
    Http11,
    Http2,
    Http3,
}

/// A request as the filters see it. `path` and `query` come from the URI,
/// `authority` from the URI's authority part, if it has one.
pub struct Request {
    pub method: Method,
    pub path: String,
    pub query: Option<String>,
    pub authority: Option<String>,
    pub version: Version,
    pub headers: HeaderMap,
    pub body: Option<Vec<u8>>,
    pub remote_addr: Option<String>,
    pub peer_certificates: Option<Vec<Vec<u8>>>,
}

} // verus!
