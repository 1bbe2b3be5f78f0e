//! Route filter: what a request was, for handlers that want to see it.
use vstd::prelude::*;
use crate::csv::{all_visible_ascii, is_visible_ascii_bytes};
use crate::header_map::HeaderMap;
use crate::request::{Method, Version};
use crate::route::Route;
use crate::text::{ascii_string, ascii_text};

verus! {

/// Information about the request that a route matched.
#[derive(Debug)]
pub struct Info {
    remote_addr: Option<String>,
    method: Method,
    path: String,
    version: Version,
    headers: HeaderMap,
}

/// The visible-ASCII text of the first field named `name` of `headers`;
/// `None` if there is none or it is not visible ASCII.
pub open spec fn header_text(headers: HeaderMap, name: Seq<char>) -> Option<Seq<char>> {
    match headers.spec_get(name) {
        Some(v) => if all_visible_ascii(v) {
            Some(ascii_text(v))
        } else {
            None
        },
        None => None,
    }
}

/// The visible-ASCII text of the first field named `name`.
pub fn header_str(headers: &HeaderMap, name: &str) -> (r: Option<String>)
    ensures
        match header_text(*headers, name@) {
            Some(t) => r matches Some(s) && s@ == t,
            None => r is None,
        },
{
    match headers.get(name) {
        Some(v) => if is_visible_ascii_bytes(v.as_slice()) {
            Some(ascii_string(v.as_slice()))
        } else {
            None
        },
        None => None,
    }
}

/// Creates a filter that extracts what the request was; never rejects.
pub fn route(r: &Route) -> (i: Info)
    ensures
        i.spec_remote_addr() == r.spec_remote_addr(),
        i.spec_method() == r.spec_method(),
        i.spec_path() == r.spec_full_path(),
        i.spec_version() == r.spec_version(),
        i.spec_headers().view() == r.spec_headers().view(),
{
    Info::from_route(r)
}

impl Info {
    pub closed spec fn spec_remote_addr(&self) -> Option<Seq<char>> {
        match self.remote_addr {
            Some(a) => Some(a@),
            None => None,
        }
    }

    pub closed spec fn spec_method(&self) -> Seq<u8> {
        self.method.view()
    }

    pub closed spec fn spec_path(&self) -> Seq<char> {
        self.path@
    }

    pub closed spec fn spec_version(&self) -> Version {
        self.version
    }

    pub closed spec fn spec_headers(&self) -> HeaderMap {
        self.headers
    }

    /// What the request of `route` was.
    pub fn from_route(route: &Route) -> (i: Info)
        ensures
            i.spec_remote_addr() == route.spec_remote_addr(),
            i.spec_method() == route.spec_method(),
            i.spec_path() == route.spec_full_path(),
            i.spec_version() == route.spec_version(),
            i.spec_headers().view() == route.spec_headers().view(),
    {
        let remote_addr = match route.remote_addr() {
            Some(a) => Some(a.to_owned()),
            None => None,
        };
        Info {
            remote_addr,
            method: route.method().clone(),
            path: route.full_path().to_owned(),
            version: route.version(),
            headers: route.headers().clone(),
        }
    }

    /// The address of the peer, if known.
    pub fn remote_addr(&self) -> (r: Option<&str>)
        ensures
            match self.spec_remote_addr() {
                Some(a) => r matches Some(s) && s@ == a,
                None => r is None,
            },
    {
        match &self.remote_addr {
            Some(a) => Some(a.as_str()),
            None => None,
        }
    }

    /// The request's method.
    pub fn method(&self) -> (m: &Method)
        ensures
            m.view() == self.spec_method(),
    {
        &self.method
    }

    /// The request's path.
    pub fn path(&self) -> (p: &str)
        ensures
            p@ == self.spec_path(),
    {
        self.path.as_str()
    }

    /// The request's HTTP version.
    pub fn version(&self) -> (v: Version)
        ensures
            v == self.spec_version(),
    {
        self.version
    }

    /// The request's header fields.
    pub fn headers(&self) -> (h: &HeaderMap)
        ensures
            *h == self.spec_headers(),
    {
        &self.headers
    }

    /// The `referer` header, if present and visible ASCII.
    pub fn referer(&self) -> (r: Option<String>)
        ensures
            match header_text(self.spec_headers(), "referer"@) {
                Some(t) => r matches Some(s) && s@ == t,
                None => r is None,
            },
    {
        header_str(&self.headers, "referer")
    }

    /// The `user-agent` header, if present and visible ASCII.
    pub fn user_agent(&self) -> (r: Option<String>)
        ensures
            match header_text(self.spec_headers(), "user-agent"@) {
                Some(t) => r matches Some(s) && s@ == t,
                None => r is None,
            },
    {
        header_str(&self.headers, "user-agent")
    }

    /// The `host` header, if present and visible ASCII.
    pub fn host(&self) -> (r: Option<String>)
        ensures
            match header_text(self.spec_headers(), "host"@) {
                Some(t) => r matches Some(s) && s@ == t,
                None => r is None,
            },
    {
        header_str(&self.headers, "host")
    }
}

} // verus!
