//! The state that filters share while a request is routed: the request
//! itself and how much of its path earlier filters have matched.
use vstd::prelude::*;
use crate::header_map::HeaderMap;
use crate::request::{Method, Request, Version};

verus! {

/// Where the unmatched path starts after `index` more characters of it
/// (counted from the current start) have been matched: the separating `/`
/// after the matched part is skipped too, unless the path has ended there.
pub open spec fn advanced_index(path_len: nat, start: nat, index: nat) -> nat {
    if path_len == 0 {
        start
    } else if path_len == start + index {
        (start + index) as nat
    } else {
        (start + index + 1) as nat
    }
}

/// A request being routed through the filters.
pub struct Route {
    req: Request,
    segments_index: usize,
    body_taken: bool,
}

impl Route {
    #[verifier::type_invariant]
    spec fn inv(self) -> bool {
        self.segments_index <= self.req.path@.len()
    }

    /// The request's full path.
    pub closed spec fn spec_full_path(&self) -> Seq<char> {
        self.req.path@
    }

    /// How many characters of the path filters have matched so far.
    pub closed spec fn spec_index(&self) -> nat {
        self.segments_index as nat
    }

    /// The part of the path that no filter has matched yet.
    pub open spec fn spec_path(&self) -> Seq<char> {
        self.spec_full_path().subrange(self.spec_index() as int, self.spec_full_path().len() as int)
    }

    /// The request method's token.
    pub closed spec fn spec_method(&self) -> Seq<u8> {
        self.req.method.view()
    }

    /// The request's header fields.
    pub closed spec fn spec_headers(&self) -> HeaderMap {
        self.req.headers
    }

    /// The request's query string, if the URI has one.
    pub closed spec fn spec_query(&self) -> Option<Seq<char>> {
        match self.req.query {
            Some(q) => Some(q@),
            None => None,
        }
    }

    /// The URI's authority, if it has one.
    pub closed spec fn spec_authority(&self) -> Option<Seq<char>> {
        match self.req.authority {
            Some(a) => Some(a@),
            None => None,
        }
    }

    /// The request's HTTP version.
    pub closed spec fn spec_version(&self) -> Version {
        self.req.version
    }

    /// The body, as long as no filter has taken it.
    pub closed spec fn spec_body(&self) -> Option<Seq<u8>> {
        if self.body_taken {
            None
        } else {
            match self.req.body {
                Some(b) => Some(b@),
                None => None,
            }
        }
    }

    /// The connection's remote address, if the transport has one.
    pub closed spec fn spec_remote_addr(&self) -> Option<Seq<char>> {
        match self.req.remote_addr {
            Some(a) => Some(a@),
            None => None,
        }
    }

    /// The certificates that the TLS peer presented, if any.
    pub closed spec fn spec_peer_certificates(&self) -> Option<Seq<Seq<u8>>> {
        match self.req.peer_certificates {
            Some(c) => Some(Seq::new(c@.len(), |i: int| c@[i]@)),
            None => None,
        }
    }

    /// Everything about the route but the matched path index.
    pub open spec fn same_request(&self, other: &Route) -> bool {
        &&& self.spec_full_path() == other.spec_full_path()
        &&& self.spec_method() == other.spec_method()
        &&& self.spec_headers().view() == other.spec_headers().view()
        &&& self.spec_query() == other.spec_query()
        &&& self.spec_authority() == other.spec_authority()
        &&& self.spec_version() == other.spec_version()
        &&& self.spec_body() == other.spec_body()
        &&& self.spec_remote_addr() == other.spec_remote_addr()
        &&& self.spec_peer_certificates() == other.spec_peer_certificates()
    }

    /// Starts routing `req`; a leading `/` of the path counts as matched.
    pub fn new(req: Request) -> (r: Route)
        ensures
            r.spec_full_path() == req.path@,
            r.spec_index() == (if req.path@.len() > 0 && req.path@[0] == '/' { 1nat } else { 0nat }),
            r.spec_method() == req.method.view(),
            r.spec_headers() == req.headers,
            r.spec_query() == (match req.query { Some(q) => Some(q@), None => None }),
            r.spec_authority() == (match req.authority { Some(a) => Some(a@), None => None }),
            r.spec_version() == req.version,
            r.spec_body() == (match req.body { Some(b) => Some(b@), None => None }),
            r.spec_remote_addr() == (match req.remote_addr { Some(a) => Some(a@), None => None }),
            r.spec_peer_certificates() == (match req.peer_certificates {
                Some(c) => Some(Seq::new(c@.len(), |i: int| c@[i]@)),
                None => None,
            }),
    {
        let len = req.path.unicode_len();
        let idx: usize = if len > 0 && req.path.as_str().get_char(0) == '/' { 1 } else { 0 };
        Route { req, segments_index: idx, body_taken: false }
    }

    /// The request method.
    pub fn method(&self) -> (m: &Method)
        ensures
            m.view() == self.spec_method(),
    {
        &self.req.method
    }

    /// The request's header fields.
    pub fn headers(&self) -> (h: &HeaderMap)
        ensures
            *h == self.spec_headers(),
    {
        &self.req.headers
    }

    /// The request's HTTP version.
    pub fn version(&self) -> (v: Version)
        ensures
            v == self.spec_version(),
    {
        self.req.version
    }

    /// The request's full path, whatever has been matched.
    pub fn full_path(&self) -> (p: &str)
        ensures
            p@ == self.spec_full_path(),
    {
        self.req.path.as_str()
    }

    /// The part of the path that no filter has matched yet.
    pub fn path(&self) -> (p: &str)
        ensures
            p@ == self.spec_path(),
    {
        proof {
            use_type_invariant(self);
        }
        let len = self.req.path.unicode_len();
        self.req.path.as_str().substring_char(self.segments_index, len)
    }

    /// The query string, if any.
    pub fn query(&self) -> (q: Option<&str>)
        ensures
            q matches Some(s) ==> self.spec_query() == Some(s@),
            q is None ==> self.spec_query() is None,
    {
        match &self.req.query {
            Some(s) => Some(s.as_str()),
            None => None,
        }
    }

    /// The URI's authority, if any.
    pub fn authority(&self) -> (a: Option<&str>)
        ensures
            a matches Some(s) ==> self.spec_authority() == Some(s@),
            a is None ==> self.spec_authority() is None,
    {
        match &self.req.authority {
            Some(s) => Some(s.as_str()),
            None => None,
        }
    }

    /// The remote address of the connection, if any.
    pub fn remote_addr(&self) -> (a: Option<&str>)
        ensures
            a matches Some(s) ==> self.spec_remote_addr() == Some(s@),
            a is None ==> self.spec_remote_addr() is None,
    {
        match &self.req.remote_addr {
            Some(s) => Some(s.as_str()),
            None => None,
        }
    }

    /// The certificates that the TLS peer presented, if any.
    pub fn peer_certificates(&self) -> (c: Option<&Vec<Vec<u8>>>)
        ensures
            c matches Some(v) ==> self.spec_peer_certificates() == Some(Seq::new(v@.len(), |i: int| v@[i]@)),
            c is None ==> self.spec_peer_certificates() is None,
    {
        match &self.req.peer_certificates {
            Some(v) => Some(v),
            None => None,
        }
    }

    /// How many characters of the path have been matched.
    pub fn matched_path_index(&self) -> (i: usize)
        ensures
            i == self.spec_index(),
            i <= self.spec_full_path().len(),
    {
        proof {
            use_type_invariant(self);
        }
        self.segments_index
    }

    /// Marks `index` more characters of the path as matched (and the `/` that
    /// follows them, if the path goes on).
    pub fn set_unmatched_path(&mut self, index: usize)
        requires
            old(self).spec_index() + index <= old(self).spec_full_path().len(),
        ensures
            final(self).same_request(old(self)),
            final(self).spec_index() == advanced_index(
                old(self).spec_full_path().len(),
                old(self).spec_index(),
                index as nat,
            ),
    {
        proof {
            use_type_invariant(&*self);
        }
        let len = self.req.path.unicode_len();
        let idx = self.segments_index + index;
        if len == 0 {
        } else if len == idx {
            self.segments_index = idx;
        } else {
            self.segments_index = idx + 1;
        }
    }

    /// Restores the matched index that an earlier filter saw.
    pub fn reset_matched_path_index(&mut self, index: usize)
        requires
            index <= old(self).spec_index(),
        ensures
            final(self).same_request(old(self)),
            final(self).spec_index() == index,
    {
        proof {
            use_type_invariant(&*self);
        }
        self.segments_index = index;
    }

    /// Takes the request body; later calls find it gone.
    pub fn take_body(&mut self) -> (b: Option<Vec<u8>>)
        ensures
            b matches Some(v) ==> old(self).spec_body() == Some(v@),
            b is None ==> old(self).spec_body() is None,
            final(self).spec_body() is None,
            final(self).spec_full_path() == old(self).spec_full_path(),
            final(self).spec_index() == old(self).spec_index(),
            final(self).spec_method() == old(self).spec_method(),
            final(self).spec_headers().view() == old(self).spec_headers().view(),
            final(self).spec_query() == old(self).spec_query(),
    {
        proof {
            use_type_invariant(&*self);
        }
        if self.body_taken {
            return None;
        }
        let b = match &self.req.body {
            Some(v) => Some(v.clone()),
            None => None,
        };
        self.body_taken = true;
        b
    }
    /// Puts a body back in place of the one taken (an inspecting filter
    /// hands the bytes on to later filters).
    pub fn set_body(&mut self, body: Vec<u8>)
        ensures
            final(self).spec_body() == Some(body@),
            final(self).spec_full_path() == old(self).spec_full_path(),
            final(self).spec_index() == old(self).spec_index(),
            final(self).spec_method() == old(self).spec_method(),
            final(self).spec_headers().view() == old(self).spec_headers().view(),
            final(self).spec_query() == old(self).spec_query(),
    {
        proof {
            use_type_invariant(&*self);
        }
        self.req.body = Some(body);
        self.body_taken = false;
    }
}

} // verus!
