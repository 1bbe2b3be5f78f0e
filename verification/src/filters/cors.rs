//! CORS Filters
//!
//! Which cross-origin requests a `cors` filter lets through to the filter it
//! wraps, which it answers itself (preflight requests) and which it refuses,
//! and the `access-control-*` fields its responses carry.
use vstd::prelude::*;
use crate::csv::{all_visible_ascii, is_visible_ascii_bytes};
use crate::generic::Either;
use crate::header_map::{
    apply_inserts, first_value, join_values, lemma_apply_inserts_push, lemma_first_value_insert_other,
    lemma_get_after_insert,
    HeaderMap,
};
use crate::text::lower_chars;
use crate::reject::{Known, Rejection};
use crate::reply::{Body, Reply, Response};
use crate::request::{byte_is_tchar, is_method_token, is_tchar, Method};
use crate::route::Route;
use crate::text::{bytes_eq, decimal, lower_bytes, u64_to_decimal};
use vstd::string::StringSliceAdditionalSpecFns;

verus! {

// ===== Header names and sets of byte strings =====

/// Whether `b` is a header field name as `http::HeaderName::from_bytes`
/// accepts it: 1 to 65535 token characters, in either case.
pub open spec fn is_header_name(b: Seq<u8>) -> bool {
    &&& 1 <= b.len() <= 65535
    &&& forall|i: int| 0 <= i < b.len() ==> is_tchar(#[trigger] b[i])
}

/// A header field name from bytes, lower-cased as `HeaderName` keeps it;
/// `None` when the bytes are no name.
pub fn header_name_from_bytes(src: &[u8]) -> (r: Option<Vec<u8>>)
    ensures
        r is Some <==> is_header_name(src@),
        r matches Some(n) ==> n@ == lower_bytes(src@),
{
    if src.len() == 0 || src.len() > 65535 {
        return None;
    }
    let mut out: Vec<u8> = Vec::new();
    let mut i: usize = 0;
    while i < src.len()
        invariant
            i <= src@.len(),
            1 <= src@.len() <= 65535,
            forall|j: int| 0 <= j < i ==> is_tchar(#[trigger] src@[j]),
            out@ == lower_bytes(src@).subrange(0, i as int),
        decreases src@.len() - i,
    {
        let b = src[i];
        if !byte_is_tchar(b) {
            return None;
        }
        let l = if 65 <= b && b <= 90 {
            b + 32
        } else {
            b
        };
        out.push(l);
        assert(lower_bytes(src@).subrange(0, i + 1) =~= lower_bytes(src@).subrange(
            0,
            i as int,
        ).push(l));
        i = i + 1;
    }
    assert(lower_bytes(src@).subrange(0, src@.len() as int) =~= lower_bytes(src@));
    Some(out)
}

/// The byte strings held by `v`.
pub open spec fn bytes_list(v: Seq<Vec<u8>>) -> Seq<Seq<u8>> {
    v.map_values(|x: Vec<u8>| x@)
}

/// `s` with `x` added at the end unless it is already there: a set kept in
/// the order in which its members were first added.
pub open spec fn insert_unique(s: Seq<Seq<u8>>, x: Seq<u8>) -> Seq<Seq<u8>> {
    if s.contains(x) {
        s
    } else {
        s.push(x)
    }
}

/// `s` with each of `xs` added in turn by `insert_unique`.
pub open spec fn insert_all(s: Seq<Seq<u8>>, xs: Seq<Seq<u8>>) -> Seq<Seq<u8>>
    decreases xs.len(),
{
    if xs.len() == 0 {
        s
    } else {
        insert_unique(insert_all(s, xs.drop_last()), xs.last())
    }
}

/// Adding a member keeps a set free of duplicates.
pub proof fn lemma_insert_unique_no_dups(s: Seq<Seq<u8>>, x: Seq<u8>)
    requires
        s.no_duplicates(),
    ensures
        insert_unique(s, x).no_duplicates(),
        insert_unique(s, x).contains(x),
        forall|y: Seq<u8>| s.contains(y) ==> insert_unique(s, x).contains(y),
{
    if !s.contains(x) {
        let t = s.push(x);
        assert forall|i: int, j: int| 0 <= i < t.len() && 0 <= j < t.len() && i != j implies t[i]
            != t[j] by {
            if i < s.len() && j < s.len() {
                assert(t[i] == s[i] && t[j] == s[j]);
            } else if i < s.len() {
                assert(t[i] == s[i]);
            } else {
                assert(t[j] == s[j]);
            }
        }
        assert(t[s.len() as int] == x);
        assert forall|y: Seq<u8>| s.contains(y) implies t.contains(y) by {
            let k = choose|k: int| 0 <= k < s.len() && s[k] == y;
            assert(t[k] == y);
        }
    }
}

/// Adding several members keeps a set free of duplicates.
pub proof fn lemma_insert_all_no_dups(s: Seq<Seq<u8>>, xs: Seq<Seq<u8>>)
    requires
        s.no_duplicates(),
    ensures
        insert_all(s, xs).no_duplicates(),
    decreases xs.len(),
{
    if xs.len() > 0 {
        lemma_insert_all_no_dups(s, xs.drop_last());
        lemma_insert_unique_no_dups(insert_all(s, xs.drop_last()), xs.last());
    }
}

/// The members of `s` after adding each of `xs` are those of `s` and of
/// `xs`.
pub proof fn lemma_insert_all_contains(s: Seq<Seq<u8>>, xs: Seq<Seq<u8>>, x: Seq<u8>)
    ensures
        insert_all(s, xs).contains(x) <==> (s.contains(x) || xs.contains(x)),
    decreases xs.len(),
{
    if xs.len() > 0 {
        let init = xs.drop_last();
        lemma_insert_all_contains(s, init, x);
        let before = insert_all(s, init);
        if !before.contains(xs.last()) {
            assert(before.push(xs.last())[before.len() as int] == xs.last());
            if before.push(xs.last()).contains(x) && x != xs.last() {
                let k = choose|k: int| 0 <= k < before.len() + 1 && before.push(xs.last())[k] == x;
                assert(before[k] == x);
            }
            if before.contains(x) {
                let k = choose|k: int| 0 <= k < before.len() && before[k] == x;
                assert(before.push(xs.last())[k] == x);
            }
        }
        if init.contains(x) {
            let k = choose|k: int| 0 <= k < init.len() && init[k] == x;
            assert(xs[k] == x);
        }
        if xs.contains(x) && x != xs.last() {
            let k = choose|k: int| 0 <= k < xs.len() && xs[k] == x;
            assert(init[k] == x);
        }
        assert(xs[xs.len() - 1] == xs.last());
    }
}

/// Adds `x` to the set `v` unless it is there already.
pub fn push_unique(v: &mut Vec<Vec<u8>>, x: Vec<u8>)
    ensures
        bytes_list(final(v)@) == insert_unique(bytes_list(old(v)@), x@),
{
    let ghost start = bytes_list(v@);
    let mut i: usize = 0;
    while i < v.len()
        invariant
            i <= v@.len(),
            bytes_list(v@) == start,
            forall|j: int| 0 <= j < i ==> v@[j]@ != x@,
        decreases v@.len() - i,
    {
        if bytes_eq(v[i].as_slice(), x.as_slice()) {
            assert(start[i as int] == x@);
            return;
        }
        i = i + 1;
    }
    assert(!start.contains(x@)) by {
        if start.contains(x@) {
            let k = choose|k: int| 0 <= k < start.len() && start[k] == x@;
            assert(v@[k]@ == x@);
        }
    }
    let ghost xv = x@;
    v.push(x);
    assert(bytes_list(v@) =~= start.push(xv));
}

/// A copy of the set `v`.
pub fn clone_list(v: &Vec<Vec<u8>>) -> (r: Vec<Vec<u8>>)
    ensures
        bytes_list(r@) == bytes_list(v@),
{
    let mut r: Vec<Vec<u8>> = Vec::new();
    let mut i: usize = 0;
    while i < v.len()
        invariant
            i <= v@.len(),
            bytes_list(r@) == bytes_list(v@).subrange(0, i as int),
        decreases v@.len() - i,
    {
        let x = v[i].clone();
        let ghost before = bytes_list(r@);
        r.push(x);
        assert(bytes_list(r@) =~= before.push(v@[i as int]@));
        assert(bytes_list(v@).subrange(0, i + 1) =~= bytes_list(v@).subrange(0, i as int).push(
            v@[i as int]@,
        ));
        i = i + 1;
    }
    assert(bytes_list(v@).subrange(0, v@.len() as int) =~= bytes_list(v@));
    r
}

// ===== The builder =====

/// What a `Cors` filter is configured with. The lists are sets, kept in the
/// order in which their members were first added.
#[verifier::ext_equal]
pub struct CorsView {
    pub credentials: bool,
    /// Lower-cased names of the request header fields a request may carry.
    pub allowed_headers: Seq<Seq<u8>>,
    /// Lower-cased names of the response header fields a page may read.
    pub exposed_headers: Seq<Seq<u8>>,
    pub max_age: Option<u64>,
    /// Tokens of the methods a request may use.
    pub methods: Seq<Seq<u8>>,
    /// The origins a request may come from; `None` allows any origin.
    pub origins: Option<Seq<Seq<u8>>>,
}

/// A wrapping filter constructed via `warp::cors()`.
#[derive(Debug)]
pub struct Cors {
    credentials: bool,
    allowed_headers: Vec<Vec<u8>>,
    exposed_headers: Vec<Vec<u8>>,
    max_age: Option<u64>,
    methods: Vec<Vec<u8>>,
    origins: Option<Vec<Vec<u8>>>,
}

/// Creates a wrapping filter that exposes CORS behavior for a wrapped
/// filter: no credentials, no headers, no methods, any origin.
pub fn cors() -> (c: Cors)
    ensures
        c@ == (CorsView {
            credentials: false,
            allowed_headers: Seq::empty(),
            exposed_headers: Seq::empty(),
            max_age: None,
            methods: Seq::empty(),
            origins: None,
        }),
{
    let c = Cors {
        credentials: false,
        allowed_headers: Vec::new(),
        exposed_headers: Vec::new(),
        max_age: None,
        methods: Vec::new(),
        origins: None,
    };
    assert(c@ =~= (CorsView {
        credentials: false,
        allowed_headers: Seq::empty(),
        exposed_headers: Seq::empty(),
        max_age: None,
        methods: Seq::empty(),
        origins: None,
    }));
    c
}

/// Durations that `Cors::max_age` accepts.
pub trait Seconds {
    /// The whole number of seconds.
    spec fn spec_seconds(&self) -> u64;

    fn seconds(self) -> (r: u64)
        ensures
            r == self.spec_seconds(),
    ;
}

impl Seconds for u32 {
    open spec fn spec_seconds(&self) -> u64 {
        *self as u64
    }

    fn seconds(self) -> (r: u64) {
        self as u64
    }
}

/// The whole seconds of a `Duration`, as `Duration::as_secs` gives them.
pub uninterp spec fn whole_seconds(d: std::time::Duration) -> u64;

/// `Duration::as_secs`; its result is named `whole_seconds`.
#[verifier::external_body]
fn duration_as_secs(d: std::time::Duration) -> (r: u64)
    ensures
        r == whole_seconds(d),
{
    d.as_secs()
}

impl Seconds for std::time::Duration {
    open spec fn spec_seconds(&self) -> u64 {
        whole_seconds(*self)
    }

    fn seconds(self) -> (r: u64) {
        duration_as_secs(self)
    }
}

/// Position of the first `://` in `s` at or after `from`.
pub open spec fn scheme_end_from(s: Seq<char>, from: int) -> Option<int>
    decreases s.len() - from,
{
    if from < 0 || from + 3 > s.len() {
        None
    } else if s[from] == ':' && s[from + 1] == '/' && s[from + 2] == '/' {
        Some(from)
    } else {
        scheme_end_from(s, from + 1)
    }
}

/// The serialized `Origin` header value built from a scheme and a host
/// (`headers::Origin::try_from_parts`, then `to_string`); `None` when the
/// parts make no origin.
pub uninterp spec fn serialized_origin(scheme: Seq<char>, host: Seq<char>) -> Option<Seq<u8>>;

/// The origin value that `allow_origin(s)` adds: `s` split at its first
/// `://` into scheme and host; `None` when `s` is no origin.
pub open spec fn origin_value(s: Seq<char>) -> Option<Seq<u8>> {
    match scheme_end_from(s, 0) {
        Some(i) => serialized_origin(s.subrange(0, i), s.subrange(i + 3, s.len() as int)),
        None => None,
    }
}

/// `headers::Origin::try_from_parts(scheme, host, None)`, serialized; the
/// result is named `serialized_origin`.
#[verifier::external_body]
fn origin_from_parts(scheme: &str, host: &str) -> (r: Option<Vec<u8>>)
    ensures
        r matches Some(v) ==> serialized_origin(scheme@, host@) == Some(v@),
        r is None ==> serialized_origin(scheme@, host@) is None,
{
    match headers::Origin::try_from_parts(scheme, host, None) {
        Ok(o) => Some(o.to_string().into_bytes()),
        Err(_) => None,
    }
}

/// The origin value for `s`, as `origin_value` gives it.
pub fn parse_origin(s: &str) -> (r: Option<Vec<u8>>)
    ensures
        r matches Some(v) ==> origin_value(s@) == Some(v@),
        r is None ==> origin_value(s@) is None,
{
    let len = s.unicode_len();
    let mut i: usize = 0;
    while i < len && len - i >= 3
        invariant
            len == s@.len(),
            i <= len,
            scheme_end_from(s@, 0) == scheme_end_from(s@, i as int),
        decreases len - i,
    {
        if s.get_char(i) == ':' && s.get_char(i + 1) == '/' && s.get_char(i + 2) == '/' {
            let scheme = s.substring_char(0, i);
            let host = s.substring_char(i + 3, len);
            return origin_from_parts(scheme, host);
        }
        i = i + 1;
    }
    None
}

impl View for Cors {
    type V = CorsView;

    closed spec fn view(&self) -> CorsView {
        CorsView {
            credentials: self.credentials,
            allowed_headers: bytes_list(self.allowed_headers@),
            exposed_headers: bytes_list(self.exposed_headers@),
            max_age: self.max_age,
            methods: bytes_list(self.methods@),
            origins: match self.origins {
                Some(o) => Some(bytes_list(o@)),
                None => None,
            },
        }
    }
}

impl Cors {
    /// The sets hold no member twice.
    #[verifier::type_invariant]
    spec fn well_formed(&self) -> bool {
        &&& bytes_list(self.allowed_headers@).no_duplicates()
        &&& bytes_list(self.exposed_headers@).no_duplicates()
        &&& bytes_list(self.methods@).no_duplicates()
        &&& (self.origins matches Some(o) ==> bytes_list(o@).no_duplicates())
    }

    /// Sets whether to add the `Access-Control-Allow-Credentials` header.
    pub fn allow_credentials(self, allow: bool) -> (r: Self)
        ensures
            r@ == (CorsView { credentials: allow, ..self@ }),
    {
        proof {
            use_type_invariant(&self);
        }
        let Cors { credentials, allowed_headers, exposed_headers, max_age, methods, origins } =
            self;
        let r = Cors {
            credentials: allow,
            allowed_headers,
            exposed_headers,
            max_age,
            methods,
            origins,
        };
        assert(r@ =~= (CorsView { credentials: allow, ..self@ }));
        r
    }

    /// Adds a method to the existing list of allowed request methods.
    /// The method must be a valid method token.
    pub fn allow_method(self, method: &str) -> (r: Self)
        requires
            is_method_token(method.spec_bytes()),
        ensures
            r@ == (CorsView {
                methods: insert_unique(self@.methods, method.spec_bytes()),
                ..self@
            }),
    {
        proof {
            use_type_invariant(&self);
        }
        let Cors { credentials, allowed_headers, exposed_headers, max_age, mut methods, origins } =
            self;
        let token = vstd::slice::slice_to_vec(method.as_bytes());
        push_unique(&mut methods, token);
        proof {
            lemma_insert_unique_no_dups(self@.methods, method.spec_bytes());
        }
        let r = Cors { credentials, allowed_headers, exposed_headers, max_age, methods, origins };
        assert(r@ =~= (CorsView {
            methods: insert_unique(self@.methods, method.spec_bytes()),
            ..self@
        }));
        r
    }

    /// Adds multiple methods to the existing list of allowed request
    /// methods. Each must be a valid method token.
    pub fn allow_methods(self, methods: &[&str]) -> (r: Self)
        requires
            forall|i: int| 0 <= i < methods@.len() ==> is_method_token(#[trigger] methods@[i].spec_bytes()),
        ensures
            r@ == (CorsView {
                methods: insert_all(self@.methods, methods@.map_values(|m: &str| m.spec_bytes())),
                ..self@
            }),
    {
        let ghost start = self@;
        let ghost all = methods@.map_values(|m: &str| m.spec_bytes());
        let mut c = self;
        let mut i: usize = 0;
        while i < methods.len()
            invariant
                i <= methods@.len(),
                all == methods@.map_values(|m: &str| m.spec_bytes()),
                forall|k: int| 0 <= k < methods@.len() ==> is_method_token(#[trigger] methods@[k].spec_bytes()),
                c@ == (CorsView { methods: insert_all(start.methods, all.subrange(0, i as int)), ..start }),
            decreases methods@.len() - i,
        {
            c = c.allow_method(methods[i]);
            assert(all.subrange(0, i + 1).drop_last() =~= all.subrange(0, i as int));
            i = i + 1;
        }
        assert(all.subrange(0, methods@.len() as int) =~= all);
        c
    }

    /// Adds a header to the list of allowed request headers. It must be a
    /// valid header name.
    pub fn allow_header(self, header: &str) -> (r: Self)
        requires
            is_header_name(header.spec_bytes()),
        ensures
            r@ == (CorsView {
                allowed_headers: insert_unique(self@.allowed_headers, lower_bytes(header.spec_bytes())),
                ..self@
            }),
    {
        proof {
            use_type_invariant(&self);
        }
        let Cors { credentials, mut allowed_headers, exposed_headers, max_age, methods, origins } =
            self;
        let name = header_name_from_bytes(header.as_bytes());
        let name = name.unwrap();
        push_unique(&mut allowed_headers, name);
        proof {
            lemma_insert_unique_no_dups(self@.allowed_headers, lower_bytes(header.spec_bytes()));
        }
        let r = Cors { credentials, allowed_headers, exposed_headers, max_age, methods, origins };
        assert(r@ =~= (CorsView {
            allowed_headers: insert_unique(self@.allowed_headers, lower_bytes(header.spec_bytes())),
            ..self@
        }));
        r
    }

    /// Adds multiple headers to the list of allowed request headers. Each
    /// must be a valid header name.
    pub fn allow_headers(self, headers: &[&str]) -> (r: Self)
        requires
            forall|i: int| 0 <= i < headers@.len() ==> is_header_name(#[trigger] headers@[i].spec_bytes()),
        ensures
            r@ == (CorsView {
                allowed_headers: insert_all(
                    self@.allowed_headers,
                    headers@.map_values(|h: &str| lower_bytes(h.spec_bytes())),
                ),
                ..self@
            }),
    {
        let ghost start = self@;
        let ghost all = headers@.map_values(|h: &str| lower_bytes(h.spec_bytes()));
        let mut c = self;
        let mut i: usize = 0;
        while i < headers.len()
            invariant
                i <= headers@.len(),
                all == headers@.map_values(|h: &str| lower_bytes(h.spec_bytes())),
                forall|k: int| 0 <= k < headers@.len() ==> is_header_name(#[trigger] headers@[k].spec_bytes()),
                c@ == (CorsView {
                    allowed_headers: insert_all(start.allowed_headers, all.subrange(0, i as int)),
                    ..start
                }),
            decreases headers@.len() - i,
        {
            c = c.allow_header(headers[i]);
            assert(all.subrange(0, i + 1).drop_last() =~= all.subrange(0, i as int));
            i = i + 1;
        }
        assert(all.subrange(0, headers@.len() as int) =~= all);
        c
    }

    /// Adds a header to the list of exposed headers. It must be a valid
    /// header name.
    pub fn expose_header(self, header: &str) -> (r: Self)
        requires
            is_header_name(header.spec_bytes()),
        ensures
            r@ == (CorsView {
                exposed_headers: insert_unique(self@.exposed_headers, lower_bytes(header.spec_bytes())),
                ..self@
            }),
    {
        proof {
            use_type_invariant(&self);
        }
        let Cors { credentials, allowed_headers, mut exposed_headers, max_age, methods, origins } =
            self;
        let name = header_name_from_bytes(header.as_bytes());
        let name = name.unwrap();
        push_unique(&mut exposed_headers, name);
        proof {
            lemma_insert_unique_no_dups(self@.exposed_headers, lower_bytes(header.spec_bytes()));
        }
        let r = Cors { credentials, allowed_headers, exposed_headers, max_age, methods, origins };
        assert(r@ =~= (CorsView {
            exposed_headers: insert_unique(self@.exposed_headers, lower_bytes(header.spec_bytes())),
            ..self@
        }));
        r
    }

    /// Adds multiple headers to the list of exposed headers. Each must be a
    /// valid header name.
    pub fn expose_headers(self, headers: &[&str]) -> (r: Self)
        requires
            forall|i: int| 0 <= i < headers@.len() ==> is_header_name(#[trigger] headers@[i].spec_bytes()),
        ensures
            r@ == (CorsView {
                exposed_headers: insert_all(
                    self@.exposed_headers,
                    headers@.map_values(|h: &str| lower_bytes(h.spec_bytes())),
                ),
                ..self@
            }),
    {
        let ghost start = self@;
        let ghost all = headers@.map_values(|h: &str| lower_bytes(h.spec_bytes()));
        let mut c = self;
        let mut i: usize = 0;
        while i < headers.len()
            invariant
                i <= headers@.len(),
                all == headers@.map_values(|h: &str| lower_bytes(h.spec_bytes())),
                forall|k: int| 0 <= k < headers@.len() ==> is_header_name(#[trigger] headers@[k].spec_bytes()),
                c@ == (CorsView {
                    exposed_headers: insert_all(start.exposed_headers, all.subrange(0, i as int)),
                    ..start
                }),
            decreases headers@.len() - i,
        {
            c = c.expose_header(headers[i]);
            assert(all.subrange(0, i + 1).drop_last() =~= all.subrange(0, i as int));
            i = i + 1;
        }
        assert(all.subrange(0, headers@.len() as int) =~= all);
        c
    }

    /// Sets that *any* `Origin` header is allowed.
    pub fn allow_any_origin(self) -> (r: Self)
        ensures
            r@ == (CorsView { origins: None, ..self@ }),
    {
        proof {
            use_type_invariant(&self);
        }
        let Cors { credentials, allowed_headers, exposed_headers, max_age, methods, origins } =
            self;
        let r = Cors {
            credentials,
            allowed_headers,
            exposed_headers,
            max_age,
            methods,
            origins: None,
        };
        assert(r@ =~= (CorsView { origins: None, ..self@ }));
        r
    }

    /// Adds the origin value `v` to the list of allowed origins, starting
    /// the list if any origin was allowed so far.
    fn add_origin_value(self, v: Vec<u8>) -> (r: Self)
        ensures
            r@ == (CorsView {
                origins: Some(
                    insert_unique(
                        match self@.origins {
                            Some(o) => o,
                            None => Seq::empty(),
                        },
                        v@,
                    ),
                ),
                ..self@
            }),
    {
        proof {
            use_type_invariant(&self);
        }
        let ghost vv = v@;
        let Cors { credentials, allowed_headers, exposed_headers, max_age, methods, origins } =
            self;
        let mut list = match origins {
            Some(o) => o,
            None => Vec::new(),
        };
        let ghost before = bytes_list(list@);
        assert(before.no_duplicates());
        push_unique(&mut list, v);
        proof {
            lemma_insert_unique_no_dups(before, vv);
        }
        let r = Cors {
            credentials,
            allowed_headers,
            exposed_headers,
            max_age,
            methods,
            origins: Some(list),
        };
        assert(r@ =~= (CorsView {
            origins: Some(
                insert_unique(
                    match self@.origins {
                        Some(o) => o,
                        None => Seq::empty(),
                    },
                    vv,
                ),
            ),
            ..self@
        }));
        r
    }

    /// Adds an origin to the existing list of allowed `Origin`s. It must be
    /// a valid origin, such as `https://hyper.rs`
    /// (`try_allow_origin` checks it first).
    pub fn allow_origin(self, origin: &str) -> (r: Self)
        requires
            origin_value(origin@) is Some,
        ensures
            r@ == (CorsView {
                origins: Some(
                    insert_unique(
                        match self@.origins {
                            Some(o) => o,
                            None => Seq::empty(),
                        },
                        origin_value(origin@)->0,
                    ),
                ),
                ..self@
            }),
    {
        let v = parse_origin(origin);
        let v = v.unwrap();
        self.add_origin_value(v)
    }

    /// Adds an origin to the list of allowed `Origin`s if it is a valid
    /// origin; hands the filter back unchanged in `Err` if it is not.
    pub fn try_allow_origin(self, origin: &str) -> (r: Result<Self, Self>)
        ensures
            origin_value(origin@) is None ==> (r matches Err(c) && c@ == self@),
            origin_value(origin@) matches Some(v) ==> (r matches Ok(c) && c@ == (CorsView {
                origins: Some(
                    insert_unique(
                        match self@.origins {
                            Some(o) => o,
                            None => Seq::empty(),
                        },
                        v,
                    ),
                ),
                ..self@
            })),
    {
        match parse_origin(origin) {
            Some(v) => Ok(self.add_origin_value(v)),
            None => Err(self),
        }
    }

    /// Adds multiple origins to the existing list of allowed `Origin`s.
    /// Each must be a valid origin.
    pub fn allow_origins(self, origins: &[&str]) -> (r: Self)
        requires
            forall|i: int| 0 <= i < origins@.len() ==> (#[trigger] origin_value(origins@[i]@)) is Some,
        ensures
            r@ == (CorsView {
                origins: Some(
                    insert_all(
                        match self@.origins {
                            Some(o) => o,
                            None => Seq::empty(),
                        },
                        origins@.map_values(|o: &str| origin_value(o@)->0),
                    ),
                ),
                ..self@
            }),
    {
        let ghost start = self@;
        let ghost base = match self@.origins {
            Some(o) => o,
            None => Seq::<Seq<u8>>::empty(),
        };
        let ghost all = origins@.map_values(|o: &str| origin_value(o@)->0);
        let mut c = self.start_origin_list();
        let mut i: usize = 0;
        while i < origins.len()
            invariant
                i <= origins@.len(),
                all == origins@.map_values(|o: &str| origin_value(o@)->0),
                forall|k: int| 0 <= k < origins@.len() ==> (#[trigger] origin_value(origins@[k]@)) is Some,
                c@ == (CorsView {
                    origins: Some(insert_all(base, all.subrange(0, i as int))),
                    ..start
                }),
            decreases origins@.len() - i,
        {
            c = c.allow_origin(origins[i]);
            assert(all.subrange(0, i + 1).drop_last() =~= all.subrange(0, i as int));
            assert(all.subrange(0, i + 1).last() == origin_value(origins@[i as int]@)->0);
            i = i + 1;
        }
        assert(all.subrange(0, origins@.len() as int) =~= all);
        c
    }

    /// Makes the list of allowed origins explicit: empty if any origin was
    /// allowed so far.
    fn start_origin_list(self) -> (r: Self)
        ensures
            r@ == (CorsView {
                origins: Some(
                    match self@.origins {
                        Some(o) => o,
                        None => Seq::empty(),
                    },
                ),
                ..self@
            }),
    {
        proof {
            use_type_invariant(&self);
        }
        let Cors { credentials, allowed_headers, exposed_headers, max_age, methods, origins } =
            self;
        let list = match origins {
            Some(o) => o,
            None => Vec::new(),
        };
        assert(bytes_list(list@).no_duplicates());
        let r = Cors {
            credentials,
            allowed_headers,
            exposed_headers,
            max_age,
            methods,
            origins: Some(list),
        };
        assert(r@ =~= (CorsView {
            origins: Some(
                match self@.origins {
                    Some(o) => o,
                    None => Seq::empty(),
                },
            ),
            ..self@
        }));
        r
    }

    /// Sets the `Access-Control-Max-Age` header.
    pub fn max_age<S: Seconds>(self, seconds: S) -> (r: Self)
        ensures
            r@ == (CorsView { max_age: Some(seconds.spec_seconds()), ..self@ }),
    {
        proof {
            use_type_invariant(&self);
        }
        let secs = seconds.seconds();
        let Cors { credentials, allowed_headers, exposed_headers, max_age, methods, origins } =
            self;
        let r = Cors {
            credentials,
            allowed_headers,
            exposed_headers,
            max_age: Some(secs),
            methods,
            origins,
        };
        assert(r@ =~= (CorsView { max_age: Some(secs), ..self@ }));
        r
    }
}

impl Clone for Cors {
    fn clone(&self) -> (r: Self)
        ensures
            r@ == self@,
    {
        proof {
            use_type_invariant(self);
        }
        let origins = match &self.origins {
            Some(o) => Some(clone_list(o)),
            None => None,
        };
        let r = Cors {
            credentials: self.credentials,
            allowed_headers: clone_list(&self.allowed_headers),
            exposed_headers: clone_list(&self.exposed_headers),
            max_age: self.max_age,
            methods: clone_list(&self.methods),
            origins,
        };
        assert(r@ =~= self@);
        r
    }
}

// ===== Requests =====

/// Why a request was refused by a `cors` filter.
#[derive(Clone, Copy, Debug, PartialEq, Eq, Structural)]
pub enum Forbidden {
    OriginNotAllowed,
    MethodNotAllowed,
    HeaderNotAllowed,
}

/// An error used to reject requests that are forbidden by a `cors` filter.
#[derive(Debug)]
pub struct CorsForbidden {
    kind: Forbidden,
}

/// The text that describes a refusal for `kind`.
pub open spec fn forbidden_message(kind: Forbidden) -> Seq<char> {
    "CORS request forbidden: "@ + match kind {
        Forbidden::OriginNotAllowed => "origin not allowed"@,
        Forbidden::MethodNotAllowed => "request-method not allowed"@,
        Forbidden::HeaderNotAllowed => "header not allowed"@,
    }
}

impl CorsForbidden {
    /// Why the request was refused.
    pub closed spec fn spec_kind(&self) -> Forbidden {
        self.kind
    }

    /// Why the request was refused.
    pub fn kind(&self) -> (k: Forbidden)
        ensures
            k == self.spec_kind(),
    {
        self.kind
    }

    /// The text of the refusal.
    pub fn message(&self) -> (s: String)
        ensures
            s@ == forbidden_message(self.spec_kind()),
    {
        let mut s = "CORS request forbidden: ".to_owned();
        let detail = match self.kind {
            Forbidden::OriginNotAllowed => "origin not allowed",
            Forbidden::MethodNotAllowed => "request-method not allowed",
            Forbidden::HeaderNotAllowed => "header not allowed",
        };
        s.append(detail);
        s
    }
}

/// The pieces of `s` from position `i` on, split at each `sep` with no
/// trimming, where the current piece began at `start` (`str::split`).
pub open spec fn split_from(s: Seq<u8>, sep: u8, i: int, start: int) -> Seq<Seq<u8>>
    decreases s.len() - i,
{
    if i >= s.len() {
        seq![s.subrange(start, s.len() as int)]
    } else if s[i] == sep {
        seq![s.subrange(start, i)] + split_from(s, sep, i + 1, i + 1)
    } else {
        split_from(s, sep, i + 1, start)
    }
}

/// The pieces of `s` between the occurrences of `sep`.
pub open spec fn split_bytes(s: Seq<u8>, sep: u8) -> Seq<Seq<u8>> {
    split_from(s, sep, 0, 0)
}

/// What a `cors` filter makes of a request it lets through.
pub enum CorsCheck {
    /// A preflight request from the given origin: the filter answers it.
    Preflight(Seq<u8>),
    /// A cross-origin request from the given origin.
    Simple(Seq<u8>),
    /// A request without an `Origin` field.
    NotCors,
}

impl CorsView {
    /// Whether a request from `origin` may pass.
    pub open spec fn origin_allowed(self, origin: Seq<u8>) -> bool {
        match self.origins {
            Some(o) => o.contains(origin),
            None => true,
        }
    }

    /// Whether a preflight request may announce the method `m`.
    pub open spec fn method_allowed(self, m: Seq<u8>) -> bool {
        is_method_token(m) && self.methods.contains(m)
    }

    /// Whether a preflight request may announce the header name `h`.
    pub open spec fn header_allowed(self, h: Seq<u8>) -> bool {
        is_header_name(h) && self.allowed_headers.contains(lower_bytes(h))
    }

    /// Whether every name of an `access-control-request-headers` value `v`
    /// is allowed; the value is split at each comma, without trimming.
    pub open spec fn request_headers_allowed(self, v: Seq<u8>) -> bool {
        &&& all_visible_ascii(v)
        &&& forall|k: int|
            0 <= k < split_bytes(v, 44).len() ==> self.header_allowed(
                #[trigger] split_bytes(v, 44)[k],
            )
    }

    /// What the filter makes of a request with method `method` and header
    /// fields `headers`: let it through as a preflight or simple CORS
    /// request, or as no CORS request at all, or refuse it.
    pub open spec fn check(self, method: Seq<u8>, headers: HeaderMap) -> Result<CorsCheck, Forbidden> {
        match headers.spec_get("origin"@) {
            None => Ok(CorsCheck::NotCors),
            Some(origin) => if method == seq![79u8, 80, 84, 73, 79, 78, 83] {
                if !self.origin_allowed(origin) {
                    Err(Forbidden::OriginNotAllowed)
                } else {
                    match headers.spec_get("access-control-request-method"@) {
                        None => Err(Forbidden::MethodNotAllowed),
                        Some(m) => if !self.method_allowed(m) {
                            Err(Forbidden::MethodNotAllowed)
                        } else {
                            match headers.spec_get("access-control-request-headers"@) {
                                None => Ok(CorsCheck::Preflight(origin)),
                                Some(h) => if self.request_headers_allowed(h) {
                                    Ok(CorsCheck::Preflight(origin))
                                } else {
                                    Err(Forbidden::HeaderNotAllowed)
                                },
                            }
                        },
                    }
                }
            } else if self.origin_allowed(origin) {
                Ok(CorsCheck::Simple(origin))
            } else {
                Err(Forbidden::OriginNotAllowed)
            },
        }
    }
}

/// How a request passed a `cors` filter.
pub enum Validated {
    Preflight(Vec<u8>),
    Simple(Vec<u8>),
    NotCors,
}

impl Validated {
    pub open spec fn view(&self) -> CorsCheck {
        match self {
            Validated::Preflight(o) => CorsCheck::Preflight(o@),
            Validated::Simple(o) => CorsCheck::Simple(o@),
            Validated::NotCors => CorsCheck::NotCors,
        }
    }
}

/// The outcome of `check_request`, with the origins as byte strings.
pub open spec fn check_view(r: Result<Validated, Forbidden>) -> Result<CorsCheck, Forbidden> {
    match r {
        Ok(v) => Ok(v.view()),
        Err(e) => Err(e),
    }
}

/// The bytes `true`.
pub open spec fn true_bytes() -> Seq<u8> {
    seq![116u8, 114, 117, 101]
}

/// The fields that every response to a CORS request carries.
pub open spec fn common_fields(c: CorsView) -> Seq<(Seq<char>, Seq<u8>)> {
    let creds: Seq<(Seq<char>, Seq<u8>)> = if c.credentials {
        seq![("access-control-allow-credentials"@, true_bytes())]
    } else {
        Seq::empty()
    };
    if c.exposed_headers.len() > 0 {
        creds.push(("access-control-expose-headers"@, join_values(c.exposed_headers, 44)))
    } else {
        creds
    }
}

/// The fields that the answer to a preflight request carries, before the
/// allowed origin: the common ones, the allowed headers and methods (even
/// when there are none), and the maximum age if one is set.
pub open spec fn preflight_fields(c: CorsView) -> Seq<(Seq<char>, Seq<u8>)> {
    let base = common_fields(c).push(
        ("access-control-allow-headers"@, join_values(c.allowed_headers, 44)),
    ).push(("access-control-allow-methods"@, join_values(c.methods, 44)));
    match c.max_age {
        Some(a) => base.push(("access-control-max-age"@, decimal(a as nat))),
        None => base,
    }
}

/// The field that names the allowed origin.
pub open spec fn origin_field(origin: Seq<u8>) -> (Seq<char>, Seq<u8>) {
    ("access-control-allow-origin"@, origin)
}

/// The set `v` as one field value, its members separated by `, `.
fn join_list(v: &Vec<Vec<u8>>) -> (r: Vec<u8>)
    ensures
        r@ == join_values(bytes_list(v@), 44),
{
    let mut out: Vec<u8> = Vec::new();
    let mut i: usize = 0;
    while i < v.len()
        invariant
            i <= v@.len(),
            out@ == join_values(bytes_list(v@).subrange(0, i as int), 44),
        decreases v@.len() - i,
    {
        let ghost l = bytes_list(v@);
        assert(l.subrange(0, i + 1).drop_last() =~= l.subrange(0, i as int));
        assert(l.subrange(0, i + 1).last() == v@[i as int]@);
        if i > 0 {
            out.push(44);
            out.push(32);
        }
        crate::text::extend_bytes(&mut out, v[i].as_slice());
        proof {
            if i == 0 {
                assert(out@ =~= l.subrange(0, 1)[0]);
            } else {
                assert(out@ =~= join_values(l.subrange(0, i as int), 44) + seq![44u8, 32u8] + l.subrange(0, i + 1).last());
            }
        }
        i = i + 1;
    }
    assert(bytes_list(v@).subrange(0, v@.len() as int) =~= bytes_list(v@));
    out
}

/// A `cors` filter ready to check requests: its configuration, and the
/// field values it answers with.
#[derive(Debug)]
pub struct Configured {
    cors: Cors,
    allowed_headers_header: Vec<u8>,
    expose_headers_header: Option<Vec<u8>>,
    methods_header: Vec<u8>,
}

impl View for Configured {
    type V = CorsView;

    closed spec fn view(&self) -> CorsView {
        self.cors@
    }
}

impl Configured {
    /// The field values are those of the configuration.
    #[verifier::type_invariant]
    spec fn well_formed(&self) -> bool {
        &&& self.allowed_headers_header@ == join_values(self.cors@.allowed_headers, 44)
        &&& self.methods_header@ == join_values(self.cors@.methods, 44)
        &&& if self.cors@.exposed_headers.len() > 0 {
            self.expose_headers_header matches Some(v) && v@ == join_values(
                self.cors@.exposed_headers,
                44,
            )
        } else {
            self.expose_headers_header is None
        }
    }

    fn new(cors: Cors) -> (r: Configured)
        ensures
            r@ == cors@,
    {
        proof {
            use_type_invariant(&cors);
        }
        let allowed_headers_header = join_list(&cors.allowed_headers);
        let expose_headers_header = if cors.exposed_headers.len() == 0 {
            None
        } else {
            Some(join_list(&cors.exposed_headers))
        };
        let methods_header = join_list(&cors.methods);
        Configured { cors, allowed_headers_header, expose_headers_header, methods_header }
    }

    /// Whether a request from `origin` may pass.
    fn is_origin_allowed(&self, origin: &[u8]) -> (r: bool)
        ensures
            r == self@.origin_allowed(origin@),
    {
        match &self.cors.origins {
            Some(list) => Self::list_contains(list, origin),
            None => true,
        }
    }

    /// Whether `v` is in the set `list`.
    fn list_contains(list: &Vec<Vec<u8>>, v: &[u8]) -> (r: bool)
        ensures
            r == bytes_list(list@).contains(v@),
    {
        let mut i: usize = 0;
        while i < list.len()
            invariant
                i <= list@.len(),
                forall|j: int| 0 <= j < i ==> list@[j]@ != v@,
            decreases list@.len() - i,
        {
            if bytes_eq(list[i].as_slice(), v) {
                assert(bytes_list(list@)[i as int] == v@);
                return true;
            }
            i = i + 1;
        }
        assert(!bytes_list(list@).contains(v@)) by {
            if bytes_list(list@).contains(v@) {
                let k = choose|k: int| 0 <= k < bytes_list(list@).len() && bytes_list(list@)[k] == v@;
                assert(list@[k]@ == v@);
            }
        }
        false
    }

    /// Whether a preflight request may announce the method `m`.
    fn is_method_allowed(&self, m: &[u8]) -> (r: bool)
        ensures
            r == self@.method_allowed(m@),
    {
        match Method::from_bytes(m) {
            Some(_) => Self::list_contains(&self.cors.methods, m),
            None => false,
        }
    }

    /// Whether a preflight request may announce the header name `h`.
    fn is_header_allowed(&self, h: &[u8]) -> (r: bool)
        ensures
            r == self@.header_allowed(h@),
    {
        match header_name_from_bytes(h) {
            Some(name) => Self::list_contains(&self.cors.allowed_headers, name.as_slice()),
            None => false,
        }
    }

    /// Whether every name of an `access-control-request-headers` value is
    /// allowed.
    fn are_request_headers_allowed(&self, v: &[u8]) -> (r: bool)
        ensures
            r == self@.request_headers_allowed(v@),
    {
        if !is_visible_ascii_bytes(v) {
            return false;
        }
        let ghost all = split_bytes(v@, 44);
        let ghost mut done: Seq<Seq<u8>> = Seq::empty();
        let mut start: usize = 0;
        let mut i: usize = 0;
        while i < v.len()
            invariant
                start <= i <= v@.len(),
                all == split_bytes(v@, 44),
                all == done + split_from(v@, 44, i as int, start as int),
                forall|k: int| 0 <= k < done.len() ==> self@.header_allowed(#[trigger] done[k]),
            decreases v@.len() - i,
        {
            if v[i] == 44 {
                let piece = &v[start..i];
                if !self.is_header_allowed(piece) {
                    assert(all[done.len() as int] == piece@);
                    return false;
                }
                proof {
                    done = done.push(piece@);
                    assert(all =~= done + split_from(v@, 44, i + 1, i + 1));
                }
                start = i + 1;
            }
            i = i + 1;
        }
        let piece = &v[start..v.len()];
        assert(all[done.len() as int] == piece@);
        if !self.is_header_allowed(piece) {
            return false;
        }
        assert forall|k: int| 0 <= k < all.len() implies self@.header_allowed(#[trigger] all[k]) by {
            if k < done.len() {
                assert(all[k] == done[k]);
            }
        }
        true
    }

    /// Checks a request against the configuration, as `CorsView::check`.
    pub fn check_request(&self, method: &Method, headers: &HeaderMap) -> (r: Result<Validated, Forbidden>)
        ensures
            check_view(r) == self@.check(method.view(), *headers),
    {
        match headers.get("origin") {
            None => Ok(Validated::NotCors),
            Some(origin) => {
                if method.same(&Method::options()) {
                    if !self.is_origin_allowed(origin.as_slice()) {
                        return Err(Forbidden::OriginNotAllowed);
                    }
                    match headers.get("access-control-request-method") {
                        None => {
                            return Err(Forbidden::MethodNotAllowed);
                        },
                        Some(m) => {
                            if !self.is_method_allowed(m.as_slice()) {
                                return Err(Forbidden::MethodNotAllowed);
                            }
                        },
                    }
                    match headers.get("access-control-request-headers") {
                        None => {},
                        Some(h) => {
                            if !self.are_request_headers_allowed(h.as_slice()) {
                                return Err(Forbidden::HeaderNotAllowed);
                            }
                        },
                    }
                    Ok(Validated::Preflight(origin.clone()))
                } else if self.is_origin_allowed(origin.as_slice()) {
                    Ok(Validated::Simple(origin.clone()))
                } else {
                    Err(Forbidden::OriginNotAllowed)
                }
            },
        }
    }

    /// Sets the fields that every response to a CORS request carries.
    fn append_common_headers(&self, headers: &mut HeaderMap)
        ensures
            final(headers).view() == apply_inserts(old(headers).view(), common_fields(self@)),
    {
        proof {
            use_type_invariant(self);
        }
        let ghost h0 = headers.view();
        let ghost creds: Seq<(Seq<char>, Seq<u8>)> = if self@.credentials {
            seq![("access-control-allow-credentials"@, true_bytes())]
        } else {
            Seq::empty()
        };
        if self.cors.credentials {
            headers.insert("access-control-allow-credentials", &[116u8, 114, 117, 101]);
            proof {
                lemma_apply_inserts_push(h0, Seq::empty(), ("access-control-allow-credentials"@, true_bytes()));
                assert(Seq::<(Seq<char>, Seq<u8>)>::empty().push(("access-control-allow-credentials"@, true_bytes())) =~= creds);
            }
        } else {
            assert(apply_inserts(h0, creds) == h0);
        }
        assert(headers.view() == apply_inserts(h0, creds));
        match &self.expose_headers_header {
            Some(v) => {
                headers.insert("access-control-expose-headers", v.as_slice());
                proof {
                    lemma_apply_inserts_push(h0, creds, ("access-control-expose-headers"@, v@));
                }
            },
            None => {},
        }
    }

    /// Sets the fields that the answer to a preflight request carries,
    /// before the allowed origin.
    fn append_preflight_headers(&self, headers: &mut HeaderMap)
        ensures
            final(headers).view() == apply_inserts(old(headers).view(), preflight_fields(self@)),
    {
        proof {
            use_type_invariant(self);
        }
        let ghost h0 = headers.view();
        let ghost c = self@;
        self.append_common_headers(headers);
        headers.insert("access-control-allow-headers", self.allowed_headers_header.as_slice());
        proof {
            lemma_apply_inserts_push(h0, common_fields(c), ("access-control-allow-headers"@, join_values(c.allowed_headers, 44)));
        }
        let ghost f1 = common_fields(c).push(("access-control-allow-headers"@, join_values(c.allowed_headers, 44)));
        headers.insert("access-control-allow-methods", self.methods_header.as_slice());
        proof {
            lemma_apply_inserts_push(h0, f1, ("access-control-allow-methods"@, join_values(c.methods, 44)));
        }
        let ghost f2 = f1.push(("access-control-allow-methods"@, join_values(c.methods, 44)));
        match self.cors.max_age {
            Some(age) => {
                let text = u64_to_decimal(age);
                headers.insert("access-control-max-age", text.as_slice());
                proof {
                    lemma_apply_inserts_push(h0, f2, ("access-control-max-age"@, decimal(age as nat)));
                }
            },
            None => {},
        }
    }
}

impl Clone for Configured {
    fn clone(&self) -> (r: Self)
        ensures
            r@ == self@,
    {
        proof {
            use_type_invariant(self);
        }
        let cors = self.cors.clone();
        let expose_headers_header = match &self.expose_headers_header {
            Some(v) => Some(v.clone()),
            None => None,
        };
        Configured {
            cors,
            allowed_headers_header: self.allowed_headers_header.clone(),
            expose_headers_header,
            methods_header: self.methods_header.clone(),
        }
    }
}

/// The answer of a `cors` filter to a preflight request it allowed.
#[derive(Debug)]
pub struct Preflight {
    config: Configured,
    origin: Vec<u8>,
}

impl Preflight {
    /// The configuration of the filter that answered.
    pub closed spec fn spec_config(&self) -> CorsView {
        self.config@
    }

    /// The origin of the request.
    pub closed spec fn spec_origin(&self) -> Seq<u8> {
        self.origin@
    }
}

impl Reply for Preflight {
    /// An empty `200 OK` response.
    open spec fn reply_status(&self) -> u16 {
        200
    }

    /// The preflight fields, then the origin that is allowed.
    open spec fn reply_headers(&self) -> Seq<(Seq<char>, Seq<u8>)> {
        apply_inserts(
            Seq::empty(),
            preflight_fields(self.spec_config()).push(origin_field(self.spec_origin())),
        )
    }

    open spec fn reply_body(&self) -> Body {
        Body::Empty
    }

    fn into_response(self) -> (r: Response) {
        let mut res = Response::new_empty();
        self.config.append_preflight_headers(&mut res.headers);
        let ghost h = res.headers.view();
        res.headers.insert("access-control-allow-origin", self.origin.as_slice());
        proof {
            lemma_apply_inserts_push(
                Seq::empty(),
                preflight_fields(self.spec_config()),
                origin_field(self.spec_origin()),
            );
        }
        res
    }
}

/// The reply of the wrapped filter to a CORS request it answered, with the
/// fields that let the origin read it.
#[derive(Debug)]
pub struct Wrapped<R> {
    config: Configured,
    inner: R,
    origin: Vec<u8>,
}

impl<R> Wrapped<R> {
    /// The configuration of the filter.
    pub closed spec fn spec_config(&self) -> CorsView {
        self.config@
    }

    /// The reply of the wrapped filter.
    pub closed spec fn spec_inner(&self) -> R {
        self.inner
    }

    /// The origin of the request.
    pub closed spec fn spec_origin(&self) -> Seq<u8> {
        self.origin@
    }
}

impl<R: Reply> Reply for Wrapped<R> {
    open spec fn reply_status(&self) -> u16 {
        self.spec_inner().reply_status()
    }

    /// The fields of the inner reply, then the common fields and the origin
    /// that is allowed.
    open spec fn reply_headers(&self) -> Seq<(Seq<char>, Seq<u8>)> {
        apply_inserts(
            self.spec_inner().reply_headers(),
            common_fields(self.spec_config()).push(origin_field(self.spec_origin())),
        )
    }

    open spec fn reply_body(&self) -> Body {
        self.spec_inner().reply_body()
    }

    fn into_response(self) -> (r: Response) {
        let Wrapped { config, inner, origin } = self;
        let mut res = inner.into_response();
        let ghost h0 = res.headers.view();
        config.append_common_headers(&mut res.headers);
        res.headers.insert("access-control-allow-origin", origin.as_slice());
        proof {
            lemma_apply_inserts_push(h0, common_fields(config@), origin_field(origin@));
        }
        res
    }
}

/// What a `cors` filter does with a request.
pub enum CorsDecision {
    /// Answers a preflight request itself.
    Preflight(Preflight),
    /// Runs the wrapped filter; its reply is wrapped for the given origin,
    /// or passed on as it is when the request was no CORS request.
    Inner(Option<Vec<u8>>),
    /// Refuses the request.
    Reject(Rejection),
}

/// A filter wrapped by a `cors` filter.
#[derive(Debug)]
pub struct CorsFilter<F> {
    config: Configured,
    inner: F,
}

impl Cors {
    /// Wraps the filter `inner` with this configuration.
    pub fn wrap<F>(&self, inner: F) -> (r: CorsFilter<F>)
        ensures
            r.spec_config() == self@,
            r.spec_inner() == inner,
    {
        CorsFilter { config: Configured::new(self.clone()), inner }
    }
}

impl<F> CorsFilter<F> {
    /// The configuration of the filter.
    pub closed spec fn spec_config(&self) -> CorsView {
        self.config@
    }

    /// The wrapped filter.
    pub closed spec fn spec_inner(&self) -> F {
        self.inner
    }

    /// The wrapped filter.
    pub fn inner(&self) -> (r: &F)
        ensures
            *r == self.spec_inner(),
    {
        &self.inner
    }

    /// Decides what to do with the request in `route`: answer a preflight
    /// request, run the wrapped filter, or refuse the request with a
    /// `CorsForbidden` rejection.
    pub fn filter(&self, route: &Route) -> (d: CorsDecision)
        ensures
            match self.spec_config().check(route.spec_method(), route.spec_headers()) {
                Ok(CorsCheck::Preflight(o)) => d matches CorsDecision::Preflight(p) && p.spec_config()
                    == self.spec_config() && p.spec_origin() == o,
                Ok(CorsCheck::Simple(o)) => d matches CorsDecision::Inner(Some(v)) && v@ == o,
                Ok(CorsCheck::NotCors) => d matches CorsDecision::Inner(None),
                Err(k) => d matches CorsDecision::Reject(Rejection::Known(Known::CorsForbidden(f)))
                    && f.spec_kind() == k,
            },
    {
        let validated = self.config.check_request(route.method(), route.headers());
        match validated {
            Ok(Validated::Preflight(origin)) => CorsDecision::Preflight(
                Preflight { config: self.config.clone(), origin },
            ),
            Ok(Validated::Simple(origin)) => CorsDecision::Inner(Some(origin)),
            Ok(Validated::NotCors) => CorsDecision::Inner(None),
            Err(kind) => CorsDecision::Reject(
                Rejection::Known(Known::CorsForbidden(CorsForbidden { kind })),
            ),
        }
    }

    /// What the filter hands on once the wrapped filter replied `inner`:
    /// the reply wrapped for `origin`, or the reply itself when there is no
    /// origin.
    pub fn wrap_reply<R>(&self, origin: Option<Vec<u8>>, inner: R) -> (r: Either<Wrapped<R>, R>)
        ensures
            match origin {
                Some(o) => r matches Either::A(w) && w.spec_config() == self.spec_config()
                    && w.spec_origin() == o@ && w.spec_inner() == inner,
                None => r == Either::<Wrapped<R>, R>::B(inner),
            },
    {
        match origin {
            Some(origin) => Either::A(Wrapped { config: self.config.clone(), inner, origin }),
            None => Either::B(inner),
        }
    }
}

// ===== Laws =====

/// Allowing a method, header or origin that is already allowed changes
/// nothing: the lists are sets.
pub proof fn lemma_allow_twice(s: Seq<Seq<u8>>, x: Seq<u8>)
    ensures
        insert_unique(insert_unique(s, x), x) == insert_unique(s, x),
        insert_unique(s, x).contains(x),
{
    if !s.contains(x) {
        assert(s.push(x)[s.len() as int] == x);
    }
}

/// The answer to a preflight request names the request's origin as the
/// allowed one.
pub proof fn lemma_preflight_names_origin(p: Preflight)
    ensures
        first_value(p.reply_headers(), lower_chars("access-control-allow-origin"@)) == Some(
            p.spec_origin(),
        ),
{
    let f = preflight_fields(p.spec_config());
    lemma_apply_inserts_push(Seq::empty(), f, origin_field(p.spec_origin()));
    lemma_get_after_insert(
        apply_inserts(Seq::empty(), f),
        lower_chars("access-control-allow-origin"@),
        p.spec_origin(),
    );
}

/// The names of the fields a CORS answer carries differ from one another
/// (their lengths do).
proof fn lemma_cors_names_differ()
    ensures
        lower_chars("access-control-allow-credentials"@).len() == 32,
        lower_chars("access-control-expose-headers"@).len() == 29,
        lower_chars("access-control-allow-headers"@).len() == 28,
        lower_chars("access-control-allow-methods"@).len() == 28,
        lower_chars("access-control-max-age"@).len() == 22,
        lower_chars("access-control-allow-origin"@).len() == 27,
{
    reveal_strlit("access-control-allow-credentials");
    reveal_strlit("access-control-expose-headers");
    reveal_strlit("access-control-allow-headers");
    reveal_strlit("access-control-allow-methods");
    reveal_strlit("access-control-max-age");
    reveal_strlit("access-control-allow-origin");
}

/// The answer to a preflight request carries what every answer to a CORS
/// request carries: `access-control-allow-credentials: true` when the
/// configuration allows credentials, and the exposed headers, joined, when
/// there are any.
pub proof fn lemma_preflight_carries_common_fields(p: Preflight)
    ensures
        p.spec_config().credentials ==> first_value(
            p.reply_headers(),
            lower_chars("access-control-allow-credentials"@),
        ) == Some(seq![116u8, 114, 117, 101]),
        p.spec_config().exposed_headers.len() > 0 ==> first_value(
            p.reply_headers(),
            lower_chars("access-control-expose-headers"@),
        ) == Some(join_values(p.spec_config().exposed_headers, 44)),
{
    lemma_cors_names_differ();
    let c = p.spec_config();
    let cf = common_fields(c);
    let ah = ("access-control-allow-headers"@, join_values(c.allowed_headers, 44));
    let am = ("access-control-allow-methods"@, join_values(c.methods, 44));
    let e = Seq::<(Seq<char>, Seq<u8>)>::empty();
    let kc = lower_chars("access-control-allow-credentials"@);
    let ke = lower_chars("access-control-expose-headers"@);
    let pf = preflight_fields(c);
    let o = origin_field(p.spec_origin());
    assert forall|k: Seq<char>| k == kc || k == ke implies first_value(apply_inserts(e, pf.push(o)), k)
        == first_value(apply_inserts(e, cf), k) by {
        lemma_first_value_insert_other(e, pf, o, k);
        match c.max_age {
            Some(a) => {
                lemma_first_value_insert_other(e, cf.push(ah).push(am), ("access-control-max-age"@, decimal(a as nat)), k);
            },
            None => {},
        }
        lemma_first_value_insert_other(e, cf.push(ah), am, k);
        lemma_first_value_insert_other(e, cf, ah, k);
    }
    let creds: Seq<(Seq<char>, Seq<u8>)> = if c.credentials {
        seq![("access-control-allow-credentials"@, true_bytes())]
    } else {
        Seq::empty()
    };
    if c.exposed_headers.len() > 0 {
        let x = ("access-control-expose-headers"@, join_values(c.exposed_headers, 44));
        lemma_first_value_insert_other(e, creds, x, kc);
        lemma_apply_inserts_push(e, creds, x);
        lemma_get_after_insert(apply_inserts(e, creds), ke, x.1);
    }
    if c.credentials {
        let t = ("access-control-allow-credentials"@, true_bytes());
        assert(creds =~= e.push(t));
        lemma_apply_inserts_push(e, e, t);
        lemma_get_after_insert(apply_inserts(e, e), kc, t.1);
    }
}

/// A reply wrapped for a CORS request names the request's origin as the
/// allowed one, and keeps the status and body of the wrapped reply.
pub proof fn lemma_wrapped_names_origin<R: Reply>(w: Wrapped<R>)
    ensures
        first_value(w.reply_headers(), lower_chars("access-control-allow-origin"@)) == Some(
            w.spec_origin(),
        ),
        w.reply_status() == w.spec_inner().reply_status(),
        w.reply_body() == w.spec_inner().reply_body(),
{
    let f = common_fields(w.spec_config());
    let h = w.spec_inner().reply_headers();
    lemma_apply_inserts_push(h, f, origin_field(w.spec_origin()));
    lemma_get_after_insert(
        apply_inserts(h, f),
        lower_chars("access-control-allow-origin"@),
        w.spec_origin(),
    );
}

/// A filter that allows any origin refuses no request for its origin, and
/// lets every request that is not a preflight request through.
pub proof fn lemma_any_origin_passes(c: CorsView, method: Seq<u8>, headers: HeaderMap)
    requires
        c.origins is None,
    ensures
        c.check(method, headers) != Err::<CorsCheck, Forbidden>(Forbidden::OriginNotAllowed),
        method != seq![79u8, 80, 84, 73, 79, 78, 83] ==> c.check(method, headers) is Ok,
{
}

/// A request without an `Origin` field is no CORS request: it passes
/// whatever the configuration.
pub proof fn lemma_no_origin_not_cors(c: CorsView, method: Seq<u8>, headers: HeaderMap)
    requires
        headers.spec_get("origin"@) is None,
    ensures
        c.check(method, headers) == Ok::<CorsCheck, Forbidden>(CorsCheck::NotCors),
{
}

impl<F> crate::filter::wrap::Wrap<F> for Cors {
    type Wrapped = CorsFilter<F>;

    open spec fn wraps(&self, filter: F, w: CorsFilter<F>) -> bool {
        w.spec_config() == self@ && w.spec_inner() == filter
    }

    fn wrap(&self, filter: F) -> (w: CorsFilter<F>) {
        Cors::wrap(self, filter)
    }
}

} // verus!
