//! Basic Authentication Filters
//!
//! A wrapping filter that lets a request through to the filter it wraps
//! only when it carries one of the allowed user names and passwords, and
//! answers `401 Unauthorized` otherwise.
use vstd::prelude::*;
use crate::filters::cors::{bytes_list, clone_list, insert_all, insert_unique, lemma_insert_all_contains, lemma_insert_unique_no_dups, push_unique};
use crate::generic::Either;
use crate::header_map::{apply_inserts, lemma_apply_inserts_push, HeaderMap};
use crate::reply::{Body, Reply, Response};
use crate::route::Route;
use crate::text::bytes_eq;
use vstd::string::StringSliceAdditionalSpecFns;
use base64::Engine;
use vstd::utf8::encode_utf8;

verus! {

/// The standard base64 encoding of `data`, with padding.
pub uninterp spec fn base64_standard(data: Seq<u8>) -> Seq<u8>;

/// `base64::engine::general_purpose::STANDARD.encode`; the result is named
/// `base64_standard`.
#[verifier::external_body]
fn base64_encode(data: &[u8]) -> (r: Vec<u8>)
    ensures
        r@ == base64_standard(data@),
{
    base64::engine::general_purpose::STANDARD.encode(data).into_bytes()
}

/// The bytes `user:pass`.
pub open spec fn user_pass(user: &str, pass: &str) -> Seq<u8> {
    user.spec_bytes() + seq![58u8] + pass.spec_bytes()
}

/// The credentials that `allow(user, pass)` accepts: base64 of
/// `user:pass`.
pub open spec fn credential(user: &str, pass: &str) -> Seq<u8> {
    base64_standard(user_pass(user, pass))
}

/// Creates a builder of a wrapping filter that exposes HTTP Basic
/// authentication for a wrapped filter: no realm, no one allowed.
pub fn basic() -> (b: Builder)
    ensures
        b.spec_realm() is None,
        b.spec_authorizations() == Seq::<Seq<u8>>::empty(),
{
    let b = Builder { realm: None, authorizations: Vec::new() };
    assert(b.spec_authorizations() =~= Seq::<Seq<u8>>::empty());
    b
}

/// A builder constructed via `basic()`.
#[derive(Debug)]
pub struct Builder {
    realm: Option<String>,
    authorizations: Vec<Vec<u8>>,
}

impl Builder {
    /// The realm, if one was set.
    pub closed spec fn spec_realm(&self) -> Option<Seq<char>> {
        match self.realm {
            Some(r) => Some(r@),
            None => None,
        }
    }

    /// The accepted credentials (base64 of `user:password`), a set kept in
    /// the order they were added.
    pub closed spec fn spec_authorizations(&self) -> Seq<Seq<u8>> {
        bytes_list(self.authorizations@)
    }

    #[verifier::type_invariant]
    spec fn well_formed(&self) -> bool {
        bytes_list(self.authorizations@).no_duplicates()
    }

    /// Sets the realm.
    pub fn realm(self, realm: String) -> (r: Self)
        ensures
            r.spec_realm() == Some(realm@),
            r.spec_authorizations() == self.spec_authorizations(),
    {
        proof {
            use_type_invariant(&self);
        }
        let Builder { realm: _, authorizations } = self;
        Builder { realm: Some(realm), authorizations }
    }

    /// Adds a user and password to the list of authorized credentials.
    pub fn allow(self, user: &str, pass: &str) -> (r: Self)
        ensures
            r.spec_realm() == self.spec_realm(),
            r.spec_authorizations() == insert_unique(self.spec_authorizations(), credential(user, pass)),
    {
        proof {
            use_type_invariant(&self);
        }
        let mut plain: Vec<u8> = vstd::slice::slice_to_vec(user.as_bytes());
        plain.push(58);
        crate::text::extend_bytes(&mut plain, pass.as_bytes());
        assert(plain@ =~= user_pass(user, pass));
        let encoded = base64_encode(plain.as_slice());
        let Builder { realm, mut authorizations } = self;
        push_unique(&mut authorizations, encoded);
        proof {
            lemma_insert_unique_no_dups(self.spec_authorizations(), credential(user, pass));
        }
        Builder { realm, authorizations }
    }

    /// Builds the `Auth` wrapper from the configured settings. The realm
    /// must be a valid header value once quoted.
    pub fn build(self) -> (a: Auth)
        requires
            self.spec_realm() matches Some(r) ==> valid_header_bytes(r),
        ensures
            a.spec_authenticate() == authenticate_value(self.spec_realm()),
            a.spec_authorizations() == self.spec_authorizations(),
    {
        proof {
            use_type_invariant(&self);
        }
        let Builder { realm, authorizations } = self;
        let authenticate_header = match realm {
            Some(r) => {
                let mut v: Vec<u8> = vstd::slice::slice_to_vec("Basic realm=\"".as_bytes());
                crate::text::extend_bytes(&mut v, r.as_str().as_bytes());
                crate::text::extend_bytes(&mut v, "\", charset=\"UTF-8\"".as_bytes());
                v
            },
            None => vstd::slice::slice_to_vec("Basic charset=\"UTF-8\"".as_bytes()),
        };
        Auth { authenticate_header, authorizations }
    }

    /// Wraps the filter `inner`, building the wrapper first.
    pub fn wrap<F>(self, inner: F) -> (f: AuthFilter<F>)
        requires
            self.spec_realm() matches Some(r) ==> valid_header_bytes(r),
        ensures
            f.spec_authenticate() == authenticate_value(self.spec_realm()),
            f.spec_authorizations() == self.spec_authorizations(),
            f.spec_inner() == inner,
    {
        self.build().wrap(inner)
    }
}

/// Whether the characters of `r` may stand in a header value: no control
/// character but the tab.
pub open spec fn valid_header_bytes(r: Seq<char>) -> bool {
    forall|i: int| 0 <= i < r.len() ==> ((r[i] as u32) >= 32 && (r[i] as u32) != 127) || r[i] == '\t'
}

/// The `www-authenticate` value that an unauthorized request is answered
/// with: `Basic realm="<realm>", charset="UTF-8"`, or
/// `Basic charset="UTF-8"` without a realm.
pub open spec fn authenticate_value(realm: Option<Seq<char>>) -> Seq<u8> {
    match realm {
        Some(r) => encode_utf8("Basic realm=\""@) + encode_utf8(r) + encode_utf8(
            "\", charset=\"UTF-8\""@,
        ),
        None => encode_utf8("Basic charset=\"UTF-8\""@),
    }
}

/// A wrapping filter constructed via `Builder::build`.
#[derive(Debug)]
pub struct Auth {
    authenticate_header: Vec<u8>,
    authorizations: Vec<Vec<u8>>,
}

impl Auth {
    pub closed spec fn spec_authenticate(&self) -> Seq<u8> {
        self.authenticate_header@
    }

    pub closed spec fn spec_authorizations(&self) -> Seq<Seq<u8>> {
        bytes_list(self.authorizations@)
    }

    /// Whether the request's first `authorization` field is `Basic `
    /// followed by accepted credentials.
    pub open spec fn spec_is_authorized(&self, headers: HeaderMap) -> bool {
        match headers.spec_get("authorization"@) {
            Some(v) => v.len() >= 6 && v.subrange(0, 6) == basic_prefix() && self.spec_authorizations().contains(
                v.subrange(6, v.len() as int),
            ),
            None => false,
        }
    }

    /// Whether the request with header fields `headers` is authorized.
    pub fn is_authorized(&self, headers: &HeaderMap) -> (r: bool)
        ensures
            r == self.spec_is_authorized(*headers),
    {
        let header = match headers.get("authorization") {
            Some(v) => v,
            None => return false,
        };
        let (prefix, rest) = match split_at(header.as_slice(), 6) {
            Some(parts) => parts,
            None => return false,
        };
        if !bytes_eq(prefix, &[66u8, 97, 115, 105, 99, 32]) {
            assert(basic_prefix() =~= seq![66u8, 97, 115, 105, 99, 32]);
            return false;
        }
        assert(prefix@ =~= basic_prefix());
        let mut i: usize = 0;
        while i < self.authorizations.len()
            invariant
                i <= self.authorizations@.len(),
                forall|j: int| 0 <= j < i ==> self.authorizations@[j]@ != rest@,
                headers.spec_get("authorization"@) == Some(header@),
                header@.len() >= 6,
                header@.subrange(0, 6) == basic_prefix(),
                header@.subrange(6, header@.len() as int) == rest@,
            decreases self.authorizations@.len() - i,
        {
            if bytes_eq(self.authorizations[i].as_slice(), rest) {
                assert(self.spec_authorizations()[i as int] == rest@);
                assert(self.spec_authorizations().contains(rest@));
                assert(header@.subrange(6, header@.len() as int) == rest@);
                assert(header@.subrange(0, 6) == basic_prefix());
                assert(headers.spec_get("authorization"@) == Some(header@));
                return true;
            }
            i = i + 1;
        }
        assert(!self.spec_authorizations().contains(rest@)) by {
            if self.spec_authorizations().contains(rest@) {
                let k = choose|k: int| 0 <= k < self.spec_authorizations().len() && self.spec_authorizations()[k] == rest@;
                assert(self.authorizations@[k]@ == rest@);
            }
        }
        false
    }

    /// Wraps the filter `inner`.
    pub fn wrap<F>(&self, inner: F) -> (f: AuthFilter<F>)
        ensures
            f.spec_authenticate() == self.spec_authenticate(),
            f.spec_authorizations() == self.spec_authorizations(),
            f.spec_inner() == inner,
    {
        AuthFilter {
            config: Auth {
                authenticate_header: self.authenticate_header.clone(),
                authorizations: clone_list(&self.authorizations),
            },
            inner,
        }
    }
}

/// The bytes `Basic `.
pub open spec fn basic_prefix() -> Seq<u8> {
    seq![66u8, 97, 115, 105, 99, 32]
}

/// `bytes` split at `mid`, if `mid` is within it.
pub fn split_at(bytes: &[u8], mid: usize) -> (r: Option<(&[u8], &[u8])>)
    ensures
        mid <= bytes@.len() ==> (r matches Some(p) && p.0@ == bytes@.subrange(0, mid as int)
            && p.1@ == bytes@.subrange(mid as int, bytes@.len() as int)),
        mid > bytes@.len() ==> r is None,
{
    if mid <= bytes.len() {
        Some((&bytes[0..mid], &bytes[mid..bytes.len()]))
    } else {
        None
    }
}

/// A filter wrapped with Basic authentication.
#[derive(Debug)]
pub struct AuthFilter<F> {
    config: Auth,
    inner: F,
}

/// The answer to a request without accepted credentials.
#[derive(Debug)]
pub struct Unauthorized {
    authenticate_header: Vec<u8>,
}

impl Unauthorized {
    pub closed spec fn spec_authenticate(&self) -> Seq<u8> {
        self.authenticate_header@
    }
}

impl Reply for Unauthorized {
    /// `401 Unauthorized`.
    open spec fn reply_status(&self) -> u16 {
        401
    }

    /// The `www-authenticate` field.
    open spec fn reply_headers(&self) -> Seq<(Seq<char>, Seq<u8>)> {
        apply_inserts(Seq::empty(), seq![("www-authenticate"@, self.spec_authenticate())])
    }

    open spec fn reply_body(&self) -> Body {
        Body::Empty
    }

    fn into_response(self) -> (r: Response) {
        let mut res = Response::new_empty();
        res.status = 401;
        res.headers.insert("www-authenticate", self.authenticate_header.as_slice());
        proof {
            lemma_apply_inserts_push(Seq::empty(), Seq::empty(), ("www-authenticate"@, self.spec_authenticate()));
            assert(Seq::<(Seq<char>, Seq<u8>)>::empty().push(("www-authenticate"@, self.spec_authenticate())) =~= seq![("www-authenticate"@, self.spec_authenticate())]);
        }
        res
    }
}

impl<F> AuthFilter<F> {
    /// The wrapper's settings.
    pub closed spec fn spec_config(&self) -> Auth {
        self.config
    }

    pub closed spec fn spec_authenticate(&self) -> Seq<u8> {
        self.config.spec_authenticate()
    }

    pub closed spec fn spec_authorizations(&self) -> Seq<Seq<u8>> {
        self.config.spec_authorizations()
    }

    pub closed spec fn spec_inner(&self) -> F {
        self.inner
    }

    /// The wrapped filter.
    pub fn inner(&self) -> (r: &F)
        ensures
            *r == self.spec_inner(),
    {
        &self.inner
    }

    /// Decides what to do with the request of `route`: run the wrapped
    /// filter (`B`) when the request is authorized, else answer it with
    /// `Unauthorized` (`A`).
    pub fn filter(&self, route: &Route) -> (d: Either<Unauthorized, ()>)
        ensures
            self.spec_config().spec_is_authorized(route.spec_headers()) ==> d is B,
            !self.spec_config().spec_is_authorized(route.spec_headers()) ==> (d matches Either::A(u)
                && u.spec_authenticate() == self.spec_authenticate()),
    {
        if self.config.is_authorized(route.headers()) {
            Either::B(())
        } else {
            Either::A(Unauthorized { authenticate_header: self.config.authenticate_header.clone() })
        }
    }
}

// ===== Laws =====

/// After `allow(user, pass)`, a request whose `authorization` field is
/// `Basic ` followed by base64 of `user:pass` is authorized.
pub proof fn lemma_allowed_user_is_authorized(a: Auth, headers: HeaderMap, user: &str, pass: &str)
    requires
        a.spec_authorizations().contains(credential(user, pass)),
        headers.spec_get("authorization"@) == Some(basic_prefix() + credential(user, pass)),
    ensures
        a.spec_is_authorized(headers),
{
    let v = basic_prefix() + credential(user, pass);
    assert(v.subrange(0, 6) =~= basic_prefix());
    assert(v.subrange(6, v.len() as int) =~= credential(user, pass));
}

/// Only accepted credentials pass: a request is authorized exactly when its
/// `authorization` field is `Basic ` followed by one of the credentials
/// that were allowed.
pub proof fn lemma_authorized_iff_allowed(a: Auth, headers: HeaderMap)
    ensures
        a.spec_is_authorized(headers) <==> exists|i: int|
            0 <= i < a.spec_authorizations().len() && headers.spec_get("authorization"@) == Some(
                basic_prefix() + #[trigger] a.spec_authorizations()[i],
            ),
{
    if a.spec_is_authorized(headers) {
        let v = headers.spec_get("authorization"@)->0;
        let rest = v.subrange(6, v.len() as int);
        let i = choose|i: int| 0 <= i < a.spec_authorizations().len() && a.spec_authorizations()[i] == rest;
        assert(v =~= basic_prefix() + a.spec_authorizations()[i]);
    }
    if exists|i: int| 0 <= i < a.spec_authorizations().len() && headers.spec_get("authorization"@) == Some(
        basic_prefix() + #[trigger] a.spec_authorizations()[i],
    ) {
        let i = choose|i: int| 0 <= i < a.spec_authorizations().len() && headers.spec_get("authorization"@) == Some(
            basic_prefix() + #[trigger] a.spec_authorizations()[i],
        );
        let v = basic_prefix() + a.spec_authorizations()[i];
        assert(v.subrange(0, 6) =~= basic_prefix());
        assert(v.subrange(6, v.len() as int) =~= a.spec_authorizations()[i]);
    }
}

/// Over a whole chain `basic().allow(u1, p1)…allow(un, pn).build()`, whose
/// accepted credentials are `creds` (the credentials of the allowed pairs,
/// in turn) added one by one: a request is authorized exactly when its
/// `authorization` field is `Basic ` followed by one of them.
pub proof fn lemma_chain_authorized(a: Auth, creds: Seq<Seq<u8>>, headers: HeaderMap)
    requires
        a.spec_authorizations() == insert_all(Seq::empty(), creds),
    ensures
        a.spec_is_authorized(headers) <==> exists|i: int|
            0 <= i < creds.len() && headers.spec_get("authorization"@) == Some(basic_prefix() + #[trigger] creds[i]),
{
    lemma_authorized_iff_allowed(a, headers);
    let auths = a.spec_authorizations();
    if a.spec_is_authorized(headers) {
        let i = choose|i: int| 0 <= i < auths.len() && headers.spec_get("authorization"@) == Some(
            basic_prefix() + #[trigger] auths[i],
        );
        lemma_insert_all_contains(Seq::empty(), creds, auths[i]);
        assert(auths.contains(auths[i]));
        let j = choose|j: int| 0 <= j < creds.len() && creds[j] == auths[i];
        assert(headers.spec_get("authorization"@) == Some(basic_prefix() + creds[j]));
    }
    if exists|i: int| 0 <= i < creds.len() && headers.spec_get("authorization"@) == Some(basic_prefix() + #[trigger] creds[i]) {
        let i = choose|i: int| 0 <= i < creds.len() && headers.spec_get("authorization"@) == Some(
            basic_prefix() + #[trigger] creds[i],
        );
        assert(creds.contains(creds[i]));
        lemma_insert_all_contains(Seq::empty(), creds, creds[i]);
        let j = choose|j: int| 0 <= j < auths.len() && auths[j] == creds[i];
        assert(headers.spec_get("authorization"@) == Some(basic_prefix() + auths[j]));
    }
}

/// Allowing one more pair extends the chain: after the credentials `creds`
/// were added in turn, `allow` adds the new credential `c` last.
pub proof fn lemma_allow_extends_chain(creds: Seq<Seq<u8>>, c: Seq<u8>)
    ensures
        insert_all(Seq::<Seq<u8>>::empty(), Seq::<Seq<u8>>::empty()) == Seq::<Seq<u8>>::empty(),
        insert_unique(insert_all(Seq::empty(), creds), c) == insert_all(Seq::empty(), creds.push(c)),
{
    assert(creds.push(c).drop_last() =~= creds);
}

/// `allow(user, pass)` lets in the request that presents exactly that user
/// and password: once the credentials of a builder are those of `b` with
/// `allow(user, pass)` applied, a request whose `authorization` field is
/// `Basic ` followed by the base64 of the bytes of `user`, `:` and the
/// bytes of `pass`, as given, is authorized.
pub proof fn lemma_allowed_pair_logs_in(b: Builder, user: &str, pass: &str, a: Auth, headers: HeaderMap)
    requires
        a.spec_authorizations() == insert_unique(b.spec_authorizations(), credential(user, pass)),
        headers.spec_get("authorization"@) == Some(
            seq![66u8, 97, 115, 105, 99, 32] + base64_standard(user.spec_bytes() + seq![58u8] + pass.spec_bytes()),
        ),
    ensures
        a.spec_is_authorized(headers),
{
    let cred = base64_standard(user.spec_bytes() + seq![58u8] + pass.spec_bytes());
    let s = b.spec_authorizations();
    if !s.contains(credential(user, pass)) {
        assert(s.push(credential(user, pass))[s.len() as int] == credential(user, pass));
    }
    assert(a.spec_authorizations().contains(cred));
    assert(basic_prefix() == seq![66u8, 97, 115, 105, 99, 32]);
    lemma_allowed_user_is_authorized(a, headers, user, pass);
}

/// A request without an `authorization` field is never authorized.
pub proof fn lemma_no_header_unauthorized(a: Auth, headers: HeaderMap)
    requires
        headers.spec_get("authorization"@) is None,
    ensures
        !a.spec_is_authorized(headers),
{
}

impl<F> crate::filter::wrap::Wrap<F> for Auth {
    type Wrapped = AuthFilter<F>;

    open spec fn wraps(&self, filter: F, w: AuthFilter<F>) -> bool {
        &&& w.spec_authenticate() == self.spec_authenticate()
        &&& w.spec_authorizations() == self.spec_authorizations()
        &&& w.spec_inner() == filter
    }

    fn wrap(&self, filter: F) -> (w: AuthFilter<F>) {
        Auth::wrap(self, filter)
    }
}

} // verus!
