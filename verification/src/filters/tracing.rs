//! Tracing Filters
//!
//! A wrapping filter that opens a span for each request and reports how
//! the request ended: its status, and how grave that status is.
use vstd::prelude::*;
use crate::filters::route::{header_str, header_text};
use crate::reject::{spec_status, Rejection};
use crate::reply::{Body, Reply, Response};
use crate::request::{Method, Version};
use crate::route::Route;

verus! {

/// Creates a wrapping filter that instruments requests with a span that
/// describes the request.
pub fn tracing() -> (t: Trace) {
    Trace
}

/// A wrapping filter that instruments requests.
#[derive(Clone, Copy, Debug)]
pub struct Trace;

impl Trace {
    /// Wraps the filter `filter`.
    pub fn wrap<F>(&self, filter: F) -> (w: WithTrace<F>)
        ensures
            w.spec_filter() == filter,
    {
        WithTrace { filter, trace: *self }
    }
}

/// What a span is told about a request.
pub struct Info<'a> {
    route: &'a Route,
}

impl<'a> Info<'a> {
    /// The information about the request of `route`.
    pub fn new(route: &'a Route) -> (i: Info<'a>)
        ensures
            *i.spec_route() == *route,
    {
        Info { route }
    }

    pub closed spec fn spec_route(&self) -> &'a Route {
        self.route
    }

    /// The address of the peer, if known.
    pub fn remote_addr(&self) -> (r: Option<&str>)
        ensures
            match self.spec_route().spec_remote_addr() {
                Some(a) => r matches Some(s) && s@ == a,
                None => r is None,
            },
    {
        self.route.remote_addr()
    }

    /// The request's method.
    pub fn method(&self) -> (m: &Method)
        ensures
            m.view() == self.spec_route().spec_method(),
    {
        self.route.method()
    }

    /// The request's full path.
    pub fn path(&self) -> (p: &str)
        ensures
            p@ == self.spec_route().spec_full_path(),
    {
        self.route.full_path()
    }

    /// The request's HTTP version.
    pub fn version(&self) -> (v: Version)
        ensures
            v == self.spec_route().spec_version(),
    {
        self.route.version()
    }

    /// The `referer` header, if present and visible ASCII.
    pub fn referer(&self) -> (r: Option<String>)
        ensures
            match header_text(self.spec_route().spec_headers(), "referer"@) {
                Some(t) => r matches Some(s) && s@ == t,
                None => r is None,
            },
    {
        header_str(self.route.headers(), "referer")
    }

    /// The `user-agent` header, if present and visible ASCII.
    pub fn user_agent(&self) -> (r: Option<String>)
        ensures
            match header_text(self.spec_route().spec_headers(), "user-agent"@) {
                Some(t) => r matches Some(s) && s@ == t,
                None => r is None,
            },
    {
        header_str(self.route.headers(), "user-agent")
    }

    /// The `host` header, if present and visible ASCII.
    pub fn host(&self) -> (r: Option<String>)
        ensures
            match header_text(self.spec_route().spec_headers(), "host"@) {
                Some(t) => r matches Some(s) && s@ == t,
                None => r is None,
            },
    {
        header_str(self.route.headers(), "host")
    }
}

/// How an optional field is shown in a span: its text, or `-`.
pub fn opt_fmt(v: Option<String>) -> (s: String)
    ensures
        match v {
            Some(t) => s@ == t@,
            None => s@ == "-"@,
        },
{
    match v {
        Some(t) => t,
        None => "-".to_owned(),
    }
}

/// A reply that was traced.
pub struct Traced(pub Response);

impl Reply for Traced {
    open spec fn reply_status(&self) -> u16 {
        self.0.status
    }

    open spec fn reply_headers(&self) -> Seq<(Seq<char>, Seq<u8>)> {
        self.0.headers.view()
    }

    open spec fn reply_body(&self) -> Body {
        self.0.body
    }

    fn into_response(self) -> (r: Response) {
        self.0
    }
}

/// A filter whose requests are traced.
pub struct WithTrace<F> {
    filter: F,
    trace: Trace,
}

impl<F> WithTrace<F> {
    pub closed spec fn spec_filter(&self) -> F {
        self.filter
    }

    /// The wrapped filter.
    pub fn inner(&self) -> (r: &F)
        ensures
            *r == self.spec_filter(),
    {
        &self.filter
    }
}

/// The reply of the wrapped filter, as the traced filter extracts it.
pub fn convert_reply<R: Reply>(reply: R) -> (t: (Traced,))
    ensures
        t.0.0.status == reply.reply_status(),
        t.0.0.headers.view() == reply.reply_headers(),
        t.0.0.body == reply.reply_body(),
{
    (Traced(reply.into_response()),)
}

/// How grave the end of a request is.
#[derive(Clone, Copy, Debug, PartialEq, Eq, Structural)]
pub enum Level {
    Info,
    Warn,
    Error,
}

/// How the end of a request is reported: the level and the status, and
/// whether it succeeded: a reply is `Info`; a rejection with a server
/// error status (5xx) is `Error`, one with a client error status (4xx) is
/// `Warn`, any other `Info`.
pub open spec fn spec_finished(r: &Result<(Traced,), Rejection>) -> (Level, u16) {
    match r {
        Ok(t) => (Level::Info, t.0.0.status),
        Err(e) => {
            let s = spec_status(e);
            if 500 <= s && s < 600 {
                (Level::Error, s)
            } else if 400 <= s && s < 500 {
                (Level::Warn, s)
            } else {
                (Level::Info, s)
            }
        },
    }
}

/// How the end of a request is reported.
pub fn finished_logger(r: &Result<(Traced,), Rejection>) -> (l: (Level, u16))
    ensures
        l == spec_finished(r),
{
    match r {
        Ok(t) => (Level::Info, t.0.0.status),
        Err(e) => {
            let s = e.status();
            if 500 <= s && s < 600 {
                (Level::Error, s)
            } else if 400 <= s && s < 500 {
                (Level::Warn, s)
            } else {
                (Level::Info, s)
            }
        },
    }
}

impl<F> crate::filter::wrap::Wrap<F> for Trace {
    type Wrapped = WithTrace<F>;

    open spec fn wraps(&self, filter: F, w: WithTrace<F>) -> bool {
        w.spec_filter() == filter
    }

    fn wrap(&self, filter: F) -> (w: WithTrace<F>) {
        Trace::wrap(self, filter)
    }
}

} // verus!
