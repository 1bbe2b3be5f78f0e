//! Logger Filters
//!
//! A wrapping filter that logs each request it handled: its request line
//! and the status of its response.
use vstd::prelude::*;
use crate::filter::Polled;
use crate::reject::{spec_status, Rejection};
use crate::reply::{Body, Reply, Response};
use crate::request::Version;
use crate::route::Route;
use crate::text::{decimal, u64_to_decimal};

verus! {

/// Creates a wrapping filter that logs requests to the target `name`.
pub fn log(name: &str) -> (l: Log)
    ensures
        l.spec_name() == name@,
{
    Log { name: name.to_owned() }
}

/// A wrapping filter that logs requests.
#[derive(Clone, Debug)]
pub struct Log {
    name: String,
}

impl Log {
    pub closed spec fn spec_name(&self) -> Seq<char> {
        self.name@
    }

    /// The log target.
    pub fn name(&self) -> (n: &str)
        ensures
            n@ == self.spec_name(),
    {
        self.name.as_str()
    }

    /// Wraps the filter `filter`.
    pub fn wrap<F>(&self, filter: F) -> (w: WithLog<F>)
        ensures
            w.spec_filter() == filter,
            w.spec_name() == self.spec_name(),
    {
        WithLog { filter, log: Log { name: self.name.clone() } }
    }
}

/// A reply that was logged.
pub struct Logged(pub Response);

impl Reply for Logged {
    open spec fn reply_status(&self) -> u16 {
        self.0.status
    }

    open spec fn reply_headers(&self) -> Seq<(Seq<char>, Seq<u8>)> {
        self.0.headers.view()
    }

    open spec fn reply_body(&self) -> Body {
        self.0.body
    }

    fn into_response(self) -> (r: Response) {
        self.0
    }
}

/// A filter whose requests are logged.
pub struct WithLog<F> {
    filter: F,
    log: Log,
}

impl<F> WithLog<F> {
    pub closed spec fn spec_filter(&self) -> F {
        self.filter
    }

    pub closed spec fn spec_name(&self) -> Seq<char> {
        self.log.spec_name()
    }

    /// The wrapped filter.
    pub fn inner(&self) -> (r: &F)
        ensures
            *r == self.spec_filter(),
    {
        &self.filter
    }

    /// Starts filtering a request with the wrapped filter.
    pub fn filter(&self) -> (f: WithLogFuture)
        ensures
            f.spec_name() == self.spec_name(),
    {
        WithLogFuture { log: Log { name: self.log.name.clone() } }
    }
}

/// The future of a `WithLog` filter.
pub struct WithLogFuture {
    log: Log,
}

impl WithLogFuture {
    pub closed spec fn spec_name(&self) -> Seq<char> {
        self.log.spec_name()
    }

    /// What the filter gives once the wrapped filter's future gave
    /// `polled`, and the status to log: the status of the reply, or that
    /// of the rejection; nothing while pending.
    pub fn poll<R: Reply>(&self, polled: Polled<Result<R, Rejection>>) -> (r: (Polled<Result<(Logged,), Rejection>>, Option<u16>))
        ensures
            match polled {
                Polled::Pending => r.0 is Pending && r.1 is None,
                Polled::Ready(Ok(reply)) => r.0 matches Polled::Ready(Ok(l)) && l.0.0.status
                    == reply.reply_status() && l.0.0.headers.view() == reply.reply_headers()
                    && l.0.0.body == reply.reply_body() && r.1 == Some(reply.reply_status()),
                Polled::Ready(Err(e)) => r.1 == Some(spec_status(&e)) && r.0 == Polled::<
                    Result<(Logged,), Rejection>,
                >::Ready(Err(e)),
            },
    {
        match polled {
            Polled::Pending => (Polled::Pending, None),
            Polled::Ready(Ok(reply)) => {
                let resp = reply.into_response();
                let status = resp.status;
                (Polled::Ready(Ok((Logged(resp),))), Some(status))
            },
            Polled::Ready(Err(e)) => {
                let status = e.status();
                (Polled::Ready(Err(e)), Some(status))
            },
        }
    }
}

/// How `http::Version` shows itself: `HTTP/1.1` and so on.
pub open spec fn version_text(v: Version) -> Seq<char> {
    match v {
        Version::Http09 => "HTTP/0.9"@,
        Version::Http10 => "HTTP/1.0"@,
        Version::Http11 => "HTTP/1.1"@,
        Version::Http2 => "HTTP/2.0"@,
        Version::Http3 => "HTTP/3.0"@,
    }
}

/// How `http::Version` shows itself.
pub fn version_str(v: Version) -> (s: &'static str)
    ensures
        s@ == version_text(v),
{
    match v {
        Version::Http09 => "HTTP/0.9",
        Version::Http10 => "HTTP/1.0",
        Version::Http11 => "HTTP/1.1",
        Version::Http2 => "HTTP/2.0",
        Version::Http3 => "HTTP/3.0",
    }
}

/// The characters of the bytes `b`, each read as one character.
pub open spec fn byte_chars(b: Seq<u8>) -> Seq<char> {
    b.map_values(|x: u8| x as char)
}

/// The characters of the bytes `b`, each read as one character.
pub fn byte_string(b: &[u8]) -> (s: String)
    ensures
        s@ == byte_chars(b@),
{
    let mut s = String::new();
    let mut i: usize = 0;
    while i < b.len()
        invariant
            i <= b@.len(),
            s@ == byte_chars(b@.subrange(0, i as int)),
        decreases b@.len() - i,
    {
        let c = b[i] as char;
        crate::text::push_char(&mut s, c);
        assert(byte_chars(b@.subrange(0, i + 1)) =~= byte_chars(b@.subrange(0, i as int)).push(c));
        i = i + 1;
    }
    assert(b@.subrange(0, b@.len() as int) =~= b@);
    s
}

/// The line logged for a request with method `method`, path `path` and
/// version `version` answered with `status`: `"GET /path HTTP/1.1" 200`
/// (the time the request took is added where the line is written).
pub open spec fn log_line(method: Seq<u8>, path: Seq<char>, version: Version, status: u16) -> Seq<char> {
    "\""@ + byte_chars(method) + " "@ + path + " "@ + version_text(version) + "\" "@ + byte_chars(
        decimal(status as nat),
    )
}

/// The line logged for the request of `route` answered with `status`.
pub fn request_log_line(route: &Route, status: u16) -> (s: String)
    ensures
        s@ == log_line(route.spec_method(), route.spec_full_path(), route.spec_version(), status),
{
    let mut s = "\"".to_owned();
    s.append(byte_string(route.method().as_bytes()).as_str());
    s.append(" ");
    s.append(route.full_path());
    s.append(" ");
    s.append(version_str(route.version()));
    s.append("\" ");
    s.append(byte_string(u64_to_decimal(status as u64).as_slice()).as_str());
    s
}

impl<F> crate::filter::wrap::Wrap<F> for Log {
    type Wrapped = WithLog<F>;

    open spec fn wraps(&self, filter: F, w: WithLog<F>) -> bool {
        w.spec_filter() == filter && w.spec_name() == self.spec_name()
    }

    fn wrap(&self, filter: F) -> (w: WithLog<F>) {
        Log::wrap(self, filter)
    }
}

} // verus!
