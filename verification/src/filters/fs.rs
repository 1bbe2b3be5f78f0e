//! File System Filters: the decisions behind serving a file — which
//! conditional headers pass, which byte range is sent, which headers the
//! response carries, and which paths under a base directory may be served.
use vstd::prelude::*;
use bytes::BytesMut;
use std::ops::Bound as StdBound;
use headers::Header;
use crate::entity::{EntityTag, EntityTagRange, IfRange, decode_http_date, encode_http_date, HTTP_DATE_END, no_dquote, parse_etag,
    http_date_text, range_meaning, if_range_meaning, http_date_seconds, strong_match, weak_match};
use crate::header_map::{HeaderMap, apply_inserts, first_value};
use crate::reject::{self, Known, Rejection};
use crate::reply::{Body, Response};
use crate::route::Route;
use crate::text::{lower_chars, decimal, u64_to_decimal, extend_bytes, contains_char};

verus! {

// ===== Config =====

/// Configuration for a file or dir filter.
#[derive(Clone, Debug)]
pub struct Config {
    /// Set a specific read buffer size (default auto detect)
    pub read_buffer_size: Option<usize>,
    /// Set a specific content-type (default auto detect)
    pub content_type: Option<String>,
    /// include the LastModified header in the response
    pub last_modified: bool,
    /// Include the Etag header in the response
    pub etag: bool,
    /// extra headers to add
    pub headers: HeaderMap,
}

impl Config {
    /// Override the content_type
    pub fn content_type(self, content_type: Option<String>) -> (r: Self)
        ensures
            r.content_type == content_type,
            r.read_buffer_size == self.read_buffer_size,
            r.last_modified == self.last_modified,
            r.etag == self.etag,
            r.headers == self.headers,
    {
        Config { content_type, ..self }
    }

    /// Override the last_modified exposure
    pub fn last_modified(self, last_modified: bool) -> (r: Self)
        ensures
            r.last_modified == last_modified,
            r.read_buffer_size == self.read_buffer_size,
            r.content_type == self.content_type,
            r.etag == self.etag,
            r.headers == self.headers,
    {
        Config { last_modified, ..self }
    }

    /// Override the etag exposure
    pub fn etag(self, etag: bool) -> (r: Self)
        ensures
            r.etag == etag,
            r.read_buffer_size == self.read_buffer_size,
            r.content_type == self.content_type,
            r.last_modified == self.last_modified,
            r.headers == self.headers,
    {
        Config { etag, ..self }
    }

    /// Add additional headers
    pub fn add_header(self, key: &str, value: &[u8]) -> (r: Self)
        ensures
            r.headers.view() == crate::header_map::without_name(self.headers.view(), lower_chars(key@))
                .push((lower_chars(key@), value@)),
            r.read_buffer_size == self.read_buffer_size,
            r.content_type == self.content_type,
            r.last_modified == self.last_modified,
            r.etag == self.etag,
    {
        let mut c = self;
        c.headers.insert(key, value);
        c
    }
}

impl Default for Config {
    fn default() -> (r: Self)
        ensures
            r.read_buffer_size is None,
            r.content_type is None,
            r.last_modified,
            !r.etag,
            r.headers.view() == Seq::<(Seq<char>, Seq<u8>)>::empty(),
    {
        Config {
            read_buffer_size: None,
            content_type: None,
            last_modified: true,
            etag: false,
            headers: HeaderMap::new(),
        }
    }
}

/// The default configuration: no fixed buffer size or content type,
/// `last-modified` on, `etag` off, no extra headers.
pub open spec fn is_default_config(c: Config) -> bool {
    &&& c.read_buffer_size is None
    &&& c.content_type is None
    &&& c.last_modified
    &&& !c.etag
    &&& c.headers.view() == Seq::<(Seq<char>, Seq<u8>)>::empty()
}

/// Creates a new configuration for a filter that serves a file or a
/// directory of static assets: no fixed buffer size or content type,
/// `last-modified` on, `etag` off, no extra headers.
pub fn config() -> (r: Config)
    ensures
        is_default_config(r),
{
    Config::default()
}

// ===== Paths =====

/// The text that percent-decoding `s` gives, if that text is UTF-8.
pub uninterp spec fn percent_decoded(s: Seq<char>) -> Option<Seq<char>>;

/// Percent-decodes `s` with `percent_encoding::percent_decode_str` and
/// reads the bytes as UTF-8 (`decode_utf8`). The contract claims only that
/// the outcome is a function of `s`.
#[verifier::external_body]
fn percent_decode_utf8(s: &str) -> (r: Option<String>)
    ensures
        r matches Some(t) ==> percent_decoded(s@) == Some(t@),
        r is None ==> percent_decoded(s@) is None,
{
    match percent_encoding::percent_decode_str(s).decode_utf8() {
        Ok(c) => Some(c.into_owned()),
        Err(_) => None,
    }
}

/// The segments of `s` between `/` characters (as `str::split('/')`).
pub open spec fn split_segments(s: Seq<char>, from: int, start: int) -> Seq<Seq<char>>
    decreases s.len() - from,
{
    if from >= s.len() {
        seq![s.subrange(start, s.len() as int)]
    } else if s[from] == '/' {
        seq![s.subrange(start, from)] + split_segments(s, from + 1, from + 1)
    } else {
        split_segments(s, from + 1, start)
    }
}

/// Whether a path segment may not be served: it starts with `..` or holds
/// a backslash.
pub open spec fn unsafe_segment(seg: Seq<char>) -> bool {
    (seg.len() >= 2 && seg[0] == '.' && seg[1] == '.') || seg.contains('\\')
}

/// `buf` with `seg` pushed as a further path component (`PathBuf::push`
/// on Unix for a relative component): a `/` goes between them unless `buf`
/// is empty or already ends with one.
pub open spec fn push_component(buf: Seq<char>, seg: Seq<char>) -> Seq<char> {
    if buf.len() == 0 || buf[buf.len() - 1] == '/' {
        buf + seg
    } else {
        buf.push('/') + seg
    }
}

/// `base` with every segment of `segs` pushed in turn.
pub open spec fn push_all(base: Seq<char>, segs: Seq<Seq<char>>) -> Seq<char>
    decreases segs.len(),
{
    if segs.len() == 0 {
        base
    } else {
        push_component(push_all(base, segs.drop_last()), segs.last())
    }
}

/// The file that a request tail names under `base`: the tail is
/// percent-decoded, and refused if any of its segments starts with `..` or
/// holds a backslash; else its segments are joined onto `base`.
pub open spec fn sanitized(base: Seq<char>, tail: Seq<char>) -> Option<Seq<char>> {
    match percent_decoded(tail) {
        None => None,
        Some(p) => {
            let segs = split_segments(p, 0, 0);
            if exists|i: int| 0 <= i < segs.len() && unsafe_segment(#[trigger] segs[i]) {
                None
            } else {
                Some(push_all(base, segs))
            }
        },
    }
}

/// Pushing components onto a path keeps the path as its prefix.
proof fn lemma_push_all_prefix(base: Seq<char>, segs: Seq<Seq<char>>)
    ensures
        push_all(base, segs).len() >= base.len(),
        push_all(base, segs).subrange(0, base.len() as int) == base,
    decreases segs.len(),
{
    if segs.len() > 0 {
        lemma_push_all_prefix(base, segs.drop_last());
        let b = push_all(base, segs.drop_last());
        let p = push_component(b, segs.last());
        assert(p.subrange(0, b.len() as int) =~= b);
        assert(p.subrange(0, base.len() as int) =~= b.subrange(0, base.len() as int));
    }
}

/// A directory is never left: the file served for any request tail lies
/// under the directory's path, and no segment of the decoded tail leads
/// up (`..`) or holds a backslash.
pub proof fn lemma_sanitized_under_base(base: Seq<char>, tail: Seq<char>)
    ensures
        sanitized(base, tail) matches Some(p) ==> p.len() >= base.len() && p.subrange(0, base.len() as int)
            == base,
        sanitized(base, tail) is Some ==> (percent_decoded(tail) matches Some(d) && forall|i: int|
            0 <= i < split_segments(d, 0, 0).len() ==> !unsafe_segment(#[trigger] split_segments(d, 0, 0)[i])),
{
    if let Some(d) = percent_decoded(tail) {
        lemma_push_all_prefix(base, split_segments(d, 0, 0));
    }
}

fn push_component_exec(buf: &mut String, seg: &str)
    ensures
        final(buf)@ == push_component(old(buf)@, seg@),
{
    let n = buf.unicode_len();
    if n > 0 && buf.as_str().get_char(n - 1) != '/' {
        crate::text::push_char(buf, '/');
    }
    buf.append(seg);
}

/// Joins a request tail onto the `base` directory (see `sanitized`),
/// rejecting with `404` a tail that does not decode or that would leave
/// the directory. Segments holding `:` are not refused: that check applies
/// to Windows paths only.
pub fn sanitize_path(base: &str, tail: &str) -> (r: Result<String, Rejection>)
    ensures
        r matches Ok(p) ==> sanitized(base@, tail@) == Some(p@),
        r matches Err(e) ==> sanitized(base@, tail@) is None && e is NotFound,
{
    let p = match percent_decode_utf8(tail) {
        Some(p) => p,
        None => return Err(reject::not_found()),
    };
    let ghost segs = split_segments(p@, 0, 0);
    let mut buf = base.to_owned();
    let len = p.unicode_len();
    let mut start: usize = 0;
    let mut i: usize = 0;
    let ghost done: Seq<Seq<char>> = Seq::empty();
    loop
        invariant
            len == p@.len(),
            percent_decoded(tail@) == Some(p@),
            segs == split_segments(p@, 0, 0),
            start <= i <= len,
            done + split_segments(p@, i as int, start as int) == segs,
            forall|k: int| 0 <= k < done.len() ==> !unsafe_segment(#[trigger] done[k]),
            buf@ == push_all(base@, done),
        decreases len - i,
    {
        if i == len || p.as_str().get_char(i) == '/' {
            let seg = p.as_str().substring_char(start, i);
            proof {
                if i == len {
                    assert(split_segments(p@, i as int, start as int) == seq![seg@]);
                } else {
                    assert(split_segments(p@, i as int, start as int) == seq![seg@]
                        + split_segments(p@, i + 1, i + 1));
                }
            }
            let dots = seg.unicode_len() >= 2 && seg.get_char(0) == '.' && seg.get_char(1) == '.';
            if dots || contains_char(seg, '\\') {
                proof {
                    let k = done.len() as int;
                    assert(segs[k] == seg@);
                    assert(unsafe_segment(segs[k]));
                }
                return Err(reject::not_found());
            }
            push_component_exec(&mut buf, seg);
            proof {
                let nd = done.push(seg@);
                assert(nd.drop_last() =~= done);
                if i < len {
                    assert(done + split_segments(p@, i as int, start as int) =~= nd + split_segments(p@, i + 1, i + 1));
                } else {
                    assert(done + split_segments(p@, i as int, start as int) =~= nd);
                }
                done = nd;
            }
            if i == len {
                proof {
                    assert(done =~= segs);
                    assert(!(exists|k: int| 0 <= k < segs.len() && unsafe_segment(#[trigger] segs[k])));
                }
                return Ok(buf);
            }
            start = i + 1;
        }
        i = i + 1;
    }
}

/// The file served for a directory path: `index.html` inside it when the
/// path names a directory, else the path itself.
pub fn dir_index_path(path: String, is_dir: bool) -> (r: String)
    ensures
        r@ == (if is_dir { push_component(path@, "index.html"@) } else { path@ }),
{
    if is_dir {
        let mut p = path;
        push_component_exec(&mut p, "index.html");
        p
    } else {
        path
    }
}

// ===== Serving a file or a directory =====

/// What a file filter serves: one file, or the files of a directory.
#[derive(Debug)]
pub enum FileSource {
    /// Always the file at this path.
    File(String),
    /// The file that the request's path names under this directory.
    Dir(String),
}

/// A filter that serves a file or a directory with a configuration.
#[derive(Debug)]
pub struct FileFilter {
    config: Config,
    source: FileSource,
}

impl FileFilter {
    pub closed spec fn spec_config(&self) -> Config {
        self.config
    }

    pub closed spec fn spec_source(&self) -> FileSource {
        self.source
    }

    /// The configuration.
    pub fn config(&self) -> (c: &Config)
        ensures
            *c == self.spec_config(),
    {
        &self.config
    }

    /// What the filter serves.
    pub fn source(&self) -> (s: &FileSource)
        ensures
            *s == self.spec_source(),
    {
        &self.source
    }

    /// The path of the file to open for the request of `route`: the file
    /// itself, or for a directory (which serves `GET` and `HEAD` only, else
    /// `405`) the request's unmatched path joined onto the directory, which
    /// marks the whole path as matched (see `sanitized`). Whether the path
    /// names a directory is found out afterwards (`dir_index_path`).
    pub fn resolve(&self, route: &mut Route) -> (r: Result<String, Rejection>)
        ensures
            match self.spec_source() {
                FileSource::File(p) => r matches Ok(q) && q@ == p@ && *final(route) == *old(route),
                FileSource::Dir(base) => if old(route).spec_method() != seq![71u8, 69, 84]
                    && old(route).spec_method() != seq![72u8, 69, 65, 68] {
                    r == Err::<String, Rejection>(Rejection::MethodNotAllowed) && *final(route)
                        == *old(route)
                } else {
                    &&& final(route).same_request(old(route))
                    &&& final(route).spec_index() == old(route).spec_full_path().len()
                    &&& match sanitized(base@, old(route).spec_path()) {
                        Some(q) => r matches Ok(v) && v@ == q,
                        None => r == Err::<String, Rejection>(Rejection::NotFound),
                    }
                },
            },
    {
        match &self.source {
            FileSource::File(p) => Ok(p.clone()),
            FileSource::Dir(base) => {
                let m = route.method();
                if !m.same(&crate::request::Method::get()) && !m.same(&crate::request::Method::head()) {
                    let rejected = Rejection::MethodNotAllowed.combine(Rejection::MethodNotAllowed);
                    return Err(rejected);
                }
                let t = crate::filters::path::tail(route);
                sanitize_path(base.as_str(), t.as_str())
            },
        }
    }
}

impl Config {
    /// A filter that serves the file at `path` with this configuration.
    pub fn file(self, path: String) -> (f: FileFilter)
        ensures
            f.spec_config() == self,
            f.spec_source() == FileSource::File(path),
    {
        FileFilter { config: self, source: FileSource::File(path) }
    }

    /// A filter that serves the directory at `path` with this
    /// configuration.
    pub fn dir(self, path: String) -> (f: FileFilter)
        ensures
            f.spec_config() == self,
            f.spec_source() == FileSource::Dir(path),
    {
        FileFilter { config: self, source: FileSource::Dir(path) }
    }
}

/// Any two default configurations agree on every setting that serving a
/// file reads, so `file(path)` serves as `config().file(path)` does (both
/// hold a default configuration and serve the file at `path`).
pub proof fn lemma_default_configs_agree(a: Config, b: Config)
    requires
        is_default_config(a),
        is_default_config(b),
    ensures
        a.read_buffer_size == b.read_buffer_size,
        a.content_type == b.content_type,
        a.last_modified == b.last_modified,
        a.etag == b.etag,
        a.headers.view() == b.headers.view(),
{
}

/// Creates a filter that serves the file at `path` with the default
/// configuration.
pub fn file(path: String) -> (f: FileFilter)
    ensures
        f.spec_source() == FileSource::File(path),
        is_default_config(f.spec_config()),
{
    config().file(path)
}

/// Creates a filter that serves the directory at `path` with the default
/// configuration.
pub fn dir(path: String) -> (f: FileFilter)
    ensures
        f.spec_source() == FileSource::Dir(path),
        is_default_config(f.spec_config()),
{
    config().dir(path)
}

/// Why a file could not be opened.
#[derive(Clone, Copy, Debug, PartialEq, Eq, Structural)]
pub enum OpenError {
    NotFound,
    PermissionDenied,
    Other,
}

/// The rejection for a file that could not be opened: `404` if it does not
/// exist, `FilePermissionError` if it may not be read, else
/// `FileOpenError`.
pub fn open_error_rejection(e: OpenError) -> (r: Rejection)
    ensures
        r == (match e {
            OpenError::NotFound => Rejection::NotFound,
            OpenError::PermissionDenied => Rejection::Known(Known::FilePermissionError),
            OpenError::Other => Rejection::Known(Known::FileOpenError),
        }),
{
    match e {
        OpenError::NotFound => reject::not_found(),
        OpenError::PermissionDenied => reject::known(Known::FilePermissionError),
        OpenError::Other => reject::known(Known::FileOpenError),
    }
}

// ===== Ranges =====

/// One end of a byte range.
#[derive(Clone, Copy, Debug, PartialEq, Eq, Structural)]
pub enum Bound {
    Unbounded,
    Included(u64),
    Excluded(u64),
}

/// A `Range` request header (`bytes=...`), held as its text.
pub struct Range {
    value: Vec<u8>,
}

impl Range {
    /// The header text.
    pub closed spec fn value(&self) -> Seq<u8> {
        self.value@
    }

    /// Reads a `Range` header value: any visible-ASCII text starting with `bytes=`.
    pub fn decode(value: &[u8]) -> (r: Option<Range>)
        ensures
            r is Some <==> crate::csv::all_visible_ascii(value@) && value@.len() >= 6
                && value@.subrange(0, 6) == seq![98u8, 121, 116, 101, 115, 61],
            r matches Some(x) ==> x.value() == value@,
    {
        if !crate::csv::is_visible_ascii_bytes(value) {
            return None;
        }
        if value.len() < 6 {
            return None;
        }
        let ok = value[0] == 98 && value[1] == 121 && value[2] == 116 && value[3] == 101
            && value[4] == 115 && value[5] == 61;
        if !ok {
            assert(value@.subrange(0, 6) != seq![98u8, 121, 116, 101, 115, 61]) by {
                if value@.subrange(0, 6) == seq![98u8, 121, 116, 101, 115, 61] {
                    assert(value@.subrange(0, 6)[0] == value@[0]);
                    assert(value@.subrange(0, 6)[1] == value@[1]);
                    assert(value@.subrange(0, 6)[2] == value@[2]);
                    assert(value@.subrange(0, 6)[3] == value@[3]);
                    assert(value@.subrange(0, 6)[4] == value@[4]);
                    assert(value@.subrange(0, 6)[5] == value@[5]);
                }
            }
            return None;
        }
        assert(value@.subrange(0, 6) =~= seq![98u8, 121, 116, 101, 115, 61]);
        Some(Range { value: vstd::slice::slice_to_vec(value) })
    }
}

/// The first range of a `Range` header that a resource of length `len` can
/// satisfy, as `headers::Range::satisfiable_ranges` yields it.
pub uninterp spec fn first_satisfiable(value: Seq<u8>, len: u64) -> Option<(Bound, Bound)>;

/// Asks `headers::Range::satisfiable_ranges` for the first range. The
/// contract claims only that the answer is a function of the header text
/// and the length.
#[verifier::external_body]
fn first_satisfiable_range(range: &Range, len: u64) -> (r: Option<(Bound, Bound)>)
    ensures
        r == first_satisfiable(range.value(), len),
{
    let hv = http::HeaderValue::from_bytes(&range.value).ok()?;
    let parsed = headers::Range::decode(&mut std::iter::once(&hv)).ok()?;
    let (a, b) = parsed.satisfiable_ranges(len).next()?;
    let a = match a {
        StdBound::Unbounded => Bound::Unbounded,
        StdBound::Included(v) => Bound::Included(v),
        StdBound::Excluded(v) => Bound::Excluded(v),
    };
    let b = match b {
        StdBound::Unbounded => Bound::Unbounded,
        StdBound::Included(v) => Bound::Included(v),
        StdBound::Excluded(v) => Bound::Excluded(v),
    };
    Some((a, b))
}

/// The start offset that a lower bound names.
pub open spec fn start_of(b: Bound) -> int {
    match b {
        Bound::Unbounded => 0,
        Bound::Included(s) => s as int,
        Bound::Excluded(s) => s + 1,
    }
}

/// The end offset (exclusive) that an upper bound names for a resource of
/// length `max_len`; an inclusive end equal to the length counts as the end.
pub open spec fn end_of(b: Bound, max_len: u64) -> int {
    match b {
        Bound::Unbounded => max_len as int,
        Bound::Included(s) => if s == max_len { s as int } else { s + 1 },
        Bound::Excluded(s) => s as int,
    }
}

/// The requested byte range could not be satisfied.
pub struct BadRange;

/// The byte range to send: the whole resource without a range, else the
/// first range if it lies non-empty within the resource.
pub open spec fn spec_bytes_range(first: Option<(Bound, Bound)>, max_len: u64) -> Option<(u64, u64)> {
    match first {
        None => Some((0, max_len)),
        Some((a, b)) => {
            let start = start_of(a);
            let end = end_of(b, max_len);
            if start < end && end <= max_len {
                Some((start as u64, end as u64))
            } else {
                None
            }
        },
    }
}

/// The bytes sent always lie within the file: a range that is sent starts
/// no later than it ends, and ends within the file; without a range, the
/// whole file is sent.
pub proof fn lemma_range_within_file(first: Option<(Bound, Bound)>, max_len: u64)
    ensures
        spec_bytes_range(first, max_len) matches Some(p) ==> p.0 <= p.1 <= max_len,
        first is Some ==> (spec_bytes_range(first, max_len) matches Some(p) ==> p.0 < p.1),
        first is None ==> spec_bytes_range(first, max_len) == Some((0u64, max_len)),
{
}

/// Turns the first requested range (if any) into the `start..end` byte
/// offsets to send (see `spec_bytes_range`).
pub fn bounds_to_range(first: Option<(Bound, Bound)>, max_len: u64) -> (r: Result<(u64, u64), BadRange>)
    ensures
        r matches Ok(p) ==> spec_bytes_range(first, max_len) == Some(p),
        r is Err ==> spec_bytes_range(first, max_len) is None,
{
    let (a, b) = match first {
        None => return Ok((0, max_len)),
        Some(p) => p,
    };
    let start: u64 = match a {
        Bound::Unbounded => 0,
        Bound::Included(s) => s,
        Bound::Excluded(s) => {
            if s == u64::MAX {
                return Err(BadRange);
            }
            s + 1
        },
    };
    let end: u64 = match b {
        Bound::Unbounded => max_len,
        Bound::Included(s) => {
            if s == max_len {
                s
            } else if s == u64::MAX {
                return Err(BadRange);
            } else {
                s + 1
            }
        },
        Bound::Excluded(s) => s,
    };
    if start < end && end <= max_len {
        Ok((start, end))
    } else {
        Err(BadRange)
    }
}

/// The byte range to send for a request with the given `Range` header (if
/// any) on a resource of `max_len` bytes.
pub fn bytes_range(range: Option<&Range>, max_len: u64) -> (r: Result<(u64, u64), BadRange>)
    ensures
        r matches Ok(p) ==> spec_bytes_range(
            match range { Some(x) => first_satisfiable(x.value(), max_len), None => None },
            max_len,
        ) == Some(p) && (range is None ==> p == (0u64, max_len)),
        r is Err ==> range is Some && spec_bytes_range(first_satisfiable(range->0.value(), max_len), max_len) is None,
{
    match range {
        None => Ok((0, max_len)),
        Some(x) => {
            let first = first_satisfiable_range(x, max_len);
            bounds_to_range(first, max_len)
        },
    }
}

// ===== Conditionals =====

/// The conditional request headers that decide how a file is answered.
pub struct Conditionals {
    pub if_modified_since: Option<u64>,
    pub if_unmodified_since: Option<u64>,
    pub if_range: Option<IfRange>,
    pub range: Option<Range>,
    pub if_match: Option<EntityTagRange>,
    pub if_none_match: Option<EntityTagRange>,
}

/// How the conditional headers answer a request for a file.
pub enum Verdict {
    /// `412 Precondition Failed`.
    PreconditionFailed,
    /// `304 Not Modified`, carrying the file's entity tag.
    NotModifiedTagged,
    /// `304 Not Modified`.
    NotModified,
    /// The whole file, whatever range was asked for.
    Whole,
    /// The range asked for (if any).
    AsRequested,
}

/// An entity tag as (weak, tag, header text).
pub type TagView = (bool, Seq<u8>, Seq<u8>);

/// The view of an optional entity tag.
pub open spec fn etag_view(etag: Option<&EntityTag>) -> Option<TagView> {
    match etag {
        Some(e) => Some((e.weak(), e.tag(), e.raw())),
        None => None,
    }
}

/// The header text of a tag that is there.
pub open spec fn tag_raw(t: Option<TagView>) -> Seq<u8> {
    match t {
        Some((_, _, raw)) => raw,
        None => Seq::empty(),
    }
}

/// Whether an `If-Match`/`If-None-Match` range matches the tag `e`.
pub open spec fn range_matches(meaning: Option<Seq<(bool, Seq<u8>)>>, e: TagView, strong: bool) -> bool {
    match meaning {
        None => true,
        Some(tags) => if strong { strong_match(tags, e.0, e.1) } else { weak_match(tags, e.1) },
    }
}

/// Whether an `If-Range` value says the file changed (see `IfRange::is_modified`).
pub open spec fn if_range_modified(m: Result<(bool, Seq<u8>), u64>, etag: Option<TagView>, lm: Option<u64>) -> bool {
    match m {
        Err(since) => match lm {
            Some(t) => since < t,
            None => true,
        },
        Ok(tag) => match etag {
            Some(e) => !(!e.0 && !tag.0 && e.1 == tag.1),
            None => true,
        },
    }
}

/// How the conditional headers answer a request for a file whose entity
/// tag and modification time (seconds) are `etag` and `lm`; the checks go
/// `If-Match`, `If-None-Match`, `If-Unmodified-Since`, `If-Modified-Since`,
/// then `If-Range`.
pub open spec fn verdict(c: &Conditionals, etag: Option<TagView>, lm: Option<u64>) -> Verdict {
    if c.if_match is Some && !(match etag {
        Some(e) => range_matches(c.if_match->0.meaning(), e, true),
        None => false,
    }) {
        Verdict::PreconditionFailed
    } else if c.if_none_match is Some && (match etag {
        Some(e) => range_matches(c.if_none_match->0.meaning(), e, false),
        None => false,
    }) {
        Verdict::NotModifiedTagged
    } else if c.if_unmodified_since is Some && !(match lm {
        Some(t) => c.if_unmodified_since->0 >= t,
        None => false,
    }) {
        Verdict::PreconditionFailed
    } else if c.if_modified_since is Some && (match lm {
        Some(t) => !(c.if_modified_since->0 < t),
        None => false,
    }) {
        Verdict::NotModified
    } else if c.if_range is Some && if_range_modified(c.if_range->0.meaning(), etag, lm) {
        Verdict::Whole
    } else {
        Verdict::AsRequested
    }
}

/// The outcome of the conditional headers: a bodiless response, or the
/// range (if any) of the file to send.
pub enum Cond {
    NoBody(Response),
    WithBody(Option<Range>),
}

/// Whether `r` is how the conditional headers `c` answer a request for a
/// file with tag `etag` and modification time `lm` (see `verdict`); a
/// `304` that names the tag also carries the `cache-control` field of
/// `config_headers`.
pub open spec fn cond_outcome(c: &Conditionals, config_headers: HeaderMap, etag: Option<TagView>, lm: Option<u64>, r: Cond) -> bool {
            match verdict(c, etag, lm) {
                Verdict::PreconditionFailed => r matches Cond::NoBody(resp) && resp.status == 412
                    && resp.headers.view() == Seq::<(Seq<char>, Seq<u8>)>::empty() && resp.body is Empty,
                Verdict::NotModifiedTagged => r matches Cond::NoBody(resp) && resp.status == 304
                    && resp.body is Empty && etag is Some && resp.headers.view() == (match config_headers.spec_get("cache-control"@) {
                        Some(cc) => seq![(lower_chars("etag"@), tag_raw(etag)), (lower_chars("cache-control"@), cc)],
                        None => seq![(lower_chars("etag"@), tag_raw(etag))],
                    }),
                Verdict::NotModified => r matches Cond::NoBody(resp) && resp.status == 304
                    && resp.headers.view() == Seq::<(Seq<char>, Seq<u8>)>::empty() && resp.body is Empty,
                Verdict::Whole => r matches Cond::WithBody(None),
                Verdict::AsRequested => r matches Cond::WithBody(x) && match (x, c.range) {
                    (Some(a), Some(b)) => a.value() == b.value(),
                    (None, None) => true,
                    _ => false,
                },
            }
}

/// `If-None-Match` compares tags weakly: when the file's tag is listed in
/// it (`*`, or a tag equal to the file's with or without `W/` on either
/// side) and neither `If-Match` nor `If-Unmodified-Since` is given, the
/// answer is `304 Not Modified`, naming the file's tag, with no body.
pub proof fn lemma_if_none_match_is_weak(c: Conditionals, h: HeaderMap, e: TagView, lm: Option<u64>, r: Cond)
    requires
        cond_outcome(&c, h, Some(e), lm, r),
        c.if_match is None,
        c.if_unmodified_since is None,
        c.if_none_match matches Some(x) && match x.meaning() {
            None => true,
            Some(tags) => exists|i: int| 0 <= i < tags.len() && #[trigger] tags[i].1 == e.1,
        },
    ensures
        r matches Cond::NoBody(resp) && resp.status == 304 && resp.body is Empty && first_value(
            resp.headers.view(),
            lower_chars("etag"@),
        ) == Some(tag_raw(Some(e))),
{
    assert(verdict(&c, Some(e), lm) is NotModifiedTagged);
}

impl Conditionals {
    /// Answers the conditional headers for a file with tag `etag` and
    /// modification time `last_modified` (see `cond_outcome`).
    pub fn check(self, config_headers: &HeaderMap, etag: Option<&EntityTag>, last_modified: Option<u64>) -> (r: Cond)
        ensures
            cond_outcome(&self, *config_headers, etag_view(etag), last_modified, r),
    {
        let ghost v = verdict(&self, etag_view(etag), last_modified);
        if let Some(tag_match) = &self.if_match {
            let precondition = match etag {
                Some(tag) => tag_match.matches_strong(tag),
                None => false,
            };
            if !precondition {
                let mut res = Response::new_empty();
                res.status = 412;
                return Cond::NoBody(res);
            }
        }
        if let Some(tag_match) = &self.if_none_match {
            let precondition = match etag {
                Some(tag) => tag_match.matches_weak(tag),
                None => false,
            };
            if precondition {
                let mut res = Response::new_empty();
                res.status = 304;
                let tag = etag.unwrap();
                assert(tag_raw(etag_view(etag)) == tag.raw());
                res.headers.append("etag", tag.as_bytes());
                match config_headers.get("cache-control") {
                    Some(cache) => {
                        res.headers.append("cache-control", cache.as_slice());
                        assert(res.headers.view() =~= seq![(lower_chars("etag"@), tag.raw()), (lower_chars("cache-control"@), cache@)]);
                    },
                    None => {
                        assert(res.headers.view() =~= seq![(lower_chars("etag"@), tag.raw())]);
                    },
                }
                assert(v is NotModifiedTagged);
                return Cond::NoBody(res);
            }
        }
        if let Some(since) = self.if_unmodified_since {
            let precondition = match last_modified {
                Some(t) => since >= t,
                None => false,
            };
            if !precondition {
                let mut res = Response::new_empty();
                res.status = 412;
                return Cond::NoBody(res);
            }
        }
        if let Some(since) = self.if_modified_since {
            let unmodified = match last_modified {
                Some(t) => !(since < t),
                None => false,
            };
            if unmodified {
                let mut res = Response::new_empty();
                res.status = 304;
                return Cond::NoBody(res);
            }
        }
        if let Some(if_range) = &self.if_range {
            let can_range = !if_range.is_modified(etag, last_modified);
            if !can_range {
                return Cond::WithBody(None);
            }
        }
        Cond::WithBody(self.range)
    }
}

/// Reads the conditional headers of a request: the dates from single
/// fields, `If-Range` and `Range` from the first field of their name, and
/// the tag lists from all fields of their name merged.
pub fn conditionals(route: &Route) -> (c: Conditionals)
    ensures
        c.if_modified_since == (match route.spec_headers().spec_single("if-modified-since"@) {
            Some(v) => http_date_seconds(v),
            None => None,
        }),
        c.if_unmodified_since == (match route.spec_headers().spec_single("if-unmodified-since"@) {
            Some(v) => http_date_seconds(v),
            None => None,
        }),
        match route.spec_headers().spec_get("if-range"@) {
            Some(v) => match c.if_range {
                Some(x) => if_range_meaning(v) == Some(x.meaning()),
                None => if_range_meaning(v) is None,
            },
            None => c.if_range is None,
        },
        match route.spec_headers().spec_get("range"@) {
            Some(v) => match c.range {
                Some(x) => x.value() == v && crate::csv::all_visible_ascii(v) && v.len() >= 6
                    && v.subrange(0, 6) == seq![98u8, 121, 116, 101, 115, 61],
                None => !(crate::csv::all_visible_ascii(v) && v.len() >= 6
                    && v.subrange(0, 6) == seq![98u8, 121, 116, 101, 115, 61]),
            },
            None => c.range is None,
        },
        match route.spec_headers().spec_joined("if-match"@, 44) {
            Some(v) => c.if_match matches Some(x) && x.meaning() == range_meaning(v),
            None => c.if_match is None,
        },
        match route.spec_headers().spec_joined("if-none-match"@, 44) {
            Some(v) => c.if_none_match matches Some(x) && x.meaning() == range_meaning(v),
            None => c.if_none_match is None,
        },
{
    let headers = route.headers();
    let if_modified_since = match headers.get_single("if-modified-since") {
        Some(v) => decode_http_date(v.as_slice()),
        None => None,
    };
    let if_unmodified_since = match headers.get_single("if-unmodified-since") {
        Some(v) => decode_http_date(v.as_slice()),
        None => None,
    };
    let if_range = match headers.get("if-range") {
        Some(v) => IfRange::parse(v.as_slice()),
        None => None,
    };
    let range = match headers.get("range") {
        Some(v) => Range::decode(v.as_slice()),
        None => None,
    };
    let if_match = match headers.get_joined("if-match", 44) {
        Some(v) => Some(EntityTagRange::parse(v.as_slice())),
        None => None,
    };
    let if_none_match = match headers.get_joined("if-none-match", 44) {
        Some(v) => Some(EntityTagRange::parse(v.as_slice())),
        None => None,
    };
    Conditionals { if_modified_since, if_unmodified_since, if_range, range, if_match, if_none_match }
}

// ===== Entity tags of files =====

/// The text that `format!("{:02X?}", Duration::from_secs(secs))` writes
/// (the `Debug` form of the duration), as bytes.
pub uninterp spec fn duration_debug(secs: u64) -> Seq<u8>;

/// Formats `Duration::from_secs(secs)` with `{:02X?}`; the result is named
/// `duration_debug`.
#[verifier::external_body]
fn duration_debug_text(secs: u64) -> (r: Vec<u8>)
    ensures
        r@ == duration_debug(secs),
{
    format!("{:02X?}", std::time::Duration::from_secs(secs)).into_bytes()
}

/// The header text of the weak tag `W/"t"`.
pub open spec fn weak_tag_text(t: Seq<u8>) -> Seq<u8> {
    seq![87u8, 47, 34] + t + seq![34u8]
}

/// The tag a file is served with under `config` when it was last modified
/// `modified` whole seconds after the Unix epoch: `Some(None)` when there
/// is none (tags off, or the time unknown), `Some(Some(t))` for the weak
/// tag around the `Debug` text of that time, and `None` when that text is
/// no tag (it holds a double quote).
pub open spec fn file_tag(config: Config, modified: Option<u64>) -> Option<Option<TagView>> {
    if config.etag && modified is Some {
        let t = duration_debug(modified->0);
        if no_dquote(t) {
            Some(Some((true, t, weak_tag_text(t))))
        } else {
            None
        }
    } else {
        Some(None)
    }
}

/// The weak entity tag of a file modified `secs` whole seconds after the
/// Unix epoch: `W/"…"` around the `Debug` text of that duration; `None`
/// when that text is no tag (it holds a double quote).
pub fn modified_etag(secs: u64) -> (r: Option<EntityTag>)
    ensures
        r is Some <==> no_dquote(duration_debug(secs)),
        r matches Some(e) ==> e.weak() && e.tag() == duration_debug(secs) && e.raw() == weak_tag_text(
            duration_debug(secs),
        ),
{
    let text = duration_debug_text(secs);
    let mut v: Vec<u8> = Vec::new();
    v.push(87u8);
    v.push(47u8);
    v.push(34u8);
    extend_bytes(&mut v, text.as_slice());
    v.push(34u8);
    let ghost t = duration_debug(secs);
    assert(v@ =~= weak_tag_text(t));
    assert(v@.subrange(3, v@.len() - 1) =~= t);
    assert(parse_etag(v@) == (if no_dquote(t) { Some((true, t)) } else { None }));
    EntityTag::parse(v.as_slice())
}

/// The entity tag a file is served with under `config`, given how many
/// whole seconds after the Unix epoch it was last modified (see
/// `file_tag`); `Err` when the weak tag of that time is no tag.
pub fn file_etag(config: &Config, modified: Option<u64>) -> (r: Result<Option<EntityTag>, ()>)
    ensures
        match file_tag(*config, modified) {
            None => r is Err,
            Some(t) => r matches Ok(e) && etag_view(match e { Some(x) => Some(&x), None => None }) == t,
        },
{
    if !config.etag {
        return Ok(None);
    }
    match modified {
        None => Ok(None),
        Some(secs) => match modified_etag(secs) {
            Some(e) => Ok(Some(e)),
            None => Err(()),
        },
    }
}

// ===== Responses =====

/// The content type that `mime_guess` guesses from a file path (the first
/// guess, else `application/octet-stream`), as header text.
pub uninterp spec fn guessed_content_type(path: Seq<char>) -> Seq<u8>;

/// The header text of a content type given as text, if it is a media type.
pub uninterp spec fn parsed_content_type(text: Seq<char>) -> Option<Seq<u8>>;

/// Guesses a file's content type with
/// `mime_guess::from_path(path).first_or_octet_stream()`. The contract claims
/// only that the guess is a function of the path.
#[verifier::external_body]
fn guess_content_type(path: &str) -> (r: Vec<u8>)
    ensures
        r@ == guessed_content_type(path@),
{
    let m = mime_guess::from_path(path).first_or_octet_stream();
    let ct = headers::ContentType::from(m);
    let mut values: Vec<http::HeaderValue> = Vec::new();
    ct.encode(&mut values);
    values[0].as_bytes().to_vec()
}

/// Reads a configured content type with `headers::ContentType`'s `FromStr`.
/// The contract claims only that the outcome is a function of the text.
#[verifier::external_body]
fn parse_content_type(text: &str) -> (r: Option<Vec<u8>>)
    ensures
        r matches Some(v) ==> parsed_content_type(text@) == Some(v@),
        r is None ==> parsed_content_type(text@) is None,
{
    let ct: headers::ContentType = text.parse().ok()?;
    let mut values: Vec<http::HeaderValue> = Vec::new();
    ct.encode(&mut values);
    Some(values[0].as_bytes().to_vec())
}

/// The content type a file is served with: the configured one if there is
/// one (`None` if it is no media type), else the one guessed from its path.
pub open spec fn spec_content_type(configured: Option<Seq<char>>, path: Seq<char>) -> Option<Seq<u8>> {
    match configured {
        Some(t) => parsed_content_type(t),
        None => Some(guessed_content_type(path)),
    }
}

/// The content type a file is served with (see `spec_content_type`).
pub fn resolve_content_type(config: &Config, path: &str) -> (r: Option<Vec<u8>>)
    ensures
        r matches Some(v) ==> spec_content_type(
            match config.content_type { Some(t) => Some(t@), None => None },
            path@,
        ) == Some(v@),
        r is None ==> spec_content_type(
            match config.content_type { Some(t) => Some(t@), None => None },
            path@,
        ) is None,
{
    match &config.content_type {
        Some(t) => parse_content_type(t.as_str()),
        None => Some(guess_content_type(path)),
    }
}

/// The default read buffer size.
pub const DEFAULT_READ_BUF_SIZE: usize = 8192;

/// The block size to read a file in: its device block size, unless that
/// is smaller than the default buffer size.
pub fn get_block_size(blksize: u64) -> (r: usize)
    ensures
        r == (if (blksize as usize) > DEFAULT_READ_BUF_SIZE { blksize as usize } else { DEFAULT_READ_BUF_SIZE }),
{
    let b = blksize as usize;
    if b > DEFAULT_READ_BUF_SIZE {
        b
    } else {
        DEFAULT_READ_BUF_SIZE
    }
}

/// The buffer size to read a file of `len` bytes with: its block size, but
/// no more than the file's length.
pub fn optimal_buf_size(blksize: u64, len: u64) -> (r: usize)
    ensures
        r == (if (get_block_size_spec(blksize) as u64) < len { get_block_size_spec(blksize) } else { len as usize }),
        r <= get_block_size_spec(blksize),
{
    let block_size = get_block_size(blksize);
    if (block_size as u64) < len {
        block_size
    } else {
        len as usize
    }
}

/// The value `get_block_size` returns.
pub open spec fn get_block_size_spec(blksize: u64) -> usize {
    if (blksize as usize) > DEFAULT_READ_BUF_SIZE { blksize as usize } else { DEFAULT_READ_BUF_SIZE }
}

/// `bytes first-last/len` for the bytes `start..end` of `len`.
pub open spec fn content_range_text(start: u64, end: u64, len: u64) -> Seq<u8> {
    seq![98u8, 121, 116, 101, 115, 32] + decimal(start as nat) + seq![45u8] + decimal((end - 1) as nat)
        + seq![47u8] + decimal(len as nat)
}

/// `bytes */len`: no range of `len` bytes could be satisfied.
pub open spec fn unsatisfied_range_text(len: u64) -> Seq<u8> {
    seq![98u8, 121, 116, 101, 115, 32, 42, 47] + decimal(len as nat)
}

/// The header fields of a response that sends bytes `start..end` of a file
/// of `len` bytes, before the configured fields are applied.
pub open spec fn range_headers(
    start: u64,
    end: u64,
    len: u64,
    content_type: Seq<u8>,
    last_modified: Option<u64>,
    etag: Option<Seq<u8>>,
) -> Seq<(Seq<char>, Seq<u8>)> {
    let partial = end - start != len;
    let h0: Seq<(Seq<char>, Seq<u8>)> = if partial {
        seq![(lower_chars("content-range"@), content_range_text(start, end, len))]
    } else {
        Seq::empty()
    };
    let h1 = h0.push((lower_chars("content-length"@), decimal((end - start) as nat)))
        .push((lower_chars("content-type"@), content_type))
        .push((lower_chars("accept-ranges"@), seq![98u8, 121, 116, 101, 115]));
    let h2 = match last_modified {
        Some(t) => h1.push((lower_chars("last-modified"@), http_date_text(t))),
        None => h1,
    };
    match etag {
        Some(e) => h2.push((lower_chars("etag"@), e)),
        None => h2,
    }
}

fn append_config_headers(h: &mut HeaderMap, config_headers: &HeaderMap)
    ensures
        final(h).view() == apply_inserts(old(h).view(), config_headers.view()),
{
    let n = config_headers.len();
    let mut i: usize = 0;
    while i < n
        invariant
            n == config_headers.view().len(),
            i <= n,
            h.view() == apply_inserts(old(h).view(), config_headers.view().subrange(0, i as int)),
        decreases n - i,
    {
        let (k, v) = config_headers.entry_at(i);
        h.insert(k.as_str(), v.as_slice());
        proof {
            let ext = config_headers.view().subrange(0, i + 1);
            assert(ext.drop_last() =~= config_headers.view().subrange(0, i as int));
            assert(ext.last() == config_headers.view()[i as int]);
        }
        i = i + 1;
    }
    assert(config_headers.view().subrange(0, n as int) =~= config_headers.view());
}

/// Whether `r` is the response for a file of `len` bytes under `config`
/// once the conditional headers gave `cond`, with content type
/// `content_type`, tag `etag` and modification time `modified`: a
/// bodiless response as it stands; else the requested range (`206 Partial
/// Content` with `content-range` when it is not the whole file) with length,
/// type, `accept-ranges`, the configured `last-modified` and `etag`, then
/// the configured extra fields; or `416` with `content-range: bytes */len`
/// when the range cannot be satisfied.
pub open spec fn response_outcome(
    cond: Cond,
    config: Config,
    content_type: Seq<u8>,
    len: u64,
    etag: Option<TagView>,
    modified: Option<u64>,
    blksize: u64,
    r: Response,
) -> bool {
        match cond {
            Cond::NoBody(resp) => r == resp,
            Cond::WithBody(range) => match spec_bytes_range(
                match range { Some(x) => first_satisfiable(x.value(), len), None => None },
                len,
            ) {
                Some((start, end)) => {
                    &&& r.status == (if end - start != len { 206u16 } else { 200u16 })
                    &&& r.headers.view() == apply_inserts(
                        range_headers(
                            start,
                            end,
                            len,
                            content_type,
                            if config.last_modified { modified } else { None },
                            if config.etag && etag is Some { Some(tag_raw(etag)) } else { None },
                        ),
                        config.headers.view(),
                    )
                    &&& r.body == Body::FileRange {
                        start,
                        end,
                        buf_size: match config.read_buffer_size {
                            Some(n) => n,
                            None => if (get_block_size_spec(blksize) as u64) < len {
                                get_block_size_spec(blksize)
                            } else {
                                len as usize
                            },
                        },
                    }
                },
                None => {
                    &&& r.status == 416
                    &&& r.headers.view() == seq![(lower_chars("content-range"@), unsatisfied_range_text(len))]
                    &&& r.body is Empty
                },
            },
        }
}

/// The response for a file of `len` bytes once the conditional headers are
/// answered: a bodiless response as it stands; else the requested range
/// (`206 Partial Content` with `content-range` when it is not the whole
/// file) with length, type, `accept-ranges`, the configured `last-modified`
/// and `etag`, then the configured extra fields; or `416` with
/// `content-range: bytes */len` when the range cannot be satisfied. The
/// modification time must be one that an HTTP date can name (before the
/// year 10000).
pub fn file_response(
    cond: Cond,
    config: &Config,
    content_type: &[u8],
    len: u64,
    etag: Option<&EntityTag>,
    modified: Option<u64>,
    blksize: u64,
) -> (r: Response)
    requires
        modified matches Some(t) ==> t < HTTP_DATE_END,
    ensures
        response_outcome(cond, *config, content_type@, len, etag_view(etag), modified, blksize, r),
{
    let range = match cond {
        Cond::NoBody(resp) => return resp,
        Cond::WithBody(range) => range,
    };
    let range_ref = match &range {
        Some(x) => Some(x),
        None => None,
    };
    match bytes_range(range_ref, len) {
        Ok((start, end)) => {
            let sub_len = end - start;
            let buf_size = match config.read_buffer_size {
                Some(n) => n,
                None => optimal_buf_size(blksize, len),
            };
            let mut resp = Response::with_body(Body::FileRange { start, end, buf_size });
            if sub_len != len {
                resp.status = 206;
                let mut text: Vec<u8> = Vec::new();
                extend_bytes(&mut text, &[98u8, 121, 116, 101, 115, 32]);
                extend_bytes(&mut text, u64_to_decimal(start).as_slice());
                text.push(45u8);
                extend_bytes(&mut text, u64_to_decimal(end - 1).as_slice());
                text.push(47u8);
                extend_bytes(&mut text, u64_to_decimal(len).as_slice());
                assert(text@ =~= content_range_text(start, end, len));
                resp.headers.append("content-range", text.as_slice());
            }
            resp.headers.append("content-length", u64_to_decimal(sub_len).as_slice());
            resp.headers.append("content-type", content_type);
            resp.headers.append("accept-ranges", &[98u8, 121, 116, 101, 115]);
            if config.last_modified {
                if let Some(t) = modified {
                    resp.headers.append("last-modified", encode_http_date(t).as_slice());
                }
            }
            if config.etag {
                if let Some(e) = etag {
                    resp.headers.append("etag", e.as_bytes());
                }
            }
            let ghost base = resp.headers.view();
            proof {
                let lmo = if config.last_modified { modified } else { None };
                let eto = if config.etag && etag is Some { Some(etag->0.raw()) } else { None };
                assert(base =~= range_headers(start, end, len, content_type@, lmo, eto));
            }
            append_config_headers(&mut resp.headers, &config.headers);
            resp
        },
        Err(BadRange) => {
            let mut resp = Response::new_empty();
            resp.status = 416;
            let mut text: Vec<u8> = Vec::new();
            extend_bytes(&mut text, &[98u8, 121, 116, 101, 115, 32, 42, 47]);
            extend_bytes(&mut text, u64_to_decimal(len).as_slice());
            assert(text@ =~= unsatisfied_range_text(len));
            resp.headers.append("content-range", text.as_slice());
            assert(resp.headers.view() =~= seq![(lower_chars("content-range"@), unsatisfied_range_text(len))]);
            resp
        },
    }
}

/// Why a file cannot be answered: its weak tag is no tag, or a body is
/// to be sent and the configured content type is no media type.
#[derive(Clone, Copy, Debug, PartialEq, Eq, Structural)]
pub enum FileReplyError {
    InvalidEtag,
    InvalidContentType,
}

/// The configuration that applies to a file: the one a per-file callback
/// gave, if it gave one, else the filter's own.
pub open spec fn effective_config(base: Config, adjusted: Option<Config>) -> Config {
    match adjusted {
        Some(c) => c,
        None => base,
    }
}

/// Whether the answer `cond` sends a body from a file of `len` bytes: a
/// range that can be satisfied (or the whole file).
pub open spec fn sends_body(cond: Cond, len: u64) -> bool {
    cond matches Cond::WithBody(range) && spec_bytes_range(
        match range { Some(x) => first_satisfiable(x.value(), len), None => None },
        len,
    ) is Some
}

/// Answers a request for the file at `path` of `len` bytes, last modified
/// `modified` whole seconds after the Unix epoch: under the configuration
/// that applies (`adjusted`, from a per-file callback, else `base`), the
/// file's tag is made (`file_tag`), the conditional headers `conds` are
/// answered with it (`cond_outcome`), and the response is built with the
/// content type of the configuration or guessed from the path
/// (`response_outcome`). Fails when the tag is no tag, or when a body is to
/// be sent and the configured content type is no media type.
pub fn file_reply(
    conds: Conditionals,
    base: &Config,
    adjusted: Option<Config>,
    path: &str,
    len: u64,
    modified: Option<u64>,
    blksize: u64,
) -> (r: Result<Response, FileReplyError>)
    requires
        modified matches Some(t) ==> t < HTTP_DATE_END,
    ensures
        ({
            let eff = effective_config(*base, adjusted);
            let ct = spec_content_type(
                match eff.content_type { Some(t) => Some(t@), None => None },
                path@,
            );
            match file_tag(eff, modified) {
                None => r == Err::<Response, FileReplyError>(FileReplyError::InvalidEtag),
                Some(tag) => exists|c: Cond|
                    #[trigger] cond_outcome(&conds, eff.headers, tag, modified, c) && match r {
                        Err(e) => e == FileReplyError::InvalidContentType && ct is None && sends_body(c, len),
                        Ok(resp) => !(ct is None && sends_body(c, len)) && response_outcome(
                            c,
                            eff,
                            match ct { Some(v) => v, None => Seq::empty() },
                            len,
                            tag,
                            modified,
                            blksize,
                            resp,
                        ),
                    },
            }
        }),
{
    let config: &Config = match &adjusted {
        Some(c) => c,
        None => base,
    };
    let etag = match file_etag(config, modified) {
        Ok(e) => e,
        Err(()) => return Err(FileReplyError::InvalidEtag),
    };
    let etag_ref = match &etag {
        Some(e) => Some(e),
        None => None,
    };
    let ghost old_conds = conds;
    let cond = conds.check(&config.headers, etag_ref, modified);
    let ghost c0 = cond;
    let ct = resolve_content_type(config, path);
    let sends = match &cond {
        Cond::WithBody(range) => {
            let rr = match range {
                Some(x) => Some(x),
                None => None,
            };
            bytes_range(rr, len).is_ok()
        },
        Cond::NoBody(_) => false,
    };
    assert(sends == sends_body(c0, len));
    if sends && ct.is_none() {
        assert(cond_outcome(&old_conds, config.headers, etag_view(etag_ref), modified, c0));
        return Err(FileReplyError::InvalidContentType);
    }
    let content_type = match ct {
        Some(v) => v,
        None => Vec::new(),
    };
    assert(content_type@ == (match spec_content_type(
        match config.content_type { Some(t) => Some(t@), None => None },
        path@,
    ) { Some(v) => v, None => Seq::<u8>::empty() }));
    let resp = file_response(cond, config, content_type.as_slice(), len, etag_ref, modified, blksize);
    assert(cond_outcome(&old_conds, config.headers, etag_view(etag_ref), modified, c0));
    Ok(resp)
}

/// A file response, with the path of the file it delivers.
pub struct File {
    resp: Response,
    path: String,
}

impl File {
    /// A file response for `path`.
    pub fn new(resp: Response, path: String) -> (f: File)
        ensures
            f.spec_path() == path@,
            f.spec_resp() == resp,
    {
        File { resp, path }
    }

    /// The path of the file.
    pub closed spec fn spec_path(&self) -> Seq<char> {
        self.path@
    }

    /// The response.
    pub closed spec fn spec_resp(&self) -> Response {
        self.resp
    }

    /// Extract the path of the file this `Response` delivers.
    pub fn path(&self) -> (p: &str)
        ensures
            p@ == self.spec_path(),
    {
        self.path.as_str()
    }
}

impl crate::reply::Reply for File {
    open spec fn reply_status(&self) -> u16 {
        self.spec_resp().status
    }

    open spec fn reply_headers(&self) -> Seq<(Seq<char>, Seq<u8>)> {
        self.spec_resp().headers.view()
    }

    open spec fn reply_body(&self) -> Body {
        self.spec_resp().body
    }

    fn into_response(self) -> (r: Response) {
        self.resp
    }
}

// ===== Streaming =====

/// What a file stream does after a read returned `n` bytes while
/// `remaining` bytes of the range were still owed: `None` ends the stream
/// (the file ended early); else the number of bytes of the chunk to send,
/// and how many bytes are then still owed.
pub open spec fn spec_chunk(remaining: u64, n: u64) -> Option<(u64, u64)> {
    if n == 0 {
        None
    } else if n > remaining {
        Some((remaining, 0))
    } else {
        Some((n, (remaining - n) as u64))
    }
}

/// Takes one read of `n` bytes into the stream of a file range that still
/// owes `remaining` bytes (see `spec_chunk`). A stream that owes nothing
/// has already ended and reads no more.
pub fn next_chunk(remaining: u64, n: u64) -> (r: Option<(u64, u64)>)
    requires
        remaining > 0,
    ensures
        r == spec_chunk(remaining, n),
{
    if n == 0 {
        None
    } else if n > remaining {
        Some((remaining, 0))
    } else {
        Some((n, remaining - n))
    }
}

/// The bytes a file stream sends for the range `start..end` when its reads
/// return `reads` bytes in turn: the stream stops when nothing is owed or a
/// read returns nothing.
pub open spec fn streamed(remaining: u64, reads: Seq<u64>) -> nat
    decreases reads.len(),
{
    if remaining == 0 || reads.len() == 0 {
        0
    } else {
        match spec_chunk(remaining, reads[0]) {
            None => 0,
            Some((take, rest)) => (take + streamed(rest, reads.subrange(1, reads.len() as int))) as nat,
        }
    }
}

/// A file stream never sends more than the range holds, and it sends the
/// whole range when no read comes back empty and the reads together cover
/// it.
pub proof fn lemma_stream_sends_range(remaining: u64, reads: Seq<u64>)
    ensures
        streamed(remaining, reads) <= remaining,
        (forall|i: int| 0 <= i < reads.len() ==> reads[i] > 0) && remaining <= sum_reads(reads)
            ==> streamed(remaining, reads) == remaining,
    decreases reads.len(),
{
    if remaining > 0 && reads.len() > 0 && reads[0] > 0 {
        let tail = reads.subrange(1, reads.len() as int);
        let (take, rest) = spec_chunk(remaining, reads[0]).unwrap();
        lemma_stream_sends_range(rest, tail);
        assert(sum_reads(reads) == reads[0] + sum_reads(tail));
        if (forall|i: int| 0 <= i < reads.len() ==> reads[i] > 0) {
            assert forall|i: int| 0 <= i < tail.len() implies tail[i] > 0 by {
                assert(tail[i] == reads[i + 1]);
            }
        }
    }
}

/// The total of the read sizes.
pub open spec fn sum_reads(reads: Seq<u64>) -> nat
    decreases reads.len(),
{
    if reads.len() == 0 {
        0
    } else {
        (reads[0] + sum_reads(reads.subrange(1, reads.len() as int))) as nat
    }
}

/// The growable byte buffer of the `bytes` crate.
#[verifier::external_type_specification]
#[verifier::external_body]
pub struct ExBytesMut(BytesMut);

/// The bytes that a `BytesMut` buffer holds.
pub uninterp spec fn bytes_mut_contents(b: BytesMut) -> Seq<u8>;

/// `BytesMut::len`: the number of bytes held.
#[verifier::external_body]
fn bytes_mut_len(b: &BytesMut) -> (n: usize)
    ensures
        n == bytes_mut_contents(*b).len(),
{
    b.len()
}

/// `BytesMut::capacity`: how many bytes the buffer can hold without
/// reallocating (nothing is stated of it: it depends on what the allocator
/// gave).
#[verifier::external_body]
fn bytes_mut_capacity(b: &BytesMut) -> (n: usize)
    ensures
        n >= bytes_mut_contents(*b).len(),
{
    b.capacity()
}

/// `BytesMut::reserve`: makes room for at least `additional` more bytes,
/// keeping the contents, and gives the capacity it leaves
/// (`BytesMut::capacity`), which is then at least the length plus
/// `additional`. It panics when the new capacity overflows, so the
/// requested size must stay within `isize::MAX`.
#[verifier::external_body]
fn bytes_mut_reserve(b: &mut BytesMut, additional: usize) -> (c: usize)
    requires
        bytes_mut_contents(*old(b)).len() + additional <= isize::MAX,
    ensures
        bytes_mut_contents(*final(b)) == bytes_mut_contents(*old(b)),
        c >= bytes_mut_contents(*final(b)).len() + additional,
{
    b.reserve(additional);
    b.capacity()
}

/// Makes room for at least `cap` more bytes in `buf` unless it has that
/// much room already; the bytes it holds are kept. Gives the capacity the
/// buffer ends with, which leaves room for `cap` more bytes.
pub fn reserve_at_least(buf: &mut BytesMut, cap: usize) -> (c: usize)
    requires
        bytes_mut_contents(*old(buf)).len() + cap <= isize::MAX,
    ensures
        bytes_mut_contents(*final(buf)) == bytes_mut_contents(*old(buf)),
        c >= bytes_mut_contents(*final(buf)).len() + cap,
{
    let capacity = bytes_mut_capacity(buf);
    let len = bytes_mut_len(buf);
    if capacity - len < cap {
        bytes_mut_reserve(buf, cap)
    } else {
        capacity
    }
}

} // verus!
