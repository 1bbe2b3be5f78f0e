use warp::entity::{EntityTag, EntityTagRange, IfRange};
use warp::filters::fs::{
    bounds_to_range, bytes_range, conditionals, config, dir, dir_index_path, file_response,
    get_block_size, next_chunk, open_error_rejection, optimal_buf_size, resolve_content_type, sanitize_path,
    Bound, Cond, FileSource, OpenError, Range,
};
use warp::filters::fs;
use warp::filters::fs::{file_etag, file_reply, modified_etag, reserve_at_least, FileReplyError};
use warp::header_map::HeaderMap;
use warp::reject::{Known, Rejection};
use warp::reply::Body;
use warp::request::{Method, Request, Version};
use warp::route::Route;

fn route(m: &[u8], path: &str, pairs: &[(&str, &str)]) -> Route {
    let mut map = HeaderMap::new();
    for (k, v) in pairs {
        map.append(k, v.as_bytes());
    }
    Route::new(Request {
        method: Method::from_bytes(m).unwrap(),
        path: path.to_string(),
        query: None,
        authority: None,
        version: Version::Http11,
        headers: map,
        body: None,
        remote_addr: None,
        peer_certificates: None,
    })
}

fn text(v: Option<&Vec<u8>>) -> Option<String> {
    v.map(|b| String::from_utf8(b.clone()).unwrap())
}

// ===== paths =====

#[test]
fn sanitize_decodes_percent_escapes() {
    assert_eq!(sanitize_path("/var/www", "foo%20bar.html").unwrap(), "/var/www/foo bar.html");
    assert_eq!(sanitize_path("/var/www/", "a/b.txt").unwrap(), "/var/www/a/b.txt");
}

#[test]
fn sanitize_refuses_escapes_from_the_directory() {
    assert!(matches!(sanitize_path("/var/www", "%2e%2e/etc/passwd"), Err(Rejection::NotFound)));
    assert!(matches!(sanitize_path("/var/www", "a/..hidden"), Err(Rejection::NotFound)));
    assert!(matches!(sanitize_path("/var/www", "a%5Cb"), Err(Rejection::NotFound)));
    // not UTF-8 once decoded
    assert!(matches!(sanitize_path("/var/www", "%ff"), Err(Rejection::NotFound)));
}

#[test]
fn directory_paths_serve_their_index() {
    assert_eq!(dir_index_path("/var/www/docs".to_string(), true), "/var/www/docs/index.html");
    assert_eq!(dir_index_path("/var/www/docs/".to_string(), true), "/var/www/docs/index.html");
    assert_eq!(dir_index_path("/var/www/a.txt".to_string(), false), "/var/www/a.txt");
}

#[test]
fn dir_filter_resolves_the_request_path() {
    let f = dir("/var/www".to_string());
    let mut r = route(b"GET", "/static/app.js", &[]);
    assert_eq!(f.resolve(&mut r).unwrap(), "/var/www/static/app.js");
    assert_eq!(r.path(), "");
    let mut r = route(b"POST", "/static/app.js", &[]);
    assert!(matches!(f.resolve(&mut r), Err(Rejection::MethodNotAllowed)));
    let mut r = route(b"HEAD", "/../secret", &[]);
    assert!(matches!(f.resolve(&mut r), Err(Rejection::NotFound)));
}

#[test]
fn file_filter_always_serves_its_file() {
    let f = fs::file("/var/www/index.html".to_string());
    assert!(matches!(f.source(), FileSource::File(p) if p == "/var/www/index.html"));
    let mut r = route(b"POST", "/anything", &[]);
    assert_eq!(f.resolve(&mut r).unwrap(), "/var/www/index.html");
    assert!(f.config().last_modified && !f.config().etag);
}

#[test]
fn open_errors_become_rejections() {
    assert!(matches!(open_error_rejection(OpenError::NotFound), Rejection::NotFound));
    let e = open_error_rejection(OpenError::PermissionDenied);
    assert!(matches!(e, Rejection::Known(Known::FilePermissionError)));
    assert_eq!(e.status(), 403);
    assert_eq!(open_error_rejection(OpenError::Other).status(), 500);
}

// ===== ranges =====

#[test]
fn byte_ranges() {
    let r = Range::decode(b"bytes=0-4").unwrap();
    assert_eq!(bytes_range(Some(&r), 10).ok(), Some((0, 5)));
    let r = Range::decode(b"bytes=5-").unwrap();
    assert_eq!(bytes_range(Some(&r), 10).ok(), Some((5, 10)));
    let r = Range::decode(b"bytes=-3").unwrap();
    assert_eq!(bytes_range(Some(&r), 10).ok(), Some((7, 10)));
    let r = Range::decode(b"bytes=20-30").unwrap();
    assert!(bytes_range(Some(&r), 10).is_err());
    assert_eq!(bytes_range(None, 10).ok(), Some((0, 10)));
    assert!(Range::decode(b"items=0-4").is_none());
}

#[test]
fn bounds_turn_into_offsets() {
    assert_eq!(bounds_to_range(None, 7).ok(), Some((0, 7)));
    assert_eq!(bounds_to_range(Some((Bound::Included(2), Bound::Included(4))), 7).ok(), Some((2, 5)));
    assert_eq!(bounds_to_range(Some((Bound::Excluded(2), Bound::Unbounded)), 7).ok(), Some((3, 7)));
    assert_eq!(bounds_to_range(Some((Bound::Included(0), Bound::Included(7))), 7).ok(), Some((0, 7)));
    assert!(bounds_to_range(Some((Bound::Included(5), Bound::Excluded(5))), 7).is_err());
    assert!(bounds_to_range(Some((Bound::Included(0), Bound::Excluded(8))), 7).is_err());
}

// ===== conditionals =====

#[test]
fn entity_tags_compare_strongly_and_weakly() {
    let a = EntityTag::parse(b"\"xyz\"").unwrap();
    let b = EntityTag::parse(b"W/\"xyz\"").unwrap();
    assert!(a.strong_eq(&a));
    assert!(!a.strong_eq(&b));
    assert!(a.weak_eq(&b));
    assert_eq!(b.as_bytes(), b"W/\"xyz\"");
    assert!(EntityTag::parse(b"xyz").is_none());
    assert!(EntityTag::parse(b"\"a\"b\"").is_none());
    let any = EntityTagRange::parse(b"*");
    assert!(any.matches_strong(&a));
    let list = EntityTagRange::parse(b"\"abc\", W/\"xyz\"");
    assert!(list.matches_weak(&a));
    assert!(!list.matches_strong(&a));
}

#[test]
fn if_none_match_answers_not_modified_with_the_tag() {
    let r = route(b"GET", "/f", &[("if-none-match", "\"v1\"")]);
    let tag = EntityTag::parse(b"\"v1\"").unwrap();
    let mut cfg = HeaderMap::new();
    cfg.insert("cache-control", b"max-age=60");
    match conditionals(&r).check(&cfg, Some(&tag), Some(100)) {
        Cond::NoBody(resp) => {
            assert_eq!(resp.status, 304);
            assert_eq!(text(resp.headers.get("etag")).as_deref(), Some("\"v1\""));
            assert_eq!(text(resp.headers.get("cache-control")).as_deref(), Some("max-age=60"));
        }
        Cond::WithBody(_) => panic!("expected 304"),
    }
}

#[test]
fn if_match_failing_is_precondition_failed() {
    let r = route(b"GET", "/f", &[("if-match", "\"other\"")]);
    let tag = EntityTag::parse(b"\"v1\"").unwrap();
    match conditionals(&r).check(&HeaderMap::new(), Some(&tag), None) {
        Cond::NoBody(resp) => assert_eq!(resp.status, 412),
        Cond::WithBody(_) => panic!("expected 412"),
    }
}

#[test]
fn if_modified_since_uses_http_dates() {
    // 784111777 is Sun, 06 Nov 1994 08:49:37 GMT
    let r = route(b"GET", "/f", &[("if-modified-since", "Sun, 06 Nov 1994 08:49:37 GMT")]);
    let c = conditionals(&r);
    assert_eq!(c.if_modified_since, Some(784111777));
    match c.check(&HeaderMap::new(), None, Some(784111777)) {
        Cond::NoBody(resp) => assert_eq!(resp.status, 304),
        Cond::WithBody(_) => panic!("not modified since"),
    }
    let r = route(b"GET", "/f", &[("if-modified-since", "Sun, 06 Nov 1994 08:49:37 GMT")]);
    assert!(matches!(conditionals(&r).check(&HeaderMap::new(), None, Some(784111778)), Cond::WithBody(None)));
}

#[test]
fn if_unmodified_since_older_is_precondition_failed() {
    let r = route(b"GET", "/f", &[("if-unmodified-since", "Sun, 06 Nov 1994 08:49:37 GMT")]);
    match conditionals(&r).check(&HeaderMap::new(), None, Some(784111778)) {
        Cond::NoBody(resp) => assert_eq!(resp.status, 412),
        Cond::WithBody(_) => panic!("modified since"),
    }
}

#[test]
fn if_range_that_no_longer_matches_sends_everything() {
    let r = route(b"GET", "/f", &[("if-range", "\"old\""), ("range", "bytes=0-1")]);
    let tag = EntityTag::parse(b"\"new\"").unwrap();
    assert!(matches!(conditionals(&r).check(&HeaderMap::new(), Some(&tag), None), Cond::WithBody(None)));
    let r = route(b"GET", "/f", &[("if-range", "\"new\""), ("range", "bytes=0-1")]);
    assert!(matches!(conditionals(&r).check(&HeaderMap::new(), Some(&tag), None), Cond::WithBody(Some(_))));
    let ir = IfRange::parse(b"Sun, 06 Nov 1994 08:49:37 GMT").unwrap();
    assert!(ir.is_modified(None, Some(784111778)));
    assert!(!ir.is_modified(None, Some(784111777)));
}

// ===== responses =====

#[test]
fn partial_response_names_its_range() {
    let r = route(b"GET", "/f", &[("range", "bytes=0-4")]);
    let c = conditionals(&r).check(&HeaderMap::new(), None, Some(0));
    let resp = file_response(c, &config(), b"text/plain", 10, None, Some(0), 4096);
    assert_eq!(resp.status, 206);
    assert_eq!(text(resp.headers.get("content-range")).as_deref(), Some("bytes 0-4/10"));
    assert_eq!(text(resp.headers.get("content-length")).as_deref(), Some("5"));
    assert_eq!(text(resp.headers.get("content-type")).as_deref(), Some("text/plain"));
    assert_eq!(text(resp.headers.get("accept-ranges")).as_deref(), Some("bytes"));
    assert_eq!(text(resp.headers.get("last-modified")).as_deref(), Some("Thu, 01 Jan 1970 00:00:00 GMT"));
    assert!(matches!(resp.body, Body::FileRange { start: 0, end: 5, .. }));
}

#[test]
fn whole_response_with_etag_and_extra_header() {
    let cfg = config().etag(true).last_modified(false).add_header("x-served-by", b"warp");
    let tag = EntityTag::parse(b"\"v1\"").unwrap();
    let resp = file_response(Cond::WithBody(None), &cfg, b"text/html", 20000, Some(&tag), Some(5), 0);
    assert_eq!(resp.status, 200);
    assert_eq!(resp.headers.get("content-range"), None);
    assert_eq!(resp.headers.get("last-modified"), None);
    assert_eq!(text(resp.headers.get("etag")).as_deref(), Some("\"v1\""));
    assert_eq!(text(resp.headers.get("x-served-by")).as_deref(), Some("warp"));
    match resp.body {
        Body::FileRange { start, end, buf_size } => {
            assert_eq!((start, end), (0, 20000));
            assert_eq!(buf_size, 8192);
        }
        _ => panic!("expected a file body"),
    }
}

#[test]
fn unsatisfiable_range_is_416() {
    let r = route(b"GET", "/f", &[("range", "bytes=50-60")]);
    let c = conditionals(&r).check(&HeaderMap::new(), None, None);
    let resp = file_response(c, &config(), b"text/plain", 10, None, None, 0);
    assert_eq!(resp.status, 416);
    assert_eq!(text(resp.headers.get("content-range")).as_deref(), Some("bytes */10"));
    assert!(matches!(resp.body, Body::Empty));
}

#[test]
fn content_types_are_guessed_or_configured() {
    assert_eq!(resolve_content_type(&config(), "/var/www/index.html"), Some(b"text/html".to_vec()));
    assert_eq!(
        resolve_content_type(&config(), "/var/www/blob.unknownext"),
        Some(b"application/octet-stream".to_vec())
    );
    let cfg = config().content_type(Some("application/json".to_string()));
    assert_eq!(resolve_content_type(&cfg, "/x.html"), Some(b"application/json".to_vec()));
    let cfg = config().content_type(Some("not a type".to_string()));
    assert_eq!(resolve_content_type(&cfg, "/x.html"), None);
}

#[test]
fn buffer_sizes() {
    assert_eq!(get_block_size(0), 8192);
    assert_eq!(get_block_size(65536), 65536);
    assert_eq!(optimal_buf_size(65536, 100), 100);
    assert_eq!(optimal_buf_size(0, 1_000_000), 8192);
}

#[test]
fn stream_chunks() {
    assert_eq!(next_chunk(10, 4), Some((4, 6)));
    assert_eq!(next_chunk(3, 8192), Some((3, 0)));
    assert_eq!(next_chunk(10, 0), None);
}

#[test]
fn file_tags_are_weak_tags_of_the_modification_time() {
    let e = modified_etag(1_700_000_000).unwrap();
    let want = format!("W/\"{:02X?}\"", std::time::Duration::from_secs(1_700_000_000));
    assert_eq!(e.as_bytes(), want.as_bytes());
    assert!(!e.strong_eq(&e));
    assert!(file_etag(&config(), Some(5)).unwrap().is_none());
    let on = config().etag(true);
    assert!(file_etag(&on, None).unwrap().is_none());
    let t = file_etag(&on, Some(5)).unwrap().unwrap();
    assert_eq!(t.as_bytes(), format!("W/\"{:02X?}\"", std::time::Duration::from_secs(5)).as_bytes());
}

#[test]
fn file_reply_uses_the_adjusted_config() {
    let r = route(b"GET", "/f", &[]);
    let base = config();
    // the callback turned last-modified off and tags on
    let adjusted = config().last_modified(false).etag(true);
    let resp = file_reply(conditionals(&r), &base, Some(adjusted), "/www/a.html", 4, Some(0), 0).unwrap();
    assert_eq!(resp.status, 200);
    assert_eq!(resp.headers.get("last-modified"), None);
    let tag = format!("W/\"{:02X?}\"", std::time::Duration::from_secs(0));
    assert_eq!(text(resp.headers.get("etag")), Some(tag));
    assert_eq!(text(resp.headers.get("content-type")).as_deref(), Some("text/html"));
    // without a callback the filter's own config applies
    let resp = file_reply(conditionals(&r), &base, None, "/www/a.html", 4, Some(0), 0).unwrap();
    assert_eq!(text(resp.headers.get("last-modified")).as_deref(), Some("Thu, 01 Jan 1970 00:00:00 GMT"));
    assert_eq!(resp.headers.get("etag"), None);
}

#[test]
fn file_reply_refuses_an_invalid_configured_type() {
    let r = route(b"GET", "/f", &[]);
    let cfg = config().content_type(Some("not a type".to_string()));
    let e = file_reply(conditionals(&r), &cfg, None, "/www/a.html", 4, None, 0);
    assert!(matches!(e, Err(FileReplyError::InvalidContentType)));
    // nothing to send: no type is needed
    let r = route(b"GET", "/f", &[("range", "bytes=50-60")]);
    let resp = file_reply(conditionals(&r), &cfg, None, "/www/a.html", 4, None, 0).unwrap();
    assert_eq!(resp.status, 416);
}

#[test]
fn reserve_reports_the_room_it_leaves() {
    let mut buf = bytes::BytesMut::new();
    let c = reserve_at_least(&mut buf, 100);
    assert!(c >= 100);
    assert_eq!(c, buf.capacity());
    assert_eq!(buf.len(), 0);
}
