use warp::filter::Polled;
use warp::filters::compress;
use warp::filters::decompression;
use warp::filters::compression::{brotli, deflate, gzip};
use warp::filters::log::{log, request_log_line, version_str};
use warp::filters::tracing::{opt_fmt, Info};
use warp::header_map::HeaderMap;
use warp::reject::Rejection;
use warp::reply::{Body, Encoding, Reply, Response};
use warp::request::{Method, Request, Version};
use warp::route::Route;

fn route(m: &[u8], path: &str, q: Option<&str>, pairs: &[(&str, &str)]) -> Route {
    let mut map = HeaderMap::new();
    for (k, v) in pairs {
        map.append(k, v.as_bytes());
    }
    Route::new(Request {
        method: Method::from_bytes(m).unwrap(),
        path: path.to_string(),
        query: q.map(|s| s.to_string()),
        authority: None,
        version: Version::Http11,
        headers: map,
        body: None,
        remote_addr: Some("127.0.0.1:3030".to_string()),
        peer_certificates: None,
    })
}

fn text(v: Option<&Vec<u8>>) -> Option<String> {
    v.map(|b| String::from_utf8(b.clone()).unwrap())
}

// ===== gzip of whole replies =====

#[test]
fn gzip_reply_is_a_gzip_stream() {
    let mut head = Response::new_empty();
    head.headers.insert("content-type", b"text/plain");
    let data = b"hello hello hello hello".to_vec();
    let r = compress::gzip().wrap().call(head, data);
    assert_eq!(r.status, 200);
    match &r.body {
        Body::Full(v) => {
            assert_eq!(&v[..2], &[0x1f, 0x8b]);
            assert_eq!(text(r.headers.get("content-length")), Some(v.len().to_string()));
            // the body is not the input handed back
            assert_ne!(v, &b"hello hello hello hello".to_vec());
        }
        _ => panic!("expected a full body"),
    }
    assert_eq!(text(r.headers.get("content-encoding")).as_deref(), Some("gzip"));
    assert_eq!(text(r.headers.get("content-type")).as_deref(), Some("text/plain"));
}

// ===== streaming compression =====

#[test]
fn compression_marks_the_encoding() {
    let c = gzip();
    assert_eq!(c.encoding(), Encoding::Gzip);
    let r = c.compress(Response::with_body(Body::Full(b"x".to_vec())));
    assert_eq!(text(r.headers.get("content-encoding")).as_deref(), Some("gzip"));
    assert!(matches!(r.body, Body::Encoded(Encoding::Gzip, _)));
    let r = deflate().compress(Response::new_empty());
    assert_eq!(text(r.headers.get("content-encoding")).as_deref(), Some("deflate"));
    let r = brotli().compress(Response::new_empty());
    assert_eq!(text(r.headers.get("content-encoding")).as_deref(), Some("br"));
}

#[test]
fn compression_future_passes_rejections_through() {
    let w = gzip().wrap(());
    let fut = w.filter();
    let r = fut.poll::<Response>(Polled::Ready(Err(Rejection::NotFound)));
    assert!(matches!(r, Polled::Ready(Err(Rejection::NotFound))));
    let r = fut.poll::<Response>(Polled::Pending);
    assert!(matches!(r, Polled::Pending));
    let r = fut.poll(Polled::Ready(Ok(Response::new_empty())));
    match r {
        Polled::Ready(Ok((c,))) => {
            let resp = c.into_response();
            assert_eq!(text(resp.headers.get("content-encoding")).as_deref(), Some("gzip"));
        }
        _ => panic!("expected a compressed reply"),
    }
}

// ===== log =====

#[test]
fn log_line_of_a_request() {
    let r = route(b"GET", "/hello", Some("a=1"), &[]);
    assert_eq!(request_log_line(&r, 200), "\"GET /hello HTTP/1.1\" 200");
    assert_eq!(version_str(Version::Http2), "HTTP/2.0");
    assert_eq!(version_str(Version::Http10), "HTTP/1.0");
}

#[test]
fn log_future_reports_the_status() {
    let l = log("example::api");
    assert_eq!(l.name(), "example::api");
    let w = l.wrap(());
    let fut = w.filter();
    let (p, s) = fut.poll::<Response>(Polled::Ready(Err(Rejection::MethodNotAllowed)));
    assert!(matches!(p, Polled::Ready(Err(Rejection::MethodNotAllowed))));
    assert_eq!(s, Some(405));
    let mut resp = Response::new_empty();
    resp.status = 201;
    let (_, s) = fut.poll(Polled::Ready(Ok(resp)));
    assert_eq!(s, Some(201));
    let (p, s) = fut.poll::<Response>(Polled::Pending);
    assert!(matches!(p, Polled::Pending));
    assert_eq!(s, None);
}

// ===== tracing =====

#[test]
fn trace_info_of_a_request() {
    let r = route(b"POST", "/submit", None, &[("referer", "https://a.example"), ("user-agent", "curl/8")]);
    let i = Info::new(&r);
    assert_eq!(i.remote_addr(), Some("127.0.0.1:3030"));
    assert!(i.method().same(&Method::post()));
    assert_eq!(i.path(), "/submit");
    assert_eq!(i.version(), Version::Http11);
    assert_eq!(i.referer().as_deref(), Some("https://a.example"));
    assert_eq!(i.user_agent().as_deref(), Some("curl/8"));
    assert_eq!(i.host(), None);
    assert_eq!(opt_fmt(i.host()), "-");
    assert_eq!(opt_fmt(Some("x".to_string())), "x");
}

#[test]
fn decompression_drops_the_encoding_and_length() {
    let mut resp = Response::with_body(Body::Full(vec![1, 2, 3]));
    resp.headers.append("content-type", b"text/plain");
    resp.headers.append("content-encoding", b"gzip");
    resp.headers.append("content-length", b"3");
    let r = decompression::gzip().decompress(resp);
    assert_eq!(r.status, 200);
    assert_eq!(r.headers.get("content-encoding"), None);
    assert_eq!(r.headers.get("content-length"), None);
    assert_eq!(text(r.headers.get("content-type")).as_deref(), Some("text/plain"));
    assert!(matches!(r.body, Body::Decoded(Encoding::Gzip, _)));

    // another coding is left in place
    let mut resp = Response::new_empty();
    resp.headers.append("content-encoding", b"br");
    let r = decompression::gzip().decompress(resp);
    assert_eq!(text(r.headers.get("content-encoding")).as_deref(), Some("br"));
    let mut resp = Response::new_empty();
    resp.headers.append("content-encoding", b"br");
    let r = decompression::brotli().decompress(resp);
    assert_eq!(r.headers.get("content-encoding"), None);
}
