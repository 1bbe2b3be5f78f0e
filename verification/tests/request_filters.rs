use warp::filters::body::{body, content_length_limit, is_content_type, json, BodyDeserializeError};
use warp::filters::{cookie, header, host, method, query};
use warp::header_map::HeaderMap;
use warp::reject::{Known, Rejection};
use warp::request::{Method, Request, Version};
use warp::route::Route;

fn full(m: &[u8], pairs: &[(&str, &str)], q: Option<&str>, authority: Option<&str>, b: Option<&[u8]>) -> Route {
    let mut map = HeaderMap::new();
    for (k, v) in pairs {
        map.append(k, v.as_bytes());
    }
    Route::new(Request {
        method: Method::from_bytes(m).unwrap(),
        path: "/".to_string(),
        query: q.map(|s| s.to_string()),
        authority: authority.map(|s| s.to_string()),
        version: Version::Http11,
        headers: map,
        body: b.map(|x| x.to_vec()),
        remote_addr: None,
        peer_certificates: None,
    })
}

fn with_headers(pairs: &[(&str, &str)]) -> Route {
    full(b"GET", pairs, None, None, None)
}

// ===== content-length =====

#[test]
fn content_length_within_limit() {
    assert!(content_length_limit(&with_headers(&[("content-length", "5")]), 10).is_ok());
    assert!(content_length_limit(&with_headers(&[("content-length", "10")]), 10).is_ok());
}

#[test]
fn content_length_over_limit() {
    let r = content_length_limit(&with_headers(&[("content-length", "11")]), 10);
    assert!(matches!(r, Err(Rejection::PayloadTooLarge)));
    assert_eq!(r.unwrap_err().status(), 413);
}

#[test]
fn content_length_missing_or_invalid() {
    assert!(matches!(content_length_limit(&with_headers(&[]), 10), Err(Rejection::LengthRequired)));
    // `str::parse::<u64>` takes a leading `+`
    assert!(content_length_limit(&with_headers(&[("content-length", "+5")]), 10).is_ok());
    assert!(matches!(
        content_length_limit(&with_headers(&[("content-length", "-5")]), 10),
        Err(Rejection::LengthRequired)
    ));
    assert!(matches!(
        content_length_limit(&with_headers(&[("content-length", "five")]), 10),
        Err(Rejection::LengthRequired)
    ));
    // two fields that disagree
    assert!(matches!(
        content_length_limit(&with_headers(&[("content-length", "5"), ("content-length", "6")]), 10),
        Err(Rejection::LengthRequired)
    ));
    // two fields that agree
    assert!(content_length_limit(&with_headers(&[("content-length", "5"), ("content-length", "5")]), 10).is_ok());
}

// ===== content-type =====

#[test]
fn content_type_json_is_accepted() {
    let r = with_headers(&[("content-type", "application/json")]);
    assert!(is_content_type(&r, "application", "json").is_ok());
    let r = with_headers(&[("content-type", "application/json; charset=utf-8")]);
    assert!(is_content_type(&r, "application", "json").is_ok());
}

#[test]
fn content_type_absent_is_accepted() {
    assert!(is_content_type(&with_headers(&[]), "application", "json").is_ok());
}

#[test]
fn content_type_other_is_refused() {
    let r = with_headers(&[("content-type", "text/plain")]);
    assert!(matches!(is_content_type(&r, "application", "json"), Err(Rejection::UnsupportedMediaType)));
    let r = with_headers(&[("content-type", "not a mime")]);
    assert!(matches!(is_content_type(&r, "application", "json"), Err(Rejection::UnsupportedMediaType)));
}

// ===== body =====

#[test]
fn body_is_taken_once() {
    let mut r = full(b"POST", &[], None, None, Some(b"hello"));
    assert_eq!(body(&mut r).unwrap(), b"hello".to_vec());
    match body(&mut r) {
        Err(e) => {
            assert!(matches!(e, Rejection::Known(Known::BodyConsumedMultipleTimes)));
            assert_eq!(e.status(), 500);
        }
        Ok(_) => panic!("the body was already taken"),
    }
}

#[test]
fn json_body_checks_the_type_first() {
    let mut r = full(b"POST", &[("content-type", "text/html")], None, None, Some(b"{}"));
    assert!(matches!(json(&mut r), Err(Rejection::UnsupportedMediaType)));
    let mut r = full(b"POST", &[("content-type", "application/json")], None, None, Some(b"{}"));
    assert_eq!(json(&mut r).unwrap(), b"{}".to_vec());
}

#[test]
fn body_deserialize_error_message() {
    let e = BodyDeserializeError::new("expected value".to_string());
    assert_eq!(e.message(), "Request body deserialize error: expected value");
}

// ===== header =====

#[test]
fn header_parses_its_value() {
    let r = with_headers(&[("x-num", "42")]);
    let v = header::header(&r, "x-num", |s: &str| s.parse::<u32>().ok()).unwrap();
    assert_eq!(v.0, 42);
    let r = with_headers(&[("x-num", "forty")]);
    assert!(matches!(header::header(&r, "x-num", |s: &str| s.parse::<u32>().ok()), Err(Rejection::BadRequest)));
    assert!(matches!(
        header::header(&with_headers(&[]), "x-num", |s: &str| s.parse::<u32>().ok()),
        Err(Rejection::BadRequest)
    ));
}

#[test]
fn header_exact_and_ignore_case() {
    let r = with_headers(&[("accept", "*/*")]);
    assert!(header::exact(&r, "accept", "*/*").is_ok());
    assert!(matches!(header::exact(&r, "accept", "text/html"), Err(Rejection::BadRequest)));
    let r = with_headers(&[("connection", "Upgrade")]);
    assert!(header::exact_ignore_case(&r, "connection", "upgrade").is_ok());
    assert!(matches!(header::exact(&r, "connection", "upgrade"), Err(Rejection::BadRequest)));
    assert!(matches!(header::exact_ignore_case(&with_headers(&[]), "connection", "upgrade"), Err(Rejection::BadRequest)));
}

#[test]
fn header_optional_and_cloned() {
    let r = with_headers(&[("x-a", "1"), ("x-b", "2")]);
    assert_eq!(header::optional(&r, "x-b"), Some(b"2".to_vec()));
    assert_eq!(header::optional(&r, "x-c"), None);
    assert_eq!(header::headers_cloned(&r).len(), 2);
}

// ===== cookie =====

#[test]
fn cookie_is_found() {
    let r = with_headers(&[("cookie", "foo=bar; sess=abc")]);
    assert_eq!(cookie::cookie(&r, "sess").unwrap(), "abc");
    assert_eq!(cookie::cookie(&r, "foo").unwrap(), "bar");
}

#[test]
fn cookie_missing() {
    let r = with_headers(&[("cookie", "foo=bar")]);
    match cookie::cookie(&r, "sess") {
        Err(Rejection::MissingCookie(n)) => assert_eq!(n, "sess"),
        _ => panic!("expected a missing cookie"),
    }
    assert!(matches!(cookie::cookie(&with_headers(&[]), "sess"), Err(Rejection::BadRequest)));
}

#[test]
fn cookie_optional() {
    let r = with_headers(&[("cookie", "a=1"), ("cookie", "b=2")]);
    assert_eq!(cookie::optional(&r, "b"), Some("2".to_string()));
    assert_eq!(cookie::optional(&r, "c"), None);
    assert_eq!(cookie::optional(&with_headers(&[]), "c"), None);
    assert_eq!(cookie::optional_value(&r, "a", |s: &str| s.len()), Some(1));
}

// ===== host =====

#[test]
fn host_from_header_or_uri() {
    assert_eq!(host::optional(&with_headers(&[("host", "example.com:8080")])).unwrap(), Some("example.com:8080".to_string()));
    let r = full(b"GET", &[], None, Some("hyper.rs"), None);
    assert_eq!(host::optional(&r).unwrap(), Some("hyper.rs".to_string()));
    assert_eq!(host::optional(&with_headers(&[])).unwrap(), None);
}

#[test]
fn host_malformed_is_invalid_header() {
    match host::optional(&with_headers(&[("host", "bad host")])) {
        Err(Rejection::InvalidHeader(h)) => assert_eq!(h, "host"),
        _ => panic!("expected an invalid host header"),
    }
}

#[test]
fn host_exact_ignores_case() {
    let r = with_headers(&[("host", "Example.COM")]);
    assert!(host::exact(&r, "example.com").is_ok());
    assert!(matches!(host::exact(&r, "other.com"), Err(Rejection::NotFound)));
    assert!(matches!(host::exact(&with_headers(&[]), "example.com"), Err(Rejection::NotFound)));
    assert!(host::try_exact(&r, "bad host").is_none());
}

// ===== query =====

#[test]
fn query_raw_and_str() {
    let r = full(b"GET", &[], Some("a=1&b=2"), None, None);
    assert_eq!(query::raw(&r).unwrap(), "a=1&b=2");
    assert_eq!(query::query_str(&r), "a=1&b=2");
    let r = with_headers(&[]);
    assert!(matches!(query::raw(&r), Err(Rejection::InvalidQuery)));
    assert_eq!(query::query_str(&r), "");
}

// ===== method =====

#[test]
fn method_filters() {
    let r = full(b"POST", &[], None, None, None);
    assert!(method::post(&r).is_ok());
    let e = method::get(&r).unwrap_err();
    assert!(matches!(e, Rejection::MethodNotAllowed));
    assert_eq!(e.status(), 405);
    assert!(method::method(&r).same(&Method::post()));
    let r = full(b"PATCH", &[], None, None, None);
    assert!(method::patch(&r).is_ok());
    assert!(method::delete(&r).is_err());
}
