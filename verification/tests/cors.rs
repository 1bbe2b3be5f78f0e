use warp::filters::cors::{cors, CorsDecision, Forbidden};
use warp::header_map::HeaderMap;
use warp::reject::{Known, Rejection};
use warp::reply::{Reply, Response};
use warp::request::{Method, Request, Version};
use warp::route::Route;

fn request(method: &[u8], headers: &[(&str, &str)]) -> Route {
    let mut map = HeaderMap::new();
    for (k, v) in headers {
        map.append(k, v.as_bytes());
    }
    Route::new(Request {
        method: Method::from_bytes(method).unwrap(),
        path: "/".to_string(),
        query: None,
        authority: None,
        version: Version::Http11,
        headers: map,
        body: None,
        remote_addr: None,
        peer_certificates: None,
    })
}

fn header(resp: &Response, name: &str) -> Option<String> {
    resp.headers.get(name).map(|v| String::from_utf8(v.clone()).unwrap())
}

#[test]
fn preflight_is_answered_by_the_filter() {
    let c = cors().allow_methods(&["GET", "POST"]).allow_header("X-Foo").max_age(30u32);
    let f = c.wrap(());
    let route = request(
        b"OPTIONS",
        &[
            ("origin", "https://hyper.rs"),
            ("access-control-request-method", "GET"),
            ("access-control-request-headers", "x-foo"),
        ],
    );
    match f.filter(&route) {
        CorsDecision::Preflight(p) => {
            let resp = p.into_response();
            assert_eq!(resp.status, 200);
            assert_eq!(header(&resp, "access-control-allow-origin").as_deref(), Some("https://hyper.rs"));
            assert_eq!(header(&resp, "access-control-allow-methods").as_deref(), Some("GET, POST"));
            assert_eq!(header(&resp, "access-control-allow-headers").as_deref(), Some("x-foo"));
            assert_eq!(header(&resp, "access-control-max-age").as_deref(), Some("30"));
            assert_eq!(header(&resp, "access-control-allow-credentials"), None);
        }
        _ => panic!("expected a preflight answer"),
    }
}

#[test]
fn preflight_answer_lists_no_headers_as_empty_value() {
    let f = cors().allow_method("GET").wrap(());
    let route = request(
        b"OPTIONS",
        &[("origin", "https://a.example"), ("access-control-request-method", "GET")],
    );
    match f.filter(&route) {
        CorsDecision::Preflight(p) => {
            let resp = p.into_response();
            assert_eq!(header(&resp, "access-control-allow-headers").as_deref(), Some(""));
        }
        _ => panic!("expected a preflight answer"),
    }
}

#[test]
fn origin_not_in_list_is_refused() {
    let c = cors().try_allow_origin("https://hyper.rs").ok().unwrap();
    let f = c.wrap(());
    let route = request(b"GET", &[("origin", "https://evil.example")]);
    match f.filter(&route) {
        CorsDecision::Reject(r) => {
            assert_eq!(r.status(), 403);
            match r {
                Rejection::Known(Known::CorsForbidden(k)) => {
                    assert_eq!(k.kind(), Forbidden::OriginNotAllowed);
                    assert_eq!(k.message(), "CORS request forbidden: origin not allowed");
                }
                _ => panic!("expected a CORS rejection"),
            }
        }
        _ => panic!("expected a refusal"),
    }
}

#[test]
fn request_headers_are_split_without_trimming() {
    let f = cors().allow_method("GET").allow_headers(&["x-foo", "x-bar"]).wrap(());
    let route = request(
        b"OPTIONS",
        &[
            ("origin", "https://a.example"),
            ("access-control-request-method", "GET"),
            ("access-control-request-headers", "x-foo, x-bar"),
        ],
    );
    match f.filter(&route) {
        CorsDecision::Reject(Rejection::Known(Known::CorsForbidden(k))) => {
            assert_eq!(k.kind(), Forbidden::HeaderNotAllowed);
            assert_eq!(k.message(), "CORS request forbidden: header not allowed");
        }
        _ => panic!("expected a refusal"),
    }
    let route = request(
        b"OPTIONS",
        &[
            ("origin", "https://a.example"),
            ("access-control-request-method", "GET"),
            ("access-control-request-headers", "x-foo,x-bar"),
        ],
    );
    assert!(matches!(f.filter(&route), CorsDecision::Preflight(_)));
}

#[test]
fn preflight_with_unallowed_method_is_refused() {
    let f = cors().allow_method("GET").wrap(());
    let route = request(
        b"OPTIONS",
        &[("origin", "https://a.example"), ("access-control-request-method", "DELETE")],
    );
    match f.filter(&route) {
        CorsDecision::Reject(Rejection::Known(Known::CorsForbidden(k))) => {
            assert_eq!(k.kind(), Forbidden::MethodNotAllowed);
            assert_eq!(k.message(), "CORS request forbidden: request-method not allowed");
        }
        _ => panic!("expected a refusal"),
    }
    let route = request(b"OPTIONS", &[("origin", "https://a.example")]);
    assert!(matches!(f.filter(&route), CorsDecision::Reject(_)));
}

#[test]
fn simple_request_reply_is_wrapped() {
    let f = cors().allow_credentials(true).expose_headers(&["X-A", "x-b"]).wrap(());
    let route = request(b"GET", &[("origin", "https://a.example")]);
    match f.filter(&route) {
        CorsDecision::Inner(origin) => {
            let mut inner = Response::new_empty();
            inner.status = 201;
            match f.wrap_reply(origin, inner) {
                warp::generic::Either::A(w) => {
                    let resp = w.into_response();
                    assert_eq!(resp.status, 201);
                    assert_eq!(header(&resp, "access-control-allow-origin").as_deref(), Some("https://a.example"));
                    assert_eq!(header(&resp, "access-control-allow-credentials").as_deref(), Some("true"));
                    assert_eq!(header(&resp, "access-control-expose-headers").as_deref(), Some("x-a, x-b"));
                }
                _ => panic!("expected a wrapped reply"),
            }
        }
        _ => panic!("expected the inner filter to run"),
    }
}

#[test]
fn request_without_origin_is_not_cors() {
    let f = cors().try_allow_origin("https://hyper.rs").ok().unwrap().wrap(());
    let route = request(b"GET", &[]);
    match f.filter(&route) {
        CorsDecision::Inner(None) => {
            let resp = Response::new_empty();
            assert!(matches!(f.wrap_reply(None, resp), warp::generic::Either::B(_)));
        }
        _ => panic!("expected the inner filter to run unwrapped"),
    }
}

#[test]
fn allowing_twice_is_allowing_once() {
    let f = cors().allow_methods(&["GET", "GET", "POST", "GET"]).wrap(());
    let route = request(
        b"OPTIONS",
        &[("origin", "https://a.example"), ("access-control-request-method", "POST")],
    );
    match f.filter(&route) {
        CorsDecision::Preflight(p) => {
            let resp = p.into_response();
            assert_eq!(header(&resp, "access-control-allow-methods").as_deref(), Some("GET, POST"));
        }
        _ => panic!("expected a preflight answer"),
    }
}

#[test]
fn invalid_origin_is_refused_by_try_allow_origin() {
    assert!(cors().try_allow_origin("hyper.rs").is_err());
    assert!(cors().try_allow_origin("https://hyper.rs").is_ok());
}

#[test]
fn origin_is_normalized_by_the_origin_header_type() {
    let f = cors().allow_origin("https://hyper.rs").wrap(());
    let route = request(b"GET", &[("origin", "https://hyper.rs")]);
    assert!(matches!(f.filter(&route), CorsDecision::Inner(Some(_))));
}

#[test]
fn header_names_are_validated() {
    assert!(warp::filters::cors::header_name_from_bytes(b"X-Foo") == Some(b"x-foo".to_vec()));
    assert!(warp::filters::cors::header_name_from_bytes(b"x foo").is_none());
    assert!(warp::filters::cors::header_name_from_bytes(b"").is_none());
}

#[test]
fn max_age_from_a_duration_counts_whole_seconds() {
    let f = cors()
        .allow_any_origin()
        .allow_method("GET")
        .max_age(std::time::Duration::from_millis(90_900))
        .wrap(());
    let route = request(
        b"OPTIONS",
        &[("origin", "https://hyper.rs"), ("access-control-request-method", "GET")],
    );
    match f.filter(&route) {
        CorsDecision::Preflight(p) => {
            let resp = p.into_response();
            assert_eq!(header(&resp, "access-control-max-age").as_deref(), Some("90"));
        }
        _ => panic!("expected a preflight answer"),
    }
}
