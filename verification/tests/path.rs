use warp::filters::path::{end, full, param, path, peek, tail};
use warp::header_map::HeaderMap;
use warp::reject::Rejection;
use warp::request::{Method, Request, Version};
use warp::route::Route;

fn route(p: &str) -> Route {
    Route::new(Request {
        method: Method::get(),
        path: p.to_string(),
        query: None,
        authority: None,
        version: Version::Http11,
        headers: HeaderMap::new(),
        body: None,
        remote_addr: None,
        peer_certificates: None,
    })
}

#[test]
fn path_matches_segments_in_turn() {
    let mut r = route("/hello/from/warp");
    assert!(path(&mut r, "hello").is_ok());
    assert!(path(&mut r, "from").is_ok());
    assert_eq!(r.path(), "warp");
    assert!(path(&mut r, "warp").is_ok());
    assert!(end(&r).is_ok());
}

#[test]
fn rejected_segment_leaves_the_route_as_it_was() {
    let mut r = route("/hello/world");
    let before = r.matched_path_index();
    assert!(matches!(path(&mut r, "bye"), Err(Rejection::NotFound)));
    assert_eq!(r.matched_path_index(), before);
    assert_eq!(r.path(), "hello/world");
}

#[test]
fn param_parses_a_segment() {
    let mut r = route("/sum/3/4");
    assert!(path(&mut r, "sum").is_ok());
    let a = param(&mut r, |s: &str| s.parse::<u32>().ok()).unwrap().0;
    let b = param(&mut r, |s: &str| s.parse::<u32>().ok()).unwrap().0;
    assert_eq!(a + b, 7);
    assert!(end(&r).is_ok());
}

#[test]
fn param_rejects_what_does_not_parse_and_empty_segments() {
    let mut r = route("/abc");
    assert!(matches!(param(&mut r, |s: &str| s.parse::<u32>().ok()), Err(Rejection::NotFound)));
    assert_eq!(r.path(), "abc");
    let mut r = route("//x");
    assert!(matches!(param(&mut r, |s: &str| Some(s.to_string())), Err(Rejection::NotFound)));
}

#[test]
fn tail_takes_the_rest_and_then_end_matches() {
    let mut r = route("/static/css/app.css");
    assert!(path(&mut r, "static").is_ok());
    let t = tail(&mut r);
    assert_eq!(t.as_str(), "css/app.css");
    assert!(end(&r).is_ok());
}

#[test]
fn peek_does_not_consume() {
    let mut r = route("/a//b/c/");
    assert!(path(&mut r, "a").is_ok());
    let p = peek(&r);
    assert_eq!(p.as_str(), "/b/c/");
    assert_eq!(p.segments(), vec!["b", "c"]);
    assert_eq!(r.path(), "/b/c/");
    assert_eq!(full(&r).as_str(), "/a//b/c/");
}

#[test]
fn end_rejects_when_path_is_left() {
    let r = route("/x");
    assert!(matches!(end(&r), Err(Rejection::NotFound)));
    let r = route("/");
    assert!(end(&r).is_ok());
}

#[test]
fn old_style_const_filter_cuts_the_piece() {
    let c = warp::path::exact("/foo");
    let mut p = "/foo/bar".to_string();
    assert_eq!(c.try_filter(&mut p), Some(true));
    assert_eq!(p, "/bar");
    let mut q = "/baz".to_string();
    assert!(!c.filter(&mut q));
    assert_eq!(q, "/baz");
    let idx = warp::path::index();
    let mut r = "/".to_string();
    assert!(idx.filter(&mut r));
    assert_eq!(r, "/");
}

#[test]
fn old_style_extract_reads_second_piece() {
    let e = warp::path::path::<u64>();
    assert_eq!(e.filter("/42/x", |s: &str| s.parse().ok()), Some(42));
    assert_eq!(e.filter("nothing", |s: &str| s.parse().ok()), None);
    let e2 = warp::filter::paths::path::<u64>();
    assert!(matches!(e2.filter("/7", |s: &str| s.parse().ok()), warp::filter::paths::FilterResult::Matched(7)));
}
