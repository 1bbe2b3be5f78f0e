use warp::filter::Polled;
use warp::filters::multipart::{form, Part, DEFAULT_FORM_DATA_MAX_LENGTH};
use warp::filters::reply::{default_header, header};
use warp::filters::{addr, any, ext, mtls, none};
use warp::header_map::HeaderMap;
use warp::reject::{Known, Rejection};
use warp::reply::Response;
use warp::request::{Method, Request, Version};
use warp::route::Route;

fn route(pairs: &[(&str, &str)], body: Option<&[u8]>) -> Route {
    let mut map = HeaderMap::new();
    for (k, v) in pairs {
        map.append(k, v.as_bytes());
    }
    Route::new(Request {
        method: Method::post(),
        path: "/upload".to_string(),
        query: None,
        authority: None,
        version: Version::Http11,
        headers: map,
        body: body.map(|b| b.to_vec()),
        remote_addr: Some("10.0.0.1:443".to_string()),
        peer_certificates: Some(vec![vec![1, 2, 3]]),
    })
}

fn text(v: Option<&Vec<u8>>) -> Option<String> {
    v.map(|b| String::from_utf8(b.clone()).unwrap())
}

#[test]
fn header_replaces_and_default_header_keeps() {
    let mut resp = Response::new_empty();
    resp.headers.insert("server", b"old");
    let r = header("server", "warp").decorate(resp);
    assert_eq!(text(r.headers.get("server")).as_deref(), Some("warp"));
    assert_eq!(r.headers.len(), 1);

    let mut resp = Response::new_empty();
    resp.headers.insert("server", b"old");
    let r = default_header("server", "warp").decorate(resp);
    assert_eq!(text(r.headers.get("server")).as_deref(), Some("old"));

    let r = default_header("server", "warp").decorate(Response::new_empty());
    assert_eq!(text(r.headers.get("server")).as_deref(), Some("warp"));
}

#[test]
fn extensions() {
    let v = 5u32;
    assert_eq!(ext::get(Some(&v)).unwrap(), 5);
    let e = ext::get::<u32>(None).unwrap_err();
    assert!(matches!(e, Rejection::Known(Known::MissingExtension)));
    assert_eq!(e.status(), 500);
    assert_eq!(ext::optional(Some(&v)), Some(5));
    assert_eq!(ext::optional::<u32>(None), None);
    let p = ext::provide(9u8).wrap(());
    let (data, inner) = p.filter();
    assert_eq!(data, 9);
    assert_eq!(*inner, ());
}

#[test]
fn multipart_form_checks_length_then_boundary() {
    assert_eq!(DEFAULT_FORM_DATA_MAX_LENGTH, 2 * 1024 * 1024);
    let f = form();
    let mut r = route(
        &[("content-length", "4"), ("content-type", "multipart/form-data; boundary=xyz")],
        Some(b"data"),
    );
    let (boundary, body) = f.filter(&mut r).unwrap();
    assert_eq!(boundary, "xyz");
    assert_eq!(body, b"data".to_vec());

    let mut r = route(&[("content-type", "multipart/form-data; boundary=xyz")], Some(b"data"));
    assert!(matches!(f.filter(&mut r), Err(Rejection::LengthRequired)));

    let small = form().max_length(3);
    let mut r = route(
        &[("content-length", "4"), ("content-type", "multipart/form-data; boundary=xyz")],
        Some(b"data"),
    );
    assert!(matches!(small.filter(&mut r), Err(Rejection::PayloadTooLarge)));

    let mut r = route(&[("content-length", "4"), ("content-type", "multipart/form-data")], Some(b"data"));
    match f.filter(&mut r) {
        Err(Rejection::InvalidHeader(h)) => assert_eq!(h, "content-type"),
        _ => panic!("a form without boundary is refused"),
    }

    let mut r = route(&[("content-length", "4")], Some(b"data"));
    assert!(matches!(f.filter(&mut r), Err(Rejection::BadRequest)));
}

#[test]
fn small_request_filters() {
    let r = route(&[], None);
    assert_eq!(addr::remote(&r).as_deref(), Some("10.0.0.1:443"));
    assert_eq!(mtls::peer_certificates(&r), Some(vec![vec![1u8, 2, 3]]));
    assert!(matches!(none::none(&r), Err(Rejection::NotFound)));
    assert!(matches!(any::any().filter().poll(), Polled::Ready(())));
}

#[test]
fn multipart_part_names() {
    let p = Part::new("avatar".to_string(), Some("me.png".to_string()), Some("image/png".to_string()));
    assert_eq!(p.name(), "avatar");
    assert_eq!(p.filename(), Some("me.png"));
    assert_eq!(p.content_type(), Some("image/png"));
    let q = Part::new("field".to_string(), None, None);
    assert_eq!(q.filename(), None);
    assert_eq!(q.content_type(), None);
}
