use warp::filters::auth;
use warp::filters::auth::basic::basic;
use warp::generic::Either;
use warp::header_map::HeaderMap;
use warp::reject::Rejection;
use warp::reply::Reply;
use warp::request::{Method, Request, Version};
use warp::route::Route;

fn headers(pairs: &[(&str, &str)]) -> HeaderMap {
    let mut map = HeaderMap::new();
    for (k, v) in pairs {
        map.append(k, v.as_bytes());
    }
    map
}

fn request(pairs: &[(&str, &str)]) -> Route {
    Route::new(Request {
        method: Method::get(),
        path: "/".to_string(),
        query: None,
        authority: None,
        version: Version::Http11,
        headers: headers(pairs),
        body: None,
        remote_addr: None,
        peer_certificates: None,
    })
}

#[test]
fn allowed_user_is_authorized() {
    let a = basic().realm("access".to_string()).allow("user", "pass").build();
    assert!(a.is_authorized(&headers(&[("authorization", "Basic dXNlcjpwYXNz")])));
}

#[test]
fn wrong_password_is_not_authorized() {
    let a = basic().allow("user", "pass").build();
    // base64 of "user:nope"
    assert!(!a.is_authorized(&headers(&[("authorization", "Basic dXNlcjpub3Bl")])));
}

#[test]
fn missing_or_other_scheme_is_not_authorized() {
    let a = basic().allow("user", "pass").build();
    assert!(!a.is_authorized(&headers(&[])));
    assert!(!a.is_authorized(&headers(&[("authorization", "Bearer dXNlcjpwYXNz")])));
    assert!(!a.is_authorized(&headers(&[("authorization", "Basic")])));
}

#[test]
fn second_allowed_user_is_authorized_too() {
    let a = basic().allow("user", "pass").allow("admin", "secret").build();
    // base64 of "admin:secret"
    assert!(a.is_authorized(&headers(&[("authorization", "Basic YWRtaW46c2VjcmV0")])));
}

#[test]
fn unauthorized_answer_names_the_realm() {
    let f = basic().realm("access".to_string()).allow("user", "pass").wrap(());
    match f.filter(&request(&[])) {
        Either::A(u) => {
            let resp = u.into_response();
            assert_eq!(resp.status, 401);
            let v = resp.headers.get("www-authenticate").unwrap().clone();
            assert_eq!(String::from_utf8(v).unwrap(), "Basic realm=\"access\", charset=\"UTF-8\"");
        }
        Either::B(()) => panic!("a request without credentials must not pass"),
    }
}

#[test]
fn unauthorized_answer_without_realm() {
    let f = basic().wrap(());
    match f.filter(&request(&[("authorization", "Basic dXNlcjpwYXNz")])) {
        Either::A(u) => {
            let resp = u.into_response();
            assert_eq!(resp.status, 401);
            let v = resp.headers.get("www-authenticate").unwrap().clone();
            assert_eq!(String::from_utf8(v).unwrap(), "Basic charset=\"UTF-8\"");
        }
        Either::B(()) => panic!("no one is allowed"),
    }
}

#[test]
fn authorized_request_reaches_the_inner_filter() {
    let f = basic().allow("user", "pass").wrap(7u8);
    assert_eq!(*f.inner(), 7u8);
    assert!(matches!(f.filter(&request(&[("authorization", "Basic dXNlcjpwYXNz")])), Either::B(())));
}

#[test]
fn basic_credentials_are_decoded() {
    let c = auth::basic(&request(&[("authorization", "Basic dXNlcjpwYXNz")]), "realm").unwrap();
    assert_eq!(c.username, "user");
    assert_eq!(c.password, "pass");
}

#[test]
fn basic_credentials_missing_or_malformed_are_unauthorized() {
    assert!(matches!(auth::basic(&request(&[]), "realm"), Err(Rejection::Unauthorized)));
    assert!(matches!(
        auth::basic(&request(&[("authorization", "Basic !!!")]), "realm"),
        Err(Rejection::Unauthorized)
    ));
}

#[test]
fn only_the_chain_of_allowed_users_passes() {
    let a = basic().allow("user", "1234").allow("admin", "secret").build();
    // base64 of "user:1234"
    assert!(a.is_authorized(&headers(&[("authorization", "Basic dXNlcjoxMjM0")])));
    assert!(a.is_authorized(&headers(&[("authorization", "Basic YWRtaW46c2VjcmV0")])));
    // base64 of "user:secret": a user with another user's password
    assert!(!a.is_authorized(&headers(&[("authorization", "Basic dXNlcjpzZWNyZXQ=")])));
}
