use warp::reject::{self, Known, Rejection};
use warp::reply::Reply;
use warp::text::{
    bytes_eq_ignore_ascii_case, find_char, parse_u64, starts_with, to_ascii_lowercase, u64_to_decimal,
};

#[test]
fn decimal_round_trip() {
    for n in [0u64, 7, 10, 42, 1000, 65535, u64::MAX] {
        let d = u64_to_decimal(n);
        assert_eq!(String::from_utf8(d.clone()).unwrap(), n.to_string());
        assert_eq!(parse_u64(&d), Some(n));
    }
}

#[test]
fn parse_u64_as_std_does() {
    assert_eq!(parse_u64(b"+5"), Some(5));
    assert_eq!(parse_u64(b"007"), Some(7));
    assert_eq!(parse_u64(b""), None);
    assert_eq!(parse_u64(b"+"), None);
    assert_eq!(parse_u64(b"-1"), None);
    assert_eq!(parse_u64(b"1 "), None);
    assert_eq!(parse_u64(b"18446744073709551616"), None);
    assert_eq!(parse_u64(b"18446744073709551615"), Some(u64::MAX));
}

#[test]
fn small_text_helpers() {
    assert_eq!(to_ascii_lowercase("Content-Type"), "content-type");
    assert!(bytes_eq_ignore_ascii_case(b"UpGrade", b"upgrade"));
    assert!(!bytes_eq_ignore_ascii_case(b"upgrade", b"upgrades"));
    assert!(starts_with("/static/app.js", "/static"));
    assert!(!starts_with("/st", "/static"));
    assert_eq!(find_char("a=b=c", 0, '='), Some(1));
    assert_eq!(find_char("a=b=c", 2, '='), Some(3));
    assert_eq!(find_char("abc", 0, '='), None);
}

#[test]
fn rejection_statuses() {
    assert_eq!(reject::not_found().status(), 404);
    assert_eq!(reject::method_not_allowed().status(), 405);
    assert_eq!(reject::bad_request().status(), 400);
    assert_eq!(reject::unauthorized().status(), 401);
    assert_eq!(reject::length_required().status(), 411);
    assert_eq!(reject::payload_too_large().status(), 413);
    assert_eq!(reject::unsupported_media_type().status(), 415);
    assert_eq!(reject::invalid_query().status(), 400);
    assert_eq!(reject::invalid_header("x").status(), 400);
    assert_eq!(reject::missing_cookie("c").status(), 400);
    assert_eq!(reject::known(Known::FileOpenError).status(), 500);
    assert_eq!(reject::known(Known::FilePermissionError).status(), 403);
}

#[test]
fn combine_prefers_the_better_explanation() {
    // 404 gives way to anything
    assert_eq!(Rejection::NotFound.combine(Rejection::Unauthorized).status(), 401);
    assert_eq!(Rejection::Unauthorized.combine(Rejection::NotFound).status(), 401);
    // then 405
    assert_eq!(Rejection::MethodNotAllowed.combine(Rejection::BadRequest).status(), 400);
    assert_eq!(Rejection::BadRequest.combine(Rejection::MethodNotAllowed).status(), 400);
    assert_eq!(Rejection::NotFound.combine(Rejection::MethodNotAllowed).status(), 405);
    // then the higher status
    assert_eq!(Rejection::BadRequest.combine(Rejection::PayloadTooLarge).status(), 413);
    assert_eq!(Rejection::PayloadTooLarge.combine(Rejection::BadRequest).status(), 413);
    // on a tie the first is kept
    match Rejection::InvalidQuery.combine(Rejection::BadRequest) {
        Rejection::InvalidQuery => {}
        _ => panic!("the first of two equal rejections is kept"),
    }
}

#[test]
fn rejection_answers_with_its_status() {
    let resp = Rejection::PayloadTooLarge.into_response();
    assert_eq!(resp.status, 413);
    assert_eq!(resp.headers.len(), 0);
}
