use bytes::BytesMut;
use std::path::Path;
use warp::filters::fs::{reserve_at_least, sanitize_path};

#[test]
fn test_sanitize_path() {
    let base = "/var/www";

    fn p(s: &str) -> &Path {
        s.as_ref()
    }

    assert_eq!(
        Path::new(&sanitize_path(base, "/foo.html").unwrap()),
        p("/var/www/foo.html")
    );

    // bad paths
    sanitize_path(base, "/../foo.html").expect_err("dot dot");

    sanitize_path(base, "/C:\\/foo.html").expect_err("C:\\");
}

#[test]
fn test_reserve_at_least() {
    let mut buf = BytesMut::new();
    let cap = 8_192;

    assert_eq!(buf.len(), 0);
    assert_eq!(buf.capacity(), 0);

    reserve_at_least(&mut buf, cap);
    assert_eq!(buf.len(), 0);
    assert_eq!(buf.capacity(), cap);
}
