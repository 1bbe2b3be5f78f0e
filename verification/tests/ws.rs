use warp::filters::ws::{ws, Message, MissingConnectionUpgrade};
use warp::header_map::HeaderMap;
use warp::reject::{Known, Rejection};
use warp::request::{Method, Request, Version};
use warp::route::Route;

fn request(method: &[u8], pairs: &[(&str, &str)]) -> Route {
    let mut map = HeaderMap::new();
    for (k, v) in pairs {
        map.append(k, v.as_bytes());
    }
    Route::new(Request {
        method: Method::from_bytes(method).unwrap(),
        path: "/chat".to_string(),
        query: None,
        authority: None,
        version: Version::Http11,
        headers: map,
        body: None,
        remote_addr: None,
        peer_certificates: None,
    })
}

const KEY: &str = "dGhlIHNhbXBsZSBub25jZQ==";

fn upgrade_headers() -> Vec<(&'static str, &'static str)> {
    vec![
        ("connection", "keep-alive, Upgrade"),
        ("upgrade", "WebSocket"),
        ("sec-websocket-version", "13"),
        ("sec-websocket-key", KEY),
    ]
}

fn text(v: Option<&Vec<u8>>) -> Option<String> {
    v.map(|b| String::from_utf8(b.clone()).unwrap())
}

#[test]
fn upgrade_is_accepted_with_the_key_answered() {
    let w = ws(&request(b"GET", &upgrade_headers())).unwrap();
    assert_eq!(w.key(), KEY.as_bytes());
    assert!(w.config().is_none());
    let resp = w.upgrade_response();
    assert_eq!(resp.status, 101);
    assert_eq!(text(resp.headers.get("connection")).as_deref(), Some("upgrade"));
    assert_eq!(text(resp.headers.get("upgrade")).as_deref(), Some("websocket"));
    assert_eq!(
        text(resp.headers.get("sec-websocket-accept")).as_deref(),
        Some("s3pPLMBiTxaQ9kYGzzhZRbK+xOo=")
    );
}

#[test]
fn upgrade_needs_get() {
    let r = ws(&request(b"POST", &upgrade_headers()));
    assert!(matches!(r, Err(Rejection::MethodNotAllowed)));
}

#[test]
fn upgrade_needs_connection_upgrade() {
    let mut h = upgrade_headers();
    h[0] = ("connection", "keep-alive");
    match ws(&request(b"GET", &h)) {
        Err(e) => {
            assert!(matches!(e, Rejection::Known(Known::MissingConnectionUpgrade)));
            assert_eq!(e.status(), 400);
        }
        Ok(_) => panic!("no upgrade was asked for"),
    }
    h.remove(0);
    assert!(matches!(ws(&request(b"GET", &h)), Err(Rejection::BadRequest)));
}

#[test]
fn upgrade_needs_websocket_version_13_and_key() {
    let mut h = upgrade_headers();
    h[1] = ("upgrade", "h2c");
    assert!(matches!(ws(&request(b"GET", &h)), Err(Rejection::BadRequest)));
    let mut h = upgrade_headers();
    h[2] = ("sec-websocket-version", "8");
    assert!(matches!(ws(&request(b"GET", &h)), Err(Rejection::BadRequest)));
    let mut h = upgrade_headers();
    h.pop();
    assert!(matches!(ws(&request(b"GET", &h)), Err(Rejection::BadRequest)));
}

#[test]
fn settings_are_kept_together() {
    let w = ws(&request(b"GET", &upgrade_headers())).unwrap();
    let w = w.max_send_queue(8).max_message_size(1024).max_frame_size(512);
    let c = w.config().unwrap();
    assert_eq!(c.max_send_queue, Some(8));
    assert_eq!(c.max_message_size, Some(1024));
    assert_eq!(c.max_frame_size, Some(512));
    let reply = w.on_upgrade(5u8);
    let (w, f) = reply.into_parts();
    assert_eq!(f, 5u8);
    assert_eq!(w.key(), KEY.as_bytes());
}

#[test]
fn missing_connection_upgrade_message() {
    assert_eq!(MissingConnectionUpgrade.message(), "Connection header did not include 'upgrade'");
}

#[test]
fn message_kinds() {
    let t = Message::text("hello".to_string());
    assert!(t.is_text() && !t.is_binary() && !t.is_close());
    assert_eq!(t.to_str(), Ok("hello"));
    assert_eq!(t.as_bytes(), b"hello");
    assert_eq!(t.into_bytes(), b"hello".to_vec());

    let b = Message::binary(vec![1, 2, 3]);
    assert!(b.is_binary());
    assert!(b.to_str().is_err());
    assert_eq!(b.as_bytes(), &[1, 2, 3]);

    assert!(Message::ping(vec![9]).is_ping());
    assert!(Message::pong(vec![9]).is_pong());

    let c = Message::close();
    assert!(c.is_close());
    assert_eq!(c.close_frame(), None);
    assert!(c.as_bytes().is_empty());

    let cw = Message::close_with(1000u16, "bye".to_string());
    assert!(cw.is_close());
    assert_eq!(cw.close_frame(), Some((1000, "bye")));
    assert!(cw.as_bytes().is_empty());
    assert_eq!(cw.into_bytes(), b"bye".to_vec());
}

#[test]
fn message_into_vec() {
    let v: Vec<u8> = Message::text("hi".to_string()).into();
    assert_eq!(v, b"hi".to_vec());
    let v = Vec::<u8>::from(Message::close_with(1000u16, "bye".to_string()));
    assert_eq!(v, b"bye".to_vec());
    let v: Vec<u8> = Message::close().into();
    assert!(v.is_empty());
}

#[test]
fn a_clone_carries_the_same_bytes() {
    let m = Message::close_with(1001u16, "away".to_string());
    let c = m.clone();
    assert_eq!(c, m);
    assert_eq!(Vec::<u8>::from(c), m.into_bytes());
    let t = Message::text("x".to_string());
    assert_eq!(t.clone().as_bytes(), t.as_bytes());
}
