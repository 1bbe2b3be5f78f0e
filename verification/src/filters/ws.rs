//! Websockets Filters
//!
//! Which requests may be upgraded to a websocket, the response that
//! accepts the upgrade, and the messages exchanged over the socket.
use vstd::prelude::*;
use crate::csv::csv_items;
use crate::header_map::{apply_inserts, lemma_apply_inserts_push, HeaderMap};
use crate::reject::{Known, Rejection};
use crate::reply::Response;
use crate::request::Method;
use crate::route::Route;
use crate::text::{bytes_eq, bytes_eq_ignore_ascii_case, lower_bytes};
use vstd::string::StringSliceAdditionalSpecFns;
use vstd::utf8::encode_utf8;
use headers::Header;

verus! {

// ===== Messages =====

/// Represents a WebSocket message.
#[derive(Debug, PartialEq, Eq)]
pub enum Message {
    /// Regular string message.
    Text(String),
    /// Regular binary message.
    Binary(Vec<u8>),
    /// Ping message, used to check latency, typically responded to with a pong message.
    Ping(Vec<u8>),
    /// Pong message, used to check latency, typically sent in response to a ping message.
    Pong(Vec<u8>),
    /// Regular closure of the websocket, with a closure code and reason.
    Close(u16, String),
    /// An abrupt unexpected closure of the websocket.
    AbruptClose,
}

/// The bytes that a message carries: the UTF-8 encoding of a text, the data
/// of a binary, ping or pong message, the reason of a close message.
pub open spec fn message_bytes(m: &Message) -> Seq<u8> {
    match m {
        Message::Text(s) => encode_utf8(s@),
        Message::Binary(v) => v@,
        Message::Ping(v) => v@,
        Message::Pong(v) => v@,
        Message::Close(_, s) => encode_utf8(s@),
        Message::AbruptClose => Seq::empty(),
    }
}

impl Message {
    /// Construct a new Text `Message`.
    pub fn text(s: String) -> (m: Message)
        ensures
            m matches Message::Text(t) && t@ == s@,
    {
        Message::Text(s)
    }

    /// Construct a new Binary `Message`.
    pub fn binary(v: Vec<u8>) -> (m: Message)
        ensures
            m matches Message::Binary(b) && b@ == v@,
    {
        Message::Binary(v)
    }

    /// Construct a new Ping `Message`.
    pub fn ping(v: Vec<u8>) -> (m: Message)
        ensures
            m matches Message::Ping(b) && b@ == v@,
    {
        Message::Ping(v)
    }

    /// Construct a new Pong `Message`.
    ///
    /// Note that one rarely needs to construct a Pong message by hand: the
    /// socket answers the Ping messages it receives by itself.
    pub fn pong(v: Vec<u8>) -> (m: Message)
        ensures
            m matches Message::Pong(b) && b@ == v@,
    {
        Message::Pong(v)
    }

    /// Construct the default Close `Message`.
    pub fn close() -> (m: Message)
        ensures
            m is AbruptClose,
    {
        Message::AbruptClose
    }

    /// Construct a Close `Message` with a code and reason.
    pub fn close_with(code: u16, reason: String) -> (m: Message)
        ensures
            m matches Message::Close(c, r) && c == code && r@ == reason@,
    {
        Message::Close(code, reason)
    }

    /// Returns true if this message is a Text message.
    pub fn is_text(&self) -> (r: bool)
        ensures
            r == self is Text,
    {
        matches!(self, Message::Text(_))
    }

    /// Returns true if this message is a Binary message.
    pub fn is_binary(&self) -> (r: bool)
        ensures
            r == self is Binary,
    {
        matches!(self, Message::Binary(_))
    }

    /// Returns true if this message is a Close message, with or without a
    /// code and reason.
    pub fn is_close(&self) -> (r: bool)
        ensures
            r == (self is Close || self is AbruptClose),
    {
        matches!(self, Message::Close(_, _)) || matches!(self, Message::AbruptClose)
    }

    /// Returns true if this message is a Ping message.
    pub fn is_ping(&self) -> (r: bool)
        ensures
            r == self is Ping,
    {
        matches!(self, Message::Ping(_))
    }

    /// Returns true if this message is a Pong message.
    pub fn is_pong(&self) -> (r: bool)
        ensures
            r == self is Pong,
    {
        matches!(self, Message::Pong(_))
    }

    /// Try to get the close frame (close code and reason).
    pub fn close_frame(&self) -> (r: Option<(u16, &str)>)
        ensures
            match self {
                Message::Close(c, s) => r matches Some(f) && f.0 == c && f.1@ == s@,
                _ => r is None,
            },
    {
        match self {
            Message::Close(code, reason) => Some((*code, reason.as_str())),
            _ => None,
        }
    }

    /// Try to get a reference to the string text, if this is a Text message.
    pub fn to_str(&self) -> (r: Result<&str, ()>)
        ensures
            match self {
                Message::Text(s) => r matches Ok(t) && t@ == s@,
                _ => r is Err,
            },
    {
        match self {
            Message::Text(s) => Ok(s.as_str()),
            _ => Err(()),
        }
    }

    /// Return the bytes of this message, if the message can contain data;
    /// none for a close message.
    pub fn as_bytes(&self) -> (r: &[u8])
        ensures
            r@ == (if self is Close { Seq::empty() } else { message_bytes(self) }),
    {
        match self {
            Message::Text(s) => s.as_str().as_bytes(),
            Message::Binary(v) => v.as_slice(),
            Message::Ping(v) => v.as_slice(),
            Message::Pong(v) => v.as_slice(),
            _ => &[],
        }
    }

    /// Destructure this message into binary data; a close message gives
    /// its reason.
    pub fn into_bytes(self) -> (r: Vec<u8>)
        ensures
            r@ == message_bytes(&self),
    {
        match self {
            Message::Text(s) => vstd::slice::slice_to_vec(s.as_str().as_bytes()),
            Message::Binary(v) => v,
            Message::Ping(v) => v,
            Message::Pong(v) => v,
            Message::Close(_, s) => vstd::slice::slice_to_vec(s.as_str().as_bytes()),
            Message::AbruptClose => Vec::new(),
        }
    }
}

/// Whether `a` and `b` are the same message: the same kind, with the same
/// text, data, or code and reason.
pub open spec fn same_message(a: &Message, b: &Message) -> bool {
    match (a, b) {
        (Message::Text(x), Message::Text(y)) => x@ == y@,
        (Message::Binary(x), Message::Binary(y)) => x@ == y@,
        (Message::Ping(x), Message::Ping(y)) => x@ == y@,
        (Message::Pong(x), Message::Pong(y)) => x@ == y@,
        (Message::Close(c, x), Message::Close(d, y)) => c == d && x@ == y@,
        (Message::AbruptClose, Message::AbruptClose) => true,
        _ => false,
    }
}

impl Clone for Message {
    /// The same message.
    fn clone(&self) -> (r: Message)
        ensures
            same_message(self, &r),
    {
        match self {
            Message::Text(s) => Message::Text(s.clone()),
            Message::Binary(v) => Message::Binary(v.clone()),
            Message::Ping(v) => Message::Ping(v.clone()),
            Message::Pong(v) => Message::Pong(v.clone()),
            Message::Close(c, s) => Message::Close(*c, s.clone()),
            Message::AbruptClose => Message::AbruptClose,
        }
    }
}

/// A message and its clone carry the same bytes, so that the bytes of a
/// clone (by `into_bytes` or `Vec::from`) are those of the message.
pub proof fn lemma_clone_same_bytes(a: &Message, b: &Message)
    requires
        same_message(a, b),
    ensures
        message_bytes(a) == message_bytes(b),
        (a is Close) == (b is Close),
        (a is AbruptClose) == (b is AbruptClose),
{
}

impl From<Message> for Vec<u8> {
    /// The bytes of the message, as `Message::into_bytes` gives them.
    fn from(m: Message) -> (r: Vec<u8>)
        ensures
            r@ == message_bytes(&m),
    {
        m.into_bytes()
    }
}

impl vstd::std_specs::convert::FromSpecImpl<Message> for Vec<u8> {
    /// What `from` gives is stated by its own `ensures` over the bytes it
    /// holds; no `Vec` value is named for it.
    open spec fn obeys_from_spec() -> bool {
        false
    }

    open spec fn from_spec(v: Message) -> Vec<u8> {
        choose|r: Vec<u8>| r@ == message_bytes(&v)
    }
}

// ===== Rejections =====

/// Connection header did not include 'upgrade'.
#[derive(Debug)]
pub struct MissingConnectionUpgrade;

impl MissingConnectionUpgrade {
    /// The text of the rejection.
    pub fn message(&self) -> (s: String)
        ensures
            s@ == "Connection header did not include 'upgrade'"@,
    {
        "Connection header did not include 'upgrade'".to_owned()
    }
}

// ===== The upgrade =====

/// The settings of a websocket that differ from the defaults of the
/// websocket implementation (`tungstenite::protocol::WebSocketConfig`).
#[derive(Clone, Copy, Debug, PartialEq, Eq, Structural)]
pub struct WsConfig {
    pub max_send_queue: Option<usize>,
    pub max_message_size: Option<usize>,
    pub max_frame_size: Option<usize>,
}

/// Extracted by the `ws` filter, and used to finish an upgrade.
#[derive(Debug)]
pub struct Ws {
    config: Option<WsConfig>,
    key: Vec<u8>,
}

/// The bytes `upgrade`.
pub open spec fn upgrade_token() -> Seq<u8> {
    seq![117u8, 112, 103, 114, 97, 100, 101]
}

/// The bytes `websocket`.
pub open spec fn websocket_token() -> Seq<u8> {
    seq![119u8, 101, 98, 115, 111, 99, 107, 101, 116]
}

/// Whether the merged `connection` value `v` lists the option `upgrade`,
/// in any case.
pub open spec fn lists_upgrade(v: Seq<u8>) -> bool {
    exists|i: int|
        0 <= i < csv_items(v, 44).len() && lower_bytes(#[trigger] csv_items(v, 44)[i]) == upgrade_token()
}

/// What the `ws` filter makes of a request: the key of a request that may
/// be upgraded, or why it may not.
///
/// - the method must be `GET` (else `405`);
/// - a `connection` field must list `upgrade` (`400` without the field,
///   `MissingConnectionUpgrade` without the option);
/// - the `upgrade` field must be `websocket` in any case (else `400`);
/// - the `sec-websocket-version` field must be `13` (else `400`);
/// - a `sec-websocket-key` field must be present (else `400`).
pub open spec fn ws_outcome(method: Seq<u8>, headers: HeaderMap) -> Result<Seq<u8>, Rejection> {
    if method != seq![71u8, 69, 84] {
        Err(Rejection::MethodNotAllowed)
    } else if headers.spec_joined("connection"@, 44) is None {
        Err(Rejection::BadRequest)
    } else if !lists_upgrade(headers.spec_joined("connection"@, 44)->0) {
        Err(Rejection::Known(Known::MissingConnectionUpgrade))
    } else if !(headers.spec_get("upgrade"@) matches Some(u) && lower_bytes(u) == lower_bytes(
        websocket_token(),
    )) {
        Err(Rejection::BadRequest)
    } else if headers.spec_get("sec-websocket-version"@) != Some(seq![49u8, 51]) {
        Err(Rejection::BadRequest)
    } else {
        match headers.spec_get("sec-websocket-key"@) {
            Some(k) => Ok(k),
            None => Err(Rejection::BadRequest),
        }
    }
}

/// Whether some item of `items` is `upgrade`, in any case.
fn any_is_upgrade(items: &Vec<Vec<u8>>) -> (r: bool)
    ensures
        r == exists|i: int| 0 <= i < items@.len() && lower_bytes(#[trigger] items@[i]@) == upgrade_token(),
{
    let mut i: usize = 0;
    while i < items.len()
        invariant
            i <= items@.len(),
            forall|j: int| 0 <= j < i ==> lower_bytes(#[trigger] items@[j]@) != upgrade_token(),
        decreases items@.len() - i,
    {
        if bytes_eq_ignore_ascii_case(items[i].as_slice(), &[117u8, 112, 103, 114, 97, 100, 101]) {
            assert(lower_bytes(seq![117u8, 112, 103, 114, 97, 100, 101]) =~= upgrade_token());
            return true;
        }
        assert(lower_bytes(seq![117u8, 112, 103, 114, 97, 100, 101]) =~= upgrade_token());
        i = i + 1;
    }
    false
}

/// Creates a Websocket filter, applied to the request of `route`: the
/// `Ws` that finishes the upgrade, or the rejection of `ws_outcome`.
pub fn ws(route: &Route) -> (r: Result<Ws, Rejection>)
    ensures
        match ws_outcome(route.spec_method(), route.spec_headers()) {
            Ok(k) => r matches Ok(w) && w.spec_key() == k && w.spec_config() is None,
            Err(e) => r == Err::<Ws, Rejection>(e),
        },
{
    if !route.method().same(&Method::get()) {
        return Err(Rejection::MethodNotAllowed);
    }
    let headers = route.headers();
    let conn = match headers.get_joined("connection", 44) {
        Some(v) => v,
        None => {
            return Err(Rejection::BadRequest);
        },
    };
    let items = crate::csv::csv_items_bytes(conn.as_slice(), 44);
    let found = any_is_upgrade(&items);
    proof {
        let its = csv_items(conn@, 44);
        assert(found == lists_upgrade(conn@)) by {
            if found {
                let i = choose|i: int| 0 <= i < items@.len() && lower_bytes(#[trigger] items@[i]@) == upgrade_token();
                assert(its[i] == items@[i]@);
            }
            if lists_upgrade(conn@) {
                let i = choose|i: int| 0 <= i < its.len() && lower_bytes(#[trigger] its[i]) == upgrade_token();
                assert(its[i] == items@[i]@);
            }
        }
    }
    if !found {
        return Err(Rejection::Known(Known::MissingConnectionUpgrade));
    }
    match headers.get("upgrade") {
        Some(u) => {
            if !bytes_eq_ignore_ascii_case(u.as_slice(), &[119u8, 101, 98, 115, 111, 99, 107, 101, 116]) {
                return Err(Rejection::BadRequest);
            }
        },
        None => {
            return Err(Rejection::BadRequest);
        },
    }
    match headers.get("sec-websocket-version") {
        Some(v) => {
            if !bytes_eq(v.as_slice(), &[49u8, 51]) {
                return Err(Rejection::BadRequest);
            }
        },
        None => {
            return Err(Rejection::BadRequest);
        },
    }
    match headers.get("sec-websocket-key") {
        Some(k) => Ok(Ws { config: None, key: k.clone() }),
        None => Err(Rejection::BadRequest),
    }
}

/// The `sec-websocket-accept` value that answers the key `key`
/// (`headers::SecWebsocketAccept::from` a `SecWebsocketKey`); `None` when
/// the key is no valid header value.
pub uninterp spec fn accept_value(key: Seq<u8>) -> Option<Seq<u8>>;

/// `headers::SecWebsocketAccept::from(key)`, encoded; the result is named
/// `accept_value`.
#[verifier::external_body]
fn websocket_accept(key: &[u8]) -> (r: Option<Vec<u8>>)
    ensures
        r matches Some(v) ==> accept_value(key@) == Some(v@),
        r is None ==> accept_value(key@) is None,
{
    let value = match http::HeaderValue::from_bytes(key) {
        Ok(v) => v,
        Err(_) => return None,
    };
    let key = match headers::SecWebsocketKey::decode(&mut std::iter::once(&value)) {
        Ok(k) => k,
        Err(_) => return None,
    };
    let mut out = Vec::new();
    headers::SecWebsocketAccept::from(key).encode(&mut out);
    match out.pop() {
        Some(v) => Some(v.as_bytes().to_vec()),
        None => None,
    }
}

/// The fields of the response that accepts an upgrade with key `key`.
pub open spec fn upgrade_fields(key: Seq<u8>) -> Seq<(Seq<char>, Seq<u8>)> {
    let base = seq![("connection"@, upgrade_token()), ("upgrade"@, websocket_token())];
    match accept_value(key) {
        Some(a) => base.push(("sec-websocket-accept"@, a)),
        None => base,
    }
}

impl Ws {
    /// The key that the client sent.
    pub closed spec fn spec_key(&self) -> Seq<u8> {
        self.key@
    }

    /// The settings that differ from the defaults, if any was set.
    pub closed spec fn spec_config(&self) -> Option<WsConfig> {
        self.config
    }

    /// The settings that differ from the defaults, if any was set.
    pub fn config(&self) -> (c: Option<WsConfig>)
        ensures
            c == self.spec_config(),
    {
        self.config
    }

    /// The key that the client sent.
    pub fn key(&self) -> (k: &[u8])
        ensures
            k@ == self.spec_key(),
    {
        self.key.as_slice()
    }

    /// The settings, starting from none changed.
    fn settings(&self) -> (c: WsConfig)
        ensures
            c == (match self.spec_config() {
                Some(c) => c,
                None => WsConfig { max_send_queue: None, max_message_size: None, max_frame_size: None },
            }),
    {
        match self.config {
            Some(c) => c,
            None => WsConfig { max_send_queue: None, max_message_size: None, max_frame_size: None },
        }
    }

    /// Set the size of the internal message send queue.
    pub fn max_send_queue(self, max: usize) -> (r: Self)
        ensures
            r.spec_key() == self.spec_key(),
            r.spec_config() matches Some(c) && c.max_send_queue == Some(max) && (self.spec_config() matches Some(o) ==> c.max_message_size == o.max_message_size && c.max_frame_size == o.max_frame_size) && (self.spec_config() is None ==> c.max_message_size is None && c.max_frame_size is None),
    {
        let c = self.settings();
        Ws { config: Some(WsConfig { max_send_queue: Some(max), ..c }), key: self.key }
    }

    /// Set the maximum message size (defaults to 64 megabytes).
    pub fn max_message_size(self, max: usize) -> (r: Self)
        ensures
            r.spec_key() == self.spec_key(),
            r.spec_config() matches Some(c) && c.max_message_size == Some(max) && (self.spec_config() matches Some(o) ==> c.max_send_queue == o.max_send_queue && c.max_frame_size == o.max_frame_size) && (self.spec_config() is None ==> c.max_send_queue is None && c.max_frame_size is None),
    {
        let c = self.settings();
        Ws { config: Some(WsConfig { max_message_size: Some(max), ..c }), key: self.key }
    }

    /// Set the maximum frame size (defaults to 16 megabytes).
    pub fn max_frame_size(self, max: usize) -> (r: Self)
        ensures
            r.spec_key() == self.spec_key(),
            r.spec_config() matches Some(c) && c.max_frame_size == Some(max) && (self.spec_config() matches Some(o) ==> c.max_send_queue == o.max_send_queue && c.max_message_size == o.max_message_size) && (self.spec_config() is None ==> c.max_send_queue is None && c.max_message_size is None),
    {
        let c = self.settings();
        Ws { config: Some(WsConfig { max_frame_size: Some(max), ..c }), key: self.key }
    }

    /// Finish the upgrade, passing a function to handle the socket once it
    /// is upgraded.
    pub fn on_upgrade<F>(self, func: F) -> (r: WsReply<F>)
        ensures
            r.spec_key() == self.spec_key(),
            r.spec_config() == self.spec_config(),
            r.spec_on_upgrade() == func,
    {
        WsReply { ws: self, on_upgrade: func }
    }

    /// The response that accepts the upgrade: `101 Switching Protocols`,
    /// with `connection: upgrade`, `upgrade: websocket` and the
    /// `sec-websocket-accept` value for the key.
    pub fn upgrade_response(&self) -> (r: Response)
        ensures
            r.status == 101,
            r.headers.view() == apply_inserts(Seq::empty(), upgrade_fields(self.spec_key())),
            r.body is Empty,
    {
        let mut res = Response::new_empty();
        res.status = 101;
        let ghost h0 = res.headers.view();
        res.headers.insert("connection", &[117u8, 112, 103, 114, 97, 100, 101]);
        proof {
            lemma_apply_inserts_push(h0, Seq::empty(), ("connection"@, upgrade_token()));
            assert(Seq::<(Seq<char>, Seq<u8>)>::empty().push(("connection"@, upgrade_token())) =~= seq![("connection"@, upgrade_token())]);
        }
        res.headers.insert("upgrade", &[119u8, 101, 98, 115, 111, 99, 107, 101, 116]);
        proof {
            lemma_apply_inserts_push(h0, seq![("connection"@, upgrade_token())], ("upgrade"@, websocket_token()));
            assert(seq![("connection"@, upgrade_token())].push(("upgrade"@, websocket_token())) =~= seq![("connection"@, upgrade_token()), ("upgrade"@, websocket_token())]);
        }
        match websocket_accept(self.key.as_slice()) {
            Some(a) => {
                res.headers.insert("sec-websocket-accept", a.as_slice());
                proof {
                    lemma_apply_inserts_push(h0, seq![("connection"@, upgrade_token()), ("upgrade"@, websocket_token())], ("sec-websocket-accept"@, a@));
                }
            },
            None => {},
        }
        res
    }
}

/// A `Ws` with the function that handles the upgraded socket.
pub struct WsReply<F> {
    ws: Ws,
    on_upgrade: F,
}

impl<F> WsReply<F> {
    pub closed spec fn spec_key(&self) -> Seq<u8> {
        self.ws.spec_key()
    }

    pub closed spec fn spec_config(&self) -> Option<WsConfig> {
        self.ws.spec_config()
    }

    pub closed spec fn spec_on_upgrade(&self) -> F {
        self.on_upgrade
    }

    /// The upgrade and the function that handles the socket.
    pub fn into_parts(self) -> (r: (Ws, F))
        ensures
            r.0.spec_key() == self.spec_key(),
            r.0.spec_config() == self.spec_config(),
            r.1 == self.spec_on_upgrade(),
    {
        (self.ws, self.on_upgrade)
    }
}

} // verus!
