//! Reply Filters
//!
//! These "filters" behave a little differently than the rest. Instead of
//! being used directly on requests, these filters "decorate" the replies of
//! other filters: they set a header field on each response.
use vstd::prelude::*;
use crate::filters::cors::is_header_name;
use crate::header_map::without_name;
use crate::reply::{Reply, Response};
use crate::text::lower_chars;
use vstd::string::StringSliceAdditionalSpecFns;

verus! {

/// Whether the bytes may stand in a header value
/// (`http::HeaderValue::from_str`): no control character but the tab.
pub open spec fn is_header_value(v: Seq<u8>) -> bool {
    forall|i: int| 0 <= i < v.len() ==> (32 <= #[trigger] v[i] && v[i] != 127) || v[i] == 9
}

/// Wraps replies by always setting the header `name` to `value`. The name
/// and value must be valid.
pub fn header(name: &str, value: &str) -> (w: WithHeader)
    requires
        is_header_name(name.spec_bytes()),
        is_header_value(value.spec_bytes()),
    ensures
        w.spec_name() == name@,
        w.spec_value() == value.spec_bytes(),
{
    WithHeader { name: name.to_owned(), value: vstd::slice::slice_to_vec(value.as_bytes()) }
}

/// Wraps replies by setting the header `name` to `value` when the reply
/// does not already have it. The name and value must be valid.
pub fn default_header(name: &str, value: &str) -> (w: WithDefaultHeader)
    requires
        is_header_name(name.spec_bytes()),
        is_header_value(value.spec_bytes()),
    ensures
        w.spec_name() == name@,
        w.spec_value() == value.spec_bytes(),
{
    WithDefaultHeader { name: name.to_owned(), value: vstd::slice::slice_to_vec(value.as_bytes()) }
}

/// Wrap a reply by always setting a header.
#[derive(Clone, Debug)]
pub struct WithHeader {
    name: String,
    value: Vec<u8>,
}

impl WithHeader {
    pub closed spec fn spec_name(&self) -> Seq<char> {
        self.name@
    }

    pub closed spec fn spec_value(&self) -> Seq<u8> {
        self.value@
    }

    /// The response of `reply` with the header set, replacing any value it
    /// had.
    pub fn decorate<R: Reply>(&self, reply: R) -> (r: Response)
        ensures
            r.status == reply.reply_status(),
            r.headers.view() == without_name(reply.reply_headers(), lower_chars(self.spec_name())).push(
                (lower_chars(self.spec_name()), self.spec_value()),
            ),
            r.body == reply.reply_body(),
    {
        let mut resp = reply.into_response();
        resp.headers.insert(self.name.as_str(), self.value.as_slice());
        resp
    }
}

/// Wrap a reply by setting a header if the reply does not have it.
#[derive(Clone, Debug)]
pub struct WithDefaultHeader {
    name: String,
    value: Vec<u8>,
}

impl WithDefaultHeader {
    pub closed spec fn spec_name(&self) -> Seq<char> {
        self.name@
    }

    pub closed spec fn spec_value(&self) -> Seq<u8> {
        self.value@
    }

    /// The response of `reply` with the header set if it had no value.
    pub fn decorate<R: Reply>(&self, reply: R) -> (r: Response)
        ensures
            r.status == reply.reply_status(),
            r.body == reply.reply_body(),
            crate::header_map::first_value(reply.reply_headers(), lower_chars(self.spec_name())) is Some
                ==> r.headers.view() == reply.reply_headers(),
            crate::header_map::first_value(reply.reply_headers(), lower_chars(self.spec_name())) is None
                ==> r.headers.view() == reply.reply_headers().push(
                (lower_chars(self.spec_name()), self.spec_value()),
            ),
    {
        let mut resp = reply.into_response();
        if !resp.headers.contains_key(self.name.as_str()) {
            resp.headers.append(self.name.as_str(), self.value.as_slice());
        }
        resp
    }
}

} // verus!
