//! Cookie Filters
use vstd::prelude::*;
use crate::csv::{csv_items, csv_items_bytes, lemma_csv_items_visible, trim_ows, trim_ows_bytes};
use crate::reject::Rejection;
use crate::route::Route;
use crate::text::{ascii_string, ascii_text, bytes_eq};
use vstd::string::StringSliceAdditionalSpecFns;

verus! {

/// Position of the first byte `b` in `s` at or after `from`.
pub open spec fn first_byte_from(s: Seq<u8>, from: int, b: u8) -> Option<int>
    decreases s.len() - from,
{
    if from < 0 || from >= s.len() {
        None
    } else if s[from] == b {
        Some(from)
    } else {
        first_byte_from(s, from + 1, b)
    }
}

proof fn lemma_first_byte_from(s: Seq<u8>, from: int, b: u8)
    requires
        0 <= from,
    ensures
        first_byte_from(s, from, b) matches Some(i) ==> from <= i < s.len() && s[i] == b && forall|
            j: int,
        | from <= j < i ==> s[j] != b,
        first_byte_from(s, from, b) is None ==> forall|j: int| from <= j < s.len() ==> s[j] != b,
    decreases s.len() - from,
{
    if from < s.len() && s[from] != b {
        lemma_first_byte_from(s, from + 1, b);
    }
}

/// The name and value of one cookie `item` (`name=value`, split at the
/// first `=`, both trimmed); `None` without a `=`.
pub open spec fn cookie_pair(item: Seq<u8>) -> Option<(Seq<u8>, Seq<u8>)> {
    match first_byte_from(item, 0, 61) {
        Some(i) => Some((trim_ows(item.subrange(0, i)), trim_ows(item.subrange(i + 1, item.len() as int)))),
        None => None,
    }
}

/// The first `b` at or after `from` is at `k` when `s[k]` is `b` and no
/// `b` comes between.
proof fn lemma_first_byte_at(s: Seq<u8>, from: int, b: u8, k: int)
    requires
        0 <= from <= k < s.len(),
        s[k] == b,
        forall|j: int| from <= j < k ==> s[j] != b,
    ensures
        first_byte_from(s, from, b) == Some(k),
    decreases k - from,
{
    if from < k {
        lemma_first_byte_from_step(s, from, b);
        lemma_first_byte_at(s, from + 1, b, k);
    }
}

proof fn lemma_first_byte_from_step(s: Seq<u8>, from: int, b: u8)
    requires
        0 <= from < s.len(),
        s[from] != b,
    ensures
        first_byte_from(s, from, b) == first_byte_from(s, from + 1, b),
{
}

/// A cookie pair is split at its first `=` only: for a name without `=`,
/// the pair `name=value` gives the trimmed name and the whole trimmed
/// value, though the value hold `=` (as base64 padding does).
pub proof fn lemma_cookie_pair_splits_at_first_eq(name: Seq<u8>, value: Seq<u8>)
    requires
        forall|j: int| 0 <= j < name.len() ==> name[j] != 61,
    ensures
        cookie_pair(name + seq![61u8] + value) == Some((trim_ows(name), trim_ows(value))),
{
    let item = name + seq![61u8] + value;
    lemma_first_byte_at(item, 0, 61, name.len() as int);
    assert(item.subrange(0, name.len() as int) =~= name);
    assert(item.subrange(name.len() + 1int, item.len() as int) =~= value);
}

/// Looking a cookie up in a header whose first pair is `name=value` gives
/// the whole value of that pair, `=`s included.
pub proof fn lemma_cookie_value_of_first_pair(name: Seq<u8>, value: Seq<u8>, more: Seq<Seq<u8>>)
    requires
        forall|j: int| 0 <= j < name.len() ==> name[j] != 61,
    ensures
        cookie_value_from(seq![name + seq![61u8] + value] + more, trim_ows(name), 0) == Some(trim_ows(value)),
{
    lemma_cookie_pair_splits_at_first_eq(name, value);
    assert((seq![name + seq![61u8] + value] + more)[0] == name + seq![61u8] + value);
}

/// The value of the first cookie named `name` among `items`, from
/// position `from` on.
pub open spec fn cookie_value_from(items: Seq<Seq<u8>>, name: Seq<u8>, from: int) -> Option<Seq<u8>>
    decreases items.len() - from,
{
    if from < 0 || from >= items.len() {
        None
    } else if cookie_pair(items[from]) matches Some(p) && p.0 == name {
        Some((cookie_pair(items[from])->0).1)
    } else {
        cookie_value_from(items, name, from + 1)
    }
}

/// The value of the cookie `name` in the merged `cookie` header value `v`
/// (`headers::Cookie::get`).
pub open spec fn cookie_value(v: Seq<u8>, name: Seq<u8>) -> Option<Seq<u8>> {
    cookie_value_from(csv_items(v, 59), name, 0)
}

/// The name and value of one cookie item.
fn split_pair(item: &[u8]) -> (r: Option<(Vec<u8>, Vec<u8>)>)
    ensures
        match cookie_pair(item@) {
            Some(p) => r matches Some(q) && q.0@ == p.0 && q.1@ == p.1,
            None => r is None,
        },
{
    let mut i: usize = 0;
    while i < item.len()
        invariant
            i <= item@.len(),
            first_byte_from(item@, 0, 61) == first_byte_from(item@, i as int, 61),
        decreases item@.len() - i,
    {
        if item[i] == 61 {
            let name = trim_ows_bytes(&item[0..i]);
            let value = trim_ows_bytes(&item[i + 1..item.len()]);
            return Some((name, value));
        }
        i = i + 1;
    }
    None
}

/// The value of the cookie `name` in the merged header value `v`.
fn find_cookie(v: &[u8], name: &[u8]) -> (r: Option<Vec<u8>>)
    ensures
        match cookie_value(v@, name@) {
            Some(c) => r matches Some(x) && x@ == c,
            None => r is None,
        },
{
    let items = csv_items_bytes(v, 59);
    let ghost its = csv_items(v@, 59);
    let mut i: usize = 0;
    while i < items.len()
        invariant
            i <= items@.len(),
            items@.len() == its.len(),
            its == csv_items(v@, 59),
            forall|k: int| 0 <= k < items@.len() ==> #[trigger] items@[k]@ == its[k],
            cookie_value(v@, name@) == cookie_value_from(its, name@, i as int),
        decreases items@.len() - i,
    {
        assert(items@[i as int]@ == its[i as int]);
        match split_pair(items[i].as_slice()) {
            Some((k, val)) => {
                if bytes_eq(k.as_slice(), name) {
                    return Some(val);
                }
            },
            None => {},
        }
        i = i + 1;
    }
    None
}

/// Creates a filter that requires the cookie `name` and extracts its
/// value: rejects with `400` without a `cookie` header, and with
/// `MissingCookie` when the header lacks the cookie.
pub fn cookie(route: &Route, name: &str) -> (r: Result<String, Rejection>)
    ensures
        match route.spec_headers().spec_joined("cookie"@, 59) {
            None => r == Err::<String, Rejection>(Rejection::BadRequest),
            Some(v) => match cookie_value(v, name.spec_bytes()) {
                Some(c) => r matches Ok(s) && s@ == ascii_text(c),
                None => r matches Err(Rejection::MissingCookie(n)) && n@ == name@,
            },
        },
{
    match route.headers().get_joined("cookie", 59) {
        None => Err(Rejection::BadRequest),
        Some(v) => match find_cookie(v.as_slice(), name.as_bytes()) {
            Some(c) => {
                proof {
                    lemma_cookie_value_visible(v@, name.spec_bytes());
                }
                Ok(ascii_string(c.as_slice()))
            },
            None => Err(Rejection::MissingCookie(name.to_owned())),
        },
    }
}

/// Creates a filter that extracts the cookie `name` if present; never
/// rejects.
pub fn optional(route: &Route, name: &str) -> (r: Option<String>)
    ensures
        match route.spec_headers().spec_joined("cookie"@, 59) {
            None => r is None,
            Some(v) => match cookie_value(v, name.spec_bytes()) {
                Some(c) => r matches Some(s) && s@ == ascii_text(c),
                None => r is None,
            },
        },
{
    match route.headers().get_joined("cookie", 59) {
        None => None,
        Some(v) => match find_cookie(v.as_slice(), name.as_bytes()) {
            Some(c) => {
                proof {
                    lemma_cookie_value_visible(v@, name.spec_bytes());
                }
                Some(ascii_string(c.as_slice()))
            },
            None => None,
        },
    }
}

/// Whether `func` may give `u` for some string slice that holds `text`.
pub open spec fn maps_to<U, F: Fn(&str) -> U>(func: F, text: Seq<char>, u: U) -> bool {
    exists|s: &str| s@ == text && #[trigger] call_ensures(func, (s,), u)
}

/// Extracts the cookie `name` if present, mapped through `func`.
pub fn optional_value<U, F: Fn(&str) -> U>(route: &Route, name: &str, func: F) -> (r: Option<U>)
    requires
        forall|s: &str| #[trigger] call_requires(func, (s,)),
    ensures
        match route.spec_headers().spec_joined("cookie"@, 59) {
            None => r is None,
            Some(v) => match cookie_value(v, name.spec_bytes()) {
                Some(c) => r matches Some(u) && maps_to(func, ascii_text(c), u),
                None => r is None,
            },
        },
{
    match optional(route, name) {
        Some(s) => {
            let t = s.as_str();
            let u = func(t);
            assert(call_ensures(func, (t,), u));
            assert(maps_to(func, t@, u));
            Some(u)
        },
        None => None,
    }
}

/// A cookie value found in a header value is visible ASCII.
proof fn lemma_cookie_value_visible(v: Seq<u8>, name: Seq<u8>)
    ensures
        cookie_value(v, name) matches Some(c) ==> crate::csv::all_visible_ascii(c),
{
    lemma_csv_items_visible(v, 59);
    lemma_cookie_value_from_visible(csv_items(v, 59), name, 0);
}

/// A cookie value found among visible-ASCII items is visible ASCII.
proof fn lemma_cookie_value_from_visible(items: Seq<Seq<u8>>, name: Seq<u8>, from: int)
    requires
        forall|k: int| 0 <= k < items.len() ==> crate::csv::all_visible_ascii(#[trigger] items[k]),
    ensures
        cookie_value_from(items, name, from) matches Some(c) ==> crate::csv::all_visible_ascii(c),
    decreases items.len() - from,
{
    if 0 <= from < items.len() {
        let item = items[from];
        if cookie_pair(item) matches Some(p) && p.0 == name {
            lemma_first_byte_from(item, 0, 61);
            let i = first_byte_from(item, 0, 61)->0;
            crate::csv::lemma_subrange_visible(item, i + 1, item.len() as int);
            crate::csv::lemma_trim_visible(item.subrange(i + 1, item.len() as int));
        } else {
            lemma_cookie_value_from_visible(items, name, from + 1);
        }
    }
}

} // verus!
