//! Comma (or semicolon) separated header values, split the way typed
//! headers split them: a separator inside double quotes does not split, and
//! each item is trimmed of spaces and tabs.
use vstd::prelude::*;

verus! {

/// Bytes that `HeaderValue::to_str` accepts: visible ASCII and tab.
pub open spec fn is_visible_ascii(b: u8) -> bool {
    (32 <= b && b < 127) || b == 9
}

/// Whether every byte of `s` is visible ASCII.
pub open spec fn all_visible_ascii(s: Seq<u8>) -> bool {
    forall|i: int| 0 <= i < s.len() ==> is_visible_ascii(s[i])
}

/// Whether `b` is a space or a tab.
pub open spec fn is_ows(b: u8) -> bool {
    b == 32 || b == 9
}

/// The items of `s` from position `i` on, where the current item began at
/// `start` and `in_quotes` says whether a double quote is open.
pub open spec fn split_from(s: Seq<u8>, sep: u8, i: int, start: int, in_quotes: bool) -> Seq<Seq<u8>>
    decreases s.len() - i,
{
    if i >= s.len() {
        seq![s.subrange(start, s.len() as int)]
    } else if in_quotes {
        split_from(s, sep, i + 1, start, s[i] != 34)
    } else if s[i] == sep {
        seq![s.subrange(start, i)] + split_from(s, sep, i + 1, i + 1, false)
    } else {
        split_from(s, sep, i + 1, start, s[i] == 34)
    }
}

/// The items of `s` split at each `sep` that is not inside double quotes.
pub open spec fn split_quoted(s: Seq<u8>, sep: u8) -> Seq<Seq<u8>> {
    split_from(s, sep, 0, 0, false)
}

/// Number of leading spaces and tabs of `s`.
pub open spec fn leading_ows(s: Seq<u8>) -> nat
    decreases s.len(),
{
    if s.len() > 0 && is_ows(s[0]) {
        1 + leading_ows(s.subrange(1, s.len() as int))
    } else {
        0
    }
}

/// Number of trailing spaces and tabs of `s`.
pub open spec fn trailing_ows(s: Seq<u8>) -> nat
    decreases s.len(),
{
    if s.len() > 0 && is_ows(s[s.len() - 1]) {
        1 + trailing_ows(s.subrange(0, s.len() - 1))
    } else {
        0
    }
}

/// `s` without leading and trailing spaces and tabs.
pub open spec fn trim_ows(s: Seq<u8>) -> Seq<u8> {
    let t = s.subrange(leading_ows(s) as int, s.len() as int);
    t.subrange(0, t.len() - trailing_ows(t))
}

/// The trimmed items of a header value, none if it is not visible ASCII.
pub open spec fn csv_items(s: Seq<u8>, sep: u8) -> Seq<Seq<u8>> {
    if all_visible_ascii(s) {
        split_quoted(s, sep).map_values(|item: Seq<u8>| trim_ows(item))
    } else {
        Seq::empty()
    }
}

proof fn lemma_leading_ows_bound(s: Seq<u8>)
    ensures
        leading_ows(s) <= s.len(),
        forall|j: int| 0 <= j < leading_ows(s) ==> is_ows(s[j]),
        leading_ows(s) < s.len() ==> !is_ows(s[leading_ows(s) as int]),
    decreases s.len(),
{
    if s.len() > 0 && is_ows(s[0]) {
        let t = s.subrange(1, s.len() as int);
        lemma_leading_ows_bound(t);
        assert forall|j: int| 0 <= j < leading_ows(s) implies is_ows(s[j]) by {
            if j > 0 {
                assert(s[j] == t[j - 1]);
            }
        }
        if leading_ows(s) < s.len() {
            assert(s[leading_ows(s) as int] == t[leading_ows(t) as int]);
        }
    }
}

proof fn lemma_trailing_ows_bound(s: Seq<u8>)
    ensures
        trailing_ows(s) <= s.len(),
        forall|j: int| s.len() - trailing_ows(s) <= j < s.len() ==> is_ows(s[j]),
        trailing_ows(s) < s.len() ==> !is_ows(s[s.len() - trailing_ows(s) - 1]),
    decreases s.len(),
{
    if s.len() > 0 && is_ows(s[s.len() - 1]) {
        let t = s.subrange(0, s.len() - 1);
        lemma_trailing_ows_bound(t);
        assert forall|j: int| s.len() - trailing_ows(s) <= j < s.len() implies is_ows(s[j]) by {
            if j < s.len() - 1 {
                assert(s[j] == t[j]);
            }
        }
        if trailing_ows(s) < s.len() {
            assert(s[s.len() - trailing_ows(s) - 1] == t[t.len() - trailing_ows(t) - 1]);
        }
    }
}

proof fn lemma_leading_ows_unique(s: Seq<u8>, k: int)
    requires
        0 <= k <= s.len(),
        forall|j: int| 0 <= j < k ==> is_ows(s[j]),
        k < s.len() ==> !is_ows(s[k]),
    ensures
        leading_ows(s) == k,
    decreases s.len(),
{
    if k > 0 {
        let t = s.subrange(1, s.len() as int);
        assert forall|j: int| 0 <= j < k - 1 implies is_ows(t[j]) by {
            assert(t[j] == s[j + 1]);
        }
        if k - 1 < t.len() {
            assert(t[k - 1] == s[k]);
        }
        lemma_leading_ows_unique(t, k - 1);
    }
}

proof fn lemma_trailing_ows_unique(s: Seq<u8>, k: int)
    requires
        0 <= k <= s.len(),
        forall|j: int| s.len() - k <= j < s.len() ==> is_ows(s[j]),
        k < s.len() ==> !is_ows(s[s.len() - k - 1]),
    ensures
        trailing_ows(s) == k,
    decreases s.len(),
{
    if k > 0 {
        let t = s.subrange(0, s.len() - 1);
        assert forall|j: int| t.len() - (k - 1) <= j < t.len() implies is_ows(t[j]) by {
            assert(t[j] == s[j]);
        }
        if k - 1 < t.len() {
            assert(t[t.len() - (k - 1) - 1] == s[s.len() - k - 1]);
        }
        lemma_trailing_ows_unique(t, k - 1);
    }
}

/// `s` without leading and trailing spaces and tabs (`str::trim` on header text).
pub fn trim_ows_bytes(s: &[u8]) -> (r: Vec<u8>)
    ensures
        r@ == trim_ows(s@),
{
    let n = s.len();
    let mut a: usize = 0;
    while a < n && (s[a] == 32 || s[a] == 9)
        invariant
            n == s@.len(),
            a <= n,
            forall|j: int| 0 <= j < a ==> is_ows(s@[j]),
        decreases n - a,
    {
        a = a + 1;
    }
    proof {
        lemma_leading_ows_unique(s@, a as int);
    }
    let mut b: usize = n;
    while b > a && (s[b - 1] == 32 || s[b - 1] == 9)
        invariant
            n == s@.len(),
            a <= b <= n,
            forall|j: int| b <= j < n ==> is_ows(s@[j]),
        decreases b - a,
    {
        b = b - 1;
    }
    let ghost t = s@.subrange(a as int, n as int);
    proof {
        assert forall|j: int| t.len() - (n - b) <= j < t.len() implies is_ows(t[j]) by {
            assert(t[j] == s@[a + j]);
        }
        if n - b < t.len() {
            assert(t[t.len() - (n - b) - 1] == s@[b - 1]);
        }
        lemma_trailing_ows_unique(t, (n - b) as int);
    }
    let mut out: Vec<u8> = Vec::new();
    let mut i = a;
    while i < b
        invariant
            n == s@.len(),
            a <= i <= b <= n,
            out@ == s@.subrange(a as int, i as int),
        decreases b - i,
    {
        out.push(s[i]);
        assert(s@.subrange(a as int, i + 1) =~= s@.subrange(a as int, i as int).push(s@[i as int]));
        i = i + 1;
    }
    assert(t.subrange(0, t.len() - trailing_ows(t)) =~= s@.subrange(a as int, b as int));
    out
}

/// The items of `s`, split at each `sep` outside double quotes (untrimmed).
pub fn split_quoted_bytes(s: &[u8], sep: u8) -> (r: Vec<Vec<u8>>)
    ensures
        r@.len() == split_quoted(s@, sep).len(),
        forall|k: int| 0 <= k < r@.len() ==> #[trigger] r@[k]@ == split_quoted(s@, sep)[k],
{
    let n = s.len();
    let mut items: Vec<Vec<u8>> = Vec::new();
    let mut cur: Vec<u8> = Vec::new();
    let mut start: usize = 0;
    let mut in_quotes = false;
    let mut i: usize = 0;
    let ghost done: Seq<Seq<u8>> = Seq::empty();
    while i < n
        invariant
            n == s@.len(),
            start <= i <= n,
            cur@ == s@.subrange(start as int, i as int),
            items@.len() == done.len(),
            forall|k: int| 0 <= k < done.len() ==> #[trigger] items@[k]@ == done[k],
            done + split_from(s@, sep, i as int, start as int, in_quotes) == split_quoted(s@, sep),
        decreases n - i,
    {
        let b = s[i];
        if in_quotes {
            if b == 34 {
                in_quotes = false;
            }
            cur.push(b);
            assert(s@.subrange(start as int, i + 1) =~= s@.subrange(start as int, i as int).push(b));
        } else if b == sep {
            proof {
                let item = s@.subrange(start as int, i as int);
                assert(split_from(s@, sep, i as int, start as int, false) == seq![item]
                    + split_from(s@, sep, i + 1, i + 1, false));
                assert(done + split_from(s@, sep, i as int, start as int, false) =~= done.push(item)
                    + split_from(s@, sep, i + 1, i + 1, false));
                done = done.push(item);
            }
            items.push(cur);
            cur = Vec::new();
            start = i + 1;
            assert(s@.subrange(start as int, start as int) =~= Seq::<u8>::empty());
        } else {
            if b == 34 {
                in_quotes = true;
            }
            cur.push(b);
            assert(s@.subrange(start as int, i + 1) =~= s@.subrange(start as int, i as int).push(b));
        }
        i = i + 1;
    }
    proof {
        let item = s@.subrange(start as int, n as int);
        assert(split_from(s@, sep, n as int, start as int, in_quotes) == seq![item]);
        assert(done + seq![item] =~= done.push(item));
        done = done.push(item);
    }
    items.push(cur);
    items
}

/// Whether every byte of `s` is visible ASCII.
pub fn is_visible_ascii_bytes(s: &[u8]) -> (r: bool)
    ensures
        r == all_visible_ascii(s@),
{
    let mut i: usize = 0;
    while i < s.len()
        invariant
            i <= s@.len(),
            forall|j: int| 0 <= j < i ==> is_visible_ascii(s@[j]),
        decreases s@.len() - i,
    {
        let b = s[i];
        if !((32 <= b && b < 127) || b == 9) {
            return false;
        }
        i = i + 1;
    }
    true
}

/// The trimmed items of a header value, as typed headers read lists: none
/// when the value is not visible ASCII.
pub fn csv_items_bytes(s: &[u8], sep: u8) -> (r: Vec<Vec<u8>>)
    ensures
        r@.len() == csv_items(s@, sep).len(),
        forall|k: int| 0 <= k < r@.len() ==> #[trigger] r@[k]@ == csv_items(s@, sep)[k],
{
    if !is_visible_ascii_bytes(s) {
        return Vec::new();
    }
    let parts = split_quoted_bytes(s, sep);
    let mut out: Vec<Vec<u8>> = Vec::new();
    let mut k: usize = 0;
    while k < parts.len()
        invariant
            all_visible_ascii(s@),
            parts@.len() == split_quoted(s@, sep).len(),
            forall|j: int| 0 <= j < parts@.len() ==> #[trigger] parts@[j]@ == split_quoted(s@, sep)[j],
            k <= parts@.len(),
            out@.len() == k,
            forall|j: int| 0 <= j < k ==> #[trigger] out@[j]@ == csv_items(s@, sep)[j],
        decreases parts@.len() - k,
    {
        let t = trim_ows_bytes(parts[k].as_slice());
        out.push(t);
        k = k + 1;
    }
    out
}

/// A part of a visible-ASCII string is visible ASCII.
pub proof fn lemma_subrange_visible(s: Seq<u8>, a: int, b: int)
    requires
        all_visible_ascii(s),
        0 <= a <= b <= s.len(),
    ensures
        all_visible_ascii(s.subrange(a, b)),
{
    assert forall|j: int| 0 <= j < b - a implies is_visible_ascii(#[trigger] s.subrange(a, b)[j]) by {
        assert(s.subrange(a, b)[j] == s[a + j]);
    }
}

/// Trimming a visible-ASCII string leaves a visible-ASCII string.
pub proof fn lemma_trim_visible(s: Seq<u8>)
    requires
        all_visible_ascii(s),
    ensures
        all_visible_ascii(trim_ows(s)),
{
    lemma_leading_ows_bound(s);
    let t = s.subrange(leading_ows(s) as int, s.len() as int);
    lemma_subrange_visible(s, leading_ows(s) as int, s.len() as int);
    lemma_trailing_ows_bound(t);
    lemma_subrange_visible(t, 0, t.len() - trailing_ows(t));
}

/// The items that `split_from` cuts out of a visible-ASCII string are
/// visible ASCII.
pub proof fn lemma_split_from_visible(s: Seq<u8>, sep: u8, i: int, start: int, in_quotes: bool)
    requires
        all_visible_ascii(s),
        0 <= start <= i <= s.len(),
    ensures
        forall|k: int| 0 <= k < split_from(s, sep, i, start, in_quotes).len() ==> all_visible_ascii(
            #[trigger] split_from(s, sep, i, start, in_quotes)[k],
        ),
    decreases s.len() - i,
{
    let r = split_from(s, sep, i, start, in_quotes);
    if i >= s.len() {
        lemma_subrange_visible(s, start, s.len() as int);
        assert forall|k: int| 0 <= k < r.len() implies all_visible_ascii(#[trigger] r[k]) by {
            assert(r[k] == s.subrange(start, s.len() as int));
        }
    } else if in_quotes {
        lemma_split_from_visible(s, sep, i + 1, start, s[i] != 34);
        assert(r == split_from(s, sep, i + 1, start, s[i] != 34));
    } else if s[i] == sep {
        lemma_split_from_visible(s, sep, i + 1, i + 1, false);
        lemma_subrange_visible(s, start, i);
        let rest = split_from(s, sep, i + 1, i + 1, false);
        assert(r == seq![s.subrange(start, i)] + rest);
        assert forall|k: int| 0 <= k < r.len() implies all_visible_ascii(#[trigger] r[k]) by {
            if k > 0 {
                assert(r[k] == rest[k - 1]);
            } else {
                assert(r[k] == s.subrange(start, i));
            }
        }
    } else {
        lemma_split_from_visible(s, sep, i + 1, start, s[i] == 34);
        assert(r == split_from(s, sep, i + 1, start, s[i] == 34));
    }
}

/// The items of a header value are visible ASCII.
pub proof fn lemma_csv_items_visible(s: Seq<u8>, sep: u8)
    ensures
        forall|k: int| 0 <= k < csv_items(s, sep).len() ==> all_visible_ascii(#[trigger] csv_items(s, sep)[k]),
{
    if all_visible_ascii(s) {
        lemma_split_from_visible(s, sep, 0, 0, false);
        assert forall|k: int| 0 <= k < csv_items(s, sep).len() implies all_visible_ascii(#[trigger] csv_items(s, sep)[k]) by {
            lemma_trim_visible(split_quoted(s, sep)[k]);
        }
    }
}

} // verus!
