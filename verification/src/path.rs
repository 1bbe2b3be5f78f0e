//! Path filters over a request URI's path: `exact` matches (and cuts) a
//! literal piece of the path, `path` extracts the first segment, parsed.
use vstd::prelude::*;
use crate::text::all_ascii;
use std::marker::PhantomData;

verus! {

/// Creates a filter that extracts the first segment of the path, parsed.
pub fn path<T>() -> (e: Extract<T>) {
    Extract { _marker: PhantomData }
}

/// Creates a filter that matches the literal piece `p`.
pub fn exact(p: &str) -> (c: Const)
    ensures
        c.spec_piece() == p@,
{
    Const { p: p.to_owned() }
}

/// Creates a filter that matches the root path `/`.
pub fn index() -> (c: Const)
    ensures
        c.spec_piece() == "/"@,
{
    Const { p: "/".to_owned() }
}

/// A filter that extracts the first segment of the path.
pub struct Extract<T> {
    _marker: PhantomData<T>,
}

/// A filter that matches a literal piece of the path.
#[derive(Clone, Debug)]
pub struct Const {
    p: String,
}

/// The second piece of `s` split at `/`: what lies between the first `/`
/// and the next one (or the end); `None` when `s` holds no `/`.
pub open spec fn second_piece(s: Seq<char>) -> Option<Seq<char>> {
    match crate::text::first_index_from(s, 0, '/') {
        None => None,
        Some(i) => match crate::text::first_index_from(s, i + 1, '/') {
            Some(j) => Some(s.subrange(i + 1, j)),
            None => Some(s.subrange(i + 1, s.len() as int)),
        },
    }
}

/// The second piece of `s` split at `/`.
pub fn second_piece_exec(s: &str) -> (r: Option<&str>)
    ensures
        r matches Some(p) ==> second_piece(s@) == Some(p@),
        r is None ==> second_piece(s@) is None,
{
    proof {
        crate::text::lemma_first_index_from(s@, 0, '/');
    }
    match crate::text::find_char(s, 0, '/') {
        None => None,
        Some(i) => {
            proof {
                crate::text::lemma_first_index_from(s@, i + 1, '/');
            }
            let len = s.unicode_len();
            match crate::text::find_char(s, i + 1, '/') {
                Some(j) => Some(s.substring_char(i + 1, j)),
                None => Some(s.substring_char(i + 1, len)),
            }
        },
    }
}

impl<T> Extract<T> {
    /// Extracts the second piece of `path` split at `/` (the first being
    /// the empty piece before the leading `/`), parsed by `parse`; `None` if there is no such piece or it does
    /// not parse.
    pub fn filter<P: Fn(&str) -> Option<T>>(&self, path: &str, parse: P) -> (r: Option<T>)
        requires
            forall|s: &str| #[trigger] call_requires(parse, (s,)),
        ensures
            second_piece(path@) is None ==> r is None,
            second_piece(path@) matches Some(seg) ==> crate::filters::path::parses_to(parse, seg, r),
    {
        match second_piece_exec(path) {
            None => None,
            Some(seg) => {
                let r = parse(seg);
                assert(crate::filters::path::parses_to(parse, seg@, r));
                r
            },
        }
    }
}

/// Whether `s` holds `p` at position `i`.
pub open spec fn holds_at(s: Seq<char>, p: Seq<char>, i: int) -> bool {
    0 <= i && i + p.len() <= s.len() && s.subrange(i, i + p.len()) == p
}

/// Whether `s` holds `p` anywhere (`str::contains`).
pub open spec fn contains_piece(s: Seq<char>, p: Seq<char>) -> bool {
    exists|i: int| #[trigger] holds_at(s, p, i)
}

/// Whether `s` holds `p` anywhere.
pub fn contains_str(s: &str, p: &str) -> (r: bool)
    ensures
        r == contains_piece(s@, p@),
{
    let n = s.unicode_len();
    let m = p.unicode_len();
    if m > n {
        assert forall|i: int| !holds_at(s@, p@, i) by {}
        return false;
    }
    let mut i: usize = 0;
    while i <= n - m
        invariant
            n == s@.len(),
            m == p@.len(),
            m <= n,
            i <= n - m + 1,
            forall|k: int| 0 <= k < i ==> !holds_at(s@, p@, k),
        decreases n - m + 1 - i,
    {
        let mut j: usize = 0;
        let mut same = true;
        while j < m
            invariant
                n == s@.len(),
                m == p@.len(),
                i + m <= n,
                j <= m,
                same == (forall|k: int| 0 <= k < j ==> s@[i + k] == p@[k]),
            decreases m - j,
        {
            if s.get_char(i + j) != p.get_char(j) {
                same = false;
            }
            j = j + 1;
        }
        if same {
            assert(s@.subrange(i as int, i + m) =~= p@);
            assert(holds_at(s@, p@, i as int));
            return true;
        }
        assert(!holds_at(s@, p@, i as int)) by {
            let k = choose|k: int| 0 <= k < m && s@[i + k] != p@[k];
            assert(s@.subrange(i as int, i + m)[k] == s@[i + k]);
        }
        i = i + 1;
    }
    assert forall|k: int| !holds_at(s@, p@, k) by {
        if 0 <= k && k + m <= n {
            assert(k < i);
        }
    }
    false
}

/// The path of the URI that `s` parses as (`http::Uri::from_str`, then
/// `path`); `None` when `s` is no URI.
pub uninterp spec fn uri_path(s: Seq<char>) -> Option<Seq<char>>;

/// `s.parse::<http::Uri>()`, and its path; the result is named `uri_path`.
#[verifier::external_body]
fn parse_uri_path(s: &str) -> (r: Option<String>)
    ensures
        r matches Some(p) ==> uri_path(s@) == Some(p@),
        r is None ==> uri_path(s@) is None,
{
    match s.parse::<http::Uri>() {
        Ok(u) => Some(u.path().to_string()),
        Err(_) => None,
    }
}

/// The URI path left after `Const(p)` matched the path `s`: the default
/// URI's path `/` when `p` is all of `s`, else the path of the URI that
/// `s` without its first `p.len()` characters parses as.
pub open spec fn cut_path(s: Seq<char>, p: Seq<char>) -> Option<Seq<char>> {
    if p.len() == s.len() {
        Some("/"@)
    } else {
        uri_path(s.subrange(p.len() as int, s.len() as int))
    }
}

impl Const {
    /// The literal piece matched.
    pub closed spec fn spec_piece(&self) -> Seq<char> {
        self.p@
    }

    /// Matches the request path `path` if it holds the piece anywhere, and
    /// then cuts the piece's length from its front. The path must be ASCII,
    /// as URI paths are, and what is left must parse as a URI (`try_filter`
    /// checks both first).
    pub fn filter(&self, path: &mut String) -> (matched: bool)
        requires
            all_ascii(old(path)@),
            contains_piece(old(path)@, self.spec_piece()) ==> cut_path(old(path)@, self.spec_piece()) is Some,
        ensures
            matched == contains_piece(old(path)@, self.spec_piece()),
            matched ==> Some(final(path)@) == cut_path(old(path)@, self.spec_piece()),
            !matched ==> final(path)@ == old(path)@,
    {
        if !contains_str(path.as_str(), self.p.as_str()) {
            return false;
        }
        let n = path.as_str().unicode_len();
        let m = self.p.as_str().unicode_len();
        proof {
            let k = choose|k: int| holds_at(old(path)@, self.spec_piece(), k);
        }
        if m == n {
            *path = "/".to_owned();
        } else {
            let rest = path.as_str().substring_char(m, n);
            let cut = parse_uri_path(rest);
            *path = cut.unwrap();
        }
        true
    }

    /// Like `filter`, but `None` (with the path untouched) where `filter`
    /// requires more: a path that is not ASCII, or a rest that is no URI.
    pub fn try_filter(&self, path: &mut String) -> (r: Option<bool>)
        ensures
            r is None ==> final(path)@ == old(path)@ && (!all_ascii(old(path)@) || (contains_piece(
                old(path)@,
                self.spec_piece(),
            ) && cut_path(old(path)@, self.spec_piece()) is None)),
            r matches Some(matched) ==> {
                &&& matched == contains_piece(old(path)@, self.spec_piece())
                &&& matched ==> Some(final(path)@) == cut_path(old(path)@, self.spec_piece())
                &&& !matched ==> final(path)@ == old(path)@
            },
    {
        if !crate::text::is_ascii_str(path.as_str()) {
            return None;
        }
        if contains_str(path.as_str(), self.p.as_str()) {
            let n = path.as_str().unicode_len();
            let m = self.p.as_str().unicode_len();
            proof {
                let k = choose|k: int| holds_at(path@, self.spec_piece(), k);
            }
            if m != n {
                let rest = path.as_str().substring_char(m, n);
                if parse_uri_path(rest).is_none() {
                    return None;
                }
            }
        }
        Some(self.filter(path))
    }
}

} // verus!
