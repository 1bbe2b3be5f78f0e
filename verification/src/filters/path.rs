//! Path Filters
//!
//! The filters here work on the "path" of requests.
//!
//! - `path` matches a specific segment, like `/foo`.
//! - `param` tries to parse a segment into a value, like `/:u16`.
//! - `end` matches when the path end is found.
//!
//! Each takes the route whose path is being matched: a filter that matches
//! marks the segments it consumed as matched, and one that rejects leaves
//! the route as it was.
use vstd::prelude::*;
use crate::reject::Rejection;
use crate::route::{advanced_index, Route};
use crate::text::{first_index_from, lemma_first_index_from};

verus! {

/// The first segment of the path `p`: all before the first `/`.
pub open spec fn first_segment(p: Seq<char>) -> Seq<char> {
    match first_index_from(p, 0, '/') {
        Some(i) => p.subrange(0, i),
        None => p,
    }
}

/// The route after a filter matched the segment `seg` at the start of its
/// unmatched path.
pub open spec fn consumed(old_route: Route, new_route: Route, seg_len: nat) -> bool {
    &&& new_route.same_request(&old_route)
    &&& new_route.spec_index() == advanced_index(
        old_route.spec_full_path().len(),
        old_route.spec_index(),
        seg_len,
    )
}

/// The first segment of the route's unmatched path.
fn first_segment_exec(route: &Route) -> (s: &str)
    ensures
        s@ == first_segment(route.spec_path()),
        s@.len() <= route.spec_path().len(),
{
    let _ = route.matched_path_index();
    let p = route.path();
    proof {
        lemma_first_index_from(p@, 0, '/');
    }
    match crate::text::find_char(p, 0, '/') {
        Some(i) => p.substring_char(0, i),
        None => p,
    }
}

/// Marks the first `n` characters of the unmatched path as matched.
fn consume(route: &mut Route, n: usize)
    requires
        n <= old(route).spec_path().len(),
    ensures
        consumed(*old(route), *final(route), n as nat),
{
    let _ = route.matched_path_index();
    route.set_unmatched_path(n);
}

/// Matches the segment `p` at the start of the unmatched path, and marks
/// it as matched; rejects with `404` otherwise. `p` must be non-empty and
/// hold no `/`.
pub fn path(route: &mut Route, p: &str) -> (r: Result<(), Rejection>)
    requires
        p@.len() > 0,
        !p@.contains('/'),
    ensures
        first_segment(old(route).spec_path()) == p@ ==> r is Ok && consumed(
            *old(route),
            *final(route),
            p@.len(),
        ),
        first_segment(old(route).spec_path()) != p@ ==> r == Err::<(), Rejection>(
            Rejection::NotFound,
        ) && *final(route) == *old(route),
{
    let seg = first_segment_exec(route);
    if !crate::text::str_eq(seg, p) {
        return Err(Rejection::NotFound);
    }
    let n = seg.unicode_len();
    consume(route, n);
    Ok(())
}

/// Matches the end of a route: nothing of the path is left unmatched.
pub fn end(route: &Route) -> (r: Result<(), Rejection>)
    ensures
        route.spec_path().len() == 0 ==> r is Ok,
        route.spec_path().len() != 0 ==> r == Err::<(), Rejection>(Rejection::NotFound),
{
    if route.path().unicode_len() == 0 {
        Ok(())
    } else {
        Err(Rejection::NotFound)
    }
}

/// Matches the end of a route (the former name of `end`).
pub fn index(route: &Route) -> (r: Result<(), Rejection>)
    ensures
        route.spec_path().len() == 0 ==> r is Ok,
        route.spec_path().len() != 0 ==> r == Err::<(), Rejection>(Rejection::NotFound),
{
    end(route)
}

/// Whether `parse` may give `out` for some string slice that holds `seg`.
pub open spec fn parses_to<T, P: Fn(&str) -> Option<T>>(parse: P, seg: Seq<char>, out: Option<T>) -> bool {
    exists|s: &str| s@ == seg && #[trigger] call_ensures(parse, (s,), out)
}

/// Extracts the first segment of the path, parsed by `parse`, and marks it as matched; rejects with `404` if
/// the segment is empty or does not parse.
pub fn param<T, P: Fn(&str) -> Option<T>>(route: &mut Route, parse: P) -> (r: Result<(T,), Rejection>)
    requires
        forall|s: &str| #[trigger] call_requires(parse, (s,)),
    ensures
        match r {
            Ok(t) => {
                &&& first_segment(old(route).spec_path()).len() > 0
                &&& parses_to(parse, first_segment(old(route).spec_path()), Some(t.0))
                &&& consumed(*old(route), *final(route), first_segment(old(route).spec_path()).len())
            },
            Err(e) => {
                &&& e == Rejection::NotFound
                &&& *final(route) == *old(route)
                &&& (first_segment(old(route).spec_path()).len() == 0 || parses_to(
                    parse,
                    first_segment(old(route).spec_path()),
                    None,
                ))
            },
        },
{
    let seg = first_segment_exec(route);
    let n = seg.unicode_len();
    if n == 0 {
        return Err(Rejection::NotFound);
    }
    let parsed = parse(seg);
    match parsed {
        Some(t) => {
            assert(call_ensures(parse, (seg,), Some(t)));
            let ghost pre = *route;
            consume(route, n);
            let r = (t,);
            assert(parses_to(parse, seg@, Some(r.0)));
            Ok(r)
        },
        None => {
            assert(call_ensures(parse, (seg,), None::<T>));
            assert(parses_to(parse, seg@, None::<T>));
            Err(Rejection::NotFound)
        },
    }
}

/// Extracts the first segment of the path like `param`.
pub fn param2<T, P: Fn(&str) -> Option<T>>(route: &mut Route, parse: P) -> (r: Result<(T,), Rejection>)
    requires
        forall|s: &str| #[trigger] call_requires(parse, (s,)),
    ensures
        match r {
            Ok(t) => {
                &&& first_segment(old(route).spec_path()).len() > 0
                &&& parses_to(parse, first_segment(old(route).spec_path()), Some(t.0))
                &&& consumed(*old(route), *final(route), first_segment(old(route).spec_path()).len())
            },
            Err(e) => {
                &&& e == Rejection::NotFound
                &&& *final(route) == *old(route)
                &&& (first_segment(old(route).spec_path()).len() == 0 || parses_to(
                    parse,
                    first_segment(old(route).spec_path()),
                    None,
                ))
            },
        },
{
    param(route, parse)
}

/// Represents the tail part of a request path, returned by the `tail`
/// filter.
#[derive(Debug)]
pub struct Tail {
    path: String,
    start_index: usize,
}

impl Tail {
    /// The request's full path.
    pub closed spec fn spec_path(&self) -> Seq<char> {
        self.path@
    }

    /// Where the tail starts.
    pub closed spec fn spec_start(&self) -> nat {
        self.start_index as nat
    }

    #[verifier::type_invariant]
    spec fn inv(&self) -> bool {
        self.start_index <= self.path@.len()
    }

    /// Get the `&str` representation of the remaining path.
    pub fn as_str(&self) -> (s: &str)
        ensures
            s@ == self.spec_path().subrange(self.spec_start() as int, self.spec_path().len() as int),
    {
        proof {
            use_type_invariant(self);
        }
        let len = self.path.as_str().unicode_len();
        self.path.as_str().substring_char(self.start_index, len)
    }
}

/// Extracts the remaining tail of the path, and marks the whole path as
/// matched. Never rejects.
pub fn tail(route: &mut Route) -> (t: Tail)
    ensures
        t.spec_path() == old(route).spec_full_path(),
        t.spec_start() == old(route).spec_index(),
        final(route).same_request(old(route)),
        final(route).spec_index() == old(route).spec_full_path().len(),
        final(route).spec_path().len() == 0,
{
    let path = route.full_path().to_owned();
    let idx = route.matched_path_index();
    let end = path.as_str().unicode_len() - idx;
    route.set_unmatched_path(end);
    Tail { path, start_index: idx }
}

/// Peeks at the unmatched tail of the path, without marking it as matched.
#[derive(Debug)]
pub struct Peek {
    path: String,
    start_index: usize,
}

/// The non-empty pieces of `s` between its `/`s, from position `i` on, the
/// current piece having begun at `start`.
pub open spec fn segments_from(s: Seq<char>, i: int, start: int) -> Seq<Seq<char>>
    decreases s.len() - i,
{
    if i >= s.len() {
        if start < s.len() {
            seq![s.subrange(start, s.len() as int)]
        } else {
            Seq::empty()
        }
    } else if s[i] == '/' {
        if start < i {
            seq![s.subrange(start, i)] + segments_from(s, i + 1, i + 1)
        } else {
            segments_from(s, i + 1, i + 1)
        }
    } else {
        segments_from(s, i + 1, start)
    }
}

/// The non-empty segments of the path `s`.
pub open spec fn path_segments(s: Seq<char>) -> Seq<Seq<char>> {
    segments_from(s, 0, 0)
}

/// Whether a character is not `/`.
pub open spec fn not_slash() -> spec_fn(char) -> bool {
    |c: char| c != '/'
}

/// Filtering out `/` leaves a sequence without `/` as it is.
proof fn lemma_filter_no_slash(t: Seq<char>)
    requires
        forall|j: int| 0 <= j < t.len() ==> t[j] != '/',
    ensures
        t.filter(not_slash()) == t,
    decreases t.len(),
{
    reveal_with_fuel(Seq::<_>::filter, 1);
    if t.len() > 0 {
        lemma_filter_no_slash(t.drop_last());
        assert(t.drop_last().push(t.last()) =~= t);
    }
}

/// One piece followed by more pieces flattens to the piece and then the
/// rest.
proof fn lemma_flatten_cons(x: Seq<char>, rest: Seq<Seq<char>>)
    ensures
        (seq![x] + rest).flatten() == x + rest.flatten(),
{
    let l = seq![x] + rest;
    assert(l.first() == x);
    assert(l.drop_first() =~= rest);
}

/// Whether `seg` stands in `s` at `p` between two `/`s (or the ends of
/// `s`).
pub open spec fn delimited_at(s: Seq<char>, p: int, seg: Seq<char>) -> bool {
    &&& 0 <= p
    &&& p + seg.len() <= s.len()
    &&& s.subrange(p, p + seg.len()) == seg
    &&& (p == 0 || s[p - 1] == '/')
    &&& (p + seg.len() == s.len() || s[p + seg.len()] == '/')
}

/// Whether `seg` stands somewhere in `s` between two `/`s (or the ends of
/// `s`).
pub open spec fn delimited_in(s: Seq<char>, seg: Seq<char>) -> bool {
    exists|p: int| #[trigger] delimited_at(s, p, seg)
}

proof fn lemma_segments_from_cover(s: Seq<char>, i: int, start: int)
    requires
        0 <= start <= i <= s.len(),
        forall|j: int| start <= j < i ==> s[j] != '/',
    ensures
        segments_from(s, i, start).flatten() == s.subrange(start, s.len() as int).filter(not_slash()),
        forall|k: int| 0 <= k < segments_from(s, i, start).len() ==> (#[trigger] segments_from(s, i, start)[k]).len() > 0
            && !segments_from(s, i, start)[k].contains('/'),
    decreases s.len() - i,
{
    reveal_with_fuel(Seq::<_>::filter, 1);
    let tail = s.subrange(start, s.len() as int);
    if i >= s.len() {
        if start < s.len() {
            assert(segments_from(s, i, start) == seq![tail]);
            lemma_filter_no_slash(tail);
            lemma_flatten_cons(tail, Seq::empty());
            assert(seq![tail] + Seq::<Seq<char>>::empty() =~= seq![tail]);
            assert(tail + Seq::<char>::empty() =~= tail);
        } else {
            assert(tail =~= Seq::<char>::empty());
        }
    } else if s[i] == '/' {
        lemma_segments_from_cover(s, i + 1, i + 1);
        let piece = s.subrange(start, i);
        let after = s.subrange(i + 1, s.len() as int);
        let rest = segments_from(s, i + 1, i + 1);
        assert(tail =~= piece + seq!['/'] + after);
        Seq::filter_distributes_over_add(piece + seq!['/'], after, not_slash());
        Seq::filter_distributes_over_add(piece, seq!['/'], not_slash());
        assert(seq!['/'].filter(not_slash()) =~= Seq::<char>::empty()) by {
            reveal_with_fuel(Seq::<_>::filter, 2);
            assert(seq!['/'].drop_last() =~= Seq::<char>::empty());
            assert(!(not_slash())('/'));
        }
        lemma_filter_no_slash(piece);
        if start < i {
            lemma_flatten_cons(piece, rest);
            let segs = seq![piece] + rest;
            assert forall|k: int| 0 <= k < segs.len() implies (#[trigger] segs[k]).len() > 0 && !segs[k].contains('/') by {
                if k > 0 {
                    assert(segs[k] == rest[k - 1]);
                } else {
                    assert(segs[0] == piece);
                }
            }
            assert(segments_from(s, i, start) == segs);
        } else {
            assert(segments_from(s, i, start) == rest);
            assert(piece =~= Seq::<char>::empty());
        }
        assert(piece + Seq::<char>::empty() =~= piece);
    } else {
        lemma_segments_from_cover(s, i + 1, start);
        assert(segments_from(s, i, start) == segments_from(s, i + 1, start));
    }
}

proof fn lemma_segments_from_delimited(s: Seq<char>, i: int, start: int)
    requires
        0 <= start <= i <= s.len(),
        forall|j: int| start <= j < i ==> s[j] != '/',
        start == 0 || s[start - 1] == '/',
    ensures
        forall|k: int| 0 <= k < segments_from(s, i, start).len() ==> delimited_in(s, #[trigger] segments_from(s, i, start)[k]),
    decreases s.len() - i,
{
    let segs = segments_from(s, i, start);
    if i >= s.len() {
        if start < s.len() {
            let tail = s.subrange(start, s.len() as int);
            assert(segs == seq![tail]);
            assert(segs[0] == tail);
            assert(delimited_at(s, start, segs[0]));
        }
    } else if s[i] == '/' {
        lemma_segments_from_delimited(s, i + 1, i + 1);
        let rest = segments_from(s, i + 1, i + 1);
        if start < i {
            let piece = s.subrange(start, i);
            assert(segs == seq![piece] + rest);
            assert forall|k: int| 0 <= k < segs.len() implies delimited_in(s, #[trigger] segs[k]) by {
                if k > 0 {
                    assert(segs[k] == rest[k - 1]);
                } else {
                    assert(segs[0] == piece);
                    assert(delimited_at(s, start, segs[0]));
                }
            }
        } else {
            assert(segs == rest);
        }
    } else {
        lemma_segments_from_delimited(s, i + 1, start);
        assert(segs == segments_from(s, i + 1, start));
    }
}

/// The segments of a path hold every character of it but the `/`s, in
/// order: joined together they give the path with its `/`s removed. Each
/// segment is non-empty, holds no `/`, and stands in the path between two
/// `/`s (or the path's ends), so no segment is cut short or glued to the
/// next.
pub proof fn lemma_segments_cover_path(s: Seq<char>)
    ensures
        forall|k: int| 0 <= k < path_segments(s).len() ==> delimited_in(s, #[trigger] path_segments(s)[k]),
        path_segments(s).flatten() == s.filter(not_slash()),
        forall|k: int| 0 <= k < path_segments(s).len() ==> (#[trigger] path_segments(s)[k]).len() > 0
            && !path_segments(s)[k].contains('/'),
{
    lemma_segments_from_cover(s, 0, 0);
    lemma_segments_from_delimited(s, 0, 0);
    assert(s.subrange(0, s.len() as int) =~= s);
    assert(path_segments(s) == segments_from(s, 0, 0));
    assert forall|k: int| 0 <= k < path_segments(s).len() implies delimited_in(s, #[trigger] path_segments(s)[k]) by {
        assert(path_segments(s)[k] == segments_from(s, 0, 0)[k]);
    }
}

impl Peek {
    /// The request's full path.
    pub closed spec fn spec_path(&self) -> Seq<char> {
        self.path@
    }

    /// Where the peeked part starts.
    pub closed spec fn spec_start(&self) -> nat {
        self.start_index as nat
    }

    #[verifier::type_invariant]
    spec fn inv(&self) -> bool {
        self.start_index <= self.path@.len()
    }

    /// The unmatched part of the path.
    pub open spec fn spec_rest(&self) -> Seq<char> {
        self.spec_path().subrange(self.spec_start() as int, self.spec_path().len() as int)
    }

    /// Get the `&str` representation of the remaining path.
    pub fn as_str(&self) -> (s: &str)
        ensures
            s@ == self.spec_rest(),
    {
        proof {
            use_type_invariant(self);
        }
        let len = self.path.as_str().unicode_len();
        self.path.as_str().substring_char(self.start_index, len)
    }

    /// Get the non-empty segments of the remaining path, in order.
    pub fn segments(&self) -> (v: Vec<&str>)
        ensures
            v@.len() == path_segments(self.spec_rest()).len(),
            forall|k: int| 0 <= k < v@.len() ==> #[trigger] v@[k]@ == path_segments(self.spec_rest())[k],
    {
        let s = self.as_str();
        let len = s.unicode_len();
        let ghost all = path_segments(s@);
        let ghost mut done: Seq<Seq<char>> = Seq::empty();
        let mut out: Vec<&str> = Vec::new();
        let mut start: usize = 0;
        let mut i: usize = 0;
        while i < len
            invariant
                len == s@.len(),
                start <= i <= len,
                all == path_segments(s@),
                all == done + segments_from(s@, i as int, start as int),
                out@.len() == done.len(),
                forall|k: int| 0 <= k < out@.len() ==> #[trigger] out@[k]@ == done[k],
            decreases len - i,
        {
            if s.get_char(i) == '/' {
                if start < i {
                    let piece = s.substring_char(start, i);
                    out.push(piece);
                    proof {
                        done = done.push(piece@);
                        assert(all =~= done + segments_from(s@, i + 1, i + 1));
                    }
                } else {
                    assert(all =~= done + segments_from(s@, i + 1, i + 1));
                }
                start = i + 1;
            }
            i = i + 1;
        }
        if start < len {
            let piece = s.substring_char(start, len);
            out.push(piece);
            proof {
                done = done.push(piece@);
            }
        }
        assert(all =~= done);
        out
    }
}

/// Peeks at the unmatched tail of the path; never rejects, and leaves the
/// route as it was.
pub fn peek(route: &Route) -> (p: Peek)
    ensures
        p.spec_path() == route.spec_full_path(),
        p.spec_start() == route.spec_index(),
        p.spec_rest() == route.spec_path(),
{
    Peek { path: route.full_path().to_owned(), start_index: route.matched_path_index() }
}

/// Represents the full request path, returned by the `full` filter.
#[derive(Debug)]
pub struct FullPath(String);

impl FullPath {
    pub closed spec fn spec_path(&self) -> Seq<char> {
        self.0@
    }

    /// Get the `&str` representation of the request path.
    pub fn as_str(&self) -> (s: &str)
        ensures
            s@ == self.spec_path(),
    {
        self.0.as_str()
    }
}

/// Returns the full request path, whatever has been matched; never
/// rejects.
pub fn full(route: &Route) -> (f: FullPath)
    ensures
        f.spec_path() == route.spec_full_path(),
{
    FullPath(route.full_path().to_owned())
}

// ===== Laws =====

/// Matching a segment consumes it and nothing of the rest: what `peek`
/// shows afterwards is the path after that segment and its `/`.
pub proof fn lemma_path_then_rest(old_route: Route, new_route: Route, p: Seq<char>)
    requires
        p.len() > 0,
        first_segment(old_route.spec_path()) == p,
        consumed(old_route, new_route, p.len()),
        old_route.spec_index() <= old_route.spec_full_path().len(),
    ensures
        old_route.spec_path().len() == p.len() ==> new_route.spec_path().len() == 0,
        old_route.spec_path().len() > p.len() ==> new_route.spec_path() == old_route.spec_path().subrange(
            p.len() + 1int,
            old_route.spec_path().len() as int,
        ),
{
    let full = old_route.spec_full_path();
    let s = old_route.spec_index();
    assert(old_route.spec_path().len() == full.len() - s);
    if old_route.spec_path().len() > p.len() {
        assert(new_route.spec_path() =~= old_route.spec_path().subrange(
            p.len() + 1int,
            old_route.spec_path().len() as int,
        ));
    }
}

} // verus!
