//! Path filters that report whether they matched: `Const` matches (and
//! cuts) a literal piece of the path, `Extract` extracts its first segment.
use vstd::prelude::*;
use crate::filter::and::And;
use crate::path::{contains_piece, cut_path};
use crate::text::all_ascii;
use std::marker::PhantomData;

verus! {

/// Whether a filter matched, with what it extracted.
#[derive(Debug)]
pub enum FilterResult<T> {
    Matched(T),
    Skipped,
}

/// Creates a filter that extracts the first segment of the path, parsed.
pub fn path<T>() -> (e: Extract<T>) {
    Extract { _marker: PhantomData }
}

/// A filter that extracts the first segment of the path.
pub struct Extract<T> {
    _marker: PhantomData<T>,
}

/// A filter that matches a literal piece of the path.
#[derive(Clone, Debug)]
pub struct Const {
    p: String,
}

impl<T> Extract<T> {
    /// Extracts the second piece of `path` split at `/`, parsed by `parse`;
    /// skipped if there is no such piece or it does not parse.
    pub fn filter<P: Fn(&str) -> Option<T>>(&self, path: &str, parse: P) -> (r: FilterResult<T>)
        requires
            forall|s: &str| #[trigger] call_requires(parse, (s,)),
        ensures
            crate::path::second_piece(path@) is None ==> r is Skipped,
            crate::path::second_piece(path@) matches Some(seg) ==> crate::filters::path::parses_to(
                parse,
                seg,
                match r {
                    FilterResult::Matched(t) => Some(t),
                    FilterResult::Skipped => None,
                },
            ),
    {
        let e: crate::path::Extract<T> = crate::path::path();
        match e.filter(path, parse) {
            Some(t) => FilterResult::Matched(t),
            None => FilterResult::Skipped,
        }
    }
}

impl Const {
    /// A filter that matches the literal piece `p`.
    pub fn new(p: &str) -> (c: Const)
        ensures
            c.spec_piece() == p@,
    {
        Const { p: p.to_owned() }
    }

    /// The literal piece matched.
    pub closed spec fn spec_piece(&self) -> Seq<char> {
        self.p@
    }

    /// Matches the request path `path` if it holds the piece anywhere, and
    /// then cuts the piece's length from its front (see `cut_path`). The
    /// path must be ASCII, and what is left must parse as a URI.
    pub fn filter(&self, path: &mut String) -> (r: FilterResult<()>)
        requires
            all_ascii(old(path)@),
            contains_piece(old(path)@, self.spec_piece()) ==> cut_path(old(path)@, self.spec_piece()) is Some,
        ensures
            (r is Matched) == contains_piece(old(path)@, self.spec_piece()),
            r is Matched ==> Some(final(path)@) == cut_path(old(path)@, self.spec_piece()),
            r is Skipped ==> final(path)@ == old(path)@,
    {
        let c = crate::path::exact(self.p.as_str());
        if c.filter(path) {
            FilterResult::Matched(())
        } else {
            FilterResult::Skipped
        }
    }
}

/// `p / param`: a filter that matches the piece `p`, then extracts the
/// next segment.
pub fn div<T>(p: &str, rhs: Extract<T>) -> (r: And<Const, Extract<T>>)
    ensures
        r.spec_first().spec_piece() == p@,
        r.spec_second() == rhs,
{
    And::new(Const::new(p), rhs)
}

} // verus!
