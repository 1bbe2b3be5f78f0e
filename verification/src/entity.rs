//! Entity tags and the conditional request headers built on them
//! (`ETag`, `If-Match`, `If-None-Match`, `If-Range`), read from raw header
//! bytes the way typed headers read them, and HTTP dates as seconds.
use vstd::prelude::*;
use crate::csv::{csv_items, csv_items_bytes};
use headers::Header;

verus! {

/// Whether `s` holds no double quote.
pub open spec fn no_dquote(s: Seq<u8>) -> bool {
    forall|i: int| 0 <= i < s.len() ==> s[i] != 34
}

/// Reads an entity tag: `"tag"` or `W/"tag"` with no double quote inside.
/// Yields whether it is weak, and the tag.
pub open spec fn parse_etag(s: Seq<u8>) -> Option<(bool, Seq<u8>)> {
    if s.len() < 2 || s[s.len() - 1] != 34 {
        None
    } else if s[0] == 34 {
        let t = s.subrange(1, s.len() - 1);
        if no_dquote(t) { Some((false, t)) } else { None }
    } else if s[0] == 87 && s.len() >= 4 && s[1] == 47 && s[2] == 34 {
        let t = s.subrange(3, s.len() - 1);
        if no_dquote(t) { Some((true, t)) } else { None }
    } else {
        None
    }
}

/// An entity tag, held as the header text it was read from.
pub struct EntityTag {
    raw: Vec<u8>,
}

impl EntityTag {
    #[verifier::type_invariant]
    spec fn inv(self) -> bool {
        parse_etag(self.raw@) is Some
    }

    /// The header text of the tag (`"tag"` or `W/"tag"`).
    pub closed spec fn raw(&self) -> Seq<u8> {
        self.raw@
    }

    /// Whether the tag is weak.
    pub closed spec fn weak(&self) -> bool {
        parse_etag(self.raw@).unwrap().0
    }

    /// The tag between the quotes.
    pub closed spec fn tag(&self) -> Seq<u8> {
        parse_etag(self.raw@).unwrap().1
    }

    /// Reads an entity tag from header text.
    pub fn parse(s: &[u8]) -> (r: Option<EntityTag>)
        ensures
            r is Some <==> parse_etag(s@) is Some,
            r matches Some(e) ==> e.raw() == s@ && parse_etag(s@) == Some((e.weak(), e.tag())),
    {
        let n = s.len();
        if n < 2 || s[n - 1] != 34 {
            return None;
        }
        let start: usize = if s[0] == 34 {
            1
        } else if s[0] == 87 && n >= 4 && s[1] == 47 && s[2] == 34 {
            3
        } else {
            return None;
        };
        let mut i = start;
        while i < n - 1
            invariant
                n == s@.len(),
                2 <= n,
                s@[n - 1] == 34,
                s@[0] == 34 ==> start == 1,
                s@[0] != 34 ==> start == 3 && s@[0] == 87 && n >= 4 && s@[1] == 47 && s@[2] == 34,
                start <= i <= n - 1,
                forall|j: int| start <= j < i ==> s@[j] != 34,
            decreases n - 1 - i,
        {
            if s[i] == 34 {
                assert(s@.subrange(start as int, n - 1)[i - start] == 34);
                assert(!no_dquote(s@.subrange(start as int, n - 1)));
                return None;
            }
            i = i + 1;
        }
        assert(no_dquote(s@.subrange(start as int, n - 1)));
        Some(EntityTag { raw: vstd::slice::slice_to_vec(s) })
    }

    /// The header text of the tag.
    pub fn as_bytes(&self) -> (r: &[u8])
        ensures
            r@ == self.raw(),
    {
        self.raw.as_slice()
    }

    fn tag_bounds(&self) -> (r: (usize, usize))
        ensures
            r.0 <= r.1 <= self.raw().len(),
            self.raw().subrange(r.0 as int, r.1 as int) == self.tag(),
            r.0 == 3 <==> self.weak(),
    {
        proof {
            use_type_invariant(self);
        }
        let n = self.raw.len();
        if self.raw[0] == 87 {
            (3, n - 1)
        } else {
            (1, n - 1)
        }
    }

    /// Whether the tags are equal and neither is weak (strong comparison).
    pub fn strong_eq(&self, other: &EntityTag) -> (r: bool)
        ensures
            r == (!self.weak() && !other.weak() && self.tag() == other.tag()),
    {
        let (a0, a1) = self.tag_bounds();
        let (b0, b1) = other.tag_bounds();
        if a0 == 3 || b0 == 3 {
            return false;
        }
        let x = vstd::slice::slice_subrange(self.raw.as_slice(), a0, a1);
        let y = vstd::slice::slice_subrange(other.raw.as_slice(), b0, b1);
        crate::text::bytes_eq(x, y)
    }

    /// Whether the tags are equal, weak or not (weak comparison).
    pub fn weak_eq(&self, other: &EntityTag) -> (r: bool)
        ensures
            r == (self.tag() == other.tag()),
    {
        let (a0, a1) = self.tag_bounds();
        let (b0, b1) = other.tag_bounds();
        let x = vstd::slice::slice_subrange(self.raw.as_slice(), a0, a1);
        let y = vstd::slice::slice_subrange(other.raw.as_slice(), b0, b1);
        crate::text::bytes_eq(x, y)
    }
}

impl Clone for EntityTag {
    fn clone(&self) -> (r: Self)
        ensures
            r.raw() == self.raw(),
            r.weak() == self.weak(),
            r.tag() == self.tag(),
    {
        proof {
            use_type_invariant(self);
        }
        EntityTag { raw: self.raw.clone() }
    }
}

/// The tags that a list header names, as (weak, tag) pairs; items that are
/// not entity tags are skipped.
pub open spec fn parsed_tags(items: Seq<Seq<u8>>) -> Seq<(bool, Seq<u8>)>
    decreases items.len(),
{
    if items.len() == 0 {
        Seq::empty()
    } else {
        let rest = parsed_tags(items.drop_last());
        match parse_etag(items.last()) {
            Some(t) => rest.push(t),
            None => rest,
        }
    }
}

/// Whether some tag of `tags` equals `tag` and neither is weak.
pub open spec fn strong_match(tags: Seq<(bool, Seq<u8>)>, weak: bool, tag: Seq<u8>) -> bool {
    exists|i: int| 0 <= i < tags.len() && !tags[i].0 && !weak && tags[i].1 == tag
}

/// Whether some tag of `tags` equals `tag`, weak or not.
pub open spec fn weak_match(tags: Seq<(bool, Seq<u8>)>, tag: Seq<u8>) -> bool {
    exists|i: int| 0 <= i < tags.len() && tags[i].1 == tag
}

/// The value of an `If-Match` or `If-None-Match` header.
pub enum EntityTagRange {
    /// `*`
    Any,
    /// A list of tags.
    Tags(Vec<EntityTag>),
}

/// What a range of entity tags means: `None` for `*`, else the tags.
pub open spec fn range_meaning(value: Seq<u8>) -> Option<Seq<(bool, Seq<u8>)>> {
    if value == seq![42u8] {
        None
    } else {
        Some(parsed_tags(csv_items(value, 44)))
    }
}

impl EntityTagRange {
    /// The tags as (weak, tag) pairs; `None` for `*`.
    pub closed spec fn meaning(&self) -> Option<Seq<(bool, Seq<u8>)>> {
        match self {
            EntityTagRange::Any => None,
            EntityTagRange::Tags(v) => Some(Seq::new(v@.len(), |i: int| (v@[i].weak(), v@[i].tag()))),
        }
    }

    /// Reads a range from the merged values of its header.
    pub fn parse(value: &[u8]) -> (r: EntityTagRange)
        ensures
            r.meaning() == range_meaning(value@),
    {
        if value.len() == 1 && value[0] == 42 {
            assert(value@ =~= seq![42u8]);
            return EntityTagRange::Any;
        }
        let items = csv_items_bytes(value, 44);
        let ghost its = csv_items(value@, 44);
        let mut tags: Vec<EntityTag> = Vec::new();
        let mut k: usize = 0;
        while k < items.len()
            invariant
                items@.len() == its.len(),
                forall|j: int| 0 <= j < items@.len() ==> #[trigger] items@[j]@ == its[j],
                k <= items@.len(),
                Seq::new(tags@.len(), |i: int| (tags@[i].weak(), tags@[i].tag())) == parsed_tags(
                    its.subrange(0, k as int),
                ),
            decreases items@.len() - k,
        {
            let ghost before = tags@;
            let parsed = EntityTag::parse(items[k].as_slice());
            proof {
                assert(its.subrange(0, k + 1).drop_last() =~= its.subrange(0, k as int));
                assert(its.subrange(0, k + 1).last() == items@[k as int]@);
            }
            match parsed {
                Some(t) => {
                    tags.push(t);
                    assert(Seq::new(tags@.len(), |i: int| (tags@[i].weak(), tags@[i].tag()))
                        =~= parsed_tags(its.subrange(0, k + 1)));
                },
                None => {
                    assert(Seq::new(tags@.len(), |i: int| (tags@[i].weak(), tags@[i].tag()))
                        =~= parsed_tags(its.subrange(0, k + 1)));
                },
            }
            k = k + 1;
        }
        assert(its.subrange(0, items@.len() as int) =~= its);
        assert(value@ != seq![42u8]) by {
            if value@ == seq![42u8] {
                assert(value@.len() == 1 && value@[0] == 42);
            }
        }
        EntityTagRange::Tags(tags)
    }

    /// Whether `entity` is in the range by strong comparison (`*` matches all).
    pub fn matches_strong(&self, entity: &EntityTag) -> (r: bool)
        ensures
            r == match self.meaning() {
                None => true,
                Some(tags) => strong_match(tags, entity.weak(), entity.tag()),
            },
    {
        match self {
            EntityTagRange::Any => true,
            EntityTagRange::Tags(v) => {
                let ghost tags = self.meaning().unwrap();
                let mut i: usize = 0;
                while i < v.len()
                    invariant
                        tags == Seq::new(v@.len(), |k: int| (v@[k].weak(), v@[k].tag())),
                        self.meaning() == Some(tags),
                        i <= v@.len(),
                        forall|k: int| 0 <= k < i ==> !(!tags[k].0 && !entity.weak() && tags[k].1
                            == entity.tag()),
                    decreases v@.len() - i,
                {
                    if v[i].strong_eq(entity) {
                        assert(tags[i as int] == (v@[i as int].weak(), v@[i as int].tag()));
                        assert(self.meaning() == Some(tags));
                        assert(strong_match(tags, entity.weak(), entity.tag())) by {
                            assert(0 <= i < tags.len() && !tags[i as int].0 && !entity.weak()
                                && tags[i as int].1 == entity.tag());
                        }
                        return true;
                    }
                    i = i + 1;
                }
                false
            },
        }
    }

    /// Whether `entity` is in the range by weak comparison (`*` matches all).
    pub fn matches_weak(&self, entity: &EntityTag) -> (r: bool)
        ensures
            r == match self.meaning() {
                None => true,
                Some(tags) => weak_match(tags, entity.tag()),
            },
    {
        match self {
            EntityTagRange::Any => true,
            EntityTagRange::Tags(v) => {
                let ghost tags = self.meaning().unwrap();
                let mut i: usize = 0;
                while i < v.len()
                    invariant
                        tags == Seq::new(v@.len(), |k: int| (v@[k].weak(), v@[k].tag())),
                        self.meaning() == Some(tags),
                        i <= v@.len(),
                        forall|k: int| 0 <= k < i ==> tags[k].1 != entity.tag(),
                    decreases v@.len() - i,
                {
                    if v[i].weak_eq(entity) {
                        assert(tags[i as int] == (v@[i as int].weak(), v@[i as int].tag()));
                        assert(self.meaning() == Some(tags));
                        assert(weak_match(tags, entity.tag())) by {
                            assert(0 <= i < tags.len() && tags[i as int].1 == entity.tag());
                        }
                        return true;
                    }
                    i = i + 1;
                }
                false
            },
        }
    }
}

/// The value of an `If-Range` header: an entity tag or a date (seconds
/// since the Unix epoch).
pub enum IfRange {
    EntityTag(EntityTag),
    Date(u64),
}

/// The time, in whole seconds since the Unix epoch, that an HTTP date
/// names; `None` when the text is not an HTTP date.
pub uninterp spec fn http_date_seconds(value: Seq<u8>) -> Option<u64>;

/// The HTTP date text (IMF-fixdate) of a time in seconds since the Unix epoch.
pub uninterp spec fn http_date_text(secs: u64) -> Seq<u8>;

/// Reads an HTTP date with the `headers` crate (`IfModifiedSince::decode`,
/// which reads any of the three HTTP date formats). The contract claims that
/// the result is a function of the header text alone.
#[verifier::external_body]
pub(crate) fn decode_http_date(value: &[u8]) -> (r: Option<u64>)
    ensures
        r == http_date_seconds(value@),
{
    let hv = http::HeaderValue::from_bytes(value).ok()?;
    let date = headers::IfModifiedSince::decode(&mut std::iter::once(&hv)).ok()?;
    let t: std::time::SystemTime = date.into();
    t.duration_since(std::time::UNIX_EPOCH).ok().map(|d| d.as_secs())
}

/// The first second (since the Unix epoch) of the year 10000: HTTP dates
/// are written only for earlier times.
pub const HTTP_DATE_END: u64 = 253402300800;

/// Writes a time as an HTTP date with the `headers` crate (the encoding of
/// `LastModified`, which panics from the year 10000 on, so the time must be
/// earlier). The contract claims that the text is a function of the time
/// alone.
#[verifier::external_body]
pub(crate) fn encode_http_date(secs: u64) -> (r: Vec<u8>)
    requires
        secs < HTTP_DATE_END,
    ensures
        r@ == http_date_text(secs),
{
    let t = std::time::UNIX_EPOCH + std::time::Duration::from_secs(secs);
    let mut values: Vec<http::HeaderValue> = Vec::new();
    headers::LastModified::from(t).encode(&mut values);
    values[0].as_bytes().to_vec()
}

/// What an `If-Range` value means: a tag, else a date, else nothing.
pub open spec fn if_range_meaning(value: Seq<u8>) -> Option<Result<(bool, Seq<u8>), u64>> {
    match parse_etag(value) {
        Some(t) => Some(Ok(t)),
        None => match http_date_seconds(value) {
            Some(d) => Some(Err(d)),
            None => None,
        },
    }
}

impl IfRange {
    /// The value: `Ok` a (weak, tag) pair, `Err` a date.
    pub closed spec fn meaning(&self) -> Result<(bool, Seq<u8>), u64> {
        match self {
            IfRange::EntityTag(e) => Ok((e.weak(), e.tag())),
            IfRange::Date(d) => Err(*d),
        }
    }

    /// Reads an `If-Range` value: an entity tag if it is one, else a date.
    pub fn parse(value: &[u8]) -> (r: Option<IfRange>)
        ensures
            r matches Some(x) ==> if_range_meaning(value@) == Some(x.meaning()),
            r is None ==> if_range_meaning(value@) is None,
    {
        match EntityTag::parse(value) {
            Some(e) => Some(IfRange::EntityTag(e)),
            None => match decode_http_date(value) {
                Some(d) => Some(IfRange::Date(d)),
                None => None,
            },
        }
    }

    /// Whether the resource changed since the tag or date given, so that a
    /// range request must be answered in full. Without a tag (or date) of
    /// the resource, it counts as changed.
    pub fn is_modified(&self, etag: Option<&EntityTag>, last_modified: Option<u64>) -> (r: bool)
        ensures
            r == match self.meaning() {
                Err(since) => match last_modified {
                    Some(t) => since < t,
                    None => true,
                },
                Ok(tag) => match etag {
                    Some(e) => !(!e.weak() && !tag.0 && e.tag() == tag.1),
                    None => true,
                },
            },
    {
        match self {
            IfRange::Date(since) => match last_modified {
                Some(t) => *since < t,
                None => true,
            },
            IfRange::EntityTag(entity) => match etag {
                Some(e) => !e.strong_eq(entity),
                None => true,
            },
        }
    }
}

} // verus!
